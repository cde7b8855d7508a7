//! Cross-Reference Deduplicator: collects "meta extension" links from every
//! Ready meta source in list order, keeps the first occurrence of each link
//! address, drops later duplicates, and resolves each survivor's owning
//! addon through the directory lookup; a link whose origin addon cannot be
//! resolved is dropped entirely.

use vstd::prelude::*;
use vstd::string::StringExecFns;

use crate::addons::addon_pred;
use crate::seq_util::{first_ix, lemma_first_ix, lemma_first_ix_is};
use crate::types::{DescriptorPreview, Link, Loadable, MetaItem, Profile, ResourceLoadable};

verus! {

/// A meta-extension link paired with the origin address of the source that
/// declared it.
#[derive(Debug, PartialEq, Eq, Clone)]
pub struct LinkCandidate {
    pub base: String,
    pub link: Link,
}

/// One surviving meta-extension entry: the link plus its resolved owning
/// addon.
#[derive(Debug, PartialEq, Eq, Clone)]
pub struct MetaExtension {
    pub url: String,
    pub name: String,
    pub addon_transport_url: String,
    pub addon_name: String,
    pub addon_logo: Option<String>,
}

/// The links of one source that carry the meta-resource category, in their
/// declared order, each paired with the source's origin address.
pub open spec fn meta_links_of(base: String, links: Seq<Link>) -> Seq<LinkCandidate>
    decreases links.len(),
{
    if links.len() == 0 {
        Seq::empty()
    } else {
        let rest = meta_links_of(base, links.drop_last());
        if links.last().category@ == "meta"@ {
            rest.push(LinkCandidate { base, link: links.last() })
        } else {
            rest
        }
    }
}

/// All meta-extension candidates of a source list: every Ready source
/// contributes its meta-category links, in traversal order.
pub open spec fn candidate_links(cats: Seq<ResourceLoadable<MetaItem>>) -> Seq<LinkCandidate>
    decreases cats.len(),
{
    if cats.len() == 0 {
        Seq::empty()
    } else {
        candidate_links(cats.drop_last()) + (match cats.last().content {
            Loadable::Ready(m) => meta_links_of(cats.last().request.base, m.links@),
            _ => Seq::empty(),
        })
    }
}

/// Whether some candidate in `s` carries the link address `u`.
pub open spec fn seen(s: Seq<LinkCandidate>, u: Seq<char>) -> bool {
    exists|i: int| 0 <= i < s.len() && s[i].link.url@ == u
}

/// The predicate "this candidate carries the link address `u`".
pub open spec fn url_pred(u: Seq<char>) -> spec_fn(LinkCandidate) -> bool {
    |c: LinkCandidate| c.link.url@ == u
}

/// `s` with every candidate dropped whose link address appeared earlier:
/// first occurrence retained, relative order preserved.
pub open spec fn dedup_links(s: Seq<LinkCandidate>) -> Seq<LinkCandidate>
    decreases s.len(),
{
    if s.len() == 0 {
        s
    } else {
        let rest = dedup_links(s.drop_last());
        if seen(s.drop_last(), s.last().link.url@) {
            rest
        } else {
            rest.push(s.last())
        }
    }
}

/// Each candidate resolved against the installed-addon list: survivors keep
/// their order and carry the owning addon's address, name and logo; a
/// candidate with no matching addon is dropped.
pub open spec fn resolve_candidates(
    cands: Seq<LinkCandidate>,
    addons: Seq<DescriptorPreview>,
) -> Seq<MetaExtension>
    decreases cands.len(),
{
    if cands.len() == 0 {
        Seq::empty()
    } else {
        let rest = resolve_candidates(cands.drop_last(), addons);
        let c = cands.last();
        let i = first_ix(addons, addon_pred(c.base));
        if i < addons.len() {
            rest.push(
                MetaExtension {
                    url: c.link.url,
                    name: c.link.name,
                    addon_transport_url: addons[i].transport_url,
                    addon_name: addons[i].manifest.name,
                    addon_logo: addons[i].manifest.logo,
                },
            )
        } else {
            rest
        }
    }
}

/// Deduplication neither invents nor loses link addresses.
pub proof fn lemma_dedup_seen(s: Seq<LinkCandidate>)
    ensures
        forall|u: Seq<char>| #[trigger] seen(dedup_links(s), u) == seen(s, u),
    decreases s.len(),
{
    if s.len() > 0 {
        let d = s.drop_last();
        lemma_dedup_seen(d);
        assert forall|u: Seq<char>| #[trigger] seen(dedup_links(s), u) == seen(s, u) by {
            if seen(d, u) {
                let i = choose|i: int| 0 <= i < d.len() && d[i].link.url@ == u;
                assert(s[i].link.url@ == u);
                assert(seen(s, u));
            }
            if s.last().link.url@ == u {
                assert(s[s.len() - 1].link.url@ == u);
                assert(seen(s, u));
            }
            if seen(s, u) {
                let i = choose|i: int| 0 <= i < s.len() && s[i].link.url@ == u;
                if i < s.len() - 1 {
                    assert(d[i].link.url@ == u);
                    assert(seen(d, u));
                }
            }
            if seen(dedup_links(s), u) {
                if seen(d, s.last().link.url@) {
                    assert(seen(dedup_links(d), u));
                } else {
                    let i = choose|i: int|
                        0 <= i < dedup_links(s).len() && dedup_links(s)[i].link.url@ == u;
                    if i < dedup_links(s).len() - 1 {
                        assert(dedup_links(d)[i].link.url@ == u);
                        assert(seen(dedup_links(d), u));
                    } else {
                        assert(seen(s, u));
                    }
                }
            }
            if seen(s, u) {
                if seen(d, u) {
                    assert(seen(dedup_links(d), u));
                    let i = choose|i: int|
                        0 <= i < dedup_links(d).len() && dedup_links(d)[i].link.url@ == u;
                    assert(dedup_links(s)[i].link.url@ == u);
                    assert(seen(dedup_links(s), u));
                } else {
                    assert(s.last().link.url@ == u);
                    assert(!seen(d, s.last().link.url@));
                    assert(dedup_links(s)[dedup_links(s).len() - 1].link.url@ == u);
                    assert(seen(dedup_links(s), u));
                }
            }
        }
    }
}

/// Deduplication keeps first-seen order and drops exact duplicate
/// addresses: the output's addresses are pairwise distinct, every output
/// entry is the input entry at its address's first occurrence, and output
/// order follows the order of those first occurrences.
pub proof fn lemma_dedup_links_properties(s: Seq<LinkCandidate>)
    ensures
        forall|i: int, j: int|
            0 <= i < j < dedup_links(s).len() ==> dedup_links(s)[i].link.url@
                != dedup_links(s)[j].link.url@,
        forall|i: int|
            0 <= i < dedup_links(s).len() ==> {
                let f = first_ix(s, url_pred(#[trigger] dedup_links(s)[i].link.url@));
                f < s.len() && dedup_links(s)[i] == s[f]
            },
        forall|i: int, j: int|
            0 <= i < j < dedup_links(s).len() ==> first_ix(
                s,
                url_pred(dedup_links(s)[i].link.url@),
            ) < first_ix(s, url_pred(dedup_links(s)[j].link.url@)),
    decreases s.len(),
{
    if s.len() > 0 {
        let d = s.drop_last();
        let out = dedup_links(s);
        let rest = dedup_links(d);
        lemma_dedup_links_properties(d);
        lemma_dedup_seen(d);
        // An element of the deduplicated prefix has its address inside the
        // prefix, so its first occurrence is the same in `s` as in `d`.
        assert forall|i: int| 0 <= i < rest.len() implies {
            let f = first_ix(s, url_pred(#[trigger] rest[i].link.url@));
            f < d.len() && rest[i] == s[f] && f == first_ix(d, url_pred(rest[i].link.url@))
        } by {
            let p = url_pred(rest[i].link.url@);
            let fd = first_ix(d, p);
            lemma_first_ix(d, p);
            assert(forall|k: int| 0 <= k < d.len() ==> s[k] == d[k]);
            lemma_first_ix_is(s, p, fd);
        }
        if seen(d, s.last().link.url@) {
            assert(out =~= rest);
        } else {
            assert(out =~= rest.push(s.last()));
            let u = s.last().link.url@;
            // The new entry's address first occurs at the very end of `s`.
            assert forall|m: int| 0 <= m < s.len() - 1 implies !url_pred(u)(s[m]) by {
                if s[m].link.url@ == u {
                    assert(d[m].link.url@ == u);
                    assert(seen(d, u));
                }
            }
            lemma_first_ix_is(s, url_pred(u), s.len() - 1);
            // Its address differs from every earlier output address.
            assert forall|i: int| 0 <= i < rest.len() implies rest[i].link.url@ != u by {
                if rest[i].link.url@ == u {
                    assert(seen(rest, rest[i].link.url@));
                    assert(seen(d, u));
                }
            }
        }
    }
}

/// Scans for a candidate that already carries `url`.
fn contains_url(v: &Vec<LinkCandidate>, url: &String) -> (r: bool)
    ensures
        r == seen(v@, url@),
{
    let n = v.len();
    let mut i: usize = 0;
    while i < n
        invariant
            0 <= i <= n,
            n == v@.len(),
            forall|j: int| 0 <= j < i ==> v@[j].link.url@ != url@,
        decreases n - i,
    {
        if v[i].link.url == *url {
            return true;
        }
        i += 1;
    }
    false
}

/// Scans the installed-addon list for the first addon whose origin address
/// equals `base` and returns its position.
fn find_addon_index(profile: &Profile, base: &String) -> (r: Option<usize>)
    ensures
        match r {
            Some(u) => u < profile.addons@.len() && first_ix(profile.addons@, addon_pred(*base))
                == u as int,
            None => first_ix(profile.addons@, addon_pred(*base)) == profile.addons@.len(),
        },
{
    let n = profile.addons.len();
    let mut i: usize = 0;
    while i < n
        invariant
            0 <= i <= n,
            n == profile.addons@.len(),
            forall|j: int| 0 <= j < i ==> profile.addons@[j].transport_url@ != base@,
        decreases n - i,
    {
        if profile.addons[i].transport_url == *base {
            proof {
                lemma_first_ix_is(profile.addons@, addon_pred(*base), i as int);
            }
            return Some(i);
        }
        i += 1;
    }
    proof {
        lemma_first_ix(profile.addons@, addon_pred(*base));
        if first_ix(profile.addons@, addon_pred(*base)) < profile.addons@.len() {
            assert(addon_pred(*base)(
                profile.addons@[first_ix(profile.addons@, addon_pred(*base))],
            ));
        }
    }
    None
}

/// Collects the meta-extension entries of a meta-source list: meta-category
/// links of every Ready source in traversal order, first occurrence per
/// link address retained, each survivor resolved to its owning addon, and
/// unresolvable survivors dropped.
pub fn collect_meta_extensions(
    meta_catalogs: &Vec<ResourceLoadable<MetaItem>>,
    profile: &Profile,
) -> (r: Vec<MetaExtension>)
    ensures
        r@ == resolve_candidates(
            dedup_links(candidate_links(meta_catalogs@)),
            profile.addons@,
        ),
{
    let meta_name = String::from_str("meta");
    let mut cands: Vec<LinkCandidate> = Vec::new();
    let n = meta_catalogs.len();
    let mut c: usize = 0;
    while c < n
        invariant
            0 <= c <= n,
            n == meta_catalogs@.len(),
            meta_name@ == "meta"@,
            cands@ == candidate_links(meta_catalogs@.take(c as int)),
        decreases n - c,
    {
        let cat = &meta_catalogs[c];
        match &cat.content {
            Loadable::Ready(m) => {
                let ln = m.links.len();
                let mut j: usize = 0;
                while j < ln
                    invariant
                        0 <= j <= ln,
                        0 <= c < n,
                        n == meta_catalogs@.len(),
                        meta_catalogs@[c as int].content is Ready,
                        *m == meta_catalogs@[c as int].content->Ready_0,
                        *cat == meta_catalogs@[c as int],
                        ln == meta_catalogs@[c as int].content->Ready_0.links@.len(),
                        meta_name@ == "meta"@,
                        cands@ == candidate_links(meta_catalogs@.take(c as int)) + meta_links_of(
                            meta_catalogs@[c as int].request.base,
                            meta_catalogs@[c as int].content->Ready_0.links@.take(j as int),
                        ),
                    decreases ln - j,
                {
                    let ghost links = meta_catalogs@[c as int].content->Ready_0.links@;
                    let ghost base = meta_catalogs@[c as int].request.base;
                    proof {
                        assert(links.take(j + 1).drop_last() =~= links.take(j as int));
                        assert(links.take(j + 1).last() == links[j as int]);
                    }
                    let l = &m.links[j];
                    if l.category == meta_name {
                        cands.push(
                            LinkCandidate {
                                base: cat.request.base.clone(),
                                link: Link {
                                    name: l.name.clone(),
                                    category: l.category.clone(),
                                    url: l.url.clone(),
                                },
                            },
                        );
                        proof {
                            assert(cands@.last() == LinkCandidate { base, link: links[j as int] });
                            assert(cands@ =~= candidate_links(meta_catalogs@.take(c as int))
                                + meta_links_of(base, links.take(j + 1)));
                        }
                    }
                    j += 1;
                }
                proof {
                    let ghost links = meta_catalogs@[c as int].content->Ready_0.links@;
                    assert(links.take(links.len() as int) =~= links);
                    assert(meta_catalogs@.take(c + 1).drop_last() =~= meta_catalogs@.take(c as int));
                    assert(meta_catalogs@.take(c + 1).last() == meta_catalogs@[c as int]);
                    assert(cands@ =~= candidate_links(meta_catalogs@.take(c + 1)));
                }
            },
            _ => {
                proof {
                    assert(meta_catalogs@.take(c + 1).drop_last() =~= meta_catalogs@.take(c as int));
                    assert(meta_catalogs@.take(c + 1).last() == meta_catalogs@[c as int]);
                    assert(cands@ =~= candidate_links(meta_catalogs@.take(c + 1)));
                }
            },
        }
        c += 1;
    }
    proof {
        assert(meta_catalogs@.take(n as int) =~= meta_catalogs@);
    }
    let ghost all_cands = cands@;
    let mut deduped: Vec<LinkCandidate> = Vec::new();
    let mut k: usize = 0;
    let cn = cands.len();
    while k < cn
        invariant
            0 <= k <= cn,
            cn == all_cands.len(),
            cands@ == all_cands,
            deduped@ == dedup_links(all_cands.take(k as int)),
        decreases cn - k,
    {
        proof {
            assert(all_cands.take(k + 1).drop_last() =~= all_cands.take(k as int));
            assert(all_cands.take(k + 1).last() == all_cands[k as int]);
            lemma_dedup_seen(all_cands.take(k as int));
        }
        if !contains_url(&deduped, &cands[k].link.url) {
            deduped.push(
                LinkCandidate {
                    base: cands[k].base.clone(),
                    link: Link {
                        name: cands[k].link.name.clone(),
                        category: cands[k].link.category.clone(),
                        url: cands[k].link.url.clone(),
                    },
                },
            );
            proof {
                assert(deduped@.last() == all_cands[k as int]);
                assert(deduped@ =~= dedup_links(all_cands.take(k + 1)));
            }
        }
        k += 1;
    }
    proof {
        assert(all_cands.take(cn as int) =~= all_cands);
    }
    let ghost dd = deduped@;
    let mut out: Vec<MetaExtension> = Vec::new();
    let mut t: usize = 0;
    let dn = deduped.len();
    while t < dn
        invariant
            0 <= t <= dn,
            dn == dd.len(),
            deduped@ == dd,
            out@ == resolve_candidates(dd.take(t as int), profile.addons@),
        decreases dn - t,
    {
        proof {
            assert(dd.take(t + 1).drop_last() =~= dd.take(t as int));
            assert(dd.take(t + 1).last() == dd[t as int]);
        }
        match find_addon_index(profile, &deduped[t].base) {
            Some(ix) => {
                let addon = &profile.addons[ix];
                let logo = match &addon.manifest.logo {
                    Some(l) => Some(l.clone()),
                    None => None,
                };
                out.push(
                    MetaExtension {
                        url: deduped[t].link.url.clone(),
                        name: deduped[t].link.name.clone(),
                        addon_transport_url: addon.transport_url.clone(),
                        addon_name: addon.manifest.name.clone(),
                        addon_logo: logo,
                    },
                );
                proof {
                    assert(out@ =~= resolve_candidates(dd.take(t + 1), profile.addons@));
                }
            },
            None => {
                proof {
                    assert(out@ =~= resolve_candidates(dd.take(t + 1), profile.addons@));
                }
            },
        }
        t += 1;
    }
    proof {
        assert(dd.take(dn as int) =~= dd);
    }
    out
}

} // verus!
