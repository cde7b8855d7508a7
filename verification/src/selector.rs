//! Representative Selector: given an ordered list of sources for the same
//! logical entity, pick the one whose state drives top-level decisions.
//! Priority: first Ready source; if every source failed, the first source in
//! original order (so the surface can still show an error and its addon
//! context); otherwise the first Loading source. An empty list yields no
//! representative. Ties always break by original list order.

use vstd::prelude::*;

use crate::seq_util::{first_ix, lemma_first_ix, lemma_first_ix_is};
use crate::types::ResourceLoadable;

verus! {

/// The predicate "this source is resolved".
pub open spec fn ready_pred<T>() -> spec_fn(ResourceLoadable<T>) -> bool {
    |c: ResourceLoadable<T>| c.content is Ready
}

/// The predicate "this source is still loading".
pub open spec fn loading_pred<T>() -> spec_fn(ResourceLoadable<T>) -> bool {
    |c: ResourceLoadable<T>| c.content is Loading
}

pub open spec fn has_ready<T>(s: Seq<ResourceLoadable<T>>) -> bool {
    exists|i: int| 0 <= i < s.len() && s[i].content is Ready
}

pub open spec fn all_failed<T>(s: Seq<ResourceLoadable<T>>) -> bool {
    forall|i: int| 0 <= i < s.len() ==> s[i].content is Failed
}

pub open spec fn has_loading<T>(s: Seq<ResourceLoadable<T>>) -> bool {
    exists|i: int| 0 <= i < s.len() && s[i].content is Loading
}

/// Index of the representative source, or `None` for an empty list.
pub open spec fn rep_index<T>(s: Seq<ResourceLoadable<T>>) -> Option<int> {
    if has_ready(s) {
        Some(first_ix(s, ready_pred::<T>()))
    } else if s.len() > 0 && all_failed(s) {
        Some(0int)
    } else if has_loading(s) {
        Some(first_ix(s, loading_pred::<T>()))
    } else {
        None
    }
}

/// Picks the representative source of `catalogs` and returns its index:
/// the first Ready entry; failing that, the first entry when every entry
/// failed; failing that, the first Loading entry. Empty input has no
/// representative.
pub fn select_representative<T>(catalogs: &Vec<ResourceLoadable<T>>) -> (r: Option<usize>)
    ensures
        match r {
            Some(u) => rep_index(catalogs@) == Some(u as int),
            None => rep_index(catalogs@) is None,
        },
{
    let n = catalogs.len();
    let mut i: usize = 0;
    while i < n
        invariant
            0 <= i <= n,
            n == catalogs@.len(),
            forall|j: int| 0 <= j < i ==> !(catalogs@[j].content is Ready),
        decreases n - i,
    {
        if catalogs[i].content.is_ready() {
            proof {
                lemma_first_ix_is(catalogs@, ready_pred::<T>(), i as int);
            }
            return Some(i);
        }
        i += 1;
    }
    let mut everything_failed = true;
    let mut k: usize = 0;
    while k < n
        invariant
            0 <= k <= n,
            n == catalogs@.len(),
            everything_failed == (forall|j: int| 0 <= j < k ==> catalogs@[j].content is Failed),
        decreases n - k,
    {
        if !catalogs[k].content.is_err() {
            everything_failed = false;
        }
        k += 1;
    }
    if n > 0 && everything_failed {
        return Some(0);
    }
    let mut m: usize = 0;
    while m < n
        invariant
            0 <= m <= n,
            n == catalogs@.len(),
            forall|j: int| 0 <= j < n ==> !(catalogs@[j].content is Ready),
            !(n > 0 && all_failed(catalogs@)),
            forall|j: int| 0 <= j < m ==> !(catalogs@[j].content is Loading),
        decreases n - m,
    {
        if catalogs[m].content.is_loading() {
            proof {
                lemma_first_ix_is(catalogs@, loading_pred::<T>(), m as int);
            }
            return Some(m);
        }
        m += 1;
    }
    proof {
        if n > 0 {
            let j = choose|j: int| 0 <= j < n && !(catalogs@[j].content is Failed);
            assert(catalogs@[j].content is Ready || catalogs@[j].content is Loading
                || catalogs@[j].content is Failed);
        }
    }
    None
}

/// A representative, when there is one, is an index into the list.
pub proof fn lemma_rep_index_bounds<T>(s: Seq<ResourceLoadable<T>>)
    ensures
        rep_index(s) matches Some(i) ==> 0 <= i < s.len(),
{
    if has_ready(s) {
        lemma_first_ix(s, ready_pred::<T>());
        let w = choose|i: int| 0 <= i < s.len() && s[i].content is Ready;
        assert(ready_pred::<T>()(s[w]));
        if first_ix(s, ready_pred::<T>()) == s.len() {
            assert(!ready_pred::<T>()(s[w]));
        }
    } else if s.len() > 0 && all_failed(s) {
    } else if has_loading(s) {
        lemma_first_ix(s, loading_pred::<T>());
        let w = choose|i: int| 0 <= i < s.len() && s[i].content is Loading;
        assert(loading_pred::<T>()(s[w]));
        if first_ix(s, loading_pred::<T>()) == s.len() {
            assert(!loading_pred::<T>()(s[w]));
        }
    }
}

/// Whenever some source is Ready, the representative is the first Ready
/// source, regardless of everything after it.
pub proof fn lemma_selector_first_ready<T>(s: Seq<ResourceLoadable<T>>, i: int)
    requires
        0 <= i < s.len(),
        s[i].content is Ready,
        forall|j: int| 0 <= j < i ==> !(s[j].content is Ready),
    ensures
        rep_index(s) == Some(i),
{
    lemma_first_ix_is(s, ready_pred::<T>(), i);
}

/// When the list is non-empty and every source failed, the representative is
/// the first source in original order.
pub proof fn lemma_selector_all_failed<T>(s: Seq<ResourceLoadable<T>>)
    requires
        s.len() > 0,
        forall|j: int| 0 <= j < s.len() ==> s[j].content is Failed,
    ensures
        rep_index(s) == Some(0int),
{
    assert(!has_ready(s));
}

/// When the list is non-empty, no source is Ready and not every source
/// failed, the representative is the first Loading source.
pub proof fn lemma_selector_first_loading<T>(s: Seq<ResourceLoadable<T>>, i: int)
    requires
        s.len() > 0,
        forall|j: int| 0 <= j < s.len() ==> !(s[j].content is Ready),
        !all_failed(s),
        0 <= i < s.len(),
        s[i].content is Loading,
        forall|j: int| 0 <= j < i ==> !(s[j].content is Loading),
    ensures
        rep_index(s) == Some(i),
{
    lemma_first_ix_is(s, loading_pred::<T>(), i);
}

} // verus!
