//! Addon Directory Lookup: pure scans of the profile's installed-addon list,
//! keyed by origin-address equality. Absence of a match yields an explicit
//! absent value, never an error.

use vstd::prelude::*;

use crate::seq_util::{first_ix, lemma_first_ix, lemma_first_ix_is};
use crate::types::{DescriptorPreview, Profile};

verus! {

/// The predicate "this addon's origin address equals `base`".
pub open spec fn addon_pred(base: String) -> spec_fn(DescriptorPreview) -> bool {
    |a: DescriptorPreview| a.transport_url@ == base@
}

/// Display name of the first installed addon whose origin address equals
/// `base`, absent when none matches.
pub open spec fn resolve_addon_name_spec(addons: Seq<DescriptorPreview>, base: String) -> Option<
    String,
> {
    let i = first_ix(addons, addon_pred(base));
    if i < addons.len() {
        Some(addons[i].manifest.name)
    } else {
        None
    }
}

/// Whether some installed addon's origin address equals `base`.
pub open spec fn is_installed_spec(addons: Seq<DescriptorPreview>, base: String) -> bool {
    exists|i: int| 0 <= i < addons.len() && addons[i].transport_url@ == base@
}

/// Finds the installed addon whose origin address equals `base` and returns
/// its display name; absent when none matches.
pub fn resolve_addon_name(profile: &Profile, base: &String) -> (r: Option<String>)
    ensures
        r == resolve_addon_name_spec(profile.addons@, *base),
{
    let n = profile.addons.len();
    let mut i: usize = 0;
    while i < n
        invariant
            0 <= i <= n,
            n == profile.addons@.len(),
            forall|j: int| 0 <= j < i ==> profile.addons@[j].transport_url@ != base@,
        decreases n - i,
    {
        if profile.addons[i].transport_url == *base {
            proof {
                lemma_first_ix_is(profile.addons@, addon_pred(*base), i as int);
            }
            return Some(profile.addons[i].manifest.name.clone());
        }
        i += 1;
    }
    proof {
        lemma_first_ix(profile.addons@, addon_pred(*base));
        if first_ix(profile.addons@, addon_pred(*base)) < profile.addons@.len() {
            assert(addon_pred(*base)(
                profile.addons@[first_ix(profile.addons@, addon_pred(*base))],
            ));
        }
    }
    None
}

/// Whether `base` is the origin address of some installed addon; the boolean
/// form of the lookup, used for remote-addon catalogs.
pub fn is_installed(profile: &Profile, base: &String) -> (r: bool)
    ensures
        r == is_installed_spec(profile.addons@, *base),
{
    let n = profile.addons.len();
    let mut i: usize = 0;
    while i < n
        invariant
            0 <= i <= n,
            n == profile.addons@.len(),
            forall|j: int| 0 <= j < i ==> profile.addons@[j].transport_url@ != base@,
        decreases n - i,
    {
        if profile.addons[i].transport_url == *base {
            return true;
        }
        i += 1;
    }
    false
}

/// An origin address that no installed addon carries resolves to an absent
/// name and counts as not installed.
pub proof fn lemma_unknown_origin_resolves_absent(addons: Seq<DescriptorPreview>, base: String)
    requires
        forall|i: int| 0 <= i < addons.len() ==> addons[i].transport_url@ != base@,
    ensures
        resolve_addon_name_spec(addons, base) is None,
        !is_installed_spec(addons, base),
{
    lemma_first_ix(addons, addon_pred(base));
    if first_ix(addons, addon_pred(base)) < addons.len() {
        assert(addon_pred(base)(addons[first_ix(addons, addon_pred(base))]));
    }
}

} // verus!
