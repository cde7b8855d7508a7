//! Per-entity enrichment: library membership, the pagination index computed
//! from the "skip" extra parameter, and the upcoming/scheduled flags.

use vstd::prelude::*;
use vstd::string::{StrSliceExecFns, StringExecFns};

use crate::seq_util::{first_ix, lemma_first_ix, lemma_first_ix_is};
use crate::types::{BehaviorHints, ExtraValue, LibraryIndex, LibraryItem, ResourceRequest};
use crate::CATALOG_PAGE_SIZE;

verus! {

// ---------------------------------------------------------------------------
// Library membership
// ---------------------------------------------------------------------------
/// The predicate "this library entry carries `id`".
pub open spec fn entry_pred(id: String) -> spec_fn(LibraryItem) -> bool {
    |e: LibraryItem| e.id@ == id@
}

/// True iff the library index holds `id` and the holding entry is not
/// tombstoned. The index keys entries by id; the first entry with the id
/// decides.
pub open spec fn in_library_spec(items: Seq<LibraryItem>, id: String) -> bool {
    let i = first_ix(items, entry_pred(id));
    i < items.len() && !items[i].removed
}

/// Whether the entity with `id` counts as a library member: present in the
/// index and not tombstoned.
pub fn in_library(library: &LibraryIndex, id: &String) -> (r: bool)
    ensures
        r == in_library_spec(library.items@, *id),
{
    let n = library.items.len();
    let mut i: usize = 0;
    while i < n
        invariant
            0 <= i <= n,
            n == library.items@.len(),
            forall|j: int| 0 <= j < i ==> library.items@[j].id@ != id@,
        decreases n - i,
    {
        if library.items[i].id == *id {
            proof {
                lemma_first_ix_is(library.items@, entry_pred(*id), i as int);
            }
            return !library.items[i].removed;
        }
        i += 1;
    }
    proof {
        lemma_first_ix(library.items@, entry_pred(*id));
        if first_ix(library.items@, entry_pred(*id)) < library.items@.len() {
            assert(entry_pred(*id)(library.items@[first_ix(library.items@, entry_pred(*id))]));
        }
    }
    false
}

/// Over an index with distinct ids, membership holds exactly when some entry
/// carries the id and is not tombstoned: it is false whenever the id is
/// absent, or present only with the tombstone set.
pub proof fn lemma_in_library_membership(items: Seq<LibraryItem>, id: String)
    requires
        forall|i: int, j: int| 0 <= i < j < items.len() ==> items[i].id@ != items[j].id@,
    ensures
        in_library_spec(items, id) <==> exists|i: int|
            0 <= i < items.len() && items[i].id@ == id@ && !items[i].removed,
{
    lemma_first_ix(items, entry_pred(id));
    let f = first_ix(items, entry_pred(id));
    if f < items.len() {
        assert(entry_pred(id)(items[f]));
        if !items[f].removed {
            assert(exists|i: int| 0 <= i < items.len() && items[i].id@ == id@ && !items[i].removed);
        } else {
            assert forall|i: int| 0 <= i < items.len() && items[i].id@ == id@ implies items[i].removed by {
                if i < f {
                    assert(!entry_pred(id)(items[i]));
                } else if i > f {
                    assert(items[f].id@ != items[i].id@);
                }
            }
        }
    } else {
        assert forall|i: int| 0 <= i < items.len() implies !(items[i].id@ == id@) by {
            assert(!entry_pred(id)(items[i]));
        }
    }
}

// ---------------------------------------------------------------------------
// Parsing the "skip" parameter
// ---------------------------------------------------------------------------
pub open spec fn is_dec_digit(c: char) -> bool {
    48 <= c as u32 <= 57
}

pub open spec fn digit_val(c: char) -> nat {
    if is_dec_digit(c) {
        (c as u32 - 48) as nat
    } else {
        0
    }
}

pub open spec fn all_dec_digits(s: Seq<char>) -> bool {
    forall|i: int| 0 <= i < s.len() ==> is_dec_digit(s[i])
}

/// Value of a string of decimal digits, most significant first.
pub open spec fn dec_val(s: Seq<char>) -> nat
    decreases s.len(),
{
    if s.len() == 0 {
        0
    } else {
        dec_val(s.drop_last()) * 10 + digit_val(s.last())
    }
}

/// What parsing an unsigned 32-bit integer accepts: an optional leading
/// plus sign, then one or more decimal digits, whose value fits.
pub open spec fn parse_u32_spec(s: Seq<char>) -> Option<u32> {
    let body = if s.len() > 0 && s[0] == '+' {
        s.drop_first()
    } else {
        s
    };
    if body.len() > 0 && all_dec_digits(body) && dec_val(body) <= u32::MAX {
        Some(dec_val(body) as u32)
    } else {
        None
    }
}

/// A digit string's value never falls below the value of any of its
/// prefixes.
proof fn lemma_dec_val_prefix(s: Seq<char>, k: int)
    requires
        0 <= k <= s.len(),
    ensures
        dec_val(s) >= dec_val(s.take(k)),
    decreases s.len(),
{
    if k == s.len() {
        assert(s.take(k) =~= s);
    } else {
        lemma_dec_val_prefix(s.drop_last(), k);
        assert(s.drop_last().take(k) =~= s.take(k));
    }
}

/// Parses a decimal unsigned integer as the standard library does: an
/// optional leading plus sign, then decimal digits; anything else, an empty
/// body, or a value over `u32::MAX` is unparsable.
pub fn parse_u32(s: &str) -> (r: Option<u32>)
    ensures
        r == parse_u32_spec(s@),
{
    let n = s.unicode_len();
    let start: usize = if n > 0 && s.get_char(0) == '+' {
        1
    } else {
        0
    };
    let ghost body = if s@.len() > 0 && s@[0] == '+' {
        s@.drop_first()
    } else {
        s@
    };
    assert(body.len() == n - start);
    assert(forall|j: int| 0 <= j < body.len() ==> body[j] == s@[j + start]);
    if start >= n {
        return None;
    }
    let mut acc: u64 = 0;
    let mut i: usize = start;
    while i < n
        invariant
            start <= i <= n,
            n == s@.len(),
            body == if s@.len() > 0 && s@[0] == '+' {
                s@.drop_first()
            } else {
                s@
            },
            body.len() == n - start,
            forall|j: int| 0 <= j < body.len() ==> body[j] == s@[j + start],
            all_dec_digits(body.take(i - start)),
            acc == dec_val(body.take(i - start)),
            acc <= u32::MAX,
        decreases n - i,
    {
        let c = s.get_char(i);
        let u = c as u32;
        if u < 48 || u > 57 {
            proof {
                assert(!is_dec_digit(body[i - start]));
            }
            return None;
        }
        let d = (u - 48) as u64;
        let next = acc * 10 + d;
        proof {
            assert(body.take(i + 1 - start).drop_last() =~= body.take(i - start));
            assert(body.take(i + 1 - start).last() == body[i - start]);
            assert(dec_val(body.take(i + 1 - start)) == acc * 10 + d);
        }
        if next > 0xFFFF_FFFF {
            proof {
                lemma_dec_val_prefix(body, i + 1 - start);
            }
            return None;
        }
        acc = next;
        i += 1;
        proof {
            assert(all_dec_digits(body.take(i - start)));
        }
    }
    assert(body.take(n - start) =~= body);
    Some(acc as u32)
}

// ---------------------------------------------------------------------------
// Pagination
// ---------------------------------------------------------------------------
/// The predicate "this extra parameter is named `name`".
pub open spec fn extra_pred(name: Seq<char>) -> spec_fn(ExtraValue) -> bool {
    |e: ExtraValue| e.name@ == name
}

/// First value carried under `name` among a request's extra parameters.
pub open spec fn extra_first_value_spec(extra: Seq<ExtraValue>, name: Seq<char>) -> Option<String> {
    let i = first_ix(extra, extra_pred(name));
    if i < extra.len() {
        Some(extra[i].value)
    } else {
        None
    }
}

/// First value of the extra parameter named `name`, absent when the request
/// carries none.
pub fn extra_first_value<'a>(extra: &'a Vec<ExtraValue>, name: &String) -> (r: Option<&'a String>)
    ensures
        match r {
            Some(v) => extra_first_value_spec(extra@, name@) == Some(*v),
            None => extra_first_value_spec(extra@, name@) is None,
        },
{
    let n = extra.len();
    let mut i: usize = 0;
    while i < n
        invariant
            0 <= i <= n,
            n == extra@.len(),
            forall|j: int| 0 <= j < i ==> extra@[j].name@ != name@,
        decreases n - i,
    {
        if extra[i].name == *name {
            proof {
                lemma_first_ix_is(extra@, extra_pred(name@), i as int);
            }
            return Some(&extra[i].value);
        }
        i += 1;
    }
    proof {
        lemma_first_ix(extra@, extra_pred(name@));
        if first_ix(extra@, extra_pred(name@)) < extra@.len() {
            assert(extra_pred(name@)(extra@[first_ix(extra@, extra_pred(name@))]));
        }
    }
    None
}

/// Pagination index of a skip offset: one-based, `CATALOG_PAGE_SIZE` entries
/// to the page.
pub open spec fn page_of_skip(skip: u32) -> u32 {
    (1 + skip as int / CATALOG_PAGE_SIZE as int) as u32
}

/// Pagination index of a request: the "skip" extra parameter parsed as an
/// unsigned integer; an absent or unparsable value yields page one.
pub open spec fn page_spec(request: ResourceRequest) -> u32 {
    match extra_first_value_spec(request.path.extra@, "skip"@) {
        Some(v) => match parse_u32_spec(v@) {
            Some(skip) => page_of_skip(skip),
            None => 1,
        },
        None => 1,
    }
}

/// A request without a "skip" parameter sits on page one, a zero skip sits
/// on page one, a skip of exactly one page size sits on page two, and a
/// skip one short of two page sizes still sits on page two.
pub proof fn lemma_page_boundaries(request: ResourceRequest)
    ensures
        extra_first_value_spec(request.path.extra@, "skip"@) is None ==> page_spec(request) == 1,
        page_of_skip(0) == 1,
        page_of_skip(CATALOG_PAGE_SIZE) == 2,
        page_of_skip((2 * CATALOG_PAGE_SIZE - 1) as u32) == 2,
{
}

/// Computes the one-based page a request asks for, from its "skip" extra
/// parameter; requests without a parsable skip sit on page one.
pub fn page_of_request(request: &ResourceRequest) -> (r: u32)
    ensures
        r == page_spec(*request),
{
    let skip_name = String::from_str("skip");
    match extra_first_value(&request.path.extra, &skip_name) {
        Some(v) => match parse_u32(v.as_str()) {
            Some(skip) => 1 + skip / CATALOG_PAGE_SIZE,
            None => 1,
        },
        None => 1,
    }
}

// ---------------------------------------------------------------------------
// Upcoming and scheduled flags
// ---------------------------------------------------------------------------
/// True iff the entity declares scheduled videos and its release timestamp
/// is absent or strictly in the future; an absent timestamp could still be
/// upcoming.
pub open spec fn upcoming_spec(hints: BehaviorHints, released: Option<i64>, now: i64) -> bool {
    hints.has_scheduled_videos && match released {
        None => true,
        Some(t) => t > now,
    }
}

/// Whether an entity counts as upcoming at time `now` (unix milliseconds).
pub fn upcoming_flag(hints: &BehaviorHints, released: &Option<i64>, now: i64) -> (r: bool)
    ensures
        r == upcoming_spec(*hints, *released, now),
{
    hints.has_scheduled_videos && match released {
        None => true,
        Some(t) => *t > now,
    }
}

} // verus!
