//! The session surface: passes the profile through and restructures the
//! notification index from its internal grouping into a mapping keyed by
//! the displayed entity's identifier, each value being the list of matching
//! notification records; timestamps carry over verbatim.

use vstd::prelude::*;

use crate::types::{CtxState, MetaNotifGroup, NotificationItem, Profile, VideoNotification};

verus! {

/// All notification records of one displayed entity.
#[derive(Debug, PartialEq, Eq, Clone)]
pub struct MetaNotifications {
    pub meta_id: String,
    pub items: Vec<NotificationItem>,
}

/// The restructured notification index: entries keyed by entity id, with
/// the original last-updated and creation timestamps.
#[derive(Debug, PartialEq, Eq, Clone)]
pub struct Notifications {
    pub items: Vec<MetaNotifications>,
    pub last_updated: Option<i64>,
    pub created: i64,
}

/// The assembled session view model: the profile as it stands, plus the
/// restructured notifications.
#[derive(Debug, PartialEq, Eq, Clone)]
pub struct Ctx {
    pub profile: Profile,
    pub notifications: Notifications,
}

/// How one grouped record maps into the entity's list: the record itself,
/// stripped of its internal grouping key.
pub open spec fn notification_of_spec() -> spec_fn(VideoNotification) -> NotificationItem {
    |e: VideoNotification| e.item
}

/// One output entry against its source group: same entity id, and the
/// group's records in their order, stripped of grouping keys.
pub open spec fn group_row_rel(row: MetaNotifications, g: MetaNotifGroup) -> bool {
    row.meta_id == g.meta_id && row.items@ == g.entries@.map_values(notification_of_spec())
}

/// The whole session view against the state it was assembled from.
pub open spec fn ctx_view_rel(r: Ctx, state: CtxState) -> bool {
    r.profile == state.profile && r.notifications.last_updated
        == state.notifications.last_updated && r.notifications.created
        == state.notifications.created && r.notifications.items@.len()
        == state.notifications.groups@.len() && forall|i: int|
        0 <= i < state.notifications.groups@.len() ==> group_row_rel(
            #[trigger] r.notifications.items@[i],
            state.notifications.groups@[i],
        )
}

/// The session relation pins its view: any two views assembled from the
/// same state agree on every observable field.
pub proof fn lemma_ctx_view_deterministic(r1: Ctx, r2: Ctx, state: CtxState)
    requires
        ctx_view_rel(r1, state),
        ctx_view_rel(r2, state),
    ensures
        r1.profile == r2.profile,
        r1.notifications.last_updated == r2.notifications.last_updated,
        r1.notifications.created == r2.notifications.created,
        r1.notifications.items@.len() == r2.notifications.items@.len(),
        forall|i: int|
            0 <= i < r1.notifications.items@.len() ==> (#[trigger] r1.notifications.items@[i]).meta_id
                == r2.notifications.items@[i].meta_id && r1.notifications.items@[i].items@
                == r2.notifications.items@[i].items@,
{
    assert forall|i: int| 0 <= i < r1.notifications.items@.len() implies (
    #[trigger] r1.notifications.items@[i]).meta_id == r2.notifications.items@[i].meta_id
        && r1.notifications.items@[i].items@ == r2.notifications.items@[i].items@ by {
        assert(group_row_rel(r1.notifications.items@[i], state.notifications.groups@[i]));
        assert(group_row_rel(r2.notifications.items@[i], state.notifications.groups@[i]));
    }
}

impl Ctx {
    /// Builds the session view from the domain state: the profile passes
    /// through, and each notification group becomes one entry keyed by its
    /// entity id, holding the group's records in order.
    pub fn from(state: CtxState) -> (r: Ctx)
        ensures
            ctx_view_rel(r, state),
    {
        let ghost orig_groups = state.notifications.groups@;
        let CtxState { profile, library: _, notifications } = state;
        let last_updated = notifications.last_updated;
        let created = notifications.created;
        let mut groups = notifications.groups;
        let mut items_out: Vec<MetaNotifications> = Vec::new();
        let ghost mut i: int = 0;
        while groups.len() > 0
            invariant
                0 <= i,
                i + groups@.len() == orig_groups.len(),
                groups@ == orig_groups.skip(i),
                items_out@.len() == i,
                forall|j: int|
                    0 <= j < i ==> group_row_rel(#[trigger] items_out@[j], orig_groups[j]),
            decreases groups@.len(),
        {
            let g = groups.remove(0);
            proof {
                assert(g == orig_groups[i]);
                assert(orig_groups.skip(i).remove(0) =~= orig_groups.skip(i + 1));
            }
            let MetaNotifGroup { meta_id, entries } = g;
            let ghost orig_entries = entries@;
            let mut entries = entries;
            let mut items: Vec<NotificationItem> = Vec::new();
            let ghost mut k: int = 0;
            while entries.len() > 0
                invariant
                    0 <= k,
                    k + entries@.len() == orig_entries.len(),
                    entries@ == orig_entries.skip(k),
                    items@ == orig_entries.take(k).map_values(notification_of_spec()),
                decreases entries@.len(),
            {
                let e = entries.remove(0);
                proof {
                    assert(e == orig_entries[k]);
                    assert(orig_entries.skip(k).remove(0) =~= orig_entries.skip(k + 1));
                }
                items.push(e.item);
                proof {
                    assert(items@ =~= orig_entries.take(k + 1).map_values(notification_of_spec()));
                    k = k + 1;
                }
            }
            proof {
                assert(orig_entries.take(orig_entries.len() as int) =~= orig_entries);
            }
            items_out.push(MetaNotifications { meta_id, items });
            proof {
                i = i + 1;
            }
        }
        Ctx {
            profile,
            notifications: Notifications { items: items_out, last_updated, created },
        }
    }
}

/// Assembles the session view model; see [`Ctx::from`].
pub fn serialize_ctx(state: CtxState) -> (r: Ctx)
    ensures
        ctx_view_rel(r, state),
{
    Ctx::from(state)
}

} // verus!
