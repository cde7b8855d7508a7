//! The data model this layer projects from: resource requests, tri-state
//! resolution wrappers, domain records, the user profile and the library
//! index. All values are plain, owned data; the layer never mutates its
//! inputs, it consumes snapshots and builds fresh view models from them.

use vstd::prelude::*;

verus! {

/// Outcome of an asynchronous fetch owned elsewhere: not yet resolved,
/// resolved to a value, or failed with an opaque upstream error payload.
#[derive(Debug, PartialEq, Eq, Clone)]
pub enum Loadable<T, E> {
    Loading,
    Ready(T),
    Failed(E),
}

impl<T, E> Loadable<T, E> {
    pub fn is_ready(&self) -> (r: bool)
        ensures
            r == (*self is Ready),
    {
        matches!(self, Loadable::Ready(_))
    }

    pub fn is_loading(&self) -> (r: bool)
        ensures
            r == (*self is Loading),
    {
        matches!(self, Loadable::Loading)
    }

    pub fn is_err(&self) -> (r: bool)
        ensures
            r == (*self is Failed),
    {
        matches!(self, Loadable::Failed(_))
    }
}

/// One extra parameter of a resource path, e.g. a pagination skip or a
/// filter value.
#[derive(Debug, PartialEq, Eq, Clone)]
pub struct ExtraValue {
    pub name: String,
    pub value: String,
}

/// The path part of a resource request: which resource, of which type, for
/// which id, with which extra parameters.
#[derive(Debug, PartialEq, Eq, Clone)]
pub struct ResourcePath {
    pub resource: String,
    pub kind: String,
    pub id: String,
    pub extra: Vec<ExtraValue>,
}

/// Identifies one fetch: an addon origin address plus a resource path.
#[derive(Debug, PartialEq, Eq, Clone)]
pub struct ResourceRequest {
    pub base: String,
    pub path: ResourcePath,
}

/// A resource request paired with its current resolution state. Several of
/// these may describe the same logical entity when several addons are
/// queried in parallel; errors are opaque upstream payloads.
#[derive(Debug, PartialEq, Eq, Clone)]
pub struct ResourceLoadable<T> {
    pub request: ResourceRequest,
    pub content: Loadable<T, String>,
}

/// A playable stream; carried through unchanged by this layer.
#[derive(Debug, PartialEq, Eq, Clone)]
pub struct Stream {
    pub name: String,
}

/// A cross-reference link an addon declares on a meta item, tagged with the
/// resource category it points at.
#[derive(Debug, PartialEq, Eq, Clone)]
pub struct Link {
    pub name: String,
    pub category: String,
    pub url: String,
}

/// Declarations a meta item makes about its own behaviour.
#[derive(Debug, PartialEq, Eq, Clone, Copy)]
pub struct BehaviorHints {
    pub has_scheduled_videos: bool,
}

/// One video of a meta item.
#[derive(Debug, PartialEq, Eq, Clone)]
pub struct Video {
    pub id: String,
    pub title: String,
    pub trailer_streams: Vec<Stream>,
}

/// The shallow form of a meta item, as catalog rows carry it.
#[derive(Debug, PartialEq, Eq, Clone)]
pub struct MetaItemPreview {
    pub id: String,
    pub name: String,
    pub trailer_streams: Vec<Stream>,
}

/// The full form of a meta item, as the details surface carries it.
/// `released` is a unix timestamp in milliseconds, absent when unknown.
#[derive(Debug, PartialEq, Eq, Clone)]
pub struct MetaItem {
    pub id: String,
    pub name: String,
    pub released: Option<i64>,
    pub behavior_hints: BehaviorHints,
    pub videos: Vec<Video>,
    pub links: Vec<Link>,
    pub trailer_streams: Vec<Stream>,
}

/// The display-relevant part of an addon manifest.
#[derive(Debug, PartialEq, Eq, Clone)]
pub struct ManifestPreview {
    pub name: String,
    pub logo: Option<String>,
}

/// One installed or listed addon: its origin address plus manifest data.
#[derive(Debug, PartialEq, Eq, Clone)]
pub struct DescriptorPreview {
    pub transport_url: String,
    pub manifest: ManifestPreview,
}

/// The authoritative list of installed addons; read-only here.
#[derive(Debug, PartialEq, Eq, Clone)]
pub struct Profile {
    pub addons: Vec<DescriptorPreview>,
}

/// One library entry; `removed` is the tombstone flag, and a tombstoned
/// entry does not count as a member.
#[derive(Debug, PartialEq, Eq, Clone)]
pub struct LibraryItem {
    pub id: String,
    pub name: String,
    pub removed: bool,
}

/// The library index: entries keyed by item id, used to test membership.
#[derive(Debug, PartialEq, Eq, Clone)]
pub struct LibraryIndex {
    pub items: Vec<LibraryItem>,
}

/// One notification record.
#[derive(Debug, PartialEq, Eq, Clone)]
pub struct NotificationItem {
    pub meta_id: String,
    pub video_id: String,
    pub video_released: i64,
}

/// A notification record under its internal grouping key.
#[derive(Debug, PartialEq, Eq, Clone)]
pub struct VideoNotification {
    pub video_id: String,
    pub item: NotificationItem,
}

/// All notifications of one displayed entity, under the internal index's
/// grouping.
#[derive(Debug, PartialEq, Eq, Clone)]
pub struct MetaNotifGroup {
    pub meta_id: String,
    pub entries: Vec<VideoNotification>,
}

/// The notification index as the domain layer hands it over; timestamps are
/// unix milliseconds.
#[derive(Debug, PartialEq, Eq, Clone)]
pub struct NotificationsBucket {
    pub groups: Vec<MetaNotifGroup>,
    pub last_updated: Option<i64>,
    pub created: i64,
}

/// The domain state slice an assembler invocation reads: profile, library
/// index and notification index, all immutable snapshots.
#[derive(Debug, PartialEq, Eq, Clone)]
pub struct CtxState {
    pub profile: Profile,
    pub library: LibraryIndex,
    pub notifications: NotificationsBucket,
}

/// Two requests carry the same origin address, path and extra parameters.
pub open spec fn req_like(a: ResourceRequest, b: ResourceRequest) -> bool {
    a.base == b.base && a.path.resource == b.path.resource && a.path.kind == b.path.kind
        && a.path.id == b.path.id && a.path.extra@ == b.path.extra@
}

/// Copies a request's extra parameters.
fn dup_extras(v: &Vec<ExtraValue>) -> (r: Vec<ExtraValue>)
    ensures
        r@ == v@,
{
    let n = v.len();
    let mut out: Vec<ExtraValue> = Vec::new();
    let mut i: usize = 0;
    while i < n
        invariant
            0 <= i <= n,
            n == v@.len(),
            out@ =~= v@.take(i as int),
        decreases n - i,
    {
        out.push(ExtraValue { name: v[i].name.clone(), value: v[i].value.clone() });
        proof {
            assert(out@ =~= v@.take(i + 1));
        }
        i += 1;
    }
    proof {
        assert(v@.take(n as int) =~= v@);
    }
    out
}

/// Copies a request, field for field.
pub fn dup_request(q: &ResourceRequest) -> (r: ResourceRequest)
    ensures
        req_like(r, *q),
{
    ResourceRequest {
        base: q.base.clone(),
        path: ResourcePath {
            resource: q.path.resource.clone(),
            kind: q.path.kind.clone(),
            id: q.path.id.clone(),
            extra: dup_extras(&q.path.extra),
        },
    }
}

} // verus!
