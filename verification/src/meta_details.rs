//! The meta-details surface. The Representative Selector picks the one meta
//! source that drives the top-level fields; every stream source is shown in
//! parallel, not collapsed. Nested videos are enriched with the upcoming,
//! scheduled, watched and progress fields; meta-extension links are
//! collected over all meta sources, deduplicated by address and resolved to
//! their owning addons. A video's navigation target is derived by the
//! caller from the video and its enclosing row's request; a stream's from
//! the stream, its row's request and the representative row's request when
//! one is present.

use vstd::prelude::*;

use crate::addons::{resolve_addon_name, resolve_addon_name_spec};
use crate::dedup::{candidate_links, collect_meta_extensions, dedup_links, resolve_candidates,
    MetaExtension};
use crate::enrich::{in_library, in_library_spec, upcoming_flag, upcoming_spec};
use crate::selector::{lemma_rep_index_bounds, rep_index, select_representative};
use crate::types::{BehaviorHints, CtxState, DescriptorPreview, LibraryItem, Link, Loadable,
    MetaItem, ResourceLoadable, ResourcePath, ResourceRequest, Stream, Video};

verus! {

/// What the surface has selected: the meta item's resource path, and the
/// path streams are fetched under when one is chosen.
#[derive(Debug, PartialEq, Eq, Clone)]
pub struct MetaDetailsSelected {
    pub meta_path: ResourcePath,
    pub stream_path: Option<ResourcePath>,
}

/// The meta-details state slice: the selection, every meta source queried
/// for the item, and every stream source.
#[derive(Debug, PartialEq, Eq, Clone)]
pub struct MetaDetails {
    pub selected: Option<MetaDetailsSelected>,
    pub meta_catalogs: Vec<ResourceLoadable<MetaItem>>,
    pub streams_catalogs: Vec<ResourceLoadable<Vec<Stream>>>,
}

/// One video enriched for display. `watched` and `progress` are documented
/// stubs pending library-based computation: always false and absent.
#[derive(Debug, PartialEq, Eq, Clone)]
pub struct VideoRow {
    pub video: Video,
    pub upcoming: bool,
    pub watched: bool,
    pub progress: Option<u32>,
    pub scheduled: bool,
}

/// The representative meta item, flattened for display: its own fields,
/// its videos enriched, and its library-membership flag.
#[derive(Debug, PartialEq, Eq, Clone)]
pub struct MetaItemRow {
    pub id: String,
    pub name: String,
    pub released: Option<i64>,
    pub behavior_hints: BehaviorHints,
    pub videos: Vec<VideoRow>,
    pub links: Vec<Link>,
    pub trailer_streams: Vec<Stream>,
    pub in_library: bool,
}

/// The representative meta source's view row.
#[derive(Debug, PartialEq, Eq, Clone)]
pub struct MetaCatalogRow {
    pub request: ResourceRequest,
    pub content: Loadable<MetaItemRow, String>,
    pub addon_name: Option<String>,
}

/// One stream source's view row; all stream sources are shown side by side.
#[derive(Debug, PartialEq, Eq, Clone)]
pub struct StreamsCatalogRow {
    pub request: ResourceRequest,
    pub content: Loadable<Vec<Stream>, String>,
    pub addon_name: Option<String>,
}

/// The assembled meta-details view model.
#[derive(Debug, PartialEq, Eq, Clone)]
pub struct MetaDetailsView {
    pub selected: Option<MetaDetailsSelected>,
    pub meta_catalog: Option<MetaCatalogRow>,
    pub streams_catalogs: Vec<StreamsCatalogRow>,
    pub meta_extensions: Vec<MetaExtension>,
}

/// How one video maps to its row: the video passes through; the upcoming
/// flag is computed from the meta item's declarations and release time;
/// scheduled passes the declaration through; watched and progress are the
/// documented stubs.
pub open spec fn video_row_spec(hints: BehaviorHints, released: Option<i64>, now: i64) -> spec_fn(
    Video,
) -> VideoRow {
    |v: Video|
        VideoRow {
            video: v,
            upcoming: upcoming_spec(hints, released, now),
            watched: false,
            progress: None,
            scheduled: hints.has_scheduled_videos,
        }
}

/// The flattened meta item against its source: every original field passes
/// through, the videos are enriched in order, and the library flag is
/// computed against the index.
pub open spec fn meta_row_rel(out: MetaItemRow, m: MetaItem, lib: Seq<LibraryItem>, now: i64)
    -> bool {
    out.id == m.id && out.name == m.name && out.released == m.released && out.behavior_hints
        == m.behavior_hints && out.links == m.links && out.trailer_streams == m.trailer_streams
        && out.in_library == in_library_spec(lib, m.id) && out.videos@ == m.videos@.map_values(
        video_row_spec(m.behavior_hints, m.released, now),
    )
}

/// The representative row against the meta-source list: absent exactly when
/// the selector picks nothing; otherwise it carries the representative's
/// request, its resolved addon name, and its resolution state with a Ready
/// item flattened, Loading kept, and a failure's payload passed through.
pub open spec fn meta_catalog_rel(
    row_opt: Option<MetaCatalogRow>,
    cats: Seq<ResourceLoadable<MetaItem>>,
    addons: Seq<DescriptorPreview>,
    lib: Seq<LibraryItem>,
    now: i64,
) -> bool {
    match rep_index(cats) {
        None => row_opt is None,
        Some(i) => match row_opt {
            Some(row) => row.request == cats[i].request && row.addon_name
                == resolve_addon_name_spec(addons, cats[i].request.base) && match (
                row.content,
                cats[i].content,
            ) {
                (Loadable::Ready(mr), Loadable::Ready(m)) => meta_row_rel(mr, m, lib, now),
                (Loadable::Loading, Loadable::Loading) => true,
                (Loadable::Failed(e2), Loadable::Failed(e1)) => e2 == e1,
                _ => false,
            },
            None => false,
        },
    }
}

/// How one stream source maps to its row: everything passes through, and
/// the addon name is resolved from the profile.
pub open spec fn streams_row_spec(addons: Seq<DescriptorPreview>) -> spec_fn(
    ResourceLoadable<Vec<Stream>>,
) -> StreamsCatalogRow {
    |c: ResourceLoadable<Vec<Stream>>|
        StreamsCatalogRow {
            request: c.request,
            content: c.content,
            addon_name: resolve_addon_name_spec(addons, c.request.base),
        }
}

/// Observable equality of two flattened meta items: every scalar field
/// agrees and the enriched video lists hold the same rows.
pub open spec fn meta_row_obs_eq(a: MetaItemRow, b: MetaItemRow) -> bool {
    a.id == b.id && a.name == b.name && a.released == b.released && a.behavior_hints
        == b.behavior_hints && a.links == b.links && a.trailer_streams == b.trailer_streams
        && a.in_library == b.in_library && a.videos@ == b.videos@
}

/// The representative relation pins its row: any two rows assembled from
/// the same source list, profile and library agree on every observable
/// field.
pub proof fn lemma_meta_catalog_deterministic(
    a: Option<MetaCatalogRow>,
    b: Option<MetaCatalogRow>,
    cats: Seq<ResourceLoadable<MetaItem>>,
    addons: Seq<DescriptorPreview>,
    lib: Seq<LibraryItem>,
    now: i64,
)
    requires
        meta_catalog_rel(a, cats, addons, lib, now),
        meta_catalog_rel(b, cats, addons, lib, now),
    ensures
        match (a, b) {
            (None, None) => true,
            (Some(ra), Some(rb)) => ra.request == rb.request && ra.addon_name == rb.addon_name
                && match (ra.content, rb.content) {
                (Loadable::Ready(ma), Loadable::Ready(mb)) => meta_row_obs_eq(ma, mb),
                (Loadable::Loading, Loadable::Loading) => true,
                (Loadable::Failed(ea), Loadable::Failed(eb)) => ea == eb,
                _ => false,
            },
            _ => false,
        },
{
}

/// Assembles the meta-details view at time `now` (unix milliseconds): the
/// representative meta source drives the top-level row, every stream source
/// is projected in parallel, and the meta-extension links of all meta
/// sources are deduplicated and resolved.
pub fn serialize_meta_details(meta_details: MetaDetails, ctx: &CtxState, now: i64) -> (r:
    MetaDetailsView)
    ensures
        r.selected == meta_details.selected,
        meta_catalog_rel(
            r.meta_catalog,
            meta_details.meta_catalogs@,
            ctx.profile.addons@,
            ctx.library.items@,
            now,
        ),
        r.streams_catalogs@ == meta_details.streams_catalogs@.map_values(
            streams_row_spec(ctx.profile.addons@),
        ),
        r.meta_extensions@ == resolve_candidates(
            dedup_links(candidate_links(meta_details.meta_catalogs@)),
            ctx.profile.addons@,
        ),
{
    let meta_extensions = collect_meta_extensions(&meta_details.meta_catalogs, &ctx.profile);
    let rep = select_representative(&meta_details.meta_catalogs);
    proof {
        lemma_rep_index_bounds(meta_details.meta_catalogs@);
    }
    let ghost orig_cats = meta_details.meta_catalogs@;
    let MetaDetails { selected, meta_catalogs, streams_catalogs } = meta_details;
    let mut meta_catalogs = meta_catalogs;
    let meta_catalog = match rep {
        None => None,
        Some(ix) => {
            let c = meta_catalogs.remove(ix);
            let addon_name = resolve_addon_name(&ctx.profile, &c.request.base);
            let content = match c.content {
                Loadable::Ready(m) => {
                    let lib_flag = in_library(&ctx.library, &m.id);
                    let up = upcoming_flag(&m.behavior_hints, &m.released, now);
                    let MetaItem { id, name, released, behavior_hints, videos, links,
                        trailer_streams } = m;
                    let ghost orig_videos = videos@;
                    let mut videos = videos;
                    let mut video_rows: Vec<VideoRow> = Vec::new();
                    let ghost mut k: int = 0;
                    while videos.len() > 0
                        invariant
                            0 <= k,
                            k + videos@.len() == orig_videos.len(),
                            videos@ == orig_videos.skip(k),
                            up == upcoming_spec(behavior_hints, released, now),
                            video_rows@ == orig_videos.take(k).map_values(
                                video_row_spec(behavior_hints, released, now),
                            ),
                        decreases videos@.len(),
                    {
                        let v = videos.remove(0);
                        proof {
                            assert(v == orig_videos[k]);
                            assert(orig_videos.skip(k).remove(0) =~= orig_videos.skip(k + 1));
                        }
                        video_rows.push(
                            VideoRow {
                                video: v,
                                upcoming: up,
                                watched: false,
                                progress: None,
                                scheduled: behavior_hints.has_scheduled_videos,
                            },
                        );
                        proof {
                            assert(video_rows@ =~= orig_videos.take(k + 1).map_values(
                                video_row_spec(behavior_hints, released, now),
                            ));
                            k = k + 1;
                        }
                    }
                    proof {
                        assert(orig_videos.take(orig_videos.len() as int) =~= orig_videos);
                    }
                    Loadable::Ready(
                        MetaItemRow {
                            id,
                            name,
                            released,
                            behavior_hints,
                            videos: video_rows,
                            links,
                            trailer_streams,
                            in_library: lib_flag,
                        },
                    )
                },
                Loadable::Loading => Loadable::Loading,
                Loadable::Failed(e) => Loadable::Failed(e),
            };
            Some(MetaCatalogRow { request: c.request, content, addon_name })
        },
    };
    let ghost orig_streams = streams_catalogs@;
    let mut streams_catalogs = streams_catalogs;
    let mut stream_rows: Vec<StreamsCatalogRow> = Vec::new();
    let ghost mut i: int = 0;
    while streams_catalogs.len() > 0
        invariant
            0 <= i,
            i + streams_catalogs@.len() == orig_streams.len(),
            streams_catalogs@ == orig_streams.skip(i),
            stream_rows@ == orig_streams.take(i).map_values(streams_row_spec(ctx.profile.addons@)),
        decreases streams_catalogs@.len(),
    {
        let c = streams_catalogs.remove(0);
        proof {
            assert(c == orig_streams[i]);
            assert(orig_streams.skip(i).remove(0) =~= orig_streams.skip(i + 1));
        }
        let addon_name = resolve_addon_name(&ctx.profile, &c.request.base);
        stream_rows.push(StreamsCatalogRow { request: c.request, content: c.content, addon_name });
        proof {
            assert(stream_rows@ =~= orig_streams.take(i + 1).map_values(
                streams_row_spec(ctx.profile.addons@),
            ));
            i = i + 1;
        }
    }
    proof {
        assert(orig_streams.take(orig_streams.len() as int) =~= orig_streams);
    }
    MetaDetailsView {
        selected,
        meta_catalog,
        streams_catalogs: stream_rows,
        meta_extensions,
    }
}

} // verus!
