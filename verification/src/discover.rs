//! The discovery surface: a catalog-with-filters projection over meta-item
//! previews. Facet rows pass through with their requests; every entity of a
//! Ready catalog source is enriched with its library-membership flag; the
//! addon name of the current source is resolved from the profile; and the
//! one-based page index is computed from the selected request's "skip"
//! extra parameter.

use vstd::prelude::*;

use crate::addons::{resolve_addon_name, resolve_addon_name_spec};
use crate::enrich::{in_library, in_library_spec, page_of_request, page_spec};
use crate::filters::{CatalogSelected, CatalogWithFilters, Selectable};
use crate::types::{dup_request, req_like, CtxState, DescriptorPreview, LibraryItem, Loadable,
    MetaItemPreview, ResourceLoadable, ResourceRequest};

verus! {

/// One meta-item preview plus its computed library-membership flag.
#[derive(Debug, PartialEq, Eq, Clone)]
pub struct MetaPreviewRow {
    pub meta_item: MetaItemPreview,
    pub in_library: bool,
}

/// The current catalog source of the view: its resolution state with
/// enriched entities, and the display name of the addon it originates from.
#[derive(Debug, PartialEq, Eq, Clone)]
pub struct DiscoverCatalogRow {
    pub content: Loadable<Vec<MetaPreviewRow>, String>,
    pub addon_name: Option<String>,
}

/// The assembled discovery view model. `default_request` is the first
/// selectable type's request, the target the surface falls back to.
#[derive(Debug, PartialEq, Eq, Clone)]
pub struct DiscoverView {
    pub selected: Option<CatalogSelected>,
    pub selectable: Selectable,
    pub catalog: Option<DiscoverCatalogRow>,
    pub default_request: Option<ResourceRequest>,
    pub page: u32,
}

/// How one preview maps to its row: the entity passes through, with its
/// library-membership flag computed against the library index.
pub open spec fn meta_preview_row_spec(lib: Seq<LibraryItem>) -> spec_fn(
    MetaItemPreview,
) -> MetaPreviewRow {
    |m: MetaItemPreview|
        MetaPreviewRow { meta_item: m, in_library: in_library_spec(lib, m.id) }
}

/// The catalog row mirrors the source's resolution state: Ready entries are
/// enriched, Loading stays Loading, a failure's payload passes through; the
/// addon name comes from the directory lookup on the source's origin.
pub open spec fn discover_catalog_rel(
    row_opt: Option<DiscoverCatalogRow>,
    cat_opt: Option<ResourceLoadable<Vec<MetaItemPreview>>>,
    addons: Seq<DescriptorPreview>,
    lib: Seq<LibraryItem>,
) -> bool {
    match (row_opt, cat_opt) {
        (None, None) => true,
        (Some(row), Some(c)) => row.addon_name == resolve_addon_name_spec(addons, c.request.base)
            && match (row.content, c.content) {
            (Loadable::Ready(rows), Loadable::Ready(metas)) => rows@ == metas@.map_values(
                meta_preview_row_spec(lib),
            ),
            (Loadable::Loading, Loadable::Loading) => true,
            (Loadable::Failed(e2), Loadable::Failed(e1)) => e2 == e1,
            _ => false,
        },
        _ => false,
    }
}

/// Page of the selection: computed from the selected request, page one when
/// nothing is selected.
pub open spec fn page_opt_spec(selected: Option<CatalogSelected>) -> u32 {
    match selected {
        Some(s) => page_spec(s.request),
        None => 1,
    }
}

/// The contract pins the view: any two discovery views assembled from the
/// same state, profile and library agree on every observable field.
pub proof fn lemma_discover_view_deterministic(
    r1: DiscoverView,
    r2: DiscoverView,
    d: CatalogWithFilters<MetaItemPreview>,
    addons: Seq<DescriptorPreview>,
    lib: Seq<LibraryItem>,
)
    requires
        r1.selected == d.selected,
        r1.selectable == d.selectable,
        discover_catalog_rel(r1.catalog, d.catalog, addons, lib),
        match r1.default_request {
            Some(q) => d.selectable.types@.len() > 0 && req_like(q, d.selectable.types@[0].request),
            None => d.selectable.types@.len() == 0,
        },
        r1.page == page_opt_spec(d.selected),
        r2.selected == d.selected,
        r2.selectable == d.selectable,
        discover_catalog_rel(r2.catalog, d.catalog, addons, lib),
        match r2.default_request {
            Some(q) => d.selectable.types@.len() > 0 && req_like(q, d.selectable.types@[0].request),
            None => d.selectable.types@.len() == 0,
        },
        r2.page == page_opt_spec(d.selected),
    ensures
        r1.selected == r2.selected,
        r1.selectable == r2.selectable,
        r1.page == r2.page,
        match (r1.default_request, r2.default_request) {
            (None, None) => true,
            (Some(q1), Some(q2)) => req_like(q1, q2),
            _ => false,
        },
        match (r1.catalog, r2.catalog) {
            (None, None) => true,
            (Some(ra), Some(rb)) => ra.addon_name == rb.addon_name && match (
                ra.content,
                rb.content,
            ) {
                (Loadable::Ready(va), Loadable::Ready(vb)) => va@ == vb@,
                (Loadable::Loading, Loadable::Loading) => true,
                (Loadable::Failed(ea), Loadable::Failed(eb)) => ea == eb,
                _ => false,
            },
            _ => false,
        },
{
}

/// Assembles the discovery view: selection and facets pass through, every
/// entity of a Ready catalog is enriched with its library flag, the
/// source's addon name is resolved, the default request is the first
/// selectable type's, and the page index follows the selected request's
/// "skip" parameter.
pub fn serialize_discover(discover: CatalogWithFilters<MetaItemPreview>, ctx: &CtxState) -> (r:
    DiscoverView)
    ensures
        r.selected == discover.selected,
        r.selectable == discover.selectable,
        discover_catalog_rel(r.catalog, discover.catalog, ctx.profile.addons@, ctx.library.items@),
        match r.default_request {
            Some(q) => discover.selectable.types@.len() > 0 && req_like(
                q,
                discover.selectable.types@[0].request,
            ),
            None => discover.selectable.types@.len() == 0,
        },
        r.page == page_opt_spec(discover.selected),
{
    let page = match &discover.selected {
        Some(s) => page_of_request(&s.request),
        None => 1,
    };
    let default_request = if discover.selectable.types.len() > 0 {
        Some(dup_request(&discover.selectable.types[0].request))
    } else {
        None
    };
    let CatalogWithFilters { selected, selectable, catalog } = discover;
    let catalog_row = match catalog {
        None => None,
        Some(c) => {
            let addon_name = resolve_addon_name(&ctx.profile, &c.request.base);
            let content = match c.content {
                Loadable::Ready(metas) => {
                    let ghost orig = metas@;
                    let mut metas = metas;
                    let mut rows: Vec<MetaPreviewRow> = Vec::new();
                    let ghost mut i: int = 0;
                    while metas.len() > 0
                        invariant
                            0 <= i,
                            i + metas@.len() == orig.len(),
                            metas@ == orig.skip(i),
                            rows@ == orig.take(i).map_values(
                                meta_preview_row_spec(ctx.library.items@),
                            ),
                        decreases metas@.len(),
                    {
                        let m = metas.remove(0);
                        proof {
                            assert(m == orig[i]);
                            assert(orig.skip(i).remove(0) =~= orig.skip(i + 1));
                        }
                        let flag = in_library(&ctx.library, &m.id);
                        rows.push(MetaPreviewRow { meta_item: m, in_library: flag });
                        proof {
                            assert(rows@ =~= orig.take(i + 1).map_values(
                                meta_preview_row_spec(ctx.library.items@),
                            ));
                            i = i + 1;
                        }
                    }
                    proof {
                        assert(orig.take(orig.len() as int) =~= orig);
                    }
                    Loadable::Ready(rows)
                },
                Loadable::Loading => Loadable::Loading,
                Loadable::Failed(e) => Loadable::Failed(e),
            };
            Some(DiscoverCatalogRow { content, addon_name })
        },
    };
    DiscoverView { selected, selectable, catalog: catalog_row, default_request, page }
}

} // verus!
