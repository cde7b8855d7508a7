//! The catalogs-with-extra surface: one row per queried catalog source,
//! each labelled with its addon's display name, its resolution state passed
//! through untouched. A row's navigation target and the link bundles of its
//! entities are generated by the caller from the row's own request and
//! entity fields.

use vstd::prelude::*;

use crate::addons::{resolve_addon_name, resolve_addon_name_spec};
use crate::types::{CtxState, DescriptorPreview, ExtraValue, Loadable, MetaItemPreview,
    ResourceLoadable, ResourceRequest};

verus! {

/// What the surface has selected: an entity type and the extra parameters
/// the catalogs were queried with.
#[derive(Debug, PartialEq, Eq, Clone)]
pub struct CatalogsWithExtraSelected {
    pub kind: Option<String>,
    pub extra: Vec<ExtraValue>,
}

/// The catalogs-with-extra state slice: the selection plus one loadable
/// source per queried catalog.
#[derive(Debug, PartialEq, Eq, Clone)]
pub struct CatalogsWithExtra {
    pub selected: Option<CatalogsWithExtraSelected>,
    pub catalogs: Vec<ResourceLoadable<Vec<MetaItemPreview>>>,
}

/// One catalog source of the view: its request, its untouched resolution
/// state, and the display name of the addon the request originates from.
#[derive(Debug, PartialEq, Eq, Clone)]
pub struct CatalogRow {
    pub request: ResourceRequest,
    pub content: Loadable<Vec<MetaItemPreview>, String>,
    pub addon_name: Option<String>,
}

/// The assembled catalogs-with-extra view model.
#[derive(Debug, PartialEq, Eq, Clone)]
pub struct CatalogsWithExtraView {
    pub selected: Option<CatalogsWithExtraSelected>,
    pub catalogs: Vec<CatalogRow>,
}

/// How one catalog source maps to its view row: everything passes through,
/// and the addon name is resolved from the profile's installed list.
pub open spec fn catalog_row_spec(addons: Seq<DescriptorPreview>) -> spec_fn(
    ResourceLoadable<Vec<MetaItemPreview>>,
) -> CatalogRow {
    |c: ResourceLoadable<Vec<MetaItemPreview>>|
        CatalogRow {
            request: c.request,
            content: c.content,
            addon_name: resolve_addon_name_spec(addons, c.request.base),
        }
}

/// The contract pins the view: any two views assembled from the same state
/// and installed list agree on every observable field.
pub proof fn lemma_catalogs_view_deterministic(
    r1: CatalogsWithExtraView,
    r2: CatalogsWithExtraView,
    state: CatalogsWithExtra,
    addons: Seq<DescriptorPreview>,
)
    requires
        r1.selected == state.selected,
        r1.catalogs@ == state.catalogs@.map_values(catalog_row_spec(addons)),
        r2.selected == state.selected,
        r2.catalogs@ == state.catalogs@.map_values(catalog_row_spec(addons)),
    ensures
        r1.selected == r2.selected,
        r1.catalogs@ == r2.catalogs@,
{
}

/// Assembles the catalogs-with-extra view: the selection passes through,
/// and every catalog source becomes a row with its addon name resolved
/// against the profile.
pub fn serialize_catalogs_with_extra(state: CatalogsWithExtra, ctx: &CtxState) -> (r:
    CatalogsWithExtraView)
    ensures
        r.selected == state.selected,
        r.catalogs@ == state.catalogs@.map_values(catalog_row_spec(ctx.profile.addons@)),
{
    let ghost orig = state.catalogs@;
    let CatalogsWithExtra { selected, catalogs } = state;
    let mut catalogs = catalogs;
    let mut rows: Vec<CatalogRow> = Vec::new();
    let ghost mut i: int = 0;
    while catalogs.len() > 0
        invariant
            0 <= i,
            i + catalogs@.len() == orig.len(),
            catalogs@ == orig.skip(i),
            rows@ == orig.take(i).map_values(catalog_row_spec(ctx.profile.addons@)),
        decreases catalogs@.len(),
    {
        let c = catalogs.remove(0);
        proof {
            assert(c == orig[i]);
            assert(orig.skip(i).remove(0) =~= orig.skip(i + 1));
        }
        let addon_name = resolve_addon_name(&ctx.profile, &c.request.base);
        rows.push(CatalogRow { request: c.request, content: c.content, addon_name });
        proof {
            assert(rows@ =~= orig.take(i + 1).map_values(catalog_row_spec(ctx.profile.addons@)));
            i = i + 1;
        }
    }
    proof {
        assert(orig.take(orig.len() as int) =~= orig);
    }
    CatalogsWithExtraView { selected, catalogs: rows }
}

} // verus!
