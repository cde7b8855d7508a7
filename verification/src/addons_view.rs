//! The two addon-catalog surfaces. Remote addons: each listed addon is
//! marked installed exactly when its origin address matches some installed
//! addon's origin address, never by identity. Installed addons: every entry
//! is installed by construction, and a single synthetic "Installed" facet
//! is always present.

use vstd::prelude::*;
use vstd::string::StringExecFns;

use crate::addons::{is_installed, is_installed_spec};
use crate::filters::{CatalogSelected, CatalogWithFilters, SelectableCatalog, SelectableType};
use crate::types::{CtxState, DescriptorPreview, Loadable, ResourceLoadable};

verus! {

/// One listed addon plus its computed installed flag.
#[derive(Debug, PartialEq, Eq, Clone)]
pub struct AddonRow {
    pub addon: DescriptorPreview,
    pub installed: bool,
}

/// The selectable facets the remote-addons view keeps: catalogs and types.
#[derive(Debug, PartialEq, Eq, Clone)]
pub struct AddonsSelectable {
    pub catalogs: Vec<SelectableCatalog>,
    pub types: Vec<SelectableType>,
}

/// The remote catalog's resolution state, its entries enriched with the
/// installed flag.
#[derive(Debug, PartialEq, Eq, Clone)]
pub struct RemoteAddonsCatalogRow {
    pub content: Loadable<Vec<AddonRow>, String>,
}

/// The assembled remote-addons view model.
#[derive(Debug, PartialEq, Eq, Clone)]
pub struct RemoteAddonsView {
    pub selected: Option<CatalogSelected>,
    pub selectable: AddonsSelectable,
    pub catalog: Option<RemoteAddonsCatalogRow>,
}

/// How one listed addon maps to its row: the installed flag holds exactly
/// when the origin address matches some installed addon's origin address.
pub open spec fn addon_row_spec(installed: Seq<DescriptorPreview>) -> spec_fn(
    DescriptorPreview,
) -> AddonRow {
    |a: DescriptorPreview|
        AddonRow { addon: a, installed: is_installed_spec(installed, a.transport_url) }
}

/// The remote catalog row mirrors the source's resolution state: Ready
/// entries become enriched rows, Loading stays Loading, and a failure's
/// payload passes through untouched.
pub open spec fn remote_catalog_rel(
    row_opt: Option<RemoteAddonsCatalogRow>,
    cat_opt: Option<ResourceLoadable<Vec<DescriptorPreview>>>,
    installed: Seq<DescriptorPreview>,
) -> bool {
    match (row_opt, cat_opt) {
        (None, None) => true,
        (Some(row), Some(c)) => match (row.content, c.content) {
            (Loadable::Ready(rows), Loadable::Ready(list)) => rows@ == list@.map_values(
                addon_row_spec(installed),
            ),
            (Loadable::Loading, Loadable::Loading) => true,
            (Loadable::Failed(e2), Loadable::Failed(e1)) => e2 == e1,
            _ => false,
        },
        _ => false,
    }
}

/// The catalog relation pins its row: any two rows assembled from the same
/// source and installed list agree on every observable field.
pub proof fn lemma_remote_catalog_deterministic(
    a: Option<RemoteAddonsCatalogRow>,
    b: Option<RemoteAddonsCatalogRow>,
    cat: Option<ResourceLoadable<Vec<DescriptorPreview>>>,
    installed: Seq<DescriptorPreview>,
)
    requires
        remote_catalog_rel(a, cat, installed),
        remote_catalog_rel(b, cat, installed),
    ensures
        match (a, b) {
            (None, None) => true,
            (Some(ra), Some(rb)) => match (ra.content, rb.content) {
                (Loadable::Ready(va), Loadable::Ready(vb)) => va@ == vb@,
                (Loadable::Loading, Loadable::Loading) => true,
                (Loadable::Failed(ea), Loadable::Failed(eb)) => ea == eb,
                _ => false,
            },
            _ => false,
        },
{
}

/// Assembles the remote-addons view: facets and selection pass through, and
/// every Ready catalog entry is marked installed exactly when its origin
/// address matches an installed addon's.
pub fn serialize_remote_addons(remote_addons: CatalogWithFilters<DescriptorPreview>, ctx: &CtxState)
    -> (r: RemoteAddonsView)
    ensures
        r.selected == remote_addons.selected,
        r.selectable.catalogs == remote_addons.selectable.catalogs,
        r.selectable.types == remote_addons.selectable.types,
        remote_catalog_rel(r.catalog, remote_addons.catalog, ctx.profile.addons@),
{
    let CatalogWithFilters { selected, selectable, catalog } = remote_addons;
    let catalog_row = match catalog {
        None => None,
        Some(c) => Some(
            RemoteAddonsCatalogRow {
                content: match c.content {
                    Loadable::Ready(list) => {
                        let ghost orig = list@;
                        let mut list = list;
                        let mut rows: Vec<AddonRow> = Vec::new();
                        let ghost mut i: int = 0;
                        while list.len() > 0
                            invariant
                                0 <= i,
                                i + list@.len() == orig.len(),
                                list@ == orig.skip(i),
                                rows@ == orig.take(i).map_values(
                                    addon_row_spec(ctx.profile.addons@),
                                ),
                            decreases list@.len(),
                        {
                            let a = list.remove(0);
                            proof {
                                assert(a == orig[i]);
                                assert(orig.skip(i).remove(0) =~= orig.skip(i + 1));
                            }
                            let flag = is_installed(&ctx.profile, &a.transport_url);
                            rows.push(AddonRow { addon: a, installed: flag });
                            proof {
                                assert(rows@ =~= orig.take(i + 1).map_values(
                                    addon_row_spec(ctx.profile.addons@),
                                ));
                                i = i + 1;
                            }
                        }
                        proof {
                            assert(orig.take(orig.len() as int) =~= orig);
                        }
                        Loadable::Ready(rows)
                    },
                    Loadable::Loading => Loadable::Loading,
                    Loadable::Failed(e) => Loadable::Failed(e),
                },
            },
        ),
    };
    RemoteAddonsView {
        selected,
        selectable: AddonsSelectable { catalogs: selectable.catalogs, types: selectable.types },
        catalog: catalog_row,
    }
}

/// A request into the installed-addon set: at most a type filter.
#[derive(Debug, PartialEq, Eq, Clone)]
pub struct InstalledAddonsRequest {
    pub kind: Option<String>,
}

/// What the installed-addons surface has selected.
#[derive(Debug, PartialEq, Eq, Clone)]
pub struct InstalledAddonsSelected {
    pub request: InstalledAddonsRequest,
}

/// A selectable type facet of the installed-addons surface.
#[derive(Debug, PartialEq, Eq, Clone)]
pub struct InstalledSelectableType {
    pub kind: Option<String>,
    pub selected: bool,
    pub request: InstalledAddonsRequest,
}

/// The installed-addons state slice.
#[derive(Debug, PartialEq, Eq, Clone)]
pub struct InstalledAddonsWithFilters {
    pub selected: Option<InstalledAddonsSelected>,
    pub selectable_types: Vec<InstalledSelectableType>,
    pub catalog: Vec<DescriptorPreview>,
}

/// The single synthetic catalog facet of the installed-addons view.
#[derive(Debug, PartialEq, Eq, Clone)]
pub struct InstalledSelectableCatalog {
    pub catalog: String,
    pub selected: bool,
    pub request: InstalledAddonsRequest,
}

/// The assembled installed-addons view model.
#[derive(Debug, PartialEq, Eq, Clone)]
pub struct InstalledAddonsView {
    pub selected: Option<InstalledAddonsSelected>,
    pub selectable_types: Vec<InstalledSelectableType>,
    pub selectable_catalogs: Vec<InstalledSelectableCatalog>,
    pub catalog: Vec<AddonRow>,
}

/// Every entry of the installed set is installed by construction.
pub open spec fn installed_row_spec() -> spec_fn(DescriptorPreview) -> AddonRow {
    |a: DescriptorPreview| AddonRow { addon: a, installed: true }
}

/// The contract pins the view: any two installed-addons views assembled
/// from the same state agree on every observable field.
pub proof fn lemma_installed_view_deterministic(
    r1: InstalledAddonsView,
    r2: InstalledAddonsView,
    state: InstalledAddonsWithFilters,
)
    requires
        r1.selected == state.selected,
        r1.selectable_types == state.selectable_types,
        r1.selectable_catalogs@.len() == 1,
        r1.selectable_catalogs@[0].catalog@ == "Installed"@,
        r1.selectable_catalogs@[0].selected == (state.selected is Some),
        r1.selectable_catalogs@[0].request.kind is None,
        r1.catalog@ == state.catalog@.map_values(installed_row_spec()),
        r2.selected == state.selected,
        r2.selectable_types == state.selectable_types,
        r2.selectable_catalogs@.len() == 1,
        r2.selectable_catalogs@[0].catalog@ == "Installed"@,
        r2.selectable_catalogs@[0].selected == (state.selected is Some),
        r2.selectable_catalogs@[0].request.kind is None,
        r2.catalog@ == state.catalog@.map_values(installed_row_spec()),
    ensures
        r1.selected == r2.selected,
        r1.selectable_types == r2.selectable_types,
        r1.selectable_catalogs@[0].catalog@ == r2.selectable_catalogs@[0].catalog@,
        r1.selectable_catalogs@[0].selected == r2.selectable_catalogs@[0].selected,
        r1.catalog@ == r2.catalog@,
{
}

/// Assembles the installed-addons view: type facets and selection pass
/// through, exactly one synthetic "Installed" catalog facet is present
/// (selected whenever anything is), and every entry is marked installed.
pub fn serialize_installed_addons(installed_addons: InstalledAddonsWithFilters) -> (r:
    InstalledAddonsView)
    ensures
        r.selected == installed_addons.selected,
        r.selectable_types == installed_addons.selectable_types,
        r.selectable_catalogs@.len() == 1,
        r.selectable_catalogs@[0].catalog@ == "Installed"@,
        r.selectable_catalogs@[0].selected == (installed_addons.selected is Some),
        r.selectable_catalogs@[0].request.kind is None,
        r.catalog@ == installed_addons.catalog@.map_values(installed_row_spec()),
{
    let InstalledAddonsWithFilters { selected, selectable_types, catalog } = installed_addons;
    let any_selected = selected.is_some();
    let ghost orig = catalog@;
    let mut catalog = catalog;
    let mut rows: Vec<AddonRow> = Vec::new();
    let ghost mut i: int = 0;
    while catalog.len() > 0
        invariant
            0 <= i,
            i + catalog@.len() == orig.len(),
            catalog@ == orig.skip(i),
            rows@ == orig.take(i).map_values(installed_row_spec()),
        decreases catalog@.len(),
    {
        let a = catalog.remove(0);
        proof {
            assert(a == orig[i]);
            assert(orig.skip(i).remove(0) =~= orig.skip(i + 1));
        }
        rows.push(AddonRow { addon: a, installed: true });
        proof {
            assert(rows@ =~= orig.take(i + 1).map_values(installed_row_spec()));
            i = i + 1;
        }
    }
    proof {
        assert(orig.take(orig.len() as int) =~= orig);
    }
    let mut facets: Vec<InstalledSelectableCatalog> = Vec::new();
    facets.push(
        InstalledSelectableCatalog {
            catalog: String::from_str("Installed"),
            selected: any_selected,
            request: InstalledAddonsRequest { kind: None },
        },
    );
    InstalledAddonsView {
        selected,
        selectable_types,
        selectable_catalogs: facets,
        catalog: rows,
    }
}

} // verus!
