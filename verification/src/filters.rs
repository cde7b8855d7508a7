//! The catalog-with-filters state shape shared by the discovery and
//! remote-addon surfaces: the selected request, the selectable facets
//! (types, catalogs, extra filter options, neighbouring pages) and the
//! current catalog source. Every facet row carries the request the
//! navigation-link generator is to be invoked with.

use vstd::prelude::*;

use crate::types::{ResourceLoadable, ResourceRequest};

verus! {

/// What the surface currently has selected: the request driving the shown
/// catalog.
#[derive(Debug, PartialEq, Eq, Clone)]
pub struct CatalogSelected {
    pub request: ResourceRequest,
}

/// A selectable entity-type facet.
#[derive(Debug, PartialEq, Eq, Clone)]
pub struct SelectableType {
    pub kind: String,
    pub selected: bool,
    pub request: ResourceRequest,
}

/// A selectable catalog facet, already labelled with its addon's name.
#[derive(Debug, PartialEq, Eq, Clone)]
pub struct SelectableCatalog {
    pub catalog: String,
    pub addon_name: String,
    pub selected: bool,
    pub request: ResourceRequest,
}

/// One option of an extra filter dimension.
#[derive(Debug, PartialEq, Eq, Clone)]
pub struct SelectableExtraOption {
    pub value: Option<String>,
    pub selected: bool,
    pub request: ResourceRequest,
}

/// An extra filter dimension and its options.
#[derive(Debug, PartialEq, Eq, Clone)]
pub struct SelectableExtra {
    pub name: String,
    pub is_required: bool,
    pub options: Vec<SelectableExtraOption>,
}

/// A neighbouring page, reachable through its request.
#[derive(Debug, PartialEq, Eq, Clone)]
pub struct SelectablePage {
    pub request: ResourceRequest,
}

/// Every selectable dimension of a catalog-with-filters surface.
#[derive(Debug, PartialEq, Eq, Clone)]
pub struct Selectable {
    pub types: Vec<SelectableType>,
    pub catalogs: Vec<SelectableCatalog>,
    pub extra: Vec<SelectableExtra>,
    pub prev_page: Option<SelectablePage>,
    pub next_page: Option<SelectablePage>,
}

/// The whole catalog-with-filters state slice for entities of type `T`.
#[derive(Debug, PartialEq, Eq, Clone)]
pub struct CatalogWithFilters<T> {
    pub selected: Option<CatalogSelected>,
    pub selectable: Selectable,
    pub catalog: Option<ResourceLoadable<Vec<T>>>,
}

} // verus!
