//! The library surface and the continue-watching preview. Facet rows carry
//! the request the navigation-link generator combines with the caller's
//! root segment; each library entry's own link bundle is generated from the
//! entry itself.

use vstd::prelude::*;
use vstd::string::StringExecFns;

use crate::types::LibraryItem;

verus! {

/// A request into the library: a type filter and a sort order.
#[derive(Debug, PartialEq, Eq, Clone)]
pub struct LibraryRequest {
    pub kind: Option<String>,
    pub sort: String,
}

/// What the library surface has selected.
#[derive(Debug, PartialEq, Eq, Clone)]
pub struct LibrarySelected {
    pub request: LibraryRequest,
}

/// A selectable type facet of the library surface.
#[derive(Debug, PartialEq, Eq, Clone)]
pub struct LibSelectableType {
    pub kind: Option<String>,
    pub selected: bool,
    pub request: LibraryRequest,
}

/// A selectable sort facet of the library surface.
#[derive(Debug, PartialEq, Eq, Clone)]
pub struct LibSelectableSort {
    pub sort: String,
    pub selected: bool,
    pub request: LibraryRequest,
}

/// Every selectable dimension of the library surface.
#[derive(Debug, PartialEq, Eq, Clone)]
pub struct LibrarySelectable {
    pub types: Vec<LibSelectableType>,
    pub sorts: Vec<LibSelectableSort>,
}

/// The library state slice.
#[derive(Debug, PartialEq, Eq, Clone)]
pub struct LibraryWithFilters {
    pub selected: Option<LibrarySelected>,
    pub selectable: LibrarySelectable,
    pub catalog: Vec<LibraryItem>,
}

/// The assembled library view model: selection, facets and entries pass
/// through, and `root` is the path segment the caller scopes every facet's
/// navigation target with.
#[derive(Debug, PartialEq, Eq, Clone)]
pub struct LibraryView {
    pub selected: Option<LibrarySelected>,
    pub root: String,
    pub selectable: LibrarySelectable,
    pub catalog: Vec<LibraryItem>,
}

/// Assembles the library view: everything passes through, scoped to the
/// caller-supplied root path segment.
pub fn serialize_library(library: LibraryWithFilters, root: String) -> (r: LibraryView)
    ensures
        r.selected == library.selected,
        r.selectable == library.selectable,
        r.catalog == library.catalog,
        r.root == root,
{
    let LibraryWithFilters { selected, selectable, catalog } = library;
    LibraryView { selected, root, selectable, catalog }
}

/// The contract pins the view: any two library views assembled from the
/// same state and root are equal.
pub proof fn lemma_library_view_deterministic(
    r1: LibraryView,
    r2: LibraryView,
    library: LibraryWithFilters,
    root: String,
)
    requires
        r1.selected == library.selected,
        r1.selectable == library.selectable,
        r1.catalog == library.catalog,
        r1.root == root,
        r2.selected == library.selected,
        r2.selectable == library.selectable,
        r2.catalog == library.catalog,
        r2.root == root,
    ensures
        r1 == r2,
{
}

/// The continue-watching slice: the library entries to preview.
#[derive(Debug, PartialEq, Eq, Clone)]
pub struct ContinueWatchingPreview {
    pub library_items: Vec<LibraryItem>,
}

/// The assembled continue-watching view: the entries pass through, and the
/// surface's navigation target is scoped to its fixed root segment.
#[derive(Debug, PartialEq, Eq, Clone)]
pub struct ContinueWatchingView {
    pub library_items: Vec<LibraryItem>,
    pub root: String,
}

/// The contract pins the view: any two continue-watching views assembled
/// from the same slice agree on every observable field.
pub proof fn lemma_continue_watching_deterministic(
    r1: ContinueWatchingView,
    r2: ContinueWatchingView,
    preview: ContinueWatchingPreview,
)
    requires
        r1.library_items == preview.library_items,
        r1.root@ == "continuewatching"@,
        r2.library_items == preview.library_items,
        r2.root@ == "continuewatching"@,
    ensures
        r1.library_items == r2.library_items,
        r1.root@ == r2.root@,
{
}

/// Assembles the continue-watching preview: entries pass through, under the
/// surface's fixed "continuewatching" root segment.
pub fn serialize_continue_watching_preview(preview: ContinueWatchingPreview) -> (r:
    ContinueWatchingView)
    ensures
        r.library_items == preview.library_items,
        r.root@ == "continuewatching"@,
{
    ContinueWatchingView {
        library_items: preview.library_items,
        root: String::from_str("continuewatching"),
    }
}

} // verus!
