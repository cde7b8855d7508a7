//! Projection layer for a media-center user interface: turns already-resolved
//! domain state (catalogs, library entries, addons, streaming-server status,
//! notifications) into flattened, display-ready view models.
//!
//! Every transform here is a pure, deterministic function of its inputs: the
//! representative-source selection policy, addon-directory lookups, per-entity
//! enrichment (library membership, pagination, upcoming flags) and
//! cross-reference deduplication are all specified and verified. Navigation
//! link generation and serialization are left to the caller: each view model
//! carries the exact inputs the link generator is to be invoked with.

pub mod addons;
pub mod addons_view;
pub mod catalogs;
pub mod ctx_view;
pub mod dedup;
pub mod discover;
pub mod enrich;
pub mod filters;
pub mod library_view;
pub mod meta_details;
pub mod selector;
pub mod seq_util;
pub mod server;
pub mod types;

use vstd::prelude::*;

verus! {

/// Number of catalog entries that one page holds; the pagination index is
/// computed from the "skip" extra parameter and this constant.
pub const CATALOG_PAGE_SIZE: u32 = 100;

} // verus!
