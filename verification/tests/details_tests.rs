use stremio_views::discover::serialize_discover;
use stremio_views::filters::{CatalogSelected, CatalogWithFilters, Selectable, SelectableType};
use stremio_views::meta_details::{serialize_meta_details, MetaDetails};
use stremio_views::types::{
    BehaviorHints, CtxState, DescriptorPreview, ExtraValue, LibraryIndex, LibraryItem, Link,
    Loadable, ManifestPreview, MetaItem, MetaItemPreview, NotificationsBucket, Profile,
    ResourceLoadable, ResourcePath, ResourceRequest, Stream, Video,
};

fn addon(url: &str, name: &str) -> DescriptorPreview {
    DescriptorPreview {
        transport_url: url.to_string(),
        manifest: ManifestPreview { name: name.to_string(), logo: None },
    }
}

fn ctx(addons: Vec<DescriptorPreview>, items: Vec<LibraryItem>) -> CtxState {
    CtxState {
        profile: Profile { addons },
        library: LibraryIndex { items },
        notifications: NotificationsBucket { groups: Vec::new(), last_updated: None, created: 0 },
    }
}

fn req(base: &str, extra: &[(&str, &str)]) -> ResourceRequest {
    ResourceRequest {
        base: base.to_string(),
        path: ResourcePath {
            resource: "meta".to_string(),
            kind: "series".to_string(),
            id: "tt1".to_string(),
            extra: extra
                .iter()
                .map(|(n, v)| ExtraValue { name: n.to_string(), value: v.to_string() })
                .collect(),
        },
    }
}

fn link(name: &str, category: &str, url: &str) -> Link {
    Link { name: name.to_string(), category: category.to_string(), url: url.to_string() }
}

fn full_meta(id: &str, scheduled: bool, released: Option<i64>, links: Vec<Link>) -> MetaItem {
    MetaItem {
        id: id.to_string(),
        name: format!("name-{}", id),
        released,
        behavior_hints: BehaviorHints { has_scheduled_videos: scheduled },
        videos: vec![
            Video {
                id: "v1".to_string(),
                title: "Episode 1".to_string(),
                trailer_streams: Vec::new(),
            },
            Video {
                id: "v2".to_string(),
                title: "Episode 2".to_string(),
                trailer_streams: vec![Stream { name: "t".to_string() }],
            },
        ],
        links,
        trailer_streams: Vec::new(),
    }
}

fn details_state() -> MetaDetails {
    MetaDetails {
        selected: None,
        meta_catalogs: vec![
            ResourceLoadable {
                request: req("https://a/", &[]),
                content: Loadable::Failed("down".to_string()),
            },
            ResourceLoadable {
                request: req("https://b/", &[]),
                content: Loadable::Ready(full_meta(
                    "tt1",
                    true,
                    Some(2_000),
                    vec![
                        link("Also on B", "meta", "https://x/one"),
                        link("Cast", "actor", "https://x/cast"),
                        link("More", "meta", "https://x/two"),
                    ],
                )),
            },
            ResourceLoadable {
                request: req("https://c/", &[]),
                content: Loadable::Ready(full_meta(
                    "tt1",
                    false,
                    None,
                    vec![
                        link("Dup of one", "meta", "https://x/one"),
                        link("Third", "meta", "https://x/three"),
                        link("Unresolvable", "meta", "https://x/four"),
                    ],
                )),
            },
        ],
        streams_catalogs: vec![
            ResourceLoadable {
                request: req("https://b/", &[]),
                content: Loadable::Ready(vec![Stream { name: "s1".to_string() }]),
            },
            ResourceLoadable {
                request: req("https://nowhere/", &[]),
                content: Loadable::Loading,
            },
        ],
    }
}

fn details_ctx() -> CtxState {
    ctx(
        vec![
            addon("https://a/", "Alpha"),
            addon("https://b/", "Beta"),
            addon("https://c/", "Gamma"),
        ],
        vec![LibraryItem { id: "tt1".to_string(), name: "One".to_string(), removed: false }],
    )
}

#[test]
fn meta_details_picks_first_ready_and_enriches() {
    let view = serialize_meta_details(details_state(), &details_ctx(), 1_000);
    let row = view.meta_catalog.expect("representative row");
    assert_eq!(row.request, req("https://b/", &[]));
    assert_eq!(row.addon_name, Some("Beta".to_string()));
    match row.content {
        Loadable::Ready(meta) => {
            assert_eq!(meta.id, "tt1");
            assert!(meta.in_library);
            assert_eq!(meta.videos.len(), 2);
            for video in &meta.videos {
                assert!(video.upcoming, "released 2000 > now 1000 and scheduled");
                assert!(video.scheduled);
                assert!(!video.watched);
                assert_eq!(video.progress, None);
            }
            assert_eq!(meta.videos[0].video.id, "v1");
            assert_eq!(meta.videos[1].video.id, "v2");
        }
        other => panic!("expected Ready, got {:?}", other),
    }
}

#[test]
fn meta_details_past_release_is_not_upcoming() {
    let view = serialize_meta_details(details_state(), &details_ctx(), 3_000);
    match view.meta_catalog.expect("row").content {
        Loadable::Ready(meta) => {
            for video in &meta.videos {
                assert!(!video.upcoming, "released 2000 <= now 3000");
                assert!(video.scheduled);
            }
        }
        other => panic!("expected Ready, got {:?}", other),
    }
}

#[test]
fn meta_details_streams_projected_in_parallel() {
    let view = serialize_meta_details(details_state(), &details_ctx(), 1_000);
    assert_eq!(view.streams_catalogs.len(), 2);
    assert_eq!(view.streams_catalogs[0].request, req("https://b/", &[]));
    assert_eq!(view.streams_catalogs[0].addon_name, Some("Beta".to_string()));
    assert_eq!(
        view.streams_catalogs[0].content,
        Loadable::Ready(vec![Stream { name: "s1".to_string() }])
    );
    assert_eq!(view.streams_catalogs[1].addon_name, None);
    assert_eq!(view.streams_catalogs[1].content, Loadable::Loading);
}

#[test]
fn meta_extensions_dedup_keeps_first_seen_order() {
    let view = serialize_meta_details(details_state(), &details_ctx(), 1_000);
    let urls: Vec<&str> = view.meta_extensions.iter().map(|e| e.url.as_str()).collect();
    assert_eq!(urls, vec!["https://x/one", "https://x/two", "https://x/three", "https://x/four"]);
    assert_eq!(view.meta_extensions[0].name, "Also on B");
    assert_eq!(view.meta_extensions[0].addon_name, "Beta");
    assert_eq!(view.meta_extensions[0].addon_transport_url, "https://b/");
}

#[test]
fn meta_extensions_drop_unresolvable_origins() {
    let mut state = details_state();
    state.meta_catalogs[2].request = req("https://stranger/", &[]);
    let view = serialize_meta_details(state, &details_ctx(), 1_000);
    let urls: Vec<&str> = view.meta_extensions.iter().map(|e| e.url.as_str()).collect();
    assert_eq!(urls, vec!["https://x/one", "https://x/two"]);
}

#[test]
fn meta_extensions_duplicate_shadowed_by_unresolvable_first_occurrence() {
    let mut state = details_state();
    state.meta_catalogs[1].request = req("https://stranger/", &[]);
    let c = ctx(
        vec![addon("https://a/", "Alpha"), addon("https://c/", "Gamma")],
        Vec::new(),
    );
    let view = serialize_meta_details(state, &c, 1_000);
    let urls: Vec<&str> = view.meta_extensions.iter().map(|e| e.url.as_str()).collect();
    // "https://x/one" first occurred on the unresolvable stranger source, so
    // its resolvable duplicate from the Gamma source stays dropped too.
    assert_eq!(urls, vec!["https://x/three", "https://x/four"]);
    assert!(view.meta_extensions.iter().all(|e| e.addon_name == "Gamma"));
}

#[test]
fn meta_details_all_failed_keeps_first_error() {
    let state = MetaDetails {
        selected: None,
        meta_catalogs: vec![
            ResourceLoadable {
                request: req("https://a/", &[]),
                content: Loadable::Failed("first".to_string()),
            },
            ResourceLoadable {
                request: req("https://b/", &[]),
                content: Loadable::Failed("second".to_string()),
            },
        ],
        streams_catalogs: Vec::new(),
    };
    let view = serialize_meta_details(state, &details_ctx(), 0);
    let row = view.meta_catalog.expect("row");
    assert_eq!(row.request, req("https://a/", &[]));
    assert_eq!(row.content, Loadable::Failed("first".to_string()));
}

#[test]
fn meta_details_empty_sources_have_no_representative() {
    let state = MetaDetails {
        selected: None,
        meta_catalogs: Vec::new(),
        streams_catalogs: Vec::new(),
    };
    let view = serialize_meta_details(state, &details_ctx(), 0);
    assert!(view.meta_catalog.is_none());
    assert!(view.meta_extensions.is_empty());
}

#[test]
fn meta_details_is_deterministic() {
    let v1 = serialize_meta_details(details_state(), &details_ctx(), 1_000);
    let v2 = serialize_meta_details(details_state(), &details_ctx(), 1_000);
    assert_eq!(v1, v2);
}

fn discover_state() -> CatalogWithFilters<MetaItemPreview> {
    CatalogWithFilters {
        selected: Some(CatalogSelected { request: req("https://a/", &[("skip", "150")]) }),
        selectable: Selectable {
            types: vec![
                SelectableType {
                    kind: "movie".to_string(),
                    selected: true,
                    request: req("https://a/", &[]),
                },
                SelectableType {
                    kind: "series".to_string(),
                    selected: false,
                    request: req("https://b/", &[]),
                },
            ],
            catalogs: Vec::new(),
            extra: Vec::new(),
            prev_page: None,
            next_page: None,
        },
        catalog: Some(ResourceLoadable {
            request: req("https://a/", &[("skip", "150")]),
            content: Loadable::Ready(vec![
                MetaItemPreview {
                    id: "tt1".to_string(),
                    name: "In library".to_string(),
                    trailer_streams: Vec::new(),
                },
                MetaItemPreview {
                    id: "tt2".to_string(),
                    name: "Tombstoned".to_string(),
                    trailer_streams: Vec::new(),
                },
                MetaItemPreview {
                    id: "tt3".to_string(),
                    name: "Unknown".to_string(),
                    trailer_streams: Vec::new(),
                },
            ]),
        }),
    }
}

fn discover_ctx() -> CtxState {
    ctx(
        vec![addon("https://a/", "Alpha")],
        vec![
            LibraryItem { id: "tt1".to_string(), name: "One".to_string(), removed: false },
            LibraryItem { id: "tt2".to_string(), name: "Two".to_string(), removed: true },
        ],
    )
}

#[test]
fn discover_enriches_and_paginates() {
    let view = serialize_discover(discover_state(), &discover_ctx());
    assert_eq!(view.page, 2, "skip 150 on pages of 100");
    assert_eq!(view.default_request, Some(req("https://a/", &[])));
    let row = view.catalog.expect("catalog row");
    assert_eq!(row.addon_name, Some("Alpha".to_string()));
    match row.content {
        Loadable::Ready(rows) => {
            assert_eq!(rows.len(), 3);
            assert!(rows[0].in_library);
            assert!(!rows[1].in_library, "tombstoned entry is not a member");
            assert!(!rows[2].in_library);
        }
        other => panic!("expected Ready, got {:?}", other),
    }
}

#[test]
fn discover_without_selection_sits_on_page_one() {
    let mut state = discover_state();
    state.selected = None;
    state.catalog = None;
    state.selectable.types = Vec::new();
    let view = serialize_discover(state, &discover_ctx());
    assert_eq!(view.page, 1);
    assert_eq!(view.default_request, None);
    assert!(view.catalog.is_none());
}

#[test]
fn discover_is_deterministic() {
    let v1 = serialize_discover(discover_state(), &discover_ctx());
    let v2 = serialize_discover(discover_state(), &discover_ctx());
    assert_eq!(v1, v2);
}
