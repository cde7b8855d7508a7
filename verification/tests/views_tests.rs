use stremio_views::addons_view::{serialize_installed_addons, serialize_remote_addons,
    InstalledAddonsRequest, InstalledAddonsSelected, InstalledAddonsWithFilters,
    InstalledSelectableType};
use stremio_views::catalogs::{serialize_catalogs_with_extra, CatalogsWithExtra,
    CatalogsWithExtraSelected};
use stremio_views::ctx_view::serialize_ctx;
use stremio_views::filters::{CatalogSelected, CatalogWithFilters, Selectable, SelectableCatalog,
    SelectableType};
use stremio_views::library_view::{serialize_continue_watching_preview, serialize_library,
    ContinueWatchingPreview, LibSelectableSort, LibSelectableType, LibraryRequest,
    LibrarySelectable, LibrarySelected, LibraryWithFilters};
use stremio_views::server::{serialize_streaming_server, PlaybackDevice, ServerSettings,
    StreamingServerSelected, StreamingServerState, TorrentEntry};
use stremio_views::types::{
    BehaviorHints, CtxState, DescriptorPreview, ExtraValue, LibraryIndex, LibraryItem, Loadable,
    ManifestPreview, MetaItemPreview, MetaNotifGroup, NotificationItem, NotificationsBucket,
    Profile, ResourceLoadable, ResourcePath, ResourceRequest, Stream, VideoNotification,
};

fn addon(url: &str, name: &str) -> DescriptorPreview {
    DescriptorPreview {
        transport_url: url.to_string(),
        manifest: ManifestPreview { name: name.to_string(), logo: Some(format!("{}logo", url)) },
    }
}

fn ctx(addons: Vec<DescriptorPreview>, items: Vec<LibraryItem>) -> CtxState {
    CtxState {
        profile: Profile { addons },
        library: LibraryIndex { items },
        notifications: NotificationsBucket { groups: Vec::new(), last_updated: None, created: 7 },
    }
}

fn req(base: &str) -> ResourceRequest {
    ResourceRequest {
        base: base.to_string(),
        path: ResourcePath {
            resource: "catalog".to_string(),
            kind: "movie".to_string(),
            id: "top".to_string(),
            extra: Vec::<ExtraValue>::new(),
        },
    }
}

fn preview(id: &str) -> MetaItemPreview {
    MetaItemPreview {
        id: id.to_string(),
        name: format!("name-{}", id),
        trailer_streams: vec![Stream { name: "trailer".to_string() }],
    }
}

#[test]
fn catalogs_with_extra_resolves_addon_names() {
    let state = CatalogsWithExtra {
        selected: Some(CatalogsWithExtraSelected {
            kind: Some("movie".to_string()),
            extra: Vec::new(),
        }),
        catalogs: vec![
            ResourceLoadable {
                request: req("https://a/"),
                content: Loadable::Ready(vec![preview("tt1")]),
            },
            ResourceLoadable {
                request: req("https://unknown/"),
                content: Loadable::Loading,
            },
            ResourceLoadable {
                request: req("https://a/"),
                content: Loadable::Failed("offline".to_string()),
            },
        ],
    };
    let c = ctx(vec![addon("https://a/", "Alpha")], Vec::new());
    let view = serialize_catalogs_with_extra(state, &c);
    assert_eq!(view.catalogs.len(), 3);
    assert_eq!(view.catalogs[0].addon_name, Some("Alpha".to_string()));
    assert_eq!(view.catalogs[0].request, req("https://a/"));
    assert_eq!(view.catalogs[0].content, Loadable::Ready(vec![preview("tt1")]));
    assert_eq!(view.catalogs[1].addon_name, None);
    assert_eq!(view.catalogs[1].content, Loadable::Loading);
    assert_eq!(view.catalogs[2].content, Loadable::Failed("offline".to_string()));
    assert_eq!(
        view.selected,
        Some(CatalogsWithExtraSelected { kind: Some("movie".to_string()), extra: Vec::new() })
    );
}

fn remote_addons_state() -> CatalogWithFilters<DescriptorPreview> {
    CatalogWithFilters {
        selected: Some(CatalogSelected { request: req("https://hub/") }),
        selectable: Selectable {
            types: vec![SelectableType {
                kind: "movie".to_string(),
                selected: true,
                request: req("https://hub/"),
            }],
            catalogs: vec![SelectableCatalog {
                catalog: "community".to_string(),
                addon_name: "Hub".to_string(),
                selected: true,
                request: req("https://hub/"),
            }],
            extra: Vec::new(),
            prev_page: None,
            next_page: None,
        },
        catalog: Some(ResourceLoadable {
            request: req("https://hub/"),
            content: Loadable::Ready(vec![
                addon("https://a/", "Alpha listed"),
                addon("https://c/", "Gamma"),
                addon("https://a/", "Alpha again"),
            ]),
        }),
    }
}

#[test]
fn remote_addons_marks_installed_by_origin_address() {
    let c = ctx(vec![addon("https://a/", "Alpha"), addon("https://b/", "Beta")], Vec::new());
    let view = serialize_remote_addons(remote_addons_state(), &c);
    let row = view.catalog.expect("catalog row");
    match row.content {
        Loadable::Ready(rows) => {
            assert_eq!(rows.len(), 3);
            assert!(rows[0].installed);
            assert!(!rows[1].installed);
            assert!(rows[2].installed);
            assert_eq!(rows[0].addon, addon("https://a/", "Alpha listed"));
        }
        other => panic!("expected Ready, got {:?}", other),
    }
    assert_eq!(view.selectable.types, remote_addons_state().selectable.types);
    assert_eq!(view.selectable.catalogs, remote_addons_state().selectable.catalogs);
}

#[test]
fn remote_addons_is_deterministic() {
    let c = ctx(vec![addon("https://a/", "Alpha")], Vec::new());
    let v1 = serialize_remote_addons(remote_addons_state(), &c);
    let v2 = serialize_remote_addons(remote_addons_state(), &c);
    assert_eq!(v1, v2);
}

#[test]
fn installed_addons_synthetic_facet_and_flags() {
    let state = InstalledAddonsWithFilters {
        selected: Some(InstalledAddonsSelected {
            request: InstalledAddonsRequest { kind: None },
        }),
        selectable_types: vec![InstalledSelectableType {
            kind: Some("movie".to_string()),
            selected: false,
            request: InstalledAddonsRequest { kind: Some("movie".to_string()) },
        }],
        catalog: vec![addon("https://a/", "Alpha"), addon("https://b/", "Beta")],
    };
    let view = serialize_installed_addons(state);
    assert_eq!(view.selectable_catalogs.len(), 1);
    assert_eq!(view.selectable_catalogs[0].catalog, "Installed");
    assert!(view.selectable_catalogs[0].selected);
    assert_eq!(view.selectable_catalogs[0].request.kind, None);
    assert_eq!(view.catalog.len(), 2);
    assert!(view.catalog.iter().all(|row| row.installed));

    let unselected = InstalledAddonsWithFilters {
        selected: None,
        selectable_types: Vec::new(),
        catalog: Vec::new(),
    };
    let view = serialize_installed_addons(unselected);
    assert!(!view.selectable_catalogs[0].selected);
}

#[test]
fn library_passes_through_with_root() {
    let state = LibraryWithFilters {
        selected: Some(LibrarySelected {
            request: LibraryRequest { kind: None, sort: "lastwatched".to_string() },
        }),
        selectable: LibrarySelectable {
            types: vec![LibSelectableType {
                kind: Some("movie".to_string()),
                selected: false,
                request: LibraryRequest {
                    kind: Some("movie".to_string()),
                    sort: "lastwatched".to_string(),
                },
            }],
            sorts: vec![LibSelectableSort {
                sort: "name".to_string(),
                selected: false,
                request: LibraryRequest { kind: None, sort: "name".to_string() },
            }],
        },
        catalog: vec![LibraryItem {
            id: "tt1".to_string(),
            name: "One".to_string(),
            removed: false,
        }],
    };
    let expected = state.clone();
    let view = serialize_library(state, "library".to_string());
    assert_eq!(view.root, "library");
    assert_eq!(view.selected, expected.selected);
    assert_eq!(view.selectable, expected.selectable);
    assert_eq!(view.catalog, expected.catalog);
}

#[test]
fn continue_watching_uses_fixed_root() {
    let preview_state = ContinueWatchingPreview {
        library_items: vec![LibraryItem {
            id: "tt1".to_string(),
            name: "One".to_string(),
            removed: false,
        }],
    };
    let expected_items = preview_state.library_items.clone();
    let view = serialize_continue_watching_preview(preview_state);
    assert_eq!(view.root, "continuewatching");
    assert_eq!(view.library_items, expected_items);
}

fn server_state() -> StreamingServerState {
    StreamingServerState {
        selected: StreamingServerSelected { transport_url: "http://127.0.0.1/".to_string() },
        settings: Loadable::Ready(ServerSettings {
            app_path: "/data".to_string(),
            cache_root: "/cache".to_string(),
            server_version: "4".to_string(),
        }),
        base_url: Loadable::Failed("unreachable".to_string()),
        playback_devices: Loadable::Ready(vec![PlaybackDevice {
            id: "d1".to_string(),
            kind: "cast".to_string(),
            name: "Living room".to_string(),
        }]),
        torrent: Some(TorrentEntry {
            info_hash: "abc123".to_string(),
            content: Loadable::Ready(ResourcePath {
                resource: "meta".to_string(),
                kind: "other".to_string(),
                id: "bt:abc123".to_string(),
                extra: Vec::new(),
            }),
        }),
        statistics: None,
    }
}

#[test]
fn streaming_server_passes_state_through() {
    let view = serialize_streaming_server(server_state());
    let again = server_state();
    assert_eq!(view.selected, again.selected);
    assert_eq!(view.settings, again.settings);
    assert_eq!(view.base_url, again.base_url);
    assert_eq!(view.playback_devices, again.playback_devices);
    assert_eq!(view.torrent, again.torrent);
    assert_eq!(view.statistics, again.statistics);
}

fn session_state() -> CtxState {
    CtxState {
        profile: Profile { addons: vec![addon("https://a/", "Alpha")] },
        library: LibraryIndex { items: Vec::new() },
        notifications: NotificationsBucket {
            groups: vec![
                MetaNotifGroup {
                    meta_id: "tt1".to_string(),
                    entries: vec![
                        VideoNotification {
                            video_id: "v1".to_string(),
                            item: NotificationItem {
                                meta_id: "tt1".to_string(),
                                video_id: "v1".to_string(),
                                video_released: 11,
                            },
                        },
                        VideoNotification {
                            video_id: "v2".to_string(),
                            item: NotificationItem {
                                meta_id: "tt1".to_string(),
                                video_id: "v2".to_string(),
                                video_released: 12,
                            },
                        },
                    ],
                },
                MetaNotifGroup { meta_id: "tt2".to_string(), entries: Vec::new() },
            ],
            last_updated: Some(99),
            created: 42,
        },
    }
}

#[test]
fn ctx_regroups_notifications_by_entity() {
    let view = serialize_ctx(session_state());
    assert_eq!(view.profile, session_state().profile);
    assert_eq!(view.notifications.last_updated, Some(99));
    assert_eq!(view.notifications.created, 42);
    assert_eq!(view.notifications.items.len(), 2);
    assert_eq!(view.notifications.items[0].meta_id, "tt1");
    assert_eq!(view.notifications.items[0].items.len(), 2);
    assert_eq!(view.notifications.items[0].items[0].video_id, "v1");
    assert_eq!(view.notifications.items[0].items[1].video_id, "v2");
    assert_eq!(view.notifications.items[1].meta_id, "tt2");
    assert!(view.notifications.items[1].items.is_empty());
}

#[test]
fn ctx_is_deterministic() {
    let v1 = serialize_ctx(session_state());
    let v2 = serialize_ctx(session_state());
    assert_eq!(v1, v2);
}
