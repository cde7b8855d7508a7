use stremio_views::selector::select_representative;
use stremio_views::types::{
    ExtraValue, Loadable, MetaItem, ResourceLoadable, ResourcePath, ResourceRequest,
};

fn req(base: &str, id: &str) -> ResourceRequest {
    ResourceRequest {
        base: base.to_string(),
        path: ResourcePath {
            resource: "meta".to_string(),
            kind: "movie".to_string(),
            id: id.to_string(),
            extra: Vec::<ExtraValue>::new(),
        },
    }
}

fn meta(id: &str) -> MetaItem {
    MetaItem {
        id: id.to_string(),
        name: format!("name-{}", id),
        released: None,
        behavior_hints: stremio_views::types::BehaviorHints { has_scheduled_videos: false },
        videos: Vec::new(),
        links: Vec::new(),
        trailer_streams: Vec::new(),
    }
}

fn source(base: &str, content: Loadable<MetaItem, String>) -> ResourceLoadable<MetaItem> {
    ResourceLoadable { request: req(base, "tt1"), content }
}

#[test]
fn selector_picks_first_ready() {
    let sources = vec![
        source("https://a/", Loadable::Loading),
        source("https://b/", Loadable::Failed("boom".to_string())),
        source("https://c/", Loadable::Ready(meta("tt1"))),
        source("https://d/", Loadable::Ready(meta("tt2"))),
        source("https://e/", Loadable::Loading),
    ];
    assert_eq!(select_representative(&sources), Some(2));
}

#[test]
fn selector_all_failed_falls_back_to_first() {
    let sources = vec![
        source("https://a/", Loadable::Failed("x".to_string())),
        source("https://b/", Loadable::Failed("y".to_string())),
    ];
    assert_eq!(select_representative(&sources), Some(0));
}

#[test]
fn selector_mixed_picks_first_loading() {
    let sources = vec![
        source("https://a/", Loadable::Failed("x".to_string())),
        source("https://b/", Loadable::Loading),
        source("https://c/", Loadable::Loading),
    ];
    assert_eq!(select_representative(&sources), Some(1));
}

#[test]
fn selector_empty_yields_none() {
    let sources: Vec<ResourceLoadable<MetaItem>> = Vec::new();
    assert_eq!(select_representative(&sources), None);
}

#[test]
fn selector_single_loading() {
    let sources = vec![source("https://a/", Loadable::Loading)];
    assert_eq!(select_representative(&sources), Some(0));
}
