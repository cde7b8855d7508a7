//! The streaming-server surface: playback, device and statistics state pass
//! through untouched. A Ready torrent's resource path is the input the
//! caller derives the torrent's navigation target from; Loading and failed
//! torrent states pass through unchanged.

use vstd::prelude::*;

use crate::types::{Loadable, ResourcePath};

verus! {

/// What the streaming-server surface has selected: the server address.
#[derive(Debug, PartialEq, Eq, Clone)]
pub struct StreamingServerSelected {
    pub transport_url: String,
}

/// Server-side settings, carried through unchanged.
#[derive(Debug, PartialEq, Eq, Clone)]
pub struct ServerSettings {
    pub app_path: String,
    pub cache_root: String,
    pub server_version: String,
}

/// One playback device the server reports.
#[derive(Debug, PartialEq, Eq, Clone)]
pub struct PlaybackDevice {
    pub id: String,
    pub kind: String,
    pub name: String,
}

/// Transfer statistics of the torrent being streamed.
#[derive(Debug, PartialEq, Eq, Clone)]
pub struct Statistics {
    pub name: String,
    pub info_hash: String,
    pub peers: u64,
    pub download_speed: u64,
    pub upload_speed: u64,
}

/// The torrent currently attached to the server, keyed by its info hash;
/// when resolved, the value is the resource path the torrent plays from.
#[derive(Debug, PartialEq, Eq, Clone)]
pub struct TorrentEntry {
    pub info_hash: String,
    pub content: Loadable<ResourcePath, String>,
}

/// The streaming-server state slice.
#[derive(Debug, PartialEq, Eq, Clone)]
pub struct StreamingServerState {
    pub selected: StreamingServerSelected,
    pub settings: Loadable<ServerSettings, String>,
    pub base_url: Loadable<String, String>,
    pub playback_devices: Loadable<Vec<PlaybackDevice>, String>,
    pub torrent: Option<TorrentEntry>,
    pub statistics: Option<Loadable<Statistics, String>>,
}

/// The assembled streaming-server view model. A Ready torrent's resource
/// path is the input the caller hands the navigation-link generator;
/// everything else is the state passed through.
#[derive(Debug, PartialEq, Eq, Clone)]
pub struct StreamingServer {
    pub selected: StreamingServerSelected,
    pub settings: Loadable<ServerSettings, String>,
    pub base_url: Loadable<String, String>,
    pub playback_devices: Loadable<Vec<PlaybackDevice>, String>,
    pub torrent: Option<TorrentEntry>,
    pub statistics: Option<Loadable<Statistics, String>>,
}

/// The contract pins the view: any two streaming-server views assembled
/// from the same state are equal.
pub proof fn lemma_server_view_deterministic(
    r1: StreamingServer,
    r2: StreamingServer,
    state: StreamingServerState,
)
    requires
        r1.selected == state.selected,
        r1.settings == state.settings,
        r1.base_url == state.base_url,
        r1.playback_devices == state.playback_devices,
        r1.torrent == state.torrent,
        r1.statistics == state.statistics,
        r2.selected == state.selected,
        r2.settings == state.settings,
        r2.base_url == state.base_url,
        r2.playback_devices == state.playback_devices,
        r2.torrent == state.torrent,
        r2.statistics == state.statistics,
    ensures
        r1 == r2,
{
}

/// Assembles the streaming-server view: every part of the state passes
/// through untouched, including a Loading or failed torrent; the caller
/// derives the torrent's navigation target from the Ready path it finds
/// here.
pub fn serialize_streaming_server(streaming_server: StreamingServerState) -> (r: StreamingServer)
    ensures
        r.selected == streaming_server.selected,
        r.settings == streaming_server.settings,
        r.base_url == streaming_server.base_url,
        r.playback_devices == streaming_server.playback_devices,
        r.torrent == streaming_server.torrent,
        r.statistics == streaming_server.statistics,
{
    let StreamingServerState { selected, settings, base_url, playback_devices, torrent, statistics }
        = streaming_server;
    StreamingServer { selected, settings, base_url, playback_devices, torrent, statistics }
}

} // verus!
