use playlist_sync::events::{AppEvent, PlaybackEvent};
use playlist_sync::podcasts::{Podcasts, PodcastsUpdate, ScrollEdge};

#[test]
fn started_refreshes_and_rebinds() {
    let podcasts = Podcasts::new();
    assert_eq!(podcasts.on_event(&AppEvent::Started), PodcastsUpdate::RefreshAndRebind);
}

#[test]
fn login_completed_only_refreshes() {
    let podcasts = Podcasts::new();
    assert_eq!(podcasts.on_event(&AppEvent::LoginCompleted), PodcastsUpdate::Refresh);
}

#[test]
fn other_events_are_ignored() {
    let podcasts = Podcasts::new();
    assert_eq!(podcasts.on_event(&AppEvent::Other(3)), PodcastsUpdate::Ignore);
    let stopped = AppEvent::PlaybackEvent(PlaybackEvent::PlaybackStopped);
    assert_eq!(podcasts.on_event(&stopped), PodcastsUpdate::Ignore);
}

#[test]
fn only_the_bottom_edge_loads_more() {
    let podcasts = Podcasts::new();
    assert!(podcasts.on_scroll_edge(ScrollEdge::Bottom));
    assert!(!podcasts.on_scroll_edge(ScrollEdge::Top));
    assert!(!podcasts.on_scroll_edge(ScrollEdge::Left));
    assert!(!podcasts.on_scroll_edge(ScrollEdge::Right));
}

#[test]
fn repeated_edge_signals_each_fire() {
    let podcasts = Podcasts::new();
    assert!(podcasts.on_scroll_edge(ScrollEdge::Bottom));
    assert!(podcasts.on_scroll_edge(ScrollEdge::Bottom));
}
