use vstd::prelude::*;

use crate::events::AppEvent;

verus! {

/// Which edge of the scrollable viewport a scroll gesture reached.
#[derive(Debug, Clone, Copy, PartialEq, Eq, Structural)]
pub enum ScrollEdge {
    Top,
    Bottom,
    Left,
    Right,
}

/// What the podcasts list does in reaction to one application event.
#[derive(Debug, Clone, Copy, PartialEq, Eq, Structural)]
pub enum PodcastsUpdate {
    /// Ask the model to refresh its podcasts, then bind the view to the
    /// model's store.
    RefreshAndRebind,
    /// Ask the model to refresh its podcasts.
    Refresh,
    /// Nothing to do.
    Ignore,
}

/// The classification rule of the podcasts list: a completed start-up binds
/// the view and refreshes, a completed login refreshes, everything else is
/// ignored.
pub open spec fn spec_podcasts_update(event: AppEvent) -> PodcastsUpdate {
    match event {
        AppEvent::Started => PodcastsUpdate::RefreshAndRebind,
        AppEvent::LoginCompleted => PodcastsUpdate::Refresh,
        _ => PodcastsUpdate::Ignore,
    }
}

/// The decision core of the podcasts list: it classifies application events
/// and turns scroll-edge signals into edge-triggered "load more" requests.
/// The caller performs the resulting calls on the live model and swallows
/// their failures; the trigger itself tracks nothing.
pub struct Podcasts {}

impl Podcasts {
    pub fn new() -> (podcasts: Podcasts) {
        Podcasts {}
    }

    /// Classifies one application event into the podcasts list's reaction.
    pub fn on_event(&self, event: &AppEvent) -> (update: PodcastsUpdate)
        ensures
            update == spec_podcasts_update(*event),
    {
        match event {
            AppEvent::Started => PodcastsUpdate::RefreshAndRebind,
            AppEvent::LoginCompleted => PodcastsUpdate::Refresh,
            _ => PodcastsUpdate::Ignore,
        }
    }

    /// Edge-triggered pagination: exactly a scroll to the bottom edge
    /// requests more data. Fire-and-forget: repeated signals each request
    /// again, and no result is surfaced.
    pub fn on_scroll_edge(&self, edge: ScrollEdge) -> (load_more: bool)
        ensures
            load_more == (edge is Bottom),
    {
        match edge {
            ScrollEdge::Bottom => true,
            _ => false,
        }
    }
}

} // verus!
