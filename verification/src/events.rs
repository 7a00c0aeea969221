use vstd::prelude::*;

verus! {

/// Domain events about playback.
#[derive(Debug, Clone, PartialEq, Eq)]
pub enum PlaybackEvent {
    /// The currently playing track changed; the payload is the new track's
    /// identifier. The engine re-queries the model for the current identifier
    /// when it reacts, so the payload is informational only.
    TrackChanged(String),
    /// Playback stopped entirely.
    PlaybackStopped,
}

/// Events about the multi-selection interaction state.
#[derive(Debug, Clone, Copy, PartialEq, Eq, Structural)]
pub enum SelectionEvent {
    /// Selection mode was switched on (`true`) or off (`false`).
    SelectionModeChanged(bool),
}

/// The application-level events delivered to the engine, in arrival order.
#[derive(Debug, Clone, PartialEq, Eq)]
pub enum AppEvent {
    PlaybackEvent(PlaybackEvent),
    SelectionEvent(SelectionEvent),
    /// The application finished starting up.
    Started,
    /// A login attempt completed.
    LoginCompleted,
    /// Any event kind the engine has no built-in rule for; the payload only
    /// tells such kinds apart.
    Other(u64),
}

/// The closed set of update strategies the engine chooses from when an event
/// arrives. Every event maps to exactly one strategy.
#[derive(Debug, Clone, Copy, PartialEq, Eq, Structural)]
pub enum UpdateStrategy {
    /// Recompute only the per-row "playing" flags; no structural change.
    TargetedRefresh,
    /// Replace the store's entire contents from the model.
    FullReset,
    /// Switch multi-selection interaction on or off.
    ModeChange(bool),
    /// Deliberately do nothing.
    Ignore,
}

/// The classification rule: the built-in buckets take precedence; any other
/// event falls back to the domain model's own refresh predicate, and is
/// ignored when the model does not claim it either.
pub open spec fn spec_classify(event: AppEvent, model_requests_refresh: bool) -> UpdateStrategy {
    match event {
        AppEvent::PlaybackEvent(PlaybackEvent::TrackChanged(_)) => UpdateStrategy::TargetedRefresh,
        AppEvent::PlaybackEvent(PlaybackEvent::PlaybackStopped) => UpdateStrategy::FullReset,
        AppEvent::SelectionEvent(SelectionEvent::SelectionModeChanged(active)) => UpdateStrategy::ModeChange(
            active,
        ),
        _ => if model_requests_refresh {
            UpdateStrategy::FullReset
        } else {
            UpdateStrategy::Ignore
        },
    }
}

/// Classifies one event into its update strategy. `model_requests_refresh` is
/// the domain model's answer to its refresh predicate for this very event; it
/// is consulted only for events outside the built-in buckets.
pub fn classify_event(event: &AppEvent, model_requests_refresh: bool) -> (strategy: UpdateStrategy)
    ensures
        strategy == spec_classify(*event, model_requests_refresh),
{
    match event {
        AppEvent::PlaybackEvent(PlaybackEvent::TrackChanged(_)) => UpdateStrategy::TargetedRefresh,
        AppEvent::PlaybackEvent(PlaybackEvent::PlaybackStopped) => UpdateStrategy::FullReset,
        AppEvent::SelectionEvent(SelectionEvent::SelectionModeChanged(active)) => UpdateStrategy::ModeChange(
            *active,
        ),
        _ => if model_requests_refresh {
            UpdateStrategy::FullReset
        } else {
            UpdateStrategy::Ignore
        },
    }
}

} // verus!
