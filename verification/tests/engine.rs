use playlist_sync::events::{classify_event, AppEvent, PlaybackEvent, SelectionEvent, UpdateStrategy};
use playlist_sync::models::{PlaylistModel, SelectionState, SongModel};
use playlist_sync::playlist::{InteractionMode, Playlist, Row, SongAction};

fn song(id: &str) -> SongModel {
    SongModel::new(id.to_string(), false)
}

fn model(ids: &[&str], current: Option<&str>, selection: Option<(bool, &[&str])>) -> PlaylistModel {
    PlaylistModel {
        songs: ids.iter().map(|id| song(id)).collect(),
        current_song_id: current.map(|c| c.to_string()),
        selection: selection.map(|(enabled, sel)| SelectionState {
            selection_enabled: enabled,
            selected_ids: sel.iter().map(|s| s.to_string()).collect(),
        }),
    }
}

fn row_ids(playlist: &Playlist) -> Vec<String> {
    playlist.rows.iter().map(|r: &Row| r.song.get_id()).collect()
}

#[test]
fn new_engine_is_empty_and_direct() {
    let playlist = Playlist::new();
    assert_eq!(playlist.rows.len(), 0);
    assert_eq!(playlist.mode, InteractionMode::DirectActivation);
}

#[test]
fn classify_built_in_buckets() {
    let track_changed = AppEvent::PlaybackEvent(PlaybackEvent::TrackChanged("2".to_string()));
    // Built-in buckets win even when the model would also request a refresh.
    assert_eq!(classify_event(&track_changed, true), UpdateStrategy::TargetedRefresh);
    assert_eq!(classify_event(&track_changed, false), UpdateStrategy::TargetedRefresh);

    let stopped = AppEvent::PlaybackEvent(PlaybackEvent::PlaybackStopped);
    assert_eq!(classify_event(&stopped, false), UpdateStrategy::FullReset);

    let mode_on = AppEvent::SelectionEvent(SelectionEvent::SelectionModeChanged(true));
    assert_eq!(classify_event(&mode_on, false), UpdateStrategy::ModeChange(true));
    let mode_off = AppEvent::SelectionEvent(SelectionEvent::SelectionModeChanged(false));
    assert_eq!(classify_event(&mode_off, true), UpdateStrategy::ModeChange(false));
}

#[test]
fn classify_fallback_uses_model_predicate() {
    assert_eq!(classify_event(&AppEvent::Other(7), true), UpdateStrategy::FullReset);
    assert_eq!(classify_event(&AppEvent::Other(7), false), UpdateStrategy::Ignore);
    assert_eq!(classify_event(&AppEvent::Started, true), UpdateStrategy::FullReset);
    assert_eq!(classify_event(&AppEvent::LoginCompleted, false), UpdateStrategy::Ignore);
}

#[test]
fn targeted_refresh_idempotent() {
    let mut playlist = Playlist::new();
    playlist.reset_list(&model(&["a", "b", "c"], None, None));
    let current = Some("b".to_string());

    playlist.update_list(&current);
    let once: Vec<bool> = playlist.rows.iter().map(|r| r.song.playing).collect();
    playlist.update_list(&current);
    let twice: Vec<bool> = playlist.rows.iter().map(|r| r.song.playing).collect();

    assert_eq!(once, vec![false, true, false]);
    assert_eq!(twice, once);
    assert_eq!(row_ids(&playlist), vec!["a", "b", "c"]);
}

#[test]
fn full_reset_restores_selection() {
    let mut playlist = Playlist::new();
    // Leave stale visual state behind, then reset over [A, B, C, D] with the
    // external selection marking {A, C}.
    playlist.reset_list(&model(&["z"], None, None));
    let snapshot = model(&["A", "B", "C", "D"], None, Some((true, &["A", "C"])));
    playlist.reset_list(&snapshot);

    let selected: Vec<bool> = playlist.rows.iter().map(|r| r.selected).collect();
    let selectable: Vec<bool> = playlist.rows.iter().map(|r| r.selectable).collect();
    assert_eq!(selected, vec![true, false, true, false]);
    assert_eq!(selectable, vec![true, false, true, false]);
    assert_eq!(row_ids(&playlist), vec!["A", "B", "C", "D"]);
}

#[test]
fn mode_disable_clears_selection_visuals() {
    let mut playlist = Playlist::new();
    playlist.reset_list(&model(&["A", "B", "C"], None, None));
    playlist.set_selection_active(true);
    assert_eq!(playlist.mode, InteractionMode::MultiSelect);

    assert_eq!(playlist.on_row_activated(0), SongAction::Select("A".to_string()));
    assert_eq!(playlist.on_row_activated(2), SongAction::Select("C".to_string()));
    assert!(playlist.rows[0].selected && playlist.rows[2].selected);

    playlist.set_selection_active(false);
    assert_eq!(playlist.mode, InteractionMode::DirectActivation);
    assert!(playlist.rows.iter().all(|r| !r.selected));
    assert!(playlist.rows.iter().all(|r| !r.selectable));
    assert_eq!(row_ids(&playlist), vec!["A", "B", "C"]);
}

#[test]
fn activation_branching() {
    let mut playlist = Playlist::new();
    playlist.reset_list(&model(&["X", "Y"], None, None));

    // Direct activation: play, and no state mutation at all.
    let action = playlist.on_row_activated(0);
    assert_eq!(action, SongAction::Play("X".to_string()));
    assert!(!playlist.rows[0].selected);
    assert!(!playlist.rows[0].selectable);

    // Multi-select: first activation selects, the second deselects.
    playlist.set_selection_active(true);
    assert_eq!(playlist.on_row_activated(0), SongAction::Select("X".to_string()));
    assert!(playlist.rows[0].selected);
    assert!(playlist.rows[0].selectable);
    assert_eq!(playlist.on_row_activated(0), SongAction::Deselect("X".to_string()));
    assert!(!playlist.rows[0].selected);
    assert!(!playlist.rows[0].selectable);
    // The untouched row was never affected.
    assert!(!playlist.rows[1].selected);
}

#[test]
fn order_preserved_without_full_reset() {
    let mut playlist = Playlist::new();
    let snapshot = model(&["1", "2", "3", "4"], Some("3"), None);
    playlist.reset_list(&snapshot);
    let before = row_ids(&playlist);

    let events = [
        (AppEvent::PlaybackEvent(PlaybackEvent::TrackChanged("2".to_string())), false),
        (AppEvent::SelectionEvent(SelectionEvent::SelectionModeChanged(true)), false),
        (AppEvent::Other(9), false),
        (AppEvent::SelectionEvent(SelectionEvent::SelectionModeChanged(false)), false),
        (AppEvent::LoginCompleted, false),
    ];
    for (event, refresh) in events.iter() {
        playlist.on_event(event, &snapshot, *refresh);
    }

    assert_eq!(row_ids(&playlist), before);
}

#[test]
fn unknown_event_is_a_no_op() {
    let mut playlist = Playlist::new();
    let snapshot = model(&["1", "2"], Some("1"), None);
    playlist.reset_list(&snapshot);
    playlist.set_selection_active(true);
    playlist.on_row_activated(1);

    let ids = row_ids(&playlist);
    let playing: Vec<bool> = playlist.rows.iter().map(|r| r.song.playing).collect();
    let selected: Vec<bool> = playlist.rows.iter().map(|r| r.selected).collect();

    playlist.on_event(&AppEvent::Other(42), &snapshot, false);

    assert_eq!(row_ids(&playlist), ids);
    assert_eq!(playlist.rows.iter().map(|r| r.song.playing).collect::<Vec<_>>(), playing);
    assert_eq!(playlist.rows.iter().map(|r| r.selected).collect::<Vec<_>>(), selected);
    assert_eq!(playlist.mode, InteractionMode::MultiSelect);
}

#[test]
fn end_to_end_scenario() {
    let mut playlist = Playlist::new();
    let initial = model(&["1", "2"], None, None);
    playlist.reset_list(&initial);
    assert_eq!(playlist.rows.len(), 2);
    assert!(!playlist.rows[0].song.playing && !playlist.rows[1].song.playing);

    // "active item changed to 2": only row 2's flag flips, length stays 2.
    let after_change = model(&["1", "2"], Some("2"), None);
    playlist.on_event(
        &AppEvent::PlaybackEvent(PlaybackEvent::TrackChanged("2".to_string())),
        &after_change,
        false,
    );
    assert_eq!(playlist.rows.len(), 2);
    assert!(!playlist.rows[0].song.playing);
    assert!(playlist.rows[1].song.playing);
    assert_eq!(row_ids(&playlist), vec!["1", "2"]);

    // "playback stopped": the store is rebuilt from the model, which now
    // reports [2, 3]; row 1 is discarded.
    let after_stop = model(&["2", "3"], None, None);
    playlist.on_event(
        &AppEvent::PlaybackEvent(PlaybackEvent::PlaybackStopped),
        &after_stop,
        false,
    );
    assert_eq!(row_ids(&playlist), vec!["2", "3"]);
    assert!(playlist.rows.iter().all(|r| !r.song.playing));
}

#[test]
fn reset_to_empty_discards_all_rows() {
    let mut playlist = Playlist::new();
    playlist.reset_list(&model(&["1", "2"], None, None));
    playlist.reset_list(&model(&[], None, None));
    assert_eq!(playlist.rows.len(), 0);
}

#[test]
fn refresh_with_no_current_item_clears_flags() {
    let mut playlist = Playlist::new();
    playlist.reset_list(&model(&["1", "2"], Some("1"), None));
    assert!(playlist.rows[0].song.playing);
    playlist.update_list(&None);
    assert!(playlist.rows.iter().all(|r| !r.song.playing));
}
