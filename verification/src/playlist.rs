use vstd::prelude::*;

use crate::events::{classify_event, spec_classify, AppEvent, UpdateStrategy};
use crate::models::{
    is_current_song, selection_marks_selected, spec_is_current, spec_selection_selected,
    PlaylistModel, SelectionState, SongModel,
};

verus! {

/// How a row-activation gesture is interpreted.
#[derive(Debug, Clone, Copy, PartialEq, Eq, Structural)]
pub enum InteractionMode {
    /// Activating a row asks the model to play it.
    DirectActivation,
    /// Activating a row toggles its membership in the multi-selection.
    MultiSelect,
}

/// One row of the projected list: the bound item plus the row's transient
/// visual state.
#[derive(Debug)]
pub struct Row {
    pub song: SongModel,
    /// Whether the row is visually selected.
    pub selected: bool,
    /// Whether the row currently affords click-selection.
    pub selectable: bool,
}

/// The command the engine asks the domain model to perform after a row
/// activation. The caller dispatches it; the engine never awaits a result.
#[derive(Debug, Clone, PartialEq, Eq)]
pub enum SongAction {
    Play(String),
    Select(String),
    Deselect(String),
}

/// The synchronization engine: the projected list store plus the current
/// interaction mode.
#[derive(Debug)]
pub struct Playlist {
    pub rows: Vec<Row>,
    pub mode: InteractionMode,
}

/// `post` is `pre` with every "playing" flag recomputed against
/// `current_song_id`; identifiers, order and visual selection are untouched.
pub open spec fn rows_refreshed(pre: Seq<Row>, post: Seq<Row>, current_song_id: Option<String>) -> bool {
    &&& post.len() == pre.len()
    &&& forall|i: int|
        0 <= i < pre.len() ==> {
            &&& (#[trigger] post[i]).song.id@ == pre[i].song.id@
            &&& post[i].song.playing == spec_is_current(pre[i].song.id@, current_song_id)
            &&& post[i].selected == pre[i].selected
            &&& post[i].selectable == pre[i].selectable
        }
}

/// `post` is freshly rebuilt from the model: one row per item, in the model's
/// order, each reconciled against the current item and the selection
/// snapshot — regardless of any prior visual state.
pub open spec fn rows_reset(post: Seq<Row>, model: PlaylistModel) -> bool {
    &&& post.len() == model.songs@.len()
    &&& forall|i: int|
        0 <= i < post.len() ==> {
            &&& (#[trigger] post[i]).song.id@ == model.songs@[i].id@
            &&& post[i].song.playing == spec_is_current(model.songs@[i].id@, model.current_song_id)
            &&& post[i].selected == spec_selection_selected(model.selection, model.songs@[i].id@)
            &&& post[i].selectable == spec_selection_selected(model.selection, model.songs@[i].id@)
        }
}

/// `post` is `pre` with every visual selection cleared: previously selected
/// rows are deselected and made non-selectable, all other rows are untouched.
pub open spec fn rows_deselected(pre: Seq<Row>, post: Seq<Row>) -> bool {
    &&& post.len() == pre.len()
    &&& forall|i: int|
        0 <= i < pre.len() ==> {
            &&& (#[trigger] post[i]).song == pre[i].song
            &&& post[i].selected == false
            &&& post[i].selectable == (if pre[i].selected {
                false
            } else {
                pre[i].selectable
            })
        }
}

/// The effect of switching selection mode on (`active`) or off: enabling
/// changes no row, disabling clears every visual selection.
pub open spec fn mode_change(pre: Playlist, post: Playlist, active: bool) -> bool {
    if active {
        post.mode == InteractionMode::MultiSelect && post.rows@ == pre.rows@
    } else {
        post.mode == InteractionMode::DirectActivation && rows_deselected(pre.rows@, post.rows@)
    }
}

/// The engine's reaction to one delivered event, by the strategy the event
/// classifies into. An ignored event leaves the engine exactly as it was.
pub open spec fn playlist_step(
    pre: Playlist,
    post: Playlist,
    event: AppEvent,
    model: PlaylistModel,
    model_requests_refresh: bool,
) -> bool {
    match spec_classify(event, model_requests_refresh) {
        UpdateStrategy::TargetedRefresh => post.mode == pre.mode && rows_refreshed(
            pre.rows@,
            post.rows@,
            model.current_song_id,
        ),
        UpdateStrategy::FullReset => post.mode == pre.mode && rows_reset(post.rows@, model),
        UpdateStrategy::ModeChange(active) => mode_change(pre, post, active),
        UpdateStrategy::Ignore => post == pre,
    }
}

impl Row {
    /// Binds one backing item to a fresh row and reconciles its flags with
    /// the model snapshot.
    pub fn bind(
        song: &SongModel,
        current_song_id: &Option<String>,
        selection: &Option<SelectionState>,
    ) -> (row: Row)
        ensures
            row.song.id == song.id,
            row.song.playing == spec_is_current(song.id@, *current_song_id),
            row.selected == spec_selection_selected(*selection, song.id@),
            row.selectable == spec_selection_selected(*selection, song.id@),
    {
        let mut row = Row {
            song: SongModel { id: song.get_id(), playing: false },
            selected: false,
            selectable: false,
        };
        Playlist::set_row_state(&mut row, current_song_id, selection);
        row
    }
}

impl Playlist {
    /// A new engine: empty store, direct activation until a mode-change event
    /// arrives.
    pub fn new() -> (playlist: Playlist)
        ensures
            playlist.rows@.len() == 0,
            playlist.mode == InteractionMode::DirectActivation,
    {
        Playlist { rows: Vec::new(), mode: InteractionMode::DirectActivation }
    }

    /// Reconciles one row with the model snapshot: the "playing" flag is
    /// recomputed from the current item's identifier; a row whose item the
    /// selection snapshot marks becomes selectable and visually selected, any
    /// other row becomes non-selectable (its visual selection is left alone).
    pub fn set_row_state(
        row: &mut Row,
        current_song_id: &Option<String>,
        selection: &Option<SelectionState>,
    )
        ensures
            final(row).song.id == old(row).song.id,
            final(row).song.playing == spec_is_current(old(row).song.id@, *current_song_id),
            final(row).selected == (if spec_selection_selected(*selection, old(row).song.id@) {
                true
            } else {
                old(row).selected
            }),
            final(row).selectable == spec_selection_selected(*selection, old(row).song.id@),
    {
        let playing = is_current_song(&row.song.id, current_song_id);
        row.song.playing = playing;
        let selected = selection_marks_selected(selection, &row.song.id);
        if selected {
            row.selectable = true;
            row.selected = true;
        } else {
            row.selectable = false;
        }
    }

    /// Targeted refresh: recomputes every row's "playing" flag against the
    /// current item's identifier. No row is added, removed or reordered, and
    /// no visual selection changes.
    pub fn update_list(&mut self, current_song_id: &Option<String>)
        ensures
            final(self).mode == old(self).mode,
            rows_refreshed(old(self).rows@, final(self).rows@, *current_song_id),
    {
        let n: usize = self.rows.len();
        let mut i: usize = 0;
        while i < n
            invariant
                n == self.rows@.len(),
                self.rows@.len() == old(self).rows@.len(),
                i <= n,
                self.mode == old(self).mode,
                forall|j: int|
                    0 <= j < i ==> {
                        &&& (#[trigger] self.rows@[j]).song.id@ == old(self).rows@[j].song.id@
                        &&& self.rows@[j].song.playing == spec_is_current(
                            old(self).rows@[j].song.id@,
                            *current_song_id,
                        )
                        &&& self.rows@[j].selected == old(self).rows@[j].selected
                        &&& self.rows@[j].selectable == old(self).rows@[j].selectable
                    },
                forall|j: int| i <= j < n ==> self.rows@[j] == old(self).rows@[j],
            decreases n - i,
        {
            let id = self.rows[i].song.get_id();
            let playing = is_current_song(&id, current_song_id);
            let selected = self.rows[i].selected;
            let selectable = self.rows[i].selectable;
            self.rows[i] = Row { song: SongModel { id, playing }, selected, selectable };
            i += 1;
        }
    }

    /// Full reset: replaces the store's entire contents with rows freshly
    /// bound from the model's authoritative ordering, each reconciled against
    /// the current item and the selection snapshot. The interaction mode is
    /// untouched.
    pub fn reset_list(&mut self, model: &PlaylistModel)
        ensures
            final(self).mode == old(self).mode,
            rows_reset(final(self).rows@, *model),
    {
        let mut rows: Vec<Row> = Vec::new();
        let n: usize = model.songs.len();
        let mut i: usize = 0;
        while i < n
            invariant
                n == model.songs@.len(),
                rows@.len() == i,
                i <= n,
                forall|j: int|
                    0 <= j < i ==> {
                        &&& (#[trigger] rows@[j]).song.id@ == model.songs@[j].id@
                        &&& rows@[j].song.playing == spec_is_current(
                            model.songs@[j].id@,
                            model.current_song_id,
                        )
                        &&& rows@[j].selected == spec_selection_selected(
                            model.selection,
                            model.songs@[j].id@,
                        )
                        &&& rows@[j].selectable == spec_selection_selected(
                            model.selection,
                            model.songs@[j].id@,
                        )
                    },
            decreases n - i,
        {
            let row = Row::bind(&model.songs[i], &model.current_song_id, &model.selection);
            rows.push(row);
            i += 1;
        }
        self.rows = rows;
    }

    /// Switches multi-selection interaction on or off. Enabling changes no
    /// row. Disabling deselects every visually selected row and makes it
    /// non-selectable, so no row is left selected while selection is off;
    /// activations are interpreted as direct activation from then on.
    pub fn set_selection_active(&mut self, active: bool)
        ensures
            mode_change(*old(self), *final(self), active),
    {
        if active {
            self.mode = InteractionMode::MultiSelect;
        } else {
            let n: usize = self.rows.len();
            let mut i: usize = 0;
            while i < n
                invariant
                    n == self.rows@.len(),
                    self.rows@.len() == old(self).rows@.len(),
                    i <= n,
                    forall|j: int|
                        0 <= j < i ==> {
                            &&& (#[trigger] self.rows@[j]).song == old(self).rows@[j].song
                            &&& self.rows@[j].selected == false
                            &&& self.rows@[j].selectable == (if old(self).rows@[j].selected {
                                false
                            } else {
                                old(self).rows@[j].selectable
                            })
                        },
                    forall|j: int| i <= j < n ==> self.rows@[j] == old(self).rows@[j],
                decreases n - i,
            {
                if self.rows[i].selected {
                    let id = self.rows[i].song.get_id();
                    let playing = self.rows[i].song.playing;
                    self.rows[i] = Row {
                        song: SongModel { id, playing },
                        selected: false,
                        selectable: false,
                    };
                }
                i += 1;
            }
            self.mode = InteractionMode::DirectActivation;
        }
    }

    /// Interprets a row activation under the current interaction mode and
    /// returns the command to dispatch to the domain model. Under direct
    /// activation the engine is left untouched and the item is played; under
    /// multi-selection the row's visual selection is toggled and the item is
    /// selected or deselected accordingly. The mode is consulted fresh on
    /// every activation. The index must be within the store's bounds.
    pub fn on_row_activated(&mut self, index: usize) -> (action: SongAction)
        requires
            index < old(self).rows@.len(),
        ensures
            final(self).mode == old(self).mode,
            match old(self).mode {
                InteractionMode::DirectActivation => {
                    &&& *final(self) == *old(self)
                    &&& action == SongAction::Play(old(self).rows@[index as int].song.id)
                },
                InteractionMode::MultiSelect => {
                    if old(self).rows@[index as int].selected {
                        &&& final(self).rows@ == old(self).rows@.update(
                            index as int,
                            (Row {
                                song: old(self).rows@[index as int].song,
                                selected: false,
                                selectable: false,
                            }),
                        )
                        &&& action == SongAction::Deselect(old(self).rows@[index as int].song.id)
                    } else {
                        &&& final(self).rows@ == old(self).rows@.update(
                            index as int,
                            (Row {
                                song: old(self).rows@[index as int].song,
                                selected: true,
                                selectable: true,
                            }),
                        )
                        &&& action == SongAction::Select(old(self).rows@[index as int].song.id)
                    }
                },
            },
    {
        match self.mode {
            InteractionMode::DirectActivation => {
                let id = self.rows[index].song.get_id();
                SongAction::Play(id)
            },
            InteractionMode::MultiSelect => {
                let id = self.rows[index].song.get_id();
                let playing = self.rows[index].song.playing;
                if self.rows[index].selected {
                    self.rows[index] = Row {
                        song: SongModel { id, playing },
                        selected: false,
                        selectable: false,
                    };
                    SongAction::Deselect(self.rows[index].song.get_id())
                } else {
                    self.rows[index] = Row {
                        song: SongModel { id, playing },
                        selected: true,
                        selectable: true,
                    };
                    SongAction::Select(self.rows[index].song.get_id())
                }
            },
        }
    }

    /// Processes one domain event: classifies it and applies exactly the
    /// chosen strategy. `model` is the model's answers at this instant;
    /// `model_requests_refresh` is its refresh predicate's answer for this
    /// very event. Events outside every bucket leave the engine untouched.
    pub fn on_event(&mut self, event: &AppEvent, model: &PlaylistModel, model_requests_refresh: bool)
        ensures
            playlist_step(*old(self), *final(self), *event, *model, model_requests_refresh),
    {
        let strategy = classify_event(event, model_requests_refresh);
        match strategy {
            UpdateStrategy::TargetedRefresh => self.update_list(&model.current_song_id),
            UpdateStrategy::FullReset => self.reset_list(model),
            UpdateStrategy::ModeChange(active) => self.set_selection_active(active),
            UpdateStrategy::Ignore => {},
        }
    }
}

/// Two rows that agree on everything observable: identifier, "playing" flag
/// and visual selection state.
pub open spec fn row_obs_eq(a: Row, b: Row) -> bool {
    &&& a.song.id@ == b.song.id@
    &&& a.song.playing == b.song.playing
    &&& a.selected == b.selected
    &&& a.selectable == b.selectable
}

pub open spec fn rows_obs_eq(a: Seq<Row>, b: Seq<Row>) -> bool {
    &&& a.len() == b.len()
    &&& forall|i: int| 0 <= i < a.len() ==> row_obs_eq(#[trigger] a[i], b[i])
}

/// A targeted refresh is idempotent: refreshing twice in succession with no
/// intervening state change leaves every row exactly as one refresh does.
pub proof fn lemma_targeted_refresh_idempotent(
    pre: Seq<Row>,
    once: Seq<Row>,
    twice: Seq<Row>,
    current_song_id: Option<String>,
)
    requires
        rows_refreshed(pre, once, current_song_id),
        rows_refreshed(once, twice, current_song_id),
    ensures
        rows_obs_eq(twice, once),
{
    assert forall|i: int| 0 <= i < twice.len() implies row_obs_eq(#[trigger] twice[i], once[i]) by {
        assert(once[i].song.id@ == pre[i].song.id@);
    }
}

/// One engine input: the delivered event together with the model's answers at
/// that instant.
pub struct EngineInput {
    pub event: AppEvent,
    pub model: PlaylistModel,
    pub model_requests_refresh: bool,
}

/// The engine processed `inputs` strictly in order, stepping from `pre` to
/// `post`.
pub open spec fn playlist_run(pre: Playlist, post: Playlist, inputs: Seq<EngineInput>) -> bool
    decreases inputs.len(),
{
    if inputs.len() == 0 {
        post == pre
    } else {
        exists|mid: Playlist|
            {
                &&& #[trigger] playlist_step(
                    pre,
                    mid,
                    inputs[0].event,
                    inputs[0].model,
                    inputs[0].model_requests_refresh,
                )
                &&& playlist_run(mid, post, inputs.drop_first())
            }
    }
}

/// The stored items' identifiers, in store order.
pub open spec fn spec_row_ids(rows: Seq<Row>) -> Seq<Seq<char>> {
    Seq::new(rows.len(), |i: int| rows[i].song.id@)
}

/// A single step that is not a full reset preserves the stored items and
/// their order.
pub proof fn lemma_step_preserves_order(
    pre: Playlist,
    post: Playlist,
    event: AppEvent,
    model: PlaylistModel,
    model_requests_refresh: bool,
)
    requires
        playlist_step(pre, post, event, model, model_requests_refresh),
        !(spec_classify(event, model_requests_refresh) is FullReset),
    ensures
        spec_row_ids(post.rows@) == spec_row_ids(pre.rows@),
{
    assert(spec_row_ids(post.rows@) =~~= spec_row_ids(pre.rows@));
}

/// Order preservation: over any event sequence containing no full reset, the
/// store's item order after processing equals its order before.
pub proof fn lemma_order_preserved(pre: Playlist, post: Playlist, inputs: Seq<EngineInput>)
    requires
        playlist_run(pre, post, inputs),
        forall|i: int|
            0 <= i < inputs.len() ==> !(spec_classify(
                (#[trigger] inputs[i]).event,
                inputs[i].model_requests_refresh,
            ) is FullReset),
    ensures
        spec_row_ids(post.rows@) == spec_row_ids(pre.rows@),
    decreases inputs.len(),
{
    if inputs.len() > 0 {
        let mid = choose|mid: Playlist|
            {
                &&& #[trigger] playlist_step(
                    pre,
                    mid,
                    inputs[0].event,
                    inputs[0].model,
                    inputs[0].model_requests_refresh,
                )
                &&& playlist_run(mid, post, inputs.drop_first())
            };
        assert(!(spec_classify(inputs[0].event, inputs[0].model_requests_refresh) is FullReset));
        lemma_step_preserves_order(
            pre,
            mid,
            inputs[0].event,
            inputs[0].model,
            inputs[0].model_requests_refresh,
        );
        assert forall|i: int|
            0 <= i < inputs.drop_first().len() implies !(spec_classify(
            (#[trigger] inputs.drop_first()[i]).event,
            inputs.drop_first()[i].model_requests_refresh,
        ) is FullReset) by {
            assert(inputs.drop_first()[i] == inputs[i + 1]);
        }
        lemma_order_preserved(mid, post, inputs.drop_first());
    }
}

} // verus!
