use vstd::prelude::*;

verus! {

/// One backing item of the list: a stable identifier plus the engine-visible
/// "currently playing" flag. Everything else about the item is opaque to the
/// engine.
#[derive(Debug)]
pub struct SongModel {
    pub id: String,
    pub playing: bool,
}

impl SongModel {
    pub fn new(id: String, playing: bool) -> (song: SongModel)
        ensures
            song.id == id,
            song.playing == playing,
    {
        SongModel { id, playing }
    }

    /// The item's stable identifier.
    pub fn get_id(&self) -> (id: String)
        ensures
            id == self.id,
    {
        self.id.clone()
    }

    pub fn is_playing(&self) -> (playing: bool)
        ensures
            playing == self.playing,
    {
        self.playing
    }

    pub fn set_playing(&mut self, playing: bool)
        ensures
            final(self).id == old(self).id,
            final(self).playing == playing,
    {
        self.playing = playing;
    }
}

/// A snapshot of the external selection model. The engine never owns or
/// mutates the selection; it only reads a snapshot of it.
#[derive(Debug)]
pub struct SelectionState {
    /// Whether multi-selection is currently enabled.
    pub selection_enabled: bool,
    /// The identifiers currently part of the selection.
    pub selected_ids: Vec<String>,
}

impl SelectionState {
    /// Whether `id` is in the selected set.
    pub open spec fn spec_is_song_selected(self, id: Seq<char>) -> bool {
        exists|i: int| 0 <= i < self.selected_ids@.len() && self.selected_ids@[i]@ == id
    }

    pub fn is_selection_enabled(&self) -> (enabled: bool)
        ensures
            enabled == self.selection_enabled,
    {
        self.selection_enabled
    }

    pub fn is_song_selected(&self, id: &String) -> (selected: bool)
        ensures
            selected == self.spec_is_song_selected(id@),
    {
        let n: usize = self.selected_ids.len();
        let mut i: usize = 0;
        while i < n
            invariant
                n == self.selected_ids@.len(),
                i <= n,
                forall|j: int| 0 <= j < i ==> (#[trigger] self.selected_ids@[j])@ != id@,
            decreases n - i,
        {
            if self.selected_ids[i] == *id {
                return true;
            }
            i += 1;
        }
        false
    }
}

/// The engine-visible answers of the domain model at one instant: the
/// authoritative ordered items, the identifier of the currently playing item,
/// and the external selection snapshot. Callers rebuild this from the live
/// model before handing the engine an event.
#[derive(Debug)]
pub struct PlaylistModel {
    /// The authoritative current ordering of the items.
    pub songs: Vec<SongModel>,
    /// The identifier of the currently playing item, if any.
    pub current_song_id: Option<String>,
    /// The selection snapshot; absent means "selection disabled, nothing
    /// selected".
    pub selection: Option<SelectionState>,
}

/// Whether `id` is the currently playing identifier; no current item means
/// nothing is playing.
pub open spec fn spec_is_current(id: Seq<char>, current_song_id: Option<String>) -> bool {
    match current_song_id {
        Some(current) => current@ == id,
        None => false,
    }
}

pub fn is_current_song(id: &String, current_song_id: &Option<String>) -> (current: bool)
    ensures
        current == spec_is_current(id@, *current_song_id),
{
    match current_song_id {
        Some(current) => *current == *id,
        None => false,
    }
}

/// Whether the selection snapshot marks `id` as selected; an absent snapshot
/// marks nothing.
pub open spec fn spec_selection_selected(selection: Option<SelectionState>, id: Seq<char>) -> bool {
    match selection {
        Some(state) => state.spec_is_song_selected(id),
        None => false,
    }
}

pub fn selection_marks_selected(selection: &Option<SelectionState>, id: &String) -> (selected:
    bool)
    ensures
        selected == spec_selection_selected(*selection, id@),
{
    match selection {
        Some(state) => state.is_song_selected(id),
        None => false,
    }
}

} // verus!
