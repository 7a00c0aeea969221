//! A reactive list/view synchronization engine.
//!
//! The crate keeps an on-screen scrollable list of items in step with a
//! mutable, externally owned collection and with transient interaction state
//! (multi-selection, the "currently playing" item). Domain events are
//! classified into a closed set of update strategies — targeted per-row
//! refresh, full rebuild, interaction-mode change, or no-op — and applied to a
//! projected store of rows. Row activations are turned into commands for the
//! domain model (play, select, deselect), interpreted under the current
//! interaction mode. A small secondary component reacts to scroll-edge
//! signals with an edge-triggered "load more" request.
//!
//! The engine itself performs no I/O and owns no widgets: callers hand it a
//! snapshot of the domain model's answers (the ordered items, the current
//! item's identifier, the external selection state) and perform the commands
//! it returns.

pub mod events;
pub mod models;
pub mod playlist;
pub mod podcasts;
