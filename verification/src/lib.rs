//! Event coalescing and component scheduling for an interactive terminal
//! prompt: grouping of raw input into batches, a one-deep undoable state cell,
//! and the decision logic of the component runtimes and of the display loop.

use vstd::prelude::*;

pub mod component;
pub mod debounce;
pub mod display_coordinator;
pub mod editor;
pub mod event;
pub mod event_buffer;
pub mod grouping;
pub mod grouping_proofs;
pub mod keymap;
pub mod operator;
pub mod pane;
pub mod prompt;
pub mod state;
pub mod wizard;

verus! {

/// The fixed slots of the four-pane layout.
#[derive(Debug, Clone, Copy, PartialEq, Eq, Structural)]
pub enum PaneIndex {
    Editor,
    Hint,
    Suggst,
    Data,
}

/// Number of slots in the four-pane layout.
pub const PANESIZE: usize = 4;

impl PaneIndex {
    /// Position of the slot in the pane vector.
    pub open spec fn slot(self) -> nat {
        match self {
            PaneIndex::Editor => 0,
            PaneIndex::Hint => 1,
            PaneIndex::Suggst => 2,
            PaneIndex::Data => 3,
        }
    }

    /// Position of the slot in the pane vector.
    pub fn index(self) -> (i: usize)
        ensures
            i == self.slot(),
            i < PANESIZE,
    {
        match self {
            PaneIndex::Editor => 0,
            PaneIndex::Hint => 1,
            PaneIndex::Suggst => 2,
            PaneIndex::Data => 3,
        }
    }
}

/// What a key binding did to the editor.
#[derive(Debug, Clone, Copy, PartialEq, Eq, Structural)]
pub enum Action {
    Nothing,
    MoveCursor,
    ChangeText,
    Quit,
}

} // verus!
