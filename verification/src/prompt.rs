//! The decisions of the prompt's main loop: when it ends, where a raw event
//! goes, what follows from a key binding's action, and which pane stands in
//! which slot.

use crate::event::{KeyCode, KeyEventKind, RawEvent};
use crate::Action;
use vstd::prelude::*;

verus! {

/// Whether the event is the quit key: Esc, pressed with no modifier and no
/// keyboard state reported.
pub open spec fn quits(event: RawEvent) -> bool {
    event matches RawEvent::Key(key) && key.code == KeyCode::Esc && key.modifiers.bits == 0
        && key.kind == KeyEventKind::Press && key.state.bits == 0
}

/// Whether the event is the quit key.
pub fn is_quit_key(event: &RawEvent) -> (quit: bool)
    ensures
        quit == quits(*event),
{
    match event {
        RawEvent::Key(key) => matches!(key.code, KeyCode::Esc) && key.modifiers.bits == 0
            && matches!(key.kind, KeyEventKind::Press) && key.state.bits == 0,
        _ => false,
    }
}

/// What the main loop does with what the raw input gives.
#[derive(Debug, Clone, Copy, PartialEq, Eq, Structural)]
pub enum Intake {
    /// The session ends, with success.
    Stop,
    /// The event goes on to the operator.
    Forward(RawEvent),
}

/// What the main loop does with what the raw input gives: the session ends
/// when the input has ended and on the quit key, and every other event goes
/// on to the operator.
pub open spec fn intake_of(input: Option<RawEvent>) -> Intake {
    match input {
        Some(event) => if quits(event) {
            Intake::Stop
        } else {
            Intake::Forward(event)
        },
        None => Intake::Stop,
    }
}

/// What the main loop does with what the raw input gives.
pub fn intake(input: Option<RawEvent>) -> (step: Intake)
    ensures
        step == intake_of(input),
{
    match input {
        Some(event) => {
            if is_quit_key(&event) {
                Intake::Stop
            } else {
                Intake::Forward(event)
            }
        },
        None => Intake::Stop,
    }
}

/// Where a raw event goes in a prompt whose editor takes events one by one.
#[derive(Debug, Clone, Copy, PartialEq, Eq, Structural)]
pub enum Route {
    /// A new size, which goes to the resize debouncer.
    Resize(u16, u16),
    /// Any other event, which goes to the editor's key binding.
    Editor(RawEvent),
}

/// Where a raw event goes: a resize to the resize debouncer, every other
/// event to the editor.
pub fn route(event: RawEvent) -> (to: Route)
    ensures
        to == (match event {
            RawEvent::Resize(width, height) => Route::Resize(width, height),
            _ => Route::Editor(event),
        }),
{
    match event {
        RawEvent::Resize(width, height) => Route::Resize(width, height),
        _ => Route::Editor(event),
    }
}

/// What follows from the action of a key binding.
#[derive(Debug, Clone, Copy, PartialEq, Eq, Structural)]
pub struct Reaction {
    /// The session ends.
    pub quit: bool,
    /// The editor's text goes to the query debouncer.
    pub send_query: bool,
    /// The editor's pane is made anew and the display drawn.
    pub redraw: bool,
}

/// What follows from the action of a key binding: nothing where nothing was
/// done, the end of the session on quit, a new editor pane where the cursor
/// moved, and a new editor pane and a query where the text changed.
pub fn react(action: Action) -> (reaction: Reaction)
    ensures
        reaction.quit == (action == Action::Quit),
        reaction.send_query == (action == Action::ChangeText),
        reaction.redraw == (action == Action::ChangeText || action == Action::MoveCursor),
{
    match action {
        Action::Nothing => Reaction { quit: false, send_query: false, redraw: false },
        Action::Quit => Reaction { quit: true, send_query: false, redraw: false },
        Action::MoveCursor => Reaction { quit: false, send_query: false, redraw: true },
        Action::ChangeText => Reaction { quit: false, send_query: true, redraw: true },
    }
}

/// The panes that the prompt draws, one per component slot.
pub struct PaneSlots<P> {
    panes: Vec<P>,
}

impl<P> View for PaneSlots<P> {
    type V = Seq<P>;

    closed spec fn view(&self) -> Seq<P> {
        self.panes@
    }
}

impl<P> PaneSlots<P> {
    /// The slots with their first panes.
    pub fn new(panes: Vec<P>) -> (slots: Self)
        ensures
            slots@ == panes@,
    {
        PaneSlots { panes }
    }

    /// Number of slots.
    pub fn len(&self) -> (n: usize)
        ensures
            n == self@.len(),
    {
        self.panes.len()
    }

    /// The panes, slot by slot, as they are to be drawn.
    pub fn panes(&self) -> (panes: &Vec<P>)
        ensures
            panes@ == self@,
    {
        &self.panes
    }

    /// A component has given a pane: it takes the component's slot, and the
    /// other slots keep theirs.
    pub fn place(&mut self, index: usize, pane: P)
        requires
            index < old(self)@.len(),
        ensures
            final(self)@ == old(self)@.update(index as int, pane),
    {
        self.panes.set(index, pane);
    }
}

} // verus!
