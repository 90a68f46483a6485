//! The default key binding of the editor: which command a single raw event
//! stands for, and what the command does to the prompt.

use crate::event::{KeyCode, KeyEventKind, RawEvent, ALT, CONTROL, SHIFT};
use crate::Action;
use vstd::prelude::*;

verus! {

/// What a key asks of the editor.
#[derive(Debug, Clone, Copy, PartialEq, Eq, Structural)]
pub enum Command {
    /// Nothing is bound to the event.
    Ignore,
    /// End the session.
    Quit,
    /// Move the cursor one character back.
    Backward,
    /// Move the cursor one character on.
    Forward,
    /// Move the cursor to the head of the text.
    MoveToHead,
    /// Move the cursor to the tail of the text.
    MoveToTail,
    /// Move the cursor back to the nearest word break.
    MoveToPreviousNearest,
    /// Move the cursor on to the nearest word break.
    MoveToNextNearest,
    /// Erase the character before the cursor.
    Erase,
    /// Erase the whole text.
    EraseAll,
    /// Erase back to the nearest word break.
    EraseToPreviousNearest,
    /// Erase on to the nearest word break.
    EraseToNextNearest,
    /// Put the character at the cursor, inserting or overwriting as the
    /// editor's mode says.
    Type(char),
}

impl Command {
    /// What the command does to the prompt.
    pub open spec fn effect(self) -> Action {
        match self {
            Command::Ignore => Action::Nothing,
            Command::Quit => Action::Quit,
            Command::Backward
            | Command::Forward
            | Command::MoveToHead
            | Command::MoveToTail
            | Command::MoveToPreviousNearest
            | Command::MoveToNextNearest => Action::MoveCursor,
            Command::Erase
            | Command::EraseAll
            | Command::EraseToPreviousNearest
            | Command::EraseToNextNearest
            | Command::Type(_) => Action::ChangeText,
        }
    }

    /// What the command does to the prompt: nothing, the end of the session,
    /// a move of the cursor or a change of the text.
    pub fn action(&self) -> (action: Action)
        ensures
            action == self.effect(),
    {
        match self {
            Command::Ignore => Action::Nothing,
            Command::Quit => Action::Quit,
            Command::Backward
            | Command::Forward
            | Command::MoveToHead
            | Command::MoveToTail
            | Command::MoveToPreviousNearest
            | Command::MoveToNextNearest => Action::MoveCursor,
            Command::Erase
            | Command::EraseAll
            | Command::EraseToPreviousNearest
            | Command::EraseToNextNearest
            | Command::Type(_) => Action::ChangeText,
        }
    }
}

/// The key of a key press with exactly the modifiers `modifiers` and no
/// keyboard state reported.
pub open spec fn pressed(event: RawEvent, modifiers: u8) -> Option<KeyCode> {
    match event {
        RawEvent::Key(key) => if key.modifiers.bits == modifiers && key.kind == KeyEventKind::Press
            && key.state.bits == 0 {
            Some(key.code)
        } else {
            None
        },
        _ => None,
    }
}

/// The command that the default binding gives an event. Only key presses
/// with no keyboard state reported are bound: with control, `c` quits, `a`
/// and `e` go to head and tail, `u` erases all and `w` erases back to the
/// word break; with alt, `b` and `f` move to the word break before and
/// after and `d` erases on to it; with no modifier, Left, Right and
/// Backspace do what they say; and a character with no modifier or with
/// shift alone is typed.
pub open spec fn binding(event: RawEvent) -> Command {
    if let Some(code) = pressed(event, CONTROL) {
        match code {
            KeyCode::Char('c') => Command::Quit,
            KeyCode::Char('a') => Command::MoveToHead,
            KeyCode::Char('e') => Command::MoveToTail,
            KeyCode::Char('u') => Command::EraseAll,
            KeyCode::Char('w') => Command::EraseToPreviousNearest,
            _ => Command::Ignore,
        }
    } else if let Some(code) = pressed(event, ALT) {
        match code {
            KeyCode::Char('b') => Command::MoveToPreviousNearest,
            KeyCode::Char('f') => Command::MoveToNextNearest,
            KeyCode::Char('d') => Command::EraseToNextNearest,
            _ => Command::Ignore,
        }
    } else if let Some(code) = pressed(event, 0) {
        match code {
            KeyCode::Left => Command::Backward,
            KeyCode::Right => Command::Forward,
            KeyCode::Backspace => Command::Erase,
            KeyCode::Char(ch) => Command::Type(ch),
            _ => Command::Ignore,
        }
    } else if let Some(code) = pressed(event, SHIFT) {
        match code {
            KeyCode::Char(ch) => Command::Type(ch),
            _ => Command::Ignore,
        }
    } else {
        Command::Ignore
    }
}

/// The default key binding: the command that an event stands for.
pub fn default(event: &RawEvent) -> (command: Command)
    ensures
        command == binding(*event),
        command matches Command::Type(ch) ==> event.typed_char() == Some(ch),
{
    let key = match event {
        RawEvent::Key(key) => key,
        _ => {
            return Command::Ignore;
        },
    };
    if !matches!(key.kind, KeyEventKind::Press) || key.state.bits != 0 {
        return Command::Ignore;
    }
    let modifiers = key.modifiers.bits;
    match key.code {
        KeyCode::Char('c') if modifiers == CONTROL => Command::Quit,
        KeyCode::Left if modifiers == 0 => Command::Backward,
        KeyCode::Right if modifiers == 0 => Command::Forward,
        KeyCode::Char('a') if modifiers == CONTROL => Command::MoveToHead,
        KeyCode::Char('e') if modifiers == CONTROL => Command::MoveToTail,
        KeyCode::Char('b') if modifiers == ALT => Command::MoveToPreviousNearest,
        KeyCode::Char('f') if modifiers == ALT => Command::MoveToNextNearest,
        KeyCode::Backspace if modifiers == 0 => Command::Erase,
        KeyCode::Char('u') if modifiers == CONTROL => Command::EraseAll,
        KeyCode::Char('w') if modifiers == CONTROL => Command::EraseToPreviousNearest,
        KeyCode::Char('d') if modifiers == ALT => Command::EraseToNextNearest,
        KeyCode::Char(ch) if modifiers == 0 || modifiers == SHIFT => Command::Type(ch),
        _ => Command::Ignore,
    }
}

} // verus!
