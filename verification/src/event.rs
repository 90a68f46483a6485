//! Raw terminal input and the grouped alphabet that batches are made of.

use vstd::prelude::*;

verus! {

/// Media keys.
#[derive(Debug, Clone, Copy, PartialEq, Eq, Hash, Structural)]
pub enum MediaKeyCode {
    Play,
    Pause,
    PlayPause,
    Reverse,
    Stop,
    FastForward,
    Rewind,
    TrackNext,
    TrackPrevious,
    Record,
    LowerVolume,
    RaiseVolume,
    MuteVolume,
}

/// Modifier keys reported as keys of their own.
#[derive(Debug, Clone, Copy, PartialEq, Eq, Hash, Structural)]
pub enum ModifierKeyCode {
    LeftShift,
    LeftControl,
    LeftAlt,
    LeftSuper,
    LeftHyper,
    LeftMeta,
    RightShift,
    RightControl,
    RightAlt,
    RightSuper,
    RightHyper,
    RightMeta,
    IsoLevel3Shift,
    IsoLevel5Shift,
}

/// The key of a key event.
#[derive(Debug, Clone, Copy, PartialEq, Eq, Hash, Structural)]
pub enum KeyCode {
    Backspace,
    Enter,
    Left,
    Right,
    Up,
    Down,
    Home,
    End,
    PageUp,
    PageDown,
    Tab,
    BackTab,
    Delete,
    Insert,
    F(u8),
    Char(char),
    Null,
    Esc,
    CapsLock,
    ScrollLock,
    NumLock,
    PrintScreen,
    Pause,
    Menu,
    KeypadBegin,
    Media(MediaKeyCode),
    Modifier(ModifierKeyCode),
}

/// The modifier keys held during an event, one bit each.
#[derive(Debug, Clone, Copy, PartialEq, Eq, Hash, Structural)]
pub struct KeyModifiers {
    pub bits: u8,
}

/// Bit of the shift key in `KeyModifiers::bits`.
pub const SHIFT: u8 = 1;

/// Bit of the control key in `KeyModifiers::bits`.
pub const CONTROL: u8 = 2;

/// Bit of the alt key in `KeyModifiers::bits`.
pub const ALT: u8 = 4;

/// Bit of the super key in `KeyModifiers::bits`.
pub const SUPER: u8 = 8;

/// Bit of the hyper key in `KeyModifiers::bits`.
pub const HYPER: u8 = 16;

/// Bit of the meta key in `KeyModifiers::bits`.
pub const META: u8 = 32;

impl KeyModifiers {
    /// No modifier held.
    pub fn none() -> (m: KeyModifiers)
        ensures
            m.bits == 0,
    {
        KeyModifiers { bits: 0 }
    }

    /// Shift alone.
    pub fn shift() -> (m: KeyModifiers)
        ensures
            m.bits == SHIFT,
    {
        KeyModifiers { bits: SHIFT }
    }

    /// Control alone.
    pub fn control() -> (m: KeyModifiers)
        ensures
            m.bits == CONTROL,
    {
        KeyModifiers { bits: CONTROL }
    }

    /// Alt alone.
    pub fn alt() -> (m: KeyModifiers)
        ensures
            m.bits == ALT,
    {
        KeyModifiers { bits: ALT }
    }
}

/// Whether a key went down, repeated or came up.
#[derive(Debug, Clone, Copy, PartialEq, Eq, Hash, Structural)]
pub enum KeyEventKind {
    Press,
    Repeat,
    Release,
}

/// Keyboard state reported with a key event, one bit each.
#[derive(Debug, Clone, Copy, PartialEq, Eq, Hash, Structural)]
pub struct KeyEventState {
    pub bits: u8,
}

/// Bit in `KeyEventState::bits`: the key is on the keypad.
pub const KEYPAD: u8 = 1;

/// Bit in `KeyEventState::bits`: caps lock was on.
pub const CAPS_LOCK: u8 = 2;

/// Bit in `KeyEventState::bits`: num lock was on.
pub const NUM_LOCK: u8 = 4;

impl KeyEventState {
    /// Nothing reported.
    pub fn none() -> (s: KeyEventState)
        ensures
            s.bits == 0,
    {
        KeyEventState { bits: 0 }
    }
}

/// One key event.
#[derive(Debug, Clone, Copy, PartialEq, Eq, Hash, Structural)]
pub struct KeyEvent {
    pub code: KeyCode,
    pub modifiers: KeyModifiers,
    pub kind: KeyEventKind,
    pub state: KeyEventState,
}

/// A mouse button.
#[derive(Debug, Clone, Copy, PartialEq, Eq, Hash, Structural)]
pub enum MouseButton {
    Left,
    Right,
    Middle,
}

/// What the mouse did.
#[derive(Debug, Clone, Copy, PartialEq, Eq, Hash, Structural)]
pub enum MouseEventKind {
    Down(MouseButton),
    Up(MouseButton),
    Drag(MouseButton),
    Moved,
    ScrollDown,
    ScrollUp,
    ScrollLeft,
    ScrollRight,
}

/// One mouse event.
#[derive(Debug, Clone, Copy, PartialEq, Eq, Hash, Structural)]
pub struct MouseEvent {
    pub kind: MouseEventKind,
    pub column: u16,
    pub row: u16,
    pub modifiers: KeyModifiers,
}

/// Input that is neither a key event nor a resize, kept as it came.
#[derive(Debug, Clone, Copy, PartialEq, Eq, Hash, Structural)]
pub enum OtherInput {
    FocusGained,
    FocusLost,
    Mouse(MouseEvent),
}

/// One event of the raw input stream. Two events are equal when all their
/// fields are.
#[derive(Debug, Clone, Copy, PartialEq, Eq, Hash, Structural)]
pub enum RawEvent {
    Key(KeyEvent),
    Resize(u16, u16),
    Other(OtherInput),
}

impl RawEvent {
    /// The character that a plain key press types: a `Char` key, pressed with
    /// no modifier or with shift alone, and with no keyboard state reported.
    pub open spec fn typed_char(self) -> Option<char> {
        match self {
            RawEvent::Key(key) => match key.code {
                KeyCode::Char(ch) => if (key.modifiers.bits == 0 || key.modifiers.bits == SHIFT)
                    && key.kind == KeyEventKind::Press && key.state.bits == 0 {
                    Some(ch)
                } else {
                    None
                },
                _ => None,
            },
            _ => None,
        }
    }

    /// `(1, 0)` for an Up key and `(0, 1)` for a Down key, whatever its
    /// modifiers, kind and state.
    pub open spec fn vertical_step(self) -> Option<(nat, nat)> {
        match self {
            RawEvent::Key(key) => match key.code {
                KeyCode::Up => Some((1nat, 0nat)),
                KeyCode::Down => Some((0nat, 1nat)),
                _ => None,
            },
            _ => None,
        }
    }

    /// `(1, 0)` for a Left key and `(0, 1)` for a Right key, whatever its
    /// modifiers, kind and state.
    pub open spec fn horizontal_step(self) -> Option<(nat, nat)> {
        match self {
            RawEvent::Key(key) => match key.code {
                KeyCode::Left => Some((1nat, 0nat)),
                KeyCode::Right => Some((0nat, 1nat)),
                _ => None,
            },
            _ => None,
        }
    }

    /// Whether the event is a resize.
    pub open spec fn is_resize(self) -> bool {
        self is Resize
    }
}

/// One group of a batch, as a mathematical value.
pub enum Group {
    /// Characters typed in a row, in order.
    KeyBuffer(Seq<char>),
    /// Numbers of Up and of Down keys in a row.
    VerticalCursorBuffer(nat, nat),
    /// Numbers of Left and of Right keys in a row.
    HorizontalCursorBuffer(nat, nat),
    /// The size that the last resize of the window gave.
    LastResize(u16, u16),
    /// Another event, and how many times it came in a row.
    Others(RawEvent, nat),
}

/// One group of a batch.
#[derive(Debug, Clone, PartialEq)]
pub enum Event {
    /// Characters typed in a row, in order.
    KeyBuffer(Vec<char>),
    /// Numbers of Up and of Down keys in a row.
    VerticalCursorBuffer(usize, usize),
    /// Numbers of Left and of Right keys in a row.
    HorizontalCursorBuffer(usize, usize),
    /// The size that the last resize of the window gave.
    LastResize(u16, u16),
    /// Another event, and how many times it came in a row.
    Others(RawEvent, usize),
}

impl View for Event {
    type V = Group;

    open spec fn view(&self) -> Group {
        match *self {
            Event::KeyBuffer(chars) => Group::KeyBuffer(chars@),
            Event::VerticalCursorBuffer(up, down) => Group::VerticalCursorBuffer(
                up as nat,
                down as nat,
            ),
            Event::HorizontalCursorBuffer(left, right) => Group::HorizontalCursorBuffer(
                left as nat,
                right as nat,
            ),
            Event::LastResize(width, height) => Group::LastResize(width, height),
            Event::Others(event, count) => Group::Others(event, count as nat),
        }
    }
}

/// The groups of a batch, in order, as mathematical values.
pub open spec fn batch_view(batch: Seq<Event>) -> Seq<Group> {
    Seq::new(batch.len(), |i: int| batch[i]@)
}

} // verus!
