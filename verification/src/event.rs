//! The event vocabulary of the session: what the consumer may react to, and
//! the raw terminal input it is derived from.
//!
//! Raw input arrives from the terminal as a [`RawEvent`]; the pump translates
//! it into the consumer-facing [`Event`]. Both are plain data, so every rule
//! about the translation can be stated and proved over them directly.

use vstd::prelude::*;

verus! {

/// How a key event was produced: an initial press, an auto-repeat, or a
/// release. Only presses are forwarded to the consumer.
#[derive(Clone, Copy, Debug, PartialEq, Eq)]
pub enum KeyKind {
    Press,
    Repeat,
    Release,
}

/// A media control key.
#[derive(Clone, Copy, Debug, PartialEq, Eq)]
pub enum MediaKeyCode {
    Play,
    Pause,
    PlayPause,
    Reverse,
    Stop,
    FastForward,
    Rewind,
    TrackNext,
    TrackPrevious,
    Record,
    LowerVolume,
    RaiseVolume,
    MuteVolume,
}

/// A modifier key reported on its own (only on terminals that distinguish
/// left and right variants).
#[derive(Clone, Copy, Debug, PartialEq, Eq)]
pub enum ModifierKeyCode {
    LeftShift,
    LeftControl,
    LeftAlt,
    LeftSuper,
    LeftHyper,
    LeftMeta,
    RightShift,
    RightControl,
    RightAlt,
    RightSuper,
    RightHyper,
    RightMeta,
    IsoLevel3Shift,
    IsoLevel5Shift,
}

/// Which key a key event reports.
#[derive(Clone, Copy, Debug, PartialEq, Eq)]
pub enum KeyCode {
    Backspace,
    Enter,
    Left,
    Right,
    Up,
    Down,
    Home,
    End,
    PageUp,
    PageDown,
    Tab,
    BackTab,
    Delete,
    Insert,
    F(u8),
    Char(char),
    Null,
    Esc,
    CapsLock,
    ScrollLock,
    NumLock,
    PrintScreen,
    Pause,
    Menu,
    KeypadBegin,
    Media(MediaKeyCode),
    Modifier(ModifierKeyCode),
}

/// A keyboard event: which key, with which modifier bits held, produced how,
/// and with which extra state bits. Modifier and state bits are kept as raw
/// bit sets; the session never interprets them.
#[derive(Clone, Copy, Debug, PartialEq, Eq)]
pub struct KeyEvent {
    pub code: KeyCode,
    pub modifiers: u8,
    pub kind: KeyKind,
    pub state: u8,
}

impl KeyEvent {
    /// A fresh press of `code` with the given modifier bits and no extra state.
    pub fn new(code: KeyCode, modifiers: u8) -> (r: Self)
        ensures
            r == (KeyEvent { code, modifiers, kind: KeyKind::Press, state: 0u8 }),
    {
        KeyEvent { code, modifiers, kind: KeyKind::Press, state: 0 }
    }
}

/// A pointer button.
#[derive(Clone, Copy, Debug, PartialEq, Eq)]
pub enum MouseButton {
    Left,
    Right,
    Middle,
}

/// What a pointer event reports.
#[derive(Clone, Copy, Debug, PartialEq, Eq)]
pub enum MouseEventKind {
    Down(MouseButton),
    Up(MouseButton),
    Drag(MouseButton),
    Moved,
    ScrollDown,
    ScrollUp,
    ScrollLeft,
    ScrollRight,
}

/// A pointer event: what happened, at which cell, with which modifier bits.
#[derive(Clone, Copy, Debug, PartialEq, Eq)]
pub struct MouseEvent {
    pub kind: MouseEventKind,
    pub column: u16,
    pub row: u16,
    pub modifiers: u8,
}

/// Everything the consumer of the session may react to.
#[derive(Clone, Debug, PartialEq, Eq)]
pub enum Event {
    /// Emitted once by the pump, before anything else, on every start.
    Init,
    /// The raw input source reported a failure; the pump keeps running.
    Error,
    /// The logic tick timer elapsed.
    Tick,
    /// The render timer elapsed.
    Render,
    FocusGained,
    FocusLost,
    Paste(String),
    Key(KeyEvent),
    Mouse(MouseEvent),
    Resize(u16, u16),
}

/// One item of the raw terminal input stream, before translation.
#[derive(Clone, Debug, PartialEq, Eq)]
pub enum RawEvent {
    FocusGained,
    FocusLost,
    Key(KeyEvent),
    Mouse(MouseEvent),
    Paste(String),
    Resize(u16, u16),
}

impl From<KeyCode> for Event {
    /// A bare key code stands for a fresh press of that key with no modifiers.
    fn from(value: KeyCode) -> (r: Self) {
        Event::Key(KeyEvent::new(value, 0))
    }
}

impl vstd::std_specs::convert::FromSpecImpl<KeyCode> for Event {
    open spec fn obeys_from_spec() -> bool {
        true
    }

    open spec fn from_spec(value: KeyCode) -> Self {
        Event::Key(KeyEvent { code: value, modifiers: 0u8, kind: KeyKind::Press, state: 0u8 })
    }
}

impl From<char> for Event {
    /// A character stands for a fresh press of its key with no modifiers.
    fn from(value: char) -> (r: Self) {
        Event::Key(KeyEvent::new(KeyCode::Char(value), 0))
    }
}

impl vstd::std_specs::convert::FromSpecImpl<char> for Event {
    open spec fn obeys_from_spec() -> bool {
        true
    }

    open spec fn from_spec(value: char) -> Self {
        Event::Key(
            KeyEvent { code: KeyCode::Char(value), modifiers: 0u8, kind: KeyKind::Press, state: 0u8 },
        )
    }
}

} // verus!
