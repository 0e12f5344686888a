//! What a terminal reports: keys, resizes, the mouse and focus.
use vstd::prelude::*;
use crate::units::{Position, Size};

verus! {

/// The keys that print nothing.
#[derive(Clone, Copy, Debug, PartialEq, Eq, Hash, Structural)]
pub enum SpecialKey {
    Backspace,
    Enter,
    Left,
    Right,
    Up,
    Down,
    Home,
    End,
    PageUp,
    PageDown,
    Tab,
    BackTab,
    Delete,
    Insert,
    Esc,
}

/// The function keys.
#[derive(Clone, Copy, Debug, PartialEq, Eq, Hash, Structural)]
pub enum FunctionKey {
    F1,
    F2,
    F3,
    F4,
    F5,
    F6,
    F7,
    F8,
    F9,
    F10,
    F11,
    F12,
}

/// A key of the keyboard.
#[derive(Clone, Copy, Debug, PartialEq, Eq, Hash, Structural)]
pub enum Key {
    Character(char),
    SpecialKey(SpecialKey),
    FunctionKey(FunctionKey),
}

/// The modifier keys held down with a key.
#[derive(Clone, Copy, Debug, PartialEq, Eq, Hash, Structural)]
pub struct ModifierKeysMask {
    pub shift: bool,
    pub ctrl: bool,
    pub alt: bool,
}

/// A key, pressed alone or with modifier keys.
#[derive(Clone, Copy, Debug, PartialEq, Eq, Hash, Structural)]
pub enum KeyPress {
    Plain { key: Key },
    WithModifiers { key: Key, mask: ModifierKeysMask },
}

/// What the mouse did.
#[derive(Clone, Copy, Debug, PartialEq, Eq, Hash, Structural)]
pub enum MouseInputKind {
    MouseDown,
    MouseUp,
    MouseMove,
    MouseDrag,
    ScrollUp,
    ScrollDown,
}

/// What the mouse did, and where.
#[derive(Clone, Copy, Debug, PartialEq, Eq, Hash, Structural)]
pub struct MouseInput {
    pub pos: Position,
    pub kind: MouseInputKind,
}

/// Whether the terminal gained or lost the focus.
#[derive(Clone, Copy, Debug, PartialEq, Eq, Hash, Structural)]
pub enum FocusEvent {
    Gained,
    Lost,
}

/// One report of the terminal.
#[derive(Clone, Copy, Debug, PartialEq, Eq, Hash, Structural)]
pub enum InputEvent {
    Keyboard(KeyPress),
    Resize(Size),
    Mouse(MouseInput),
    Focus(FocusEvent),
}

} // verus!
