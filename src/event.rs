//! Raw input events as plain values, as delivered by the windowing toolkit.

use vstd::prelude::*;

verus! {

/// Bit of the key modifier mask set by the left shift key.
pub const LSHIFT_MOD: u16 = 0x0001;

/// Bit of the key modifier mask set by the right shift key.
pub const RSHIFT_MOD: u16 = 0x0002;

/// The keys whose key-down events carry a meaning of their own.
#[derive(Clone, Copy, Debug, PartialEq, Eq, Structural)]
pub enum Key {
    Delete,
    F11,
    Escape,
    PageUp,
    PageDown,
    Home,
    End,
    Period,
    Right,
    Left,
    Up,
    Down,
    Backspace,
    /// Any key not listed above
    Other,
}

/// Changes to the window reported by the toolkit.
#[derive(Clone, Copy, Debug, PartialEq, Eq, Structural)]
pub enum WindowChange {
    Exposed,
    Resized(i32, i32),
    SizeChanged(i32, i32),
    Maximized,
    /// Any other window event
    Other,
}

/// Mouse buttons.
#[derive(Clone, Copy, Debug, PartialEq, Eq, Structural)]
pub enum Button {
    Left,
    /// Any other button
    Other,
}

/// An input event.
#[derive(Clone, Debug)]
pub enum InputEvent {
    /// The window was asked to close
    Quit,
    /// Text was typed
    TextInput { text: String },
    /// A key was pressed; `keymod` is the modifier mask at that moment
    KeyDown { keycode: Option<Key>, keymod: u16 },
    /// The window changed
    Window { win_event: WindowChange },
    /// A mouse button was released
    MouseButtonUp { mouse_btn: Button },
    /// Any other event
    Other,
}

} // verus!
