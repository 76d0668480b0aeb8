//! What the terminal reports, and what the window is told in answer.

use vstd::prelude::*;

use crate::geometry::{CellSpan, Position};
use crate::keys::KeyCode;
use crate::modifiers::KeyModifiers;

verus! {

/// What happened to a key.
#[derive(Clone, Copy, PartialEq, Eq, Debug, Structural)]
pub enum KeyEventKind {
    /// The key went down.
    Press,
    /// The key is held down and repeats.
    Repeat,
    /// The key went up.
    Release,
}

/// A key event of the terminal.
#[derive(Clone, Copy, PartialEq, Eq, Debug, Structural)]
pub struct KeyEvent {
    /// Which key.
    pub code: KeyCode,
    /// The modifiers held meanwhile.
    pub modifiers: KeyModifiers,
    /// What happened to the key.
    pub kind: KeyEventKind,
}

/// A mouse button as the terminal names it.
#[derive(Clone, Copy, PartialEq, Eq, Debug, Structural)]
pub enum MouseButton {
    /// Left mouse button.
    Left,
    /// Right mouse button.
    Right,
    /// Middle mouse button.
    Middle,
}

/// What happened to the mouse.
#[derive(Clone, Copy, PartialEq, Eq, Debug, Structural)]
pub enum MouseEventKind {
    /// A button went down.
    Down(MouseButton),
    /// A button went up.
    Up(MouseButton),
    /// The mouse moved while a button was down.
    Drag(MouseButton),
    /// The mouse moved with no button down.
    Moved,
    /// The wheel turned towards the user.
    ScrollDown,
    /// The wheel turned away from the user.
    ScrollUp,
    /// The wheel turned left.
    ScrollLeft,
    /// The wheel turned right.
    ScrollRight,
}

/// A mouse event of the terminal.
#[derive(Clone, Copy, PartialEq, Eq, Debug, Structural)]
pub struct MouseEvent {
    /// What happened.
    pub kind: MouseEventKind,
    /// Column of the cell that the mouse is in.
    pub column: u16,
    /// Row of the cell that the mouse is in.
    pub row: u16,
    /// The modifiers held meanwhile.
    pub modifiers: KeyModifiers,
}

/// An event of the terminal.
#[derive(PartialEq, Eq, Debug)]
pub enum Event {
    /// The terminal gained focus.
    FocusGained,
    /// The terminal lost focus.
    FocusLost,
    /// A key event.
    Key(KeyEvent),
    /// A mouse event.
    Mouse(MouseEvent),
    /// Text was pasted into the terminal.
    Paste(String),
    /// The terminal has a new size, in columns and rows.
    Resize(u16, u16),
}

/// A pointer button as the window knows it.
#[derive(Clone, Copy, PartialEq, Eq, Debug, Structural)]
pub enum PointerButton {
    /// Left button.
    Left,
    /// Right button.
    Right,
    /// Middle button.
    Middle,
}

/// An event for the window. The text of a key event is always a single character.
#[derive(Clone, Copy, PartialEq, Eq, Debug, Structural)]
pub enum WindowEvent {
    /// A button was pressed.
    PointerPressed {
        /// Where.
        position: Position,
        /// Which button.
        button: PointerButton,
    },
    /// A button was released.
    PointerReleased {
        /// Where.
        position: Position,
        /// Which button.
        button: PointerButton,
    },
    /// The pointer moved.
    PointerMoved {
        /// Where to.
        position: Position,
    },
    /// The wheel was turned.
    PointerScrolled {
        /// Where.
        position: Position,
        /// How far horizontally.
        delta_x: CellSpan,
        /// How far vertically.
        delta_y: CellSpan,
    },
    /// A key was pressed.
    KeyPressed {
        /// The character that stands for the key.
        text: char,
    },
    /// A key press repeats.
    KeyPressRepeated {
        /// The character that stands for the key.
        text: char,
    },
    /// A key was released.
    KeyReleased {
        /// The character that stands for the key.
        text: char,
    },
    /// The window gained or lost focus.
    WindowActiveChanged(bool),
}

/// The pointer button that a mouse button stands for.
pub open spec fn button_of(button: MouseButton) -> PointerButton {
    match button {
        MouseButton::Left => PointerButton::Left,
        MouseButton::Right => PointerButton::Right,
        MouseButton::Middle => PointerButton::Middle,
    }
}

/// Returns the pointer button that a mouse button stands for.
pub fn map_button(button: MouseButton) -> (mapped: PointerButton)
    ensures
        mapped == button_of(button),
        button is Left <==> mapped is Left,
        button is Right <==> mapped is Right,
        button is Middle <==> mapped is Middle,
{
    match button {
        MouseButton::Left => PointerButton::Left,
        MouseButton::Right => PointerButton::Right,
        MouseButton::Middle => PointerButton::Middle,
    }
}

/// A mouse button stands for the pointer button of the same name, and for no other.
pub proof fn buttons_keep_their_names(button: MouseButton)
    ensures
        button is Left <==> button_of(button) is Left,
        button is Right <==> button_of(button) is Right,
        button is Middle <==> button_of(button) is Middle,
{
}

} // verus!
