//! The input events that a window reports.
use crate::flags::{KeyModifiers, MouseButtons};
use crate::small_string::optional_text;
use smol_str::SmolStr;
use vstd::prelude::*;

verus! {

/// What the mouse did.
#[derive(Clone, Copy, Debug, PartialEq, Eq, Structural)]
pub enum MouseAction {
    Enter,
    Exit,
    Down,
    Up,
    Move,
    Scroll,
}

/// How far a wheel was turned.
///
/// The distance in pixels along an axis is `-(units / 120) * (lines * 100 / 3)`, with the
/// units of that axis.
#[derive(Clone, Copy, Debug, PartialEq, Eq, Structural)]
pub struct Scroll {
    /// Wheel units to the right.
    pub units_x: i16,
    /// Wheel units away from the user.
    pub units_y: i16,
    /// The number of lines that the user wants a notch to scroll.
    pub lines: u32,
}

/// An event of the mouse, in client coordinates of the window.
#[derive(Clone, Copy, Debug, PartialEq, Eq, Structural)]
pub struct MouseEvent {
    pub action: MouseAction,
    pub x: i32,
    pub y: i32,
    pub buttons: MouseButtons,
    /// Present exactly on scroll events.
    pub scroll: Option<Scroll>,
}

/// What a finger did.
#[derive(Clone, Copy, Debug, PartialEq, Eq, Structural)]
pub enum TouchAction {
    Down,
    Up,
    Move,
}

/// An event of one touch point. The coordinates are whole pixels of the screen, not yet
/// those of the window.
#[derive(Clone, Copy, Debug, PartialEq, Eq, Structural)]
pub struct TouchEvent {
    pub action: TouchAction,
    pub touch_id: u32,
    pub x: i32,
    pub y: i32,
}

/// What a key did.
#[derive(Clone, Copy, Debug, PartialEq, Eq, Structural)]
pub enum KeyAction {
    Up,
    Down,
    Repeat,
}

/// An event of a key.
#[derive(Clone, Debug)]
pub struct KeyEvent {
    pub action: KeyAction,
    pub logical: Option<u64>,
    pub physical: Option<u64>,
    pub character: Option<SmolStr>,
    pub modifiers: KeyModifiers,
}

/// A key event with its text as a sequence of characters.
pub struct KeyEventView {
    pub action: KeyAction,
    pub logical: Option<u64>,
    pub physical: Option<u64>,
    pub character: Option<Seq<char>>,
    pub modifiers: KeyModifiers,
}

impl View for KeyEvent {
    type V = KeyEventView;

    open spec fn view(&self) -> KeyEventView {
        KeyEventView {
            action: self.action,
            logical: self.logical,
            physical: self.physical,
            character: optional_text(self.character),
            modifiers: self.modifiers,
        }
    }
}

/// Whether a key or a button is held.
#[derive(Clone, Copy, Debug, PartialEq, Eq, Structural)]
pub enum ElementState {
    Pressed,
    Released,
}

/// The keys without text that the embedder tells apart.
#[derive(Clone, Copy, Debug, PartialEq, Eq, Structural)]
pub enum NamedKey {
    Space,
    Enter,
    CapsLock,
    NumLock,
    ScrollLock,
    /// Any other key that has a name.
    Other,
}

/// The meaning of a key under the layout of the user.
#[derive(Clone, Debug)]
pub enum Key {
    Named(NamedKey),
    /// A key that produces this text.
    Character(SmolStr),
    Unidentified,
    Dead,
}

/// A [`Key`] with its text as a sequence of characters.
pub enum KeyView {
    Named(NamedKey),
    Character(Seq<char>),
    Unidentified,
    Dead,
}

impl View for Key {
    type V = KeyView;

    open spec fn view(&self) -> KeyView {
        match self {
            Key::Named(name) => KeyView::Named(*name),
            Key::Character(text) => KeyView::Character(crate::small_string::smol_str_text(*text)),
            Key::Unidentified => KeyView::Unidentified,
            Key::Dead => KeyView::Dead,
        }
    }
}

} // verus!
