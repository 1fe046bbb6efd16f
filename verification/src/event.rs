//! What the viewer reads of an input event.
//!
//! The host turns each event of its event source into one of these values.

use vstd::prelude::*;

verus! {

/// The key of a key event, as far as the viewer tells keys apart.
#[derive(Clone, Copy, Debug, PartialEq, Eq, Structural)]
pub enum KeyCode {
    /// A key that gives a character.
    Char(char),
    Up,
    Down,
    Left,
    Right,
    Home,
    End,
    PageUp,
    PageDown,
    /// Any other key.
    Other,
}

/// The modifier keys held down with a key.
#[derive(Clone, Copy, Debug, PartialEq, Eq, Structural)]
pub struct KeyModifiers {
    pub shift: bool,
    pub control: bool,
    pub alt: bool,
    pub super_key: bool,
    pub hyper: bool,
    pub meta: bool,
}

impl KeyModifiers {
    /// Whether the control key is held down and no other modifier is.
    pub open spec fn only_control(self) -> bool {
        self.control && !self.shift && !self.alt && !self.super_key && !self.hyper && !self.meta
    }

    /// No modifier.
    pub fn none() -> (modifiers: Self)
        ensures
            modifiers == (KeyModifiers {
                shift: false,
                control: false,
                alt: false,
                super_key: false,
                hyper: false,
                meta: false,
            }),
    {
        Self { shift: false, control: false, alt: false, super_key: false, hyper: false, meta: false }
    }

    /// The control key alone.
    pub fn control() -> (modifiers: Self)
        ensures
            modifiers == (KeyModifiers {
                shift: false,
                control: true,
                alt: false,
                super_key: false,
                hyper: false,
                meta: false,
            }),
    {
        Self { shift: false, control: true, alt: false, super_key: false, hyper: false, meta: false }
    }

    /// Whether the control key is held down and no other modifier is.
    pub fn is_only_control(&self) -> (yes: bool)
        ensures
            yes == self.only_control(),
    {
        self.control && !self.shift && !self.alt && !self.super_key && !self.hyper && !self.meta
    }
}

/// What happened to the key.
#[derive(Clone, Copy, Debug, PartialEq, Eq, Structural)]
pub enum KeyEventKind {
    Press,
    Repeat,
    Release,
}

/// A key event.
#[derive(Clone, Copy, Debug, PartialEq, Eq, Structural)]
pub struct KeyEvent {
    pub code: KeyCode,
    pub modifiers: KeyModifiers,
    pub kind: KeyEventKind,
}

/// An input event.
#[derive(Clone, Copy, Debug, PartialEq, Eq, Structural)]
pub enum Event {
    /// A key event.
    Key(KeyEvent),
    /// The terminal has a new size: its columns, then its rows.
    Resize(u16, u16),
    /// Any other event.
    Other,
}

} // verus!
