//! The events the terminal delivers, and what the event loop is told to do
//! after each.

use vstd::prelude::*;

verus! {

/// What the event loop does after one event has been handled.
#[derive(Clone, Copy, Debug, PartialEq, Eq, Structural)]
pub enum EventAction {
    NeedReDraw,
    NoNeedReDraw,
    Exit,
}

/// The key that was pressed.
#[derive(Clone, Copy, Debug, PartialEq, Eq, Structural)]
pub enum KeyCode {
    Backspace,
    Enter,
    Up,
    Down,
    Esc,
    Char(char),
    /// Any key the browser has no use for.
    Other,
}

/// The modifier keys held down with a key.
#[derive(Clone, Copy, Debug, PartialEq, Eq, Structural)]
pub struct KeyModifiers {
    pub shift: bool,
    pub control: bool,
    pub alt: bool,
}

impl KeyModifiers {
    /// No modifier.
    pub open spec fn none() -> KeyModifiers {
        KeyModifiers { shift: false, control: false, alt: false }
    }

    /// Shift alone.
    pub open spec fn only_shift() -> KeyModifiers {
        KeyModifiers { shift: true, control: false, alt: false }
    }

    /// Control alone.
    pub open spec fn only_control() -> KeyModifiers {
        KeyModifiers { shift: false, control: true, alt: false }
    }

    /// Whether no modifier is held.
    pub fn is_none(&self) -> (none: bool)
        ensures
            none == (*self == Self::none()),
    {
        !self.shift && !self.control && !self.alt
    }

    /// Whether shift is held and nothing else.
    pub fn is_shift(&self) -> (shift: bool)
        ensures
            shift == (*self == Self::only_shift()),
    {
        self.shift && !self.control && !self.alt
    }

    /// Whether control is held and nothing else.
    pub fn is_control(&self) -> (control: bool)
        ensures
            control == (*self == Self::only_control()),
    {
        !self.shift && self.control && !self.alt
    }
}

/// One press of a key.
#[derive(Clone, Copy, Debug, PartialEq, Eq, Structural)]
pub struct KeyEvent {
    pub code: KeyCode,
    pub modifiers: KeyModifiers,
}

/// What the terminal reports.
#[derive(Clone, Copy, Debug, PartialEq, Eq, Structural)]
pub enum TerminalEvent {
    Key(KeyEvent),
    Resize(u16, u16),
    /// Anything else, such as the mouse.
    Other,
}

/// What reaches the controller from the terminal side: an event, or the
/// tick that comes when none has come for a while.
#[derive(Clone, Copy, Debug, PartialEq, Eq, Structural)]
pub enum FrontendEvent {
    Tick,
    TerminalEvent(TerminalEvent),
}

} // verus!
