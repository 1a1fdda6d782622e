//! Mouse input events as the library describes them.

use vstd::prelude::*;

verus! {

/// A decoded mouse event.
#[derive(Debug, Clone)]
pub struct MouseEvent {
    pub timestamp_us: u64,
    pub kind: MouseEventKind,
    pub raw_type: u16,
    pub raw_code: u16,
    pub raw_value: i32,
}

/// What a mouse event is.
#[derive(Debug, Clone, PartialEq, Eq)]
pub enum MouseEventKind {
    Button(ButtonEvent),
    Movement { axis: Axis, delta: i32 },
    Scroll { axis: ScrollAxis, delta: i32 },
    Sync,
    Unknown,
}

/// A button press or release.
#[derive(Debug, Clone, Copy, PartialEq, Eq, Structural)]
pub struct ButtonEvent {
    pub button: ButtonCode,
    pub pressed: bool,
}

/// A mouse button by its kernel key code.
#[derive(Debug, Clone, Copy, PartialEq, Eq, Structural)]
pub enum ButtonCode {
    Left,
    Right,
    Middle,
    SideBack,
    SideForward,
    Other(u16),
}

impl ButtonCode {
    pub open spec fn spec_from_raw(code: u16) -> ButtonCode {
        if code == 0x110 {
            ButtonCode::Left
        } else if code == 0x111 {
            ButtonCode::Right
        } else if code == 0x112 {
            ButtonCode::Middle
        } else if code == 0x113 {
            ButtonCode::SideBack
        } else if code == 0x114 {
            ButtonCode::SideForward
        } else {
            ButtonCode::Other(code)
        }
    }

    /// The button of a kernel key code (`BTN_LEFT` 0x110 to `BTN_EXTRA` 0x114).
    pub fn from_raw(code: u16) -> (r: ButtonCode)
        ensures
            r == Self::spec_from_raw(code),
    {
        match code {
            0x110 => ButtonCode::Left,
            0x111 => ButtonCode::Right,
            0x112 => ButtonCode::Middle,
            0x113 => ButtonCode::SideBack,
            0x114 => ButtonCode::SideForward,
            other => ButtonCode::Other(other),
        }
    }

    pub open spec fn spec_name(self) -> Seq<char> {
        match self {
            ButtonCode::Left => "Left Click"@,
            ButtonCode::Right => "Right Click"@,
            ButtonCode::Middle => "Middle Click / Scroll Press"@,
            ButtonCode::SideBack => "Side Back (BTN_SIDE)"@,
            ButtonCode::SideForward => "Side Forward (BTN_EXTRA)"@,
            ButtonCode::Other(_) => "Unknown Button"@,
        }
    }

    /// The button's name.
    pub fn name(&self) -> (r: &'static str)
        ensures
            r@ == self.spec_name(),
    {
        match self {
            ButtonCode::Left => "Left Click",
            ButtonCode::Right => "Right Click",
            ButtonCode::Middle => "Middle Click / Scroll Press",
            ButtonCode::SideBack => "Side Back (BTN_SIDE)",
            ButtonCode::SideForward => "Side Forward (BTN_EXTRA)",
            ButtonCode::Other(_) => "Unknown Button",
        }
    }
}

/// A movement axis.
#[derive(Debug, Clone, Copy, PartialEq, Eq, Structural)]
pub enum Axis {
    X,
    Y,
}

/// A scroll axis.
#[derive(Debug, Clone, Copy, PartialEq, Eq, Structural)]
pub enum ScrollAxis {
    Vertical,
    Horizontal,
}

} // verus!
