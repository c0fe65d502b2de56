use vstd::prelude::*;

verus! {

/// Mouse buttons that games react to.
#[derive(Debug, Clone, Copy, PartialEq, Eq, Structural)]
pub enum MouseButton {
    Left,
    Right,
    Middle,
}

/// Keys that games react to.
#[derive(Debug, Clone, Copy, PartialEq, Eq, Structural)]
pub enum Key {
    ArrowUp,
    ArrowDown,
    ArrowLeft,
    ArrowRight,
    Enter,
    Escape,
    Space,
}

/// Horizontal or vertical anchoring of a piece of text relative to its position.
#[derive(Debug, Clone, Copy, PartialEq, Eq, Structural)]
pub enum Align {
    Left,
    Center,
    Right,
}

pub open spec fn align_sign(a: Align) -> int {
    match a {
        Align::Left => -1,
        Align::Center => 0,
        Align::Right => 1,
    }
}

impl Align {
    /// The signed direction of the anchor: -1 for the start edge, 0 for the
    /// middle, 1 for the end edge.
    pub fn sign(self) -> (r: i8)
        ensures
            r as int == align_sign(self),
    {
        match self {
            Align::Left => -1,
            Align::Center => 0,
            Align::Right => 1,
        }
    }
}

} // verus!
