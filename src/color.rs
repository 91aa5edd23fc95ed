use vstd::prelude::*;

verus! {

/// The colour written into the name-display record, or `Default` to leave
/// the record as the game filled it.
#[derive(Debug, Clone, Copy, PartialEq, Eq, Structural)]
pub enum Color {
    Default,
    White,
    Green,
    Orange,
    Blue,
    Purple,
    Yellow,
}

/// The byte that stands for a colour in the game's record; `-1` marks the
/// sentinel, which is never written.
pub open spec fn code_of(c: Color) -> int {
    match c {
        Color::Default => -1,
        Color::White => 0,
        Color::Green => 1,
        Color::Orange => 2,
        Color::Blue => 3,
        Color::Purple => 4,
        Color::Yellow => 5,
    }
}

/// The colour whose code is `i`, if `i` is the code of a real colour.
pub open spec fn color_for_code(i: int) -> Option<Color> {
    if i == 0 {
        Some(Color::White)
    } else if i == 1 {
        Some(Color::Green)
    } else if i == 2 {
        Some(Color::Orange)
    } else if i == 3 {
        Some(Color::Blue)
    } else if i == 4 {
        Some(Color::Purple)
    } else if i == 5 {
        Some(Color::Yellow)
    } else {
        None
    }
}

impl Default for Color {
    /// The sentinel: no change.
    fn default() -> (r: Color)
        ensures
            r == Color::Default,
    {
        Color::Default
    }
}

impl Color {
    /// The real colour with code `i`; `None` for every other integer,
    /// the sentinel's `-1` among them.
    pub fn from_i32(i: i32) -> (r: Option<Color>)
        ensures
            r == color_for_code(i as int),
            r matches Some(c) ==> c != Color::Default && code_of(c) == i,
    {
        match i {
            0 => Some(Color::White),
            1 => Some(Color::Green),
            2 => Some(Color::Orange),
            3 => Some(Color::Blue),
            4 => Some(Color::Purple),
            5 => Some(Color::Yellow),
            _ => None,
        }
    }

    /// The byte that stands for this colour.
    pub fn code(self) -> (r: i8)
        ensures
            r == code_of(self),
    {
        match self {
            Color::Default => -1,
            Color::White => 0,
            Color::Green => 1,
            Color::Orange => 2,
            Color::Blue => 3,
            Color::Purple => 4,
            Color::Yellow => 5,
        }
    }

    /// Whether this is the sentinel that asks for no change.
    pub fn is_default(self) -> (r: bool)
        ensures
            r == (self == Color::Default),
    {
        match self {
            Color::Default => true,
            _ => false,
        }
    }
}

} // verus!
