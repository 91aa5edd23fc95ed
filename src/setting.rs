use vstd::prelude::*;

use crate::color::{color_for_code, Color};
use crate::text::{
    eq_ignoring_ascii_case, i32_value, parse_i32, same_ignoring_ascii_case, trim_text, trimmed,
};

verus! {

/// The name by which the setting may spell a colour.
pub open spec fn name_of(c: Color) -> Seq<char> {
    match c {
        Color::Default => seq!['d', 'e', 'f', 'a', 'u', 'l', 't'],
        Color::White => seq!['w', 'h', 'i', 't', 'e'],
        Color::Green => seq!['g', 'r', 'e', 'e', 'n'],
        Color::Orange => seq!['o', 'r', 'a', 'n', 'g', 'e'],
        Color::Blue => seq!['b', 'l', 'u', 'e'],
        Color::Purple => seq!['p', 'u', 'r', 'p', 'l', 'e'],
        Color::Yellow => seq!['y', 'e', 'l', 'l', 'o', 'w'],
    }
}

/// The colour that `s` names, in any case of its letters.
pub open spec fn color_named(s: Seq<char>) -> Option<Color> {
    if eq_ignoring_ascii_case(s, name_of(Color::Default)) {
        Some(Color::Default)
    } else if eq_ignoring_ascii_case(s, name_of(Color::White)) {
        Some(Color::White)
    } else if eq_ignoring_ascii_case(s, name_of(Color::Green)) {
        Some(Color::Green)
    } else if eq_ignoring_ascii_case(s, name_of(Color::Orange)) {
        Some(Color::Orange)
    } else if eq_ignoring_ascii_case(s, name_of(Color::Blue)) {
        Some(Color::Blue)
    } else if eq_ignoring_ascii_case(s, name_of(Color::Purple)) {
        Some(Color::Purple)
    } else if eq_ignoring_ascii_case(s, name_of(Color::Yellow)) {
        Some(Color::Yellow)
    } else {
        None
    }
}

/// The colour that a setting selects: read as an integer first, then as a
/// name; whatever is neither a real colour's code nor a name selects the
/// sentinel.
pub open spec fn color_of_setting(s: Seq<char>) -> Color {
    match i32_value(s) {
        Some(n) => match color_for_code(n as int) {
            Some(c) => c,
            None => Color::Default,
        },
        None => match color_named(s) {
            Some(c) => c,
            None => Color::Default,
        },
    }
}

/// The colour that the text of a configuration file selects.
pub open spec fn color_of_config(text: Seq<char>) -> Color {
    color_of_setting(trimmed(text))
}

impl Color {
    /// The name of this colour.
    pub fn name(self) -> (r: &'static str)
        ensures
            r@ == name_of(self),
    {
        proof {
            reveal_strlit("default");
            reveal_strlit("white");
            reveal_strlit("green");
            reveal_strlit("orange");
            reveal_strlit("blue");
            reveal_strlit("purple");
            reveal_strlit("yellow");
        }
        match self {
            Color::Default => "default",
            Color::White => "white",
            Color::Green => "green",
            Color::Orange => "orange",
            Color::Blue => "blue",
            Color::Purple => "purple",
            Color::Yellow => "yellow",
        }
    }

    /// The colour that `s` names, ignoring the case of ASCII letters.
    pub fn from_name(s: &str) -> (r: Option<Color>)
        ensures
            r == color_named(s@),
    {
        if same_ignoring_ascii_case(s, Color::Default.name()) {
            Some(Color::Default)
        } else if same_ignoring_ascii_case(s, Color::White.name()) {
            Some(Color::White)
        } else if same_ignoring_ascii_case(s, Color::Green.name()) {
            Some(Color::Green)
        } else if same_ignoring_ascii_case(s, Color::Orange.name()) {
            Some(Color::Orange)
        } else if same_ignoring_ascii_case(s, Color::Blue.name()) {
            Some(Color::Blue)
        } else if same_ignoring_ascii_case(s, Color::Purple.name()) {
            Some(Color::Purple)
        } else if same_ignoring_ascii_case(s, Color::Yellow.name()) {
            Some(Color::Yellow)
        } else {
            None
        }
    }

    /// The colour that the setting `s` selects, with no trimming.
    pub fn from_setting(s: &str) -> (r: Color)
        ensures
            r == color_of_setting(s@),
    {
        match parse_i32(s) {
            Some(n) => match Color::from_i32(n) {
                Some(c) => c,
                None => Color::Default,
            },
            None => match Color::from_name(s) {
                Some(c) => c,
                None => Color::Default,
            },
        }
    }

    /// The colour that the text of a configuration file selects: its
    /// trimmed content read as a setting.
    pub fn from_config_text(text: &str) -> (r: Color)
        ensures
            r == color_of_config(text@),
    {
        Color::from_setting(trim_text(text))
    }
}

} // verus!
