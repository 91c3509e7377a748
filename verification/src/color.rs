use vstd::prelude::*;

use crate::error::ReportError;
use crate::text::str_eq;

verus! {

/// An immutable terminal color: a named palette entry, an 8-bit indexed
/// color, or an RGB triple. Equality and hashing are structural.
#[derive(Clone, Copy, Debug, PartialEq, Eq, Hash)]
pub enum Color {
    Primary,
    Fixed(u8),
    Rgb(u8, u8, u8),
    Black,
    Red,
    Green,
    Yellow,
    Blue,
    Magenta,
    Cyan,
    White,
    BrightBlack,
    BrightRed,
    BrightGreen,
    BrightYellow,
    BrightBlue,
    BrightMagenta,
    BrightCyan,
    BrightWhite,
}

/// The named palette entry that a boundary name denotes, if any.
pub open spec fn color_of_name(s: Seq<char>) -> Option<Color> {
    if s == "primary"@ {
        Some(Color::Primary)
    } else if s == "black"@ {
        Some(Color::Black)
    } else if s == "white"@ {
        Some(Color::White)
    } else if s == "red"@ {
        Some(Color::Red)
    } else if s == "green"@ {
        Some(Color::Green)
    } else if s == "blue"@ {
        Some(Color::Blue)
    } else if s == "yellow"@ {
        Some(Color::Yellow)
    } else if s == "cyan"@ {
        Some(Color::Cyan)
    } else if s == "magenta"@ {
        Some(Color::Magenta)
    } else if s == "bright-black"@ {
        Some(Color::BrightBlack)
    } else if s == "bright-white"@ {
        Some(Color::BrightWhite)
    } else if s == "bright-red"@ {
        Some(Color::BrightRed)
    } else if s == "bright-green"@ {
        Some(Color::BrightGreen)
    } else if s == "bright-blue"@ {
        Some(Color::BrightBlue)
    } else if s == "bright-yellow"@ {
        Some(Color::BrightYellow)
    } else if s == "bright-cyan"@ {
        Some(Color::BrightCyan)
    } else if s == "bright-magenta"@ {
        Some(Color::BrightMagenta)
    } else {
        None
    }
}

impl Color {
    /// Parses a color name; any name outside the fixed palette set is
    /// rejected with `InvalidColorSpec`.
    pub fn new_str(name: &str) -> (r: Result<Color, ReportError>)
        ensures
            match color_of_name(name@) {
                Some(c) => r == Ok::<Color, ReportError>(c),
                None => r == Err::<Color, ReportError>(ReportError::InvalidColorSpec),
            },
    {
        if str_eq(name, "primary") {
            Ok(Color::Primary)
        } else if str_eq(name, "black") {
            Ok(Color::Black)
        } else if str_eq(name, "white") {
            Ok(Color::White)
        } else if str_eq(name, "red") {
            Ok(Color::Red)
        } else if str_eq(name, "green") {
            Ok(Color::Green)
        } else if str_eq(name, "blue") {
            Ok(Color::Blue)
        } else if str_eq(name, "yellow") {
            Ok(Color::Yellow)
        } else if str_eq(name, "cyan") {
            Ok(Color::Cyan)
        } else if str_eq(name, "magenta") {
            Ok(Color::Magenta)
        } else if str_eq(name, "bright-black") {
            Ok(Color::BrightBlack)
        } else if str_eq(name, "bright-white") {
            Ok(Color::BrightWhite)
        } else if str_eq(name, "bright-red") {
            Ok(Color::BrightRed)
        } else if str_eq(name, "bright-green") {
            Ok(Color::BrightGreen)
        } else if str_eq(name, "bright-blue") {
            Ok(Color::BrightBlue)
        } else if str_eq(name, "bright-yellow") {
            Ok(Color::BrightYellow)
        } else if str_eq(name, "bright-cyan") {
            Ok(Color::BrightCyan)
        } else if str_eq(name, "bright-magenta") {
            Ok(Color::BrightMagenta)
        } else {
            Err(ReportError::InvalidColorSpec)
        }
    }

    /// An 8-bit indexed color for 256-color terminals.
    pub fn new_fixed(id: u8) -> (r: Color)
        ensures
            r == Color::Fixed(id),
    {
        Color::Fixed(id)
    }

    /// A 24-bit RGB color.
    pub fn rgb(r: u8, g: u8, b: u8) -> (c: Color)
        ensures
            c == Color::Rgb(r, g, b),
    {
        Color::Rgb(r, g, b)
    }
}

} // verus!
