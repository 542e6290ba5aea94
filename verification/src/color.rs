//! The sixteen colors of the text-mode display.

use vstd::prelude::*;

verus! {

/// A color of the text-mode palette. The variants stand in palette order, so
/// that a variant's position is its hardware color number.
#[derive(Debug, Clone, Copy, PartialEq, Eq, Structural)]
pub enum Color {
    Black,
    Blue,
    Green,
    Cyan,
    Red,
    Magenta,
    Brown,
    LightGray,
    DarkGray,
    LightBlue,
    LightGreen,
    LightCyan,
    LightRed,
    Pink,
    Yellow,
    White,
}

} // verus!
