//! RGB colors used by the frame compositor.

use vstd::prelude::*;

verus! {

/// An opaque 8-bit-per-channel RGB color.
#[derive(Clone, Copy, Debug, PartialEq, Eq, Structural)]
pub struct Color {
    pub r: u8,
    pub g: u8,
    pub b: u8,
}

impl Color {
    pub fn new(r: u8, g: u8, b: u8) -> (c: Color)
        ensures
            c == (Color { r, g, b }),
    {
        Color { r, g, b }
    }
}

/// The background color given to sight-blocking cells.
pub open spec fn dark_wall_colour() -> Color {
    Color { r: 0, g: 0, b: 100 }
}

/// The background color given to cells that do not block sight.
pub open spec fn dark_ground_colour() -> Color {
    Color { r: 50, g: 50, b: 150 }
}

/// Executable counterpart of `dark_wall_colour`.
pub fn colour_dark_wall() -> (c: Color)
    ensures
        c == dark_wall_colour(),
{
    Color { r: 0, g: 0, b: 100 }
}

/// Executable counterpart of `dark_ground_colour`.
pub fn colour_dark_ground() -> (c: Color)
    ensures
        c == dark_ground_colour(),
{
    Color { r: 50, g: 50, b: 150 }
}

} // verus!
