//! RGB pixel values for the LED string.
//!
//! The renderer emits only two colors: full white for a lit letter and
//! black for a dark one. Any gamma or brightness shaping happens later,
//! in the output stage.

use vstd::prelude::*;

verus! {

/// One RGB pixel of the LED string.
#[derive(Clone, Copy, Debug, PartialEq, Eq, Structural)]
pub struct Rgb {
    /// Red channel.
    pub r: u8,
    /// Green channel.
    pub g: u8,
    /// Blue channel.
    pub b: u8,
}

/// The color of a lit pixel: full white.
pub open spec fn spec_on() -> Rgb {
    Rgb { r: 255, g: 255, b: 255 }
}

/// The color of a dark pixel: black.
pub open spec fn spec_off() -> Rgb {
    Rgb { r: 0, g: 0, b: 0 }
}

/// Builds the lit color.
pub fn on() -> (c: Rgb)
    ensures
        c == spec_on(),
{
    Rgb { r: 255, g: 255, b: 255 }
}

/// Builds the dark color.
pub fn off() -> (c: Rgb)
    ensures
        c == spec_off(),
{
    Rgb { r: 0, g: 0, b: 0 }
}

} // verus!
