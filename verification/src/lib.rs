//! A German word clock: an 11x10 letter matrix plus four corner LEDs,
//! driven as a single serpentine WS2812 string of 114 RGB pixels.
//!
//! The library turns a time of day `(hour, minute)` into a frame buffer of
//! 114 RGB values: the letters that spell the time in words are lit, the
//! four corner LEDs show `minute mod 5`, and everything else stays dark.

use vstd::prelude::*;

pub mod color;
pub mod error;
pub mod geometry;
pub mod laws;
pub mod output;
pub mod painter;
pub mod phrase;
pub mod render;
pub mod transport;
pub mod words;

verus! {

} // verus!
