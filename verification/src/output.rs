//! The output stage: shaping a finished frame for the WS2812 driver.
//!
//! The main panel gets gamma correction; the auxiliary status strip gets
//! gamma correction followed by a fixed low brightness. Both mappings
//! come from the `smart_leds` crate and run per channel; the renderer's
//! two colors — black and full white — are fixed points of the gamma
//! table, so a rendered frame passes through correction unchanged.

use vstd::prelude::*;
use crate::color::Rgb;
use crate::color::spec_off;
use crate::color::spec_on;
use crate::color::off;
use crate::color::on;

verus! {

/// The value the gamma correction table assigns to one channel value.
pub uninterp spec fn gamma_channel(c: u8) -> u8;

/// One channel scaled to brightness `level`: `c * (level + 1) / 256`.
pub open spec fn scale_channel(c: u8, level: u8) -> u8 {
    ((c * (level + 1)) / 256) as u8
}

/// Relies on smart_leds::gamma: every channel of every pixel is mapped
/// through one fixed 256-entry correction table, whose first entry is 0
/// and whose last entry is 255.
#[verifier::external_body]
fn gamma_pixels(data: &Vec<Rgb>) -> (r: Vec<Rgb>)
    ensures
        r@.len() == data@.len(),
        forall|i: int|
            0 <= i < data@.len() ==> (#[trigger] r@[i]).r == gamma_channel(data@[i].r) && r@[i].g
                == gamma_channel(data@[i].g) && r@[i].b == gamma_channel(data@[i].b),
        forall|i: int| 0 <= i < data@.len() && data@[i] == spec_off() ==> r@[i] == spec_off(),
        forall|i: int| 0 <= i < data@.len() && data@[i] == spec_on() ==> r@[i] == spec_on(),
{
    smart_leds::gamma(data.iter().map(|c| smart_leds::RGB8 { r: c.r, g: c.g, b: c.b })).map(
        |c: smart_leds::RGB8| Rgb { r: c.r, g: c.g, b: c.b },
    ).collect()
}

/// Relies on smart_leds::brightness: every channel `c` of every pixel
/// becomes `c * (level + 1) / 256`.
#[verifier::external_body]
fn brightness_pixels(data: &Vec<Rgb>, level: u8) -> (r: Vec<Rgb>)
    ensures
        r@.len() == data@.len(),
        forall|i: int|
            0 <= i < data@.len() ==> (#[trigger] r@[i]).r == scale_channel(data@[i].r, level)
                && r@[i].g == scale_channel(data@[i].g, level) && r@[i].b == scale_channel(
                data@[i].b,
                level,
            ),
{
    smart_leds::brightness(
        data.iter().map(|c| smart_leds::RGB8 { r: c.r, g: c.g, b: c.b }),
        level,
    ).map(|c: smart_leds::RGB8| Rgb { r: c.r, g: c.g, b: c.b }).collect()
}

/// Gamma-corrects a strip of pixels for the WS2812 driver.
///
/// A strip holding only the renderer's two colors — full white and
/// black — comes back unchanged.
pub fn gamma_correct(data: &Vec<Rgb>) -> (out: Vec<Rgb>)
    ensures
        out@.len() == data@.len(),
        forall|i: int|
            0 <= i < data@.len() ==> (#[trigger] out@[i]).r == gamma_channel(data@[i].r) && out@[i].g
                == gamma_channel(data@[i].g) && out@[i].b == gamma_channel(data@[i].b),
        (forall|i: int| 0 <= i < data@.len() ==> data@[i] == spec_on() || data@[i] == spec_off())
            ==> out@ == data@,
{
    let out = gamma_pixels(data);
    proof {
        if forall|i: int| 0 <= i < data@.len() ==> data@[i] == spec_on() || data@[i] == spec_off() {
            assert(out@ =~= data@);
        }
    }
    out
}

/// Prepares the auxiliary status strip for the driver: gamma
/// correction, then reduction to brightness `level`.
pub fn prepare_status(data: &Vec<Rgb>, level: u8) -> (out: Vec<Rgb>)
    ensures
        out@.len() == data@.len(),
        forall|i: int|
            0 <= i < data@.len() ==> (#[trigger] out@[i]).r == scale_channel(
                gamma_channel(data@[i].r),
                level,
            ) && out@[i].g == scale_channel(gamma_channel(data@[i].g), level) && out@[i].b
                == scale_channel(gamma_channel(data@[i].b), level),
{
    let corrected = gamma_pixels(data);
    brightness_pixels(&corrected, level)
}

/// Builds the status strip pattern: the first `count` of its three
/// pixels lit, the rest dark.
pub fn status_frame(count: usize) -> (v: Vec<Rgb>)
    requires
        count <= 3,
    ensures
        v@.len() == 3,
        forall|i: int|
            0 <= i < 3 ==> v@[i] == (if i < count {
                spec_on()
            } else {
                spec_off()
            }),
{
    let mut v: Vec<Rgb> = Vec::new();
    let mut k: usize = 0;
    while k < 3
        invariant
            k <= 3,
            v@.len() == k,
            forall|i: int|
                0 <= i < k ==> v@[i] == (if i < count {
                    spec_on()
                } else {
                    spec_off()
                }),
        decreases 3 - k,
    {
        if k < count {
            let lit = on();
            v.push(lit);
        } else {
            let dark = off();
            v.push(dark);
        }
        k = k + 1;
    }
    v
}

} // verus!
