//! The renderer: from `(hour, minute)` to a finished frame of 114 pixels.
//!
//! A frame is fully determined by the time: the always-on prefix, the
//! minute fragments of the current five-minute window, the word of the
//! effective hour, and `minute mod 5` corner LEDs are lit; every other
//! pixel is dark. `frame_spec` states that frame pixel by pixel, and
//! `render` is proved to produce exactly it, whatever the buffer held
//! before the call.

use vstd::prelude::*;
use crate::color::Rgb;
use crate::color::spec_off;
use crate::color::spec_on;
use crate::color::off;
use crate::color::on;
use crate::error::ClockError;
use crate::geometry::covers;
use crate::geometry::digit_index;
use crate::painter::set_word;
use crate::painter::reset_wclk;
use crate::phrase::corner_lit;
use crate::phrase::corner_prefix_lit;
use crate::phrase::effective_hour;
use crate::phrase::minute_frag_lit;
use crate::phrase::spec_eff_hour;
use crate::phrase::valid_time;
use crate::words::hour_word;
use crate::words::fuenf;
use crate::words::zehn;
use crate::words::zwanzig;
use crate::words::dreiviertel;
use crate::words::viertel;
use crate::words::vor;
use crate::words::nach;
use crate::words::halb;
use crate::words::uhr;
use crate::words::spec_es;
use crate::words::spec_ist;
use crate::words::spec_hour_word;

verus! {

/// Whether a letter LED at string index `i` is lit for the given time:
/// it belongs to the prefix, to a fragment of the minute window, or to
/// the word of the effective hour.
pub open spec fn letter_lit(hour: int, minute: int, i: int) -> bool {
    covers(spec_es(), i) || covers(spec_ist(), i) || minute_frag_lit(minute, i) || covers(
        spec_hour_word(spec_eff_hour(hour, minute)),
        i,
    )
}

/// Whether the pixel at string index `i` is lit for the given time.
pub open spec fn lit(hour: int, minute: int, i: int) -> bool {
    letter_lit(hour, minute, i) || corner_lit(minute, i)
}

/// The finished frame for the given time, pixel by pixel.
pub open spec fn frame_spec(hour: int, minute: int) -> Seq<Rgb> {
    Seq::new(
        114,
        |i: int|
            if lit(hour, minute, i) {
                spec_on()
            } else {
                spec_off()
            },
    )
}

/// Allocates a dark frame buffer of the full string length.
pub fn new_frame() -> (v: Vec<Rgb>)
    ensures
        v@.len() == 114,
        forall|i: int| 0 <= i < 114 ==> v@[i] == spec_off(),
{
    let mut v: Vec<Rgb> = Vec::new();
    let mut k: usize = 0;
    while k < 114
        invariant
            k <= 114,
            v@.len() == k,
            forall|i: int| 0 <= i < k ==> v@[i] == spec_off(),
        decreases 114 - k,
    {
        let dark = off();
        v.push(dark);
        k = k + 1;
    }
    v
}

/// Renders the time into `buf`.
///
/// On success the buffer holds exactly `frame_spec(hour, minute)`: the
/// result depends on the time alone, never on what the buffer held
/// before. A time outside the clock face is rejected — the hour first —
/// and the buffer is then left as it was.
#[verifier::loop_isolation(false)]
pub fn render(buf: &mut Vec<Rgb>, hour: u8, minute: u8) -> (r: Result<(), ClockError>)
    requires
        old(buf)@.len() == 114,
    ensures
        final(buf)@.len() == 114,
        r == Ok::<(), ClockError>(()) <==> valid_time(hour as int, minute as int),
        r == Ok::<(), ClockError>(()) ==> final(buf)@ == frame_spec(hour as int, minute as int),
        !(1 <= hour <= 12) ==> r == Err::<(), ClockError>(ClockError::InvalidHour) && final(buf)@
            == old(buf)@,
        1 <= hour <= 12 && minute > 59 ==> r == Err::<(), ClockError>(ClockError::InvalidMinute)
            && final(buf)@ == old(buf)@,
{
    if hour < 1 || hour > 12 {
        return Err(ClockError::InvalidHour);
    }
    if minute > 59 {
        return Err(ClockError::InvalidMinute);
    }
    reset_wclk(buf);

    let lit_c = on();
    if minute <= 4 {
        let w = uhr();
        set_word(buf, w, lit_c);
    } else if minute <= 9 {
        let w1 = fuenf();
        let w2 = nach();
        set_word(buf, w1, lit_c);
        set_word(buf, w2, lit_c);
    } else if minute <= 14 {
        let w1 = zehn();
        let w2 = nach();
        set_word(buf, w1, lit_c);
        set_word(buf, w2, lit_c);
    } else if minute <= 19 {
        let w1 = viertel();
        let w2 = nach();
        set_word(buf, w1, lit_c);
        set_word(buf, w2, lit_c);
    } else if minute <= 24 {
        let w1 = zwanzig();
        let w2 = nach();
        set_word(buf, w1, lit_c);
        set_word(buf, w2, lit_c);
    } else if minute <= 29 {
        let w1 = fuenf();
        let w2 = vor();
        let w3 = halb();
        set_word(buf, w1, lit_c);
        set_word(buf, w2, lit_c);
        set_word(buf, w3, lit_c);
    } else if minute <= 34 {
        let w = halb();
        set_word(buf, w, lit_c);
    } else if minute <= 39 {
        let w1 = fuenf();
        let w2 = nach();
        let w3 = halb();
        set_word(buf, w1, lit_c);
        set_word(buf, w2, lit_c);
        set_word(buf, w3, lit_c);
    } else if minute <= 44 {
        let w1 = zwanzig();
        let w2 = vor();
        set_word(buf, w1, lit_c);
        set_word(buf, w2, lit_c);
    } else if minute <= 49 {
        let w = dreiviertel();
        set_word(buf, w, lit_c);
    } else if minute <= 54 {
        let w1 = zehn();
        let w2 = vor();
        set_word(buf, w1, lit_c);
        set_word(buf, w2, lit_c);
    } else {
        let w1 = fuenf();
        let w2 = vor();
        set_word(buf, w1, lit_c);
        set_word(buf, w2, lit_c);
    }

    let eff = effective_hour(hour, minute);
    let hw = hour_word(eff as usize);
    set_word(buf, hw, lit_c);

    assert(forall|i: int|
        0 <= i < 114 ==> buf@[i] == (if letter_lit(hour as int, minute as int, i) {
            spec_on()
        } else {
            spec_off()
        }));

    let rem = minute % 5;
    let mut k: u8 = 0;
    while k < rem
        invariant
            k <= rem,
            rem == minute as int % 5,
            minute <= 59,
            buf@.len() == 114,
            forall|i: int|
                0 <= i < 114 ==> (#[trigger] buf@[i]) == (if letter_lit(hour as int, minute as int, i)
                    || corner_prefix_lit(k as int, i) {
                    spec_on()
                } else {
                    spec_off()
                }),
        decreases rem - k,
    {
        let idx = digit_index(k as usize);
        buf.set(idx, lit_c);
        proof {
            assert forall|i: int| 0 <= i < 114 implies buf@[i] == (if letter_lit(
                hour as int,
                minute as int,
                i,
            ) || corner_prefix_lit(k as int + 1, i) {
                spec_on()
            } else {
                spec_off()
            }) by {
                if i == idx {
                    assert(corner_prefix_lit(k as int + 1, i));
                } else {
                    assert(corner_prefix_lit(k as int + 1, i) <==> corner_prefix_lit(k as int, i));
                }
            }
        }
        k = k + 1;
    }

    proof {
        assert forall|i: int| 0 <= i < 114 implies buf@[i] == frame_spec(
            hour as int,
            minute as int,
        )[i] by {
            assert(buf@[i] == (if letter_lit(hour as int, minute as int, i) || corner_prefix_lit(
                k as int,
                i,
            ) {
                spec_on()
            } else {
                spec_off()
            }));
            assert(corner_prefix_lit(k as int, i) == corner_lit(minute as int, i));
        }
        assert(buf@ =~= frame_spec(hour as int, minute as int));
    }
    Ok(())
}

} // verus!
