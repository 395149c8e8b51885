//! What holds of every rendered frame.
//!
//! Each lemma here states a property of `frame_spec` — and so, through
//! the contract of `render`, of every frame the clock ever shows — for
//! every time on the clock face: the prefix is always lit, exactly one
//! hour word is lit and it is the effective hour's, "UHR" appears only
//! in the first five minutes, "DREIVIERTEL" exactly in minutes 45..=49,
//! and the corners count `minute mod 5`.

use vstd::prelude::*;
use crate::color::Rgb;
use crate::geometry::spec_digit_index;
use crate::geometry::spec_letter_index;
use crate::geometry::lemma_letter_index_covers;
use crate::phrase::spec_eff_hour;
use crate::phrase::valid_time;
use crate::render::frame_spec;
use crate::render::lit;
use crate::words::Word;
use crate::words::spec_dreiviertel;
use crate::words::spec_es;
use crate::words::spec_hour_word;
use crate::words::spec_ist;
use crate::words::spec_uhr;

verus! {

/// Every letter of rectangle `w` is lit at the given time.
pub open spec fn word_lit(hour: int, minute: int, w: Word) -> bool {
    forall|x: int|
        w.from_x <= x < w.to_x ==> lit(hour, minute, #[trigger] spec_letter_index(x, w.y as int))
}

/// Every letter of rectangle `w` is dark at the given time.
pub open spec fn word_dark(hour: int, minute: int, w: Word) -> bool {
    forall|x: int|
        w.from_x <= x < w.to_x ==> !lit(hour, minute, #[trigger] spec_letter_index(x, w.y as int))
}

/// "ES" and "IST" are lit at every time the clock face can show.
pub proof fn lemma_prefix_always_lit(hour: int, minute: int)
    requires
        valid_time(hour, minute),
    ensures
        word_lit(hour, minute, spec_es()),
        word_lit(hour, minute, spec_ist()),
{
    assert forall|x: int| spec_es().from_x <= x < spec_es().to_x implies lit(
        hour,
        minute,
        #[trigger] spec_letter_index(x, spec_es().y as int),
    ) by {
        lemma_letter_index_covers(spec_es(), x);
    }
    assert forall|x: int| spec_ist().from_x <= x < spec_ist().to_x implies lit(
        hour,
        minute,
        #[trigger] spec_letter_index(x, spec_ist().y as int),
    ) by {
        lemma_letter_index_covers(spec_ist(), x);
    }
}

/// Exactly one hour word is fully lit: the effective hour's — the clock
/// hour up to minute 24, the next hour from minute 25 on.
pub proof fn lemma_exactly_one_hour_word(hour: int, minute: int)
    requires
        valid_time(hour, minute),
    ensures
        word_lit(hour, minute, spec_hour_word(spec_eff_hour(hour, minute))),
        forall|h: int|
            1 <= h <= 12 && h != spec_eff_hour(hour, minute) ==> !word_lit(
                hour,
                minute,
                #[trigger] spec_hour_word(h),
            ),
{
    let eff = spec_eff_hour(hour, minute);
    let we = spec_hour_word(eff);
    assert(1 <= eff <= 12);
    assert forall|x: int| we.from_x <= x < we.to_x implies lit(
        hour,
        minute,
        #[trigger] spec_letter_index(x, we.y as int),
    ) by {
        lemma_letter_index_covers(we, x);
    }
    assert forall|h: int| 1 <= h <= 12 && h != eff implies !word_lit(
        hour,
        minute,
        #[trigger] spec_hour_word(h),
    ) by {
        let w = spec_hour_word(h);
        // A column of this hour word that no other word of the catalog
        // shares its letters with.
        let x: int = if h == 1 {
            0
        } else if h == 2 {
            7
        } else if h == 3 {
            0
        } else if h == 4 {
            7
        } else if h == 5 {
            8
        } else if h == 6 {
            0
        } else if h == 7 {
            0
        } else if h == 8 {
            7
        } else if h == 9 {
            4
        } else if h == 10 {
            0
        } else if h == 11 {
            5
        } else {
            6
        };
        assert(w.from_x <= x < w.to_x);
        assert(!lit(hour, minute, spec_letter_index(x, w.y as int)));
    }
}

/// "UHR" is lit in the first five minutes of the hour and dark in all
/// the others.
pub proof fn lemma_uhr_window(hour: int, minute: int)
    requires
        valid_time(hour, minute),
    ensures
        minute <= 4 ==> word_lit(hour, minute, spec_uhr()),
        minute > 4 ==> word_dark(hour, minute, spec_uhr()),
{
    if minute <= 4 {
        assert forall|x: int| spec_uhr().from_x <= x < spec_uhr().to_x implies lit(
            hour,
            minute,
            #[trigger] spec_letter_index(x, spec_uhr().y as int),
        ) by {
            lemma_letter_index_covers(spec_uhr(), x);
        }
    } else {
        assert forall|x: int| spec_uhr().from_x <= x < spec_uhr().to_x implies !lit(
            hour,
            minute,
            #[trigger] spec_letter_index(x, spec_uhr().y as int),
        ) by {
            assert(x == 8 || x == 9 || x == 10);
        }
    }
}

/// "DREIVIERTEL" is fully lit exactly in minutes 45..=49. In the
/// quarter-past window only "VIERTEL" lights, which leaves the first
/// four letters of the row dark.
pub proof fn lemma_dreiviertel_window(hour: int, minute: int)
    requires
        valid_time(hour, minute),
    ensures
        word_lit(hour, minute, spec_dreiviertel()) <==> 45 <= minute <= 49,
{
    let dv = spec_dreiviertel();
    if 45 <= minute <= 49 {
        assert forall|x: int| dv.from_x <= x < dv.to_x implies lit(
            hour,
            minute,
            #[trigger] spec_letter_index(x, dv.y as int),
        ) by {
            lemma_letter_index_covers(dv, x);
        }
    }
    if word_lit(hour, minute, dv) {
        assert(lit(hour, minute, spec_letter_index(0, dv.y as int)));
        assert(45 <= minute <= 49);
    }
}

/// The corner LEDs carry exactly `minute mod 5` lit pixels, filled in
/// the order of `spec_digit_index`.
pub proof fn lemma_corner_remainder(hour: int, minute: int)
    requires
        valid_time(hour, minute),
    ensures
        forall|j: int|
            0 <= j < 4 ==> (lit(hour, minute, #[trigger] spec_digit_index(j)) <==> j < minute % 5),
{
}

/// A frame always holds exactly the string's 114 pixels.
pub proof fn lemma_frame_len(hour: int, minute: int)
    ensures
        frame_spec(hour, minute).len() == 114,
{
}

/// A rendered frame is a function of the time alone: two frames of the
/// same time are equal, whatever the buffers held before rendering.
pub proof fn lemma_render_deterministic(hour: int, minute: int, a: Seq<Rgb>, b: Seq<Rgb>)
    requires
        a == frame_spec(hour, minute),
        b == frame_spec(hour, minute),
    ensures
        a == b,
{
}

} // verus!
