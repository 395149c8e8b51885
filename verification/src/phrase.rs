//! The phrase composer: which fragments of German spell a given time.
//!
//! The minute falls into one of twelve five-minute windows; each window
//! names its fragments ("FUENF VOR HALB", "DREIVIERTEL", ...). From
//! minute 25 on the spoken phrase already refers to the next hour
//! ("fuenf vor halb vier" at 3:25), so the hour word rolls over at 25,
//! not at 30. The remainder `minute mod 5` goes to the corner LEDs.

use vstd::prelude::*;
use crate::geometry::covers;
use crate::geometry::spec_digit_index;
use crate::words::spec_dreiviertel;
use crate::words::spec_fuenf;
use crate::words::spec_halb;
use crate::words::spec_nach;
use crate::words::spec_uhr;
use crate::words::spec_viertel;
use crate::words::spec_vor;
use crate::words::spec_zehn;
use crate::words::spec_zwanzig;

verus! {

/// A time the clock face can show.
pub open spec fn valid_time(hour: int, minute: int) -> bool {
    1 <= hour <= 12 && 0 <= minute <= 59
}

/// The hour whose word is lit: the clock hour itself up to minute 24,
/// the next hour from minute 25 on.
pub open spec fn spec_eff_hour(hour: int, minute: int) -> int {
    if minute < 25 {
        hour
    } else {
        hour % 12 + 1
    }
}

/// Whether string index `i` belongs to a minute fragment that the
/// five-minute window of `minute` lights.
pub open spec fn minute_frag_lit(minute: int, i: int) -> bool {
    let w = minute / 5;
    if w == 0 {
        covers(spec_uhr(), i)
    } else if w == 1 {
        covers(spec_fuenf(), i) || covers(spec_nach(), i)
    } else if w == 2 {
        covers(spec_zehn(), i) || covers(spec_nach(), i)
    } else if w == 3 {
        covers(spec_viertel(), i) || covers(spec_nach(), i)
    } else if w == 4 {
        covers(spec_zwanzig(), i) || covers(spec_nach(), i)
    } else if w == 5 {
        covers(spec_fuenf(), i) || covers(spec_vor(), i) || covers(spec_halb(), i)
    } else if w == 6 {
        covers(spec_halb(), i)
    } else if w == 7 {
        covers(spec_fuenf(), i) || covers(spec_nach(), i) || covers(spec_halb(), i)
    } else if w == 8 {
        covers(spec_zwanzig(), i) || covers(spec_vor(), i)
    } else if w == 9 {
        covers(spec_dreiviertel(), i)
    } else if w == 10 {
        covers(spec_zehn(), i) || covers(spec_vor(), i)
    } else {
        covers(spec_fuenf(), i) || covers(spec_vor(), i)
    }
}

/// Whether corner LED position `i` is lit when `cnt` corners are on:
/// the corners fill in the order of `spec_digit_index`.
pub open spec fn corner_prefix_lit(cnt: int, i: int) -> bool {
    (i == spec_digit_index(0) && cnt >= 1) || (i == spec_digit_index(1) && cnt >= 2) || (i
        == spec_digit_index(2) && cnt >= 3) || (i == spec_digit_index(3) && cnt >= 4)
}

/// Whether corner LED position `i` is lit for `minute`: the remainder
/// `minute mod 5` says how many corners are on.
pub open spec fn corner_lit(minute: int, i: int) -> bool {
    corner_prefix_lit(minute % 5, i)
}

/// Computes the hour whose word is lit.
pub fn effective_hour(hour: u8, minute: u8) -> (eff: u8)
    requires
        1 <= hour <= 12,
        minute <= 59,
    ensures
        eff == spec_eff_hour(hour as int, minute as int),
        1 <= eff <= 12,
{
    if minute < 25 {
        hour
    } else {
        hour % 12 + 1
    }
}

} // verus!
