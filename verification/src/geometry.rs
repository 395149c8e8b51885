//! Panel geometry: where a letter of the 11x10 grid sits on the LED string.
//!
//! The string serpentines through the panel column by column: even columns
//! run top to bottom, odd columns bottom to top. The first two and last
//! two pixels of the string are the four corner LEDs, so every letter
//! index is shifted by a constant offset of two.

use vstd::prelude::*;
use crate::words::Word;
use crate::words::wf_word;

verus! {

/// Number of pixels on the string: 11 * 10 letters plus 4 corner LEDs.
pub const LED_COUNT: usize = 114;

/// The letter LEDs start after the first two corner LEDs.
pub const OFFSET: usize = 2;

/// The string index of the letter at grid position `(x, y)`:
/// column `x` contributes `10 * x`, the row runs forward on even columns
/// and backward on odd ones, and the corner offset shifts everything by 2.
pub open spec fn spec_letter_index(x: int, y: int) -> int {
    10 * x + (if x % 2 == 0 {
        y
    } else {
        9 - y
    }) + 2
}

/// The string index of corner LED `k`, for `k` in 0..4. The corners are
/// lit in the order 0, 1, 113, 112 as the minute remainder grows.
pub open spec fn spec_digit_index(k: int) -> int {
    if k == 0 {
        0
    } else if k == 1 {
        1
    } else if k == 2 {
        113
    } else {
        112
    }
}

/// Whether string index `i` is one of the letters of rectangle `w`.
/// This inverts the serpentine mapping: the column of `i` is
/// `(i - 2) / 10` and its row position is recovered from `(i - 2) % 10`.
pub open spec fn covers(w: Word, i: int) -> bool {
    2 <= i < 112 && {
        let x = (i - 2) / 10;
        let d = (i - 2) % 10;
        let y: int = if x % 2 == 0 {
            d
        } else {
            9 - d
        };
        y == w.y && w.from_x <= x < w.to_x
    }
}

/// Computes the string index of the letter at `(x, y)`.
pub fn letter_index(x: usize, y: usize) -> (i: usize)
    requires
        x < 11,
        y < 10,
    ensures
        i == spec_letter_index(x as int, y as int),
        2 <= i < 112,
{
    let flipped: usize = if x % 2 == 0 {
        y
    } else {
        9 - y
    };
    10 * x + flipped + 2
}

/// Computes the string index of corner LED `k`.
pub fn digit_index(k: usize) -> (i: usize)
    requires
        k < 4,
    ensures
        i == spec_digit_index(k as int),
        i < 114,
        !(2 <= i < 112),
{
    match k {
        0 => 0,
        1 => 1,
        2 => 113,
        _ => 112,
    }
}

/// The letter of column `x` of rectangle `w` lies at
/// `spec_letter_index(x, w.y)`, and that index is covered by `w`.
pub proof fn lemma_letter_index_covers(w: Word, x: int)
    requires
        wf_word(w),
        w.from_x <= x < w.to_x,
    ensures
        covers(w, spec_letter_index(x, w.y as int)),
        2 <= spec_letter_index(x, w.y as int) < 112,
{
    let d: int = if x % 2 == 0 {
        w.y as int
    } else {
        9 - w.y
    };
    let i = 10 * x + d + 2;
    assert(0 <= d < 10);
    assert((10 * x + d) / 10 == x && (10 * x + d) % 10 == d) by (nonlinear_arith)
        requires
            0 <= x,
            0 <= d < 10,
    ;
    assert(0 <= x < 11) by (nonlinear_arith)
        requires
            0 <= 10 * x + d,
            10 * x + d < 110,
            0 <= d < 10,
    ;
}

/// A string index covered by `w` is the letter index of its own column:
/// the serpentine mapping is injective on the grid.
pub proof fn lemma_covers_index(w: Word, i: int)
    requires
        covers(w, i),
    ensures
        i == spec_letter_index((i - 2) / 10, w.y as int),
        w.from_x <= (i - 2) / 10 < w.to_x,
{
    let x = (i - 2) / 10;
    let d = (i - 2) % 10;
    assert(i - 2 == 10 * x + d && 0 <= d < 10) by (nonlinear_arith)
        requires
            0 <= i - 2 < 110,
            x == (i - 2) / 10,
            d == (i - 2) % 10,
    ;
}

} // verus!
