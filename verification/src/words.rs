//! The word catalog: every phrase fragment of the clock face is a
//! rectangle of letters on a single row of the 11x10 matrix.
//!
//! A rectangle `(from_x, to_x, y)` covers the columns `from_x..to_x`
//! (half-open) of row `y`. The catalog lists the minute fragments and the
//! always-on prefix; the hour table maps each hour of the clock face to
//! its word.

use vstd::prelude::*;

verus! {

/// A row-local rectangle of letters on the 11x10 grid.
#[derive(Clone, Copy, Debug, PartialEq, Eq, Structural)]
pub struct Word {
    /// First column covered.
    pub from_x: usize,
    /// One past the last column covered.
    pub to_x: usize,
    /// The row the letters sit on.
    pub y: usize,
}

/// A well-formed rectangle: at least one column, inside the 11x10 grid.
pub open spec fn wf_word(w: Word) -> bool {
    w.from_x < w.to_x <= 11 && w.y < 10
}

/// "ES", row 0, columns 0..2 — part of the always-on prefix.
pub open spec fn spec_es() -> Word {
    Word { from_x: 0, to_x: 2, y: 0 }
}

/// "IST", row 0, columns 3..6 — part of the always-on prefix.
pub open spec fn spec_ist() -> Word {
    Word { from_x: 3, to_x: 6, y: 0 }
}

/// "FUENF" (the minute word), row 0, columns 7..11.
pub open spec fn spec_fuenf() -> Word {
    Word { from_x: 7, to_x: 11, y: 0 }
}

/// "ZEHN" (the minute word), row 1, columns 0..4.
pub open spec fn spec_zehn() -> Word {
    Word { from_x: 0, to_x: 4, y: 1 }
}

/// "ZWANZIG", row 1, columns 4..11.
pub open spec fn spec_zwanzig() -> Word {
    Word { from_x: 4, to_x: 11, y: 1 }
}

/// "DREIVIERTEL", row 2, columns 0..11.
pub open spec fn spec_dreiviertel() -> Word {
    Word { from_x: 0, to_x: 11, y: 2 }
}

/// "VIERTEL", row 2, columns 4..11.
pub open spec fn spec_viertel() -> Word {
    Word { from_x: 4, to_x: 11, y: 2 }
}

/// "VOR", row 3, columns 0..3.
pub open spec fn spec_vor() -> Word {
    Word { from_x: 0, to_x: 3, y: 3 }
}

/// "NACH", row 3, columns 7..11.
pub open spec fn spec_nach() -> Word {
    Word { from_x: 7, to_x: 11, y: 3 }
}

/// "HALB", row 4, columns 0..4.
pub open spec fn spec_halb() -> Word {
    Word { from_x: 0, to_x: 4, y: 4 }
}

/// "UHR", row 9, columns 8..11.
pub open spec fn spec_uhr() -> Word {
    Word { from_x: 8, to_x: 11, y: 9 }
}

/// The hour table: the word of hour `h` of the clock face, `h` in 1..=12.
/// EIN, ZWEI, DREI, VIER, FUENF, SECHS, SIEBEN, ACHT, NEUN, ZEHN, ELF,
/// ZWOELF, each a rectangle of its own.
pub open spec fn spec_hour_word(h: int) -> Word {
    if h == 1 {
        Word { from_x: 0, to_x: 4, y: 5 }
    } else if h == 2 {
        Word { from_x: 7, to_x: 11, y: 5 }
    } else if h == 3 {
        Word { from_x: 0, to_x: 4, y: 6 }
    } else if h == 4 {
        Word { from_x: 7, to_x: 11, y: 6 }
    } else if h == 5 {
        Word { from_x: 7, to_x: 11, y: 4 }
    } else if h == 6 {
        Word { from_x: 0, to_x: 5, y: 7 }
    } else if h == 7 {
        Word { from_x: 0, to_x: 6, y: 8 }
    } else if h == 8 {
        Word { from_x: 7, to_x: 11, y: 7 }
    } else if h == 9 {
        Word { from_x: 3, to_x: 7, y: 9 }
    } else if h == 10 {
        Word { from_x: 0, to_x: 4, y: 9 }
    } else if h == 11 {
        Word { from_x: 5, to_x: 8, y: 4 }
    } else {
        Word { from_x: 6, to_x: 11, y: 8 }
    }
}

/// Every word of the hour table is a well-formed rectangle.
pub proof fn lemma_hour_words_wf()
    ensures
        forall|h: int| 1 <= h <= 12 ==> wf_word(#[trigger] spec_hour_word(h)),
{
}

/// Builds "ES".
pub fn es() -> (w: Word)
    ensures
        w == spec_es(),
{
    Word { from_x: 0, to_x: 2, y: 0 }
}

/// Builds "IST".
pub fn ist() -> (w: Word)
    ensures
        w == spec_ist(),
{
    Word { from_x: 3, to_x: 6, y: 0 }
}

/// Builds the minute word "FUENF".
pub fn fuenf() -> (w: Word)
    ensures
        w == spec_fuenf(),
{
    Word { from_x: 7, to_x: 11, y: 0 }
}

/// Builds the minute word "ZEHN".
pub fn zehn() -> (w: Word)
    ensures
        w == spec_zehn(),
{
    Word { from_x: 0, to_x: 4, y: 1 }
}

/// Builds "ZWANZIG".
pub fn zwanzig() -> (w: Word)
    ensures
        w == spec_zwanzig(),
{
    Word { from_x: 4, to_x: 11, y: 1 }
}

/// Builds "DREIVIERTEL".
pub fn dreiviertel() -> (w: Word)
    ensures
        w == spec_dreiviertel(),
{
    Word { from_x: 0, to_x: 11, y: 2 }
}

/// Builds "VIERTEL".
pub fn viertel() -> (w: Word)
    ensures
        w == spec_viertel(),
{
    Word { from_x: 4, to_x: 11, y: 2 }
}

/// Builds "VOR".
pub fn vor() -> (w: Word)
    ensures
        w == spec_vor(),
{
    Word { from_x: 0, to_x: 3, y: 3 }
}

/// Builds "NACH".
pub fn nach() -> (w: Word)
    ensures
        w == spec_nach(),
{
    Word { from_x: 7, to_x: 11, y: 3 }
}

/// Builds "HALB".
pub fn halb() -> (w: Word)
    ensures
        w == spec_halb(),
{
    Word { from_x: 0, to_x: 4, y: 4 }
}

/// Builds "UHR".
pub fn uhr() -> (w: Word)
    ensures
        w == spec_uhr(),
{
    Word { from_x: 8, to_x: 11, y: 9 }
}

/// Looks the word of hour `h` up in the hour table.
pub fn hour_word(h: usize) -> (w: Word)
    requires
        1 <= h <= 12,
    ensures
        w == spec_hour_word(h as int),
        wf_word(w),
{
    match h {
        1 => Word { from_x: 0, to_x: 4, y: 5 },
        2 => Word { from_x: 7, to_x: 11, y: 5 },
        3 => Word { from_x: 0, to_x: 4, y: 6 },
        4 => Word { from_x: 7, to_x: 11, y: 6 },
        5 => Word { from_x: 7, to_x: 11, y: 4 },
        6 => Word { from_x: 0, to_x: 5, y: 7 },
        7 => Word { from_x: 0, to_x: 6, y: 8 },
        8 => Word { from_x: 7, to_x: 11, y: 7 },
        9 => Word { from_x: 3, to_x: 7, y: 9 },
        10 => Word { from_x: 0, to_x: 4, y: 9 },
        11 => Word { from_x: 5, to_x: 8, y: 4 },
        _ => Word { from_x: 6, to_x: 11, y: 8 },
    }
}

} // verus!
