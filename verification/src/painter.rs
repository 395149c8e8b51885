//! The frame painter: the one writer of letter LEDs.
//!
//! `set_word` colors every letter of one rectangle, routing each write
//! through the serpentine mapping; everything outside the rectangle is
//! left untouched. The two reset helpers clear a strip, and clear the
//! clock face down to its always-on prefix.

use vstd::prelude::*;
use crate::color::Rgb;
use crate::color::spec_off;
use crate::color::spec_on;
use crate::color::off;
use crate::color::on;
use crate::geometry::covers;
use crate::geometry::letter_index;
use crate::geometry::lemma_covers_index;
use crate::geometry::lemma_letter_index_covers;
use crate::words::Word;
use crate::words::wf_word;
use crate::words::es;
use crate::words::ist;
use crate::words::spec_es;
use crate::words::spec_ist;

verus! {

/// The buffer `s` with every letter of rectangle `w` set to color `c`.
pub open spec fn paint_spec(s: Seq<Rgb>, w: Word, c: Rgb) -> Seq<Rgb> {
    Seq::new(s.len(), |i: int| if covers(w, i) {
        c
    } else {
        s[i]
    })
}

/// Colors every letter of rectangle `w` with `c`, touching nothing else.
pub fn set_word(data: &mut Vec<Rgb>, word: Word, rgb: Rgb)
    requires
        wf_word(word),
        old(data)@.len() == 114,
    ensures
        final(data)@ == paint_spec(old(data)@, word, rgb),
        final(data)@.len() == 114,
{
    let mut x = word.from_x;
    while x < word.to_x
        invariant
            word.from_x <= x <= word.to_x,
            wf_word(word),
            data@.len() == 114,
            forall|i: int|
                0 <= i < 114 ==> data@[i] == (if covers(
                    Word { from_x: word.from_x, to_x: x as usize, y: word.y },
                    i,
                ) {
                    rgb
                } else {
                    old(data)@[i]
                }),
        decreases word.to_x - x,
    {
        let ghost before = Word { from_x: word.from_x, to_x: x as usize, y: word.y };
        let ghost after = Word { from_x: word.from_x, to_x: (x + 1) as usize, y: word.y };
        let idx = letter_index(x, word.y);
        data.set(idx, rgb);
        proof {
            lemma_letter_index_covers(after, x as int);
            assert forall|i: int| 0 <= i < 114 implies (covers(after, i) <==> (covers(before, i)
                || i == idx)) by {
                if covers(after, i) {
                    lemma_covers_index(after, i);
                }
            }
        }
        x = x + 1;
    }
    proof {
        assert(data@ =~= paint_spec(old(data)@, word, rgb));
    }
}

/// Turns every pixel of a strip dark.
pub fn reset_ws2812(data: &mut Vec<Rgb>)
    ensures
        final(data)@.len() == old(data)@.len(),
        forall|i: int| 0 <= i < final(data)@.len() ==> final(data)@[i] == spec_off(),
{
    let n = data.len();
    let mut k: usize = 0;
    while k < n
        invariant
            k <= n,
            data@.len() == n,
            forall|i: int| 0 <= i < k ==> data@[i] == spec_off(),
        decreases n - k,
    {
        let dark = off();
        data.set(k, dark);
        k = k + 1;
    }
}

/// Clears the clock face and paints the always-on prefix "ES IST".
pub fn reset_wclk(data: &mut Vec<Rgb>)
    requires
        old(data)@.len() == 114,
    ensures
        final(data)@.len() == 114,
        forall|i: int|
            0 <= i < 114 ==> final(data)@[i] == (if covers(spec_es(), i) || covers(spec_ist(), i) {
                spec_on()
            } else {
                spec_off()
            }),
{
    reset_ws2812(data);
    let lit = on();
    let w_es = es();
    let w_ist = ist();
    set_word(data, w_es, lit);
    set_word(data, w_ist, lit);
}

/// Painting a rectangle dark after painting it lit leaves exactly that
/// rectangle dark: the letters under the rectangle are off, and every
/// other pixel still holds what it held before both calls.
pub proof fn lemma_set_word_restores(s: Seq<Rgb>, w: Word)
    requires
        s.len() == 114,
        wf_word(w),
    ensures
        paint_spec(paint_spec(s, w, spec_on()), w, spec_off()) =~= paint_spec(s, w, spec_off()),
        forall|i: int|
            0 <= i < 114 && !covers(w, i) ==> paint_spec(
                paint_spec(s, w, spec_on()),
                w,
                spec_off(),
            )[i] == s[i],
{
}

} // verus!
