use wordclock::color::Rgb;
use wordclock::color::off;
use wordclock::color::on;
use wordclock::error::ClockError;
use wordclock::geometry::letter_index;
use wordclock::painter::set_word;
use wordclock::render::new_frame;
use wordclock::render::render;
use wordclock::words::Word;
use wordclock::words::dreiviertel;
use wordclock::words::es;
use wordclock::words::fuenf;
use wordclock::words::halb;
use wordclock::words::hour_word;
use wordclock::words::ist;
use wordclock::words::nach;
use wordclock::words::uhr;
use wordclock::words::viertel;
use wordclock::words::vor;

/// Builds the frame that lights exactly `words` and the first `corners`
/// corner LEDs, using the painter itself.
fn expected_frame(words: &[Word], corners: usize) -> Vec<Rgb> {
    let digits: [usize; 4] = [0, 1, 113, 112];
    let mut buf = new_frame();
    for w in words {
        set_word(&mut buf, *w, on());
    }
    for k in 0..corners {
        buf[digits[k]] = on();
    }
    buf
}

fn rendered(hour: u8, minute: u8) -> Vec<Rgb> {
    let mut buf = new_frame();
    assert_eq!(render(&mut buf, hour, minute), Ok(()));
    buf
}

/// Whether every letter of `w` is lit in `buf`.
fn word_is_lit(buf: &[Rgb], w: Word) -> bool {
    (w.from_x..w.to_x).all(|x| buf[letter_index(x, w.y)] == on())
}

#[test]
fn prefix_pixels_exact() {
    // ES occupies string indices 2 and 21, IST indices 41, 42 and 61.
    let buf = rendered(3, 0);
    for i in [2usize, 21, 41, 42, 61] {
        assert_eq!(buf[i], on(), "prefix pixel {} must be lit", i);
    }
}

#[test]
fn three_oclock() {
    let buf = rendered(3, 0);
    assert_eq!(buf, expected_frame(&[es(), ist(), uhr(), hour_word(3)], 0));
}

#[test]
fn five_past_three() {
    let buf = rendered(3, 7);
    assert_eq!(
        buf,
        expected_frame(&[es(), ist(), fuenf(), nach(), hour_word(3)], 2)
    );
}

#[test]
fn quarter_past_three() {
    let buf = rendered(3, 15);
    assert_eq!(
        buf,
        expected_frame(&[es(), ist(), viertel(), nach(), hour_word(3)], 0)
    );
}

#[test]
fn twentyfive_past_three() {
    let buf = rendered(3, 25);
    assert_eq!(
        buf,
        expected_frame(&[es(), ist(), fuenf(), vor(), halb(), hour_word(4)], 0)
    );
}

#[test]
fn dreiviertel_four() {
    let buf = rendered(3, 45);
    assert_eq!(
        buf,
        expected_frame(&[es(), ist(), dreiviertel(), hour_word(4)], 0)
    );
}

#[test]
fn five_to_one_at_noon() {
    let buf = rendered(12, 55);
    assert_eq!(
        buf,
        expected_frame(&[es(), ist(), fuenf(), vor(), hour_word(1)], 0)
    );
}

#[test]
fn hour_rollover_at_minute_25() {
    // At 12:24 the hour word is still ZWOELF; at 12:25 it must be EIN.
    let before = rendered(12, 24);
    assert!(word_is_lit(&before, hour_word(12)));
    assert!(!word_is_lit(&before, hour_word(1)));
    let after = rendered(12, 25);
    assert!(word_is_lit(&after, hour_word(1)));
    assert!(!word_is_lit(&after, hour_word(12)));
}

#[test]
fn last_minute_of_noon() {
    // 12:59: effective hour 1, fragments FUENF + VOR, all four corners.
    let buf = rendered(12, 59);
    let mut expected = expected_frame(&[es(), ist(), fuenf(), vor(), hour_word(1)], 4);
    assert_eq!(buf, expected);
    expected[112] = off();
    assert_ne!(buf, expected, "all four corner LEDs must be lit");
}

#[test]
fn minute_sixty_rejected() {
    let mut buf = new_frame();
    let untouched = buf.clone();
    assert_eq!(render(&mut buf, 12, 60), Err(ClockError::InvalidMinute));
    assert_eq!(buf, untouched);
}

#[test]
fn hour_zero_rejected() {
    let mut buf = new_frame();
    assert_eq!(render(&mut buf, 0, 30), Err(ClockError::InvalidHour));
}

#[test]
fn hour_thirteen_rejected() {
    let mut buf = new_frame();
    assert_eq!(render(&mut buf, 13, 30), Err(ClockError::InvalidHour));
}

#[test]
fn render_ignores_previous_buffer_state() {
    // The same time rendered over a dark buffer and over a junk-filled
    // one gives the same frame.
    let mut clean = new_frame();
    let mut dirty = vec![Rgb { r: 7, g: 77, b: 177 }; 114];
    assert_eq!(render(&mut clean, 8, 42), Ok(()));
    assert_eq!(render(&mut dirty, 8, 42), Ok(()));
    assert_eq!(clean, dirty);
}

#[test]
fn exactly_one_hour_word_lit() {
    let buf = rendered(3, 0);
    for h in 1..=12usize {
        assert_eq!(word_is_lit(&buf, hour_word(h)), h == 3);
    }
    let buf = rendered(3, 30);
    for h in 1..=12usize {
        assert_eq!(word_is_lit(&buf, hour_word(h)), h == 4);
    }
}

#[test]
fn uhr_only_in_first_window() {
    let early = rendered(3, 4);
    assert!(word_is_lit(&early, uhr()));
    let later = rendered(3, 5);
    for x in 8..11 {
        assert_eq!(later[letter_index(x, 9)], off());
    }
}

#[test]
fn dreiviertel_only_in_its_window() {
    for m in [0u8, 15, 30, 44, 50, 59] {
        let buf = rendered(6, m);
        assert!(!word_is_lit(&buf, dreiviertel()));
    }
    for m in 45..=49u8 {
        let buf = rendered(6, m);
        assert!(word_is_lit(&buf, dreiviertel()));
    }
}

#[test]
fn corners_count_minute_remainder() {
    let digits: [usize; 4] = [0, 1, 113, 112];
    for m in 0..60u8 {
        let buf = rendered(7, m);
        for (k, &d) in digits.iter().enumerate() {
            let expect_lit = k < (m % 5) as usize;
            assert_eq!(buf[d] == on(), expect_lit, "minute {}, corner {}", m, k);
        }
    }
}

#[test]
fn set_word_off_after_on_restores() {
    // Painting VIERTEL dark after painting it lit leaves exactly its
    // letters dark and every other pixel as it was.
    let base = vec![Rgb { r: 3, g: 5, b: 9 }; 114];
    let mut twice = base.clone();
    set_word(&mut twice, viertel(), on());
    set_word(&mut twice, viertel(), off());
    let mut once = base.clone();
    set_word(&mut once, viertel(), off());
    assert_eq!(twice, once);
    let affected: Vec<usize> = (4..11).map(|x| letter_index(x, 2)).collect();
    for i in 0..114 {
        if affected.contains(&i) {
            assert_eq!(twice[i], off());
        } else {
            assert_eq!(twice[i], base[i]);
        }
    }
}
