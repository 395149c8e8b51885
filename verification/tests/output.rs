use wordclock::color::Rgb;
use wordclock::color::off;
use wordclock::color::on;
use wordclock::output::gamma_correct;
use wordclock::output::prepare_status;
use wordclock::output::status_frame;
use wordclock::render::new_frame;
use wordclock::render::render;

#[test]
fn gamma_fixes_a_rendered_frame() {
    // The renderer emits only black and full white, and the correction
    // table maps 0 to 0 and 255 to 255.
    let mut buf = new_frame();
    assert_eq!(render(&mut buf, 3, 15), Ok(()));
    assert_eq!(gamma_correct(&buf), buf);
}

#[test]
fn gamma_bends_midtones() {
    // Values from the correction table of the LED driver helper:
    // 100 -> 19, 128 -> 37, 200 -> 129.
    let strip = vec![Rgb { r: 100, g: 128, b: 200 }];
    let out = gamma_correct(&strip);
    assert_eq!(out, vec![Rgb { r: 19, g: 37, b: 129 }]);
    assert_ne!(out, strip);
}

#[test]
fn status_frame_lights_a_prefix() {
    assert_eq!(status_frame(0), vec![off(), off(), off()]);
    assert_eq!(status_frame(2), vec![on(), on(), off()]);
    assert_eq!(status_frame(3), vec![on(), on(), on()]);
}

#[test]
fn status_strip_is_dimmed() {
    // A lit status pixel at brightness 0x10: gamma leaves 255 alone,
    // then 255 * 17 / 256 = 16.
    let strip = status_frame(3);
    let out = prepare_status(&strip, 0x10);
    assert_eq!(out, vec![Rgb { r: 16, g: 16, b: 16 }; 3]);
}

#[test]
fn dark_status_strip_stays_dark() {
    let strip = status_frame(0);
    let out = prepare_status(&strip, 0x10);
    assert_eq!(out, vec![Rgb { r: 0, g: 0, b: 0 }; 3]);
}
