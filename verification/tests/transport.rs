use wordclock::color::Rgb;
use wordclock::error::ClockError;
use wordclock::render::new_frame;
use wordclock::render::render;
use wordclock::transport::BusEvent;
use wordclock::transport::CanId;
use wordclock::transport::decode_time_frame;
use wordclock::transport::handle_event;

const TIME_ID: u16 = 0x123;

#[test]
fn decode_accepts_a_time_frame() {
    let payload = Some(vec![12u8, 30u8]);
    let r = decode_time_frame(&CanId::Standard(TIME_ID), &payload, TIME_ID);
    assert_eq!(r, Ok(Some((12, 30))));
}

#[test]
fn decode_ignores_extra_payload_bytes() {
    let payload = Some(vec![3u8, 7u8, 99u8, 200u8]);
    let r = decode_time_frame(&CanId::Standard(TIME_ID), &payload, TIME_ID);
    assert_eq!(r, Ok(Some((3, 7))));
}

#[test]
fn decode_ignores_other_identifiers() {
    let payload = Some(vec![12u8, 30u8]);
    let r = decode_time_frame(&CanId::Standard(0x456), &payload, TIME_ID);
    assert_eq!(r, Ok(None));
}

#[test]
fn decode_rejects_extended_identifier() {
    let payload = Some(vec![12u8, 30u8]);
    let r = decode_time_frame(&CanId::Extended(0x123), &payload, TIME_ID);
    assert_eq!(r, Err(ClockError::MalformedPayload));
}

#[test]
fn decode_rejects_missing_payload() {
    let r = decode_time_frame(&CanId::Standard(TIME_ID), &None, TIME_ID);
    assert_eq!(r, Err(ClockError::MalformedPayload));
}

#[test]
fn decode_rejects_short_payload() {
    let payload = Some(vec![5u8]);
    let r = decode_time_frame(&CanId::Standard(TIME_ID), &payload, TIME_ID);
    assert_eq!(r, Err(ClockError::MalformedPayload));
}

#[test]
fn decode_rejects_hour_zero() {
    let payload = Some(vec![0u8, 10u8]);
    let r = decode_time_frame(&CanId::Standard(TIME_ID), &payload, TIME_ID);
    assert_eq!(r, Err(ClockError::InvalidHour));
}

#[test]
fn decode_rejects_hour_thirteen() {
    let payload = Some(vec![13u8, 0u8]);
    let r = decode_time_frame(&CanId::Standard(TIME_ID), &payload, TIME_ID);
    assert_eq!(r, Err(ClockError::InvalidHour));
}

#[test]
fn decode_rejects_minute_sixty() {
    let payload = Some(vec![5u8, 60u8]);
    let r = decode_time_frame(&CanId::Standard(TIME_ID), &payload, TIME_ID);
    assert_eq!(r, Err(ClockError::InvalidMinute));
}

#[test]
fn handle_event_renders_a_time_frame() {
    let mut buf = new_frame();
    let ev = BusEvent::Frame {
        id: CanId::Standard(TIME_ID),
        payload: Some(vec![9u8, 41u8]),
    };
    assert_eq!(handle_event(&mut buf, &ev, TIME_ID), Ok(true));
    let mut direct = new_frame();
    assert_eq!(render(&mut direct, 9, 41), Ok(()));
    assert_eq!(buf, direct);
}

#[test]
fn handle_event_leaves_buffer_on_foreign_frame() {
    let mut buf = vec![Rgb { r: 1, g: 2, b: 3 }; 114];
    let untouched = buf.clone();
    let ev = BusEvent::Frame {
        id: CanId::Standard(0x789),
        payload: Some(vec![9u8, 41u8]),
    };
    assert_eq!(handle_event(&mut buf, &ev, TIME_ID), Ok(false));
    assert_eq!(buf, untouched);
}

#[test]
fn handle_event_reports_bus_error_as_fatal() {
    let mut buf = new_frame();
    let untouched = buf.clone();
    let r = handle_event(&mut buf, &BusEvent::BusError, TIME_ID);
    assert_eq!(r, Err(ClockError::TransportFatal));
    assert_eq!(buf, untouched);
}

#[test]
fn handle_event_reports_bad_time() {
    let mut buf = new_frame();
    let untouched = buf.clone();
    let ev = BusEvent::Frame {
        id: CanId::Standard(TIME_ID),
        payload: Some(vec![7u8, 60u8]),
    };
    assert_eq!(handle_event(&mut buf, &ev, TIME_ID), Err(ClockError::InvalidMinute));
    assert_eq!(buf, untouched);
}
