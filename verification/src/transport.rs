//! The decision core of the transport adapter.
//!
//! The surrounding program blocks on the bus and hands every outcome —
//! a received frame or a fatal bus state — to `handle_event`, which
//! decodes the two-byte time payload, renders on success, and reports
//! every failure so the caller can halt: the clock must never show a
//! misleading time.

use vstd::prelude::*;
use crate::color::Rgb;
use crate::error::ClockError;
use crate::render::frame_spec;
use crate::render::render;

verus! {

/// The identifier of a received bus frame.
#[derive(Clone, Copy, Debug, PartialEq, Eq, Structural)]
pub enum CanId {
    /// A standard-form (11-bit) identifier.
    Standard(u16),
    /// An extended-form (29-bit) identifier.
    Extended(u32),
}

/// One outcome of waiting on the bus: a frame, or an unrecoverable bus
/// state.
#[derive(Debug)]
pub enum BusEvent {
    /// A frame arrived, with its identifier and, for data frames, its
    /// payload bytes.
    Frame {
        /// The frame's identifier.
        id: CanId,
        /// The data bytes; a remote frame carries none.
        payload: Option<Vec<u8>>,
    },
    /// The bus reported a state the program cannot recover from.
    BusError,
}

/// What decoding a received frame yields: an error, a time, or nothing
/// when the frame is not addressed to the clock.
pub open spec fn spec_decode(id: CanId, payload: Option<Seq<u8>>, expected_id: u16) -> Result<
    Option<(u8, u8)>,
    ClockError,
> {
    match id {
        CanId::Extended(_) => Err(ClockError::MalformedPayload),
        CanId::Standard(s) => if s != expected_id {
            Ok(None)
        } else {
            match payload {
                None => Err(ClockError::MalformedPayload),
                Some(p) => if p.len() < 2 {
                    Err(ClockError::MalformedPayload)
                } else if p[0] < 1 || p[0] > 12 {
                    Err(ClockError::InvalidHour)
                } else if p[1] > 59 {
                    Err(ClockError::InvalidMinute)
                } else {
                    Ok(Some((p[0], p[1])))
                },
            }
        },
    }
}

/// The payload bytes as a mathematical sequence.
pub open spec fn payload_view(payload: Option<Vec<u8>>) -> Option<Seq<u8>> {
    match payload {
        Some(p) => Some(p@),
        None => None,
    }
}

/// Decodes a received frame into a time of day.
///
/// A frame with an extended identifier or without the two required
/// payload bytes is malformed; a standard frame addressed elsewhere is
/// ignored; an out-of-range hour or minute is rejected. The first
/// payload byte is the hour, the second the minute; further bytes are
/// ignored.
pub fn decode_time_frame(id: &CanId, payload: &Option<Vec<u8>>, expected_id: u16) -> (r: Result<
    Option<(u8, u8)>,
    ClockError,
>)
    ensures
        r == spec_decode(*id, payload_view(*payload), expected_id),
{
    match id {
        CanId::Extended(_) => Err(ClockError::MalformedPayload),
        CanId::Standard(s) => {
            if *s != expected_id {
                Ok(None)
            } else {
                match payload {
                    None => Err(ClockError::MalformedPayload),
                    Some(data) => {
                        if data.len() < 2 {
                            Err(ClockError::MalformedPayload)
                        } else {
                            let hour = data[0];
                            let minute = data[1];
                            if hour < 1 || hour > 12 {
                                Err(ClockError::InvalidHour)
                            } else if minute > 59 {
                                Err(ClockError::InvalidMinute)
                            } else {
                                Ok(Some((hour, minute)))
                            }
                        }
                    },
                }
            }
        },
    }
}

/// Handles one bus outcome: decodes and renders a time frame addressed
/// to the clock, ignores frames addressed elsewhere, and passes every
/// failure — including a fatal bus state — to the caller. The buffer
/// changes only when a time was rendered, and then holds exactly the
/// frame of that time.
pub fn handle_event(buf: &mut Vec<Rgb>, ev: &BusEvent, expected_id: u16) -> (r: Result<
    bool,
    ClockError,
>)
    requires
        old(buf)@.len() == 114,
    ensures
        final(buf)@.len() == 114,
        match *ev {
            BusEvent::BusError => r == Err::<bool, ClockError>(ClockError::TransportFatal)
                && final(buf)@ == old(buf)@,
            BusEvent::Frame { id, payload } => match spec_decode(
                id,
                payload_view(payload),
                expected_id,
            ) {
                Err(e) => r == Err::<bool, ClockError>(e) && final(buf)@ == old(buf)@,
                Ok(None) => r == Ok::<bool, ClockError>(false) && final(buf)@ == old(buf)@,
                Ok(Some(t)) => r == Ok::<bool, ClockError>(true) && final(buf)@ == frame_spec(
                    t.0 as int,
                    t.1 as int,
                ),
            },
        },
{
    match ev {
        BusEvent::BusError => Err(ClockError::TransportFatal),
        BusEvent::Frame { id, payload } => {
            match decode_time_frame(id, payload, expected_id) {
                Err(e) => Err(e),
                Ok(None) => Ok(false),
                Ok(Some((hour, minute))) => {
                    match render(buf, hour, minute) {
                        Ok(()) => Ok(true),
                        Err(e) => Err(e),
                    }
                },
            }
        },
    }
}

} // verus!
