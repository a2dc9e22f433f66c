//! SysEx messages that switch the organ's stops, and the conversion of
//! keyboard MIDI into messages for the organ.
//!
//! A stop message is nine bytes:
//! `F0 2B 01 01 op 00 hi lo F7`, where `op` is `23` to draw the stop and `22`
//! to retire it, and `hi`, `lo` are the high and low nibbles of the stop's
//! identifier, each in a byte of its own.

use vstd::prelude::*;
use vstd::slice::slice_to_vec;
use vstd::string::StringExecFns;
use crate::errors::{ErrorKind, ProgramError};
use crate::midi_utils::is_on_status;
use crate::stops_table::{
    is_stop_id, lemma_stop_from_id, lemma_stop_id_round_trip, stop_from_id, stop_id, OrganStop,
    TOTAL_STOPS,
};

verus! {

/// The opcode byte that draws a stop.
pub const STOP_ON: u8 = 0x23;

/// The opcode byte that retires a stop.
pub const STOP_OFF: u8 = 0x22;

pub open spec fn high_nibble(b: u8) -> u8 {
    (b / 16) as u8
}

pub open spec fn low_nibble(b: u8) -> u8 {
    (b % 16) as u8
}

/// The message that draws (`on`) or retires the stop with identifier `id`.
pub open spec fn stop_sysex(id: u8, on: bool) -> Seq<u8> {
    seq![
        0xF0u8,
        0x2Bu8,
        0x01u8,
        0x01u8,
        if on { STOP_ON } else { STOP_OFF },
        0x00u8,
        high_nibble(id),
        low_nibble(id),
        0xF7u8,
    ]
}

/// The stop and the switch direction that a message encodes: the whole
/// nine-byte envelope must match, both nibble bytes must hold nibbles, and
/// the identifier they spell must belong to a stop.
pub open spec fn decode_stop_sysex(m: Seq<u8>) -> Option<(OrganStop, bool)> {
    if m.len() == 9 && m[0] == 0xF0 && m[1] == 0x2B && m[2] == 0x01 && m[3] == 0x01 && (m[4]
        == STOP_ON || m[4] == STOP_OFF) && m[5] == 0x00 && m[6] < 16 && m[7] < 16 && m[8] == 0xF7 {
        match stop_from_id((m[6] * 16 + m[7]) as u8) {
            Some(s) => Some((s, m[4] == STOP_ON)),
            None => None,
        }
    } else {
        None
    }
}

/// What the organ receives for a keyboard message: with stop control on, a
/// note whose number is a stop identifier becomes that stop's SysEx message
/// (drawn on a note-on status, retired otherwise); every other message passes
/// through unchanged.
pub open spec fn organ_message(m: Seq<u8>, control_stops: bool) -> Seq<u8> {
    if m.len() >= 2 && control_stops && is_stop_id(m[1]) {
        stop_sysex(m[1], is_on_status(m[0]))
    } else {
        m
    }
}

/// The SysEx message that draws (`on`) or retires `organ_stop`.
pub fn organ_stop_to_sysex(organ_stop: OrganStop, on: bool) -> (r: Vec<u8>)
    ensures
        r@ == stop_sysex(stop_id(organ_stop), on),
{
    let mut sysex_message: Vec<u8> = Vec::with_capacity(9);
    // start of SysEx, manufacturer, device, function group
    sysex_message.push(0xF0);
    sysex_message.push(0x2B);
    sysex_message.push(0x01);
    sysex_message.push(0x01);
    sysex_message.push(if on { STOP_ON } else { STOP_OFF });
    sysex_message.push(0x00);
    let stop_number = organ_stop.to_u8();
    sysex_message.push(stop_number / 16);
    sysex_message.push(stop_number % 16);
    sysex_message.push(0xF7);
    assert(sysex_message@ =~= stop_sysex(stop_id(organ_stop), on));
    sysex_message
}

/// The stop and direction that a stop message carries; `None` for anything
/// that is not exactly such a message.
pub fn sysex_to_organ_stop(sysex_message: &[u8]) -> (r: Option<(OrganStop, bool)>)
    ensures
        r == decode_stop_sysex(sysex_message@),
{
    if sysex_message.len() != 9 {
        return None;
    }
    let op = sysex_message[4];
    if sysex_message[0] != 0xF0 || sysex_message[1] != 0x2B || sysex_message[2] != 0x01
        || sysex_message[3] != 0x01 || (op != STOP_ON && op != STOP_OFF) || sysex_message[5]
        != 0x00 || sysex_message[6] >= 16 || sysex_message[7] >= 16 || sysex_message[8] != 0xF7 {
        return None;
    }
    let id = sysex_message[6] * 16 + sysex_message[7];
    match OrganStop::from_u8(id) {
        Some(stop) => Some((stop, op == STOP_ON)),
        None => None,
    }
}

/// Converts a keyboard message for the organ (see `organ_message`).
pub fn midi_to_organ_note(message: &[u8], control_stops: bool) -> (r: Vec<u8>)
    ensures
        r@ == organ_message(message@, control_stops),
{
    if message.len() < 2 || !control_stops || message[1] >= TOTAL_STOPS {
        return slice_to_vec(message);
    }
    let note_number = message[1];
    let status = message[0];
    match OrganStop::from_u8(note_number) {
        Some(stop) => {
            proof {
                lemma_stop_from_id(note_number);
            }
            organ_stop_to_sysex(stop, is_on_status(status))
        },
        None => {
            proof {
                lemma_stop_from_id(note_number);
            }
            slice_to_vec(message)
        },
    }
}

/// Checks that a note message carries a note value. No note is bound to a
/// SysEx message, so the message produced is empty.
pub fn translate_note_to_sysex(message: Vec<u8>) -> (r: Result<Vec<u8>, ProgramError>)
    ensures
        message@.len() < 2 <==> r is Err,
        r matches Err(e) ==> e.kind == ErrorKind::MalformedMessage,
        r matches Ok(v) ==> v@.len() == 0,
{
    if message.len() < 2 {
        return Err(
            ProgramError::with_kind(
                ErrorKind::MalformedMessage,
                String::from_str("message does not contain a note value"),
            ),
        );
    }
    Ok(Vec::new())
}

/// Encoding a stop message and decoding it gives back the stop and the
/// direction.
pub proof fn lemma_stop_sysex_round_trip(stop: OrganStop, on: bool)
    ensures
        decode_stop_sysex(stop_sysex(stop_id(stop), on)) == Some((stop, on)),
{
    lemma_stop_id_round_trip(stop);
    let id = stop_id(stop);
    assert(high_nibble(id) * 16 + low_nibble(id) == id);
}

} // verus!
