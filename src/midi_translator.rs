//! Translation of MIDI messages into lighting-console commands.
//!
//! Notes from `FIRST_PLAYBACK_NOTE` upwards address playbacks 1, 2, ... on
//! the console: a note-on activates its playback (`"{slot}A"`), a note-off
//! releases it (`"{slot}R"`), and either makes it the most recent playback.
//! The one supported controller message (status 176) sets the level of the
//! most recent playback (`"{slot},{value}L"`).

use vstd::prelude::*;
use vstd::string::StringExecFns;
use vstd::utf8::is_ascii_chars;
use crate::decimal::{decimal, lemma_decimal_u8, push_decimal};
use crate::errors::{ErrorKind, ProgramError};
use crate::midi_utils::{is_off_status, is_on_status};

verus! {

/// The MIDI note that controls playback 1.
pub const FIRST_PLAYBACK_NOTE: u8 = 48;

/// The status byte of the supported controller message.
pub const WHEEL_STATUS: u8 = 176;

/// The playback that a note at or above `FIRST_PLAYBACK_NOTE` addresses.
pub open spec fn playback_of_note(note: u8) -> u8 {
    (note - FIRST_PLAYBACK_NOTE + 1) as u8
}

/// The command that activates (`'A'`) or releases (`'R'`) a playback.
pub open spec fn playback_command(slot: u8, letter: char) -> Seq<char> {
    decimal(slot as nat).push(letter)
}

/// The command that sets the level of a playback.
pub open spec fn level_command(slot: u8, value: u8) -> Seq<char> {
    decimal(slot as nat).push(',') + decimal(value as nat).push('L')
}

/// Whether a message lacks a byte that its branch reads: every message needs
/// a status and a first data byte, the controller message a second data
/// byte too.
pub open spec fn is_malformed(m: Seq<u8>) -> bool {
    m.len() < 2 || (m[0] == WHEEL_STATUS && m.len() < 3)
}

/// The command that a well-formed message gives, if any.
pub open spec fn translation(m: Seq<u8>, previous: u8) -> Option<Seq<char>> {
    if is_on_status(m[0]) || is_off_status(m[0]) {
        if m[1] >= FIRST_PLAYBACK_NOTE {
            Some(playback_command(playback_of_note(m[1]), if is_on_status(m[0]) { 'A' } else { 'R' }))
        } else {
            None
        }
    } else if m[0] == WHEEL_STATUS {
        Some(level_command(previous, m[2]))
    } else {
        None
    }
}

/// The most recent playback after a message: the one that a note addresses,
/// else the one before.
pub open spec fn playback_after(m: Seq<u8>, previous: u8) -> u8 {
    if !is_malformed(m) && (is_on_status(m[0]) || is_off_status(m[0])) && m[1]
        >= FIRST_PLAYBACK_NOTE {
        playback_of_note(m[1])
    } else {
        previous
    }
}

/// The text of an optional command.
pub open spec fn command_view(c: Option<String>) -> Option<Seq<char>> {
    match c {
        Some(s) => Some(s@),
        None => None,
    }
}

/// Translates one MIDI message into a console command, tracking in
/// `previous_playback` the playback that the last note addressed.
///
/// Messages that are not note-on, note-off or the controller message, and
/// notes below `FIRST_PLAYBACK_NOTE`, give no command and leave
/// `previous_playback` as it was.
pub fn translate_midi_to_chamsys_command(message: &[u8], previous_playback: &mut u8) -> (r: Result<
    Option<String>,
    ProgramError,
>)
    ensures
        is_malformed(message@) <==> r is Err,
        r matches Err(e) ==> e.kind == ErrorKind::MalformedMessage,
        r matches Ok(c) ==> command_view(c) == translation(message@, *old(previous_playback)),
        *final(previous_playback) == playback_after(message@, *old(previous_playback)),
        r is Err ==> *final(previous_playback) == *old(previous_playback),
        message@.len() >= 2 && is_on_status(message@[0]) && message@[1] >= FIRST_PLAYBACK_NOTE
            ==> {
            &&& r matches Ok(Some(c)) && c@ == playback_command(
                playback_of_note(message@[1]),
                'A',
            )
            &&& *final(previous_playback) == playback_of_note(message@[1])
        },
        message@.len() >= 2 && is_off_status(message@[0]) && message@[1] >= FIRST_PLAYBACK_NOTE
            ==> {
            &&& r matches Ok(Some(c)) && c@ == playback_command(
                playback_of_note(message@[1]),
                'R',
            )
            &&& *final(previous_playback) == playback_of_note(message@[1])
        },
        message@.len() >= 2 && (is_on_status(message@[0]) || is_off_status(message@[0]))
            && message@[1] < FIRST_PLAYBACK_NOTE ==> {
            &&& r matches Ok(None)
            &&& *final(previous_playback) == *old(previous_playback)
        },
        message@.len() >= 3 && message@[0] == WHEEL_STATUS ==> {
            &&& r matches Ok(Some(c)) && c@ == level_command(*old(previous_playback), message@[2])
            &&& *final(previous_playback) == *old(previous_playback)
        },
        message@.len() >= 2 && !is_on_status(message@[0]) && !is_off_status(message@[0])
            && message@[0] != WHEEL_STATUS ==> {
            &&& r matches Ok(None)
            &&& *final(previous_playback) == *old(previous_playback)
        },
{
    if message.len() < 2 {
        return Err(
            ProgramError::with_kind(
                ErrorKind::MalformedMessage,
                String::from_str("message does not contain a note value"),
            ),
        );
    }
    let status = message[0];
    let note = message[1];
    let letter: &str;
    if is_on_status(status) {
        letter = "A";
    } else if is_off_status(status) {
        letter = "R";
    } else if status == WHEEL_STATUS {
        if message.len() < 3 {
            return Err(
                ProgramError::with_kind(
                    ErrorKind::MalformedMessage,
                    String::from_str("message does not contain a controller value"),
                ),
            );
        }
        let mut command = String::new();
        push_decimal(&mut command, *previous_playback);
        proof {
            reveal_strlit(",");
            reveal_strlit("L");
        }
        command.append(",");
        push_decimal(&mut command, message[2]);
        command.append("L");
        assert(command@ =~= level_command(*previous_playback, message@[2]));
        return Ok(Some(command));
    } else {
        return Ok(None);
    }
    // a note below the first playback note addresses no playback
    if note < FIRST_PLAYBACK_NOTE {
        return Ok(None);
    }
    let playback_number = note - FIRST_PLAYBACK_NOTE + 1;
    *previous_playback = playback_number;
    let mut command = String::new();
    push_decimal(&mut command, playback_number);
    proof {
        reveal_strlit("A");
        reveal_strlit("R");
    }
    command.append(letter);
    Ok(Some(command))
}

/// Every command is ASCII text of at most eight characters.
pub proof fn lemma_translation_ascii(m: Seq<u8>, previous: u8)
    requires
        !is_malformed(m),
    ensures
        translation(m, previous) matches Some(c) ==> is_ascii_chars(c) && c.len() <= 8,
{
    if let Some(c) = translation(m, previous) {
        if m[0] == WHEEL_STATUS && !is_on_status(m[0]) && !is_off_status(m[0]) {
            lemma_decimal_u8(previous);
            lemma_decimal_u8(m[2]);
            assert(is_ascii_chars(c));
        } else {
            lemma_decimal_u8(playback_of_note(m[1]));
            assert(is_ascii_chars(c));
        }
    }
}

} // verus!
