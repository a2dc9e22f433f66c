//! Classification of MIDI status bytes.

use vstd::prelude::*;

verus! {

/// A note-on status byte, on any of the sixteen channels.
pub open spec fn spec_is_on_status(status: u8) -> bool {
    144 <= status <= 159
}

/// A note-off status byte, on any of the sixteen channels.
pub open spec fn spec_is_off_status(status: u8) -> bool {
    128 <= status <= 143
}

/// The channel (1 to 16) that a status byte addresses; system messages
/// (240 and above) carry no channel and report channel 1.
pub open spec fn spec_status_channel(status: u8) -> u8 {
    if status >= 240 {
        1
    } else {
        (status % 16 + 1) as u8
    }
}

#[verifier::when_used_as_spec(spec_is_on_status)]
pub fn is_on_status(status: u8) -> (r: bool)
    ensures
        r == spec_is_on_status(status),
{
    status >= 144 && status <= 159
}

#[verifier::when_used_as_spec(spec_is_off_status)]
pub fn is_off_status(status: u8) -> (r: bool)
    ensures
        r == spec_is_off_status(status),
{
    status >= 128 && status <= 143
}

pub fn status_channel(status: u8) -> (r: u8)
    ensures
        r == spec_status_channel(status),
        1 <= r <= 16,
{
    if status >= 240 {
        return 1;
    }
    status % 16 + 1
}

} // verus!
