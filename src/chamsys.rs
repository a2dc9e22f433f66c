//! The wire format of commands sent to the lighting console.
//!
//! A command goes out either as its bare bytes or in a framed packet:
//! the tag `CREP`, a 16-bit version (always 0), a forward and a backward
//! sequence byte, a 16-bit payload length, then the payload. Multi-byte
//! fields are big-endian.
//!
//! Sequence policy: the forward sequence number advances by one, modulo 256,
//! with every framed packet that is built; the backward sequence number keeps
//! the value it was given, since this sender reads nothing back from the
//! console.

use vstd::prelude::*;
use vstd::slice::slice_to_vec;
use vstd::string::{StringExecFns, StringSliceAdditionalSpecFns};
use crate::errors::{ErrorKind, ProgramError};

verus! {

/// The UDP port on which the console listens for remote commands.
pub const CHAMSYS_PORT: u16 = 6553;

/// The largest payload that the length field of a framed packet can hold.
pub const MAX_PAYLOAD_LEN: usize = 65535;

/// The header of a framed packet.
pub open spec fn crep_header(seq_fwd: u8, seq_bkwd: u8, payload_len: nat) -> Seq<u8> {
    seq![
        0x43u8,
        0x52u8,
        0x45u8,
        0x50u8,
        0u8,
        0u8,
        seq_fwd,
        seq_bkwd,
        (payload_len / 256) as u8,
        (payload_len % 256) as u8,
    ]
}

/// A framed packet around `payload`.
pub open spec fn crep_packet(seq_fwd: u8, seq_bkwd: u8, payload: Seq<u8>) -> Seq<u8> {
    crep_header(seq_fwd, seq_bkwd, payload.len()) + payload
}

/// The sequence number that follows `n`.
pub open spec fn next_seq(n: u8) -> u8 {
    ((n + 1) % 256) as u8
}

/// The forward sequence number after `count` framed packets, from `start`.
pub open spec fn seq_after(start: u8, count: nat) -> u8
    decreases count,
{
    if count == 0 {
        start
    } else {
        next_seq(seq_after(start, (count - 1) as nat))
    }
}

/// The bytes of a command sent without framing: its UTF-8 encoding, with no
/// terminator.
pub fn encode_raw_command(command: &str) -> (r: Vec<u8>)
    ensures
        r@ == command.spec_bytes(),
{
    slice_to_vec(command.as_bytes())
}

/// Builds a framed packet around `payload`; fails with `PayloadTooLarge` when
/// the payload does not fit the 16-bit length field.
pub fn build_crep_packet(seq_fwd: u8, seq_bkwd: u8, payload: &[u8]) -> (r: Result<
    Vec<u8>,
    ProgramError,
>)
    ensures
        payload@.len() > MAX_PAYLOAD_LEN <==> r is Err,
        r matches Err(e) ==> e.kind == ErrorKind::PayloadTooLarge,
        r matches Ok(p) ==> p@ == crep_packet(seq_fwd, seq_bkwd, payload@),
{
    let len = payload.len();
    if len > MAX_PAYLOAD_LEN {
        return Err(
            ProgramError::with_kind(
                ErrorKind::PayloadTooLarge,
                String::from_str("command does not fit in a framed packet"),
            ),
        );
    }
    let mut packet: Vec<u8> = Vec::new();
    packet.push(0x43);
    packet.push(0x52);
    packet.push(0x45);
    packet.push(0x50);
    packet.push(0);
    packet.push(0);
    packet.push(seq_fwd);
    packet.push(seq_bkwd);
    packet.push((len / 256) as u8);
    packet.push((len % 256) as u8);
    assert(packet@ =~= crep_header(seq_fwd, seq_bkwd, payload@.len()));
    let mut i: usize = 0;
    while i < len
        invariant
            len == payload@.len(),
            i <= len,
            packet@ =~= crep_header(seq_fwd, seq_bkwd, payload@.len()) + payload@.subrange(
                0,
                i as int,
            ),
        decreases len - i,
    {
        packet.push(payload[i]);
        i = i + 1;
        assert(packet@ =~= crep_header(seq_fwd, seq_bkwd, payload@.len()) + payload@.subrange(
            0,
            i as int,
        ));
    }
    assert(payload@.subrange(0, len as int) =~= payload@);
    Ok(packet)
}

/// The sequence numbers of framed packets sent to one console.
#[derive(Debug, Clone, Copy, PartialEq, Eq, Structural)]
pub struct CrepSequence {
    pub forward: u8,
    pub backward: u8,
}

impl CrepSequence {
    /// Both sequence numbers at zero.
    pub fn new() -> (r: Self)
        ensures
            r.forward == 0,
            r.backward == 0,
    {
        CrepSequence { forward: 0, backward: 0 }
    }

    /// Frames `command` with the current sequence numbers and advances the
    /// forward one; on failure nothing changes.
    pub fn encode_framed(&mut self, command: &str) -> (r: Result<Vec<u8>, ProgramError>)
        ensures
            command.spec_bytes().len() > MAX_PAYLOAD_LEN <==> r is Err,
            r matches Err(e) ==> e.kind == ErrorKind::PayloadTooLarge,
            r matches Ok(p) ==> p@ == crep_packet(
                old(self).forward,
                old(self).backward,
                command.spec_bytes(),
            ),
            r is Ok ==> final(self).forward == next_seq(old(self).forward),
            r is Err ==> final(self).forward == old(self).forward,
            final(self).backward == old(self).backward,
    {
        let r = build_crep_packet(self.forward, self.backward, command.as_bytes());
        if r.is_ok() {
            self.forward = self.forward.wrapping_add(1);
        }
        r
    }

    /// The bytes to send for `command`: framed when `use_crep` holds (which
    /// advances the forward sequence number), bare otherwise.
    pub fn encode_command(&mut self, command: &str, use_crep: bool) -> (r: Result<
        Vec<u8>,
        ProgramError,
    >)
        ensures
            !use_crep ==> (r matches Ok(p) && p@ == command.spec_bytes()),
            !use_crep ==> *final(self) == *old(self),
            use_crep ==> (command.spec_bytes().len() > MAX_PAYLOAD_LEN <==> r is Err),
            use_crep ==> (r matches Err(e) ==> e.kind == ErrorKind::PayloadTooLarge),
            use_crep ==> (r matches Ok(p) ==> p@ == crep_packet(
                old(self).forward,
                old(self).backward,
                command.spec_bytes(),
            )),
            use_crep && r is Ok ==> final(self).forward == next_seq(old(self).forward),
            use_crep && r is Err ==> final(self).forward == old(self).forward,
            final(self).backward == old(self).backward,
    {
        if use_crep {
            self.encode_framed(command)
        } else {
            Ok(encode_raw_command(command))
        }
    }
}

/// The forward sequence number after `count` packets is `start + count`,
/// modulo 256.
pub proof fn lemma_seq_after(start: u8, count: nat)
    ensures
        seq_after(start, count) == (start + count) % 256,
    decreases count,
{
    if count > 0 {
        lemma_seq_after(start, (count - 1) as nat);
    }
}

/// After 256 framed packets the forward sequence number is back where it
/// started.
pub proof fn lemma_seq_wraps(start: u8)
    ensures
        seq_after(start, 256) == start,
{
    lemma_seq_after(start, 256);
}

} // verus!
