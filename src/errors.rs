//! The error type shared by the library and the program around it.

use vstd::prelude::*;

verus! {

/// What went wrong, by the kinds that callers handle differently.
#[derive(Debug, Clone, Copy, PartialEq, Eq, Structural)]
pub enum ErrorKind {
    /// MIDI input shorter than the branch it selects needs.
    MalformedMessage,
    /// A command too long for the 16-bit length field of a framed packet.
    PayloadTooLarge,
    /// The outbound socket could not be bound at start-up.
    SocketBindFailure,
    /// A datagram could not be handed to the socket.
    SocketSendFailure,
    /// Anything else, described by the message alone.
    Other,
}

/// An error with a kind and a human-readable message.
pub struct ProgramError {
    pub kind: ErrorKind,
    pub message: String,
}

impl ProgramError {
    /// An error of kind `Other` carrying `message`.
    pub fn new(message: String) -> (r: Self)
        ensures
            r.kind == ErrorKind::Other,
            r.message@ == message@,
    {
        Self { kind: ErrorKind::Other, message }
    }

    /// An error of the given kind carrying `message`.
    pub fn with_kind(kind: ErrorKind, message: String) -> (r: Self)
        ensures
            r.kind == kind,
            r.message@ == message@,
    {
        Self { kind, message }
    }

    pub fn kind(&self) -> (r: ErrorKind)
        ensures
            r == self.kind,
    {
        self.kind
    }

    /// The message, as the program prints it.
    pub fn message(&self) -> (r: &str)
        ensures
            r@ == self.message@,
    {
        self.message.as_str()
    }
}

} // verus!
