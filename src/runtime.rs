//! The runtime that turns MIDI input into console traffic.
//!
//! All of its mutable state lives in an `AppState` that one consumer owns.
//! Producers (the MIDI driver's callback, control calls from any thread) hand
//! it `AppEvent`s through one queue; for each event, `AppState::handle_event`
//! updates the state and names the one thing the consumer must then do. The
//! consumer performs that action (a UDP send, or leaving its loop) and takes
//! the next event.
//!
//! Slot mappings: a mapping table can be installed and replaced at any time,
//! and is kept in the state; translation does not consult it. The fixed
//! arithmetic from note to playback takes precedence over any table.

use std::collections::HashMap;
use std::sync::mpsc::Sender;
use vstd::prelude::*;
use vstd::utf8::encode_utf8;
use crate::chamsys::{crep_packet, next_seq, CrepSequence, CHAMSYS_PORT, MAX_PAYLOAD_LEN};
use crate::errors::{ErrorKind, ProgramError};
use crate::midi_translator::{
    is_malformed, lemma_translation_ascii, playback_after, translate_midi_to_chamsys_command,
    translation,
};

verus! {

/// What a console slot does when its control fires.
#[derive(Debug, Clone, Copy, PartialEq, Eq, Structural)]
pub enum LxCommand {
    Activate,
    Deactivate,
    Intensity,
}

/// An IPv4 host, by its four octets in network order.
#[derive(Debug, Clone, Copy, PartialEq, Eq, Structural)]
pub struct Ipv4Host {
    pub a: u8,
    pub b: u8,
    pub c: u8,
    pub d: u8,
}

impl Ipv4Host {
    pub fn new(a: u8, b: u8, c: u8, d: u8) -> (r: Self)
        ensures
            r == (Ipv4Host { a, b, c, d }),
    {
        Ipv4Host { a, b, c, d }
    }
}

/// An input to the runtime's consumer.
pub enum AppEvent {
    /// A raw MIDI message from the input device.
    Midi(Vec<u8>),
    /// A new slot mapping table, replacing the old one whole.
    UpdateMappings(HashMap<usize, LxCommand>),
    /// A new console address for the sends that follow.
    SetDeskIp(Ipv4Host),
    /// The end of the runtime.
    Stop,
}

/// What the consumer does after an event.
pub enum RuntimeAction {
    /// Send `payload`, which carries `command`, to `host` at UDP `port`.
    Send { command: String, payload: Vec<u8>, host: Ipv4Host, port: u16 },
    /// The event's message was dropped for `error`.
    Drop { error: ProgramError },
    /// Nothing to send.
    Idle,
    /// Leave the loop: the runtime has stopped.
    Exit,
}

/// The runtime's state, owned by its single consumer.
pub struct AppState {
    /// Where commands go.
    pub desk_ip: Ipv4Host,
    /// The local address that the outbound socket binds to.
    pub app_ip: Ipv4Host,
    /// The installed slot mapping table.
    pub mappings: HashMap<usize, LxCommand>,
    /// The playback that the last note addressed (0 before any).
    pub previous_playback: u8,
    /// Whether commands go out framed rather than bare.
    pub use_crep: bool,
    /// The sequence numbers of framed packets.
    pub sequence: CrepSequence,
    /// False once the runtime has stopped.
    pub running: bool,
}

/// The bytes that carry command text `c`.
pub open spec fn outbound_payload(c: Seq<char>, use_crep: bool, sequence: CrepSequence) -> Seq<
    u8,
> {
    if use_crep {
        crep_packet(sequence.forward, sequence.backward, encode_utf8(c))
    } else {
        encode_utf8(c)
    }
}

/// The state after a running runtime handles `e`.
pub open spec fn next_state(s: AppState, e: AppEvent) -> AppState {
    match e {
        AppEvent::Midi(m) => AppState {
            previous_playback: playback_after(m@, s.previous_playback),
            sequence: if s.use_crep && !is_malformed(m@) && translation(
                m@,
                s.previous_playback,
            ) is Some {
                CrepSequence { forward: next_seq(s.sequence.forward), ..s.sequence }
            } else {
                s.sequence
            },
            ..s
        },
        AppEvent::UpdateMappings(table) => AppState { mappings: table, ..s },
        AppEvent::SetDeskIp(host) => AppState { desk_ip: host, ..s },
        AppEvent::Stop => AppState { running: false, ..s },
    }
}

/// Whether `a` is what a running runtime in state `s` does for `e`: a
/// message that translates to a command is sent to the console, one that is
/// malformed is dropped, and every other event sends nothing.
pub open spec fn is_action_for(a: RuntimeAction, s: AppState, e: AppEvent) -> bool {
    match e {
        AppEvent::Midi(m) => if is_malformed(m@) {
            a matches RuntimeAction::Drop { error } && error.kind == ErrorKind::MalformedMessage
        } else {
            match translation(m@, s.previous_playback) {
                Some(c) => {
                    &&& a matches RuntimeAction::Send { command, payload, host, port }
                    &&& command@ == c
                    &&& payload@ == outbound_payload(c, s.use_crep, s.sequence)
                    &&& host == s.desk_ip
                    &&& port == CHAMSYS_PORT
                },
                None => a is Idle,
            }
        },
        AppEvent::Stop => a is Exit,
        _ => a is Idle,
    }
}

impl AppState {
    /// A running state that sends bare commands to `desk_ip`, with no
    /// mappings and no playback addressed yet.
    pub fn new(desk_ip: Ipv4Host, app_ip: Ipv4Host) -> (r: Self)
        ensures
            r.desk_ip == desk_ip,
            r.app_ip == app_ip,
            r.mappings@ == Map::<usize, LxCommand>::empty(),
            r.previous_playback == 0,
            !r.use_crep,
            r.sequence == (CrepSequence { forward: 0, backward: 0 }),
            r.running,
    {
        AppState {
            desk_ip,
            app_ip,
            mappings: HashMap::new(),
            previous_playback: 0,
            use_crep: false,
            sequence: CrepSequence::new(),
            running: true,
        }
    }

    /// Applies one event and returns what the consumer must do next. A
    /// stopped runtime ignores every event and asks the consumer to exit.
    pub fn handle_event(&mut self, event: AppEvent) -> (action: RuntimeAction)
        ensures
            !old(self).running ==> action is Exit && *final(self) == *old(self),
            old(self).running ==> *final(self) == next_state(*old(self), event),
            old(self).running ==> is_action_for(action, *old(self), event),
    {
        if !self.running {
            return RuntimeAction::Exit;
        }
        match event {
            AppEvent::Midi(message) => {
                let ghost previous = self.previous_playback;
                match translate_midi_to_chamsys_command(
                    message.as_slice(),
                    &mut self.previous_playback,
                ) {
                    Err(error) => RuntimeAction::Drop { error },
                    Ok(None) => RuntimeAction::Idle,
                    Ok(Some(command)) => {
                        proof {
                            lemma_translation_ascii(message@, previous);
                            vstd::utf8::is_ascii_chars_encode_utf8(command@);
                        }
                        assert(encode_utf8(command@).len() <= MAX_PAYLOAD_LEN);
                        match self.sequence.encode_command(command.as_str(), self.use_crep) {
                            Ok(payload) => RuntimeAction::Send {
                                command,
                                payload,
                                host: self.desk_ip,
                                port: CHAMSYS_PORT,
                            },
                            Err(error) => RuntimeAction::Drop { error },
                        }
                    },
                }
            },
            AppEvent::UpdateMappings(table) => {
                self.mappings = table;
                RuntimeAction::Idle
            },
            AppEvent::SetDeskIp(host) => {
                self.desk_ip = host;
                RuntimeAction::Idle
            },
            AppEvent::Stop => {
                self.running = false;
                RuntimeAction::Exit
            },
        }
    }
}

/// The queue through which producers reach the runtime's consumer.
#[verifier::external_type_specification]
#[verifier::external_body]
#[verifier::reject_recursive_types(T)]
pub struct ExSender<T>(Sender<T>);

/// Relies on `std::sync::mpsc::Sender::send`: queues `event` for the
/// consumer without blocking. Once the consumer is gone the event is dropped.
#[verifier::external_body]
fn post_event(tx: &Sender<AppEvent>, event: AppEvent) {
    let _ = tx.send(event);
}

/// A handle on a running runtime, usable from any thread. Every control call
/// queues an event and returns at once; after the runtime has stopped the
/// calls do nothing.
pub struct MidiRuntime {
    tx: Sender<AppEvent>,
}

impl MidiRuntime {
    /// A handle that reaches the consumer through `tx`.
    pub fn new(tx: Sender<AppEvent>) -> Self {
        MidiRuntime { tx }
    }

    /// Replaces the slot mapping table.
    pub fn update_mappings(&self, mappings: HashMap<usize, LxCommand>) {
        post_event(&self.tx, AppEvent::UpdateMappings(mappings));
    }

    /// Sends the commands that follow to `ip`.
    pub fn set_desk_ip(&self, ip: Ipv4Host) {
        post_event(&self.tx, AppEvent::SetDeskIp(ip));
    }

    /// Stops the runtime once the events queued before have been handled.
    pub fn stop(&self) {
        post_event(&self.tx, AppEvent::Stop);
    }
}

} // verus!
