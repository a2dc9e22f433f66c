//! Translation of MIDI control-surface events into lighting-console remote
//! commands and organ stop SysEx messages, with the wire codecs and the
//! single-consumer runtime state machine that drives them.

pub mod chamsys;
pub mod decimal;
pub mod errors;
pub mod midi_translator;
pub mod midi_utils;
pub mod organ_midi;
pub mod runtime;
pub mod stops_table;

pub use errors::ProgramError;
pub use runtime::{LxCommand, MidiRuntime};
