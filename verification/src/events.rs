//! Performance events delivered by the host, one ordered batch per
//! processing cycle.

use vstd::prelude::*;

verus! {

/// Status byte of a note-on message on channel 1.
pub const NOTE_ON_STATUS: u8 = 144;

/// Status byte of a note-off message on channel 1.
pub const NOTE_OFF_STATUS: u8 = 128;

/// One timestamped message from the host. Only the status byte of a
/// MIDI message is read by the core; pitch and velocity are accepted
/// and ignored, and every other kind of event is ignored whole.
#[derive(Clone, Copy, Debug)]
pub enum PerformanceEvent {
    Midi { status: u8, pitch: u8, velocity: u8 },
    Other,
}

/// Whether an event starts a held note.
pub open spec fn is_note_on(e: PerformanceEvent) -> bool {
    e matches PerformanceEvent::Midi { status, .. } && status == NOTE_ON_STATUS
}

/// Whether an event ends a held note.
pub open spec fn is_note_off(e: PerformanceEvent) -> bool {
    e matches PerformanceEvent::Midi { status, .. } && status == NOTE_OFF_STATUS
}

} // verus!
