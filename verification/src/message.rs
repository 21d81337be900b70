//! Three-byte MIDI channel messages.

use vstd::prelude::*;

verus! {

/// Status byte of a note-on message on channel 1.
pub const NOTE_ON_STATUS: u8 = 0x90;

/// Status byte of a note-off message on channel 1.
pub const NOTE_OFF_STATUS: u8 = 0x80;

/// Velocity used for every note this library plays.
pub const VELOCITY: u8 = 0x64;

/// A MIDI message made of a status byte and two data bytes.
#[derive(Clone, Copy, Debug, PartialEq, Eq, Structural)]
pub struct ShortMessage {
    pub status: u8,
    pub data1: u8,
    pub data2: u8,
}

impl View for ShortMessage {
    type V = Seq<u8>;

    /// The bytes that go on the wire, in order.
    open spec fn view(&self) -> Seq<u8> {
        seq![self.status, self.data1, self.data2]
    }
}

/// The note-on message for `note`, at the fixed velocity.
pub open spec fn spec_note_on(note: u8) -> ShortMessage {
    ShortMessage { status: NOTE_ON_STATUS, data1: note, data2: VELOCITY }
}

/// The note-off message for `note`, at the fixed velocity.
pub open spec fn spec_note_off(note: u8) -> ShortMessage {
    ShortMessage { status: NOTE_OFF_STATUS, data1: note, data2: VELOCITY }
}

/// Builds the note-on message `[0x90, note, 0x64]`.
pub fn note_on(note: u8) -> (m: ShortMessage)
    ensures
        m == spec_note_on(note),
        m@ == seq![0x90u8, note, 0x64u8],
{
    ShortMessage { status: NOTE_ON_STATUS, data1: note, data2: VELOCITY }
}

/// Builds the note-off message `[0x80, note, 0x64]`.
pub fn note_off(note: u8) -> (m: ShortMessage)
    ensures
        m == spec_note_off(note),
        m@ == seq![0x80u8, note, 0x64u8],
{
    ShortMessage { status: NOTE_OFF_STATUS, data1: note, data2: VELOCITY }
}

impl ShortMessage {
    /// The message as the byte vector handed to the output connection.
    pub fn to_bytes(&self) -> (bytes: Vec<u8>)
        ensures
            bytes@ == self@,
    {
        let mut bytes: Vec<u8> = Vec::new();
        bytes.push(self.status);
        bytes.push(self.data1);
        bytes.push(self.data2);
        bytes
    }
}

} // verus!
