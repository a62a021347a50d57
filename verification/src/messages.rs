//! Outbound note messages for the sequencer sink.
//!
//! A message is constructed and handed to the sink immediately, never
//! queued.  `to_bytes` gives the standard three-byte wire form for a raw
//! MIDI sink; note and velocity are masked to their seven significant bits
//! there, as the wire demands.

use vstd::prelude::*;

verus! {

/// One outbound message: channel, note number, velocity.
#[derive(Copy, Clone, PartialEq, Eq, Structural, Debug)]
pub enum OutboundMessage {
    NoteOn(u8, u8, u8),
    NoteOff(u8, u8, u8),
    PolyphonicPressure(u8, u8, u8),
}

impl OutboundMessage {
    /// The three-byte wire form: status-plus-channel byte, then note and
    /// velocity with their top bits cleared.
    pub open spec fn spec_bytes(&self) -> Seq<u8> {
        match *self {
            OutboundMessage::NoteOn(ch, note, vel) => seq![
                (0x90 + ch % 16) as u8,
                (note % 128) as u8,
                (vel % 128) as u8,
            ],
            OutboundMessage::NoteOff(ch, note, vel) => seq![
                (0x80 + ch % 16) as u8,
                (note % 128) as u8,
                (vel % 128) as u8,
            ],
            OutboundMessage::PolyphonicPressure(ch, note, vel) => seq![
                (0xA0 + ch % 16) as u8,
                (note % 128) as u8,
                (vel % 128) as u8,
            ],
        }
    }

    /// Encode the message for a raw MIDI byte sink.
    pub fn to_bytes(&self) -> (r: Vec<u8>)
        ensures
            r@ == self.spec_bytes(),
    {
        let (status, note, vel): (u8, u8, u8) = match *self {
            OutboundMessage::NoteOn(ch, note, vel) => (0x90 + ch % 16, note, vel),
            OutboundMessage::NoteOff(ch, note, vel) => (0x80 + ch % 16, note, vel),
            OutboundMessage::PolyphonicPressure(ch, note, vel) => (0xA0 + ch % 16, note, vel),
        };
        let mut r: Vec<u8> = Vec::new();
        r.push(status);
        r.push(note % 128);
        r.push(vel % 128);
        proof {
            assert(r@ =~= self.spec_bytes());
        }
        r
    }
}

} // verus!
