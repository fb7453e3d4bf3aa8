use vstd::prelude::*;

verus! {

/// Size in bytes of every event record on the wire.
pub const EVENT_SIZE: usize = 32;

pub const CREATE_NOTIFY: u8 = 16;
pub const DESTROY_NOTIFY: u8 = 17;
pub const UNMAP_NOTIFY: u8 = 18;
pub const MAP_NOTIFY: u8 = 19;
pub const REPARENT_NOTIFY: u8 = 21;
pub const CONFIGURE_NOTIFY: u8 = 22;
pub const GRAVITY_NOTIFY: u8 = 24;
pub const CIRCULATE_NOTIFY: u8 = 26;
pub const PROPERTY_NOTIFY: u8 = 28;
pub const CLIENT_MESSAGE: u8 = 33;

/// A protocol event, decoded from its wire record.
#[derive(Clone, Copy, Debug, PartialEq, Eq, Structural)]
pub enum Event {
    CreateNotify { window: u32, parent: u32 },
    DestroyNotify { window: u32 },
    ReparentNotify { window: u32, parent: u32 },
    MapNotify { window: u32 },
    UnmapNotify { window: u32 },
    ConfigureNotify { window: u32 },
    CirculateNotify { window: u32 },
    GravityNotify { window: u32 },
    PropertyNotify { window: u32 },
    ClientMessage { window: u32 },
    /// An event of a kind this core does not handle.
    Unknown { tag: u8 },
    /// A record too short to hold an event.
    Undecodable,
}

/// The 32-bit word stored little-endian at `at` in `b`.
pub open spec fn word_at(b: Seq<u8>, at: int) -> int {
    b[at] as int + b[at + 1] as int * 0x100 + b[at + 2] as int * 0x1_0000 + b[at + 3] as int
        * 0x100_0000
}

/// The event kind of a record: its first byte without the bit that marks
/// an event sent by another client.
pub open spec fn tag_of(b: Seq<u8>) -> u8 {
    (b[0] % 0x80) as u8
}

/// The event a record stands for. The affected window stands at byte 8
/// (byte 4 for property and client messages); the new parent at byte 4 of
/// a creation record and at byte 12 of a reparent record.
pub open spec fn event_of(b: Seq<u8>) -> Event {
    if b.len() < EVENT_SIZE {
        Event::Undecodable
    } else {
        let tag = tag_of(b);
        let w = word_at(b, 8) as u32;
        if tag == CREATE_NOTIFY {
            Event::CreateNotify { window: w, parent: word_at(b, 4) as u32 }
        } else if tag == DESTROY_NOTIFY {
            Event::DestroyNotify { window: w }
        } else if tag == REPARENT_NOTIFY {
            Event::ReparentNotify { window: w, parent: word_at(b, 12) as u32 }
        } else if tag == MAP_NOTIFY {
            Event::MapNotify { window: w }
        } else if tag == UNMAP_NOTIFY {
            Event::UnmapNotify { window: w }
        } else if tag == CONFIGURE_NOTIFY {
            Event::ConfigureNotify { window: w }
        } else if tag == CIRCULATE_NOTIFY {
            Event::CirculateNotify { window: w }
        } else if tag == GRAVITY_NOTIFY {
            Event::GravityNotify { window: w }
        } else if tag == PROPERTY_NOTIFY {
            Event::PropertyNotify { window: word_at(b, 4) as u32 }
        } else if tag == CLIENT_MESSAGE {
            Event::ClientMessage { window: word_at(b, 4) as u32 }
        } else {
            Event::Unknown { tag }
        }
    }
}

/// Reads the little-endian word at `at`.
fn read_word(raw: &[u8], at: usize) -> (r: u32)
    requires
        at + 4 <= raw@.len(),
    ensures
        r as int == word_at(raw@, at as int),
{
    let b0 = raw[at] as u32;
    let b1 = raw[at + 1] as u32;
    let b2 = raw[at + 2] as u32;
    let b3 = raw[at + 3] as u32;
    b0 + b1 * 0x100 + b2 * 0x1_0000 + b3 * 0x100_0000
}

impl Event {
    /// Decodes a wire record. The kind is checked before any field is
    /// read; a record too short for an event gives `Undecodable`.
    pub fn decode(raw: &[u8]) -> (r: Event)
        ensures
            r == event_of(raw@),
    {
        if raw.len() < EVENT_SIZE {
            return Event::Undecodable;
        }
        let tag: u8 = raw[0] % 0x80;
        if tag == CREATE_NOTIFY {
            Event::CreateNotify { window: read_word(raw, 8), parent: read_word(raw, 4) }
        } else if tag == DESTROY_NOTIFY {
            Event::DestroyNotify { window: read_word(raw, 8) }
        } else if tag == REPARENT_NOTIFY {
            Event::ReparentNotify { window: read_word(raw, 8), parent: read_word(raw, 12) }
        } else if tag == MAP_NOTIFY {
            Event::MapNotify { window: read_word(raw, 8) }
        } else if tag == UNMAP_NOTIFY {
            Event::UnmapNotify { window: read_word(raw, 8) }
        } else if tag == CONFIGURE_NOTIFY {
            Event::ConfigureNotify { window: read_word(raw, 8) }
        } else if tag == CIRCULATE_NOTIFY {
            Event::CirculateNotify { window: read_word(raw, 8) }
        } else if tag == GRAVITY_NOTIFY {
            Event::GravityNotify { window: read_word(raw, 8) }
        } else if tag == PROPERTY_NOTIFY {
            Event::PropertyNotify { window: read_word(raw, 4) }
        } else if tag == CLIENT_MESSAGE {
            Event::ClientMessage { window: read_word(raw, 4) }
        } else {
            Event::Unknown { tag }
        }
    }
}

} // verus!
