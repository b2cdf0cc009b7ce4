//! SDL2 side of the binding layer: the raw event buffer and, in the
//! submodules, the library bootstrap wrapper and the window wrapper.
//! Native calls stay outside the crate; these types hold the state the
//! calls read and fill, as plain values.

use vstd::prelude::*;

pub mod instance;
pub mod window;

verus! {

/// Event type value of the quit request.
pub const SDL_QUIT: u32 = 0x100;

/// Flag that selects the video subsystem at library initialization.
pub const SDL_INIT_VIDEO: u32 = 0x00000020;

/// Size in bytes of the native event union.
pub const SDL_EVENT_SIZE: usize = 56;

/// The event type stored in the first four bytes of a raw event buffer,
/// read as a little-endian 32-bit value.
pub open spec fn spec_event_type(s: Seq<u8>) -> u32
    recommends
        s.len() >= 4,
{
    (s[0] + s[1] * 0x100 + s[2] * 0x10000 + s[3] * 0x1000000) as u32
}

/// A raw fixed-size event buffer, as the native poll call fills it.
#[allow(non_camel_case_types)]
pub struct SDL_Event {
    buffer: [u8; SDL_EVENT_SIZE],
}

impl SDL_Event {
    pub closed spec fn bytes(&self) -> Seq<u8> {
        self.buffer@
    }

    /// A zeroed buffer, ready to be handed to the native poll call.
    pub fn new() -> (r: SDL_Event)
        ensures
            r.bytes() == Seq::new(SDL_EVENT_SIZE as nat, |i: int| 0u8),
            r.bytes().len() == SDL_EVENT_SIZE,
    {
        SDL_Event { buffer: [0; SDL_EVENT_SIZE] }
    }

    /// Wrap a buffer the native poll call has filled.
    pub fn from_bytes(buffer: [u8; SDL_EVENT_SIZE]) -> (r: SDL_Event)
        ensures
            r.bytes() == buffer@,
    {
        SDL_Event { buffer }
    }

    /// The event's type, decoded from the first four buffer bytes.
    pub fn get_type(&self) -> (r: u32)
        ensures
            r == spec_event_type(self.bytes()),
    {
        let b0 = self.buffer[0] as u32;
        let b1 = self.buffer[1] as u32;
        let b2 = self.buffer[2] as u32;
        let b3 = self.buffer[3] as u32;
        b0 + b1 * 0x100 + b2 * 0x10000 + b3 * 0x1000000
    }
}

} // verus!
