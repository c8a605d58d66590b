//! Application-level events and the decoding of packed notification payloads.
use vstd::prelude::*;

verus! {

/// What the application observes when it polls a window.
#[derive(Debug, Clone, Copy, PartialEq, Eq, Structural)]
pub enum Event {
    /// The window received a close or destroy notification.
    Quit,
    /// New client-area width and height.
    Resize(u32, u32),
    /// The platform proposes this DPI for the window.
    Dpi(usize),
}

/// The low 16 bits of a 32-bit payload.
pub open spec fn low_word(v: u32) -> u32 {
    (v % 0x10000) as u32
}

/// The high 16 bits of a 32-bit payload.
pub open spec fn high_word(v: u32) -> u32 {
    (v / 0x10000) as u32
}

/// Decodes a size-change payload: width in the low 16 bits of its low 32 bits,
/// height in the 16 bits above them.
pub fn resize_event(l_param: isize) -> (r: Event)
    ensures
        r == Event::Resize(low_word(l_param as u32), high_word(l_param as u32)),
{
    let v: u32 = l_param as u32;
    let width: u32 = v & 0xffff;
    let height: u32 = (v >> 16u32) & 0xffff;
    assert(width == v % 0x10000) by (bit_vector)
        requires
            width == v & 0xffff,
    ;
    assert(height == v / 0x10000) by (bit_vector)
        requires
            height == (v >> 16u32) & 0xffff,
    ;
    Event::Resize(width, height)
}

} // verus!
