//! The render surface: terminal geometry plus an output sink.
//!
//! The driver exclusively owns the surface and lends it, mutably, to the
//! active state for the duration of one call.  This engine never interprets
//! layout; it only passes the surface through.  The sink itself is a plain
//! byte buffer: the process edge that flushes those bytes to a real
//! terminal lives outside this crate.

use vstd::prelude::*;

verus! {

use vstd::string::StringSliceAdditionalSpecFns;

/// Terminal geometry as the rendering collaborator last reported it.
#[derive(Clone, Copy, Debug)]
pub struct Screen {
    /// Width in character cells.
    pub width: u16,
    /// Height in character cells.
    pub height: u16,
}

impl Screen {
    /// A surface of the given geometry.
    pub fn new(width: u16, height: u16) -> (s: Screen)
        ensures
            s.width == width,
            s.height == height,
    {
        Screen { width, height }
    }

    /// Records a terminal resize.
    pub fn set_dimensions(&mut self, width: u16, height: u16)
        ensures
            final(self).width == width,
            final(self).height == height,
    {
        self.width = width;
        self.height = height;
    }
}

/// Appends the bytes of `text` to the output sink `w`.
///
/// This is the one place the engine itself writes to the sink: showing a
/// recoverable error message over the current state.
pub fn write_text(w: &mut Vec<u8>, text: &str)
    ensures
        final(w)@ == old(w)@ + text.spec_bytes(),
{
    let mut bytes = text.as_bytes_vec();
    w.append(&mut bytes);
}

} // verus!
