//! Protocol engine for a 400x300 black/white/chromatic e-paper panel driven
//! over a synchronous serial bus with data/command, reset and busy lines.
//!
//! The panel controller exists in two hardware revisions with incompatible
//! command sequences, opposite busy-line polarity and different framebuffer
//! opcodes. The driver in [`driver`] keeps the panel state (revision flag and
//! background color) and, for every operation, computes the exact sequence of
//! bus operations ([`bus::BusOp`]) that must reach the panel. An unverified
//! harness owns the bus and the control lines and plays those sequences back;
//! nothing here performs I/O.

use vstd::prelude::*;

pub mod bus;
pub mod color;
pub mod command;
pub mod driver;
pub mod laws;
pub mod revision;

pub use color::DEFAULT_BACKGROUND_COLOR;
pub use color::TriColor;
pub use driver::Epd4in2bV2;
pub use driver::EpdError;
pub use driver::RefreshLut;

verus! {

/// Width of the display in pixels.
pub const WIDTH: u32 = 400;

/// Height of the display in pixels.
pub const HEIGHT: u32 = 300;

/// Bytes in one frame plane: one bit per pixel, eight pixels per byte,
/// row-major. Equals `WIDTH / 8 * HEIGHT`; see [`lemma_buffer_size`].
pub const BUFFER_SIZE: usize = 15000;

/// `BUFFER_SIZE` is exactly the plane size the fixed geometry dictates.
pub proof fn lemma_buffer_size()
    ensures
        BUFFER_SIZE == WIDTH / 8 * HEIGHT,
{
}

/// Bytes needed for a packed one-bit-per-pixel buffer of the given
/// dimensions, rounding each row up to whole bytes.
pub fn buffer_len(width: usize, height: usize) -> (len: usize)
    requires
        width + 7 <= usize::MAX,
        (width + 7) / 8 * height <= usize::MAX,
    ensures
        len == (width + 7) / 8 * height,
{
    (width + 7) / 8 * height
}

} // verus!
