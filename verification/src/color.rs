//! Colors of the three-color panel.

use vstd::prelude::*;

verus! {

/// The three colors a pixel of the panel can show.
#[derive(Clone, Copy, Debug, PartialEq, Eq, Structural)]
pub enum TriColor {
    /// Black pixel.
    Black,
    /// White pixel (no ink driven).
    White,
    /// The panel's third color, red on this module.
    Chromatic,
}

/// Background color a freshly constructed driver starts with.
pub const DEFAULT_BACKGROUND_COLOR: TriColor = TriColor::White;

} // verus!
