//! The play-field and the speeds of what moves on it.
//!
//! The window is measured in pixels. Positions, sizes and speeds on the
//! play-field are counted in half pixels, so that an image with an odd
//! number of pixels can stand exactly in the middle.

use vstd::prelude::*;

verus! {

/// Width of the window in pixels.
pub const WINDOW_WIDTH: i64 = 640;

/// Height of the window in pixels.
pub const WINDOW_HEIGHT: i64 = 480;

/// Half pixels to the pixel.
pub const UNITS_PER_PIXEL: i64 = 2;

/// Width of the play-field in half pixels.
pub const FIELD_WIDTH: i64 = 1280;

/// Height of the play-field in half pixels.
pub const FIELD_HEIGHT: i64 = 960;

/// An entity this close to the top or bottom edge counts as touching it:
/// four pixels.
pub const EDGE_MARGIN: i64 = 8;

/// Gap between a paddle and the side wall behind it: sixteen pixels.
pub const PADDLE_INSET: i64 = 32;

/// Distance a paddle travels in one frame while its key is held: eight
/// pixels.
pub const PADDLE_SPEED: i64 = 16;

/// Distance the ball travels in one frame: five pixels.
pub const BALL_SPEED: i64 = 10;

/// The play-field is the window, in half pixels.
pub proof fn lemma_field_is_window()
    ensures
        FIELD_WIDTH == UNITS_PER_PIXEL * WINDOW_WIDTH,
        FIELD_HEIGHT == UNITS_PER_PIXEL * WINDOW_HEIGHT,
{
}

} // verus!
