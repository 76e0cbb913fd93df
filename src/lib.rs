//! Driver core for SK6812-class RGBW LED strips: a four-channel color model with
//! saturating arithmetic, the single-wire bit encoder, and the strip buffer.

pub mod led;
pub mod strip;

pub use led::Led;
pub use strip::Strip;

use vstd::prelude::*;

verus! {

/// `Strip` under a name that spells out the LED model it drives.
pub type SK6812RGBWStrip<T> = Strip<T>;

} // verus!
