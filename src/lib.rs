//! Text pictures of raster images: a luminance grid is resized for terminal cells and
//! each sample is drawn as a glyph of a density ramp.
use vstd::prelude::*;

pub mod pipeline;
pub mod planner;
pub mod ramp;
pub mod render;

pub use pipeline::{fits_in_memory, image_to_ascii, nonempty_target, process_image};
pub use planner::{plan_dimensions, Dimensions, TerminalSize};
pub use ramp::{quantize, Ramp};
pub use render::{render, LumaImage};

verus! {

} // verus!
