//! A verified core for a terminal camera viewer.
//!
//! Each captured frame runs through a fixed pipeline: a packed 4:2:2
//! luma/chroma buffer is converted to packed RGB, resampled to the terminal's
//! character grid, and turned into a sequence of terminal drawing commands,
//! while a one-shot watcher flips a cancellation flag on the first key press.
//! The conversion, the rendering plan and the session state machine are
//! verified here; the resampler and all device and terminal I/O stay outside,
//! behind stated contracts.

use vstd::prelude::*;

pub mod color;
pub mod render;
pub mod scale;
pub mod session;

verus! {

} // verus!
