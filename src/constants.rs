use vstd::prelude::*;

verus! {

/// Width of the window that the program opens, in pixels.
pub const WINDOW_WIDTH: u32 = 800;

/// Height of the window that the program opens, in pixels.
pub const WINDOW_HEIGHT: u32 = 600;

/// How many frames the host may record ahead of the device; also the number
/// of synchronization triples (image-available, render-finished, in-flight).
pub const MAX_FRAMES_IN_FLIGHT: usize = 2;

} // verus!
