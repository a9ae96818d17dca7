use vstd::prelude::*;

verus! {

/// The default window width, in pixels.
pub const WIDTH: u32 = 800;

/// The default window height, in pixels.
pub const HEIGHT: u32 = 600;

/// The smallest window width the application accepts.
pub const MINIMAL_WIDTH: u32 = 100;

/// The smallest window height the application accepts.
pub const MINIMAL_HEIGHT: u32 = 100;

/// The largest window width the application accepts.
pub const MAXIMUM_WIDTH: u32 = 1920;

/// The largest window height the application accepts.
pub const MAXIMUM_HEIGHT: u32 = 1080;

/// How many frames may be in flight at once.
pub const MAX_FRAMES_IN_FLIGHT: usize = 2;

} // verus!
