//! Surface configuration defaults.

use vstd::prelude::*;

verus! {

/// Initial size and fill color of a spacer surface.
#[derive(Debug, Clone, Copy, PartialEq, Eq)]
pub struct SurfaceConfig {
    pub initial_width: u32,
    pub initial_height: u32,
    pub background_color: (u8, u8, u8),
}

impl Default for SurfaceConfig {
    /// A small gray surface.
    fn default() -> (r: Self)
        ensures
            r.initial_width == 200,
            r.initial_height == 100,
            r.background_color == (128u8, 128u8, 128u8),
    {
        SurfaceConfig {
            initial_width: 200,
            initial_height: 100,
            background_color: (128, 128, 128),
        }
    }
}

} // verus!
