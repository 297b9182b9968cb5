//! Default configuration values.

use vstd::prelude::*;

verus! {

/// Default number of spacer windows to create.
pub const DEFAULT_WINDOW_COUNT: u32 = 9;

/// Minimum allowed window count.
pub const MIN_WINDOW_COUNT: u32 = 1;

/// Maximum allowed window count.
pub const MAX_WINDOW_COUNT: u32 = 50;

/// Default delay between window spawns (milliseconds).
pub const DEFAULT_SPAWN_DELAY_MS: u64 = 50;

/// Default delay between IPC operations (milliseconds).
pub const DEFAULT_OPERATION_DELAY_MS: u64 = 25;

} // verus!
