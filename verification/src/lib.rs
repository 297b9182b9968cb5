//! Creates and maintains minimal "spacer" windows inside the niri tiling
//! Wayland compositor, to coerce its automatic layout into a desired shape.
//!
//! The crate verifies the logic of the system: the line-delimited JSON wire
//! protocol spoken to the compositor, the pure computations over workspace
//! and window listings, the correlation and placement engine that joins a
//! locally created native window to the compositor's asynchronously reported
//! window record, and the focus self-correction rules. Socket and Wayland
//! I/O, signal handling and command-line parsing live outside the library
//! and hand it plain values.

pub mod codec;
pub mod defaults;
pub mod engine;
pub mod error;
pub mod focus;
pub mod jtext;
pub mod native;
pub mod ops;
pub mod session;
pub mod signal;
pub mod surface;
pub mod wayland;
pub mod window;
pub mod wire;
pub mod workspace;

pub use error::{NiriSpacerError, SpacerResult};
pub use native::{NativeConfig, NativeWindow, NativeWindowConfig, NativeWindowRegistry};
pub use session::{NiriSessionInfo, SessionEnvironment, SessionValidator};
pub use signal::SignalHandler;
pub use window::SpacerWindow;
pub use wire::{NiriEvent, NiriRequest, NiriResponse, Window, Workspace};
pub use workspace::WorkspaceStats;

use vstd::prelude::*;

verus! {

/// Application name, used for window titles and diagnostics.
pub const APP_NAME: &'static str = "niri-spacer";

/// Application version string.
pub const APP_VERSION: &'static str = "0.1.0";

/// One-line description of the application.
pub const APP_DESCRIPTION: &'static str = "Spawns placeholder windows in niri workspaces";

/// Validates a requested window count: every count from the minimum
/// through the maximum is accepted, and any other count is rejected
/// with an error naming the offending value.
pub fn validate_window_count(count: u32) -> (r: error::SpacerResult<()>)
    ensures
        r is Ok <==> defaults::MIN_WINDOW_COUNT <= count <= defaults::MAX_WINDOW_COUNT,
        r is Err ==> r == Err::<(), error::NiriSpacerError>(
            error::NiriSpacerError::InvalidWindowCount(count),
        ),
{
    if defaults::MIN_WINDOW_COUNT <= count && count <= defaults::MAX_WINDOW_COUNT {
        Ok(())
    } else {
        Err(error::NiriSpacerError::InvalidWindowCount(count))
    }
}

} // verus!
