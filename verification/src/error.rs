//! Error taxonomy for spacer operations.
//!
//! Session and configuration errors, transport errors, compositor-reported
//! errors, correlation timeouts and invalid input each get a distinct
//! variant so callers can react per kind.

use vstd::prelude::*;
use vstd::string::StringExecFns;
use crate::jtext::{dec, u64_string};

verus! {

/// Errors raised by the spacer library and its collaborators.
#[derive(Debug, Clone, PartialEq, Eq)]
pub enum NiriSpacerError {
    /// Not running in a niri session.
    NotNiriSession,
    /// The compositor socket path environment variable is not set.
    NoSocketPath,
    /// The socket path does not exist on disk.
    InvalidSocketPath(String),
    /// Connecting to the compositor socket failed; carries the I/O message.
    SocketConnection(String),
    /// A wire frame could not be encoded or decoded.
    JsonSerialization(String),
    /// Transport-level failure (no response, stream error).
    IpcError(String),
    /// Window count outside the accepted range; carries the offending value.
    InvalidWindowCount(u32),
    /// Timeout waiting for an operation to complete.
    OperationTimeout,
    /// The compositor answered with an error envelope; carries its message.
    NiriError(String),
    /// The compositor's reply did not match the request's expected payload.
    UnexpectedResponse,
    /// No workspace with the given id exists.
    WorkspaceNotFound(u64),
    /// No window with the given id exists.
    WindowNotFound(u64),
    /// A resize action was refused; carries the compositor's message.
    WindowResize(String),
    /// A move action was refused; carries the compositor's message.
    WindowMove(String),
    /// A focus action was refused; carries the compositor's message.
    WindowFocus(String),
    /// Connecting to the Wayland display failed.
    WaylandConnection(String),
    /// Creating a window surface failed.
    SurfaceCreation(String),
    /// Allocating a shared-memory buffer failed.
    BufferAllocation(String),
    /// Creating a native window failed.
    NativeWindowCreation(String),
    /// A native window never appeared compositor-side within the timeout.
    WindowCorrelation(String),
    /// A Wayland protocol error ended the dispatch loop.
    WaylandProtocol(String),
    /// Native windows are not supported in this environment.
    NativeNotSupported,
    /// A cross-thread channel was closed unexpectedly.
    ChannelError(String),
    /// Installing the signal handler failed.
    SignalHandling(String),
    /// A required helper program is missing; carries the reason.
    ProcessSpawn(String),
    /// A background color string is not six hexadecimal digits; carries
    /// the offending text.
    InvalidColor(String),
}

pub type SpacerResult<T> = Result<T, NiriSpacerError>;

/// The user-visible text of each error.
pub open spec fn error_message_spec(e: NiriSpacerError) -> Seq<char> {
    match e {
        NiriSpacerError::NotNiriSession => "Not running in a niri session"@,
        NiriSpacerError::NoSocketPath => "NIRI_SOCKET environment variable not set"@,
        NiriSpacerError::InvalidSocketPath(p) => "Invalid socket path: "@ + p@,
        NiriSpacerError::SocketConnection(m) => "Failed to connect to niri socket: "@ + m@,
        NiriSpacerError::JsonSerialization(m) => "JSON serialization error: "@ + m@,
        NiriSpacerError::IpcError(m) => "IPC communication error: "@ + m@,
        NiriSpacerError::InvalidWindowCount(n) =>
            "Window count must be between 1 and 50, got "@ + dec(n as nat),
        NiriSpacerError::OperationTimeout => "Timeout waiting for operation to complete"@,
        NiriSpacerError::NiriError(m) => "niri returned error: "@ + m@,
        NiriSpacerError::UnexpectedResponse => "Unexpected response format from niri"@,
        NiriSpacerError::WorkspaceNotFound(n) => "Workspace not found: "@ + dec(n as nat),
        NiriSpacerError::WindowNotFound(n) => "Window not found: "@ + dec(n as nat),
        NiriSpacerError::WindowResize(m) => "Failed to resize window: "@ + m@,
        NiriSpacerError::WindowMove(m) => "Failed to move window: "@ + m@,
        NiriSpacerError::WindowFocus(m) => "Failed to focus window: "@ + m@,
        NiriSpacerError::WaylandConnection(m) => "Wayland connection failed: "@ + m@,
        NiriSpacerError::SurfaceCreation(m) => "Window surface creation failed: "@ + m@,
        NiriSpacerError::BufferAllocation(m) => "Buffer allocation failed: "@ + m@,
        NiriSpacerError::NativeWindowCreation(m) => "Native window creation failed: "@ + m@,
        NiriSpacerError::WindowCorrelation(m) => "Window correlation failed: "@ + m@,
        NiriSpacerError::WaylandProtocol(m) => "Wayland protocol error: "@ + m@,
        NiriSpacerError::NativeNotSupported => "Native window not supported"@,
        NiriSpacerError::ChannelError(m) => "Channel communication error: "@ + m@,
        NiriSpacerError::SignalHandling(m) => "Signal handling error: "@ + m@,
        NiriSpacerError::ProcessSpawn(m) => "Failed to spawn process: "@ + m@,
        NiriSpacerError::InvalidColor(m) => "Invalid hex color format: "@ + m@,
    }
}

impl NiriSpacerError {
    /// The user-visible text of this error.
    pub fn message(&self) -> (r: String)
        ensures
            r@ == error_message_spec(*self),
    {
        match self {
            NiriSpacerError::NotNiriSession => "Not running in a niri session".to_owned(),
            NiriSpacerError::NoSocketPath =>
                "NIRI_SOCKET environment variable not set".to_owned(),
            NiriSpacerError::InvalidSocketPath(p) => prefixed("Invalid socket path: ", p),
            NiriSpacerError::SocketConnection(m) =>
                prefixed("Failed to connect to niri socket: ", m),
            NiriSpacerError::JsonSerialization(m) => prefixed("JSON serialization error: ", m),
            NiriSpacerError::IpcError(m) => prefixed("IPC communication error: ", m),
            NiriSpacerError::InvalidWindowCount(n) => {
                let mut s = "Window count must be between 1 and 50, got ".to_owned();
                let d = u64_string(*n as u64);
                s.append(d.as_str());
                s
            },
            NiriSpacerError::OperationTimeout =>
                "Timeout waiting for operation to complete".to_owned(),
            NiriSpacerError::NiriError(m) => prefixed("niri returned error: ", m),
            NiriSpacerError::UnexpectedResponse =>
                "Unexpected response format from niri".to_owned(),
            NiriSpacerError::WorkspaceNotFound(n) => {
                let mut s = "Workspace not found: ".to_owned();
                let d = u64_string(*n);
                s.append(d.as_str());
                s
            },
            NiriSpacerError::WindowNotFound(n) => {
                let mut s = "Window not found: ".to_owned();
                let d = u64_string(*n);
                s.append(d.as_str());
                s
            },
            NiriSpacerError::WindowResize(m) => prefixed("Failed to resize window: ", m),
            NiriSpacerError::WindowMove(m) => prefixed("Failed to move window: ", m),
            NiriSpacerError::WindowFocus(m) => prefixed("Failed to focus window: ", m),
            NiriSpacerError::WaylandConnection(m) => prefixed("Wayland connection failed: ", m),
            NiriSpacerError::SurfaceCreation(m) =>
                prefixed("Window surface creation failed: ", m),
            NiriSpacerError::BufferAllocation(m) => prefixed("Buffer allocation failed: ", m),
            NiriSpacerError::NativeWindowCreation(m) =>
                prefixed("Native window creation failed: ", m),
            NiriSpacerError::WindowCorrelation(m) => prefixed("Window correlation failed: ", m),
            NiriSpacerError::WaylandProtocol(m) => prefixed("Wayland protocol error: ", m),
            NiriSpacerError::NativeNotSupported => "Native window not supported".to_owned(),
            NiriSpacerError::ChannelError(m) => prefixed("Channel communication error: ", m),
            NiriSpacerError::SignalHandling(m) => prefixed("Signal handling error: ", m),
            NiriSpacerError::ProcessSpawn(m) => prefixed("Failed to spawn process: ", m),
            NiriSpacerError::InvalidColor(m) => prefixed("Invalid hex color format: ", m),
        }
    }
}

/// A prefix followed by a carried message.
fn prefixed(prefix: &str, m: &String) -> (r: String)
    ensures
        r@ == prefix@ + m@,
{
    let mut s = prefix.to_owned();
    s.append(m.as_str());
    s
}

} // verus!
