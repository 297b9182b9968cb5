//! Typed compositor operations.
//!
//! One request builder per operation, and interpreters that turn a reply
//! envelope into the operation's result, mapping an error envelope to the
//! operation-specific error kind for caller diagnostics. The socket
//! itself lives outside the library: callers write the encoded line, read
//! one reply line, and hand it back here.

use vstd::prelude::*;
use crate::codec::{decode_response, jp_response_line};
use crate::error::{NiriSpacerError, SpacerResult};
use crate::wire::{
    NiriAction, NiriActionV, NiriRequest, NiriRequestV, NiriResponse, NiriResponseV,
    ResponseData, ResponseDataV, SizeChange, Window, WindowV, Workspace, WorkspaceReferenceArg,
    WorkspaceReferenceArgV, WorkspaceV,
};

verus! {

/// The request that lists all workspaces.
pub fn workspaces_request() -> (r: NiriRequest)
    ensures
        r@ == NiriRequestV::Workspaces,
{
    NiriRequest::Workspaces
}

/// The request that lists all windows.
pub fn windows_request() -> (r: NiriRequest)
    ensures
        r@ == NiriRequestV::Windows,
{
    NiriRequest::Windows
}

/// The request that upgrades a connection to a one-way event stream.
pub fn event_stream_request() -> (r: NiriRequest)
    ensures
        r@ == NiriRequestV::EventStream,
{
    NiriRequest::EventStream
}

/// The action that spawns a process.
pub fn spawn_action(command: Vec<String>) -> (r: NiriAction)
    ensures
        r@ == (NiriActionV::Spawn { command: command.deep_view() }),
{
    NiriAction::Spawn { command: command }
}

/// The action that shrinks a window to its minimum width, to trigger a
/// column resize.
pub fn resize_window_to_minimum_action(window_id: u64) -> (r: NiriAction)
    ensures
        r@ == (NiriActionV::SetWindowWidth {
            id: Some(window_id),
            change: SizeChange::SetFixed(1),
        }),
{
    NiriAction::SetWindowWidth { id: Some(window_id), change: SizeChange::SetFixed(1) }
}

/// The action that moves a window to the workspace at a position index,
/// without focusing it.
pub fn move_window_to_workspace_index_action(window_id: u64, workspace_idx: u8) -> (r: NiriAction)
    ensures
        r@ == (NiriActionV::MoveWindowToWorkspace {
            window_id: Some(window_id),
            reference: WorkspaceReferenceArgV::Index(workspace_idx as u64),
            focus: false,
        }),
{
    NiriAction::MoveWindowToWorkspace {
        window_id: Some(window_id),
        reference: WorkspaceReferenceArg::Index(workspace_idx as u64),
        focus: false,
    }
}

/// The action that focuses a window.
pub fn focus_window_action(window_id: u64) -> (r: NiriAction)
    ensures
        r@ == (NiriActionV::FocusWindow { id: window_id }),
{
    NiriAction::FocusWindow { id: window_id }
}

/// The action that focuses the workspace at a position index.
pub fn focus_workspace_index_action(workspace_idx: u8) -> (r: NiriAction)
    ensures
        r@ == (NiriActionV::FocusWorkspace {
            reference: WorkspaceReferenceArgV::Index(workspace_idx as u64),
        }),
{
    NiriAction::FocusWorkspace {
        reference: WorkspaceReferenceArg::Index(workspace_idx as u64),
    }
}

/// The action that moves the focused column one step to the left.
pub fn move_column_left_action() -> (r: NiriAction)
    ensures
        r@ == NiriActionV::MoveColumnLeft,
{
    NiriAction::MoveColumnLeft {}
}

/// The action that moves the focused column to the first position.
pub fn move_column_to_first_action() -> (r: NiriAction)
    ensures
        r@ == NiriActionV::MoveColumnToFirst,
{
    NiriAction::MoveColumnToFirst {}
}

/// The action that moves keyboard focus one column to the right.
pub fn focus_column_right_action() -> (r: NiriAction)
    ensures
        r@ == NiriActionV::FocusColumnRight,
{
    NiriAction::FocusColumnRight {}
}

/// The action that moves keyboard focus one column to the left.
pub fn focus_column_left_action() -> (r: NiriAction)
    ensures
        r@ == NiriActionV::FocusColumnLeft,
{
    NiriAction::FocusColumnLeft {}
}

/// The action that centers the focused column.
pub fn center_column_action() -> (r: NiriAction)
    ensures
        r@ == NiriActionV::CenterColumn,
{
    NiriAction::CenterColumn {}
}

/// The action that sets the focused column's width.
pub fn set_column_width_action(change: SizeChange) -> (r: NiriAction)
    ensures
        r@ == (NiriActionV::SetColumnWidth { change: change }),
{
    NiriAction::SetColumnWidth { change: change }
}

/// The action that toggles the focused column's maximized state.
pub fn maximize_column_action() -> (r: NiriAction)
    ensures
        r@ == NiriActionV::MaximizeColumn,
{
    NiriAction::MaximizeColumn {}
}

/// Which error variant an action's failure is reported as.
#[derive(Debug, Clone, Copy, PartialEq, Eq, Structural)]
pub enum ActionErrorKind {
    Resize,
    Move,
    Focus,
    Generic,
}

/// Whether an error value is the right report for an action failure of
/// the given kind carrying the given compositor message.
pub open spec fn is_action_error(kind: ActionErrorKind, msg: Seq<char>, e: NiriSpacerError) -> bool {
    match kind {
        ActionErrorKind::Resize => e matches NiriSpacerError::WindowResize(m) && m@ == msg,
        ActionErrorKind::Move => e matches NiriSpacerError::WindowMove(m) && m@ == msg,
        ActionErrorKind::Focus => e matches NiriSpacerError::WindowFocus(m) && m@ == msg,
        ActionErrorKind::Generic => e matches NiriSpacerError::NiriError(m) && m@ == msg,
    }
}

/// Interprets a reply to an action: any success payload acknowledges the
/// action; an error envelope becomes the operation-specific error kind.
pub fn interpret_action_response(resp: NiriResponse, kind: ActionErrorKind) -> (r: SpacerResult<()>)
    ensures
        match resp@ {
            NiriResponseV::Success(_) => r is Ok,
            NiriResponseV::Error(msg) => r matches Err(e) && is_action_error(kind, msg, e),
        },
{
    match resp {
        NiriResponse::Success(_) => Ok(()),
        NiriResponse::Error(msg) => match kind {
            ActionErrorKind::Resize => Err(NiriSpacerError::WindowResize(msg)),
            ActionErrorKind::Move => Err(NiriSpacerError::WindowMove(msg)),
            ActionErrorKind::Focus => Err(NiriSpacerError::WindowFocus(msg)),
            ActionErrorKind::Generic => Err(NiriSpacerError::NiriError(msg)),
        },
    }
}

/// Interprets a reply to the workspace-list request: exactly a workspace
/// payload succeeds; an error envelope carries the compositor's message;
/// any other payload is an unexpected response.
pub fn interpret_workspaces_response(resp: NiriResponse) -> (r: SpacerResult<Vec<Workspace>>)
    ensures
        match resp@ {
            NiriResponseV::Success(ResponseDataV::Workspaces(ws)) => r matches Ok(v)
                && v@.map_values(|w: Workspace| w@) == ws,
            NiriResponseV::Success(_) => r matches Err(NiriSpacerError::UnexpectedResponse),
            NiriResponseV::Error(msg) => r matches Err(NiriSpacerError::NiriError(m)) && m@ == msg,
        },
{
    match resp {
        NiriResponse::Success(ResponseData::Workspaces(ws)) => Ok(ws),
        NiriResponse::Success(_) => Err(NiriSpacerError::UnexpectedResponse),
        NiriResponse::Error(msg) => Err(NiriSpacerError::NiriError(msg)),
    }
}

/// Interprets a reply to the window-list request, as for workspaces.
pub fn interpret_windows_response(resp: NiriResponse) -> (r: SpacerResult<Vec<Window>>)
    ensures
        match resp@ {
            NiriResponseV::Success(ResponseDataV::Windows(ws)) => r matches Ok(v)
                && v@.map_values(|w: Window| w@) == ws,
            NiriResponseV::Success(_) => r matches Err(NiriSpacerError::UnexpectedResponse),
            NiriResponseV::Error(msg) => r matches Err(NiriSpacerError::NiriError(m)) && m@ == msg,
        },
{
    match resp {
        NiriResponse::Success(ResponseData::Windows(ws)) => Ok(ws),
        NiriResponse::Success(_) => Err(NiriSpacerError::UnexpectedResponse),
        NiriResponse::Error(msg) => Err(NiriSpacerError::NiriError(msg)),
    }
}

/// Decodes one reply line, reporting an undecodable line as a transport
/// decode failure.
pub fn parse_response_line(line: &str) -> (r: SpacerResult<NiriResponse>)
    ensures
        match jp_response_line(line@) {
            Some(rv) => r matches Ok(resp) && resp@ == rv,
            None => r matches Err(NiriSpacerError::JsonSerialization(m)) && m@ == line@,
        },
{
    match decode_response(line) {
        Some(resp) => Ok(resp),
        None => Err(NiriSpacerError::JsonSerialization(line.to_owned())),
    }
}

} // verus!
