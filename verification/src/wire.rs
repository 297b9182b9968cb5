//! Data model of the compositor's IPC protocol.
//!
//! Requests, actions, responses and events are closed tagged unions,
//! exhaustively matched at every consumer. Proportional size changes are
//! carried as integer thousandths of the proportion, so the whole protocol
//! model is made of plain values.

use vstd::prelude::*;

verus! {

/// A request message sent to the compositor, one JSON value per line.
#[derive(Debug, Clone, PartialEq, Eq)]
pub enum NiriRequest {
    Workspaces,
    Windows,
    Action(NiriAction),
    EventStream,
}

/// A window or column size change.
///
/// Proportions travel on the wire as decimal fractions; the model holds
/// them as thousandths, so `SetProportion(500)` means one half.
#[derive(Debug, Clone, PartialEq, Eq)]
pub enum SizeChange {
    SetFixed(i32),
    SetProportion(u32),
    AdjustFixed(i32),
    AdjustProportion(i32),
}

/// A workspace reference, by position index or by name.
#[derive(Debug, Clone, PartialEq, Eq)]
pub enum WorkspaceReferenceArg {
    Index(u64),
    Name(String),
}

/// An action the compositor is asked to perform.
#[derive(Debug, Clone, PartialEq, Eq)]
pub enum NiriAction {
    Spawn { command: Vec<String> },
    SetWindowWidth { id: Option<u64>, change: SizeChange },
    SetWindowHeight { id: Option<u64>, change: SizeChange },
    MoveWindowToWorkspace {
        window_id: Option<u64>,
        reference: WorkspaceReferenceArg,
        focus: bool,
    },
    FocusWindow { id: u64 },
    MoveColumnLeft {},
    MoveColumnToFirst {},
    FocusWorkspace { reference: WorkspaceReferenceArg },
    FocusColumnRight {},
    FocusColumnLeft {},
    CenterColumn {},
    SetColumnWidth { change: SizeChange },
    MaximizeColumn {},
}

/// A reply envelope: success payload or compositor error message.
///
/// On the wire the two arms are tagged `Ok` and `Err`.
#[derive(Debug, Clone, PartialEq, Eq)]
pub enum NiriResponse {
    Success(ResponseData),
    Error(String),
}

/// The payload of a successful reply.
///
/// An acknowledgment whose payload is none of the recognized shapes is
/// `Empty`.
#[derive(Debug, Clone, PartialEq, Eq)]
pub enum ResponseData {
    Workspaces(Vec<Workspace>),
    Windows(Vec<Window>),
    Event(NiriEvent),
    Empty,
}

/// A workspace as the compositor reports it.
///
/// `id` is an opaque, non-sequential handle; `idx` is the user-facing
/// position index used for placement.
#[derive(Debug, PartialEq, Eq)]
pub struct Workspace {
    pub id: u64,
    pub idx: u8,
    pub name: Option<String>,
    pub output: Option<String>,
    pub is_urgent: bool,
    pub is_active: bool,
    pub is_focused: bool,
    pub active_window_id: Option<u64>,
}

/// Position of a window inside the scrolling tile layout.
///
/// `pos_in_scrolling_layout` is `(column_index, tile_index)` with a
/// 1-based column; its absence means the window floats outside the
/// column model.
#[derive(Debug, Clone, Copy, PartialEq, Eq)]
pub struct WindowLayout {
    pub pos_in_scrolling_layout: Option<(u64, u64)>,
}

/// A window as the compositor reports it.
///
/// A missing `layout` means the compositor build predates layout
/// reporting, so column position cannot be verified.
#[derive(Debug, PartialEq, Eq)]
pub struct Window {
    pub id: u64,
    pub title: String,
    pub app_id: String,
    pub pid: u32,
    pub workspace_id: u64,
    pub is_focused: bool,
    pub is_floating: bool,
    pub is_urgent: bool,
    pub layout: Option<WindowLayout>,
}

/// An event pushed by the compositor on a subscribed connection.
#[derive(Debug, Clone, PartialEq, Eq)]
pub enum NiriEvent {
    WindowOpened { window: Window },
    WindowClosed { window_id: u64 },
    WindowFocusChanged { id: u64 },
    WorkspaceActiveWindowChanged { workspace_id: u64, active_window_id: u64 },
}

// ---------------------------------------------------------------------------
// Mathematical views
//
// Contracts speak about these models: every `String` becomes a `Seq<char>`
// and every `Vec` a `Seq`, while plain fields stay as they are.
// ---------------------------------------------------------------------------

pub ghost struct WorkspaceV {
    pub id: u64,
    pub idx: u8,
    pub name: Option<Seq<char>>,
    pub output: Option<Seq<char>>,
    pub is_urgent: bool,
    pub is_active: bool,
    pub is_focused: bool,
    pub active_window_id: Option<u64>,
}

pub ghost struct WindowV {
    pub id: u64,
    pub title: Seq<char>,
    pub app_id: Seq<char>,
    pub pid: u32,
    pub workspace_id: u64,
    pub is_focused: bool,
    pub is_floating: bool,
    pub is_urgent: bool,
    pub layout: Option<WindowLayout>,
}

pub ghost enum WorkspaceReferenceArgV {
    Index(u64),
    Name(Seq<char>),
}

pub ghost enum NiriActionV {
    Spawn { command: Seq<Seq<char>> },
    SetWindowWidth { id: Option<u64>, change: SizeChange },
    SetWindowHeight { id: Option<u64>, change: SizeChange },
    MoveWindowToWorkspace {
        window_id: Option<u64>,
        reference: WorkspaceReferenceArgV,
        focus: bool,
    },
    FocusWindow { id: u64 },
    MoveColumnLeft,
    MoveColumnToFirst,
    FocusWorkspace { reference: WorkspaceReferenceArgV },
    FocusColumnRight,
    FocusColumnLeft,
    CenterColumn,
    SetColumnWidth { change: SizeChange },
    MaximizeColumn,
}

pub ghost enum NiriRequestV {
    Workspaces,
    Windows,
    Action(NiriActionV),
    EventStream,
}

pub ghost enum NiriEventV {
    WindowOpened { window: WindowV },
    WindowClosed { window_id: u64 },
    WindowFocusChanged { id: u64 },
    WorkspaceActiveWindowChanged { workspace_id: u64, active_window_id: u64 },
}

pub ghost enum ResponseDataV {
    Workspaces(Seq<WorkspaceV>),
    Windows(Seq<WindowV>),
    Event(NiriEventV),
    Empty,
}

pub ghost enum NiriResponseV {
    Success(ResponseDataV),
    Error(Seq<char>),
}

/// Copies an optional string.
pub fn clone_opt_string(o: &Option<String>) -> (r: Option<String>)
    ensures
        r == *o,
{
    match o {
        Some(s) => Some(s.clone()),
        None => None,
    }
}

impl Clone for Workspace {
    /// The copy carries exactly the same fields.
    fn clone(&self) -> (r: Self)
        ensures
            r == *self,
    {
        Workspace {
            id: self.id,
            idx: self.idx,
            name: clone_opt_string(&self.name),
            output: clone_opt_string(&self.output),
            is_urgent: self.is_urgent,
            is_active: self.is_active,
            is_focused: self.is_focused,
            active_window_id: self.active_window_id,
        }
    }
}

impl Clone for Window {
    /// The copy carries exactly the same fields.
    fn clone(&self) -> (r: Self)
        ensures
            r == *self,
    {
        Window {
            id: self.id,
            title: self.title.clone(),
            app_id: self.app_id.clone(),
            pid: self.pid,
            workspace_id: self.workspace_id,
            is_focused: self.is_focused,
            is_floating: self.is_floating,
            is_urgent: self.is_urgent,
            layout: self.layout,
        }
    }
}

pub open spec fn view_opt_str(o: Option<String>) -> Option<Seq<char>> {
    match o {
        Option::Some(s) => Option::Some(s@),
        Option::None => Option::None,
    }
}

impl View for Workspace {
    type V = WorkspaceV;

    open spec fn view(&self) -> WorkspaceV {
        WorkspaceV {
            id: self.id,
            idx: self.idx,
            name: view_opt_str(self.name),
            output: view_opt_str(self.output),
            is_urgent: self.is_urgent,
            is_active: self.is_active,
            is_focused: self.is_focused,
            active_window_id: self.active_window_id,
        }
    }
}

impl View for Window {
    type V = WindowV;

    open spec fn view(&self) -> WindowV {
        WindowV {
            id: self.id,
            title: self.title@,
            app_id: self.app_id@,
            pid: self.pid,
            workspace_id: self.workspace_id,
            is_focused: self.is_focused,
            is_floating: self.is_floating,
            is_urgent: self.is_urgent,
            layout: self.layout,
        }
    }
}

impl View for WorkspaceReferenceArg {
    type V = WorkspaceReferenceArgV;

    open spec fn view(&self) -> WorkspaceReferenceArgV {
        match *self {
            WorkspaceReferenceArg::Index(n) => WorkspaceReferenceArgV::Index(n),
            WorkspaceReferenceArg::Name(ref s) => WorkspaceReferenceArgV::Name(s@),
        }
    }
}

impl View for NiriAction {
    type V = NiriActionV;

    open spec fn view(&self) -> NiriActionV {
        match *self {
            NiriAction::Spawn { ref command } => NiriActionV::Spawn {
                command: command.deep_view(),
            },
            NiriAction::SetWindowWidth { id, change } => NiriActionV::SetWindowWidth {
                id: id,
                change: change,
            },
            NiriAction::SetWindowHeight { id, change } => NiriActionV::SetWindowHeight {
                id: id,
                change: change,
            },
            NiriAction::MoveWindowToWorkspace { window_id, ref reference, focus } =>
                NiriActionV::MoveWindowToWorkspace {
                    window_id: window_id,
                    reference: reference@,
                    focus: focus,
                },
            NiriAction::FocusWindow { id } => NiriActionV::FocusWindow { id: id },
            NiriAction::MoveColumnLeft {} => NiriActionV::MoveColumnLeft,
            NiriAction::MoveColumnToFirst {} => NiriActionV::MoveColumnToFirst,
            NiriAction::FocusWorkspace { ref reference } => NiriActionV::FocusWorkspace {
                reference: reference@,
            },
            NiriAction::FocusColumnRight {} => NiriActionV::FocusColumnRight,
            NiriAction::FocusColumnLeft {} => NiriActionV::FocusColumnLeft,
            NiriAction::CenterColumn {} => NiriActionV::CenterColumn,
            NiriAction::SetColumnWidth { change } => NiriActionV::SetColumnWidth {
                change: change,
            },
            NiriAction::MaximizeColumn {} => NiriActionV::MaximizeColumn,
        }
    }
}

impl View for NiriRequest {
    type V = NiriRequestV;

    open spec fn view(&self) -> NiriRequestV {
        match *self {
            NiriRequest::Workspaces => NiriRequestV::Workspaces,
            NiriRequest::Windows => NiriRequestV::Windows,
            NiriRequest::Action(ref a) => NiriRequestV::Action(a@),
            NiriRequest::EventStream => NiriRequestV::EventStream,
        }
    }
}

impl View for NiriEvent {
    type V = NiriEventV;

    open spec fn view(&self) -> NiriEventV {
        match *self {
            NiriEvent::WindowOpened { ref window } => NiriEventV::WindowOpened {
                window: window@,
            },
            NiriEvent::WindowClosed { window_id } => NiriEventV::WindowClosed {
                window_id: window_id,
            },
            NiriEvent::WindowFocusChanged { id } => NiriEventV::WindowFocusChanged { id: id },
            NiriEvent::WorkspaceActiveWindowChanged { workspace_id, active_window_id } =>
                NiriEventV::WorkspaceActiveWindowChanged {
                    workspace_id: workspace_id,
                    active_window_id: active_window_id,
                },
        }
    }
}

impl View for ResponseData {
    type V = ResponseDataV;

    open spec fn view(&self) -> ResponseDataV {
        match *self {
            ResponseData::Workspaces(ref ws) => ResponseDataV::Workspaces(
                ws@.map_values(|w: Workspace| w@),
            ),
            ResponseData::Windows(ref ws) => ResponseDataV::Windows(
                ws@.map_values(|w: Window| w@),
            ),
            ResponseData::Event(ref e) => ResponseDataV::Event(e@),
            ResponseData::Empty => ResponseDataV::Empty,
        }
    }
}

impl View for NiriResponse {
    type V = NiriResponseV;

    open spec fn view(&self) -> NiriResponseV {
        match *self {
            NiriResponse::Success(ref d) => NiriResponseV::Success(d@),
            NiriResponse::Error(ref m) => NiriResponseV::Error(m@),
        }
    }
}

} // verus!
