//! Workspace computations, spacer validation, focus rules, the surface
//! state machine, and session validation.

use niri_spacer::error::NiriSpacerError;
use niri_spacer::focus::{
    count_workspace_windows, fallback_settle_actions, plan_focus_response,
    primary_settle_actions, redirect_action, settle_continuation,
};
use niri_spacer::native::NativeWindowRegistry;
use niri_spacer::session::{NiriSessionInfo, SessionEnvironment, SessionValidator};
use niri_spacer::wayland::{argb_pixel, fill_argb_buffer, SurfaceLoopState, WaylandEvent};
use niri_spacer::window::{plan_spacer_batch, validate_spacers, SpacerWindow};
use niri_spacer::wire::{NiriAction, NiriEvent, Window, Workspace};
use niri_spacer::workspace::{
    find_workspace_sequence, get_focused_workspace, get_workspace_by_id, get_workspace_stats,
    suggest_starting_workspace, title_contains, validate_workspace_availability,
};

fn win(id: u64, title: &str, workspace_id: u64) -> Window {
    Window {
        id,
        title: title.to_string(),
        app_id: format!("app-{}", id),
        pid: 1000,
        workspace_id,
        is_focused: false,
        is_floating: false,
        is_urgent: false,
        layout: None,
    }
}

fn ws(id: u64, idx: u8, focused: bool) -> Workspace {
    Workspace {
        id,
        idx,
        name: None,
        output: None,
        is_urgent: false,
        is_active: focused,
        is_focused: focused,
        active_window_id: None,
    }
}

// ---------------------------------------------------------------------------
// Workspace lookups and planning
// ---------------------------------------------------------------------------

#[test]
fn test_get_workspace_by_id_lookup() {
    let workspaces = vec![ws(700, 1, true), ws(701, 2, false)];
    assert_eq!(get_workspace_by_id(&workspaces, 701).unwrap().idx, 2);
    assert_eq!(
        get_workspace_by_id(&workspaces, 9),
        Err(NiriSpacerError::WorkspaceNotFound(9))
    );
}

#[test]
fn test_get_focused_workspace_lookup() {
    let workspaces = vec![ws(700, 1, false), ws(701, 2, true)];
    assert_eq!(get_focused_workspace(&workspaces).unwrap().id, 701);
    let none_focused = vec![ws(700, 1, false)];
    assert!(matches!(
        get_focused_workspace(&none_focused),
        Err(NiriSpacerError::IpcError(_))
    ));
}

#[test]
fn test_find_workspace_sequence_lowest_free_run() {
    // Ids 1, 2 and 5 exist; the lowest free run of three is 6, 7, 8...
    let workspaces = vec![ws(1, 1, true), ws(2, 2, false), ws(5, 3, false)];
    assert_eq!(find_workspace_sequence(&workspaces, 2), Ok(3));
    assert_eq!(find_workspace_sequence(&workspaces, 3), Ok(6));
    let empty: Vec<Workspace> = vec![];
    assert_eq!(find_workspace_sequence(&empty, 9), Ok(1));
}

#[test]
fn test_suggest_starting_workspace_prefers_empty_run() {
    // Workspaces 3 and 4 are empty and consecutive; windows sit in 1
    // and 2.
    let workspaces = vec![ws(1, 1, true), ws(2, 2, false), ws(3, 3, false), ws(4, 4, false)];
    let windows = vec![win(10, "a", 1), win(11, "b", 2)];
    assert_eq!(suggest_starting_workspace(&workspaces, &windows, 2), Ok(3));
    // Not enough consecutive empties: fall back to the free-id search.
    assert_eq!(suggest_starting_workspace(&workspaces, &windows, 3), Ok(5));
    assert!(validate_workspace_availability(&workspaces, 3, 2).is_ok());
}

#[test]
fn test_workspace_stats_numbers() {
    let workspaces = vec![ws(1, 1, true), ws(2, 2, false), ws(3, 3, false)];
    let windows = vec![
        win(10, "editor", 1),
        win(11, "niri-spacer window 1", 1),
        win(12, "browser", 2),
    ];
    let stats = get_workspace_stats(&workspaces, &windows);
    assert_eq!(stats.total_workspaces, 3);
    assert_eq!(stats.total_windows, 3);
    assert_eq!(stats.spacer_windows, 1);
    assert_eq!(stats.empty_workspaces, 1);
    assert_eq!(stats.focused_workspace_id, Some(1));
    assert_eq!(stats.workspace_window_counts.get(&1), Some(&2));
    assert_eq!(stats.workspace_window_counts.get(&2), Some(&1));
    assert_eq!(stats.workspace_window_counts.get(&3), None);
    assert_eq!(
        stats.summary(),
        "3 workspaces (1 empty), 3 windows (1 spacers), focused: 1"
    );
}

#[test]
fn test_has_good_tiling_layout_boundaries() {
    let mut stats = get_workspace_stats(
        &vec![ws(1, 1, true), ws(2, 2, false)],
        &vec![win(10, "a", 1), win(11, "b", 2)],
    );
    // Two occupied workspaces, two windows: average one window each.
    assert!(stats.has_good_tiling_layout());
    // Everything a spacer: the average drops below one.
    stats.spacer_windows = 2;
    assert!(!stats.has_good_tiling_layout());
}

#[test]
fn test_title_contains_marker() {
    assert!(title_contains("niri-spacer window 4", "niri-spacer window"));
    assert!(title_contains("xx niri-spacer window", "niri-spacer window"));
    assert!(!title_contains("niri-spacer", "niri-spacer window"));
    assert!(!title_contains("", "niri-spacer window"));
}

// ---------------------------------------------------------------------------
// Spacer validation
// ---------------------------------------------------------------------------

#[test]
fn test_validate_spacers_accepts_unchanged_state_repeatedly() {
    let spacers = vec![
        SpacerWindow { id: 31, workspace_id: 1, window_number: 1 },
        SpacerWindow { id: 32, workspace_id: 2, window_number: 2 },
    ];
    let listing = vec![win(31, "s1", 1), win(32, "s2", 2), win(40, "other", 3)];
    // Re-validating an unchanged set succeeds every time, with no side
    // effects on either input.
    for _ in 0..3 {
        assert!(validate_spacers(&spacers, &listing).is_ok());
    }
    assert_eq!(spacers.len(), 2);
    assert_eq!(listing.len(), 3);
}

#[test]
fn test_validate_spacers_reports_removed_window() {
    let spacers = vec![
        SpacerWindow { id: 31, workspace_id: 1, window_number: 1 },
        SpacerWindow { id: 32, workspace_id: 2, window_number: 2 },
    ];
    // Window 32 disappeared from the compositor's report.
    let listing = vec![win(31, "s1", 1), win(40, "other", 3)];
    assert_eq!(
        validate_spacers(&spacers, &listing),
        Err(NiriSpacerError::WindowNotFound(32))
    );
}

// ---------------------------------------------------------------------------
// Focus rules
// ---------------------------------------------------------------------------

#[test]
fn test_focus_plan_for_tracked_spacer_with_enough_windows() {
    let spacer_ids = vec![31u64, 32u64];
    let listing = vec![win(31, "s1", 7), win(40, "a", 7), win(41, "b", 7)];
    let event = NiriEvent::WindowFocusChanged { id: 31 };
    let plan = plan_focus_response(&event, &spacer_ids, &listing);
    // Exactly one redirect, and the workspace holds three windows, so
    // exactly one settle sequence.
    assert!(plan.redirect);
    assert!(plan.check_position);
    assert!(plan.settle);
    assert_eq!(count_workspace_windows(&listing, 31), Ok(3));
}

#[test]
fn test_focus_plan_skips_settle_with_few_windows() {
    let spacer_ids = vec![31u64];
    let listing = vec![win(31, "s1", 7), win(40, "a", 7)];
    let event = NiriEvent::WindowFocusChanged { id: 31 };
    let plan = plan_focus_response(&event, &spacer_ids, &listing);
    assert!(plan.redirect);
    assert!(!plan.settle);
}

#[test]
fn test_focus_plan_ignores_untracked_and_other_events() {
    let spacer_ids = vec![31u64];
    let listing = vec![win(31, "s1", 7), win(40, "a", 7)];
    let untracked = NiriEvent::WindowFocusChanged { id: 40 };
    let plan = plan_focus_response(&untracked, &spacer_ids, &listing);
    assert!(!plan.redirect && !plan.settle && !plan.check_position);
    let closed = NiriEvent::WindowClosed { window_id: 31 };
    let plan2 = plan_focus_response(&closed, &spacer_ids, &listing);
    assert!(!plan2.redirect && !plan2.settle && !plan2.check_position);
}

#[test]
fn test_settle_continuation_exclusive() {
    // A completed primary forecloses the fallback; a failed primary
    // yields exactly the fallback sequence.
    assert_eq!(settle_continuation(false), None);
    assert_eq!(settle_continuation(true), Some(fallback_settle_actions()));
}

#[test]
fn test_settle_action_sequences() {
    assert_eq!(redirect_action(), NiriAction::FocusColumnRight {});
    assert_eq!(
        primary_settle_actions(),
        vec![NiriAction::FocusColumnRight {}, NiriAction::FocusColumnLeft {}]
    );
    assert_eq!(
        fallback_settle_actions(),
        vec![
            NiriAction::CenterColumn {},
            NiriAction::MaximizeColumn {},
            NiriAction::MaximizeColumn {},
        ]
    );
}

// ---------------------------------------------------------------------------
// Surface loop state and pixel fill
// ---------------------------------------------------------------------------

#[test]
fn test_surface_loop_create_and_close() {
    let mut state = SurfaceLoopState::new();
    let (id0, ev0) = state.create_window("sp-1".to_string(), (10, 20, 30));
    let (id1, _ev1) = state.create_window("sp-2".to_string(), (10, 20, 30));
    assert_eq!(id0, 0);
    assert_eq!(id1, 1);
    assert_eq!(
        ev0,
        WaylandEvent::WindowCreated { window_id: 0, app_id: "sp-1".to_string() }
    );
    assert_eq!(state.windows.len(), 2);

    let closed = state.close_window(id0);
    assert_eq!(closed, Some(WaylandEvent::WindowClosed { window_id: 0 }));
    assert_eq!(state.windows.len(), 1);
    assert_eq!(state.close_window(99), None);

    assert!(!state.exit);
    state.request_close();
    assert!(state.exit);
}

#[test]
fn test_surface_configure_decides_redraw() {
    let mut state = SurfaceLoopState::new();
    let (_id, _ev) = state.create_window("sp-1".to_string(), (1, 2, 3));
    // First configure with a negotiated size: draw.
    let redraw = state.configure(0, Some((640, 480)));
    assert!(redraw);
    assert_eq!(state.windows[0].width, 640);
    assert_eq!(state.windows[0].height, 480);
    state.mark_buffer_attached(0);
    // A later configure without a size keeps the dimensions and needs
    // no redraw.
    let redraw2 = state.configure(0, None);
    assert!(!redraw2);
    assert_eq!(state.windows[0].width, 640);
    assert_eq!(state.index_of(0), Some(0));
    assert_eq!(state.index_of(7), None);
}

#[test]
fn test_argb_fill_bytes() {
    assert_eq!(argb_pixel((0x11, 0x22, 0x33)), 0xFF112233u32);
    let buf = fill_argb_buffer(2, 1, (0x11, 0x22, 0x33));
    assert_eq!(buf.len(), 8);
    // Little-endian ARGB per pixel.
    assert_eq!(&buf[0..4], &[0x33, 0x22, 0x11, 0xFF]);
    assert_eq!(&buf[4..8], &[0x33, 0x22, 0x11, 0xFF]);
}

// ---------------------------------------------------------------------------
// Native window registry
// ---------------------------------------------------------------------------

#[test]
fn test_native_registry_lifecycle() {
    let mut reg = NativeWindowRegistry::new(Default::default());
    reg.record_created(0, "sp-1".to_string());
    reg.mark_last_correlated(31, 1);
    reg.record_created(1, "sp-2".to_string());
    assert_eq!(reg.window_count(), 2);
    // Only the correlated window contributes an id for the focus loop.
    assert_eq!(reg.correlated_ids(), vec![31]);
    reg.mark_last_correlated(32, 2);
    assert_eq!(reg.correlated_ids(), vec![31, 32]);
    assert_eq!(reg.local_ids(), vec![0, 1]);
    // The compositor closed the first local window.
    reg.handle_window_closed(0);
    assert_eq!(reg.window_count(), 1);
    assert_eq!(reg.correlated_ids(), vec![32]);
    assert_eq!(reg.local_ids(), vec![1]);
}

// ---------------------------------------------------------------------------
// Session validation
// ---------------------------------------------------------------------------

fn full_env() -> SessionEnvironment {
    SessionEnvironment {
        niri_socket: Some("/run/user/1000/niri.sock".to_string()),
        socket_exists: true,
        socket_mode: Some(0o600),
        wayland_display: Some("wayland-1".to_string()),
        session_type: Some("wayland".to_string()),
        session_desktop: Some("niri".to_string()),
        current_desktop: Some("niri".to_string()),
        foot_available: true,
        bash_available: true,
    }
}

#[test]
fn test_validate_environment_accepts_complete_session() {
    let info = SessionValidator::validate_environment(&full_env()).unwrap();
    assert!(info.is_wayland);
    assert!(info.is_valid_niri_session());
    assert_eq!(info.socket_path, "/run/user/1000/niri.sock");
    assert_eq!(
        info.summary(),
        "socket=/run/user/1000/niri.sock, wayland=wayland-1, type=wayland, desktop=niri"
    );
}

#[test]
fn test_validate_environment_rejects_missing_socket() {
    let mut env = full_env();
    env.niri_socket = None;
    assert_eq!(
        SessionValidator::validate_environment(&env),
        Err(NiriSpacerError::NoSocketPath)
    );
    let mut env2 = full_env();
    env2.socket_exists = false;
    assert!(matches!(
        SessionValidator::validate_environment(&env2),
        Err(NiriSpacerError::InvalidSocketPath(_))
    ));
    let mut env3 = full_env();
    env3.socket_mode = Some(0o000);
    assert!(matches!(
        SessionValidator::validate_environment(&env3),
        Err(NiriSpacerError::SocketConnection(_))
    ));
    let mut env4 = full_env();
    env4.foot_available = false;
    assert!(matches!(
        SessionValidator::validate_environment(&env4),
        Err(NiriSpacerError::ProcessSpawn(_))
    ));
    // The native-only validation does not need the helper programs.
    assert!(SessionValidator::validate_environment_native_only(&env4).is_ok());
}

#[test]
fn test_session_recommendations() {
    let info = SessionValidator::detect_niri_session(&full_env()).unwrap();
    assert_eq!(info.get_recommendations(), vec!["Session configuration looks good"]);

    let mut env = full_env();
    env.wayland_display = None;
    env.session_type = Some("x11".to_string());
    env.session_desktop = Some("gnome".to_string());
    env.current_desktop = Some("gnome".to_string());
    let info2 = SessionValidator::detect_niri_session(&env).unwrap();
    assert!(!info2.is_wayland);
    let recs = info2.get_recommendations();
    assert_eq!(recs.len(), 3);
    assert!(recs[0].contains("Wayland session"));
    assert!(recs[1].contains("XDG desktop variables"));
    assert!(recs[2].contains("WAYLAND_DISPLAY"));
}

// ---------------------------------------------------------------------------
// Error messages carried by variants
// ---------------------------------------------------------------------------

#[test]
fn test_error_messages() {
    let cases = vec![
        (NiriSpacerError::NotNiriSession, "Not running in a niri session"),
        (NiriSpacerError::NoSocketPath, "NIRI_SOCKET environment variable not set"),
        (
            NiriSpacerError::InvalidSocketPath("test".to_string()),
            "Invalid socket path: test",
        ),
        (NiriSpacerError::IpcError("test".to_string()), "IPC communication error: test"),
        (
            NiriSpacerError::InvalidWindowCount(100),
            "Window count must be between 1 and 50, got 100",
        ),
        (
            NiriSpacerError::NativeWindowCreation("test".to_string()),
            "Native window creation failed: test",
        ),
        (
            NiriSpacerError::WindowCorrelation("test".to_string()),
            "Window correlation failed: test",
        ),
        (NiriSpacerError::OperationTimeout, "Timeout waiting for operation to complete"),
        (NiriSpacerError::NiriError("test".to_string()), "niri returned error: test"),
        (NiriSpacerError::UnexpectedResponse, "Unexpected response format from niri"),
        (NiriSpacerError::WorkspaceNotFound(5), "Workspace not found: 5"),
        (NiriSpacerError::WindowNotFound(123), "Window not found: 123"),
    ];
    for (error, expected) in cases {
        assert_eq!(error.message(), expected);
    }
}

#[test]
fn test_error_variants_carry_context() {
    let plan = plan_spacer_batch(2, 9);
    assert_eq!(plan, vec![(1, 9), (2, 10)]);
    let e = NiriSpacerError::InvalidWindowCount(100);
    let s = format!("{:?}", e);
    assert!(s.contains("InvalidWindowCount"));
    assert!(s.contains("100"));
}
