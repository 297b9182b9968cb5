//! Correlation, drift correction, batch planning and repositioning.

use niri_spacer::engine::{
    column_drift_step, correct_column_drift, correct_workspace_drift, correlate,
    correlation_step, find_window_by_app_id, find_window_by_id, find_window_by_title,
    get_window_workspace_index, plan_direct_reposition, window_in_column_1, workspace_drift_step,
    ColumnDriftStep, CorrelationStep, DriftOutcome, WorkspaceDriftStep,
};
use niri_spacer::error::NiriSpacerError;
use niri_spacer::window::{plan_spacer_batch, validate_spacers, SpacerWindow};
use niri_spacer::wire::{Window, WindowLayout, Workspace};

fn win(id: u64, app_id: &str, workspace_id: u64, layout: Option<WindowLayout>) -> Window {
    Window {
        id,
        title: format!("niri-spacer window {}", id),
        app_id: app_id.to_string(),
        pid: 1000,
        workspace_id,
        is_focused: false,
        is_floating: false,
        is_urgent: false,
        layout,
    }
}

fn ws(id: u64, idx: u8, focused: bool) -> Workspace {
    Workspace {
        id,
        idx,
        name: None,
        output: None,
        is_urgent: false,
        is_active: focused,
        is_focused: focused,
        active_window_id: None,
    }
}

#[test]
fn test_correlation_finds_window_within_timeout() {
    // The compositor reports the window on the third poll.
    let polls = vec![
        vec![],
        vec![win(5, "other", 1, None)],
        vec![win(5, "other", 1, None), win(9, "sp-x", 1, None)],
        vec![win(9, "sp-x", 1, None)],
        vec![],
        vec![],
    ];
    assert_eq!(correlate(&polls, "sp-x", 500, 100), Ok(9));
}

#[test]
fn test_correlation_times_out_when_window_never_appears() {
    let polls = vec![vec![], vec![win(5, "other", 1, None)], vec![], vec![], vec![], vec![]];
    match correlate(&polls, "sp-x", 500, 100) {
        Err(NiriSpacerError::WindowCorrelation(msg)) => {
            assert!(msg.contains("sp-x"));
        },
        other => panic!("unexpected {:?}", other),
    }
}

#[test]
fn test_correlation_step_decisions() {
    let listing = vec![win(9, "sp-x", 1, None)];
    assert_eq!(correlation_step(&listing, "sp-x", 0, 500), CorrelationStep::Found(9));
    let empty: Vec<Window> = vec![];
    assert_eq!(correlation_step(&empty, "sp-x", 400, 500), CorrelationStep::KeepPolling);
    assert_eq!(correlation_step(&empty, "sp-x", 500, 500), CorrelationStep::TimedOut);
}

#[test]
fn test_find_window_by_app_id_first_match() {
    let listing = vec![win(1, "a", 1, None), win(2, "b", 1, None), win(3, "b", 2, None)];
    assert_eq!(find_window_by_app_id(&listing, "b"), Some(2));
    assert_eq!(find_window_by_app_id(&listing, "zzz"), None);
}

#[test]
fn test_workspace_drift_converges_within_budget() {
    // Wrong index twice, then the correction sticks.
    let observations = vec![Some(4u8), Some(4u8), Some(2u8)];
    assert_eq!(correct_workspace_drift(&observations, 2, 3), DriftOutcome::Converged(3));
}

#[test]
fn test_workspace_drift_gives_up_without_error() {
    // The retry budget runs out; the outcome is a logged give-up, never
    // an error.
    let observations = vec![Some(4u8), Some(4u8), Some(4u8)];
    assert_eq!(correct_workspace_drift(&observations, 2, 3), DriftOutcome::GaveUp);
    // An unreadable state also just gives up.
    let unreadable = vec![Some(4u8), None, Some(2u8)];
    assert_eq!(correct_workspace_drift(&unreadable, 2, 3), DriftOutcome::GaveUp);
}

#[test]
fn test_drift_step_decisions() {
    // The per-check decisions mirror the pass-level specs.
    assert_eq!(workspace_drift_step(Some(2), 2), WorkspaceDriftStep::Converged);
    assert_eq!(workspace_drift_step(Some(4), 2), WorkspaceDriftStep::Reissue);
    assert_eq!(workspace_drift_step(None, 2), WorkspaceDriftStep::GiveUp);
    assert_eq!(column_drift_step(Some(true)), ColumnDriftStep::Confirmed);
    assert_eq!(column_drift_step(Some(false)), ColumnDriftStep::Reposition);
    assert_eq!(column_drift_step(None), ColumnDriftStep::Retry);
}

#[test]
fn test_column_drift_retries_and_converges() {
    let observations = vec![Some(false), None, Some(true)];
    assert_eq!(correct_column_drift(&observations, 3), DriftOutcome::Converged(3));
    let never = vec![Some(false), Some(false), Some(false)];
    assert_eq!(correct_column_drift(&never, 3), DriftOutcome::GaveUp);
}

#[test]
fn test_window_in_column_1_readings() {
    // Column one counts.
    let leftmost = win(1, "a", 1, Some(WindowLayout { pos_in_scrolling_layout: Some((1, 0)) }));
    assert!(window_in_column_1(&leftmost));
    // Another column does not.
    let second = win(2, "b", 1, Some(WindowLayout { pos_in_scrolling_layout: Some((2, 0)) }));
    assert!(!window_in_column_1(&second));
    // Floating is not positioned.
    let floating = win(3, "c", 1, Some(WindowLayout { pos_in_scrolling_layout: None }));
    assert!(!window_in_column_1(&floating));
    // No layout reporting counts as unverifiable success.
    let old = win(4, "d", 1, None);
    assert!(window_in_column_1(&old));
}

#[test]
fn test_get_window_workspace_index_resolution() {
    let windows = vec![win(31, "sp-1", 700, None)];
    let workspaces = vec![ws(700, 3, true), ws(701, 4, false)];
    assert_eq!(get_window_workspace_index(&windows, &workspaces, 31), Ok(3));
    assert_eq!(
        get_window_workspace_index(&windows, &workspaces, 99),
        Err(NiriSpacerError::WindowNotFound(99))
    );
    let missing_ws = vec![win(31, "sp-1", 999, None)];
    assert!(matches!(
        get_window_workspace_index(&missing_ws, &workspaces, 31),
        Err(NiriSpacerError::IpcError(_))
    ));
}

#[test]
fn test_plan_spacer_batch_dense_ordinals() {
    // Requesting 3 spacer windows starting at workspace index 1 yields
    // window numbers 1, 2, 3 at workspace indices 1, 2, 3.
    let plan = plan_spacer_batch(3, 1);
    assert_eq!(plan, vec![(1, 1), (2, 2), (3, 3)]);
}

#[test]
fn test_three_spacer_scenario_end_to_end() {
    // Scenario: three spacers, starting at workspace index 1; each is
    // correlated from the poll listings and eventually verified at
    // column index 1.
    let plan = plan_spacer_batch(3, 1);
    let mut created: Vec<SpacerWindow> = Vec::new();
    for (number, idx) in plan {
        let app_id = format!("sp-{}", number);
        let id = 30 + number as u64;
        let polls = vec![vec![], vec![win(id, &app_id, idx as u64, None)], vec![]];
        let compositor_id = correlate(&polls, &app_id, 200, 100).unwrap();
        assert_eq!(compositor_id, id);
        // Placement settles at column 1 after one correction.
        let checks = vec![Some(false), Some(true), Some(true)];
        assert_eq!(correct_column_drift(&checks, 3), DriftOutcome::Converged(2));
        created.push(SpacerWindow {
            id: compositor_id,
            workspace_id: idx as u64,
            window_number: number,
        });
    }
    assert_eq!(created.len(), 3);
    assert_eq!(created[0].window_number, 1);
    assert_eq!(created[1].window_number, 2);
    assert_eq!(created[2].window_number, 3);
    assert_eq!(created[0].workspace_id, 1);
    assert_eq!(created[1].workspace_id, 2);
    assert_eq!(created[2].workspace_id, 3);

    // The final listing shows all three in column 1.
    let final_listing = vec![
        win(31, "sp-1", 1, Some(WindowLayout { pos_in_scrolling_layout: Some((1, 0)) })),
        win(32, "sp-2", 2, Some(WindowLayout { pos_in_scrolling_layout: Some((1, 0)) })),
        win(33, "sp-3", 3, Some(WindowLayout { pos_in_scrolling_layout: Some((1, 0)) })),
    ];
    for w in &final_listing {
        assert!(window_in_column_1(w));
    }
    assert!(validate_spacers(&created, &final_listing).is_ok());
}

#[test]
fn test_plan_direct_reposition_focus_handling() {
    let workspaces = vec![ws(700, 3, true), ws(701, 4, false)];
    // The target workspace is not focused: focus it, then restore.
    let plan = plan_direct_reposition(&workspaces, 4, 5);
    assert!(plan.focus_target_workspace);
    assert_eq!(plan.target_workspace_idx, 4);
    assert_eq!(plan.restore_workspace_idx, Some(3));
    assert_eq!(plan.max_move_left_attempts, 5);
    // The target workspace is already focused: nothing to switch.
    let plan2 = plan_direct_reposition(&workspaces, 3, 5);
    assert!(!plan2.focus_target_workspace);
    assert_eq!(plan2.restore_workspace_idx, None);
}

#[test]
fn test_find_window_helpers() {
    let listing = vec![win(1, "a", 1, None), win(2, "b", 1, None)];
    assert_eq!(find_window_by_id(&listing, 2).unwrap().app_id, "b");
    assert!(find_window_by_id(&listing, 9).is_none());
    let spawned = find_window_by_title(&listing, "niri-spacer window 2").unwrap();
    assert_eq!(spawned.id, 2);
    assert!(find_window_by_title(&listing, "browser").is_none());
}
