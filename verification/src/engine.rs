//! The correlation and self-healing placement engine.
//!
//! The compositor learns of a new native surface asynchronously and
//! reports it only in its window list, keyed by app-id; and placement is
//! eventually consistent, so one placement call cannot be trusted to be
//! durable. The engine therefore works from observations: each function
//! here takes what a poll of the compositor returned and decides the next
//! step, and the drivers run those decisions over a whole run of polls.
//! The caller performs the waiting and fetching between polls.

use vstd::prelude::*;
use crate::error::{NiriSpacerError, SpacerResult};
use crate::jtext::{dec, u64_string};
use crate::wire::{Window, WindowV, Workspace, WorkspaceV};
use crate::workspace::{first_ws_with_id, get_workspace_by_id};

verus! {

// ---------------------------------------------------------------------------
// Correlation
// ---------------------------------------------------------------------------

/// The compositor id of the first listed window with the given app-id.
pub open spec fn first_id_with_app_id(wins: Seq<WindowV>, app_id: Seq<char>) -> Option<u64>
    decreases wins.len(),
{
    if wins.len() == 0 {
        None
    } else if wins[0].app_id == app_id {
        Some(wins[0].id)
    } else {
        first_id_with_app_id(wins.drop_first(), app_id)
    }
}

/// Finds the compositor window carrying the given app-id.
pub fn find_window_by_app_id(windows: &Vec<Window>, app_id: &str) -> (r: Option<u64>)
    ensures
        r == first_id_with_app_id(windows@.map_values(|x: Window| x@), app_id@),
{
    let ghost all = windows@.map_values(|x: Window| x@);
    proof {
        assert(all.skip(0) =~= all);
    }
    let needle: String = app_id.to_owned();
    let mut i: usize = 0;
    while i < windows.len()
        invariant
            i <= windows.len(),
            all == windows@.map_values(|x: Window| x@),
            needle@ == app_id@,
            first_id_with_app_id(all, app_id@) == first_id_with_app_id(
                all.skip(i as int),
                app_id@,
            ),
        decreases windows.len() - i,
    {
        proof {
            assert(all[i as int] == windows@[i as int]@);
            assert(all.skip(i as int)[0] == all[i as int]);
            assert(all.skip(i as int).drop_first() =~= all.skip(i + 1 as int));
        }
        if windows[i].app_id.eq(&needle) {
            return Some(windows[i].id);
        }
        i = i + 1;
    }
    proof {
        assert(all.skip(windows.len() as int).len() == 0);
    }
    None
}

/// What one correlation poll decides.
#[derive(Debug, Clone, Copy, PartialEq, Eq, Structural)]
pub enum CorrelationStep {
    /// The compositor reports the window: correlation is done.
    Found(u64),
    /// The deadline has passed without a match: correlation failed.
    TimedOut,
    /// No match yet and time remains: poll again after the interval.
    KeepPolling,
}

/// Decides one correlation poll: a match wins even at the deadline, the
/// deadline fails, anything else keeps polling.
pub fn correlation_step(
    windows: &Vec<Window>,
    app_id: &str,
    elapsed_ms: u64,
    timeout_ms: u64,
) -> (r: CorrelationStep)
    ensures
        r == (match first_id_with_app_id(windows@.map_values(|x: Window| x@), app_id@) {
            Some(id) => CorrelationStep::Found(id),
            None => if elapsed_ms >= timeout_ms {
                CorrelationStep::TimedOut
            } else {
                CorrelationStep::KeepPolling
            },
        }),
{
    match find_window_by_app_id(windows, app_id) {
        Some(id) => CorrelationStep::Found(id),
        None => {
            if elapsed_ms >= timeout_ms {
                CorrelationStep::TimedOut
            } else {
                CorrelationStep::KeepPolling
            }
        },
    }
}

/// What a whole correlation run returns, poll `k` being observed at
/// `k * interval` milliseconds.
pub open spec fn correlate_spec(
    polls: Seq<Seq<WindowV>>,
    app_id: Seq<char>,
    timeout_ms: u64,
    interval_ms: u64,
    k: nat,
) -> Option<u64>
    decreases polls.len() - k,
        when k <= polls.len()
{
    if k >= polls.len() {
        None
    } else {
        match first_id_with_app_id(polls[k as int], app_id) {
            Some(id) => Some(id),
            None => if k * interval_ms >= timeout_ms {
                None
            } else {
                correlate_spec(polls, app_id, timeout_ms, interval_ms, k + 1)
            },
        }
    }
}

/// Runs correlation over a run of polls until a match or the deadline.
///
/// Success is owed exactly when some poll inside the deadline reports
/// the app-id: the result is then the compositor id the earliest such
/// poll reports. Otherwise the run stops within one poll interval of the
/// timeout and reports a correlation failure.
pub fn correlate(
    polls: &Vec<Vec<Window>>,
    app_id: &str,
    timeout_ms: u64,
    interval_ms: u64,
) -> (r: SpacerResult<u64>)
    requires
        interval_ms >= 1,
        timeout_ms + interval_ms <= u64::MAX,
        polls@.len() * interval_ms > timeout_ms,
    ensures
        match correlate_spec(
            polls@.map_values(|p: Vec<Window>| p@.map_values(|x: Window| x@)),
            app_id@,
            timeout_ms,
            interval_ms,
            0,
        ) {
            Some(id) => r == Ok::<u64, NiriSpacerError>(id),
            None => r matches Err(NiriSpacerError::WindowCorrelation(m)) && m@
                == correlation_timeout_text(app_id@),
        },
{
    let ghost pv = polls@.map_values(|p: Vec<Window>| p@.map_values(|x: Window| x@));
    let mut k: usize = 0;
    let mut elapsed: u64 = 0;
    while k < polls.len()
        invariant
            k <= polls.len(),
            interval_ms >= 1,
            timeout_ms + interval_ms <= u64::MAX,
            pv == polls@.map_values(|p: Vec<Window>| p@.map_values(|x: Window| x@)),
            pv.len() == polls@.len(),
            polls@.len() * interval_ms > timeout_ms,
            elapsed == k * interval_ms,
            correlate_spec(pv, app_id@, timeout_ms, interval_ms, 0) == correlate_spec(
                pv,
                app_id@,
                timeout_ms,
                interval_ms,
                k as nat,
            ),
        decreases polls.len() - k,
    {
        proof {
            assert(pv[k as int] == polls@[k as int]@.map_values(|x: Window| x@));
        }
        let step = correlation_step(&polls[k], app_id, elapsed, timeout_ms);
        match step {
            CorrelationStep::Found(id) => {
                return Ok(id);
            },
            CorrelationStep::TimedOut => {
                return Err(NiriSpacerError::WindowCorrelation(correlation_timeout_message(
                    app_id,
                )));
            },
            CorrelationStep::KeepPolling => {
                proof {
                    assert((k + 1) * interval_ms == k * interval_ms + interval_ms)
                        by (nonlinear_arith);
                    assert(k * interval_ms < timeout_ms);
                }
                elapsed = elapsed + interval_ms;
                k = k + 1;
            },
        }
    }
    proof {
        assert(correlate_spec(pv, app_id@, timeout_ms, interval_ms, polls@.len() as nat)
            is None);
    }
    Err(NiriSpacerError::WindowCorrelation(correlation_timeout_message(app_id)))
}

/// The text reported when correlation times out: it names the app-id
/// that never appeared.
pub open spec fn correlation_timeout_text(app_id: Seq<char>) -> Seq<char> {
    "Timeout waiting for window with app_id: "@ + app_id
}

fn correlation_timeout_message(app_id: &str) -> (r: String)
    ensures
        r@ == correlation_timeout_text(app_id@),
{
    let mut s = "Timeout waiting for window with app_id: ".to_owned();
    s.append(app_id);
    s
}

/// A window that the compositor reports inside the deadline is found:
/// the run returns the id reported by the earliest matching poll.
pub proof fn lemma_correlation_finds(
    polls: Seq<Seq<WindowV>>,
    app_id: Seq<char>,
    timeout_ms: u64,
    interval_ms: u64,
    k0: nat,
)
    requires
        interval_ms >= 1,
        k0 < polls.len(),
        k0 * interval_ms <= timeout_ms,
        first_id_with_app_id(polls[k0 as int], app_id) is Some,
        forall|j: int| 0 <= j < k0 ==> first_id_with_app_id(#[trigger] polls[j], app_id) is None,
    ensures
        correlate_spec(polls, app_id, timeout_ms, interval_ms, 0) == first_id_with_app_id(
            polls[k0 as int],
            app_id,
        ),
{
    lemma_correlation_finds_from(polls, app_id, timeout_ms, interval_ms, k0, 0);
}

proof fn lemma_correlation_finds_from(
    polls: Seq<Seq<WindowV>>,
    app_id: Seq<char>,
    timeout_ms: u64,
    interval_ms: u64,
    k0: nat,
    k: nat,
)
    requires
        interval_ms >= 1,
        k <= k0 < polls.len(),
        k0 * interval_ms <= timeout_ms,
        first_id_with_app_id(polls[k0 as int], app_id) is Some,
        forall|j: int| 0 <= j < k0 ==> first_id_with_app_id(#[trigger] polls[j], app_id) is None,
    ensures
        correlate_spec(polls, app_id, timeout_ms, interval_ms, k) == first_id_with_app_id(
            polls[k0 as int],
            app_id,
        ),
    decreases k0 - k,
{
    if k < k0 {
        assert(k * interval_ms + interval_ms <= k0 * interval_ms) by (nonlinear_arith)
            requires k < k0, interval_ms >= 1;
        assert(k * interval_ms < timeout_ms);
        lemma_correlation_finds_from(polls, app_id, timeout_ms, interval_ms, k0, k + 1);
    }
}

/// A window that never appears makes every correlation run fail.
pub proof fn lemma_correlation_times_out(
    polls: Seq<Seq<WindowV>>,
    app_id: Seq<char>,
    timeout_ms: u64,
    interval_ms: u64,
)
    requires
        forall|j: int| 0 <= j < polls.len() ==> first_id_with_app_id(
            #[trigger] polls[j],
            app_id,
        ) is None,
    ensures
        correlate_spec(polls, app_id, timeout_ms, interval_ms, 0) is None,
{
    lemma_correlation_times_out_from(polls, app_id, timeout_ms, interval_ms, 0);
}

proof fn lemma_correlation_times_out_from(
    polls: Seq<Seq<WindowV>>,
    app_id: Seq<char>,
    timeout_ms: u64,
    interval_ms: u64,
    k: nat,
)
    requires
        k <= polls.len(),
        forall|j: int| 0 <= j < polls.len() ==> first_id_with_app_id(
            #[trigger] polls[j],
            app_id,
        ) is None,
    ensures
        correlate_spec(polls, app_id, timeout_ms, interval_ms, k) is None,
    decreases polls.len() - k,
{
    if k < polls.len() {
        lemma_correlation_times_out_from(polls, app_id, timeout_ms, interval_ms, k + 1);
    }
}

// ---------------------------------------------------------------------------
// Column position
// ---------------------------------------------------------------------------

/// Whether a window counts as sitting in the leftmost column: a reported
/// column index of one counts; a floating window does not; a window
/// without layout reporting counts as unverifiable success.
pub open spec fn in_leftmost_column(w: WindowV) -> bool {
    match w.layout {
        Some(l) => match l.pos_in_scrolling_layout {
            Some((column, _tile)) => column == 1,
            None => false,
        },
        None => true,
    }
}

/// Checks a window's column position, as `in_leftmost_column` reads it.
pub fn window_in_column_1(w: &Window) -> (r: bool)
    ensures
        r == in_leftmost_column(w@),
{
    match &w.layout {
        Some(l) => match l.pos_in_scrolling_layout {
            Some((column, _tile)) => column == 1,
            None => false,
        },
        None => true,
    }
}

// ---------------------------------------------------------------------------
// Drift correction
// ---------------------------------------------------------------------------

/// How a bounded self-healing pass ended. Exhaustion is not an error:
/// placement is best-effort-durable, and a pass that gives up only logs.
#[derive(Debug, Clone, Copy, PartialEq, Eq, Structural)]
pub enum DriftOutcome {
    /// The observed state matched the intent at the given check
    /// (one-based).
    Converged(u32),
    /// The retry budget ran out, or the state could not be read; the
    /// window is left as it is and only a warning is logged.
    GaveUp,
}

/// What a workspace-drift pass returns: `observations[k]` is the
/// workspace index the window is seen at before corrective attempt
/// `k + 1`, or nothing when the read failed.
pub open spec fn drift_spec(observations: Seq<Option<u8>>, expected: u8, k: nat) -> DriftOutcome
    decreases observations.len() - k,
        when k <= observations.len()
{
    if k >= observations.len() {
        DriftOutcome::GaveUp
    } else {
        match observations[k as int] {
            None => DriftOutcome::GaveUp,
            Some(cur) => if cur == expected {
                DriftOutcome::Converged((k + 1) as u32)
            } else {
                drift_spec(observations, expected, k + 1)
            },
        }
    }
}

/// Runs one bounded workspace-drift pass over its observations: between
/// two checks the caller reissues the move action and waits for the
/// compositor to settle. Converges at the first check that matches the
/// expected index; gives up, without error, when the budget or an
/// unreadable state ends the pass.
pub fn correct_workspace_drift(
    observations: &Vec<Option<u8>>,
    expected_idx: u8,
    max_attempts: u32,
) -> (r: DriftOutcome)
    requires
        observations@.len() == max_attempts,
    ensures
        r == drift_spec(observations@, expected_idx, 0),
{
    let mut k: usize = 0;
    while k < observations.len()
        invariant
            k <= observations.len(),
            observations@.len() == max_attempts,
            drift_spec(observations@, expected_idx, 0) == drift_spec(
                observations@,
                expected_idx,
                k as nat,
            ),
        decreases observations.len() - k,
    {
        match observations[k] {
            None => {
                return DriftOutcome::GaveUp;
            },
            Some(cur) => {
                if cur == expected_idx {
                    proof {
                        assert(k < max_attempts);
                        assert(((k + 1) as u32) == (k as u32) + 1);
                    }
                    return DriftOutcome::Converged((k as u32) + 1);
                }
            },
        }
        k = k + 1;
    }
    DriftOutcome::GaveUp
}

/// What one workspace-drift check decides.
#[derive(Debug, Clone, Copy, PartialEq, Eq, Structural)]
pub enum WorkspaceDriftStep {
    /// The window sits at the expected index: the pass converged.
    Converged,
    /// The window drifted: reissue the move, wait, and check again.
    Reissue,
    /// The state could not be read: give up, logging only.
    GiveUp,
}

/// Decides one workspace-drift check — the same branching the
/// pass-level `drift_spec` takes per observation — so a caller running
/// the checks one at a time executes exactly the verified decisions.
pub fn workspace_drift_step(observation: Option<u8>, expected_idx: u8) -> (r: WorkspaceDriftStep)
    ensures
        r == (match observation {
            None => WorkspaceDriftStep::GiveUp,
            Some(cur) => if cur == expected_idx {
                WorkspaceDriftStep::Converged
            } else {
                WorkspaceDriftStep::Reissue
            },
        }),
{
    match observation {
        None => WorkspaceDriftStep::GiveUp,
        Some(cur) => {
            if cur == expected_idx {
                WorkspaceDriftStep::Converged
            } else {
                WorkspaceDriftStep::Reissue
            }
        },
    }
}

/// What one column-position check decides.
#[derive(Debug, Clone, Copy, PartialEq, Eq, Structural)]
pub enum ColumnDriftStep {
    /// The window is confirmed in the leftmost column.
    Confirmed,
    /// The window is elsewhere: reposition it and check again.
    Reposition,
    /// The position could not be read: wait and check again.
    Retry,
}

/// Decides one column-position check — the same branching the
/// pass-level `column_drift_spec` takes per observation.
pub fn column_drift_step(observation: Option<bool>) -> (r: ColumnDriftStep)
    ensures
        r == (match observation {
            Some(true) => ColumnDriftStep::Confirmed,
            Some(false) => ColumnDriftStep::Reposition,
            None => ColumnDriftStep::Retry,
        }),
{
    match observation {
        Some(true) => ColumnDriftStep::Confirmed,
        Some(false) => ColumnDriftStep::Reposition,
        None => ColumnDriftStep::Retry,
    }
}

/// A pass converges at the first matching observation: drift that the
/// compositor lets a correction stick within the budget is repaired, and
/// nothing is reported as a failure either way.
pub proof fn lemma_drift_converges(observations: Seq<Option<u8>>, expected: u8, k0: nat)
    requires
        k0 < observations.len(),
        observations[k0 as int] == Some(expected),
        forall|j: int| 0 <= j < k0 ==> (#[trigger] observations[j]) is Some
            && observations[j]->0 != expected,
    ensures
        drift_spec(observations, expected, 0) == DriftOutcome::Converged((k0 + 1) as u32),
{
    lemma_drift_converges_from(observations, expected, k0, 0);
}

proof fn lemma_drift_converges_from(
    observations: Seq<Option<u8>>,
    expected: u8,
    k0: nat,
    k: nat,
)
    requires
        k <= k0 < observations.len(),
        observations[k0 as int] == Some(expected),
        forall|j: int| 0 <= j < k0 ==> (#[trigger] observations[j]) is Some
            && observations[j]->0 != expected,
    ensures
        drift_spec(observations, expected, k) == DriftOutcome::Converged((k0 + 1) as u32),
    decreases k0 - k,
{
    if k < k0 {
        lemma_drift_converges_from(observations, expected, k0, k + 1);
    }
}

/// A column-drift pass works the same way over column checks:
/// `observations[k]` tells whether the window was seen in the leftmost
/// column, or nothing when the read failed.
pub open spec fn column_drift_spec(
    observations: Seq<Option<bool>>,
    k: nat,
) -> DriftOutcome
    decreases observations.len() - k,
        when k <= observations.len()
{
    if k >= observations.len() {
        DriftOutcome::GaveUp
    } else {
        match observations[k as int] {
            None => column_drift_spec(observations, k + 1),
            Some(in_col) => if in_col {
                DriftOutcome::Converged((k + 1) as u32)
            } else {
                column_drift_spec(observations, k + 1)
            },
        }
    }
}

/// Runs one bounded column-drift pass: between two checks the caller
/// repositions the window and waits. An unreadable check is retried, not
/// fatal; exhaustion gives up without error.
pub fn correct_column_drift(observations: &Vec<Option<bool>>, max_attempts: u32) -> (r:
    DriftOutcome)
    requires
        observations@.len() == max_attempts,
    ensures
        r == column_drift_spec(observations@, 0),
{
    let mut k: usize = 0;
    while k < observations.len()
        invariant
            k <= observations.len(),
            observations@.len() == max_attempts,
            column_drift_spec(observations@, 0) == column_drift_spec(observations@, k as nat),
        decreases observations.len() - k,
    {
        match observations[k] {
            None => {},
            Some(in_col) => {
                if in_col {
                    proof {
                        assert(k < max_attempts);
                        assert(((k + 1) as u32) == (k as u32) + 1);
                    }
                    return DriftOutcome::Converged((k as u32) + 1);
                }
            },
        }
        k = k + 1;
    }
    DriftOutcome::GaveUp
}

// ---------------------------------------------------------------------------
// Workspace index of a window
// ---------------------------------------------------------------------------

/// The workspace index a window currently sits at, read from the two
/// listings: the window's workspace id, resolved to that workspace's
/// position index.
pub fn get_window_workspace_index(
    windows: &Vec<Window>,
    workspaces: &Vec<Workspace>,
    window_id: u64,
) -> (r: SpacerResult<u8>)
    ensures
        ({
            let wins = windows@.map_values(|x: Window| x@);
            let ws = workspaces@.map_values(|x: Workspace| x@);
            match first_win_with_id(wins, window_id) {
                None => r == Err::<u8, NiriSpacerError>(NiriSpacerError::WindowNotFound(
                    window_id,
                )),
                Some(w) => match first_ws_with_id(ws, w.workspace_id) {
                    Some(wsp) => r == Ok::<u8, NiriSpacerError>(wsp.idx),
                    None => r matches Err(NiriSpacerError::IpcError(m)) && m@
                        == workspace_missing_text(w.workspace_id),
                },
            }
        }),
{
    let w = match find_window_by_id(windows, window_id) {
        Some(w) => w,
        None => {
            return Err(NiriSpacerError::WindowNotFound(window_id));
        },
    };
    match get_workspace_by_id(workspaces, w.workspace_id) {
        Ok(wsp) => Ok(wsp.idx),
        Err(_) => Err(NiriSpacerError::IpcError(workspace_missing_message(w.workspace_id))),
    }
}

/// The text reported when a window's workspace id is not listed.
pub open spec fn workspace_missing_text(workspace_id: u64) -> Seq<char> {
    "Workspace with ID "@ + dec(workspace_id as nat) + " not found"@
}

fn workspace_missing_message(workspace_id: u64) -> (r: String)
    ensures
        r@ == workspace_missing_text(workspace_id),
{
    let mut s = "Workspace with ID ".to_owned();
    let n = u64_string(workspace_id);
    s.append(n.as_str());
    s.append(" not found");
    s
}

/// How a mispositioned spacer is walked back to the leftmost column.
///
/// The direct move-to-first action is preferred; when the compositor
/// refuses it, the fallback issues move-left repeatedly, and the first
/// refusal is the signal that the leftmost position has been reached.
#[derive(Debug, Clone, Copy, PartialEq, Eq, Structural)]
pub struct RepositionPlan {
    /// Focus the target workspace first; skipped when it is already
    /// focused.
    pub focus_target_workspace: bool,
    /// The target workspace index.
    pub target_workspace_idx: u8,
    /// Restore focus to this workspace index afterwards, when focus was
    /// somewhere else before.
    pub restore_workspace_idx: Option<u8>,
    /// The bound on fallback move-left attempts.
    pub max_move_left_attempts: u32,
}

/// Plans the immediate repositioning of one spacer: which workspace to
/// focus, and which to restore focus to afterwards, read from the
/// currently focused workspace.
pub fn plan_direct_reposition(
    workspaces: &Vec<Workspace>,
    workspace_idx: u8,
    max_move_left_attempts: u32,
) -> (r: RepositionPlan)
    ensures
        ({
            let focused = crate::workspace::first_focused_ws(
                workspaces@.map_values(|x: Workspace| x@),
            );
            &&& r.target_workspace_idx == workspace_idx
            &&& r.max_move_left_attempts == max_move_left_attempts
            &&& r.focus_target_workspace == !(focused matches Some(w) && w.idx == workspace_idx)
            &&& r.restore_workspace_idx == (match focused {
                Some(w) => if w.idx != workspace_idx {
                    Some(w.idx)
                } else {
                    None::<u8>
                },
                None => None::<u8>,
            })
        }),
{
    let focused_idx: Option<u8> = match crate::workspace::get_focused_workspace(workspaces) {
        Ok(w) => Some(w.idx),
        Err(_) => None,
    };
    match focused_idx {
        Some(idx) => RepositionPlan {
            focus_target_workspace: idx != workspace_idx,
            target_workspace_idx: workspace_idx,
            restore_workspace_idx: if idx != workspace_idx {
                Some(idx)
            } else {
                None
            },
            max_move_left_attempts: max_move_left_attempts,
        },
        None => RepositionPlan {
            focus_target_workspace: true,
            target_workspace_idx: workspace_idx,
            restore_workspace_idx: None,
            max_move_left_attempts: max_move_left_attempts,
        },
    }
}

/// The first listed window whose title contains the marker, if any.
pub open spec fn first_win_with_title_marker(
    wins: Seq<WindowV>,
    marker: Seq<char>,
) -> Option<WindowV>
    decreases wins.len(),
{
    if wins.len() == 0 {
        None
    } else if crate::workspace::contains_seq(wins[0].title, marker) {
        Some(wins[0])
    } else {
        first_win_with_title_marker(wins.drop_first(), marker)
    }
}

/// Finds the first window whose title contains the given text; the
/// spawn-wait poll looks a freshly spawned window up this way.
pub fn find_window_by_title(windows: &Vec<Window>, marker: &str) -> (r: Option<Window>)
    ensures
        match r {
            Some(w) => first_win_with_title_marker(
                windows@.map_values(|x: Window| x@),
                marker@,
            ) == Some(w@),
            None => first_win_with_title_marker(
                windows@.map_values(|x: Window| x@),
                marker@,
            ) is None,
        },
{
    let ghost all = windows@.map_values(|x: Window| x@);
    proof {
        assert(all.skip(0) =~= all);
    }
    let mut i: usize = 0;
    while i < windows.len()
        invariant
            i <= windows.len(),
            all == windows@.map_values(|x: Window| x@),
            first_win_with_title_marker(all, marker@) == first_win_with_title_marker(
                all.skip(i as int),
                marker@,
            ),
        decreases windows.len() - i,
    {
        proof {
            assert(all[i as int] == windows@[i as int]@);
            assert(all.skip(i as int)[0] == all[i as int]);
            assert(all.skip(i as int).drop_first() =~= all.skip(i + 1 as int));
        }
        if crate::workspace::title_contains(windows[i].title.as_str(), marker) {
            return Some(windows[i].clone());
        }
        i = i + 1;
    }
    proof {
        assert(all.skip(windows.len() as int).len() == 0);
    }
    None
}

/// The first listed window with the given id, if any.
pub open spec fn first_win_with_id(wins: Seq<WindowV>, id: u64) -> Option<WindowV>
    decreases wins.len(),
{
    if wins.len() == 0 {
        None
    } else if wins[0].id == id {
        Some(wins[0])
    } else {
        first_win_with_id(wins.drop_first(), id)
    }
}

/// Finds a window by its compositor id.
pub fn find_window_by_id(windows: &Vec<Window>, id: u64) -> (r: Option<Window>)
    ensures
        match r {
            Some(w) => first_win_with_id(windows@.map_values(|x: Window| x@), id) == Some(w@),
            None => first_win_with_id(windows@.map_values(|x: Window| x@), id) is None,
        },
{
    let ghost all = windows@.map_values(|x: Window| x@);
    proof {
        assert(all.skip(0) =~= all);
    }
    let mut i: usize = 0;
    while i < windows.len()
        invariant
            i <= windows.len(),
            all == windows@.map_values(|x: Window| x@),
            first_win_with_id(all, id) == first_win_with_id(all.skip(i as int), id),
        decreases windows.len() - i,
    {
        proof {
            assert(all[i as int] == windows@[i as int]@);
            assert(all.skip(i as int)[0] == all[i as int]);
            assert(all.skip(i as int).drop_first() =~= all.skip(i + 1 as int));
        }
        if windows[i].id == id {
            return Some(windows[i].clone());
        }
        i = i + 1;
    }
    proof {
        assert(all.skip(windows.len() as int).len() == 0);
    }
    None
}

} // verus!
