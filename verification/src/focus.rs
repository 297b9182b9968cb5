//! Focus self-correction rules.
//!
//! The focus loop consumes compositor events and keeps spacer windows
//! out of the user's focus path. The decisions live here as pure
//! functions from the event and the observed state to a plan; the caller
//! owns the event stream and the action connection and merely executes
//! the plan.

use vstd::prelude::*;
use crate::engine::first_win_with_id;
use crate::error::{NiriSpacerError, SpacerResult};
use crate::ops::{
    center_column_action, focus_column_left_action, focus_column_right_action,
    maximize_column_action,
};
use crate::wire::{NiriAction, NiriActionV, NiriEvent, NiriEventV, Window, WindowV};

verus! {

/// Whether an id belongs to the tracked spacer set.
pub open spec fn spacer_ids_contain(spacer_ids: Seq<u64>, id: u64) -> bool {
    exists|i: int| 0 <= i < spacer_ids.len() && spacer_ids[i] == id
}

/// How many listed windows share the given workspace.
pub open spec fn windows_in_ws(wins: Seq<WindowV>, workspace_id: u64) -> nat
    decreases wins.len(),
{
    if wins.len() == 0 {
        0
    } else {
        windows_in_ws(wins.drop_last(), workspace_id) + (if wins.last().workspace_id
            == workspace_id {
            1nat
        } else {
            0nat
        })
    }
}

/// Counts the windows that share a workspace with the given window.
pub fn count_workspace_windows(windows: &Vec<Window>, window_id: u64) -> (r: SpacerResult<usize>)
    ensures
        ({
            let wins = windows@.map_values(|x: Window| x@);
            match first_win_with_id(wins, window_id) {
                None => r == Err::<usize, NiriSpacerError>(NiriSpacerError::WindowNotFound(
                    window_id,
                )),
                Some(w) => r == Ok::<usize, NiriSpacerError>(
                    windows_in_ws(wins, w.workspace_id) as usize,
                ),
            }
        }),
{
    let ghost wins = windows@.map_values(|x: Window| x@);
    let target = match crate::engine::find_window_by_id(windows, window_id) {
        Some(w) => w,
        None => {
            return Err(NiriSpacerError::WindowNotFound(window_id));
        },
    };
    let wsid = target.workspace_id;
    let mut count: usize = 0;
    let mut i: usize = 0;
    proof {
        assert(wins.take(0) =~= Seq::<WindowV>::empty());
    }
    while i < windows.len()
        invariant
            i <= windows.len(),
            wins == windows@.map_values(|x: Window| x@),
            count == windows_in_ws(wins.take(i as int), wsid),
            count <= i,
        decreases windows.len() - i,
    {
        proof {
            assert(wins[i as int] == windows@[i as int]@);
            assert(wins.take(i + 1 as int).drop_last() =~= wins.take(i as int));
            assert(wins.take(i + 1 as int).last() == wins[i as int]);
        }
        if windows[i].workspace_id == wsid {
            count = count + 1;
        }
        i = i + 1;
    }
    proof {
        assert(wins.take(windows.len() as int) =~= wins);
    }
    Ok(count)
}

/// What the focus loop does in answer to one event.
#[derive(Debug, Clone, Copy, PartialEq, Eq, Structural)]
pub struct FocusPlan {
    /// Re-verify and, if needed, fix the focused spacer's column
    /// position before redirecting.
    pub check_position: bool,
    /// Issue exactly one focus-column-right to move focus off the
    /// spacer.
    pub redirect: bool,
    /// Apply one layout-settle sequence afterwards. Skipped when fewer
    /// than three windows share the workspace, to avoid a focus
    /// ping-pong.
    pub settle: bool,
}

/// The plan that answers one event: only a focus change onto a tracked
/// spacer triggers anything; it always checks position and redirects
/// focus exactly once, and settles the layout exactly when the spacer's
/// workspace holds at least three windows.
pub open spec fn focus_plan_spec(
    event: NiriEventV,
    spacer_ids: Seq<u64>,
    wins: Seq<WindowV>,
) -> FocusPlan {
    match event {
        NiriEventV::WindowFocusChanged { id } => if spacer_ids_contain(spacer_ids, id) {
            FocusPlan {
                check_position: true,
                redirect: true,
                settle: match first_win_with_id(wins, id) {
                    Some(w) => windows_in_ws(wins, w.workspace_id) >= 3,
                    None => false,
                },
            }
        } else {
            FocusPlan { check_position: false, redirect: false, settle: false }
        },
        _ => FocusPlan { check_position: false, redirect: false, settle: false },
    }
}

/// No workspace holds more windows than the listing has.
pub proof fn lemma_windows_in_ws_le(wins: Seq<WindowV>, workspace_id: u64)
    ensures
        windows_in_ws(wins, workspace_id) <= wins.len(),
    decreases wins.len(),
{
    if wins.len() > 0 {
        lemma_windows_in_ws_le(wins.drop_last(), workspace_id);
    }
}

/// Whether an id belongs to the tracked spacer set (executable).
pub fn is_tracked_spacer(spacer_ids: &Vec<u64>, id: u64) -> (r: bool)
    ensures
        r == spacer_ids_contain(spacer_ids@, id),
{
    let mut i: usize = 0;
    while i < spacer_ids.len()
        invariant
            i <= spacer_ids.len(),
            forall|j: int| 0 <= j < i ==> spacer_ids@[j] != id,
        decreases spacer_ids.len() - i,
    {
        if spacer_ids[i] == id {
            return true;
        }
        i = i + 1;
    }
    false
}

/// Decides the focus loop's answer to one event.
pub fn plan_focus_response(
    event: &NiriEvent,
    spacer_ids: &Vec<u64>,
    windows: &Vec<Window>,
) -> (r: FocusPlan)
    ensures
        r == focus_plan_spec(event@, spacer_ids@, windows@.map_values(|x: Window| x@)),
{
    match event {
        NiriEvent::WindowFocusChanged { id } => {
            if is_tracked_spacer(spacer_ids, *id) {
                let n = windows.len();
                proof {
                    let wins = windows@.map_values(|x: Window| x@);
                    assert(wins.len() == n);
                    if first_win_with_id(wins, *id) is Some {
                        lemma_windows_in_ws_le(
                            wins,
                            first_win_with_id(wins, *id)->Some_0.workspace_id,
                        );
                    }
                }
                let settle = match count_workspace_windows(windows, *id) {
                    Ok(count) => count >= 3,
                    Err(_) => false,
                };
                FocusPlan { check_position: true, redirect: true, settle: settle }
            } else {
                FocusPlan { check_position: false, redirect: false, settle: false }
            }
        },
        _ => FocusPlan { check_position: false, redirect: false, settle: false },
    }
}

/// The single action that redirects focus off a spacer.
pub fn redirect_action() -> (r: NiriAction)
    ensures
        r@ == NiriActionV::FocusColumnRight,
{
    focus_column_right_action()
}

/// The primary layout-settle sequence: focus right, then left, which
/// restores the original focus while flushing a layout recompute.
pub fn primary_settle_actions() -> (r: Vec<NiriAction>)
    ensures
        r@.map_values(|a: NiriAction| a@) == seq![
            NiriActionV::FocusColumnRight,
            NiriActionV::FocusColumnLeft,
        ],
{
    let mut v: Vec<NiriAction> = Vec::new();
    v.push(focus_column_right_action());
    v.push(focus_column_left_action());
    proof {
        assert(v@.map_values(|a: NiriAction| a@) =~= seq![
            NiriActionV::FocusColumnRight,
            NiriActionV::FocusColumnLeft,
        ]);
    }
    v
}

/// The fallback layout-settle sequence, used when the primary fails:
/// center the column, then maximize twice, toggling back to the original
/// size after forcing a relayout.
pub fn fallback_settle_actions() -> (r: Vec<NiriAction>)
    ensures
        r@.map_values(|a: NiriAction| a@) == seq![
            NiriActionV::CenterColumn,
            NiriActionV::MaximizeColumn,
            NiriActionV::MaximizeColumn,
        ],
{
    let mut v: Vec<NiriAction> = Vec::new();
    v.push(center_column_action());
    v.push(maximize_column_action());
    v.push(maximize_column_action());
    proof {
        assert(v@.map_values(|a: NiriAction| a@) =~= seq![
            NiriActionV::CenterColumn,
            NiriActionV::MaximizeColumn,
            NiriActionV::MaximizeColumn,
        ]);
    }
    v
}

/// What remains of the layout settle after the primary sequence has
/// been attempted: the fallback sequence exactly when the primary
/// failed part-way, and nothing when it ran to completion.
pub open spec fn settle_continuation_spec(primary_failed: bool) -> Option<Seq<NiriActionV>> {
    if primary_failed {
        Some(seq![
            NiriActionV::CenterColumn,
            NiriActionV::MaximizeColumn,
            NiriActionV::MaximizeColumn,
        ])
    } else {
        None
    }
}

/// Decides the settle continuation: the primary sequence is attempted
/// once, and the fallback is issued exactly when it failed, so at most
/// one of the two sequences ever runs to completion.
pub fn settle_continuation(primary_failed: bool) -> (r: Option<Vec<NiriAction>>)
    ensures
        r is Some <==> primary_failed,
        match r {
            Some(v) => Some(v@.map_values(|a: NiriAction| a@)) == settle_continuation_spec(
                primary_failed,
            ),
            None => settle_continuation_spec(primary_failed) is None,
        },
{
    if primary_failed {
        Some(fallback_settle_actions())
    } else {
        None
    }
}

/// A focus change onto a tracked spacer always redirects exactly once,
/// and settles the layout exactly when at least three windows share the
/// spacer's workspace; any other event, or an untracked window, triggers
/// nothing.
pub proof fn lemma_focus_rules(event: NiriEventV, spacer_ids: Seq<u64>, wins: Seq<WindowV>)
    ensures
        (match event {
            NiriEventV::WindowFocusChanged { id } => {
                &&& spacer_ids_contain(spacer_ids, id) ==> focus_plan_spec(
                    event,
                    spacer_ids,
                    wins,
                ).redirect
                &&& spacer_ids_contain(spacer_ids, id) ==> (focus_plan_spec(event, spacer_ids, wins).settle
                    <==> (match first_win_with_id(wins, id) {
                    Some(w) => windows_in_ws(wins, w.workspace_id) >= 3,
                    None => false,
                }))
                &&& !spacer_ids_contain(spacer_ids, id) ==> focus_plan_spec(event, spacer_ids, wins)
                    == (FocusPlan { check_position: false, redirect: false, settle: false })
            },
            _ => focus_plan_spec(event, spacer_ids, wins) == (FocusPlan {
                check_position: false,
                redirect: false,
                settle: false,
            }),
        }),
{
}

} // verus!
