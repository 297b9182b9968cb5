//! Pure workspace computations.
//!
//! Every function here works on workspace and window listings already
//! fetched from the compositor; the caller performs the fetch and hands
//! the lists in as plain values.

use vstd::prelude::*;
use vstd::string::StringExecFns;
use std::collections::HashMap;
use crate::error::{NiriSpacerError, SpacerResult};
use crate::jtext::{dec, from_wire, u64_string};
use crate::wire::{Window, WindowV, Workspace, WorkspaceV};

verus! {

broadcast use vstd::std_specs::hash::group_hash_axioms;

/// Whether some workspace in the listing has the given id.
pub open spec fn ws_contains_id(ws: Seq<WorkspaceV>, id: u64) -> bool {
    exists|i: int| 0 <= i < ws.len() && ws[i].id == id
}

/// The first workspace with the given id, if any.
pub open spec fn first_ws_with_id(ws: Seq<WorkspaceV>, id: u64) -> Option<WorkspaceV>
    decreases ws.len(),
{
    if ws.len() == 0 {
        None
    } else if ws[0].id == id {
        Some(ws[0])
    } else {
        first_ws_with_id(ws.drop_first(), id)
    }
}

/// The first focused workspace, if any.
pub open spec fn first_focused_ws(ws: Seq<WorkspaceV>) -> Option<WorkspaceV>
    decreases ws.len(),
{
    if ws.len() == 0 {
        None
    } else if ws[0].is_focused {
        Some(ws[0])
    } else {
        first_focused_ws(ws.drop_first())
    }
}

/// Looks a workspace up by its id.
pub fn get_workspace_by_id(workspaces: &Vec<Workspace>, workspace_id: u64) -> (r: SpacerResult<
    Workspace,
>)
    ensures
        match r {
            Ok(w) => first_ws_with_id(workspaces@.map_values(|x: Workspace| x@), workspace_id)
                == Some(w@),
            Err(e) => e == NiriSpacerError::WorkspaceNotFound(workspace_id)
                && first_ws_with_id(workspaces@.map_values(|x: Workspace| x@), workspace_id)
                is None,
        },
{
    let ghost all = workspaces@.map_values(|x: Workspace| x@);
    proof {
        assert(all.skip(0) =~= all);
    }
    let mut i: usize = 0;
    while i < workspaces.len()
        invariant
            i <= workspaces.len(),
            all == workspaces@.map_values(|x: Workspace| x@),
            first_ws_with_id(all, workspace_id) == first_ws_with_id(
                all.skip(i as int),
                workspace_id,
            ),
        decreases workspaces.len() - i,
    {
        proof {
            assert(all[i as int] == workspaces@[i as int]@);
            assert(all.skip(i as int)[0] == all[i as int]);
            assert(all.skip(i as int).drop_first() =~= all.skip(i + 1 as int));
        }
        if workspaces[i].id == workspace_id {
            return Ok(workspaces[i].clone());
        }
        i = i + 1;
    }
    proof {
        assert(all.skip(workspaces.len() as int).len() == 0);
    }
    Err(NiriSpacerError::WorkspaceNotFound(workspace_id))
}

/// Finds the currently focused workspace.
pub fn get_focused_workspace(workspaces: &Vec<Workspace>) -> (r: SpacerResult<Workspace>)
    ensures
        match r {
            Ok(w) => first_focused_ws(workspaces@.map_values(|x: Workspace| x@)) == Some(w@),
            Err(e) => e matches NiriSpacerError::IpcError(m) && m@ == no_focused_text()
                && first_focused_ws(workspaces@.map_values(|x: Workspace| x@)) is None,
        },
{
    let ghost all = workspaces@.map_values(|x: Workspace| x@);
    proof {
        assert(all.skip(0) =~= all);
    }
    let mut i: usize = 0;
    while i < workspaces.len()
        invariant
            i <= workspaces.len(),
            all == workspaces@.map_values(|x: Workspace| x@),
            first_focused_ws(all) == first_focused_ws(all.skip(i as int)),
        decreases workspaces.len() - i,
    {
        proof {
            assert(all[i as int] == workspaces@[i as int]@);
            assert(all.skip(i as int)[0] == all[i as int]);
            assert(all.skip(i as int).drop_first() =~= all.skip(i + 1 as int));
        }
        if workspaces[i].is_focused {
            return Ok(workspaces[i].clone());
        }
        i = i + 1;
    }
    proof {
        assert(all.skip(workspaces.len() as int).len() == 0);
    }
    Err(NiriSpacerError::IpcError(no_focused_message()))
}

/// The text reported when no workspace is focused.
pub open spec fn no_focused_text() -> Seq<char> {
    "No focused workspace found"@
}

fn no_focused_message() -> (r: String)
    ensures
        r@ == no_focused_text(),
{
    "No focused workspace found".to_owned()
}

/// Whether every id in `[start, start + count)` is unused.
pub open spec fn range_free(ws: Seq<WorkspaceV>, start: u64, count: u32) -> bool {
    forall|k: int| 0 <= k < count ==> !#[trigger] ws_contains_id(ws, (start + k) as u64)
}

/// The lowest start at or above `from` (capped at 1000) of a free run of
/// `count` consecutive ids.
pub open spec fn find_seq_from(ws: Seq<WorkspaceV>, count: u32, from: u64) -> Option<u64>
    decreases 1001 - from,
        when from >= 1
{
    if from > 1000 {
        None
    } else if range_free(ws, from, count) {
        Some(from)
    } else {
        find_seq_from(ws, count, (from + 1) as u64)
    }
}

/// Whether some workspace in the listing has the given id (executable).
fn workspace_id_exists(workspaces: &Vec<Workspace>, id: u64) -> (r: bool)
    ensures
        r == ws_contains_id(workspaces@.map_values(|x: Workspace| x@), id),
{
    let ghost all = workspaces@.map_values(|x: Workspace| x@);
    let mut i: usize = 0;
    while i < workspaces.len()
        invariant
            i <= workspaces.len(),
            all == workspaces@.map_values(|x: Workspace| x@),
            forall|j: int| 0 <= j < i ==> all[j].id != id,
        decreases workspaces.len() - i,
    {
        proof {
            assert(all[i as int] == workspaces@[i as int]@);
        }
        if workspaces[i].id == id {
            assert(ws_contains_id(all, id));
            return true;
        }
        i = i + 1;
    }
    false
}

/// Finds the lowest run of `count` consecutive workspace ids, starting
/// from id 1, that no existing workspace uses. The search is capped so a
/// pathological listing cannot make it spin forever.
pub fn find_workspace_sequence(workspaces: &Vec<Workspace>, count: u32) -> (r: SpacerResult<u64>)
    ensures
        match r {
            Ok(start) => find_seq_from(workspaces@.map_values(|x: Workspace| x@), count, 1)
                == Some(start),
            Err(e) => e matches NiriSpacerError::IpcError(m) && m@ == no_sequence_text(count)
                && find_seq_from(workspaces@.map_values(|x: Workspace| x@), count, 1) is None,
        },
{
    let ghost all = workspaces@.map_values(|x: Workspace| x@);
    let mut start: u64 = 1;
    while start <= 1000
        invariant
            1 <= start <= 1001,
            all == workspaces@.map_values(|x: Workspace| x@),
            find_seq_from(all, count, 1) == find_seq_from(all, count, start),
        decreases 1001 - start,
    {
        let mut free = true;
        let mut k: u32 = 0;
        while k < count && free
            invariant
                k <= count,
                start <= 1000,
                all == workspaces@.map_values(|x: Workspace| x@),
                free ==> forall|j: int| 0 <= j < k ==> !#[trigger] ws_contains_id(all, (start + j) as u64),
                !free ==> !range_free(all, start, count),
            decreases count - k,
        {
            if workspace_id_exists(workspaces, start + (k as u64)) {
                proof {
                    assert(ws_contains_id(all, (start + k) as u64));
                }
                free = false;
            }
            k = k + 1;
        }
        if free {
            assert(range_free(all, start, count));
            return Ok(start);
        }
        start = start + 1;
    }
    Err(NiriSpacerError::IpcError(no_sequence_message(count)))
}

/// The text reported when no free run of ids can be found.
pub open spec fn no_sequence_text(count: u32) -> Seq<char> {
    "Could not find "@ + dec(count as nat) + " consecutive available workspaces"@
}

fn no_sequence_message(count: u32) -> (r: String)
    ensures
        r@ == no_sequence_text(count),
{
    let mut s = "Could not find ".to_owned();
    let n = u64_string(count as u64);
    s.append(n.as_str());
    s.append(" consecutive available workspaces");
    s
}

/// Whether no window sits in the workspace with the given id.
pub open spec fn ws_id_empty(wins: Seq<WindowV>, id: u64) -> bool {
    forall|i: int| 0 <= i < wins.len() ==> wins[i].workspace_id != id
}

/// The lowest id among workspaces that hold no window, if any.
pub open spec fn min_empty_ws_id(ws: Seq<WorkspaceV>, wins: Seq<WindowV>) -> Option<u64>
    decreases ws.len(),
{
    if ws.len() == 0 {
        None
    } else {
        let rest = min_empty_ws_id(ws.drop_first(), wins);
        if ws_id_empty(wins, ws[0].id) {
            match rest {
                None => Some(ws[0].id),
                Some(m) => if ws[0].id <= m {
                    Some(ws[0].id)
                } else {
                    Some(m)
                },
            }
        } else {
            rest
        }
    }
}

/// Whether an empty existing workspace carries each id of the run
/// `[start, start + count)`.
pub open spec fn empty_run_at(
    ws: Seq<WorkspaceV>,
    wins: Seq<WindowV>,
    start: u64,
    count: u32,
) -> bool {
    forall|k: int| 0 <= k < count ==> (#[trigger] ws_contains_id(ws, (start + k) as u64)
        && ws_id_empty(wins, (start + k) as u64))
}

/// Whether no window sits in the workspace with the given id (executable).
fn ws_id_empty_exec(windows: &Vec<Window>, id: u64) -> (r: bool)
    ensures
        r == ws_id_empty(windows@.map_values(|x: Window| x@), id),
{
    let ghost all = windows@.map_values(|x: Window| x@);
    let mut i: usize = 0;
    while i < windows.len()
        invariant
            i <= windows.len(),
            all == windows@.map_values(|x: Window| x@),
            forall|j: int| 0 <= j < i ==> all[j].workspace_id != id,
        decreases windows.len() - i,
    {
        proof {
            assert(all[i as int] == windows@[i as int]@);
        }
        if windows[i].workspace_id == id {
            assert(!ws_id_empty(all, id));
            return false;
        }
        i = i + 1;
    }
    true
}

/// The lowest id of an empty workspace (executable).
fn min_empty_ws_id_exec(workspaces: &Vec<Workspace>, windows: &Vec<Window>) -> (r: Option<u64>)
    ensures
        r == min_empty_ws_id(
            workspaces@.map_values(|x: Workspace| x@),
            windows@.map_values(|x: Window| x@),
        ),
{
    let ghost ws = workspaces@.map_values(|x: Workspace| x@);
    let ghost wins = windows@.map_values(|x: Window| x@);
    let mut best: Option<u64> = None;
    let mut i: usize = workspaces.len();
    proof {
        assert(ws.skip(i as int).len() == 0);
    }
    while i > 0
        invariant
            i <= workspaces.len(),
            ws == workspaces@.map_values(|x: Workspace| x@),
            wins == windows@.map_values(|x: Window| x@),
            best == min_empty_ws_id(ws.skip(i as int), wins),
        decreases i,
    {
        i = i - 1;
        let w = &workspaces[i];
        proof {
            assert(ws.skip(i as int)[0] == ws[i as int]);
            assert(ws.skip(i as int).drop_first() =~= ws.skip(i + 1 as int));
        }
        if ws_id_empty_exec(windows, w.id) {
            best = match best {
                None => Some(w.id),
                Some(m) => if w.id <= m {
                    Some(w.id)
                } else {
                    Some(m)
                },
            };
        }
    }
    proof {
        assert(ws.skip(0) =~= ws);
    }
    best
}

/// Suggests the starting workspace id for a batch: the lowest empty
/// workspace, when the whole run of ids from it is covered by empty
/// existing workspaces; otherwise the lowest free run of ids.
pub fn suggest_starting_workspace(
    workspaces: &Vec<Workspace>,
    windows: &Vec<Window>,
    window_count: u32,
) -> (r: SpacerResult<u64>)
    ensures
        ({
            let ws = workspaces@.map_values(|x: Workspace| x@);
            let wins = windows@.map_values(|x: Window| x@);
            match min_empty_ws_id(ws, wins) {
                Some(m) if empty_run_at(ws, wins, m, window_count) && m + window_count
                    <= u64::MAX => r == Ok::<u64, NiriSpacerError>(m),
                _ => match r {
                    Ok(start) => find_seq_from(ws, window_count, 1) == Some(start),
                    Err(e) => e matches NiriSpacerError::IpcError(m) && m@ == no_sequence_text(
                        window_count,
                    ) && find_seq_from(ws, window_count, 1) is None,
                },
            }
        }),
{
    let ghost ws = workspaces@.map_values(|x: Workspace| x@);
    let ghost wins = windows@.map_values(|x: Window| x@);
    match min_empty_ws_id_exec(workspaces, windows) {
        Some(m) => {
            if m <= u64::MAX - (window_count as u64) {
                let mut covered = true;
                let mut k: u32 = 0;
                while k < window_count && covered
                    invariant
                        k <= window_count,
                        m + window_count <= u64::MAX,
                        ws == workspaces@.map_values(|x: Workspace| x@),
                        wins == windows@.map_values(|x: Window| x@),
                        covered ==> forall|j: int| 0 <= j < k ==> (#[trigger] ws_contains_id(
                            ws,
                            (m + j) as u64,
                        ) && ws_id_empty(wins, (m + j) as u64)),
                        !covered ==> !empty_run_at(ws, wins, m, window_count),
                    decreases window_count - k,
                {
                    let id = m + (k as u64);
                    if !workspace_id_exists(workspaces, id) || !ws_id_empty_exec(windows, id) {
                        covered = false;
                    }
                    k = k + 1;
                }
                if covered {
                    assert(empty_run_at(ws, wins, m, window_count));
                    return Ok(m);
                }
                find_workspace_sequence(workspaces, window_count)
            } else {
                proof {
                    assert(!(m + window_count <= u64::MAX));
                }
                find_workspace_sequence(workspaces, window_count)
            }
        },
        None => find_workspace_sequence(workspaces, window_count),
    }
}

// ---------------------------------------------------------------------------
// Workspace statistics
// ---------------------------------------------------------------------------

/// How many of the listed windows sit in the workspace with the given id.
pub open spec fn count_in_ws(wins: Seq<WindowV>, id: u64) -> nat
    decreases wins.len(),
{
    if wins.len() == 0 {
        0
    } else {
        count_in_ws(wins.drop_last(), id) + (if wins.last().workspace_id == id {
            1nat
        } else {
            0nat
        })
    }
}

pub proof fn lemma_count_in_ws_le(wins: Seq<WindowV>, id: u64)
    ensures
        count_in_ws(wins, id) <= wins.len(),
    decreases wins.len(),
{
    if wins.len() > 0 {
        lemma_count_in_ws_le(wins.drop_last(), id);
    }
}

/// Whether `p` occurs as a contiguous part of `t`.
pub open spec fn contains_seq(t: Seq<char>, p: Seq<char>) -> bool {
    exists|k: int| 0 <= k <= t.len() - p.len() && #[trigger] t.subrange(k, k + p.len()) == p
}

/// The title marker that spacer windows carry.
pub open spec fn spacer_title_marker() -> Seq<char> {
    "niri-spacer window"@
}

/// Whether the marker occurs in a window title (executable substring
/// search).
pub fn title_contains(t: &str, p: &str) -> (r: bool)
    ensures
        r == contains_seq(t@, p@),
{
    let tv = from_wire(t);
    let pv = from_wire(p);
    let tn = tv.len();
    let pn = pv.len();
    if tn < pn {
        return false;
    }
    if pn == 0 {
        proof {
            assert(t@.subrange(0, 0 + p@.len() as int) =~= p@);
            assert(contains_seq(t@, p@));
        }
        return true;
    }
    let mut k: usize = 0;
    while k <= tn - pn
        invariant
            1 <= pn <= tn,
            tn == t@.len(),
            pn == p@.len(),
            tv@ == t@,
            pv@ == p@,
            k <= tn - pn + 1,
            forall|k2: int| 0 <= k2 < k ==> #[trigger] t@.subrange(k2, k2 + p@.len()) != p@,
        decreases tn + 1 - pn - k,
    {
        let mut i: usize = 0;
        let mut same = true;
        while i < pn && same
            invariant
                i <= pn,
                k + pn <= tn,
                tn == t@.len(),
                pn == p@.len(),
                tv@ == t@,
                pv@ == p@,
                same ==> forall|j: int| 0 <= j < i ==> t@[k + j] == p@[j],
                !same ==> t@.subrange(k as int, k + p@.len()) != p@,
            decreases pn - i,
        {
            if tv[k + i] != pv[i] {
                proof {
                    assert(t@.subrange(k as int, k + p@.len())[i as int] == t@[k + i]);
                }
                same = false;
            }
            i = i + 1;
        }
        if same {
            proof {
                assert(t@.subrange(k as int, k + p@.len()) =~= p@);
            }
            return true;
        }
        k = k + 1;
    }
    proof {
        assert(forall|k2: int| 0 <= k2 <= t@.len() - p@.len() ==> #[trigger] t@.subrange(
            k2,
            k2 + p@.len(),
        ) != p@);
    }
    false
}

/// Whether a title marks a spacer window.
pub open spec fn is_spacer_title(t: Seq<char>) -> bool {
    contains_seq(t, spacer_title_marker())
}

/// How many of the listed windows carry the spacer title marker.
pub open spec fn count_spacer_windows(wins: Seq<WindowV>) -> nat
    decreases wins.len(),
{
    if wins.len() == 0 {
        0
    } else {
        count_spacer_windows(wins.drop_last()) + (if is_spacer_title(wins.last().title) {
            1nat
        } else {
            0nat
        })
    }
}

/// How many of the listed workspaces hold no window.
pub open spec fn count_empty_workspaces(ws: Seq<WorkspaceV>, wins: Seq<WindowV>) -> nat
    decreases ws.len(),
{
    if ws.len() == 0 {
        0
    } else {
        count_empty_workspaces(ws.drop_last(), wins) + (if ws_id_empty(wins, ws.last().id) {
            1nat
        } else {
            0nat
        })
    }
}

/// Statistics about the current workspace state.
#[derive(Debug)]
pub struct WorkspaceStats {
    pub total_workspaces: u32,
    pub empty_workspaces: u32,
    pub total_windows: u32,
    pub spacer_windows: u32,
    pub focused_workspace_id: Option<u64>,
    pub workspace_window_counts: HashMap<u64, u32>,
}

/// Computes the statistics of a workspace and window listing.
pub fn get_workspace_stats(workspaces: &Vec<Workspace>, windows: &Vec<Window>) -> (r:
    WorkspaceStats)
    requires
        workspaces@.len() <= u32::MAX,
        windows@.len() <= u32::MAX,
    ensures
        ({
            let ws = workspaces@.map_values(|x: Workspace| x@);
            let wins = windows@.map_values(|x: Window| x@);
            &&& r.total_workspaces == workspaces@.len()
            &&& r.total_windows == windows@.len()
            &&& r.spacer_windows == count_spacer_windows(wins)
            &&& r.empty_workspaces == count_empty_workspaces(ws, wins)
            &&& r.focused_workspace_id == (match first_focused_ws(ws) {
                Some(w) => Some(w.id),
                None => None::<u64>,
            })
            &&& forall|id: u64|
                r.workspace_window_counts@.contains_key(id) <==> count_in_ws(wins, id) > 0
            &&& forall|id: u64| #[trigger] r.workspace_window_counts@.contains_key(id)
                ==> r.workspace_window_counts@[id] == count_in_ws(wins, id)
        }),
{
    let ghost ws = workspaces@.map_values(|x: Workspace| x@);
    let ghost wins = windows@.map_values(|x: Window| x@);

    // per-workspace window counts
    let mut counts: HashMap<u64, u32> = HashMap::new();
    let mut i: usize = 0;
    proof {
        assert(wins.take(0) =~= Seq::<WindowV>::empty());
    }
    while i < windows.len()
        invariant
            i <= windows.len(),
            windows@.len() <= u32::MAX,
            wins == windows@.map_values(|x: Window| x@),
            forall|id: u64| #[trigger] counts@.contains_key(id) <==> count_in_ws(
                wins.take(i as int),
                id,
            ) > 0,
            forall|id: u64| #[trigger] counts@.contains_key(id) ==> counts@[id] == count_in_ws(
                wins.take(i as int),
                id,
            ),
        decreases windows.len() - i,
    {
        let id = windows[i].workspace_id;
        proof {
            assert(wins[i as int] == windows@[i as int]@);
            assert(wins.take(i + 1 as int).drop_last() =~= wins.take(i as int));
            assert(wins.take(i + 1 as int).last() == wins[i as int]);
            lemma_count_in_ws_le(wins.take(i as int), id);
            assert(forall|id2: u64| wins.take(i + 1 as int).last().workspace_id != id2
                ==> count_in_ws(wins.take(i + 1 as int), id2) == count_in_ws(
                wins.take(i as int),
                id2,
            ));
        }
        let cur: u32 = match counts.get(&id) {
            Some(c) => *c,
            None => 0,
        };
        counts.insert(id, cur + 1);
        i = i + 1;
    }
    proof {
        assert(wins.take(windows.len() as int) =~= wins);
    }

    // spacer windows, by title marker
    let mut spacers: u32 = 0;
    let mut j: usize = 0;
    proof {
        assert(wins.take(0) =~= Seq::<WindowV>::empty());
    }
    while j < windows.len()
        invariant
            j <= windows.len(),
            windows@.len() <= u32::MAX,
            wins == windows@.map_values(|x: Window| x@),
            spacers == count_spacer_windows(wins.take(j as int)),
            spacers <= j,
        decreases windows.len() - j,
    {
        proof {
            assert(wins[j as int] == windows@[j as int]@);
            assert(wins.take(j + 1 as int).drop_last() =~= wins.take(j as int));
            assert(wins.take(j + 1 as int).last() == wins[j as int]);
        }
        if title_contains(windows[j].title.as_str(), "niri-spacer window") {
            spacers = spacers + 1;
        }
        j = j + 1;
    }
    proof {
        assert(wins.take(windows.len() as int) =~= wins);
    }

    // empty workspaces
    let mut empty: u32 = 0;
    let mut k: usize = 0;
    proof {
        assert(ws.take(0) =~= Seq::<WorkspaceV>::empty());
    }
    while k < workspaces.len()
        invariant
            k <= workspaces.len(),
            workspaces@.len() <= u32::MAX,
            ws == workspaces@.map_values(|x: Workspace| x@),
            wins == windows@.map_values(|x: Window| x@),
            empty == count_empty_workspaces(ws.take(k as int), wins),
            empty <= k,
        decreases workspaces.len() - k,
    {
        proof {
            assert(ws[k as int] == workspaces@[k as int]@);
            assert(ws.take(k + 1 as int).drop_last() =~= ws.take(k as int));
            assert(ws.take(k + 1 as int).last() == ws[k as int]);
        }
        if ws_id_empty_exec(windows, workspaces[k].id) {
            empty = empty + 1;
        }
        k = k + 1;
    }
    proof {
        assert(ws.take(workspaces.len() as int) =~= ws);
    }

    // focused workspace
    let focused: Option<u64> = match get_focused_workspace(workspaces) {
        Ok(w) => Some(w.id),
        Err(_) => None,
    };

    WorkspaceStats {
        total_workspaces: workspaces.len() as u32,
        empty_workspaces: empty,
        total_windows: windows.len() as u32,
        spacer_windows: spacers,
        focused_workspace_id: focused,
        workspace_window_counts: counts,
    }
}

/// The tiling heuristic, read over integers: the average
/// number of non-spacer windows per occupied workspace lies between one
/// and three, and no more than half the workspaces stand empty.
pub open spec fn good_tiling_layout(
    total_workspaces: u32,
    empty_workspaces: u32,
    total_windows: u32,
    spacer_windows: u32,
    occupied: nat,
) -> bool {
    &&& occupied > 0
    &&& spacer_windows <= total_windows
    &&& occupied <= total_windows - spacer_windows
    &&& total_windows - spacer_windows <= 3 * occupied
    &&& empty_workspaces <= total_workspaces / 2
}

impl WorkspaceStats {
    /// Checks whether the workspace layout suggests good tiling
    /// behavior.
    pub fn has_good_tiling_layout(&self) -> (r: bool)
        ensures
            r == good_tiling_layout(
                self.total_workspaces,
                self.empty_workspaces,
                self.total_windows,
                self.spacer_windows,
                self.workspace_window_counts@.len(),
            ),
    {
        let occupied: usize = self.workspace_window_counts.len();
        if occupied == 0 {
            return false;
        }
        if self.spacer_windows > self.total_windows {
            return false;
        }
        let net: u64 = (self.total_windows - self.spacer_windows) as u64;
        (occupied as u64) <= net && net <= 3 * (occupied as u64) && self.empty_workspaces
            <= self.total_workspaces / 2
    }

    /// A one-line report of the statistics.
    pub fn summary(&self) -> (r: String)
        ensures
            r@ == stats_summary_spec(
                self.total_workspaces,
                self.empty_workspaces,
                self.total_windows,
                self.spacer_windows,
                self.focused_workspace_id,
            ),
    {
        let mut s = u64_string(self.total_workspaces as u64);
        s.append(" workspaces (");
        let p1 = u64_string(self.empty_workspaces as u64);
        s.append(p1.as_str());
        s.append(" empty), ");
        let p2 = u64_string(self.total_windows as u64);
        s.append(p2.as_str());
        s.append(" windows (");
        let p3 = u64_string(self.spacer_windows as u64);
        s.append(p3.as_str());
        s.append(" spacers), focused: ");
        match self.focused_workspace_id {
            Some(id) => {
                let p4 = u64_string(id);
                s.append(p4.as_str());
            },
            None => {
                s.append("none");
            },
        }
        s
    }
}

/// The summary line's exact text.
pub open spec fn stats_summary_spec(
    total_workspaces: u32,
    empty_workspaces: u32,
    total_windows: u32,
    spacer_windows: u32,
    focused_workspace_id: Option<u64>,
) -> Seq<char> {
    dec(total_workspaces as nat) + " workspaces ("@ + dec(empty_workspaces as nat) + " empty), "@
        + dec(total_windows as nat) + " windows ("@ + dec(spacer_windows as nat)
        + " spacers), focused: "@ + (match focused_workspace_id {
        Some(id) => dec(id as nat),
        None => "none"@,
    })
}

/// Validates that a run of target workspace ids may be used. The
/// compositor allows several windows per workspace, so an occupied id
/// only merits a warning and the check never refuses a placement; the
/// result reports how many of the targeted ids already exist, for the
/// caller's diagnostics.
pub fn validate_workspace_availability(
    workspaces: &Vec<Workspace>,
    starting_workspace_id: u64,
    count: u32,
) -> (r: SpacerResult<u32>)
    requires
        starting_workspace_id + count <= u64::MAX,
    ensures
        match r {
            Ok(occupied) => occupied <= count && ((occupied == 0) <==> range_free(
                workspaces@.map_values(|x: Workspace| x@),
                starting_workspace_id,
                count,
            )),
            Err(_) => false,
        },
{
    let ghost all = workspaces@.map_values(|x: Workspace| x@);
    let mut occupied: u32 = 0;
    let mut k: u32 = 0;
    while k < count
        invariant
            k <= count,
            occupied <= k,
            starting_workspace_id + count <= u64::MAX,
            all == workspaces@.map_values(|x: Workspace| x@),
            (occupied == 0) <==> (forall|j: int| 0 <= j < k ==> !#[trigger] ws_contains_id(
                all,
                (starting_workspace_id + j) as u64,
            )),
        decreases count - k,
    {
        if workspace_id_exists(workspaces, starting_workspace_id + (k as u64)) {
            proof {
                assert(ws_contains_id(all, (starting_workspace_id + k) as u64));
            }
            occupied = occupied + 1;
        }
        k = k + 1;
    }
    Ok(occupied)
}

} // verus!
