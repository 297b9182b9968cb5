//! Spacer window records and batch planning.

use vstd::prelude::*;
use crate::error::{NiriSpacerError, SpacerResult};
use crate::wire::{Window, WindowV};

verus! {

/// A spacer window that has been created and correlated: its compositor
/// window id, the workspace index it was placed at, and its dense
/// one-based ordinal within the creation batch.
#[derive(Debug, Clone, Copy, PartialEq, Eq, Structural)]
pub struct SpacerWindow {
    pub id: u64,
    pub workspace_id: u64,
    pub window_number: u32,
}

/// Whether some listed window has the given id.
pub open spec fn wins_contain_id(wins: Seq<WindowV>, id: u64) -> bool {
    exists|i: int| 0 <= i < wins.len() && wins[i].id == id
}

/// The first tracked spacer that the listing no longer shows, if any.
pub open spec fn first_missing_spacer(
    spacers: Seq<SpacerWindow>,
    wins: Seq<WindowV>,
) -> Option<SpacerWindow>
    decreases spacers.len(),
{
    if spacers.len() == 0 {
        None
    } else if !wins_contain_id(wins, spacers[0].id) {
        Some(spacers[0])
    } else {
        first_missing_spacer(spacers.drop_first(), wins)
    }
}

/// Whether some listed window has the given id (executable).
fn window_id_exists(windows: &Vec<Window>, id: u64) -> (r: bool)
    ensures
        r == wins_contain_id(windows@.map_values(|x: Window| x@), id),
{
    let ghost all = windows@.map_values(|x: Window| x@);
    let mut i: usize = 0;
    while i < windows.len()
        invariant
            i <= windows.len(),
            all == windows@.map_values(|x: Window| x@),
            forall|j: int| 0 <= j < i ==> all[j].id != id,
        decreases windows.len() - i,
    {
        proof {
            assert(all[i as int] == windows@[i as int]@);
        }
        if windows[i].id == id {
            assert(wins_contain_id(all, id));
            return true;
        }
        i = i + 1;
    }
    false
}

/// Validates that every tracked spacer window is still present in the
/// compositor's window listing. Succeeds exactly when all are present;
/// otherwise reports the first tracked spacer that has disappeared.
///
/// The check reads its inputs and changes nothing, so re-validating an
/// unchanged state gives the same verdict every time.
pub fn validate_spacers(spacers: &Vec<SpacerWindow>, windows: &Vec<Window>) -> (r: SpacerResult<
    (),
>)
    ensures
        match first_missing_spacer(spacers@, windows@.map_values(|x: Window| x@)) {
            None => r is Ok,
            Some(sp) => r == Err::<(), NiriSpacerError>(NiriSpacerError::WindowNotFound(sp.id)),
        },
{
    let ghost wins = windows@.map_values(|x: Window| x@);
    proof {
        assert(spacers@.skip(0) =~= spacers@);
    }
    let mut i: usize = 0;
    while i < spacers.len()
        invariant
            i <= spacers.len(),
            wins == windows@.map_values(|x: Window| x@),
            first_missing_spacer(spacers@, wins) == first_missing_spacer(
                spacers@.skip(i as int),
                wins,
            ),
        decreases spacers.len() - i,
    {
        proof {
            assert(spacers@.skip(i as int)[0] == spacers@[i as int]);
            assert(spacers@.skip(i as int).drop_first() =~= spacers@.skip(i + 1 as int));
        }
        if !window_id_exists(windows, spacers[i].id) {
            return Err(NiriSpacerError::WindowNotFound(spacers[i].id));
        }
        i = i + 1;
    }
    proof {
        assert(spacers@.skip(spacers.len() as int).len() == 0);
    }
    Ok(())
}

/// A set of tracked spacers that the listing fully shows validates
/// cleanly, however often the check is repeated.
pub proof fn lemma_validation_accepts_present(spacers: Seq<SpacerWindow>, wins: Seq<WindowV>)
    requires
        forall|i: int| 0 <= i < spacers.len() ==> wins_contain_id(wins, #[trigger] spacers[i].id),
    ensures
        first_missing_spacer(spacers, wins) is None,
    decreases spacers.len(),
{
    if spacers.len() > 0 {
        assert(spacers.drop_first().len() == spacers.len() - 1);
        assert(forall|i: int| 0 <= i < spacers.drop_first().len()
            ==> #[trigger] spacers.drop_first()[i] == spacers[i + 1]);
        lemma_validation_accepts_present(spacers.drop_first(), wins);
    }
}

/// Removing a tracked window from the compositor's reported list makes
/// the next validation report a missing window.
pub proof fn lemma_validation_detects_removal(
    spacers: Seq<SpacerWindow>,
    wins: Seq<WindowV>,
    i: int,
)
    requires
        0 <= i < spacers.len(),
        !wins_contain_id(wins, spacers[i].id),
    ensures
        first_missing_spacer(spacers, wins) is Some,
        !wins_contain_id(wins, first_missing_spacer(spacers, wins)->Some_0.id),
    decreases spacers.len(),
{
    if wins_contain_id(wins, spacers[0].id) {
        assert(i > 0);
        assert(spacers.drop_first()[i - 1] == spacers[i]);
        lemma_validation_detects_removal(spacers.drop_first(), wins, i - 1);
    }
}

/// The placement plan of one creation batch: window `k` (zero-based)
/// gets ordinal `k + 1` and workspace index `starting_idx + k`.
pub fn plan_spacer_batch(window_count: u32, starting_idx: u8) -> (r: Vec<(u32, u8)>)
    requires
        window_count >= 1,
        starting_idx + window_count - 1 <= 255,
    ensures
        r@.len() == window_count,
        forall|k: int| 0 <= k < window_count ==> (#[trigger] r@[k]).0 == k + 1 && r@[k].1
            == starting_idx + k,
{
    let mut plan: Vec<(u32, u8)> = Vec::new();
    let mut i: u32 = 0;
    while i < window_count
        invariant
            i <= window_count,
            starting_idx + window_count - 1 <= 255,
            plan@.len() == i,
            forall|k: int| 0 <= k < i ==> (#[trigger] plan@[k]).0 == k + 1 && plan@[k].1
                == starting_idx + k,
        decreases window_count - i,
    {
        let number: u32 = i + 1;
        let idx: u8 = starting_idx + (i as u8);
        plan.push((number, idx));
        i = i + 1;
    }
    plan
}

} // verus!
