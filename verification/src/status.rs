use vstd::prelude::*;

verus! {

/// Status of an asset load: the per-handle status reported by the
/// asset-loading collaborator, and also the aggregate status of a
/// whole set of handles.
#[derive(Clone, Copy, PartialEq, Eq, Structural, Debug)]
pub enum LoadState {
    /// Still in flight.
    Pending,
    /// The load ended in an error.
    Failed,
    /// The load completed.
    Loaded,
}

/// Aggregate status of a sequence of per-handle statuses: `Failed` if any
/// handle failed, `Loaded` only when every handle has loaded, `Pending`
/// otherwise. An empty sequence is vacuously `Loaded`.
pub open spec fn aggregate(statuses: Seq<LoadState>) -> LoadState {
    if exists|i: int| 0 <= i < statuses.len() && statuses[i] is Failed {
        LoadState::Failed
    } else if forall|i: int| 0 <= i < statuses.len() ==> statuses[i] is Loaded {
        LoadState::Loaded
    } else {
        LoadState::Pending
    }
}

/// Computes the aggregate status of `statuses` in one pass.
pub fn aggregate_status(statuses: &Vec<LoadState>) -> (r: LoadState)
    ensures
        r == aggregate(statuses@),
{
    let mut any_failed = false;
    let mut all_loaded = true;
    let mut i: usize = 0;
    while i < statuses.len()
        invariant
            0 <= i <= statuses@.len(),
            any_failed == exists|j: int| 0 <= j < i && statuses@[j] is Failed,
            all_loaded == forall|j: int| 0 <= j < i ==> statuses@[j] is Loaded,
        decreases statuses@.len() - i,
    {
        match statuses[i] {
            LoadState::Failed => {
                any_failed = true;
                all_loaded = false;
            }
            LoadState::Loaded => {}
            LoadState::Pending => {
                all_loaded = false;
            }
        }
        i = i + 1;
    }
    if any_failed {
        LoadState::Failed
    } else if all_loaded {
        LoadState::Loaded
    } else {
        LoadState::Pending
    }
}

/// With no handles there is nothing to fail or to remain pending, so the
/// aggregate is `Loaded` from the very first poll.
pub proof fn lemma_empty_aggregate_loaded(statuses: Seq<LoadState>)
    requires
        statuses.len() == 0,
    ensures
        aggregate(statuses) == LoadState::Loaded,
{
}

/// One failed handle makes the aggregate `Failed`, whatever the other
/// handles report.
pub proof fn lemma_failed_dominates(statuses: Seq<LoadState>, i: int)
    requires
        0 <= i < statuses.len(),
        statuses[i] is Failed,
    ensures
        aggregate(statuses) == LoadState::Failed,
{
}

/// When every handle reports `Loaded`, the aggregate is `Loaded`.
pub proof fn lemma_all_loaded(statuses: Seq<LoadState>)
    requires
        forall|i: int| 0 <= i < statuses.len() ==> statuses[i] is Loaded,
    ensures
        aggregate(statuses) == LoadState::Loaded,
{
}

} // verus!
