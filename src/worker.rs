use vstd::prelude::*;

verus! {

/// The life of a worker: it runs until it sees the shutdown signal.
#[derive(Clone, Copy, Debug, PartialEq, Eq, Structural)]
pub enum WorkerState {
    Running,
    Terminated,
}

/// The state after one look at the shutdown signal.
pub open spec fn worker_next(state: WorkerState, shutdown: bool) -> WorkerState {
    if shutdown {
        WorkerState::Terminated
    } else {
        state
    }
}

/// The state of a worker after it has looked at the signal once per
/// iteration, with the values `signals`, in order.
pub open spec fn worker_run(state: WorkerState, signals: Seq<bool>) -> WorkerState
    decreases signals.len(),
{
    if signals.len() == 0 {
        state
    } else {
        worker_run(worker_next(state, signals[0]), signals.drop_first())
    }
}

/// The state of a worker once it has looked at the shutdown signal at the
/// top of an iteration.
pub fn step(state: WorkerState, shutdown: bool) -> (r: WorkerState)
    ensures
        r == worker_next(state, shutdown),
{
    if shutdown {
        WorkerState::Terminated
    } else {
        state
    }
}

/// Whether a worker in `state` runs another iteration.
pub fn keeps_running(state: WorkerState) -> (r: bool)
    ensures
        r == (state == WorkerState::Running),
{
    match state {
        WorkerState::Running => true,
        WorkerState::Terminated => false,
    }
}

/// Once a worker has seen the shutdown signal set, it stays terminated,
/// whatever it sees after; a worker that never sees it keeps running.
pub proof fn lemma_shutdown_is_final(state: WorkerState, before: Seq<bool>, after: Seq<bool>)
    ensures
        worker_run(state, before.push(true) + after) == WorkerState::Terminated,
        (forall|i: int| 0 <= i < before.len() ==> !before[i]) ==> worker_run(state, before)
            == state,
    decreases before.len(),
{
    if before.len() == 0 {
        assert((before.push(true) + after).drop_first() =~= after);
        lemma_terminated_stays(after);
    } else {
        assert((before.push(true) + after).drop_first() =~= before.drop_first().push(true)
            + after);
        lemma_shutdown_is_final(worker_next(state, before[0]), before.drop_first(), after);
        if forall|i: int| 0 <= i < before.len() ==> !before[i] {
            assert(!before[0]);
            assert forall|i: int| 0 <= i < before.drop_first().len() implies !before.drop_first()[i] by {
                assert(before.drop_first()[i] == before[i + 1]);
            }
        }
    }
}

proof fn lemma_terminated_stays(signals: Seq<bool>)
    ensures
        worker_run(WorkerState::Terminated, signals) == WorkerState::Terminated,
    decreases signals.len(),
{
    if signals.len() > 0 {
        lemma_terminated_stays(signals.drop_first());
    }
}

} // verus!
