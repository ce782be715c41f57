//! The cancellable countdown loop, as a pure state machine.
//!
//! Each tick the loop first checks the cancellation flag, then whether
//! the measured elapsed time has reached the requested total, and only
//! otherwise keeps running with the remaining time to render. The
//! binary around the library performs the real sleeping, clock reads
//! and rendering, and feeds each tick's observation to [`tick`]; the
//! run model here folds a whole recorded run of observations, so that
//! the loop's termination behaviour can be stated and proved.

use vstd::prelude::*;

verus! {

/// The loop's terminal outcome: the duration fully elapsed, or
/// cancellation was observed first.
#[derive(Clone, Copy, Debug, PartialEq, Eq, Structural)]
pub enum WaitResult {
    Finished,
    Terminated,
}

/// What one tick observes: the cancellation flag, and the whole
/// seconds elapsed since the loop started.
#[derive(Clone, Copy, Debug, PartialEq, Eq, Structural)]
pub struct Observation {
    pub cancelled: bool,
    pub elapsed: u64,
}

/// What one tick decides: stop cancelled, stop complete, or keep
/// running and render the remaining seconds.
#[derive(Clone, Copy, Debug, PartialEq, Eq, Structural)]
pub enum TickOutcome {
    Cancelled,
    Completed,
    Continue(u64),
}

/// One tick's decision: cancellation is checked first, then
/// completion; otherwise the loop continues with `total - elapsed`
/// seconds left.
pub open spec fn tick_spec(total: u64, o: Observation) -> TickOutcome {
    if o.cancelled {
        TickOutcome::Cancelled
    } else if o.elapsed >= total {
        TickOutcome::Completed
    } else {
        TickOutcome::Continue((total - o.elapsed) as u64)
    }
}

/// Decides one tick of the countdown loop from what it observed.
pub fn tick(total: u64, cancelled: bool, elapsed: u64) -> (r: TickOutcome)
    ensures
        r == tick_spec(total, Observation { cancelled, elapsed }),
{
    if cancelled {
        TickOutcome::Cancelled
    } else if elapsed >= total {
        TickOutcome::Completed
    } else {
        TickOutcome::Continue(total - elapsed)
    }
}

/// The outcome of folding the ticks over a recorded run of
/// observations: `None` when every tick continued and the recording
/// ran out first.
pub open spec fn run_spec(total: u64, obs: Seq<Observation>) -> Option<WaitResult>
    decreases obs.len(),
{
    if obs.len() == 0 {
        None
    } else {
        match tick_spec(total, obs[0]) {
            TickOutcome::Cancelled => Some(WaitResult::Terminated),
            TickOutcome::Completed => Some(WaitResult::Finished),
            TickOutcome::Continue(_) => run_spec(total, obs.drop_first()),
        }
    }
}

/// Replays a recorded run of observations through the tick machine and
/// returns the loop's outcome, or `None` when the recording ran out
/// while the loop was still running.
pub fn run_countdown(total: u64, obs: &Vec<Observation>) -> (r: Option<WaitResult>)
    ensures
        r == run_spec(total, obs@),
{
    let mut i: usize = 0;
    proof {
        assert(obs@.skip(0) =~= obs@);
    }
    while i < obs.len()
        invariant
            0 <= i <= obs.len(),
            run_spec(total, obs@) == run_spec(total, obs@.skip(i as int)),
        decreases obs.len() - i,
    {
        let o = obs[i];
        proof {
            assert(obs@.skip(i as int)[0] == obs@[i as int]);
            assert(obs@.skip(i as int).drop_first() =~= obs@.skip(i as int + 1));
        }
        match tick(total, o.cancelled, o.elapsed) {
            TickOutcome::Cancelled => {
                return Some(WaitResult::Terminated);
            },
            TickOutcome::Completed => {
                return Some(WaitResult::Finished);
            },
            TickOutcome::Continue(_) => {
                i = i + 1;
            },
        }
    }
    None
}

/// Whether the suspend command is to be issued for an outcome: only
/// full natural completion suspends the machine, cancellation never
/// does.
pub fn should_suspend(r: &WaitResult) -> (b: bool)
    ensures
        b == (*r is Finished),
{
    match r {
        WaitResult::Finished => true,
        WaitResult::Terminated => false,
    }
}

/// The cancellation flag as the loop sees it: initially unset, set by
/// the interrupt handler, never reset. The binary shares the real
/// flag atomically with the signal handler; its only transition is the
/// one modelled here.
#[derive(Clone, Copy, Debug, PartialEq, Eq, Structural)]
pub struct CancelFlag {
    pub cancelled: bool,
}

/// The flag after a cancellation request: set, whatever it held.
pub open spec fn after_cancel(f: CancelFlag) -> CancelFlag {
    CancelFlag { cancelled: true }
}

impl CancelFlag {
    /// A fresh flag, created unset before the loop starts.
    pub fn new() -> (r: CancelFlag)
        ensures
            !r.cancelled,
    {
        CancelFlag { cancelled: false }
    }

    /// Sets the flag, as delivery of an interrupt or termination
    /// signal does.
    pub fn request_cancel(&mut self)
        ensures
            *final(self) == after_cancel(*old(self)),
    {
        self.cancelled = true;
    }

    /// Reads the flag, as the loop does at the start of every tick.
    pub fn is_set(&self) -> (b: bool)
        ensures
            b == self.cancelled,
    {
        self.cancelled
    }
}

/// Setting the cancellation flag is idempotent: setting it again, any
/// number of times, leaves exactly the state that setting it once
/// produced.
pub proof fn lemma_cancel_idempotent(f: CancelFlag)
    ensures
        after_cancel(after_cancel(f)) == after_cancel(f),
        after_cancel(f).cancelled,
{
}

/// A zero requested duration finishes at once: no tick of a
/// zero-duration countdown can ever continue, and any run that starts
/// uncancelled reaches `Finished` on its first tick.
pub proof fn lemma_zero_duration_finishes(obs: Seq<Observation>)
    requires
        obs.len() > 0,
        !obs[0].cancelled,
    ensures
        run_spec(0, obs) == Some(WaitResult::Finished),
        forall|o: Observation| !(#[trigger] tick_spec(0, o) is Continue),
{
}

/// Cancellation observed on the first tick terminates the loop at
/// once, whatever the requested duration.
pub proof fn lemma_cancelled_before_first_tick(total: u64, obs: Seq<Observation>)
    requires
        obs.len() > 0,
        obs[0].cancelled,
    ensures
        run_spec(total, obs) == Some(WaitResult::Terminated),
{
}

/// Cancellation observed mid-countdown wins: if every tick before the
/// cancelled one was still counting down, the run terminates and is
/// never finished.
pub proof fn lemma_cancellation_mid_countdown(total: u64, obs: Seq<Observation>, k: int)
    requires
        0 <= k < obs.len(),
        obs[k].cancelled,
        forall|j: int|
            0 <= j < k ==> !(#[trigger] obs[j]).cancelled && obs[j].elapsed < total,
    ensures
        run_spec(total, obs) == Some(WaitResult::Terminated),
    decreases k,
{
    if k > 0 {
        let rest = obs.drop_first();
        assert forall|j: int|
            0 <= j < k - 1 implies !(#[trigger] rest[j]).cancelled && rest[j].elapsed
            < total by {
            assert(rest[j] == obs[j + 1]);
        }
        assert(rest[k - 1] == obs[k]);
        lemma_cancellation_mid_countdown(total, rest, k - 1);
    }
}

/// Natural completion: if the flag is never set up to some tick whose
/// elapsed time has reached the total, the run finishes.
pub proof fn lemma_natural_completion(total: u64, obs: Seq<Observation>, k: int)
    requires
        0 <= k < obs.len(),
        obs[k].elapsed >= total,
        forall|j: int| 0 <= j <= k ==> !(#[trigger] obs[j]).cancelled,
    ensures
        run_spec(total, obs) == Some(WaitResult::Finished),
    decreases k,
{
    if k > 0 && obs[0].elapsed < total {
        let rest = obs.drop_first();
        assert forall|j: int| 0 <= j <= k - 1 implies !(#[trigger] rest[j]).cancelled by {
            assert(rest[j] == obs[j + 1]);
        }
        assert(rest[k - 1] == obs[k]);
        lemma_natural_completion(total, rest, k - 1);
    }
}

} // verus!
