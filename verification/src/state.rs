//! The run state: a single consecutive-failure counter, incremented by a
//! failed probe and reset by a successful one, together with the laws that
//! tie the counter to the history of probe outcomes.

use vstd::prelude::*;

verus! {

/// The mutable state threaded through the health-check loop.
#[derive(Clone, Copy, Debug, PartialEq, Eq, Structural)]
pub struct RunState {
    pub consecutive_failures: u64,
}

/// The counter after one probe: incremented on a failure, reset on a success.
pub open spec fn next_failures(previous: nat, failed: bool) -> nat {
    if failed {
        previous + 1
    } else {
        0
    }
}

/// The counter after a whole history of probes, each recorded as `true`
/// for a failure, starting from zero.
pub open spec fn failures_after(outcomes: Seq<bool>) -> nat
    decreases outcomes.len(),
{
    if outcomes.len() == 0 {
        0
    } else {
        next_failures(failures_after(outcomes.drop_last()), outcomes.last())
    }
}

/// The length of the maximal trailing run of failures in a history of
/// probes: zero whenever the last probe succeeded.
pub open spec fn trailing_failure_run(outcomes: Seq<bool>) -> nat
    decreases outcomes.len(),
{
    if outcomes.len() == 0 || !outcomes.last() {
        0
    } else {
        trailing_failure_run(outcomes.drop_last()) + 1
    }
}

impl RunState {
    /// A fresh run starts with no recorded failures.
    pub fn new() -> (state: RunState)
        ensures
            state.consecutive_failures == 0,
    {
        RunState { consecutive_failures: 0 }
    }

    /// Record one probe: increment the counter on a failure, reset it on
    /// a success.
    pub fn record(&mut self, failed: bool)
        requires
            old(self).consecutive_failures < u64::MAX,
        ensures
            final(self).consecutive_failures == next_failures(
                old(self).consecutive_failures as nat,
                failed,
            ),
    {
        if failed {
            self.consecutive_failures = self.consecutive_failures + 1;
        } else {
            self.consecutive_failures = 0;
        }
    }
}

/// After any history of probe outcomes, the consecutive-failure counter
/// equals the length of the maximal trailing run of failures: the counter
/// remembers exactly the unbroken run of failures ending at the last probe.
pub proof fn lemma_counter_is_trailing_run(outcomes: Seq<bool>)
    ensures
        failures_after(outcomes) == trailing_failure_run(outcomes),
    decreases outcomes.len(),
{
    if outcomes.len() > 0 {
        lemma_counter_is_trailing_run(outcomes.drop_last());
    }
}

/// A target that succeeds on every probe keeps the counter pinned at zero
/// and the label at UP after every iteration of the history.
pub proof fn lemma_all_success_stays_up(outcomes: Seq<bool>, threshold: u64)
    requires
        forall|i: int| 0 <= i < outcomes.len() ==> !outcomes[i],
        threshold >= 1,
    ensures
        forall|k: int|
            0 <= k <= outcomes.len() ==> failures_after(#[trigger] outcomes.take(k)) == 0,
        forall|k: int|
            0 <= k <= outcomes.len() ==> crate::status::label_spec(
                failures_after(#[trigger] outcomes.take(k)),
                threshold,
            ) == crate::status::Label::Up,
{
    assert forall|k: int| 0 <= k <= outcomes.len() implies failures_after(
        #[trigger] outcomes.take(k),
    ) == 0 by {
        lemma_all_success_prefix(outcomes.take(k));
    }
}

/// A history made only of successes leaves the counter at zero.
proof fn lemma_all_success_prefix(outcomes: Seq<bool>)
    requires
        forall|i: int| 0 <= i < outcomes.len() ==> !outcomes[i],
    ensures
        failures_after(outcomes) == 0,
    decreases outcomes.len(),
{
    if outcomes.len() > 0 {
        lemma_all_success_prefix(outcomes.drop_last());
    }
}

} // verus!
