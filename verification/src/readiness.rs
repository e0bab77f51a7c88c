//! Readiness polling: a bounded number of probes at a fixed interval.
//!
//! After a spawn the supervisor probes the health endpoint until it answers
//! with 2xx. The shell sends the probes; the functions here decide, probe by
//! probe, whether to go on, and [`lemma_wait_report`] states how a whole wait ends.

use vstd::prelude::*;

verus! {

/// What to do after one readiness probe.
#[derive(Debug, Clone, Copy, PartialEq, Eq)]
pub enum WaitVerdict {
    /// The probe succeeded: the service is ready.
    Ready,
    /// The probe failed and attempts are left: pause, then probe again.
    Retry,
    /// The probe failed and it was the last one: pause, then give up.
    TimedOut,
}

/// A progress notice goes out on every fourth attempt.
pub const PROGRESS_EVERY: u32 = 4;

/// The verdict after probe number `attempt` (counted from 1) of at most `attempts`.
pub open spec fn spec_wait_verdict(attempts: u32, attempt: u32, healthy: bool) -> WaitVerdict {
    if healthy {
        WaitVerdict::Ready
    } else if attempt < attempts {
        WaitVerdict::Retry
    } else {
        WaitVerdict::TimedOut
    }
}

/// Decides what follows probe number `attempt` (counted from 1) of at most
/// `attempts`: ready on the first success, otherwise another try while
/// attempts are left.
pub fn wait_verdict(attempts: u32, attempt: u32, healthy: bool) -> (res: WaitVerdict)
    ensures
        res == spec_wait_verdict(attempts, attempt, healthy),
{
    if healthy {
        WaitVerdict::Ready
    } else if attempt < attempts {
        WaitVerdict::Retry
    } else {
        WaitVerdict::TimedOut
    }
}

/// Whether a failed probe number `attempt` is announced to observers.
pub open spec fn spec_progress_due(attempt: u32) -> bool {
    attempt % PROGRESS_EVERY == 0
}

/// Whether a failed probe number `attempt` is announced to observers: every
/// fourth is, so that observers are not flooded.
pub fn progress_due(attempt: u32) -> (res: bool)
    ensures
        res == spec_progress_due(attempt),
{
    attempt % PROGRESS_EVERY == 0
}

/// The time spent pausing after `attempts` failed probes, in milliseconds.
pub open spec fn spec_elapsed_millis(attempts: u32, interval_ms: u32) -> int {
    attempts * interval_ms
}

/// The time spent pausing after `attempts` failed probes, in whole seconds.
pub open spec fn spec_elapsed_secs(attempts: u32, interval_ms: u32) -> int {
    spec_elapsed_millis(attempts, interval_ms) / 1000
}

/// The time spent pausing after `attempts` failed probes, in milliseconds.
pub fn elapsed_millis(attempts: u32, interval_ms: u32) -> (res: u64)
    ensures
        res == spec_elapsed_millis(attempts, interval_ms),
{
    assert(attempts * interval_ms <= 0xffff_ffff * 0xffff_ffff) by (nonlinear_arith)
        requires
            0 <= attempts <= 0xffff_ffff,
            0 <= interval_ms <= 0xffff_ffff,
    ;
    let a: u64 = attempts as u64;
    let i: u64 = interval_ms as u64;
    a * i
}

/// The time spent pausing after `attempts` failed probes, in whole seconds.
pub fn elapsed_secs(attempts: u32, interval_ms: u32) -> (res: u64)
    ensures
        res == spec_elapsed_secs(attempts, interval_ms),
{
    elapsed_millis(attempts, interval_ms) / 1000
}

/// How a wait ended.
pub struct WaitReport {
    /// Whether a probe succeeded before the attempts ran out.
    pub ready: bool,
    /// How many probes were judged.
    pub probes: nat,
    /// The sum of the pauses, in milliseconds.
    pub paused_ms: nat,
}

/// Runs the wait on the probe results `outcomes`, taken in order, from probe
/// number `attempt` on, with `paused_ms` already spent: it applies
/// [`spec_wait_verdict`] to one result after the other and pauses after every
/// failed probe.
pub open spec fn spec_wait_from(
    attempts: u32,
    interval_ms: u32,
    outcomes: Seq<bool>,
    attempt: u32,
    paused_ms: nat,
) -> WaitReport
    decreases outcomes.len(),
{
    if outcomes.len() == 0 {
        WaitReport { ready: false, probes: (attempt - 1) as nat, paused_ms }
    } else {
        match spec_wait_verdict(attempts, attempt, outcomes[0]) {
            WaitVerdict::Ready => WaitReport { ready: true, probes: attempt as nat, paused_ms },
            WaitVerdict::Retry => spec_wait_from(
                attempts,
                interval_ms,
                outcomes.drop_first(),
                (attempt + 1) as u32,
                (paused_ms + interval_ms) as nat,
            ),
            WaitVerdict::TimedOut => WaitReport {
                ready: false,
                probes: attempt as nat,
                paused_ms: (paused_ms + interval_ms) as nat,
            },
        }
    }
}

/// Runs a whole wait on the probe results `outcomes`, taken in order.
pub open spec fn spec_wait(attempts: u32, interval_ms: u32, outcomes: Seq<bool>) -> WaitReport {
    spec_wait_from(attempts, interval_ms, outcomes, 1, 0)
}

/// A wait succeeds on the first probe that is healthy, having paused once for
/// every failed probe before it; and where none of the `attempts` probes is
/// healthy it ends after exactly `attempts` probes and `attempts` pauses, that
/// is after `attempts * interval_ms` milliseconds, without success.
pub proof fn lemma_wait_report(attempts: u32, interval_ms: u32, outcomes: Seq<bool>, first: int)
    requires
        attempts >= 1,
        0 <= first <= outcomes.len(),
        forall|i: int| 0 <= i < first ==> !outcomes[i],
        first < outcomes.len() ==> outcomes[first],
        first < outcomes.len() || outcomes.len() >= attempts,
    ensures
        first < attempts && first < outcomes.len() ==> spec_wait(attempts, interval_ms, outcomes)
            == (WaitReport {
            ready: true,
            probes: (first + 1) as nat,
            paused_ms: (first * interval_ms) as nat,
        }),
        !(first < attempts && first < outcomes.len()) ==> spec_wait(
            attempts,
            interval_ms,
            outcomes,
        ) == (WaitReport {
            ready: false,
            probes: attempts as nat,
            paused_ms: (attempts * interval_ms) as nat,
        }),
{
    lemma_wait_from(attempts, interval_ms, outcomes, first, 1, 0);
    assert(0 * interval_ms == 0) by (nonlinear_arith);
}

proof fn lemma_wait_from(
    attempts: u32,
    interval_ms: u32,
    outcomes: Seq<bool>,
    first: int,
    attempt: u32,
    paused_ms: nat,
)
    requires
        1 <= attempt <= attempts,
        0 <= first <= outcomes.len(),
        forall|i: int| 0 <= i < first ==> !outcomes[i],
        first < outcomes.len() ==> outcomes[first],
        first < outcomes.len() || attempt + outcomes.len() > attempts,
        paused_ms == (attempt - 1) * interval_ms,
    ensures
        attempt + first <= attempts && first < outcomes.len() ==> spec_wait_from(
            attempts,
            interval_ms,
            outcomes,
            attempt,
            paused_ms,
        ) == (WaitReport {
            ready: true,
            probes: (attempt + first) as nat,
            paused_ms: ((attempt - 1 + first) * interval_ms) as nat,
        }),
        !(attempt + first <= attempts && first < outcomes.len()) ==> spec_wait_from(
            attempts,
            interval_ms,
            outcomes,
            attempt,
            paused_ms,
        ) == (WaitReport {
            ready: false,
            probes: attempts as nat,
            paused_ms: (attempts * interval_ms) as nat,
        }),
    decreases outcomes.len(),
{
    assert((attempt - 1) * interval_ms + interval_ms == attempt * interval_ms)
        by (nonlinear_arith);
    assert((attempt - 1) * interval_ms >= 0) by (nonlinear_arith)
        requires
            attempt >= 1,
            interval_ms >= 0,
    ;
    if outcomes.len() == 0 {
    } else if outcomes[0] {
        assert(first == 0);
    } else if attempt < attempts {
        let rest = outcomes.drop_first();
        assert(first >= 1);
        assert forall|i: int| 0 <= i < first - 1 implies !rest[i] by {
            assert(rest[i] == outcomes[i + 1]);
        }
        if first < outcomes.len() {
            assert(rest[first - 1] == outcomes[first]);
        }
        lemma_wait_from(
            attempts,
            interval_ms,
            rest,
            first - 1,
            (attempt + 1) as u32,
            (paused_ms + interval_ms) as nat,
        );
    } else {
        assert(first >= 1);
    }
}

} // verus!
