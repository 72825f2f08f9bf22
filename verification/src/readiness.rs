//! Readiness probing of the backend's health endpoint.
//!
//! After a successful launch the supervisor probes a fixed local health
//! endpoint until the backend answers with an HTTP success status, up to a
//! fixed number of attempts with a fixed delay between consecutive attempts.
//! The host performs each HTTP request; the classification of its outcome and
//! every decision of the loop are made here.

use vstd::prelude::*;

verus! {

/// Maximum number of health-probe attempts in one startup sequence.
pub const MAX_ATTEMPTS: u32 = 30;

/// Fixed delay between consecutive probe attempts, in milliseconds.
pub const RETRY_DELAY_MS: u64 = 500;

/// The fixed local health endpoint the readiness loop probes.
pub fn readiness_url() -> (r: &'static str)
    ensures
        r@ == "http://localhost:8000/health"@,
{
    "http://localhost:8000/health"
}

/// Outcome of one health probe: the backend answered with a success status,
/// answered with some other status, or could not be reached at all.
#[derive(Clone, PartialEq, Eq, Debug)]
pub enum ReadinessResult {
    Ready,
    NotReady { status: u16 },
    TransportError { reason: String },
}

/// An HTTP status counts as success exactly when it is in the 2xx range.
pub open spec fn spec_is_success(status: u16) -> bool {
    200 <= status <= 299
}

/// Classifies the outcome of one probe request: a 2xx status means the
/// backend is ready, any other status or a transport failure means it is not.
pub fn classify_probe(outcome: Result<u16, String>) -> (r: ReadinessResult)
    ensures
        outcome matches Ok(s) ==> r == (if spec_is_success(s) {
            ReadinessResult::Ready
        } else {
            ReadinessResult::NotReady { status: s }
        }),
        outcome matches Err(e) ==> r == (ReadinessResult::TransportError { reason: e }),
{
    match outcome {
        Ok(s) => {
            if 200 <= s && s <= 299 {
                ReadinessResult::Ready
            } else {
                ReadinessResult::NotReady { status: s }
            }
        },
        Err(e) => ReadinessResult::TransportError { reason: e },
    }
}

/// Decision of the readiness loop after one classified probe.
#[derive(Clone, Copy, PartialEq, Eq, Structural, Debug)]
pub enum LoopDecision {
    ReportReady,
    ReportTimeout,
    Retry,
}

/// Decision taken after attempt number `attempts_made` (counting the attempt
/// just classified) came back with `outcome`: success ends the loop, a failed
/// last attempt reports a timeout, and any other failure is retried.
pub open spec fn spec_loop_decision(attempts_made: u32, outcome: ReadinessResult) -> LoopDecision {
    if outcome is Ready {
        LoopDecision::ReportReady
    } else if attempts_made >= MAX_ATTEMPTS {
        LoopDecision::ReportTimeout
    } else {
        LoopDecision::Retry
    }
}

/// Decides how the readiness loop goes on after one probe attempt.
pub fn loop_decision(attempts_made: u32, outcome: &ReadinessResult) -> (d: LoopDecision)
    requires
        1 <= attempts_made <= MAX_ATTEMPTS,
    ensures
        d == spec_loop_decision(attempts_made, *outcome),
{
    match outcome {
        ReadinessResult::Ready => LoopDecision::ReportReady,
        _ => {
            if attempts_made >= MAX_ATTEMPTS {
                LoopDecision::ReportTimeout
            } else {
                LoopDecision::Retry
            }
        },
    }
}

/// What one run of the readiness loop observed: whether the backend became
/// ready, how many probe attempts were performed, and how many inter-attempt
/// delays separated them.
#[derive(Clone, Copy, PartialEq, Eq, Structural, Debug)]
pub struct ReadinessReport {
    pub ready: bool,
    pub attempts: u32,
    pub delays: u32,
}

/// No probe among the first `n` came back ready.
pub open spec fn no_ready_before(outcomes: Seq<ReadinessResult>, n: int) -> bool {
    forall|j: int| 0 <= j < n ==> !(outcomes[j] is Ready)
}

/// Some probe within the attempt budget comes back ready.
pub open spec fn any_ready(outcomes: Seq<ReadinessResult>) -> bool {
    exists|i: int| 0 <= i < MAX_ATTEMPTS && outcomes[i] is Ready
}

/// Complete description of the readiness loop's result on a given endpoint
/// behaviour: on success the attempt count points at the first ready probe;
/// on timeout every probe in the budget failed and all attempts were used.
/// Attempts are separated by delays, so there is one delay fewer.
pub open spec fn report_matches(outcomes: Seq<ReadinessResult>, r: ReadinessReport) -> bool {
    &&& 1 <= r.attempts <= MAX_ATTEMPTS
    &&& r.ready ==> outcomes[r.attempts - 1] is Ready && no_ready_before(outcomes, r.attempts - 1)
    &&& !r.ready ==> r.attempts == MAX_ATTEMPTS && no_ready_before(outcomes, MAX_ATTEMPTS as int)
    &&& r.delays == r.attempts - 1
}

/// Runs the readiness loop against the given probe outcomes, one per attempt
/// in order. The loop performs at most `MAX_ATTEMPTS` attempts, stops at the
/// first ready probe, and otherwise exhausts the budget and reports a timeout.
pub fn run_readiness(outcomes: &Vec<ReadinessResult>) -> (r: ReadinessReport)
    requires
        outcomes@.len() >= MAX_ATTEMPTS,
    ensures
        report_matches(outcomes@, r),
        r.ready == any_ready(outcomes@),
{
    let mut i: u32 = 0;
    let mut delays: u32 = 0;
    while i < MAX_ATTEMPTS
        invariant
            i < MAX_ATTEMPTS,
            outcomes@.len() >= MAX_ATTEMPTS,
            no_ready_before(outcomes@, i as int),
            delays == i,
        decreases MAX_ATTEMPTS - i,
    {
        let outcome = &outcomes[i as usize];
        let d = loop_decision(i + 1, outcome);
        match d {
            LoopDecision::ReportReady => {
                let r = ReadinessReport { ready: true, attempts: i + 1, delays: i };
                assert(any_ready(outcomes@));
                return r;
            },
            LoopDecision::ReportTimeout => {
                assert(no_ready_before(outcomes@, MAX_ATTEMPTS as int));
                return ReadinessReport {
                    ready: false,
                    attempts: MAX_ATTEMPTS,
                    delays: MAX_ATTEMPTS - 1,
                };
            },
            LoopDecision::Retry => {
                delays = delays + 1;
                i = i + 1;
            },
        }
    }
    ReadinessReport { ready: false, attempts: MAX_ATTEMPTS, delays: MAX_ATTEMPTS - 1 }
}

/// The loop's contract pins its result down: two reports that both describe
/// one endpoint behaviour are the same report.
pub proof fn law_report_unique(
    outcomes: Seq<ReadinessResult>,
    r1: ReadinessReport,
    r2: ReadinessReport,
)
    requires
        report_matches(outcomes, r1),
        report_matches(outcomes, r2),
    ensures
        r1 == r2,
{
    if r1.ready && r2.ready && r1.attempts != r2.attempts {
        if r1.attempts < r2.attempts {
            assert(!(outcomes[r1.attempts - 1] is Ready));
        } else {
            assert(!(outcomes[r2.attempts - 1] is Ready));
        }
    }
    if r1.ready != r2.ready {
        if r1.ready {
            assert(!(outcomes[r1.attempts - 1] is Ready));
        } else {
            assert(!(outcomes[r2.attempts - 1] is Ready));
        }
    }
}

/// If the endpoint first answers ready on attempt `k` within the budget, the
/// readiness loop performs exactly `k` probe attempts, separated by `k - 1`
/// delays, and reports success.
pub proof fn law_success_on_attempt_k(outcomes: Seq<ReadinessResult>, r: ReadinessReport, k: u32)
    requires
        report_matches(outcomes, r),
        1 <= k <= MAX_ATTEMPTS,
        k <= outcomes.len(),
        outcomes[k - 1] is Ready,
        no_ready_before(outcomes, k - 1),
    ensures
        r.ready,
        r.attempts == k,
        r.delays == k - 1,
{
    let witness = ReadinessReport { ready: true, attempts: k, delays: (k - 1) as u32 };
    law_report_unique(outcomes, r, witness);
}

/// If the endpoint never answers ready, the readiness loop performs exactly
/// the full budget of attempts, separated by the fixed delay, and reports a
/// timeout.
pub proof fn law_timeout_after_full_budget(outcomes: Seq<ReadinessResult>, r: ReadinessReport)
    requires
        report_matches(outcomes, r),
        no_ready_before(outcomes, MAX_ATTEMPTS as int),
    ensures
        !r.ready,
        r.attempts == MAX_ATTEMPTS,
        r.delays == MAX_ATTEMPTS - 1,
{
    if r.ready {
        assert(!(outcomes[r.attempts - 1] is Ready));
    }
}

} // verus!
