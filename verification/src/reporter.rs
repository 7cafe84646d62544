//! The retry schedule of the reporting loop.
//!
//! The loop itself only samples, sends and sleeps. Everything it decides is
//! decided here: whether a delivery counts as a failure, how many failures
//! in a row have been seen, when a burst of failures calls for the long
//! cool-down, and how long to wait before the next sample.

use vstd::prelude::*;

verus! {

/// Seconds between two samples while deliveries succeed.
pub const BASE_WAIT_SECS: u64 = 5;

/// Seconds added to the wait for every failure in the current run of failures.
pub const BACKOFF_STEP_SECS: u64 = 2;

/// The longest wait the progressive backoff ever asks for, in seconds.
pub const MAX_WAIT_SECS: u64 = 15;

/// Length of the cool-down after a sustained outage, in seconds.
pub const COOLDOWN_SECS: u64 = 30;

/// Number of failures in a row that make a sustained outage.
pub const MAX_CONSECUTIVE_FAILURES: u32 = 5;

/// Time allowed for one delivery request, in seconds.
pub const REQUEST_TIMEOUT_SECS: u64 = 10;

/// Where reports are sent when no other collector endpoint is configured.
pub const DEFAULT_SERVER_URL: &'static str = "http://127.0.0.1:3000/api/metrics";

/// The collector endpoint for a configured override, if there is one.
pub open spec fn server_url(configured: Option<Seq<char>>) -> Seq<char> {
    match configured {
        Some(url) => url,
        None => DEFAULT_SERVER_URL@,
    }
}

/// Resolves the collector endpoint once, at startup: the configured override
/// where there is one, the default endpoint otherwise.
pub fn get_server_url(configured: Option<String>) -> (url: String)
    ensures
        url@ == server_url(
            match configured {
                Some(text) => Some(text@),
                None => None,
            },
        ),
{
    match configured {
        Some(text) => text,
        None => String::from_str(DEFAULT_SERVER_URL),
    }
}

/// How one delivery attempt ended.
#[derive(Clone, Copy, Debug, PartialEq, Eq, Structural)]
pub enum DeliveryOutcome {
    /// The collector answered with a success status.
    Delivered,
    /// The collector answered, but not with a success status.
    Rejected,
    /// No answer arrived: connection refused, timeout, name not resolved.
    TransportError,
}

/// Whether an HTTP status code is in the success class, 200 to 299.
pub open spec fn is_success_status(status: u16) -> bool {
    200 <= status < 300
}

/// The outcome of an attempt that produced `response`: the status code of the
/// answer, or `None` when the transport failed before any answer arrived.
pub open spec fn outcome_of(response: Option<u16>) -> DeliveryOutcome {
    match response {
        None => DeliveryOutcome::TransportError,
        Some(status) => if is_success_status(status) {
            DeliveryOutcome::Delivered
        } else {
            DeliveryOutcome::Rejected
        },
    }
}

/// The wait after an iteration that leaves `failures` failures on the
/// counter: five seconds plus two per failure, never more than fifteen.
pub open spec fn backoff_wait(failures: nat) -> nat {
    if BASE_WAIT_SECS + BACKOFF_STEP_SECS * failures <= MAX_WAIT_SECS {
        (BASE_WAIT_SECS + BACKOFF_STEP_SECS * failures) as nat
    } else {
        MAX_WAIT_SECS as nat
    }
}

/// Whether an attempt with this outcome, made with `failures` failures
/// already on the counter, completes a sustained outage.
pub open spec fn outage_reached(failures: nat, outcome: DeliveryOutcome) -> bool {
    outcome != DeliveryOutcome::Delivered && failures + 1 >= MAX_CONSECUTIVE_FAILURES
}

/// The counter after an attempt: zero after a delivery and after an outage
/// (the counter does not outlive the cool-down), one more otherwise.
pub open spec fn failures_after(failures: nat, outcome: DeliveryOutcome) -> nat {
    if outcome == DeliveryOutcome::Delivered || outage_reached(failures, outcome) {
        0
    } else {
        failures + 1
    }
}

/// The counter after a whole run of attempts, oldest first.
pub open spec fn failures_after_all(failures: nat, outcomes: Seq<DeliveryOutcome>) -> nat
    decreases outcomes.len(),
{
    if outcomes.len() == 0 {
        failures
    } else {
        failures_after(failures_after_all(failures, outcomes.drop_last()), outcomes.last())
    }
}

impl DeliveryOutcome {
    /// Classifies a delivery attempt from what the transport returned.
    pub fn from_response(response: Option<u16>) -> (outcome: DeliveryOutcome)
        ensures
            outcome == outcome_of(response),
    {
        match response {
            None => DeliveryOutcome::TransportError,
            Some(status) => {
                if 200 <= status && status < 300 {
                    DeliveryOutcome::Delivered
                } else {
                    DeliveryOutcome::Rejected
                }
            },
        }
    }

    /// Whether the attempt failed.
    pub fn is_failure(&self) -> (failed: bool)
        ensures
            failed == (*self != DeliveryOutcome::Delivered),
    {
        match self {
            DeliveryOutcome::Delivered => false,
            DeliveryOutcome::Rejected => true,
            DeliveryOutcome::TransportError => true,
        }
    }
}

/// Computes the wait that follows an iteration ending with `failures`
/// failures on the counter.
pub fn backoff_wait_secs(failures: u32) -> (wait: u64)
    ensures
        wait == backoff_wait(failures as nat),
        BASE_WAIT_SECS <= wait <= MAX_WAIT_SECS,
{
    if failures >= MAX_CONSECUTIVE_FAILURES {
        MAX_WAIT_SECS
    } else {
        let extra: u64 = BACKOFF_STEP_SECS * (failures as u64);
        BASE_WAIT_SECS + extra
    }
}

/// What the loop has to do after one delivery attempt.
#[derive(Clone, Copy, Debug, PartialEq, Eq, Structural)]
pub struct Schedule {
    /// Seconds of cool-down to sit out first; zero when no outage was reached.
    pub cooldown_secs: u64,
    /// Seconds to wait, after any cool-down, before the next sample.
    pub wait_secs: u64,
}

/// What a reporting loop carries from one iteration to the next.
#[derive(Clone, Copy, Debug, PartialEq, Eq, Structural)]
pub struct ReporterState {
    consecutive_failures: u32,
}

impl ReporterState {
    /// The number of failures in a row that the state stands for.
    pub closed spec fn failures(&self) -> nat {
        self.consecutive_failures as nat
    }

    /// A state with no failure on the counter, as at process start.
    pub fn new() -> (state: ReporterState)
        ensures
            state.failures() == 0,
    {
        ReporterState { consecutive_failures: 0 }
    }

    /// The number of deliveries that have failed in a row.
    pub fn consecutive_failures(&self) -> (failures: u32)
        ensures
            failures == self.failures(),
    {
        self.consecutive_failures
    }

    /// Takes in the outcome of one delivery attempt: moves the counter and
    /// says how long the loop has to sleep before it samples again.
    pub fn record(&mut self, outcome: DeliveryOutcome) -> (schedule: Schedule)
        ensures
            final(self).failures() == failures_after(old(self).failures(), outcome),
            schedule.cooldown_secs == if outage_reached(old(self).failures(), outcome) {
                COOLDOWN_SECS
            } else {
                0
            },
            schedule.wait_secs == backoff_wait(final(self).failures()),
            final(self).failures() < MAX_CONSECUTIVE_FAILURES,
    {
        let mut cooldown_secs: u64 = 0;
        if outcome.is_failure() {
            if self.consecutive_failures >= MAX_CONSECUTIVE_FAILURES - 1 {
                cooldown_secs = COOLDOWN_SECS;
                self.consecutive_failures = 0;
            } else {
                self.consecutive_failures = self.consecutive_failures + 1;
            }
        } else {
            self.consecutive_failures = 0;
        }
        Schedule { cooldown_secs, wait_secs: backoff_wait_secs(self.consecutive_failures) }
    }
}

/// After a delivery the counter is back at zero and the loop waits the base
/// interval, however many failures came before.
pub proof fn law_delivery_restores_base_wait(failures: nat)
    ensures
        failures_after(failures, DeliveryOutcome::Delivered) == 0,
        !outage_reached(failures, DeliveryOutcome::Delivered),
        backoff_wait(failures_after(failures, DeliveryOutcome::Delivered)) == BASE_WAIT_SECS,
{
}

/// The wait grows by two seconds with every failure on the counter, from
/// five seconds up to fifteen, and stays at fifteen from the fifth on.
pub proof fn law_backoff_is_linear_and_capped(failures: nat)
    ensures
        failures <= 5 ==> backoff_wait(failures) == 5 + 2 * failures,
        failures >= 5 ==> backoff_wait(failures) == 15,
        BASE_WAIT_SECS <= backoff_wait(failures) <= MAX_WAIT_SECS,
{
}

/// However a loop fares, the counter that it carries into the next
/// iteration is below the outage threshold.
pub proof fn law_counter_stays_below_outage(failures: nat, outcomes: Seq<DeliveryOutcome>)
    requires
        failures < MAX_CONSECUTIVE_FAILURES,
    ensures
        failures_after_all(failures, outcomes) < MAX_CONSECUTIVE_FAILURES,
    decreases outcomes.len(),
{
    if outcomes.len() > 0 {
        law_counter_stays_below_outage(failures, outcomes.drop_last());
    }
}

/// Failures in a row, counted from zero, mount up to the threshold and no
/// further: the attempt that completes the threshold reaches the outage,
/// and the counter that the next iteration starts from is zero again, so
/// that the wait after the cool-down is the base interval.
pub proof fn law_outage_resets_counter(outcomes: Seq<DeliveryOutcome>)
    requires
        outcomes.len() == MAX_CONSECUTIVE_FAILURES,
        forall|i: int| 0 <= i < outcomes.len() ==> outcomes[i] != DeliveryOutcome::Delivered,
    ensures
        failures_after_all(0, outcomes.drop_last()) == MAX_CONSECUTIVE_FAILURES - 1,
        outage_reached(failures_after_all(0, outcomes.drop_last()), outcomes.last()),
        failures_after_all(0, outcomes) == 0,
        backoff_wait(failures_after_all(0, outcomes)) == BASE_WAIT_SECS,
{
    lemma_failures_mount(outcomes.drop_last());
}

/// Fewer failures in a row than the threshold, counted from zero, are all on
/// the counter.
proof fn lemma_failures_mount(outcomes: Seq<DeliveryOutcome>)
    requires
        outcomes.len() < MAX_CONSECUTIVE_FAILURES,
        forall|i: int| 0 <= i < outcomes.len() ==> outcomes[i] != DeliveryOutcome::Delivered,
    ensures
        failures_after_all(0, outcomes) == outcomes.len(),
    decreases outcomes.len(),
{
    if outcomes.len() > 0 {
        lemma_failures_mount(outcomes.drop_last());
    }
}

} // verus!
