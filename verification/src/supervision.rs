//! Decisions of the post-flash supervision loop.
//!
//! After a download the loop multiplexes RTT draining, halt detection and
//! user interruption.  The loop shell (sleeping, signal registration,
//! printing) lives outside the verified core; every decision it takes --
//! how long to sleep, when to stop, what to do on the way out -- is
//! computed here.

use vstd::prelude::*;

verus! {

/// Sleep before the next poll when the last RTT poll carried data.
pub const BUSY_POLL_INTERVAL_MS: u64 = 1;

/// Sleep before the next poll when the last RTT poll was empty.
pub const IDLE_POLL_INTERVAL_MS: u64 = 100;

/// Timeout handed to the halt request after a user interrupt.
pub const EXIT_HALT_TIMEOUT_MS: u64 = 1000;

/// Execution state of the target core, as the status poll reports it.
#[derive(Clone, Copy, PartialEq, Eq, Structural, Debug)]
pub enum CoreStatus {
    /// The core is executing.
    Running,
    /// The core is asleep waiting for an interrupt.
    Sleeping,
    /// The core has halted (breakpoint, fault, vector catch, ...).
    Halted,
    /// The core is locked up.
    LockedUp,
}

impl CoreStatus {
    /// Whether this status means the core stopped executing for debug.
    pub open spec fn spec_is_halted(self) -> bool {
        self is Halted
    }

    /// Whether this status means the core stopped executing for debug.
    pub fn is_halted(&self) -> (r: bool)
        ensures
            r == self.spec_is_halted(),
    {
        match self {
            CoreStatus::Halted => true,
            _ => false,
        }
    }
}

/// The adaptive poll interval: drain fast while the target is chatty,
/// gently otherwise so the probe link is not saturated.
pub open spec fn spec_poll_interval_ms(had_rtt_data: bool) -> u64 {
    if had_rtt_data {
        1
    } else {
        100
    }
}

/// Milliseconds to sleep before the next poll, given whether the previous
/// RTT poll produced at least one non-empty payload.
pub fn poll_interval_ms(had_rtt_data: bool) -> (ms: u64)
    ensures
        ms == spec_poll_interval_ms(had_rtt_data),
{
    if had_rtt_data {
        BUSY_POLL_INTERVAL_MS
    } else {
        IDLE_POLL_INTERVAL_MS
    }
}

/// Whether an RTT poll produced any non-empty payload.
pub open spec fn spec_any_payload(payloads: Seq<Seq<u8>>) -> bool {
    exists|i: int| 0 <= i < payloads.len() && #[trigger] payloads[i].len() > 0
}

/// Whether any channel's payload from one RTT poll is non-empty.
pub fn rtt_had_data(payloads: &Vec<Vec<u8>>) -> (r: bool)
    ensures
        r == spec_any_payload(payloads@.map_values(|p: Vec<u8>| p@)),
{
    let ghost views = payloads@.map_values(|p: Vec<u8>| p@);
    let mut i: usize = 0;
    while i < payloads.len()
        invariant
            i <= payloads@.len(),
            views == payloads@.map_values(|p: Vec<u8>| p@),
            forall|j: int| 0 <= j < i ==> #[trigger] views[j].len() == 0,
        decreases payloads@.len() - i,
    {
        if payloads[i].len() > 0 {
            proof {
                assert(views[i as int].len() > 0);
            }
            return true;
        }
        i = i + 1;
    }
    false
}

/// What the supervision loop does next after one round of polling.
#[derive(Clone, Copy, PartialEq, Eq, Structural, Debug)]
pub enum Directive {
    /// Keep supervising; sleep this long before the next poll.
    Continue { sleep_ms: u64 },
    /// The target halted on its own: render a stack trace and leave the
    /// loop reporting "halted by target".
    TargetHalted,
    /// The user interrupted: halt the core with the given timeout, render
    /// a stack trace if asked to, then restore the default interrupt
    /// behaviour and leave the loop reporting "halted by user".
    UserExit { halt_timeout_ms: u64, print_stacktrace: bool },
}

/// The decision one poll iteration comes to.  The exit flag is observed
/// first (it is raised asynchronously by the interrupt handler), then the
/// core status; only when neither ends the loop does the adaptive pacing
/// apply.
pub open spec fn spec_supervision_step(
    exit_requested: bool,
    status: CoreStatus,
    had_rtt_data: bool,
    always_print_stacktrace: bool,
) -> Directive {
    if exit_requested {
        Directive::UserExit { halt_timeout_ms: 1000, print_stacktrace: always_print_stacktrace }
    } else if status.spec_is_halted() {
        Directive::TargetHalted
    } else {
        Directive::Continue { sleep_ms: spec_poll_interval_ms(had_rtt_data) }
    }
}

/// Decides what one poll iteration of the supervision loop does next.
pub fn supervision_step(
    exit_requested: bool,
    status: CoreStatus,
    had_rtt_data: bool,
    always_print_stacktrace: bool,
) -> (d: Directive)
    ensures
        d == spec_supervision_step(exit_requested, status, had_rtt_data, always_print_stacktrace),
{
    if exit_requested {
        Directive::UserExit {
            halt_timeout_ms: EXIT_HALT_TIMEOUT_MS,
            print_stacktrace: always_print_stacktrace,
        }
    } else if status.is_halted() {
        Directive::TargetHalted
    } else {
        Directive::Continue { sleep_ms: poll_interval_ms(had_rtt_data) }
    }
}

/// What one poll iteration of the supervision loop observed.
#[derive(Clone, Copy, PartialEq, Eq, Structural, Debug)]
pub struct PollObservation {
    /// The exit flag, as read at the top of the iteration.
    pub exit_requested: bool,
    /// The core status this iteration polled.
    pub status: CoreStatus,
    /// Whether the RTT poll of this iteration carried data.
    pub had_rtt_data: bool,
}

/// How a run of the supervision loop ended.
#[derive(Clone, Copy, PartialEq, Eq, Structural, Debug)]
pub struct SupervisionOutcome {
    /// True when the user ended the run, false when the target halted.
    pub user_halted: bool,
    /// Number of poll iterations the loop went through, the deciding one
    /// included.
    pub iterations: usize,
}

/// The outcome the loop reaches on a given sequence of observations:
/// nothing if every observation lets the loop continue, else whether the
/// user ended the run and after how many iterations.
pub open spec fn spec_supervision_outcome(observations: Seq<PollObservation>) -> Option<
    (bool, int),
>
    decreases observations.len(),
{
    if observations.len() == 0 {
        None
    } else {
        let first = observations[0];
        if first.exit_requested {
            Some((true, 1))
        } else if first.status.spec_is_halted() {
            Some((false, 1))
        } else {
            match spec_supervision_outcome(observations.skip(1)) {
                None => None,
                Some(outcome) => Some((outcome.0, outcome.1 + 1)),
            }
        }
    }
}

/// Runs the supervision decisions over a recorded sequence of
/// observations: the loop ends at the first iteration whose exit flag is
/// raised (user halt) or whose status poll reports a halted core (target
/// halt), whichever the step decision reaches first.
pub fn run_supervision(observations: &Vec<PollObservation>) -> (r: Option<SupervisionOutcome>)
    ensures
        match r {
            None => spec_supervision_outcome(observations@) is None,
            Some(outcome) => spec_supervision_outcome(observations@) == Some(
                (outcome.user_halted, outcome.iterations as int),
            ),
        },
{
    proof {
        assert(observations@.skip(0) =~= observations@);
    }
    let mut i: usize = 0;
    while i < observations.len()
        invariant
            i <= observations@.len(),
            spec_supervision_outcome(observations@) == (match spec_supervision_outcome(
                observations@.skip(i as int),
            ) {
                None => None::<(bool, int)>,
                Some(outcome) => Some((outcome.0, outcome.1 + i)),
            }),
        decreases observations@.len() - i,
    {
        let ghost pending = observations@.skip(i as int);
        let observation = observations[i];
        proof {
            assert(pending[0] == observation);
            assert(pending.skip(1) =~= observations@.skip(i as int + 1));
        }
        let directive = supervision_step(
            observation.exit_requested,
            observation.status,
            observation.had_rtt_data,
            false,
        );
        match directive {
            Directive::UserExit { .. } => {
                return Some(SupervisionOutcome { user_halted: true, iterations: i + 1 });
            },
            Directive::TargetHalted => {
                return Some(SupervisionOutcome { user_halted: false, iterations: i + 1 });
            },
            Directive::Continue { .. } => {},
        }
        i = i + 1;
    }
    None
}

/// The tidy-up the loop shell performs once the loop has ended.
#[derive(Clone, Copy, PartialEq, Eq, Structural, Debug)]
pub struct FinishPlan {
    /// Halt the core (only after a user interrupt; a target halt needs
    /// none).
    pub halt_core: bool,
    /// Timeout for that halt request, in milliseconds.
    pub halt_timeout_ms: u64,
    /// Render a stack trace after halting.
    pub print_stacktrace: bool,
    /// Unregister the interrupt hook and restore the default behaviour,
    /// so a second interrupt terminates the process.
    pub restore_default_interrupt: bool,
}

/// What to do after the loop: after a user interrupt the core is halted
/// (with a one-second timeout) and the stack trace is rendered only when
/// always-print is configured; either way the interrupt hook is restored
/// to the default so the next interrupt terminates the process.
pub fn finish_plan(user_halted: bool, always_print_stacktrace: bool) -> (p: FinishPlan)
    ensures
        p.halt_core == user_halted,
        p.halt_timeout_ms == 1000,
        p.print_stacktrace == (user_halted && always_print_stacktrace),
        p.restore_default_interrupt,
{
    FinishPlan {
        halt_core: user_halted,
        halt_timeout_ms: EXIT_HALT_TIMEOUT_MS,
        print_stacktrace: user_halted && always_print_stacktrace,
        restore_default_interrupt: true,
    }
}

} // verus!
