use vstd::prelude::*;

verus! {

/// Retry backoff for the poll loop: the wait interval grows on consecutive
/// fetch failures, doubling up to a cap, and one success resets it.
#[derive(Clone, Copy, PartialEq, Eq, Structural, Debug)]
pub struct Backoff {
    /// Interval used after a success, seconds.
    pub base: u64,
    /// Largest interval ever waited, seconds.
    pub cap: u64,
    /// Interval to wait before the next cycle, seconds.
    pub current: u64,
}

impl Backoff {
    pub open spec fn wf(self) -> bool {
        1 <= self.base <= self.cap && self.base <= self.current <= self.cap
    }

    /// The backoff after one more consecutive failure: doubled, capped.
    pub open spec fn after_failure(self) -> Backoff {
        Backoff {
            current: if 2 * self.current <= self.cap {
                (2 * self.current) as u64
            } else {
                self.cap
            },
            ..self
        }
    }

    /// The backoff after a success: back to the base interval.
    pub open spec fn after_success(self) -> Backoff {
        Backoff { current: self.base, ..self }
    }

    pub fn new(base: u64, cap: u64) -> (r: Backoff)
        requires
            1 <= base <= cap,
        ensures
            r == (Backoff { base, cap, current: base }),
            r.wf(),
    {
        Backoff { base, cap, current: base }
    }

    /// Grows the wait interval after a failed fetch.
    pub fn record_failure(&mut self)
        requires
            old(self).wf(),
        ensures
            *final (self) == old(self).after_failure(),
            final (self).wf(),
    {
        proof {
            vstd::arithmetic::div_mod::lemma_fundamental_div_mod(self.cap as int, 2);
        }
        if self.current > self.cap / 2 {
            self.current = self.cap;
        } else {
            self.current = self.current * 2;
        }
    }

    /// Resets the wait interval after a successful fetch.
    pub fn record_success(&mut self)
        requires
            old(self).wf(),
        ensures
            *final (self) == old(self).after_success(),
            final (self).wf(),
    {
        self.current = self.base;
    }
}

/// Consecutive failures never shorten the wait and never push it past the
/// cap, and a single success resets it to the base interval.
pub proof fn law_backoff_monotone(b: Backoff)
    requires
        b.wf(),
    ensures
        b.after_failure().current >= b.current,
        b.after_failure().current <= b.cap,
        b.after_failure().wf(),
        b.after_success().current == b.base,
        b.after_success().wf(),
{
}

/// The supervisor's position in one poll cycle.
#[derive(Clone, Copy, PartialEq, Eq, Structural, Debug)]
pub enum Phase {
    Idle,
    Polling,
    Evaluating,
    Executing,
}

/// What the loop reports back to the supervisor.
#[derive(Clone, Copy, PartialEq, Eq, Structural, Debug)]
pub enum CycleEvent {
    /// The wait elapsed; a new cycle may start.
    Tick,
    /// Fetching or decoding failed on either venue.
    PollFailed,
    /// Both venues produced comparable samples.
    PollSucceeded,
    /// The evaluator declined to act.
    NoOpportunity,
    /// The evaluator emitted an opportunity and the engine accepted it.
    OpportunityReady,
    /// The execution settled (or was recorded as failed or timed out).
    ExecutionFinished,
}

/// What the loop must do next.
#[derive(Clone, Copy, PartialEq, Eq, Structural, Debug)]
pub enum Action {
    /// Fetch both venues' account state.
    StartPoll,
    /// Run the evaluator on the fresh pair of samples.
    RunEvaluation,
    /// Drive the execution engine on the emitted opportunity.
    StartExecution,
    /// Sleep this many seconds, then send `Tick`.
    Wait(u64),
    /// The event does not belong to the current phase; do nothing.
    Ignore,
}

/// The supervisor: the only component whose state outlives a cycle. It owns
/// the phase of the loop and the retry backoff.
#[derive(Clone, Copy, PartialEq, Eq, Structural, Debug)]
pub struct Supervisor {
    pub phase: Phase,
    pub backoff: Backoff,
}

/// One supervisor transition: next state and the action the loop performs.
/// Any cycle error returns the loop to `Idle` with a grown backoff; nothing
/// escapes the cycle boundary.
pub open spec fn step_spec(s: Supervisor, e: CycleEvent) -> (Supervisor, Action) {
    match (s.phase, e) {
        (Phase::Idle, CycleEvent::Tick) => (
            Supervisor { phase: Phase::Polling, ..s },
            Action::StartPoll,
        ),
        (Phase::Polling, CycleEvent::PollFailed) => {
            let b = s.backoff.after_failure();
            (Supervisor { phase: Phase::Idle, backoff: b }, Action::Wait(b.current))
        },
        (Phase::Polling, CycleEvent::PollSucceeded) => (
            Supervisor { phase: Phase::Evaluating, backoff: s.backoff.after_success() },
            Action::RunEvaluation,
        ),
        (Phase::Evaluating, CycleEvent::NoOpportunity) => (
            Supervisor { phase: Phase::Idle, ..s },
            Action::Wait(s.backoff.current),
        ),
        (Phase::Evaluating, CycleEvent::OpportunityReady) => (
            Supervisor { phase: Phase::Executing, ..s },
            Action::StartExecution,
        ),
        (Phase::Executing, CycleEvent::ExecutionFinished) => (
            Supervisor { phase: Phase::Idle, ..s },
            Action::Wait(s.backoff.current),
        ),
        _ => (s, Action::Ignore),
    }
}

impl Supervisor {
    pub open spec fn wf(self) -> bool {
        self.backoff.wf()
    }

    pub fn new(base_interval: u64, cap_interval: u64) -> (r: Supervisor)
        requires
            1 <= base_interval <= cap_interval,
        ensures
            r.phase is Idle,
            r.backoff == (Backoff {
                base: base_interval,
                cap: cap_interval,
                current: base_interval,
            }),
            r.wf(),
    {
        Supervisor { phase: Phase::Idle, backoff: Backoff::new(base_interval, cap_interval) }
    }

    /// Feeds one event to the supervisor and returns the loop's next action.
    pub fn step(&mut self, e: CycleEvent) -> (a: Action)
        requires
            old(self).wf(),
        ensures
            (*final (self), a) == step_spec(*old(self), e),
            final (self).wf(),
    {
        match (self.phase, e) {
            (Phase::Idle, CycleEvent::Tick) => {
                self.phase = Phase::Polling;
                Action::StartPoll
            },
            (Phase::Polling, CycleEvent::PollFailed) => {
                self.phase = Phase::Idle;
                self.backoff.record_failure();
                Action::Wait(self.backoff.current)
            },
            (Phase::Polling, CycleEvent::PollSucceeded) => {
                self.phase = Phase::Evaluating;
                self.backoff.record_success();
                Action::RunEvaluation
            },
            (Phase::Evaluating, CycleEvent::NoOpportunity) => {
                self.phase = Phase::Idle;
                Action::Wait(self.backoff.current)
            },
            (Phase::Evaluating, CycleEvent::OpportunityReady) => {
                self.phase = Phase::Executing;
                Action::StartExecution
            },
            (Phase::Executing, CycleEvent::ExecutionFinished) => {
                self.phase = Phase::Idle;
                Action::Wait(self.backoff.current)
            },
            _ => Action::Ignore,
        }
    }
}

/// A failed poll never leads toward execution: the supervisor returns to
/// `Idle` and the loop's next action is a wait, never an evaluation or an
/// execution, whatever the other venue reported.
pub proof fn law_failed_poll_never_executes(s: Supervisor)
    requires
        s.wf(),
        s.phase is Polling,
    ensures
        step_spec(s, CycleEvent::PollFailed).0.phase is Idle,
        step_spec(s, CycleEvent::PollFailed).1 matches Action::Wait(w) && w
            == s.backoff.after_failure().current,
{
}

/// Execution is only ever started from the evaluating phase, on an accepted
/// opportunity; no other state and event pair can ask the loop to trade.
pub proof fn law_execution_only_on_opportunity(s: Supervisor, e: CycleEvent)
    ensures
        step_spec(s, e).1 is StartExecution <==> (s.phase is Evaluating
            && e is OpportunityReady),
{
}

} // verus!
