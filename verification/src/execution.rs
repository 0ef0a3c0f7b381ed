use vstd::prelude::*;

use crate::errors::ExecFailure;
use crate::evaluator::ArbitrageOpportunity;

verus! {

/// Final status of an attempted execution.
#[derive(Clone, Copy, PartialEq, Eq, Structural, Debug)]
pub enum ExecStatus {
    /// Both legs settled within the confirmation bound.
    Confirmed,
    /// The attempt ended without settling.
    Failed(ExecFailure),
    /// Submission went out but confirmation did not arrive in time; the
    /// outcome is ambiguous until reconciled.
    TimedOut,
}

/// What the submission and confirmation steps reported back.
#[derive(Clone, Copy, PartialEq, Eq, Structural, Debug)]
pub enum SettleOutcome {
    Confirmed { tx_id: u64, realized: i128 },
    SubmissionFailed,
    SlippageReverted { tx_id: u64 },
    TimedOut { tx_id: u64 },
}

/// The audited outcome of one attempted execution; immutable once created.
#[derive(Clone, Copy, PartialEq, Eq, Structural, Debug)]
pub struct ExecutionRecord {
    /// Snapshot of the opportunity that was acted on.
    pub opportunity: ArbitrageOpportunity,
    /// Identifier of the submitted transaction, absent when submission failed.
    pub tx_id: Option<u64>,
    pub status: ExecStatus,
    /// Realized profit or loss; zero for anything but a confirmed trade.
    pub realized: i128,
}

/// The record every settlement outcome produces.
pub open spec fn record_spec(opp: ArbitrageOpportunity, outcome: SettleOutcome) -> ExecutionRecord {
    match outcome {
        SettleOutcome::Confirmed { tx_id, realized } => ExecutionRecord {
            opportunity: opp,
            tx_id: Some(tx_id),
            status: ExecStatus::Confirmed,
            realized,
        },
        SettleOutcome::SubmissionFailed => ExecutionRecord {
            opportunity: opp,
            tx_id: None,
            status: ExecStatus::Failed(ExecFailure::Submission),
            realized: 0,
        },
        SettleOutcome::SlippageReverted { tx_id } => ExecutionRecord {
            opportunity: opp,
            tx_id: Some(tx_id),
            status: ExecStatus::Failed(ExecFailure::Slippage),
            realized: 0,
        },
        SettleOutcome::TimedOut { tx_id } => ExecutionRecord {
            opportunity: opp,
            tx_id: Some(tx_id),
            status: ExecStatus::TimedOut,
            realized: 0,
        },
    }
}

/// Where the engine stands with respect to the venue pair it trades.
#[derive(Clone, Copy, PartialEq, Eq, Structural, Debug)]
pub enum EngineState {
    /// No execution in flight; new opportunities may be accepted.
    Ready,
    /// An execution is in flight; nothing else may start.
    AwaitingSettlement,
    /// A settlement timed out; its transaction must be reconciled before
    /// any new execution starts.
    Reconciling,
}

/// Whether an engine in this state accepts a new opportunity.
pub open spec fn accepts(s: EngineState) -> bool {
    s is Ready
}

/// The state after trying to start an execution.
pub open spec fn begin_next(s: EngineState) -> EngineState {
    if s is Ready {
        EngineState::AwaitingSettlement
    } else {
        s
    }
}

/// The state after a settlement outcome arrives.
pub open spec fn settle_next(s: EngineState, outcome: SettleOutcome) -> EngineState {
    if s is AwaitingSettlement {
        if outcome is TimedOut {
            EngineState::Reconciling
        } else {
            EngineState::Ready
        }
    } else {
        s
    }
}

/// The state after the follow-up query resolved a timed-out transaction.
pub open spec fn resolve_next(s: EngineState) -> EngineState {
    if s is Reconciling {
        EngineState::Ready
    } else {
        s
    }
}

/// The execution engine's settlement gate for one venue pair. It never runs
/// two executions concurrently: one must settle (and, after a timeout, be
/// reconciled) before the next may start.
pub struct ExecutionEngine {
    pub state: EngineState,
}

impl ExecutionEngine {
    pub fn new() -> (r: ExecutionEngine)
        ensures
            r.state is Ready,
    {
        ExecutionEngine { state: EngineState::Ready }
    }

    /// Whether a new opportunity may be acted on now.
    pub fn can_accept(&self) -> (r: bool)
        ensures
            r == accepts(self.state),
    {
        match self.state {
            EngineState::Ready => true,
            _ => false,
        }
    }

    /// Tries to start an execution; starts only from `Ready`.
    pub fn begin(&mut self) -> (started: bool)
        ensures
            started == accepts(old(self).state),
            final (self).state == begin_next(old(self).state),
    {
        match self.state {
            EngineState::Ready => {
                self.state = EngineState::AwaitingSettlement;
                true
            },
            _ => false,
        }
    }

    /// Takes the settlement outcome of the in-flight execution and produces
    /// its audit record. Outside `AwaitingSettlement` there is nothing to
    /// settle and nothing is recorded.
    pub fn settle(&mut self, opp: &ArbitrageOpportunity, outcome: SettleOutcome) -> (r: Option<
        ExecutionRecord,
    >)
        ensures
            final (self).state == settle_next(old(self).state, outcome),
            old(self).state is AwaitingSettlement ==> r == Some(record_spec(*opp, outcome)),
            !(old(self).state is AwaitingSettlement) ==> r is None,
    {
        match self.state {
            EngineState::AwaitingSettlement => {
                let record = match outcome {
                    SettleOutcome::Confirmed { tx_id, realized } => ExecutionRecord {
                        opportunity: *opp,
                        tx_id: Some(tx_id),
                        status: ExecStatus::Confirmed,
                        realized,
                    },
                    SettleOutcome::SubmissionFailed => ExecutionRecord {
                        opportunity: *opp,
                        tx_id: None,
                        status: ExecStatus::Failed(ExecFailure::Submission),
                        realized: 0,
                    },
                    SettleOutcome::SlippageReverted { tx_id } => ExecutionRecord {
                        opportunity: *opp,
                        tx_id: Some(tx_id),
                        status: ExecStatus::Failed(ExecFailure::Slippage),
                        realized: 0,
                    },
                    SettleOutcome::TimedOut { tx_id } => ExecutionRecord {
                        opportunity: *opp,
                        tx_id: Some(tx_id),
                        status: ExecStatus::TimedOut,
                        realized: 0,
                    },
                };
                self.state = match outcome {
                    SettleOutcome::TimedOut { .. } => EngineState::Reconciling,
                    _ => EngineState::Ready,
                };
                Some(record)
            },
            _ => None,
        }
    }

    /// Reports the follow-up query's verdict on a timed-out transaction;
    /// only then does the engine accept opportunities again.
    pub fn resolve(&mut self) -> (resolved: bool)
        ensures
            final (self).state == resolve_next(old(self).state),
            resolved == (old(self).state is Reconciling),
    {
        match self.state {
            EngineState::Reconciling => {
                self.state = EngineState::Ready;
                true
            },
            _ => false,
        }
    }
}

/// After a settlement timeout no second execution begins against the venue
/// pair: the engine leaves `AwaitingSettlement` for `Reconciling`, where it
/// accepts nothing and trying to begin changes nothing, until the pending
/// transaction is resolved; only then is it ready again.
pub proof fn law_timeout_blocks_next_execution(outcome: SettleOutcome)
    requires
        outcome is TimedOut,
    ensures
        settle_next(EngineState::AwaitingSettlement, outcome) == EngineState::Reconciling,
        !accepts(EngineState::Reconciling),
        begin_next(EngineState::Reconciling) == EngineState::Reconciling,
        resolve_next(EngineState::Reconciling) == EngineState::Ready,
{
}

/// Executions are mutually exclusive: from any state other than `Ready`,
/// beginning is refused and moves nothing.
pub proof fn law_mutual_exclusion(s: EngineState)
    requires
        !(s is Ready),
    ensures
        !accepts(s),
        begin_next(s) == s,
{
}

} // verus!
