//! Platform-free interrupt intent and lifecycle evidence.
//!
//! These types deliberately carry no provider payloads and no wire
//! serialization. A receipt proves exactly one fact. It never promotes a
//! later lifecycle phase by implication.

use crate::text;
use crate::text::decimal_text;
use crate::timestamp::Span;
use vstd::prelude::*;
use vstd::string::*;

verus! {

/// How a matching interrupt should return attention to a seat.
#[derive(Clone, Copy, Debug, Hash, PartialEq, Eq, Structural)]
pub enum DeliveryRoute {
    /// Complete the harness-owned foreground tool call.
    ReturnForeground,
    /// Complete a harness-owned background tool call.
    CompleteBackgroundTool,
    /// Use an attached controller with current authority.
    ControllerAttached,
    /// Notify an operator without claiming a model turn.
    NotifyOperator,
}

impl DeliveryRoute {
    /// The stable token.
    pub open spec fn token(self) -> Seq<char> {
        match self {
            DeliveryRoute::ReturnForeground => "return_foreground"@,
            DeliveryRoute::CompleteBackgroundTool => "complete_background_tool"@,
            DeliveryRoute::ControllerAttached => "controller_attached"@,
            DeliveryRoute::NotifyOperator => "notify_operator"@,
        }
    }

    /// Stable token for CLI and protocol faces.
    pub fn as_str(self) -> (token: &'static str)
        ensures
            token@ == self.token(),
    {
        match self {
            DeliveryRoute::ReturnForeground => "return_foreground",
            DeliveryRoute::CompleteBackgroundTool => "complete_background_tool",
            DeliveryRoute::ControllerAttached => "controller_attached",
            DeliveryRoute::NotifyOperator => "notify_operator",
        }
    }
}

/// Bounded coverage and waiter deadman policy.
#[derive(Clone, Copy, Debug, PartialEq, Eq, Structural)]
pub struct CoveragePolicy {
    coverage: Span,
    deadman: Span,
}

impl CoveragePolicy {
    #[verifier::type_invariant]
    spec fn bounded(self) -> bool {
        0 < self.deadman.nanos <= self.coverage.nanos
    }

    /// The total coverage.
    pub closed spec fn covered(self) -> Span {
        self.coverage
    }

    /// The longest waiter interval.
    pub closed spec fn interval(self) -> Span {
        self.deadman
    }

    /// Construct a policy with a non-zero deadman no longer than coverage.
    pub fn try_new(coverage: Span, deadman: Span) -> (result: Result<
        CoveragePolicy,
        CoveragePolicyError,
    >)
        ensures
            match result {
                Ok(policy) => 0 < deadman.nanos <= coverage.nanos && policy.covered() == coverage
                    && policy.interval() == deadman,
                Err(error) => error == if coverage.nanos == 0 {
                    CoveragePolicyError::ZeroCoverage
                } else if deadman.nanos == 0 {
                    CoveragePolicyError::ZeroDeadman
                } else {
                    CoveragePolicyError::DeadmanExceedsCoverage
                } && !(0 < deadman.nanos <= coverage.nanos),
            },
    {
        if coverage.nanos == 0 {
            return Err(CoveragePolicyError::ZeroCoverage);
        }
        if deadman.nanos == 0 {
            return Err(CoveragePolicyError::ZeroDeadman);
        }
        if deadman.nanos > coverage.nanos {
            return Err(CoveragePolicyError::DeadmanExceedsCoverage);
        }
        Ok(CoveragePolicy { coverage, deadman })
    }

    /// Total duration for which the seat intends to remain covered. Every policy
    /// covers at least one waiter interval.
    pub fn coverage(self) -> (coverage: Span)
        ensures
            coverage == self.covered(),
            0 < self.interval().nanos <= coverage.nanos,
    {
        proof {
            use_type_invariant(&self);
        }
        self.coverage
    }

    /// Maximum duration of one waiter interval. Every policy has one that is not
    /// zero and no longer than its coverage.
    pub fn deadman(self) -> (deadman: Span)
        ensures
            deadman == self.interval(),
            0 < deadman.nanos <= self.covered().nanos,
    {
        proof {
            use_type_invariant(&self);
        }
        self.deadman
    }
}

/// Invalid coverage policy.
#[derive(Clone, Copy, Debug, PartialEq, Eq, Structural)]
pub enum CoveragePolicyError {
    /// Total coverage was zero.
    ZeroCoverage,
    /// Waiter deadman was zero.
    ZeroDeadman,
    /// One waiter interval was longer than total intended coverage.
    DeadmanExceedsCoverage,
}

impl CoveragePolicyError {
    /// What the error says.
    pub fn message(&self) -> (message: &'static str)
        ensures
            message@ == match self {
                CoveragePolicyError::ZeroCoverage => "coverage must be greater than zero"@,
                CoveragePolicyError::ZeroDeadman => "deadman must be greater than zero"@,
                CoveragePolicyError::DeadmanExceedsCoverage => "deadman must not exceed coverage"@,
            },
    {
        match self {
            CoveragePolicyError::ZeroCoverage => "coverage must be greater than zero",
            CoveragePolicyError::ZeroDeadman => "deadman must be greater than zero",
            CoveragePolicyError::DeadmanExceedsCoverage => "deadman must not exceed coverage",
        }
    }
}

/// One independently observable interrupt lifecycle phase.
#[derive(Clone, Copy, Debug, Hash, PartialEq, Eq, PartialOrd, Ord, Structural)]
pub enum InterruptPhase {
    /// The wait was admitted and began covering the condition.
    WaitArmed,
    /// A provider event matched the armed condition.
    SignalMatched,
    /// The waiter process returned a terminal result.
    WaiterCompleted,
    /// The harness began a model turn.
    TurnStarted,
    /// The model observed the correlated signal.
    ModelObserved,
    /// The seat acknowledged that it acted on the signal.
    SeatActed,
    /// The seat established successor coverage.
    CoverageRearmed,
    /// Coverage ended without a successor wait in this lifecycle.
    CoverageEnded,
}

impl InterruptPhase {
    /// The stable token.
    pub open spec fn token(self) -> Seq<char> {
        match self {
            InterruptPhase::WaitArmed => "wait_armed"@,
            InterruptPhase::SignalMatched => "signal_matched"@,
            InterruptPhase::WaiterCompleted => "waiter_completed"@,
            InterruptPhase::TurnStarted => "turn_started"@,
            InterruptPhase::ModelObserved => "model_observed"@,
            InterruptPhase::SeatActed => "seat_acted"@,
            InterruptPhase::CoverageRearmed => "coverage_rearmed"@,
            InterruptPhase::CoverageEnded => "coverage_ended"@,
        }
    }

    /// Stable token for CLI and protocol faces.
    pub fn as_str(self) -> (token: &'static str)
        ensures
            token@ == self.token(),
    {
        match self {
            InterruptPhase::WaitArmed => "wait_armed",
            InterruptPhase::SignalMatched => "signal_matched",
            InterruptPhase::WaiterCompleted => "waiter_completed",
            InterruptPhase::TurnStarted => "turn_started",
            InterruptPhase::ModelObserved => "model_observed",
            InterruptPhase::SeatActed => "seat_acted",
            InterruptPhase::CoverageRearmed => "coverage_rearmed",
            InterruptPhase::CoverageEnded => "coverage_ended",
        }
    }
}

/// Terminal result reported by a waiter that actually started.
#[derive(Clone, Copy, Debug, Hash, PartialEq, Eq, Structural)]
pub enum WaiterCompletion {
    /// A provider event matched.
    Matched,
    /// The bounded interval ended cleanly without a match.
    DeadmanExpired,
    /// The waiter started but failed.
    Failed,
    /// This waiter was displaced by an authorized successor.
    Replaced,
}

impl WaiterCompletion {
    /// The stable token.
    pub open spec fn token(self) -> Seq<char> {
        match self {
            WaiterCompletion::Matched => "matched"@,
            WaiterCompletion::DeadmanExpired => "deadman_expired"@,
            WaiterCompletion::Failed => "failed"@,
            WaiterCompletion::Replaced => "replaced"@,
        }
    }

    /// Stable token from the pinned interrupt contract.
    pub fn as_str(self) -> (token: &'static str)
        ensures
            token@ == self.token(),
    {
        match self {
            WaiterCompletion::Matched => "matched",
            WaiterCompletion::DeadmanExpired => "deadman_expired",
            WaiterCompletion::Failed => "failed",
            WaiterCompletion::Replaced => "replaced",
        }
    }
}

/// Why intended coverage ended.
#[derive(Clone, Copy, Debug, Hash, PartialEq, Eq, Structural)]
pub enum CoverageEndReason {
    /// The provider runner never started.
    RunnerNotStarted,
    /// A bounded interval expired and no successor was established.
    DeadmanExpired,
    /// Provider state could not be proven.
    ProviderFailed,
    /// The caller explicitly cancelled coverage.
    Cancelled,
    /// Another generation replaced this coverage.
    Replaced,
}

impl CoverageEndReason {
    /// The stable token.
    pub open spec fn token(self) -> Seq<char> {
        match self {
            CoverageEndReason::RunnerNotStarted => "runner_not_started"@,
            CoverageEndReason::DeadmanExpired => "deadman_expired"@,
            CoverageEndReason::ProviderFailed => "provider_failed"@,
            CoverageEndReason::Cancelled => "cancelled"@,
            CoverageEndReason::Replaced => "replaced"@,
        }
    }

    /// Stable token from the pinned interrupt contract.
    pub fn as_str(self) -> (token: &'static str)
        ensures
            token@ == self.token(),
    {
        match self {
            CoverageEndReason::RunnerNotStarted => "runner_not_started",
            CoverageEndReason::DeadmanExpired => "deadman_expired",
            CoverageEndReason::ProviderFailed => "provider_failed",
            CoverageEndReason::Cancelled => "cancelled",
            CoverageEndReason::Replaced => "replaced",
        }
    }
}

/// Exact fact carried by a lifecycle receipt.
#[derive(Clone, Copy, Debug, Hash, PartialEq, Eq, Structural)]
pub enum LifecycleFact {
    /// The wait was admitted.
    WaitArmed,
    /// A signal matched.
    SignalMatched,
    /// A waiter that started returned.
    WaiterCompleted(WaiterCompletion),
    /// A harness turn began.
    TurnStarted,
    /// The model observed the correlated signal.
    ModelObserved,
    /// The seat acknowledged action.
    SeatActed,
    /// Successor coverage was established.
    CoverageRearmed,
    /// Coverage ended.
    CoverageEnded(CoverageEndReason),
}

impl LifecycleFact {
    /// The phase that the fact proves.
    pub open spec fn proved(self) -> InterruptPhase {
        match self {
            LifecycleFact::WaitArmed => InterruptPhase::WaitArmed,
            LifecycleFact::SignalMatched => InterruptPhase::SignalMatched,
            LifecycleFact::WaiterCompleted(_) => InterruptPhase::WaiterCompleted,
            LifecycleFact::TurnStarted => InterruptPhase::TurnStarted,
            LifecycleFact::ModelObserved => InterruptPhase::ModelObserved,
            LifecycleFact::SeatActed => InterruptPhase::SeatActed,
            LifecycleFact::CoverageRearmed => InterruptPhase::CoverageRearmed,
            LifecycleFact::CoverageEnded(_) => InterruptPhase::CoverageEnded,
        }
    }

    /// Phase proved by this exact fact.
    pub fn phase(self) -> (phase: InterruptPhase)
        ensures
            phase == self.proved(),
    {
        match self {
            LifecycleFact::WaitArmed => InterruptPhase::WaitArmed,
            LifecycleFact::SignalMatched => InterruptPhase::SignalMatched,
            LifecycleFact::WaiterCompleted(_) => InterruptPhase::WaiterCompleted,
            LifecycleFact::TurnStarted => InterruptPhase::TurnStarted,
            LifecycleFact::ModelObserved => InterruptPhase::ModelObserved,
            LifecycleFact::SeatActed => InterruptPhase::SeatActed,
            LifecycleFact::CoverageRearmed => InterruptPhase::CoverageRearmed,
            LifecycleFact::CoverageEnded(_) => InterruptPhase::CoverageEnded,
        }
    }
}

/// Producer that directly observed one lifecycle fact.
#[derive(Clone, Copy, Debug, Hash, PartialEq, Eq, Structural)]
pub enum ReceiptSource {
    /// Gearwit's control-plane state machine.
    ControlPlane,
    /// A provider adapter.
    Provider,
    /// The waiter process that was held by the harness.
    WaiterProcess,
    /// A harness-native lifecycle surface.
    Harness,
    /// A host-minted controller attachment.
    Controller,
    /// The seat's explicit declaration.
    Seat,
    /// A human operator's explicit attestation.
    Operator,
}

impl ReceiptSource {
    /// The stable token.
    pub open spec fn token(self) -> Seq<char> {
        match self {
            ReceiptSource::ControlPlane => "control_plane"@,
            ReceiptSource::Provider => "provider"@,
            ReceiptSource::WaiterProcess => "waiter_process"@,
            ReceiptSource::Harness => "harness"@,
            ReceiptSource::Controller => "controller"@,
            ReceiptSource::Seat => "seat"@,
            ReceiptSource::Operator => "operator"@,
        }
    }

    /// Stable token from the pinned interrupt contract.
    pub fn as_str(self) -> (token: &'static str)
        ensures
            token@ == self.token(),
    {
        match self {
            ReceiptSource::ControlPlane => "control_plane",
            ReceiptSource::Provider => "provider",
            ReceiptSource::WaiterProcess => "waiter_process",
            ReceiptSource::Harness => "harness",
            ReceiptSource::Controller => "controller",
            ReceiptSource::Seat => "seat",
            ReceiptSource::Operator => "operator",
        }
    }
}

impl ReceiptSource {
    /// The source can prove the phase.
    pub open spec fn proves(self, phase: InterruptPhase) -> bool {
        match self {
            ReceiptSource::ControlPlane => {
                phase is WaitArmed || phase is SignalMatched || phase is WaiterCompleted
                    || phase is CoverageRearmed || phase is CoverageEnded
            },
            ReceiptSource::Provider => phase is SignalMatched,
            ReceiptSource::WaiterProcess => {
                phase is WaitArmed || phase is WaiterCompleted || phase is CoverageRearmed
                    || phase is CoverageEnded
            },
            ReceiptSource::Harness => phase is TurnStarted || phase is ModelObserved,
            ReceiptSource::Controller => phase is TurnStarted || phase is ModelObserved,
            ReceiptSource::Seat => {
                phase is ModelObserved || phase is SeatActed || phase is CoverageRearmed
            },
            ReceiptSource::Operator => phase is SeatActed,
        }
    }

    /// Whether the source can prove the phase.
    pub fn supports(self, phase: InterruptPhase) -> (supports: bool)
        ensures
            supports == self.proves(phase),
    {
        match self {
            ReceiptSource::ControlPlane => matches!(
                phase,
                InterruptPhase::WaitArmed
                    | InterruptPhase::SignalMatched
                    | InterruptPhase::WaiterCompleted
                    | InterruptPhase::CoverageRearmed
                    | InterruptPhase::CoverageEnded
            ),
            ReceiptSource::Provider => matches!(phase, InterruptPhase::SignalMatched),
            ReceiptSource::WaiterProcess => matches!(
                phase,
                InterruptPhase::WaitArmed
                    | InterruptPhase::WaiterCompleted
                    | InterruptPhase::CoverageRearmed
                    | InterruptPhase::CoverageEnded
            ),
            ReceiptSource::Harness | ReceiptSource::Controller => matches!(
                phase,
                InterruptPhase::TurnStarted | InterruptPhase::ModelObserved
            ),
            ReceiptSource::Seat => matches!(
                phase,
                InterruptPhase::ModelObserved
                    | InterruptPhase::SeatActed
                    | InterruptPhase::CoverageRearmed
            ),
            ReceiptSource::Operator => matches!(phase, InterruptPhase::SeatActed),
        }
    }

    /// The source's own name, as errors show it.
    pub open spec fn name(self) -> Seq<char> {
        match self {
            ReceiptSource::ControlPlane => "ControlPlane"@,
            ReceiptSource::Provider => "Provider"@,
            ReceiptSource::WaiterProcess => "WaiterProcess"@,
            ReceiptSource::Harness => "Harness"@,
            ReceiptSource::Controller => "Controller"@,
            ReceiptSource::Seat => "Seat"@,
            ReceiptSource::Operator => "Operator"@,
        }
    }

    fn name_str(self) -> (name: &'static str)
        ensures
            name@ == self.name(),
    {
        match self {
            ReceiptSource::ControlPlane => "ControlPlane",
            ReceiptSource::Provider => "Provider",
            ReceiptSource::WaiterProcess => "WaiterProcess",
            ReceiptSource::Harness => "Harness",
            ReceiptSource::Controller => "Controller",
            ReceiptSource::Seat => "Seat",
            ReceiptSource::Operator => "Operator",
        }
    }
}

/// One append-only, independently evidenced lifecycle fact.
#[derive(Clone, Copy, Debug, Hash, PartialEq, Eq, Structural)]
pub struct LifecycleReceipt {
    sequence: u64,
    fact: LifecycleFact,
    source: ReceiptSource,
}

/// What a [`LifecycleReceipt`] says.
pub struct LifecycleStep {
    pub sequence: u64,
    pub fact: LifecycleFact,
    pub source: ReceiptSource,
}

impl View for LifecycleReceipt {
    type V = LifecycleStep;

    closed spec fn view(&self) -> LifecycleStep {
        LifecycleStep { sequence: self.sequence, fact: self.fact, source: self.source }
    }
}

impl LifecycleReceipt {
    /// Construct a receipt only when the source can directly support the fact.
    pub fn try_new(sequence: u64, fact: LifecycleFact, source: ReceiptSource) -> (result: Result<
        LifecycleReceipt,
        ReceiptError,
    >)
        ensures
            match result {
                Ok(receipt) => sequence > 0 && source.proves(fact.proved()) && receipt@ == (
                LifecycleStep { sequence, fact, source }),
                Err(error) => if sequence == 0 {
                    error == ReceiptError::ZeroSequence
                } else {
                    !source.proves(fact.proved()) && error == (ReceiptError::UnsupportedEvidence {
                        source,
                        phase: fact.proved(),
                    })
                },
            },
    {
        if sequence == 0 {
            return Err(ReceiptError::ZeroSequence);
        }
        if !source.supports(fact.phase()) {
            return Err(ReceiptError::UnsupportedEvidence { source, phase: fact.phase() });
        }
        Ok(LifecycleReceipt { sequence, fact, source })
    }

    /// Monotonic sequence within one interrupt lifecycle.
    pub fn sequence(self) -> (sequence: u64)
        ensures
            sequence == self@.sequence,
    {
        self.sequence
    }

    /// Exact fact carried by this receipt.
    pub fn fact(self) -> (fact: LifecycleFact)
        ensures
            fact == self@.fact,
    {
        self.fact
    }

    /// Direct observer supporting this fact.
    pub fn source(self) -> (source: ReceiptSource)
        ensures
            source == self@.source,
    {
        self.source
    }
}

/// Projection of one lifecycle phase.
#[derive(Clone, Copy, Debug, PartialEq, Eq, Structural)]
pub enum PhaseObservation {
    /// One receipt directly supports this phase.
    Observed {
        /// Exact fact, including any phase-specific outcome.
        fact: LifecycleFact,
        /// Direct observer for the fact.
        source: ReceiptSource,
    },
    /// No receipt supports this phase.
    Unknown,
}

impl PhaseObservation {
    /// Report whether this phase remains unknown.
    pub fn is_unknown(self) -> (unknown: bool)
        ensures
            unknown == (self is Unknown),
    {
        matches!(self, PhaseObservation::Unknown)
    }
}

/// The receipt at `i` is the first one for the phase.
pub open spec fn first_for(steps: Seq<LifecycleStep>, phase: InterruptPhase, i: int) -> bool {
    &&& 0 <= i < steps.len()
    &&& steps[i].fact.proved() == phase
    &&& forall|j: int| 0 <= j < i ==> (#[trigger] steps[j]).fact.proved() != phase
}

/// What is known of a phase: what its own receipt says, and nothing otherwise.
pub open spec fn observed(steps: Seq<LifecycleStep>, phase: InterruptPhase) -> PhaseObservation {
    if exists|i: int| first_for(steps, phase, i) {
        let i = choose|i: int| first_for(steps, phase, i);
        PhaseObservation::Observed { fact: steps[i].fact, source: steps[i].source }
    } else {
        PhaseObservation::Unknown
    }
}

/// The sequence that comes next.
pub open spec fn next_sequence(len: nat) -> u64 {
    if len < u64::MAX {
        (len + 1) as u64
    } else {
        u64::MAX
    }
}

/// Why a step cannot be appended, if it cannot.
pub open spec fn append_fault(steps: Seq<LifecycleStep>, step: LifecycleStep) -> Option<
    ReceiptError,
> {
    if step.sequence != next_sequence(steps.len()) {
        Some(
            ReceiptError::UnexpectedSequence {
                expected: next_sequence(steps.len()),
                actual: step.sequence,
            },
        )
    } else if !(observed(steps, step.fact.proved()) is Unknown) {
        Some(ReceiptError::DuplicatePhase(step.fact.proved()))
    } else {
        None
    }
}

/// Append-only receipts for one interrupt lifecycle.
#[derive(Debug, PartialEq, Eq)]
pub struct ReceiptLog {
    receipts: Vec<LifecycleReceipt>,
}

impl View for ReceiptLog {
    type V = Seq<LifecycleStep>;

    closed spec fn view(&self) -> Seq<LifecycleStep> {
        Seq::new(self.receipts@.len(), |i: int| self.receipts@[i]@)
    }
}

impl Default for ReceiptLog {
    fn default() -> (log: ReceiptLog)
        ensures
            log@ == Seq::<LifecycleStep>::empty(),
    {
        ReceiptLog::new()
    }
}

impl ReceiptLog {
    /// Create an empty lifecycle.
    pub fn new() -> (log: ReceiptLog)
        ensures
            log@ == Seq::<LifecycleStep>::empty(),
    {
        let log = ReceiptLog { receipts: Vec::new() };
        assert(log@ =~= Seq::<LifecycleStep>::empty());
        log
    }

    /// Append the next receipt.
    ///
    /// Facts are independent: a later phase may be observed while an earlier
    /// phase remains unknown. Sequence and phase uniqueness still prevent
    /// replay from manufacturing duplicate facts.
    pub fn append(&mut self, receipt: LifecycleReceipt) -> (result: Result<(), ReceiptError>)
        ensures
            match result {
                Ok(()) => append_fault(old(self)@, receipt@) is None && final(self)@ == old(
                    self,
                )@.push(receipt@),
                Err(error) => append_fault(old(self)@, receipt@) == Some(error) && final(self)@
                    == old(self)@,
            },
    {
        let len = self.receipts.len() as u64;
        let expected: u64 = if len < u64::MAX {
            len + 1
        } else {
            u64::MAX
        };
        if receipt.sequence != expected {
            return Err(ReceiptError::UnexpectedSequence { expected, actual: receipt.sequence });
        }
        let phase = receipt.fact.phase();
        if !self.observe(phase).is_unknown() {
            return Err(ReceiptError::DuplicatePhase(phase));
        }
        self.receipts.push(receipt);
        assert(self@ =~= old(self)@.push(receipt@));
        Ok(())
    }

    /// Project one phase without inferring it from neighboring receipts.
    pub fn observe(&self, phase: InterruptPhase) -> (observation: PhaseObservation)
        ensures
            observation == observed(self@, phase),
    {
        let mut i: usize = 0;
        while i < self.receipts.len()
            invariant
                i <= self.receipts@.len(),
                forall|j: int| 0 <= j < i ==> (#[trigger] self@[j]).fact.proved() != phase,
            decreases self.receipts.len() - i,
        {
            let receipt = self.receipts[i];
            assert(self@[i as int] == receipt@);
            if receipt.fact.phase() == phase {
                proof {
                    assert(first_for(self@, phase, i as int));
                    let chosen = choose|k: int| first_for(self@, phase, k);
                    if chosen < i {
                        assert(self@[chosen].fact.proved() != phase);
                    } else if chosen > i {
                        assert(self@[i as int].fact.proved() != phase);
                    }
                }
                return PhaseObservation::Observed { fact: receipt.fact, source: receipt.source };
            }
            i += 1;
        }
        PhaseObservation::Unknown
    }

    /// Number of receipts in this lifecycle.
    pub fn len(&self) -> (len: usize)
        ensures
            len == self@.len(),
    {
        self.receipts.len()
    }

    /// Report whether the lifecycle has no receipts.
    pub fn is_empty(&self) -> (empty: bool)
        ensures
            empty == (self@.len() == 0),
    {
        self.receipts.len() == 0
    }
}

/// Invalid receipt or append operation.
#[derive(Clone, Copy, Debug, PartialEq, Eq, Structural)]
pub enum ReceiptError {
    /// Receipt sequences start at one.
    ZeroSequence,
    /// The direct observer cannot prove the named phase.
    UnsupportedEvidence {
        /// Proposed observer.
        source: ReceiptSource,
        /// Phase it cannot prove.
        phase: InterruptPhase,
    },
    /// Receipt sequence was not the next expected value.
    UnexpectedSequence {
        /// Next acceptable sequence.
        expected: u64,
        /// Supplied sequence.
        actual: u64,
    },
    /// This lifecycle already has a fact for the phase.
    DuplicatePhase(InterruptPhase),
}

impl ReceiptError {
    /// What the error says.
    pub open spec fn text(self) -> Seq<char> {
        match self {
            ReceiptError::ZeroSequence => "receipt sequence must start at one"@,
            ReceiptError::UnsupportedEvidence { source, phase } => source.name()
                + " cannot evidence "@ + phase.token(),
            ReceiptError::UnexpectedSequence { expected, actual } => "expected receipt sequence "@
                + text::decimal(expected as nat) + ", received "@ + text::decimal(actual as nat),
            ReceiptError::DuplicatePhase(phase) => "duplicate receipt phase "@ + phase.token(),
        }
    }

    /// The error as text.
    pub fn message(&self) -> (message: String)
        ensures
            message@ == self.text(),
    {
        match *self {
            ReceiptError::ZeroSequence => "receipt sequence must start at one".to_owned(),
            ReceiptError::UnsupportedEvidence { source, phase } => {
                let mut message = source.name_str().to_owned();
                message.append(" cannot evidence ");
                message.append(phase.as_str());
                message
            },
            ReceiptError::UnexpectedSequence { expected, actual } => {
                let mut message = "expected receipt sequence ".to_owned();
                message.append(decimal_text(expected).as_str());
                message.append(", received ");
                message.append(decimal_text(actual).as_str());
                message
            },
            ReceiptError::DuplicatePhase(phase) => {
                let mut message = "duplicate receipt phase ".to_owned();
                message.append(phase.as_str());
                message
            },
        }
    }
}

/// Receipts are independent: appending one tells of its own phase what it says,
/// and of every other phase what was known before.
pub proof fn receipts_prove_only_their_phase(
    steps: Seq<LifecycleStep>,
    step: LifecycleStep,
    phase: InterruptPhase,
)
    requires
        append_fault(steps, step) is None,
    ensures
        observed(steps.push(step), phase) == if phase == step.fact.proved() {
            PhaseObservation::Observed { fact: step.fact, source: step.source }
        } else {
            observed(steps, phase)
        },
{
    let longer = steps.push(step);
    assert forall|i: int| first_for(steps, phase, i) implies first_for(longer, phase, i) by {
        assert forall|j: int| 0 <= j < i implies (#[trigger] longer[j]).fact.proved() != phase by {
            assert(steps[j].fact.proved() != phase);
        }
    }
    assert forall|i: int|
        first_for(longer, phase, i) && i < steps.len() implies first_for(steps, phase, i) by {
        assert forall|j: int| 0 <= j < i implies (#[trigger] steps[j]).fact.proved() != phase by {
            assert(longer[j].fact.proved() != phase);
        }
    }
    assert forall|a: int, b: int|
        #![trigger first_for(longer, phase, a), first_for(longer, phase, b)]
        first_for(longer, phase, a) && first_for(longer, phase, b) implies a == b by {
        if a < b {
            assert(longer[a].fact.proved() != phase);
        } else if b < a {
            assert(longer[b].fact.proved() != phase);
        }
    }
    if phase == step.fact.proved() {
        assert(first_for(longer, phase, steps.len() as int)) by {
            assert forall|j: int| 0 <= j < steps.len() implies (#[trigger] longer[j]).fact.proved()
                != phase by {
                if steps[j].fact.proved() == phase {
                    some_first(steps, phase, j);
                }
            }
        }
    }
}

/// Where some receipt is for a phase, one is the first.
proof fn some_first(steps: Seq<LifecycleStep>, phase: InterruptPhase, k: int)
    requires
        0 <= k < steps.len(),
        steps[k].fact.proved() == phase,
    ensures
        exists|i: int| first_for(steps, phase, i),
    decreases k,
{
    if forall|j: int| 0 <= j < k ==> (#[trigger] steps[j]).fact.proved() != phase {
        assert(first_for(steps, phase, k));
    } else {
        let j = choose|j: int| 0 <= j < k && (#[trigger] steps[j]).fact.proved() == phase;
        some_first(steps, phase, j);
    }
}

/// A waiter process can never prove that a turn started, that the model saw the
/// signal, or that the seat acted.
pub proof fn waiter_never_proves_a_turn(fact: LifecycleFact)
    requires
        fact.proved() is TurnStarted || fact.proved() is ModelObserved || fact.proved() is SeatActed,
    ensures
        !ReceiptSource::WaiterProcess.proves(fact.proved()),
{
}

} // verus!
