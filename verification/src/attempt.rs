//! Managed doorbell attempt evidence.
//!
//! A trace records only public-safe attempt phases and direct observer classes.
//! It deliberately carries no provider body, native session id, controller proof,
//! lease material, or filesystem location. Callers must bind all receipts to one
//! durable attempt before appending; this projection validates only the safe
//! phase/source vocabulary and doorbell partial order.

use crate::text;
use crate::text::decimal_text;
use vstd::prelude::*;
use vstd::string::*;

verus! {

/// One independently recorded phase in a managed doorbell attempt.
#[derive(Clone, Copy, Debug, Hash, PartialEq, Eq, PartialOrd, Ord, Structural)]
pub enum DoorbellAttemptPhase {
    /// An external signal was observed by a provider or local control face.
    Observed,
    /// Matching provider events were drained into a bounded batch.
    Drained,
    /// The batch was durably claimed before any native dispatch.
    DurableClaimed,
    /// Gearwit prepared one managed dispatch for the claimed batch.
    DispatchPrepared,
    /// The native harness accepted the write attempt.
    NativeAccepted,
    /// The exact correlated native turn started.
    ExactTurnStarted,
    /// The managed helper retrieved the already-claimed batch.
    ClaimedBatchRetrieved,
    /// The managed helper acknowledged the handled batch.
    HandledAcknowledged,
    /// The newest fully handled provider cursor was recorded durably.
    HandledCursorRecorded,
    /// The exact correlated native turn reached a recognized terminal fact.
    ExactTerminalObserved,
    /// The seat produced direct action evidence for the handled batch.
    SeatActed,
    /// Successor coverage was armed after terminal and handled evidence.
    CoverageRearmed,
}

impl DoorbellAttemptPhase {
    /// The stable token.
    pub open spec fn token(self) -> Seq<char> {
        match self {
            DoorbellAttemptPhase::Observed => "observed"@,
            DoorbellAttemptPhase::Drained => "drained"@,
            DoorbellAttemptPhase::DurableClaimed => "durable_claimed"@,
            DoorbellAttemptPhase::DispatchPrepared => "dispatch_prepared"@,
            DoorbellAttemptPhase::NativeAccepted => "native_accepted"@,
            DoorbellAttemptPhase::ExactTurnStarted => "exact_turn_started"@,
            DoorbellAttemptPhase::ClaimedBatchRetrieved => "claimed_batch_retrieved"@,
            DoorbellAttemptPhase::HandledAcknowledged => "handled_acknowledged"@,
            DoorbellAttemptPhase::HandledCursorRecorded => "handled_cursor_recorded"@,
            DoorbellAttemptPhase::ExactTerminalObserved => "exact_terminal_observed"@,
            DoorbellAttemptPhase::SeatActed => "seat_acted"@,
            DoorbellAttemptPhase::CoverageRearmed => "coverage_rearmed"@,
        }
    }

    /// Stable public token used by tests, fixtures, and projections.
    pub fn as_str(self) -> (token: &'static str)
        ensures
            token@ == self.token(),
    {
        match self {
            DoorbellAttemptPhase::Observed => "observed",
            DoorbellAttemptPhase::Drained => "drained",
            DoorbellAttemptPhase::DurableClaimed => "durable_claimed",
            DoorbellAttemptPhase::DispatchPrepared => "dispatch_prepared",
            DoorbellAttemptPhase::NativeAccepted => "native_accepted",
            DoorbellAttemptPhase::ExactTurnStarted => "exact_turn_started",
            DoorbellAttemptPhase::ClaimedBatchRetrieved => "claimed_batch_retrieved",
            DoorbellAttemptPhase::HandledAcknowledged => "handled_acknowledged",
            DoorbellAttemptPhase::HandledCursorRecorded => "handled_cursor_recorded",
            DoorbellAttemptPhase::ExactTerminalObserved => "exact_terminal_observed",
            DoorbellAttemptPhase::SeatActed => "seat_acted",
            DoorbellAttemptPhase::CoverageRearmed => "coverage_rearmed",
        }
    }
}

impl DoorbellAttemptPhase {
    /// The phases that must have been recorded before, in the order in which
    /// they are looked for.
    pub open spec fn required(self) -> Seq<DoorbellAttemptPhase> {
        match self {
            DoorbellAttemptPhase::Observed => seq![],
            DoorbellAttemptPhase::Drained => seq![DoorbellAttemptPhase::Observed],
            DoorbellAttemptPhase::DurableClaimed => seq![DoorbellAttemptPhase::Drained],
            DoorbellAttemptPhase::DispatchPrepared => seq![DoorbellAttemptPhase::DurableClaimed],
            DoorbellAttemptPhase::NativeAccepted => seq![DoorbellAttemptPhase::DispatchPrepared],
            DoorbellAttemptPhase::ExactTurnStarted => seq![DoorbellAttemptPhase::NativeAccepted],
            DoorbellAttemptPhase::ClaimedBatchRetrieved => {
                seq![DoorbellAttemptPhase::ExactTurnStarted]
            },
            DoorbellAttemptPhase::ExactTerminalObserved => {
                seq![DoorbellAttemptPhase::ExactTurnStarted]
            },
            DoorbellAttemptPhase::HandledAcknowledged => {
                seq![DoorbellAttemptPhase::ClaimedBatchRetrieved]
            },
            DoorbellAttemptPhase::HandledCursorRecorded => {
                seq![DoorbellAttemptPhase::HandledAcknowledged]
            },
            DoorbellAttemptPhase::SeatActed => seq![DoorbellAttemptPhase::HandledCursorRecorded],
            DoorbellAttemptPhase::CoverageRearmed => {
                seq![
                    DoorbellAttemptPhase::HandledCursorRecorded,
                    DoorbellAttemptPhase::ExactTerminalObserved,
                ]
            },
        }
    }

    /// The phases that must have been recorded before.
    pub fn prerequisites(self) -> (required: Vec<DoorbellAttemptPhase>)
        ensures
            required@ == self.required(),
    {
        let mut required: Vec<DoorbellAttemptPhase> = Vec::new();
        match self {
            DoorbellAttemptPhase::Observed => {},
            DoorbellAttemptPhase::Drained => required.push(DoorbellAttemptPhase::Observed),
            DoorbellAttemptPhase::DurableClaimed => required.push(DoorbellAttemptPhase::Drained),
            DoorbellAttemptPhase::DispatchPrepared => {
                required.push(DoorbellAttemptPhase::DurableClaimed)
            },
            DoorbellAttemptPhase::NativeAccepted => {
                required.push(DoorbellAttemptPhase::DispatchPrepared)
            },
            DoorbellAttemptPhase::ExactTurnStarted => {
                required.push(DoorbellAttemptPhase::NativeAccepted)
            },
            DoorbellAttemptPhase::ClaimedBatchRetrieved
            | DoorbellAttemptPhase::ExactTerminalObserved => {
                required.push(DoorbellAttemptPhase::ExactTurnStarted)
            },
            DoorbellAttemptPhase::HandledAcknowledged => {
                required.push(DoorbellAttemptPhase::ClaimedBatchRetrieved)
            },
            DoorbellAttemptPhase::HandledCursorRecorded => {
                required.push(DoorbellAttemptPhase::HandledAcknowledged)
            },
            DoorbellAttemptPhase::SeatActed => {
                required.push(DoorbellAttemptPhase::HandledCursorRecorded)
            },
            DoorbellAttemptPhase::CoverageRearmed => {
                required.push(DoorbellAttemptPhase::HandledCursorRecorded);
                required.push(DoorbellAttemptPhase::ExactTerminalObserved)
            },
        }
        assert(required@ =~= self.required());
        required
    }
}

/// Producer class that directly observed one doorbell attempt phase.
#[derive(Clone, Copy, Debug, Hash, PartialEq, Eq, Structural)]
pub enum DoorbellAttemptSource {
    /// Gearwit's local authority process.
    ControlPlane,
    /// A provider adapter or provider-facing face.
    Provider,
    /// Gearwit's native controller adapter.
    Controller,
    /// A narrow helper bound to one already-claimed batch.
    ClaimedBatchHelper,
    /// The managed seat's explicit acknowledgement.
    Seat,
}

impl DoorbellAttemptSource {
    /// The stable token.
    pub open spec fn token(self) -> Seq<char> {
        match self {
            DoorbellAttemptSource::ControlPlane => "control_plane"@,
            DoorbellAttemptSource::Provider => "provider"@,
            DoorbellAttemptSource::Controller => "controller"@,
            DoorbellAttemptSource::ClaimedBatchHelper => "claimed_batch_helper"@,
            DoorbellAttemptSource::Seat => "seat"@,
        }
    }

    /// Stable public token used by tests, fixtures, and projections.
    pub fn as_str(self) -> (token: &'static str)
        ensures
            token@ == self.token(),
    {
        match self {
            DoorbellAttemptSource::ControlPlane => "control_plane",
            DoorbellAttemptSource::Provider => "provider",
            DoorbellAttemptSource::Controller => "controller",
            DoorbellAttemptSource::ClaimedBatchHelper => "claimed_batch_helper",
            DoorbellAttemptSource::Seat => "seat",
        }
    }
}

impl DoorbellAttemptSource {
    /// The source can prove the phase.
    pub open spec fn proves(self, phase: DoorbellAttemptPhase) -> bool {
        match self {
            DoorbellAttemptSource::ControlPlane => {
                phase is Observed || phase is Drained || phase is DurableClaimed
                    || phase is DispatchPrepared || phase is HandledCursorRecorded
                    || phase is CoverageRearmed
            },
            DoorbellAttemptSource::Provider => phase is Observed || phase is Drained,
            DoorbellAttemptSource::Controller => {
                phase is NativeAccepted || phase is ExactTurnStarted
                    || phase is ExactTerminalObserved
            },
            DoorbellAttemptSource::ClaimedBatchHelper => {
                phase is ClaimedBatchRetrieved || phase is HandledAcknowledged
            },
            DoorbellAttemptSource::Seat => phase is SeatActed,
        }
    }

    /// Whether the source can prove the phase.
    pub fn supports(self, phase: DoorbellAttemptPhase) -> (supports: bool)
        ensures
            supports == self.proves(phase),
    {
        match self {
            DoorbellAttemptSource::ControlPlane => matches!(
                phase,
                DoorbellAttemptPhase::Observed
                    | DoorbellAttemptPhase::Drained
                    | DoorbellAttemptPhase::DurableClaimed
                    | DoorbellAttemptPhase::DispatchPrepared
                    | DoorbellAttemptPhase::HandledCursorRecorded
                    | DoorbellAttemptPhase::CoverageRearmed
            ),
            DoorbellAttemptSource::Provider => matches!(
                phase,
                DoorbellAttemptPhase::Observed | DoorbellAttemptPhase::Drained
            ),
            DoorbellAttemptSource::Controller => matches!(
                phase,
                DoorbellAttemptPhase::NativeAccepted
                    | DoorbellAttemptPhase::ExactTurnStarted
                    | DoorbellAttemptPhase::ExactTerminalObserved
            ),
            DoorbellAttemptSource::ClaimedBatchHelper => matches!(
                phase,
                DoorbellAttemptPhase::ClaimedBatchRetrieved
                    | DoorbellAttemptPhase::HandledAcknowledged
            ),
            DoorbellAttemptSource::Seat => matches!(phase, DoorbellAttemptPhase::SeatActed),
        }
    }
}

/// One append-only doorbell attempt receipt.
#[derive(Clone, Copy, Debug, Hash, PartialEq, Eq, Structural)]
pub struct DoorbellAttemptReceipt {
    sequence: u64,
    phase: DoorbellAttemptPhase,
    source: DoorbellAttemptSource,
}

/// What a [`DoorbellAttemptReceipt`] says.
pub struct AttemptStep {
    pub sequence: u64,
    pub phase: DoorbellAttemptPhase,
    pub source: DoorbellAttemptSource,
}

impl View for DoorbellAttemptReceipt {
    type V = AttemptStep;

    closed spec fn view(&self) -> AttemptStep {
        AttemptStep { sequence: self.sequence, phase: self.phase, source: self.source }
    }
}

impl DoorbellAttemptReceipt {
    /// Constructs a receipt when the source can directly support the phase.
    pub fn try_new(
        sequence: u64,
        phase: DoorbellAttemptPhase,
        source: DoorbellAttemptSource,
    ) -> (result: Result<DoorbellAttemptReceipt, DoorbellAttemptError>)
        ensures
            match result {
                Ok(receipt) => sequence > 0 && source.proves(phase) && receipt@ == (AttemptStep {
                    sequence,
                    phase,
                    source,
                }),
                Err(error) => if sequence == 0 {
                    error == DoorbellAttemptError::ZeroSequence
                } else {
                    !source.proves(phase) && error == (DoorbellAttemptError::UnsupportedEvidence {
                        source,
                        phase,
                    })
                },
            },
    {
        if sequence == 0 {
            return Err(DoorbellAttemptError::ZeroSequence);
        }
        if !source.supports(phase) {
            return Err(DoorbellAttemptError::UnsupportedEvidence { source, phase });
        }
        Ok(DoorbellAttemptReceipt { sequence, phase, source })
    }

    /// Monotonic sequence within one managed attempt.
    pub fn sequence(self) -> (sequence: u64)
        ensures
            sequence == self@.sequence,
    {
        self.sequence
    }

    /// Phase carried by this receipt.
    pub fn phase(self) -> (phase: DoorbellAttemptPhase)
        ensures
            phase == self@.phase,
    {
        self.phase
    }

    /// Direct observer supporting this phase.
    pub fn source(self) -> (source: DoorbellAttemptSource)
        ensures
            source == self@.source,
    {
        self.source
    }
}

/// Observation for one doorbell attempt phase.
#[derive(Clone, Copy, Debug, PartialEq, Eq, Structural)]
pub enum DoorbellAttemptObservation {
    /// One receipt directly supports this phase.
    Observed {
        /// Direct observer for this phase.
        source: DoorbellAttemptSource,
    },
    /// No receipt directly supports this phase.
    Unknown,
}

impl DoorbellAttemptObservation {
    /// Report whether this phase remains unknown.
    pub fn is_unknown(self) -> (unknown: bool)
        ensures
            unknown == (self is Unknown),
    {
        matches!(self, DoorbellAttemptObservation::Unknown)
    }
}

/// What each receipt says.
pub open spec fn steps_of(receipts: Seq<DoorbellAttemptReceipt>) -> Seq<AttemptStep> {
    Seq::new(receipts.len(), |i: int| receipts[i]@)
}

/// The phase has been recorded.
pub open spec fn has_phase(steps: Seq<AttemptStep>, phase: DoorbellAttemptPhase) -> bool {
    exists|i: int| 0 <= i < steps.len() && (#[trigger] steps[i]).phase == phase
}

/// The first required phase that has not been recorded.
pub open spec fn missing_phase(
    steps: Seq<AttemptStep>,
    required: Seq<DoorbellAttemptPhase>,
) -> Option<DoorbellAttemptPhase>
    decreases required.len(),
{
    if required.len() == 0 {
        None
    } else if !has_phase(steps, required[0]) {
        Some(required[0])
    } else {
        missing_phase(steps, required.skip(1))
    }
}

/// The sequence that comes next.
pub open spec fn next_sequence(len: nat) -> u64 {
    if len < u64::MAX {
        (len + 1) as u64
    } else {
        u64::MAX
    }
}

/// Why a step cannot be appended, if it cannot.
pub open spec fn append_fault(steps: Seq<AttemptStep>, step: AttemptStep) -> Option<
    DoorbellAttemptError,
> {
    if step.sequence != next_sequence(steps.len()) {
        Some(
            DoorbellAttemptError::UnexpectedSequence {
                expected: next_sequence(steps.len()),
                actual: step.sequence,
            },
        )
    } else if has_phase(steps, step.phase) {
        Some(DoorbellAttemptError::DuplicatePhase(step.phase))
    } else {
        match missing_phase(steps, step.phase.required()) {
            Some(prerequisite) => Some(
                DoorbellAttemptError::MissingPrerequisite { phase: step.phase, prerequisite },
            ),
            None => None,
        }
    }
}

/// Each step carries its place, stands for a phase that no other step stands
/// for, and comes after every step that its phase requires.
pub open spec fn is_trace(steps: Seq<AttemptStep>) -> bool {
    &&& forall|i: int| 0 <= i < steps.len() ==> (#[trigger] steps[i]).sequence == i + 1
    &&& forall|i: int, j: int|
        0 <= i < j < steps.len() ==> (#[trigger] steps[i]).phase != (#[trigger] steps[j]).phase
    &&& forall|i: int, k: int|
        0 <= i < steps.len() && 0 <= k < steps[i].phase.required().len() ==> has_phase(
            steps.take(i),
            #[trigger] steps[i].phase.required()[k],
        )
}

/// Append-only, public-safe receipts for one already-correlated attempt.
#[derive(Debug, PartialEq, Eq)]
pub struct DoorbellAttemptTrace {
    receipts: Vec<DoorbellAttemptReceipt>,
}

impl View for DoorbellAttemptTrace {
    type V = Seq<AttemptStep>;

    closed spec fn view(&self) -> Seq<AttemptStep> {
        steps_of(self.receipts@)
    }
}

impl Default for DoorbellAttemptTrace {
    fn default() -> (trace: DoorbellAttemptTrace)
        ensures
            trace@ == Seq::<AttemptStep>::empty(),
    {
        DoorbellAttemptTrace::new()
    }
}

impl DoorbellAttemptTrace {
    /// Create an empty attempt trace.
    pub fn new() -> (trace: DoorbellAttemptTrace)
        ensures
            trace@ == Seq::<AttemptStep>::empty(),
    {
        let trace = DoorbellAttemptTrace { receipts: Vec::new() };
        assert(trace@ =~= Seq::<AttemptStep>::empty());
        trace
    }

    /// Append the next receipt when it preserves the managed doorbell partial order.
    pub fn append(&mut self, receipt: DoorbellAttemptReceipt) -> (result: Result<
        (),
        DoorbellAttemptError,
    >)
        ensures
            match result {
                Ok(()) => append_fault(old(self)@, receipt@) is None && final(self)@ == old(
                    self,
                )@.push(receipt@),
                Err(error) => append_fault(old(self)@, receipt@) == Some(error) && final(self)@
                    == old(self)@,
            },
    {
        let len = self.receipts.len() as u64;
        let expected: u64 = if len < u64::MAX {
            len + 1
        } else {
            u64::MAX
        };
        if receipt.sequence != expected {
            return Err(
                DoorbellAttemptError::UnexpectedSequence { expected, actual: receipt.sequence },
            );
        }
        if self.contains(receipt.phase) {
            return Err(DoorbellAttemptError::DuplicatePhase(receipt.phase));
        }
        let required = receipt.phase.prerequisites();
        let mut i: usize = 0;
        assert(required@.skip(0) =~= required@);
        while i < required.len()
            invariant
                i <= required@.len(),
                required@ == receipt@.phase.required(),
                receipt.phase == receipt@.phase,
                missing_phase(self@, required@) == missing_phase(self@, required@.skip(i as int)),
                self@ == old(self)@,
                receipt@.sequence == next_sequence(self@.len()),
                !has_phase(self@, receipt@.phase),
            decreases required.len() - i,
        {
            if !self.contains(required[i]) {
                assert(required@.skip(i as int)[0] == required@[i as int]);
                return Err(
                    DoorbellAttemptError::MissingPrerequisite {
                        phase: receipt.phase,
                        prerequisite: required[i],
                    },
                );
            }
            assert(required@.skip(i as int)[0] == required@[i as int]);
            assert(required@.skip(i as int).skip(1) =~= required@.skip(i + 1));
            i += 1;
        }
        self.receipts.push(receipt);
        assert(self@ =~= old(self)@.push(receipt@));
        Ok(())
    }

    /// Project one phase without exposing any private identifiers or payload.
    pub fn observe(&self, phase: DoorbellAttemptPhase) -> (observation: DoorbellAttemptObservation)
        ensures
            match observation {
                DoorbellAttemptObservation::Observed { source } => exists|i: int|
                    {
                        &&& 0 <= i < self@.len()
                        &&& (#[trigger] self@[i]).phase == phase
                        &&& self@[i].source == source
                        &&& forall|j: int| 0 <= j < i ==> (#[trigger] self@[j]).phase != phase
                    },
                DoorbellAttemptObservation::Unknown => !has_phase(self@, phase),
            },
    {
        let mut i: usize = 0;
        while i < self.receipts.len()
            invariant
                i <= self.receipts@.len(),
                forall|j: int| 0 <= j < i ==> (#[trigger] self@[j]).phase != phase,
            decreases self.receipts.len() - i,
        {
            let receipt = self.receipts[i];
            assert(self@[i as int] == receipt@);
            if receipt.phase == phase {
                return DoorbellAttemptObservation::Observed { source: receipt.source };
            }
            i += 1;
        }
        DoorbellAttemptObservation::Unknown
    }

    /// Return the public-safe receipts in append order.
    pub fn receipts(&self) -> (receipts: &[DoorbellAttemptReceipt])
        ensures
            steps_of(receipts@) == self@,
    {
        self.receipts.as_slice()
    }

    /// Report whether the trace has no receipts.
    pub fn is_empty(&self) -> (empty: bool)
        ensures
            empty == (self@.len() == 0),
    {
        self.receipts.len() == 0
    }

    fn contains(&self, phase: DoorbellAttemptPhase) -> (found: bool)
        ensures
            found == has_phase(self@, phase),
    {
        !self.observe(phase).is_unknown()
    }
}

/// Managed doorbell phases in one canonical fixture order.
pub const MANAGED_DOORBELL_PHASES: [DoorbellAttemptPhase; 12] = [
    DoorbellAttemptPhase::Observed,
    DoorbellAttemptPhase::Drained,
    DoorbellAttemptPhase::DurableClaimed,
    DoorbellAttemptPhase::DispatchPrepared,
    DoorbellAttemptPhase::NativeAccepted,
    DoorbellAttemptPhase::ExactTurnStarted,
    DoorbellAttemptPhase::ClaimedBatchRetrieved,
    DoorbellAttemptPhase::HandledAcknowledged,
    DoorbellAttemptPhase::HandledCursorRecorded,
    DoorbellAttemptPhase::ExactTerminalObserved,
    DoorbellAttemptPhase::SeatActed,
    DoorbellAttemptPhase::CoverageRearmed,
];

/// Public-safe phase/source pairs for one managed doorbell proof fixture.
pub const MANAGED_DOORBELL_PROOF_STEPS: [(DoorbellAttemptPhase, DoorbellAttemptSource); 12] = [
    (DoorbellAttemptPhase::Observed, DoorbellAttemptSource::Provider),
    (DoorbellAttemptPhase::Drained, DoorbellAttemptSource::Provider),
    (DoorbellAttemptPhase::DurableClaimed, DoorbellAttemptSource::ControlPlane),
    (DoorbellAttemptPhase::DispatchPrepared, DoorbellAttemptSource::ControlPlane),
    (DoorbellAttemptPhase::NativeAccepted, DoorbellAttemptSource::Controller),
    (DoorbellAttemptPhase::ExactTurnStarted, DoorbellAttemptSource::Controller),
    (DoorbellAttemptPhase::ClaimedBatchRetrieved, DoorbellAttemptSource::ClaimedBatchHelper),
    (DoorbellAttemptPhase::HandledAcknowledged, DoorbellAttemptSource::ClaimedBatchHelper),
    (DoorbellAttemptPhase::HandledCursorRecorded, DoorbellAttemptSource::ControlPlane),
    (DoorbellAttemptPhase::ExactTerminalObserved, DoorbellAttemptSource::Controller),
    (DoorbellAttemptPhase::SeatActed, DoorbellAttemptSource::Seat),
    (DoorbellAttemptPhase::CoverageRearmed, DoorbellAttemptSource::ControlPlane),
];

/// Invalid managed doorbell attempt receipt or append operation.
#[derive(Clone, Copy, Debug, PartialEq, Eq, Structural)]
pub enum DoorbellAttemptError {
    /// Receipt sequences start at one.
    ZeroSequence,
    /// The direct observer cannot prove the named phase.
    UnsupportedEvidence {
        /// Proposed observer.
        source: DoorbellAttemptSource,
        /// Phase it cannot prove.
        phase: DoorbellAttemptPhase,
    },
    /// Receipt sequence was not the next expected value.
    UnexpectedSequence {
        /// Next acceptable sequence.
        expected: u64,
        /// Supplied sequence.
        actual: u64,
    },
    /// This trace already has a receipt for the phase.
    DuplicatePhase(DoorbellAttemptPhase),
    /// A strict doorbell proof prerequisite is not yet observed.
    MissingPrerequisite {
        /// Phase being appended.
        phase: DoorbellAttemptPhase,
        /// Required earlier phase.
        prerequisite: DoorbellAttemptPhase,
    },
}

impl DoorbellAttemptError {
    /// What the error says.
    pub open spec fn text(self) -> Seq<char> {
        match self {
            DoorbellAttemptError::ZeroSequence => "attempt receipt sequence must start at one"@,
            DoorbellAttemptError::UnsupportedEvidence { source, phase } => source.token()
                + " cannot evidence "@ + phase.token(),
            DoorbellAttemptError::UnexpectedSequence { expected, actual } => {
                "expected attempt receipt sequence "@ + text::decimal(expected as nat)
                    + ", received "@ + text::decimal(actual as nat)
            },
            DoorbellAttemptError::DuplicatePhase(phase) => "duplicate attempt phase "@
                + phase.token(),
            DoorbellAttemptError::MissingPrerequisite { phase, prerequisite } => phase.token()
                + " requires prior "@ + prerequisite.token(),
        }
    }

    /// The error as text.
    pub fn message(&self) -> (message: String)
        ensures
            message@ == self.text(),
    {
        match *self {
            DoorbellAttemptError::ZeroSequence => {
                "attempt receipt sequence must start at one".to_owned()
            },
            DoorbellAttemptError::UnsupportedEvidence { source, phase } => {
                let mut message = source.as_str().to_owned();
                message.append(" cannot evidence ");
                message.append(phase.as_str());
                message
            },
            DoorbellAttemptError::UnexpectedSequence { expected, actual } => {
                let mut message = "expected attempt receipt sequence ".to_owned();
                message.append(decimal_text(expected).as_str());
                message.append(", received ");
                message.append(decimal_text(actual).as_str());
                message
            },
            DoorbellAttemptError::DuplicatePhase(phase) => {
                let mut message = "duplicate attempt phase ".to_owned();
                message.append(phase.as_str());
                message
            },
            DoorbellAttemptError::MissingPrerequisite { phase, prerequisite } => {
                let mut message = phase.as_str().to_owned();
                message.append(" requires prior ");
                message.append(prerequisite.as_str());
                message
            },
        }
    }
}

/// The empty trace is one, and appending keeps a trace one: sequences count up,
/// no phase comes twice, and every phase follows what it requires.
pub proof fn appending_keeps_the_order(steps: Seq<AttemptStep>, step: AttemptStep)
    requires
        is_trace(steps),
        append_fault(steps, step) is None,
        steps.len() < u64::MAX,
    ensures
        is_trace(Seq::empty()),
        is_trace(steps.push(step)),
{
    let longer = steps.push(step);
    assert forall|i: int, k: int|
        0 <= i < longer.len() && 0 <= k < longer[i].phase.required().len() implies has_phase(
        longer.take(i),
        #[trigger] longer[i].phase.required()[k],
    ) by {
        if i < steps.len() {
            assert(longer.take(i) =~= steps.take(i));
            assert(longer[i] == steps[i]);
            assert(has_phase(steps.take(i), steps[i].phase.required()[k]));
        } else {
            assert(longer.take(i) =~= steps);
            nothing_missing(steps, step.phase.required(), k);
        }
    }
}

/// Where nothing required is missing, everything required is there.
proof fn nothing_missing(steps: Seq<AttemptStep>, required: Seq<DoorbellAttemptPhase>, k: int)
    requires
        missing_phase(steps, required) is None,
        0 <= k < required.len(),
    ensures
        has_phase(steps, required[k]),
    decreases required.len(),
{
    if k > 0 {
        nothing_missing(steps, required.skip(1), k - 1);
        assert(required.skip(1)[k - 1] == required[k]);
    }
}

/// A native acceptance is never on record without a durable claim, and a rearm
/// never without both the handled cursor and the exact terminal fact.
pub proof fn dispatch_needs_a_durable_claim(steps: Seq<AttemptStep>)
    requires
        is_trace(steps),
    ensures
        has_phase(steps, DoorbellAttemptPhase::NativeAccepted) ==> has_phase(
            steps,
            DoorbellAttemptPhase::DurableClaimed,
        ),
        has_phase(steps, DoorbellAttemptPhase::CoverageRearmed) ==> has_phase(
            steps,
            DoorbellAttemptPhase::HandledCursorRecorded,
        ) && has_phase(steps, DoorbellAttemptPhase::ExactTerminalObserved),
{
    if has_phase(steps, DoorbellAttemptPhase::NativeAccepted) {
        requirement_is_recorded(steps, DoorbellAttemptPhase::NativeAccepted, 0);
        requirement_is_recorded(steps, DoorbellAttemptPhase::DispatchPrepared, 0);
    }
    if has_phase(steps, DoorbellAttemptPhase::CoverageRearmed) {
        requirement_is_recorded(steps, DoorbellAttemptPhase::CoverageRearmed, 0);
        requirement_is_recorded(steps, DoorbellAttemptPhase::CoverageRearmed, 1);
    }
}

proof fn requirement_is_recorded(steps: Seq<AttemptStep>, phase: DoorbellAttemptPhase, k: int)
    requires
        is_trace(steps),
        has_phase(steps, phase),
        0 <= k < phase.required().len(),
    ensures
        has_phase(steps, phase.required()[k]),
{
    let i = choose|i: int| 0 <= i < steps.len() && (#[trigger] steps[i]).phase == phase;
    let wanted = steps[i].phase.required()[k];
    let j = choose|j: int| 0 <= j < steps.take(i).len() && (#[trigger] steps.take(i)[j]).phase
        == wanted;
    assert(steps[j].phase == wanted);
}

} // verus!
