//! Laws of lifecycle receipts: who can prove a phase, and in which order phases
//! stand.

use crate::attempt;
use crate::attempt::{
    AttemptStep, DoorbellAttemptError, DoorbellAttemptPhase, DoorbellAttemptSource,
};
use crate::interrupt;
use crate::interrupt::{
    CoverageEndReason, DeliveryRoute, InterruptPhase, LifecycleFact, LifecycleStep,
    PhaseObservation, ReceiptError, ReceiptSource, WaiterCompletion,
};
use crate::text;
use vstd::prelude::*;
use vstd::string::*;

verus! {

/// Who can prove a phase of an interrupt: coverage is proved by those who cover,
/// a match by the provider, a turn by harness and controller, and an action by
/// those who act.
pub proof fn phase_has_its_witnesses(source: ReceiptSource)
    ensures
        source.proves(InterruptPhase::WaitArmed) <==> source is ControlPlane
            || source is WaiterProcess,
        source.proves(InterruptPhase::SignalMatched) <==> source is ControlPlane
            || source is Provider,
        source.proves(InterruptPhase::WaiterCompleted) <==> source is ControlPlane
            || source is WaiterProcess,
        source.proves(InterruptPhase::TurnStarted) <==> source is Harness || source is Controller,
        source.proves(InterruptPhase::ModelObserved) <==> source is Harness || source is Controller
            || source is Seat,
        source.proves(InterruptPhase::SeatActed) <==> source is Seat || source is Operator,
        source.proves(InterruptPhase::CoverageRearmed) <==> source is ControlPlane
            || source is WaiterProcess || source is Seat,
        source.proves(InterruptPhase::CoverageEnded) <==> source is ControlPlane
            || source is WaiterProcess,
{
}

/// A fact proves the phase that it is named after.
pub proof fn fact_proves_its_own_phase(completion: WaiterCompletion, reason: CoverageEndReason)
    ensures
        LifecycleFact::WaitArmed.proved() is WaitArmed,
        LifecycleFact::SignalMatched.proved() is SignalMatched,
        LifecycleFact::WaiterCompleted(completion).proved() is WaiterCompleted,
        LifecycleFact::TurnStarted.proved() is TurnStarted,
        LifecycleFact::ModelObserved.proved() is ModelObserved,
        LifecycleFact::SeatActed.proved() is SeatActed,
        LifecycleFact::CoverageRearmed.proved() is CoverageRearmed,
        LifecycleFact::CoverageEnded(reason).proved() is CoverageEnded,
{
}

/// What is known of a phase is what the first receipt for it says; without one
/// nothing is.
pub proof fn phase_is_known_by_its_receipt(
    steps: Seq<LifecycleStep>,
    phase: InterruptPhase,
    at: int,
)
    ensures
        0 <= at < steps.len() && steps[at].fact.proved() == phase && (forall|j: int|
            0 <= j < at ==> (#[trigger] steps[j]).fact.proved() != phase) ==> interrupt::observed(
            steps,
            phase,
        ) == (PhaseObservation::Observed { fact: steps[at].fact, source: steps[at].source }),
        (forall|j: int| 0 <= j < steps.len() ==> (#[trigger] steps[j]).fact.proved() != phase)
            ==> interrupt::observed(steps, phase) is Unknown,
{
    if 0 <= at < steps.len() && steps[at].fact.proved() == phase && forall|j: int|
        0 <= j < at ==> (#[trigger] steps[j]).fact.proved() != phase {
        assert(interrupt::first_for(steps, phase, at));
        let found = choose|i: int| interrupt::first_for(steps, phase, i);
        assert(interrupt::first_for(steps, phase, found));
        if found < at {
            assert(steps[found].fact.proved() != phase);
        }
        if at < found {
            assert(steps[at].fact.proved() != phase);
        }
    }
    if forall|j: int| 0 <= j < steps.len() ==> (#[trigger] steps[j]).fact.proved() != phase {
        if exists|i: int| interrupt::first_for(steps, phase, i) {
            let found = choose|i: int| interrupt::first_for(steps, phase, i);
            assert(steps[found].fact.proved() != phase);
        }
    }
}

/// A receipt is taken with the next number for a phase that has none yet, and in
/// no other case: first its number is objected to, then its phase.
pub proof fn receipt_comes_next_for_a_new_phase(steps: Seq<LifecycleStep>, step: LifecycleStep)
    requires
        steps.len() < u64::MAX,
    ensures
        ({
            let fault = interrupt::append_fault(steps, step);
            let next = step.sequence == steps.len() + 1;
            let fresh = forall|j: int|
                0 <= j < steps.len() ==> (#[trigger] steps[j]).fact.proved()
                    != step.fact.proved();
            &&& fault is None <==> next && fresh
            &&& !next ==> fault == Some(
                ReceiptError::UnexpectedSequence {
                    expected: (steps.len() + 1) as u64,
                    actual: step.sequence,
                },
            )
            &&& next && !fresh ==> fault == Some(ReceiptError::DuplicatePhase(step.fact.proved()))
        }),
{
    let phase = step.fact.proved();
    phase_is_known_by_its_receipt(steps, phase, 0);
    if exists|j: int| 0 <= j < steps.len() && (#[trigger] steps[j]).fact.proved() == phase {
        let j = choose|j: int| 0 <= j < steps.len() && (#[trigger] steps[j]).fact.proved() == phase;
        earliest(steps, phase, j);
    }
}

proof fn earliest(steps: Seq<LifecycleStep>, phase: InterruptPhase, at: int)
    requires
        0 <= at < steps.len(),
        steps[at].fact.proved() == phase,
    ensures
        !(interrupt::observed(steps, phase) is Unknown),
    decreases at,
{
    if exists|j: int| 0 <= j < at && (#[trigger] steps[j]).fact.proved() == phase {
        let j = choose|j: int| 0 <= j < at && (#[trigger] steps[j]).fact.proved() == phase;
        earliest(steps, phase, j);
    } else {
        phase_is_known_by_its_receipt(steps, phase, at);
    }
}

/// The stable tokens of an interrupt lifecycle.
pub proof fn interrupt_tokens_are_stable()
    ensures
        DeliveryRoute::ReturnForeground.token() == "return_foreground"@,
        DeliveryRoute::CompleteBackgroundTool.token() == "complete_background_tool"@,
        DeliveryRoute::ControllerAttached.token() == "controller_attached"@,
        DeliveryRoute::NotifyOperator.token() == "notify_operator"@,
        InterruptPhase::WaitArmed.token() == "wait_armed"@,
        InterruptPhase::SignalMatched.token() == "signal_matched"@,
        InterruptPhase::WaiterCompleted.token() == "waiter_completed"@,
        InterruptPhase::TurnStarted.token() == "turn_started"@,
        InterruptPhase::ModelObserved.token() == "model_observed"@,
        InterruptPhase::SeatActed.token() == "seat_acted"@,
        InterruptPhase::CoverageRearmed.token() == "coverage_rearmed"@,
        InterruptPhase::CoverageEnded.token() == "coverage_ended"@,
        WaiterCompletion::Matched.token() == "matched"@,
        WaiterCompletion::DeadmanExpired.token() == "deadman_expired"@,
        WaiterCompletion::Failed.token() == "failed"@,
        WaiterCompletion::Replaced.token() == "replaced"@,
        CoverageEndReason::RunnerNotStarted.token() == "runner_not_started"@,
        CoverageEndReason::DeadmanExpired.token() == "deadman_expired"@,
        CoverageEndReason::ProviderFailed.token() == "provider_failed"@,
        CoverageEndReason::Cancelled.token() == "cancelled"@,
        CoverageEndReason::Replaced.token() == "replaced"@,
        ReceiptSource::ControlPlane.token() == "control_plane"@,
        ReceiptSource::Provider.token() == "provider"@,
        ReceiptSource::WaiterProcess.token() == "waiter_process"@,
        ReceiptSource::Harness.token() == "harness"@,
        ReceiptSource::Controller.token() == "controller"@,
        ReceiptSource::Seat.token() == "seat"@,
        ReceiptSource::Operator.token() == "operator"@,
{
}

/// Who can prove a phase of a doorbell attempt.
pub proof fn attempt_phase_has_its_witnesses(source: DoorbellAttemptSource)
    ensures
        source.proves(DoorbellAttemptPhase::Observed) <==> source is ControlPlane
            || source is Provider,
        source.proves(DoorbellAttemptPhase::Drained) <==> source is ControlPlane
            || source is Provider,
        source.proves(DoorbellAttemptPhase::DurableClaimed) <==> source is ControlPlane,
        source.proves(DoorbellAttemptPhase::DispatchPrepared) <==> source is ControlPlane,
        source.proves(DoorbellAttemptPhase::NativeAccepted) <==> source is Controller,
        source.proves(DoorbellAttemptPhase::ExactTurnStarted) <==> source is Controller,
        source.proves(DoorbellAttemptPhase::ClaimedBatchRetrieved) <==> source
            is ClaimedBatchHelper,
        source.proves(DoorbellAttemptPhase::HandledAcknowledged) <==> source is ClaimedBatchHelper,
        source.proves(DoorbellAttemptPhase::HandledCursorRecorded) <==> source is ControlPlane,
        source.proves(DoorbellAttemptPhase::ExactTerminalObserved) <==> source is Controller,
        source.proves(DoorbellAttemptPhase::SeatActed) <==> source is Seat,
        source.proves(DoorbellAttemptPhase::CoverageRearmed) <==> source is ControlPlane,
{
}

/// The phase directly before another one in an attempt, where there is exactly
/// one.
pub open spec fn behind(phase: DoorbellAttemptPhase) -> Option<DoorbellAttemptPhase> {
    match phase {
        DoorbellAttemptPhase::Observed => None,
        DoorbellAttemptPhase::Drained => Some(DoorbellAttemptPhase::Observed),
        DoorbellAttemptPhase::DurableClaimed => Some(DoorbellAttemptPhase::Drained),
        DoorbellAttemptPhase::DispatchPrepared => Some(DoorbellAttemptPhase::DurableClaimed),
        DoorbellAttemptPhase::NativeAccepted => Some(DoorbellAttemptPhase::DispatchPrepared),
        DoorbellAttemptPhase::ExactTurnStarted => Some(DoorbellAttemptPhase::NativeAccepted),
        DoorbellAttemptPhase::ClaimedBatchRetrieved => Some(DoorbellAttemptPhase::ExactTurnStarted),
        DoorbellAttemptPhase::HandledAcknowledged => {
            Some(DoorbellAttemptPhase::ClaimedBatchRetrieved)
        },
        DoorbellAttemptPhase::HandledCursorRecorded => {
            Some(DoorbellAttemptPhase::HandledAcknowledged)
        },
        DoorbellAttemptPhase::ExactTerminalObserved => Some(DoorbellAttemptPhase::ExactTurnStarted),
        DoorbellAttemptPhase::SeatActed => Some(DoorbellAttemptPhase::HandledCursorRecorded),
        DoorbellAttemptPhase::CoverageRearmed => None,
    }
}

/// Some step is for the phase.
pub open spec fn reached(steps: Seq<AttemptStep>, phase: DoorbellAttemptPhase) -> bool {
    exists|i: int| 0 <= i < steps.len() && (#[trigger] steps[i]).phase == phase
}

/// A step is taken with the next number for a phase that was not reached yet and
/// whose own prerequisites were: a rearm needs both the handled cursor and the
/// turn's end, every later phase the one before it, and the first none.
pub proof fn attempt_step_follows_its_prerequisites(steps: Seq<AttemptStep>, step: AttemptStep)
    requires
        steps.len() < u64::MAX,
    ensures
        ({
            let fault = attempt::append_fault(steps, step);
            let next = step.sequence == steps.len() + 1;
            let fresh = next && !reached(steps, step.phase);
            let before = behind(step.phase);
            let rearm = step.phase is CoverageRearmed;
            let handled = reached(steps, DoorbellAttemptPhase::HandledCursorRecorded);
            let over = reached(steps, DoorbellAttemptPhase::ExactTerminalObserved);
            let missing = |prerequisite: DoorbellAttemptPhase|
                fault == Some(
                    DoorbellAttemptError::MissingPrerequisite { phase: step.phase, prerequisite },
                );
            &&& fault is None <==> fresh && (before is Some ==> reached(steps, before->0)) && (
            rearm ==> handled && over)
            &&& !next ==> fault == Some(
                DoorbellAttemptError::UnexpectedSequence {
                    expected: (steps.len() + 1) as u64,
                    actual: step.sequence,
                },
            )
            &&& next && reached(steps, step.phase) ==> fault == Some(
                DoorbellAttemptError::DuplicatePhase(step.phase),
            )
            &&& fresh && before is Some && !reached(steps, before->0) ==> missing(before->0)
            &&& fresh && rearm && !handled ==> missing(DoorbellAttemptPhase::HandledCursorRecorded)
            &&& fresh && rearm && handled && !over ==> missing(
                DoorbellAttemptPhase::ExactTerminalObserved,
            )
        }),
{
    let required = step.phase.required();
    reveal_with_fuel(attempt::missing_phase, 3);
    if required.len() > 0 {
        let rest = required.skip(1);
        if step.phase is CoverageRearmed {
            assert(rest.len() == 1);
            assert(rest[0] == DoorbellAttemptPhase::ExactTerminalObserved);
            assert(rest.skip(1).len() == 0);
        } else {
            assert(rest.len() == 0);
        }
    }
    assert(forall|phase: DoorbellAttemptPhase| #[trigger]
        attempt::has_phase(steps, phase) <==> reached(steps, phase));
}

/// The stable tokens of a doorbell attempt.
pub proof fn attempt_tokens_are_stable()
    ensures
        DoorbellAttemptPhase::Observed.token() == "observed"@,
        DoorbellAttemptPhase::Drained.token() == "drained"@,
        DoorbellAttemptPhase::DurableClaimed.token() == "durable_claimed"@,
        DoorbellAttemptPhase::DispatchPrepared.token() == "dispatch_prepared"@,
        DoorbellAttemptPhase::NativeAccepted.token() == "native_accepted"@,
        DoorbellAttemptPhase::ExactTurnStarted.token() == "exact_turn_started"@,
        DoorbellAttemptPhase::ClaimedBatchRetrieved.token() == "claimed_batch_retrieved"@,
        DoorbellAttemptPhase::HandledAcknowledged.token() == "handled_acknowledged"@,
        DoorbellAttemptPhase::HandledCursorRecorded.token() == "handled_cursor_recorded"@,
        DoorbellAttemptPhase::ExactTerminalObserved.token() == "exact_terminal_observed"@,
        DoorbellAttemptPhase::SeatActed.token() == "seat_acted"@,
        DoorbellAttemptPhase::CoverageRearmed.token() == "coverage_rearmed"@,
        DoorbellAttemptSource::ControlPlane.token() == "control_plane"@,
        DoorbellAttemptSource::Provider.token() == "provider"@,
        DoorbellAttemptSource::Controller.token() == "controller"@,
        DoorbellAttemptSource::ClaimedBatchHelper.token() == "claimed_batch_helper"@,
        DoorbellAttemptSource::Seat.token() == "seat"@,
{
}

/// Errors say what is wrong: the source and the phase, the numbers, or the phase
/// that is missing.
pub proof fn receipt_errors_say_what_is_wrong(
    source: ReceiptSource,
    phase: InterruptPhase,
    sender: DoorbellAttemptSource,
    stage: DoorbellAttemptPhase,
    missing: DoorbellAttemptPhase,
    expected: u64,
    actual: u64,
)
    ensures
        ReceiptError::ZeroSequence.text() == "receipt sequence must start at one"@,
        (ReceiptError::UnexpectedSequence { expected, actual }).text()
            == "expected receipt sequence "@ + text::decimal(expected as nat) + ", received "@
            + text::decimal(actual as nat),
        ReceiptError::DuplicatePhase(phase).text() == "duplicate receipt phase "@ + phase.token(),
        (ReceiptError::UnsupportedEvidence { source, phase }).text() == source.name()
            + " cannot evidence "@ + phase.token(),
        DoorbellAttemptError::ZeroSequence.text() == "attempt receipt sequence must start at one"@,
        (DoorbellAttemptError::UnexpectedSequence { expected, actual }).text()
            == "expected attempt receipt sequence "@ + text::decimal(expected as nat)
            + ", received "@ + text::decimal(actual as nat),
        DoorbellAttemptError::DuplicatePhase(stage).text() == "duplicate attempt phase "@
            + stage.token(),
        (DoorbellAttemptError::UnsupportedEvidence { source: sender, phase: stage }).text()
            == sender.token() + " cannot evidence "@ + stage.token(),
        (DoorbellAttemptError::MissingPrerequisite { phase: stage, prerequisite: missing }).text()
            == stage.token() + " requires prior "@ + missing.token(),
        ReceiptSource::ControlPlane.name() == "ControlPlane"@,
        ReceiptSource::Provider.name() == "Provider"@,
        ReceiptSource::WaiterProcess.name() == "WaiterProcess"@,
        ReceiptSource::Harness.name() == "Harness"@,
        ReceiptSource::Controller.name() == "Controller"@,
        ReceiptSource::Seat.name() == "Seat"@,
        ReceiptSource::Operator.name() == "Operator"@,
{
}

} // verus!
