//! Interrupt lifecycle evidence.

use gearwit::interrupt::{
    CoverageEndReason, CoveragePolicy, CoveragePolicyError, DeliveryRoute, InterruptPhase,
    LifecycleFact, LifecycleReceipt, PhaseObservation, ReceiptError, ReceiptLog, ReceiptSource,
    WaiterCompletion,
};
use gearwit::timestamp::Span;

fn receipt(sequence: u64, fact: LifecycleFact, source: ReceiptSource) -> LifecycleReceipt {
    LifecycleReceipt::try_new(sequence, fact, source).expect("valid receipt")
}

#[test]
fn coverage_policy_bounds_each_waiter_interval() {
    let policy =
        CoveragePolicy::try_new(Span::from_secs(60 * 60), Span::from_secs(10 * 60))
            .expect("one-hour coverage with ten-minute deadman");

    assert_eq!(policy.coverage(), Span::from_secs(60 * 60));
    assert_eq!(policy.deadman(), Span::from_secs(10 * 60));
    assert_eq!(
        CoveragePolicy::try_new(Span::zero(), Span::from_secs(1)),
        Err(CoveragePolicyError::ZeroCoverage)
    );
    assert_eq!(
        CoveragePolicy::try_new(Span::from_secs(1), Span::zero()),
        Err(CoveragePolicyError::ZeroDeadman)
    );
    assert_eq!(
        CoveragePolicy::try_new(Span::from_secs(1), Span::from_secs(2)),
        Err(CoveragePolicyError::DeadmanExceedsCoverage)
    );
}

#[test]
fn stable_route_and_phase_tokens_match_product_language() {
    assert_eq!(
        DeliveryRoute::ReturnForeground.as_str(),
        "return_foreground"
    );
    assert_eq!(
        DeliveryRoute::CompleteBackgroundTool.as_str(),
        "complete_background_tool"
    );
    assert_eq!(
        DeliveryRoute::ControllerAttached.as_str(),
        "controller_attached"
    );
    assert_eq!(DeliveryRoute::NotifyOperator.as_str(), "notify_operator");
    assert_eq!(InterruptPhase::SignalMatched.as_str(), "signal_matched");
    assert_eq!(InterruptPhase::SeatActed.as_str(), "seat_acted");
    assert_eq!(WaiterCompletion::DeadmanExpired.as_str(), "deadman_expired");
    assert_eq!(
        CoverageEndReason::RunnerNotStarted.as_str(),
        "runner_not_started"
    );
    assert_eq!(ReceiptSource::WaiterProcess.as_str(), "waiter_process");
}

#[test]
fn waiter_completion_does_not_promote_a_model_turn() {
    let mut log = ReceiptLog::new();
    log.append(receipt(
        1,
        LifecycleFact::WaitArmed,
        ReceiptSource::WaiterProcess,
    ))
    .expect("arm");
    log.append(receipt(
        2,
        LifecycleFact::SignalMatched,
        ReceiptSource::Provider,
    ))
    .expect("match");
    log.append(receipt(
        3,
        LifecycleFact::WaiterCompleted(WaiterCompletion::Matched),
        ReceiptSource::WaiterProcess,
    ))
    .expect("wait completion");

    assert!(log.observe(InterruptPhase::TurnStarted).is_unknown());
    assert!(log.observe(InterruptPhase::ModelObserved).is_unknown());
    assert!(log.observe(InterruptPhase::SeatActed).is_unknown());
}

#[test]
fn waiter_process_cannot_claim_turn_started() {
    assert_eq!(
        LifecycleReceipt::try_new(1, LifecycleFact::TurnStarted, ReceiptSource::WaiterProcess,),
        Err(ReceiptError::UnsupportedEvidence {
            source: ReceiptSource::WaiterProcess,
            phase: InterruptPhase::TurnStarted,
        })
    );
}

#[test]
fn runner_not_started_never_becomes_waiter_completed() {
    let mut log = ReceiptLog::new();
    log.append(receipt(
        1,
        LifecycleFact::CoverageEnded(CoverageEndReason::RunnerNotStarted),
        ReceiptSource::ControlPlane,
    ))
    .expect("failed coverage");

    assert!(log.observe(InterruptPhase::WaiterCompleted).is_unknown());
    assert_eq!(
        log.observe(InterruptPhase::CoverageEnded),
        PhaseObservation::Observed {
            fact: LifecycleFact::CoverageEnded(CoverageEndReason::RunnerNotStarted),
            source: ReceiptSource::ControlPlane,
        }
    );
}

#[test]
fn deadman_completion_is_not_a_matched_signal() {
    let mut log = ReceiptLog::new();
    log.append(receipt(
        1,
        LifecycleFact::WaitArmed,
        ReceiptSource::WaiterProcess,
    ))
    .expect("arm");
    log.append(receipt(
        2,
        LifecycleFact::WaiterCompleted(WaiterCompletion::DeadmanExpired),
        ReceiptSource::WaiterProcess,
    ))
    .expect("deadman completion");
    log.append(receipt(
        3,
        LifecycleFact::CoverageEnded(CoverageEndReason::DeadmanExpired),
        ReceiptSource::WaiterProcess,
    ))
    .expect("coverage end");

    assert!(log.observe(InterruptPhase::SignalMatched).is_unknown());
    assert!(log.observe(InterruptPhase::TurnStarted).is_unknown());
}

#[test]
fn observed_later_phase_does_not_invent_unknown_predecessors() {
    let mut log = ReceiptLog::new();
    log.append(receipt(1, LifecycleFact::SeatActed, ReceiptSource::Seat))
        .expect("seat acknowledgement");

    assert_eq!(
        log.observe(InterruptPhase::SeatActed),
        PhaseObservation::Observed {
            fact: LifecycleFact::SeatActed,
            source: ReceiptSource::Seat,
        }
    );
    assert!(log.observe(InterruptPhase::TurnStarted).is_unknown());
    assert!(log.observe(InterruptPhase::ModelObserved).is_unknown());
}

#[test]
fn log_rejects_sequence_gaps_and_duplicate_phase_replay() {
    let mut log = ReceiptLog::new();
    assert_eq!(
        log.append(receipt(
            2,
            LifecycleFact::WaitArmed,
            ReceiptSource::ControlPlane,
        )),
        Err(ReceiptError::UnexpectedSequence {
            expected: 1,
            actual: 2,
        })
    );

    log.append(receipt(
        1,
        LifecycleFact::WaitArmed,
        ReceiptSource::ControlPlane,
    ))
    .expect("first arm");
    assert_eq!(
        log.append(receipt(
            2,
            LifecycleFact::WaitArmed,
            ReceiptSource::WaiterProcess,
        )),
        Err(ReceiptError::DuplicatePhase(InterruptPhase::WaitArmed))
    );
}
