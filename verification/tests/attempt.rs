//! Managed doorbell attempt evidence.

use gearwit::attempt::{
    DoorbellAttemptError, DoorbellAttemptObservation, DoorbellAttemptPhase,
    DoorbellAttemptReceipt, DoorbellAttemptSource, DoorbellAttemptTrace,
    MANAGED_DOORBELL_PHASES, MANAGED_DOORBELL_PROOF_STEPS,
};

fn receipt(
    sequence: u64,
    phase: DoorbellAttemptPhase,
    source: DoorbellAttemptSource,
) -> DoorbellAttemptReceipt {
    DoorbellAttemptReceipt::try_new(sequence, phase, source).expect("valid receipt")
}

#[test]
fn stable_tokens_are_public_safe() {
    assert_eq!(
        DoorbellAttemptPhase::DurableClaimed.as_str(),
        "durable_claimed"
    );
    assert_eq!(
        DoorbellAttemptPhase::ExactTurnStarted.as_str(),
        "exact_turn_started"
    );
    assert_eq!(DoorbellAttemptPhase::SeatActed.as_str(), "seat_acted");
    assert_eq!(
        DoorbellAttemptSource::ClaimedBatchHelper.as_str(),
        "claimed_batch_helper"
    );
}

#[test]
fn canonical_fixture_covers_the_managed_doorbell_proof_order() {
    let mut trace = DoorbellAttemptTrace::new();
    assert_eq!(
        MANAGED_DOORBELL_PROOF_STEPS.len(),
        MANAGED_DOORBELL_PHASES.len()
    );
    for (index, (phase, source)) in MANAGED_DOORBELL_PROOF_STEPS.iter().copied().enumerate() {
        assert_eq!(phase, MANAGED_DOORBELL_PHASES[index]);
        trace
            .append(receipt(
                u64::try_from(index + 1).expect("sequence fits"),
                phase,
                source,
            ))
            .expect("canonical phase appends");
    }

    assert_eq!(trace.receipts().len(), MANAGED_DOORBELL_PHASES.len());
    assert_eq!(
        trace.observe(DoorbellAttemptPhase::SeatActed),
        DoorbellAttemptObservation::Observed {
            source: DoorbellAttemptSource::Seat,
        }
    );
    assert_eq!(
        trace.observe(DoorbellAttemptPhase::CoverageRearmed),
        DoorbellAttemptObservation::Observed {
            source: DoorbellAttemptSource::ControlPlane,
        }
    );
}

#[test]
fn terminal_and_helper_branches_may_arrive_in_either_order() {
    let mut trace = DoorbellAttemptTrace::new();
    for (index, (phase, source)) in MANAGED_DOORBELL_PROOF_STEPS[..6]
        .iter()
        .copied()
        .enumerate()
    {
        trace
            .append(receipt(
                u64::try_from(index + 1).expect("sequence fits"),
                phase,
                source,
            ))
            .expect("pre-branch phase appends");
    }

    trace
        .append(receipt(
            7,
            DoorbellAttemptPhase::ExactTerminalObserved,
            DoorbellAttemptSource::Controller,
        ))
        .expect("terminal may precede helper retrieval");
    trace
        .append(receipt(
            8,
            DoorbellAttemptPhase::ClaimedBatchRetrieved,
            DoorbellAttemptSource::ClaimedBatchHelper,
        ))
        .expect("helper retrieval remains valid after terminal");
}

#[test]
fn native_acceptance_cannot_skip_the_durable_claim() {
    let mut trace = DoorbellAttemptTrace::new();
    trace
        .append(receipt(
            1,
            DoorbellAttemptPhase::Observed,
            DoorbellAttemptSource::Provider,
        ))
        .expect("observed");
    trace
        .append(receipt(
            2,
            DoorbellAttemptPhase::Drained,
            DoorbellAttemptSource::Provider,
        ))
        .expect("drained");

    assert_eq!(
        trace.append(receipt(
            3,
            DoorbellAttemptPhase::NativeAccepted,
            DoorbellAttemptSource::Controller,
        )),
        Err(DoorbellAttemptError::MissingPrerequisite {
            phase: DoorbellAttemptPhase::NativeAccepted,
            prerequisite: DoorbellAttemptPhase::DispatchPrepared,
        })
    );
    assert!(
        trace
            .observe(DoorbellAttemptPhase::NativeAccepted)
            .is_unknown()
    );
}

#[test]
fn rearm_requires_handled_cursor_and_exact_terminal() {
    let mut trace = DoorbellAttemptTrace::new();
    for (index, (phase, source)) in MANAGED_DOORBELL_PROOF_STEPS[..9]
        .iter()
        .copied()
        .enumerate()
    {
        trace
            .append(receipt(
                u64::try_from(index + 1).expect("sequence fits"),
                phase,
                source,
            ))
            .expect("pre-terminal phase appends");
    }

    assert_eq!(
        trace.append(receipt(
            10,
            DoorbellAttemptPhase::CoverageRearmed,
            DoorbellAttemptSource::ControlPlane,
        )),
        Err(DoorbellAttemptError::MissingPrerequisite {
            phase: DoorbellAttemptPhase::CoverageRearmed,
            prerequisite: DoorbellAttemptPhase::ExactTerminalObserved,
        })
    );
    assert!(
        trace
            .observe(DoorbellAttemptPhase::CoverageRearmed)
            .is_unknown()
    );
}

#[test]
fn unsupported_sources_cannot_claim_stronger_evidence() {
    assert_eq!(
        DoorbellAttemptReceipt::try_new(
            1,
            DoorbellAttemptPhase::ExactTurnStarted,
            DoorbellAttemptSource::Provider,
        ),
        Err(DoorbellAttemptError::UnsupportedEvidence {
            source: DoorbellAttemptSource::Provider,
            phase: DoorbellAttemptPhase::ExactTurnStarted,
        })
    );
    assert_eq!(
        DoorbellAttemptReceipt::try_new(
            1,
            DoorbellAttemptPhase::SeatActed,
            DoorbellAttemptSource::ControlPlane,
        ),
        Err(DoorbellAttemptError::UnsupportedEvidence {
            source: DoorbellAttemptSource::ControlPlane,
            phase: DoorbellAttemptPhase::SeatActed,
        })
    );
}

#[test]
fn replay_and_sequence_gaps_are_rejected() {
    let mut trace = DoorbellAttemptTrace::new();
    assert_eq!(
        trace.append(receipt(
            2,
            DoorbellAttemptPhase::Observed,
            DoorbellAttemptSource::Provider,
        )),
        Err(DoorbellAttemptError::UnexpectedSequence {
            expected: 1,
            actual: 2,
        })
    );

    trace
        .append(receipt(
            1,
            DoorbellAttemptPhase::Observed,
            DoorbellAttemptSource::Provider,
        ))
        .expect("first observation");
    assert_eq!(
        trace.append(receipt(
            2,
            DoorbellAttemptPhase::Observed,
            DoorbellAttemptSource::ControlPlane,
        )),
        Err(DoorbellAttemptError::DuplicatePhase(
            DoorbellAttemptPhase::Observed,
        ))
    );
}
