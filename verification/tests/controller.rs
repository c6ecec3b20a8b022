//! Controller commands and their bindings.

use gearwit::controller::{
    ActiveObservationPrehash, Controller, ControllerAttachment, ControllerBirthBinding,
    ControllerCommand, ControllerIdleGuard, ControllerWriteError, FakeController,
    ManagedCapability, NativeMutationEpoch, NativeWriteDisposition, NativeWriteReservation,
    PersistedTurnCorrelation, SignalAction,
};
use gearwit::ident::{
    ArmId, AttemptId, ClaimRequestId, ControllerBirthId, PrivateNativeRef, RequestNonce, SeatId,
    SignalId, VerifierRef,
};
use gearwit::timestamp::{Timestamp, SECOND};

fn command(probe: u8, epoch_sequence: u64) -> ControllerCommand {
    let birth_id = ControllerBirthId([1; 32]);
    ControllerCommand::from_reservation(
        ControllerAttachment {
            attempt_id: AttemptId::new("attempt-a").expect("attempt"),
            birth_id: birth_id.clone(),
            arm_id: ArmId::new("arm-a").expect("arm"),
            generation: 1,
            seat_id: SeatId::new("seat-a").expect("seat"),
            capability: ManagedCapability::HandleClaimedSignal,
            lease_until: Timestamp::unix_epoch(),
            verifier_ref: VerifierRef([4; 32]),
        },
        SignalAction {
            signal_id: SignalId::new("signal-a").expect("signal"),
        },
        NativeWriteReservation {
            correlation: PersistedTurnCorrelation {
                attempt_id: AttemptId::new("attempt-a").expect("attempt"),
                signal_id: SignalId::new("signal-a").expect("signal"),
                birth_id: birth_id.clone(),
                thread_ref: PrivateNativeRef([2; 32]),
                turn_write_id: RequestNonce([3; 32]),
                turn_ref: None,
            },
            probe_id: RequestNonce([probe; 32]),
            expected_epoch: NativeMutationEpoch {
                birth_id,
                sequence: epoch_sequence,
            },
        },
    )
}

#[test]
fn capability_has_no_waiter_or_legacy_alias() {
    assert_eq!(
        ManagedCapability::parse("handle_claimed_signal"),
        Some(ManagedCapability::HandleClaimedSignal)
    );
    assert_eq!(ManagedCapability::parse("complete_background_tool"), None);
    assert_eq!(ManagedCapability::parse("managed_turn_start"), None);
}

#[test]
fn claim_request_and_private_nonce_are_distinct_families() {
    let claim = ClaimRequestId::new("01J00000000000000000000010").expect("claim id");
    let nonce = RequestNonce([10; 32]);
    assert_eq!(claim.as_str(), "01J00000000000000000000010");
    assert_ne!(nonce.redacted(), claim.as_str());
    assert_eq!(
        VerifierRef([11; 32]).redacted(),
        "VerifierRef([redacted])"
    );
}

#[test]
fn guard_probe_or_epoch_mismatch_emits_zero_bytes() {
    for (probe, epoch) in [(8, 4), (7, 5)] {
        let mut controller =
            FakeController::new(vec![], vec![NativeWriteDisposition::ProvenNotAccepted]);
        controller.current_epoch = Some(NativeMutationEpoch {
            birth_id: ControllerBirthId([1; 32]),
            sequence: 4,
        });
        let disposition = controller.write_reserved_turn(
            ControllerIdleGuard {
                probe_id: RequestNonce([7; 32]),
                epoch: NativeMutationEpoch {
                    birth_id: ControllerBirthId([1; 32]),
                    sequence: 4,
                },
            },
            command(probe, epoch),
        );
        assert!(matches!(
            disposition,
            Err(ControllerWriteError::BindingRejected)
        ));
        assert_eq!(controller.native_bytes(), 0);
    }
}

#[test]
fn active_observation_prehash_zeroizes_in_place() {
    let mut prehash = ActiveObservationPrehash::new([0x5a; 32]);
    prehash.erase();
    assert!(prehash.bytes().iter().all(|byte| *byte == 0));
}

#[test]
fn command_binding_does_not_conflate_birth_and_attachment_verifiers() {
    let valid_command = command(7, 4);
    let lease_until = Timestamp::unix_epoch().plus(SECOND);
    assert!(valid_command.validate_binding(
        &ControllerBirthBinding {
            birth_id: ControllerBirthId([1; 32]),
            seat_id: SeatId::new("seat-a").expect("seat"),
            arm_id: ArmId::new("arm-a").expect("arm"),
            generation: 1,
            capability: ManagedCapability::HandleClaimedSignal,
            lease_until,
            verifier_ref: VerifierRef([99; 32]),
        },
        &PrivateNativeRef([2; 32]),
        Timestamp::unix_epoch().plus(-SECOND),
    ));

    let mut expired = command(7, 4);
    expired.attachment.lease_until = Timestamp::unix_epoch();
    assert!(!expired.validate_binding(
        &ControllerBirthBinding {
            birth_id: ControllerBirthId([1; 32]),
            seat_id: SeatId::new("seat-a").expect("seat"),
            arm_id: ArmId::new("arm-a").expect("arm"),
            generation: 1,
            capability: ManagedCapability::HandleClaimedSignal,
            lease_until,
            verifier_ref: VerifierRef([99; 32]),
        },
        &PrivateNativeRef([2; 32]),
        Timestamp::unix_epoch(),
    ));
}
