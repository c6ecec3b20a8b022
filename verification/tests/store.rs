//! The laws of the store on fixed values.

use gearwit::controller::{
    ActiveObservationPrehash, ActiveObservationProof, ManagedCapability, NativeCoordinateScope,
    NativeMutationEpoch, NativeTurnFact, PersistedTurnCorrelation, ReconciliationDisposition,
    ReconciliationScope, SecretNativeCoordinate, TerminalClass, ValidatedIdlePermit,
};
use gearwit::ident::{
    ArmId, AttemptId, ClaimRequestId, ControllerBirthId, EntropyError, PrivateNativeRef,
    RequestNonce, SeatId, SignalId, VerifierRef,
};
use gearwit::persist::{FakePersist, Persist};
use gearwit::protocol::ProviderEvent;
use gearwit::records::{
    ActiveHoldCommit, ClaimAdmission, ClaimOutcome, IdempotentWrite, NativeTurnFactCommit,
    NativeWriteEvidence, NativeWriteEvidenceCommit, PersistError, PersistedClaimRecord,
    PersistedControllerAttachment, PersistedControllerBirth, PreWriteConclusion,
    PreWriteConclusionCommit, PreparedDispatchCommit, ThreadCreateCommit, ThreadCreateReservation,
    ThreadCreateResolution, ThreadOwnershipState, ValidatedAttachmentScope,
};
use gearwit::timestamp::{Timestamp, SECOND};

const BIRTH: ControllerBirthId = ControllerBirthId([1; 32]);
const CREATE: RequestNonce = RequestNonce([2; 32]);
const ATTACHED: VerifierRef = VerifierRef([8; 32]);

fn attempt() -> AttemptId {
    AttemptId::new("attempt-a").expect("attempt")
}

fn signal() -> SignalId {
    SignalId::new("signal-a").expect("signal")
}

fn arm() -> ArmId {
    ArmId::new("arm-a").expect("arm")
}

fn seat() -> SeatId {
    SeatId::new("seat-a").expect("seat")
}

fn thread_scope() -> NativeCoordinateScope {
    NativeCoordinateScope::Thread {
        birth_id: BIRTH,
        create_attempt_id: CREATE,
    }
}

fn born() -> FakePersist {
    let mut store = FakePersist::with_key([5; 32]);
    store
        .reserve_controller_birth(
            &PersistedControllerBirth {
                birth_id: BIRTH,
                seat_id: seat(),
                arm_id: arm(),
                generation: 1,
                capability: ManagedCapability::HandleClaimedSignal,
                lease_until: Timestamp::unix_epoch(),
                verifier_ref: VerifierRef([3; 32]),
                created_at: Timestamp::unix_epoch(),
                revoked: false,
            },
            &ThreadCreateReservation {
                birth_id: BIRTH,
                create_attempt_id: CREATE,
                reserved_at: Timestamp::unix_epoch(),
            },
        )
        .expect("reserved birth");
    store
}

fn resolve(
    store: &mut FakePersist,
    resolution: ThreadCreateResolution,
) -> Result<IdempotentWrite, PersistError> {
    store.resolve_thread_create(ThreadCreateCommit {
        birth_id: BIRTH,
        create_attempt_id: CREATE,
        resolution,
        evidence_ref: VerifierRef([5; 32]),
    })
}

fn admission(request: &str, body: &str) -> ClaimAdmission {
    ClaimAdmission {
        record: PersistedClaimRecord {
            attempt_id: attempt(),
            request_id: ClaimRequestId::new(request).expect("claim"),
            arm_id: arm(),
            generation: 1,
            signal_id: signal(),
            event_refs: vec!["event-a".to_owned()],
            claimed_at: Timestamp::unix_epoch(),
        },
        events: vec![ProviderEvent {
            provider: "test".to_owned(),
            event_ref: "event-a".to_owned(),
            actor: None,
            observed_at: "1970-01-01T00:00:00Z".to_owned(),
            body: body.to_owned(),
        }],
    }
}

fn attachment(attempt_id: &str) -> PersistedControllerAttachment {
    PersistedControllerAttachment {
        attempt_id: AttemptId::new(attempt_id).expect("attempt"),
        birth_id: BIRTH,
        seat_id: seat(),
        arm_id: arm(),
        generation: 1,
        capability: ManagedCapability::HandleClaimedSignal,
        lease_until: Timestamp::unix_epoch(),
        verifier_ref: ATTACHED,
        revoked: false,
    }
}

fn prepared() -> (FakePersist, PersistedTurnCorrelation) {
    let mut store = born();
    let thread_ref = store
        .seal_native_coordinate(
            &thread_scope(),
            &SecretNativeCoordinate::thread("thread-private").expect("secret"),
        )
        .expect("sealed thread");
    resolve(&mut store, ThreadCreateResolution::Owned { thread_ref }).expect("owned");
    store
        .admit_claim(&admission("claim-a", "body"), &attachment("attempt-a"))
        .expect("admitted");
    let correlation = PersistedTurnCorrelation {
        attempt_id: attempt(),
        signal_id: signal(),
        birth_id: BIRTH,
        thread_ref,
        turn_write_id: RequestNonce([6; 32]),
        turn_ref: None,
    };
    store
        .record_dispatch_prepared(PreparedDispatchCommit { correlation })
        .expect("prepared");
    (store, correlation)
}

fn permit(correlation: &PersistedTurnCorrelation, probe: u8) -> ValidatedIdlePermit {
    ValidatedIdlePermit {
        attempt_id: correlation.attempt_id,
        signal_id: correlation.signal_id,
        birth_id: BIRTH,
        thread_ref: correlation.thread_ref,
        arm_id: arm(),
        generation: 1,
        capability: ManagedCapability::HandleClaimedSignal,
        verifier_ref: ATTACHED,
        mutation_epoch: NativeMutationEpoch {
            birth_id: BIRTH,
            sequence: 1,
        },
        probe_id: RequestNonce([probe; 32]),
        observed_at: Timestamp::unix_epoch(),
        valid_until: Timestamp::unix_epoch().plus(SECOND),
    }
}

fn reserved() -> (FakePersist, PersistedTurnCorrelation) {
    let (mut store, correlation) = prepared();
    assert!(store
        .reserve_native_turn_write(permit(&correlation, 9), &correlation)
        .is_ok());
    (store, correlation)
}

fn held(correlation: &PersistedTurnCorrelation, probe: u8) -> ActiveHoldCommit {
    ActiveHoldCommit {
        evidence: ActiveObservationProof {
            birth_id: BIRTH,
            create_attempt_id: CREATE,
            thread_ref: correlation.thread_ref,
            seat_id: seat(),
            arm_id: arm(),
            generation: 1,
            capability: ManagedCapability::HandleClaimedSignal,
            attachment_verifier_ref: ATTACHED,
            lease_until: Timestamp::unix_epoch(),
            attempt_id: correlation.attempt_id,
            signal_id: correlation.signal_id,
            probe_id: RequestNonce([probe; 32]),
            mutation_epoch: NativeMutationEpoch {
                birth_id: BIRTH,
                sequence: 7,
            },
            observed_at: Timestamp::unix_epoch().plus(-SECOND),
            prehash: ActiveObservationPrehash::new([1; 32]),
            producer_version: "codex-cli 0.152.1".to_owned(),
            producer_dialect: "thread/read-v2".to_owned(),
        },
    }
}

fn write(
    correlation: PersistedTurnCorrelation,
    evidence: NativeWriteEvidence,
) -> NativeWriteEvidenceCommit {
    NativeWriteEvidenceCommit {
        correlation,
        evidence,
        evidence_ref: VerifierRef([12; 32]),
    }
}

fn fact(correlation: PersistedTurnCorrelation, fact: NativeTurnFact) -> NativeTurnFactCommit {
    NativeTurnFactCommit {
        correlation,
        fact,
        evidence_ref: VerifierRef([12; 32]),
    }
}

#[test]
fn claims_replay_and_a_generation_is_claimed_once() {
    let mut store = born();
    let first = store
        .admit_claim(&admission("claim-a", "body"), &attachment("attempt-a"))
        .expect("admitted");
    assert_eq!(first.outcome, ClaimOutcome::Admitted);
    let again = store
        .admit_claim(&admission("claim-a", "body"), &attachment("attempt-b"))
        .expect("replayed");
    assert_eq!(again.outcome, ClaimOutcome::ExactReplay);
    assert!(again.attempt_id == first.attempt_id && again.verifier_ref == first.verifier_ref);
    assert!(
        store.admit_claim(&admission("claim-a", "other"), &attachment("attempt-a"))
            == Err(PersistError::Conflict)
    );
    assert!(
        store.admit_claim(&admission("claim-b", "body"), &attachment("attempt-b"))
            == Err(PersistError::Conflict)
    );
}

#[test]
fn definite_creation_is_final() {
    let mut store = born();
    assert_eq!(
        resolve(&mut store, ThreadCreateResolution::ProvenNotAccepted),
        Ok(IdempotentWrite::Recorded)
    );
    assert_eq!(
        resolve(&mut store, ThreadCreateResolution::ProvenNotAccepted),
        Ok(IdempotentWrite::ExactReplay)
    );
    assert_eq!(
        resolve(&mut store, ThreadCreateResolution::Unknown),
        Err(PersistError::Conflict)
    );

    let mut quarantined = born();
    resolve(&mut quarantined, ThreadCreateResolution::Unknown).expect("unknown");
    assert!(matches!(
        quarantined.thread_ownership_state(&BIRTH),
        Ok(ThreadOwnershipState::Unknown { .. })
    ));
    assert_eq!(
        resolve(&mut quarantined, ThreadCreateResolution::ProvenNotAccepted),
        Ok(IdempotentWrite::Recorded)
    );
}

#[test]
fn sealed_names_open_as_they_were() {
    let (mut store, correlation) = prepared();
    let again = store.seal_native_coordinate(
        &thread_scope(),
        &SecretNativeCoordinate::thread("thread-private").expect("secret"),
    );
    assert!(again == Ok(correlation.thread_ref));
    let opened = store
        .open_native_coordinate(&thread_scope(), &correlation.thread_ref)
        .expect("opened");
    assert_eq!(opened.as_str(), Ok("thread-private"));
    assert_eq!(
        store
            .open_native_coordinate(&thread_scope(), &PrivateNativeRef([77; 32]))
            .err(),
        Some(PersistError::Unauthorized)
    );
}

#[test]
fn first_unused_draw_decides_a_new_seal() {
    let mut store = born();
    let first = SecretNativeCoordinate::thread("thread-private").expect("secret");
    let taken = PrivateNativeRef([21; 32]);
    let sealed =
        store.seal_native_coordinate_with(&thread_scope(), &first, &vec![Ok([21; 32])]);
    assert!(sealed == Ok(taken));

    let second = SecretNativeCoordinate::thread("thread-other").expect("secret");
    for draws in [vec![], vec![Err(EntropyError)], vec![Ok([21; 32])], vec![
        Ok([21; 32]),
        Err(EntropyError),
        Ok([22; 32]),
    ]] {
        let refused = store.seal_native_coordinate_with(&thread_scope(), &second, &draws);
        assert!(refused == Err(PersistError::StorageUnavailable));
    }
    let drawn_again = store.seal_native_coordinate_with(
        &thread_scope(),
        &second,
        &vec![Ok([21; 32]), Ok([21; 32]), Ok([22; 32]), Err(EntropyError)],
    );
    assert!(drawn_again == Ok(PrivateNativeRef([22; 32])));

    let turn = SecretNativeCoordinate::turn("turn-private").expect("secret");
    let wrong = store.seal_native_coordinate_with(&thread_scope(), &turn, &vec![Ok([23; 32])]);
    assert!(wrong == Err(PersistError::Unauthorized));
}

#[test]
fn preparation_and_conclusion_are_final() {
    let (mut store, correlation) = prepared();
    assert_eq!(
        store.record_dispatch_prepared(PreparedDispatchCommit { correlation }),
        Ok(IdempotentWrite::ExactReplay)
    );
    let mut other = correlation;
    other.turn_write_id = RequestNonce([99; 32]);
    assert_eq!(
        store.record_dispatch_prepared(PreparedDispatchCommit { correlation: other }),
        Err(PersistError::Conflict)
    );
    let conclude = |conclusion| PreWriteConclusionCommit {
        attempt_id: attempt(),
        signal_id: signal(),
        conclusion,
        recorded_at: Timestamp::unix_epoch(),
    };
    let epoch = |sequence| NativeMutationEpoch {
        birth_id: BIRTH,
        sequence,
    };
    assert_eq!(
        store.record_prewrite_conclusion(conclude(PreWriteConclusion::IdleStateUnproven)),
        Ok(IdempotentWrite::Recorded)
    );
    assert_eq!(
        store.record_prewrite_conclusion(conclude(PreWriteConclusion::IdleStateUnproven)),
        Ok(IdempotentWrite::ExactReplay)
    );
    assert_eq!(
        store.record_prewrite_conclusion(conclude(PreWriteConclusion::IdleEpochInvalidated {
            probe_id: RequestNonce([9; 32]),
            expected_epoch: epoch(1),
            observed_epoch: epoch(2),
        })),
        Err(PersistError::Conflict)
    );
}

#[test]
fn probe_reserves_once_or_holds_but_never_both() {
    let (mut store, correlation) = reserved();
    assert_eq!(
        store
            .reserve_native_turn_write(permit(&correlation, 10), &correlation)
            .err(),
        Some(PersistError::Unauthorized)
    );
    assert_eq!(
        store.record_active_hold(held(&correlation, 9)),
        Err(PersistError::Conflict)
    );

    let (mut busy, correlation) = prepared();
    assert_eq!(
        busy.record_active_hold(held(&correlation, 9)),
        Ok(IdempotentWrite::Recorded)
    );
    assert_eq!(
        busy.record_active_hold(held(&correlation, 9)),
        Ok(IdempotentWrite::ExactReplay)
    );
    assert_eq!(
        busy.reserve_native_turn_write(permit(&correlation, 9), &correlation)
            .err(),
        Some(PersistError::Unauthorized)
    );
    let snapshot = busy.recover_authority_state().expect("snapshot");
    assert!(snapshot.reservations.is_empty() && snapshot.native_write_evidence.is_empty());
}

#[test]
fn write_evidence_and_reconciliation_are_final() {
    let (mut store, correlation) = reserved();
    let scope = ReconciliationScope {
        correlation,
        evidence_ref: VerifierRef([12; 32]),
    };
    assert_eq!(
        store.record_reconciliation_fact(&scope, &ReconciliationDisposition::Unknown),
        Err(PersistError::Unauthorized)
    );
    assert_eq!(
        store.record_native_write_evidence(write(correlation, NativeWriteEvidence::Unknown)),
        Ok(IdempotentWrite::Recorded)
    );
    assert_eq!(
        store.record_native_write_evidence(write(correlation, NativeWriteEvidence::Unknown)),
        Ok(IdempotentWrite::ExactReplay)
    );
    assert_eq!(
        store.record_native_write_evidence(write(
            correlation,
            NativeWriteEvidence::ProvenNotAccepted
        )),
        Err(PersistError::Conflict)
    );
    for (disposition, expected) in [
        (
            ReconciliationDisposition::Unknown,
            Ok(IdempotentWrite::Recorded),
        ),
        (
            ReconciliationDisposition::ProvenNotAccepted,
            Ok(IdempotentWrite::Recorded),
        ),
        (
            ReconciliationDisposition::ProvenNotAccepted,
            Ok(IdempotentWrite::ExactReplay),
        ),
        (
            ReconciliationDisposition::Unknown,
            Err(PersistError::Conflict),
        ),
    ] {
        assert_eq!(
            store.record_reconciliation_fact(&scope, &disposition),
            expected
        );
    }
}

#[test]
fn facts_replay_grow_and_bind_one_turn() {
    let (mut store, correlation) = reserved();
    let turn_ref = store
        .seal_native_coordinate(
            &correlation.turn_scope(),
            &SecretNativeCoordinate::turn("turn-private").expect("secret"),
        )
        .expect("sealed turn");
    let mut bound = correlation;
    bound.turn_ref = Some(turn_ref);
    let started = NativeTurnFact::Started { turn_ref };
    let ended = NativeTurnFact::Terminal {
        turn_ref,
        class: TerminalClass::Succeeded,
    };
    assert_eq!(
        store.record_native_turn_fact(fact(bound, started)),
        Ok(IdempotentWrite::Recorded)
    );
    assert_eq!(
        store.record_native_turn_fact(fact(bound, started)),
        Ok(IdempotentWrite::ExactReplay)
    );
    assert_eq!(
        store.record_native_turn_fact(fact(bound, ended)),
        Ok(IdempotentWrite::Recorded)
    );
    let other = PrivateNativeRef([66; 32]);
    let mut rebound = correlation;
    rebound.turn_ref = Some(other);
    assert_eq!(
        store.record_native_turn_fact(fact(rebound, NativeTurnFact::Started { turn_ref: other })),
        Err(PersistError::Unauthorized)
    );
    let snapshot = store.recover_authority_state().expect("snapshot");
    assert!(snapshot.native_turn_facts[0].facts == vec![started, ended]);
    assert!(snapshot.reservations[0].correlation == bound);
}

#[test]
fn recovery_marks_with_exactly_what_was_drawn() {
    let (mut store, _) = reserved();
    assert_eq!(
        store
            .recover_authority_state_with(&vec![Err(EntropyError)])
            .err(),
        Some(PersistError::StorageUnavailable)
    );
    assert_eq!(
        store.recover_authority_state_with(&Vec::new()).err(),
        Some(PersistError::StorageUnavailable)
    );
    let drawn = VerifierRef([77; 32]);
    let snapshot = store
        .recover_authority_state_with(&vec![Ok(drawn), Err(EntropyError)])
        .expect("snapshot");
    assert_eq!(snapshot.native_write_evidence.len(), 1);
    assert!(snapshot.native_write_evidence[0].evidence == NativeWriteEvidence::Unknown);
    assert!(snapshot.native_write_evidence[0].evidence_ref == drawn);
    assert!(snapshot.reservations[0].concluded);
    assert!(store
        .recover_authority_state_with(&Vec::new())
        .is_ok());
}

#[test]
fn revocation_holds() {
    let (mut store, correlation) = prepared();
    let scope = |generation| ValidatedAttachmentScope {
        attempt_id: attempt(),
        birth_id: BIRTH,
        arm_id: arm(),
        generation,
        verifier_ref: ATTACHED,
    };
    assert_eq!(
        store.revoke_controller_attachment(scope(2)),
        Err(PersistError::Unauthorized)
    );
    assert_eq!(
        store.revoke_controller_attachment(scope(1)),
        Ok(IdempotentWrite::Recorded)
    );
    assert_eq!(
        store.revoke_controller_attachment(scope(1)),
        Ok(IdempotentWrite::ExactReplay)
    );
    assert_eq!(
        store
            .reserve_native_turn_write(permit(&correlation, 9), &correlation)
            .err(),
        Some(PersistError::Unauthorized)
    );
    assert_eq!(
        store.record_active_hold(held(&correlation, 9)),
        Err(PersistError::Unauthorized)
    );
}

#[test]
fn second_recovery_finds_what_the_first_left() {
    let (mut store, correlation) = reserved();
    let first = store.recover_authority_state().expect("first");
    assert!(matches!(
        first.native_write_evidence[0].evidence,
        NativeWriteEvidence::Unknown
    ));
    assert!(first.native_write_evidence[0].correlation == correlation);
    let second = store.recover_authority_state().expect("second");
    assert!(
        first.native_write_evidence[0].evidence_ref == second.native_write_evidence[0].evidence_ref
    );
    assert_eq!(second.reservations.len(), 1);
    assert!(second.reservations[0].concluded);
    assert_eq!(first.attempt_seq, second.attempt_seq);
}
