//! Daemon authority, its coordinator and the store beneath them.

use gearwit::authority::{
    AuthorityError, AuthorizedNativeWrite, ClaimRequest, DaemonAuthority, ManagedArmRegistration,
    PreparedDispatch, ProbeAuthorization,
};
use gearwit::authority_model::{IDLE_PERMIT_WINDOW, MAX_CLAIM_EVENTS, MAX_EVENT_BODY_BYTES};
use gearwit::controller::{
    ActiveObservationPrehash, ActiveObservationProof, Controller, ControllerAttachment,
    ControllerIdleGuard, ControllerProbeError, FakeController, FakeIdleState,
    IdleProbeObservation, IdleProbeResult, IdleProbeScope, ManagedCapability,
    NativeCoordinateScope, NativeMutationEpoch, NativeTurnFact, NativeWriteDisposition,
    NativeWriteReservation, OpenedNativeCoordinate, PersistedTurnCorrelation, ProbeBinding,
    ReconciliationDisposition, ReconciliationScope, SecretNativeCoordinate, TerminalClass,
    ValidatedIdlePermit,
};
use gearwit::coordinator::{CoordinatedProbe, HostCoordinator, ReservedControllerWrite};
use gearwit::ident::{
    ArmId, AttemptId, ClaimRequestId, ControllerBirthId, PrivateNativeRef, RequestNonce, SeatId,
    SignalId, VerifierRef,
};
use gearwit::persist::{FakePersist, Persist, Sealed};
use gearwit::protocol::ProviderEvent;
use gearwit::records::{
    ActiveHoldCommit, AdmissionRecord, ClaimAdmission, ClaimOutcome, IdempotentWrite,
    NativeTurnFactCommit, NativeWriteEvidence, NativeWriteEvidenceCommit, PersistError,
    PersistedArm, PersistedClaimRecord, PersistedControllerAttachment, PersistedControllerBirth,
    PersistedThreadOwnership, PreWriteConclusion, PreWriteConclusionCommit,
    PreparedDispatchCommit, RecoverySnapshot, ReserveBirthOutcome, ThreadCreateCommit,
    ThreadCreateReservation, ThreadCreateResolution, ThreadOwnershipState,
    ValidatedAttachmentScope,
};
use gearwit::store::Store;
use gearwit::timestamp::{Timestamp, SECOND};
use std::cell::RefCell;
use std::rc::Rc;

/// Noon of 15 January 2026 in UTC.
fn now() -> Timestamp {
    Timestamp {
        nanos: 1_768_478_400 * SECOND,
    }
}

/// A handle on one store that its copies share.
#[derive(Clone)]
struct Shared(Rc<RefCell<FakePersist>>);

impl Shared {
    fn fresh() -> Shared {
        Shared(Rc::new(RefCell::new(FakePersist::fresh().expect("entropy"))))
    }
}

impl Sealed for Shared {}

impl Persist for Shared {
    fn store(&self) -> Store {
        unreachable!()
    }
    fn persist_arm(&mut self, arm: &PersistedArm) -> Result<(), PersistError> {
        self.0.borrow_mut().persist_arm(arm)
    }
    fn admit_claim(
        &mut self,
        admission: &ClaimAdmission,
        attachment: &PersistedControllerAttachment,
    ) -> Result<AdmissionRecord, PersistError> {
        self.0.borrow_mut().admit_claim(admission, attachment)
    }
    fn reserve_controller_birth(
        &mut self,
        birth: &PersistedControllerBirth,
        create: &ThreadCreateReservation,
    ) -> Result<ReserveBirthOutcome, PersistError> {
        self.0.borrow_mut().reserve_controller_birth(birth, create)
    }
    fn resolve_thread_create(
        &mut self,
        commit: ThreadCreateCommit,
    ) -> Result<IdempotentWrite, PersistError> {
        self.0.borrow_mut().resolve_thread_create(commit)
    }
    fn thread_ownership_state(
        &self,
        birth_id: &ControllerBirthId,
    ) -> Result<ThreadOwnershipState, PersistError> {
        self.0.borrow().thread_ownership_state(birth_id)
    }
    fn seal_native_coordinate(
        &mut self,
        scope: &NativeCoordinateScope,
        coordinate: &SecretNativeCoordinate,
    ) -> Result<PrivateNativeRef, PersistError> {
        self.0.borrow_mut().seal_native_coordinate(scope, coordinate)
    }
    fn open_native_coordinate(
        &self,
        scope: &NativeCoordinateScope,
        native_ref: &PrivateNativeRef,
    ) -> Result<OpenedNativeCoordinate, PersistError> {
        self.0.borrow().open_native_coordinate(scope, native_ref)
    }
    fn record_dispatch_prepared(
        &mut self,
        commit: PreparedDispatchCommit,
    ) -> Result<IdempotentWrite, PersistError> {
        self.0.borrow_mut().record_dispatch_prepared(commit)
    }
    fn record_prewrite_conclusion(
        &mut self,
        commit: PreWriteConclusionCommit,
    ) -> Result<IdempotentWrite, PersistError> {
        self.0.borrow_mut().record_prewrite_conclusion(commit)
    }
    fn record_active_hold(
        &mut self,
        commit: ActiveHoldCommit,
    ) -> Result<IdempotentWrite, PersistError> {
        self.0.borrow_mut().record_active_hold(commit)
    }
    fn reserve_native_turn_write(
        &mut self,
        idle: ValidatedIdlePermit,
        correlation: &PersistedTurnCorrelation,
    ) -> Result<NativeWriteReservation, PersistError> {
        self.0.borrow_mut().reserve_native_turn_write(idle, correlation)
    }
    fn record_native_write_evidence(
        &mut self,
        commit: NativeWriteEvidenceCommit,
    ) -> Result<IdempotentWrite, PersistError> {
        self.0.borrow_mut().record_native_write_evidence(commit)
    }
    fn record_native_turn_fact(
        &mut self,
        commit: NativeTurnFactCommit,
    ) -> Result<IdempotentWrite, PersistError> {
        self.0.borrow_mut().record_native_turn_fact(commit)
    }
    fn record_reconciliation_fact(
        &mut self,
        scope: &ReconciliationScope,
        disposition: &ReconciliationDisposition,
    ) -> Result<IdempotentWrite, PersistError> {
        self.0.borrow_mut().record_reconciliation_fact(scope, disposition)
    }
    fn revoke_controller_attachment(
        &mut self,
        scope: ValidatedAttachmentScope,
    ) -> Result<IdempotentWrite, PersistError> {
        self.0.borrow_mut().revoke_controller_attachment(scope)
    }
    fn recover_authority_state(&mut self) -> Result<RecoverySnapshot, PersistError> {
        self.0.borrow_mut().recover_authority_state()
    }
}

fn arm() -> ManagedArmRegistration {
    ManagedArmRegistration {
        arm_id: "arm-a".to_owned(),
        generation: 1,
        seat_id: "seat-a".to_owned(),
        coverage_until: now().plus(1 * 3_600 * SECOND),
    }
}

fn event() -> ProviderEvent {
    ProviderEvent {
        provider: "example".to_owned(),
        event_ref: "event-a".to_owned(),
        actor: None,
        observed_at: "2026-01-15T12:00:00Z".to_owned(),
        body: "untrusted data".to_owned(),
    }
}

fn ready() -> (DaemonAuthority<Shared>, Shared, RequestNonce) {
    ready_with(Shared::fresh())
}

fn ready_with(persist: Shared) -> (DaemonAuthority<Shared>, Shared, RequestNonce) {
    let backend = persist.clone();
    let mut authority = DaemonAuthority::new(persist, now());
    authority.register_managed_arm(arm()).expect("arm");
    let reservation = authority
        .reserve_controller_birth("arm-a")
        .expect("birth");
    let create_attempt_id = reservation.create_attempt_id;
    authority
        .resolve_thread_create(
            reservation,
            ThreadCreateResolution::Owned {
                thread_ref: PrivateNativeRef([7; 32]),
            },
        )
        .expect("owned");
    (authority, backend, create_attempt_id)
}

fn prepare(authority: &mut DaemonAuthority<Shared>) -> (PreparedDispatch, IdleProbeScope) {
    let admission = authority
        .admit_claim(&ClaimRequest {
            arm_id: "arm-a".to_owned(),
            request_id: "claim-a".to_owned(),
            signal_id: "signal-a".to_owned(),
            events: vec![event()],
        })
        .expect("admit");
    authority
        .prepare_handle_claimed_signal(admission.into_receipt().expect("receipt"))
        .expect("prepare")
}

fn reserved_disposition(
    authority: &mut DaemonAuthority<Shared>,
    backend: &mut Shared,
    disposition: NativeWriteDisposition,
) -> (PreparedDispatch, NativeWriteDisposition) {
    let (prepared, scope) = prepare(authority);
    let mut controller =
        FakeController::new(vec![FakeIdleState::Idle(1)], vec![disposition]).with_now(now());
    let probe = controller.probe_idle(scope);
    let ProbeAuthorization::Ready(authorized) = authority
        .authorize_probe(prepared, probe)
        .expect("authorize")
    else {
        panic!("ready");
    };
    let (prepared, lane, command) = (*authorized).into_parts();
    let turn_scope = command.turn_scope();
    let disposition = controller
        .write_reserved_turn(lane, command)
        .expect("controller write");
    let mut sealed_turn = || {
        backend
            .seal_native_coordinate(
                &turn_scope,
                &SecretNativeCoordinate::turn("authority-test-turn").expect("turn"),
            )
            .expect("seal accepted turn")
    };
    let disposition = match disposition {
        NativeWriteDisposition::Accepted { .. } => NativeWriteDisposition::Accepted {
            turn_ref: sealed_turn(),
        },
        NativeWriteDisposition::ExactResponse(NativeTurnFact::Accepted { .. }) => {
            NativeWriteDisposition::ExactResponse(NativeTurnFact::Accepted {
                turn_ref: sealed_turn(),
            })
        }
        NativeWriteDisposition::ExactResponse(NativeTurnFact::Started { .. }) => {
            NativeWriteDisposition::ExactResponse(NativeTurnFact::Started {
                turn_ref: sealed_turn(),
            })
        }
        NativeWriteDisposition::ExactResponse(NativeTurnFact::Terminal { class, .. }) => {
            NativeWriteDisposition::ExactResponse(NativeTurnFact::Terminal {
                turn_ref: sealed_turn(),
                class,
            })
        }
        disposition => disposition,
    };
    (prepared, disposition)
}

#[test]
fn active_and_unproven_are_zero_write_and_claim_preserving() {
    for state in [FakeIdleState::Active, FakeIdleState::Unproven] {
        let (mut authority, _, create_attempt_id) = ready();
        let (prepared, scope) = prepare(&mut authority);
        let mut controller = FakeController::new(vec![state], vec![])
            .with_now(now())
            .with_create_attempt_id(create_attempt_id);
        let result = controller.probe_idle(scope);
        let authorization = authority.authorize_probe(prepared, result).expect("record");
        assert!(matches!(
            authorization,
            ProbeAuthorization::HeldBeforeNativeWrite | ProbeAuthorization::IdleStateUnproven
        ));
        assert_eq!(controller.native_bytes(), 0);
        assert!(
            authority.inspect_persist().0.borrow().prewrite_conclusion("attempt-1")
                .is_some()
        );
    }
}

#[test]
fn invalid_active_proof_records_no_conclusion() {
    let (mut authority, _, create_attempt_id) = ready();
    let (prepared, scope) = prepare(&mut authority);
    let mut controller = FakeController::new(vec![FakeIdleState::Active], vec![])
        .with_now(now())
        .with_create_attempt_id(create_attempt_id);
    let Ok(IdleProbeResult::Active(mut proof)) = controller.probe_idle(scope) else {
        panic!("active proof");
    };
    proof.producer_dialect = "unqualified-dialect".to_owned();
    assert_eq!(authority
            .authorize_probe(prepared, Ok(IdleProbeResult::Active(proof))).err().expect("invalid proof"), AuthorityError::Unauthorized);
    assert!(
        authority.inspect_persist().0.borrow().prewrite_conclusion("attempt-1")
            .is_none()
    );
    assert_eq!(controller.native_bytes(), 0);
}

#[test]
fn active_evidence_storage_failure_records_no_conclusion() {
    let persist = Shared::fresh();
    persist.0.borrow_mut().fail_next_active_hold();
    let (mut authority, _, create_attempt_id) = ready_with(persist);
    let (prepared, scope) = prepare(&mut authority);
    let mut controller = FakeController::new(vec![FakeIdleState::Active], vec![])
        .with_now(now())
        .with_create_attempt_id(create_attempt_id);
    let proof = controller.probe_idle(scope);
    assert_eq!(authority
            .authorize_probe(prepared, proof).err().expect("storage failure"), AuthorityError::Storage);
    assert!(
        authority.inspect_persist().0.borrow().prewrite_conclusion("attempt-1")
            .is_none()
    );
    assert_eq!(controller.native_bytes(), 0);
}

fn active_fixture() -> (
    DaemonAuthority<Shared>,
    PreparedDispatch,
    ActiveObservationProof,
) {
    let (mut authority, _, create_attempt_id) = ready();
    let (prepared, scope) = prepare(&mut authority);
    let mut controller = FakeController::new(vec![FakeIdleState::Active], vec![])
        .with_now(now())
        .with_create_attempt_id(create_attempt_id);
    let Ok(IdleProbeResult::Active(proof)) = controller.probe_idle(scope) else {
        panic!("active proof");
    };
    (authority, prepared, proof)
}

#[test]
fn active_proof_field_substitutions_fail_without_conclusion() {
    for field in 0..14 {
        let (mut authority, prepared, mut proof) = active_fixture();
        match field {
            0 => proof.birth_id = ControllerBirthId([90; 32]),
            1 => proof.create_attempt_id = RequestNonce([90; 32]),
            2 => proof.thread_ref = PrivateNativeRef([90; 32]),
            3 => proof.attempt_id = AttemptId::new("attempt-other").expect("attempt"),
            4 => proof.signal_id = SignalId::new("signal-other").expect("signal"),
            5 => proof.probe_id = RequestNonce([90; 32]),
            6 => proof.mutation_epoch.birth_id = ControllerBirthId([90; 32]),
            7 => proof.producer_version = "codex-cli 0.152.2".to_owned(),
            8 => proof.producer_dialect = "thread/read-v3".to_owned(),
            9 => proof.seat_id = SeatId::new("seat-other").expect("seat"),
            10 => proof.arm_id = ArmId::new("arm-other").expect("arm"),
            11 => proof.generation = 2,
            12 => proof.attachment_verifier_ref = VerifierRef([90; 32]),
            13 => proof.lease_until = now().plus(30 * 60 * SECOND),
            _ => unreachable!(),
        }
        assert_eq!(authority
                .authorize_probe(prepared, Ok(IdleProbeResult::Active(proof))).err().expect("substituted proof"), AuthorityError::Unauthorized);
        assert!(
            authority.inspect_persist().0.borrow().prewrite_conclusion("attempt-1")
                .is_none()
        );
    }
}

#[test]
fn current_attachment_revocation_and_expiry_fence_idle_and_unproven() {
    for state in [FakeIdleState::Idle(1), FakeIdleState::Unproven] {
        let (mut authority, _, _) = ready();
        let (prepared, scope) = prepare(&mut authority);
        let attempt_id = prepared.correlation.attempt_id.as_str().to_owned();
        let mut controller = FakeController::new(vec![state], vec![]).with_now(now());
        let probe = controller.probe_idle(scope);
        authority
            .revoke_attachment(&attempt_id)
            .expect("revoke current attachment");
        assert_eq!(authority
                .authorize_probe(prepared, probe).err().expect("revoked binding"), AuthorityError::Unauthorized);
        assert!(
            authority.inspect_persist().0.borrow().prewrite_conclusion("attempt-1")
                .is_none()
        );
    }
    for state in [FakeIdleState::Idle(1), FakeIdleState::Unproven] {
        let (mut authority, _, _) = ready();
        let (prepared, scope) = prepare(&mut authority);
        let mut controller = FakeController::new(vec![state], vec![]).with_now(now());
        let probe = controller.probe_idle(scope);
        authority.set_now(now().plus(2 * 3_600 * SECOND));
        assert_eq!(authority
                .authorize_probe(prepared, probe).err().expect("expired binding"), AuthorityError::Unauthorized);
        assert!(
            authority.inspect_persist().0.borrow().prewrite_conclusion("attempt-1")
                .is_none()
        );
    }
    let (mut authority, prepared, proof) = active_fixture();
    authority
        .revoke_attachment(prepared.correlation.attempt_id.as_str())
        .expect("revoke active attachment");
    assert_eq!(authority
            .authorize_probe(prepared, Ok(IdleProbeResult::Active(proof))).err().expect("revoked active binding"), AuthorityError::Unauthorized);

    let (mut authority, prepared, proof) = active_fixture();
    authority.set_now(now().plus(2 * 3_600 * SECOND));
    assert_eq!(authority
            .authorize_probe(prepared, Ok(IdleProbeResult::Active(proof))).err().expect("expired active binding"), AuthorityError::Unauthorized);
}

#[test]
fn controller_probe_rejection_cannot_be_persisted_as_unproven() {
    let (mut authority, _, _) = ready();
    let (prepared, _scope) = prepare(&mut authority);
    assert_eq!(authority
            .authorize_probe(prepared, Err(ControllerProbeError::BindingRejected)).err().expect("controller rejected binding"), AuthorityError::ControllerProbe(ControllerProbeError::BindingRejected));
    assert!(
        authority.inspect_persist().0.borrow().prewrite_conclusion("attempt-1")
            .is_none()
    );
}

#[test]
fn intervening_epoch_invalidates_without_native_bytes() {
    let (mut authority, mut backend, _) = ready();
    let (prepared, scope) = prepare(&mut authority);
    let mut controller =
        FakeController::new(vec![FakeIdleState::Idle(3)], vec![]).with_now(now());
    let probe = controller.probe_idle(scope);
    let ProbeAuthorization::Ready(authorized) = authority
        .authorize_probe(prepared, probe)
        .expect("authorize")
    else {
        panic!("ready");
    };
    controller.invalidate_epoch();
    let AuthorizedNativeWrite {
        prepared,
        lane,
        command,
    } = *authorized;
    let disposition = controller
        .write_reserved_turn(lane, command)
        .expect("controller write");
    assert!(matches!(
        disposition,
        NativeWriteDisposition::IdleEpochInvalidated { .. }
    ));
    authority
        .conclude_native_write(prepared, Ok(disposition.clone()))
        .expect("conclude");
    backend
        .record_prewrite_conclusion(PreWriteConclusionCommit {
            attempt_id: AttemptId::new("attempt-1").expect("attempt"),
            signal_id: SignalId::new("signal-a").expect("signal"),
            conclusion: match disposition {
                NativeWriteDisposition::IdleEpochInvalidated {
                    probe_id,
                    expected_epoch,
                    observed_epoch,
                } => PreWriteConclusion::IdleEpochInvalidated {
                    probe_id,
                    expected_epoch,
                    observed_epoch,
                },
                _ => unreachable!(),
            },
            recorded_at: now(),
        })
        .expect("idempotent replay");
    assert_eq!(controller.native_bytes(), 0);
    assert!(
        authority.inspect_persist().0.borrow().reservation_concluded("attempt-1")
    );
}

#[test]
fn stale_probe_cannot_mint_a_reservation() {
    let (mut authority, backend, create_attempt_id) = ready();
    let (prepared, scope) = prepare(&mut authority);
    let mut controller =
        FakeController::new(vec![FakeIdleState::Idle(1)], vec![]).with_now(now());
    let probe = controller.probe_idle(scope);
    authority.set_now(now().plus(IDLE_PERMIT_WINDOW));
    assert_eq!(authority
            .authorize_probe(prepared, probe).err().expect("stale"), AuthorityError::Unauthorized);
    assert_eq!(controller.native_bytes(), 0);
}

#[test]
fn cross_attempt_probe_binding_is_rejected() {
    let (mut authority, mut backend, create_attempt_id) = ready();
    let (prepared, _) = prepare(&mut authority);
    let epoch = NativeMutationEpoch {
        birth_id: prepared.correlation.birth_id.clone(),
        sequence: 1,
    };
    let probe_id = prepared.expected_probe_id.clone();
    let result = IdleProbeResult::Idle {
        observation: IdleProbeObservation::Idle {
            binding: ProbeBinding {
                attachment: ControllerAttachment {
                    attempt_id: AttemptId::new("attempt-other").expect("attempt"),
                    birth_id: prepared.attachment.birth_id.clone(),
                    arm_id: prepared.attachment.arm_id.clone(),
                    generation: prepared.attachment.generation,
                    seat_id: prepared.attachment.seat_id.clone(),
                    capability: prepared.attachment.capability,
                    lease_until: prepared.attachment.lease_until,
                    verifier_ref: prepared.attachment.verifier_ref.clone(),
                },
                signal_id: prepared.correlation.signal_id.clone(),
                thread_ref: prepared.correlation.thread_ref.clone(),
                challenge_id: probe_id.clone(),
            },
            probe_id: probe_id.clone(),
            epoch: epoch.clone(),
            observed_at: now(),
        },
        lane: ControllerIdleGuard { probe_id, epoch },
    };
    assert_eq!(authority
            .authorize_probe(prepared, Ok(result)).err().expect("cross-attempt probe"), AuthorityError::Unauthorized);
}

#[test]
fn claim_payload_bounds_fail_before_admission() {
    let (mut authority, mut backend, create_attempt_id) = ready();
    let request = |events| ClaimRequest {
        arm_id: "arm-a".to_owned(),
        request_id: "claim-a".to_owned(),
        signal_id: "signal-a".to_owned(),
        events,
    };

    assert_eq!(authority
            .admit_claim(&request(vec![event(); MAX_CLAIM_EVENTS + 1])).err().expect("event count"), AuthorityError::Conflict);

    let mut oversized = event();
    oversized.body = "x".repeat(MAX_EVENT_BODY_BYTES + 1);
    assert_eq!(authority
            .admit_claim(&request(vec![oversized])).err().expect("body bound"), AuthorityError::InvalidIdentifier);

    assert_eq!(authority
            .admit_claim(&request(vec![event(), event()])).err().expect("duplicate event ref"), AuthorityError::InvalidIdentifier);

    let aggregate = (0..33)
        .map(|index| {
            let mut item = event();
            item.event_ref = format!("event-{index}");
            item.body = "x".repeat(MAX_EVENT_BODY_BYTES);
            item
        })
        .collect();
    assert_eq!(authority
            .admit_claim(&request(aggregate)).err().expect("aggregate bound"), AuthorityError::Conflict);

    let mut older = event();
    older.event_ref = "event-b".to_owned();
    older.observed_at = "2026-01-15T11:59:59Z".to_owned();
    assert_eq!(authority
            .admit_claim(&request(vec![event(), older])).err().expect("oldest first"), AuthorityError::Conflict);
}

#[test]
fn claim_replay_ignores_server_time_but_generation_stays_occupied() {
    let (mut authority, mut backend, create_attempt_id) = ready();
    let request = ClaimRequest {
        arm_id: "arm-a".to_owned(),
        request_id: "claim-a".to_owned(),
        signal_id: "signal-a".to_owned(),
        events: vec![event()],
    };
    authority.admit_claim(&request).expect("admit");
    authority.set_now(now().plus(1 * SECOND));
    let replay = authority.admit_claim(&request).expect("exact replay");
    assert_eq!(replay.outcome, ClaimOutcome::ExactReplay);

    let different = ClaimRequest {
        request_id: "claim-b".to_owned(),
        signal_id: "signal-b".to_owned(),
        ..request
    };
    assert_eq!(authority
            .admit_claim(&different).err().expect("occupied generation"), AuthorityError::Conflict);
}

#[test]
fn replayed_idle_permit_is_rejected() {
    let (mut authority, mut backend, _) = ready();
    let (prepared, _scope) = prepare(&mut authority);
    let epoch = NativeMutationEpoch {
        birth_id: prepared.correlation.birth_id.clone(),
        sequence: 1,
    };
    let probe_id = RequestNonce([44; 32]);
    let permit = || ValidatedIdlePermit {
        attempt_id: prepared.correlation.attempt_id.clone(),
        signal_id: prepared.correlation.signal_id.clone(),
        birth_id: prepared.correlation.birth_id.clone(),
        thread_ref: prepared.correlation.thread_ref.clone(),
        arm_id: prepared.attachment.arm_id.clone(),
        generation: prepared.attachment.generation,
        capability: prepared.attachment.capability,
        verifier_ref: prepared.attachment.verifier_ref.clone(),
        mutation_epoch: epoch.clone(),
        probe_id: probe_id.clone(),
        observed_at: now(),
        valid_until: now().plus(5 * SECOND),
    };
    backend
        .reserve_native_turn_write(permit(), &prepared.correlation)
        .expect("first reservation");
    assert!(matches!(
        backend
        .reserve_native_turn_write(permit(), &prepared.correlation),
        Err(PersistError::Unauthorized)
    ));
}

#[test]
fn unknown_create_quarantines_the_only_birth() {
    let mut authority = DaemonAuthority::new(Shared::fresh(), now());
    authority.register_managed_arm(arm()).expect("arm");
    let reservation = authority.reserve_controller_birth("arm-a").expect("birth");
    authority
        .resolve_thread_create(reservation, ThreadCreateResolution::Unknown)
        .expect("unknown");
    assert_eq!(authority
            .reserve_controller_birth("arm-a").err().expect("must not reserve a replacement create"), AuthorityError::Conflict);
    assert_eq!(authority
            .admit_claim(&ClaimRequest {
                arm_id: "arm-a".to_owned(),
                request_id: "claim-a".to_owned(),
                signal_id: "signal-a".to_owned(),
                events: vec![event()],
            }).err().expect("unknown ownership cannot dispatch"), AuthorityError::NoOwnedController);
}

#[test]
fn recovery_never_remints_a_reserved_command() {
    let (mut authority, backend, _) = ready();
    let (prepared, scope) = prepare(&mut authority);
    let mut controller =
        FakeController::new(vec![FakeIdleState::Idle(1)], vec![]).with_now(now());
    let probe = controller.probe_idle(scope);
    let ProbeAuthorization::Ready(_unresolved) =
        authority.authorize_probe(prepared, probe).expect("reserve")
    else {
        panic!("ready");
    };
        let mut restarted = DaemonAuthority::new(backend, now());
    let recovered = restarted.recover().expect("recover");
    assert_eq!(recovered.snapshot.reservations.len(), 1);
    assert_eq!(recovered.snapshot.claims.len(), 1);
    assert!(
        recovered
            .snapshot
            .reservations
            .iter()
            .all(|item| item.concluded)
    );
    let (observing, reconciling) = recovered.into_followup_scopes();
    assert!(observing.is_empty());
    assert_eq!(reconciling.len(), 1);
}

#[test]
fn reference_free_bound_observations_persist_after_acceptance() {
    let (mut authority, mut backend, _) = ready();
    let turn_ref = PrivateNativeRef([70; 32]);
    let (prepared, disposition) = reserved_disposition(
        &mut authority,
        &mut backend,
        NativeWriteDisposition::Accepted {
            turn_ref: turn_ref.clone(),
        },
    );
    let scope = authority
        .conclude_native_write(prepared, Ok(disposition))
        .expect("accepted")
        .into_observation_scope()
        .expect("observation scope");
    for fact in [
        NativeTurnFact::ControllerLost,
        NativeTurnFact::DegradedTerminalObservation,
        NativeTurnFact::Unknown,
    ] {
        authority
            .record_exact_observation(&scope, fact)
            .expect("bounded fact");
    }
}

#[test]
fn interrupted_fact_persistence_recovers_exact_or_unknown_without_rewrite() {
    let terminal_ref = PrivateNativeRef([71; 32]);
    let (mut terminal_authority, mut terminal_backend, _) = ready();
    let (prepared, disposition) = reserved_disposition(
        &mut terminal_authority,
        &mut terminal_backend,
        NativeWriteDisposition::ExactResponse(NativeTurnFact::Terminal {
            turn_ref: terminal_ref,
            class: TerminalClass::Succeeded,
        }),
    );
    terminal_backend.0.borrow_mut().fail_next_turn_fact();
    assert_eq!(terminal_authority
            .conclude_native_write(prepared, Ok(disposition)).err().expect("fact persist failure"), AuthorityError::Storage);
    let mut restarted = DaemonAuthority::new(terminal_backend.clone(), now());
    let recovery = restarted.recover().expect("recover exact response");
    assert!(matches!(
        recovery.snapshot.native_turn_facts[0].facts.as_slice(),
        [NativeTurnFact::Terminal { .. }]
    ));
    let (observing, reconciling) = recovery.into_followup_scopes();
    assert!(observing.is_empty());
    assert!(reconciling.is_empty());

    let accepted_ref = PrivateNativeRef([72; 32]);
    let (mut accepted_authority, mut accepted_backend, _) = ready();
    let (prepared, disposition) = reserved_disposition(
        &mut accepted_authority,
        &mut accepted_backend,
        NativeWriteDisposition::Accepted {
            turn_ref: accepted_ref,
        },
    );
    accepted_backend.0.borrow_mut().fail_next_turn_fact();
    assert_eq!(accepted_authority
            .conclude_native_write(prepared, Ok(disposition)).err().expect("accepted fact persist failure"), AuthorityError::Storage);
    let mut restarted = DaemonAuthority::new(accepted_backend.clone(), now());
    let recovery = restarted.recover().expect("recover writer accepted");
    assert!(matches!(
        recovery.snapshot.native_write_evidence[0].evidence,
        NativeWriteEvidence::Unknown
    ));
    let (observing, reconciling) = recovery.into_followup_scopes();
    assert!(observing.is_empty());
    assert_eq!(reconciling.len(), 1);
}

fn coordinator() -> HostCoordinator<Shared> {
    let mut authority = DaemonAuthority::new(Shared::fresh(), now());
    authority
        .register_managed_arm(ManagedArmRegistration {
            arm_id: "arm-a".to_owned(),
            generation: 1,
            seat_id: "seat-a".to_owned(),
            coverage_until: now().plus(1 * 3_600 * SECOND),
        })
        .expect("arm");
    let birth = authority.reserve_controller_birth("arm-a").expect("birth");
    authority
        .resolve_thread_create(
            birth,
            ThreadCreateResolution::Owned {
                thread_ref: PrivateNativeRef([7; 32]),
            },
        )
        .expect("owned");
    HostCoordinator::new(authority)
}

fn claim_request() -> ClaimRequest {
    ClaimRequest {
        arm_id: "arm-a".to_owned(),
        request_id: "claim-a".to_owned(),
        signal_id: "signal-a".to_owned(),
        events: vec![ProviderEvent {
            provider: "example".to_owned(),
            event_ref: "event-a".to_owned(),
            actor: None,
            observed_at: "2026-01-15T12:00:00Z".to_owned(),
            body: "untrusted".to_owned(),
        }],
    }
}

fn recovered_unknown() -> HostCoordinator<Shared> {
    let mut coordinator = coordinator();
    let admission = coordinator.admit_claim(&claim_request()).expect("admit");
    let scope = coordinator
        .prepare(admission.into_receipt().expect("receipt"))
        .expect("prepare");
    let mut controller = FakeController::new(
        vec![FakeIdleState::Idle(1)],
        vec![NativeWriteDisposition::Unknown],
    )
    .with_now(now());
    let probe = controller.probe_idle(scope);
    let CoordinatedProbe::Ready(write) = coordinator.authorize_probe(probe).expect("authorize")
    else {
        panic!("ready");
    };
    let ReservedControllerWrite { lane, command } = *write;
    let disposition = controller.write_reserved_turn(lane, command);
    coordinator
        .conclude_native_write(disposition)
        .expect("unknown");
    let backend = coordinator.authority_mut().inspect_persist().clone();
    HostCoordinator::recover(DaemonAuthority::new(backend, now())).expect("recover")
}

fn unknown_scope(coordinator: &mut HostCoordinator<Shared>) -> NativeCoordinateScope {
    let mut backend = coordinator.authority_mut().inspect_persist().clone();
    let snapshot = backend.recover_authority_state().expect("snapshot");
    snapshot.native_write_evidence[0].correlation.turn_scope()
}

fn durable_conclusion_counts(
    coordinator: &mut HostCoordinator<Shared>,
) -> (usize, usize, usize) {
    let mut backend = coordinator.authority_mut().inspect_persist().clone();
    let snapshot = backend.recover_authority_state().expect("snapshot");
    (
        snapshot.native_write_evidence.len(),
        snapshot.native_turn_facts.len(),
        snapshot.reconciliations.len(),
    )
}

#[test]
fn one_idle_probe_reserves_and_writes_one_fixed_turn() {
    let mut coordinator = coordinator();
    let admission = coordinator.admit_claim(&claim_request()).expect("admit");
    let scope = coordinator
        .prepare(admission.into_receipt().expect("receipt"))
        .expect("prepare");
    let mut controller = FakeController::new(
        vec![FakeIdleState::Idle(4)],
        vec![NativeWriteDisposition::Accepted {
            turn_ref: PrivateNativeRef([8; 32]),
        }],
    )
    .with_now(now());
    let probe = controller.probe_idle(scope);
    let CoordinatedProbe::Ready(write) = coordinator.authorize_probe(probe).expect("authorize")
    else {
        panic!("ready");
    };
    let ReservedControllerWrite { lane, command } = *write;
    let turn_scope = command.turn_scope();
    let mut backend = coordinator.authority_mut().inspect_persist().clone();
    let turn = backend
        .seal_native_coordinate(
            &turn_scope,
            &SecretNativeCoordinate::turn("coordinator-turn").expect("turn"),
        )
        .expect("seal turn");
    let _ = controller.write_reserved_turn(lane, command);
    let disposition = NativeWriteDisposition::Accepted {
        turn_ref: turn.clone(),
    };
    controller = controller.with_observations(vec![Some(NativeTurnFact::Started {
        turn_ref: turn.clone(),
    })]);
    assert!(controller.native_bytes() > 0);
    coordinator
        .conclude_native_write(Ok(disposition))
        .expect("conclude");
    assert!(coordinator.has_pending_native_authority());
    assert_eq!(
        coordinator
            .poll_and_record_exact(&mut controller)
            .expect("poll and persist"),
        Some(IdempotentWrite::Recorded)
    );
    let backend = coordinator.authority_mut().inspect_persist().clone();
    let mut recovered = HostCoordinator::recover(DaemonAuthority::new(backend, now()))
        .expect("recover observation");
    assert!(recovered.has_pending_native_authority());
    let mut terminal = FakeController::new(vec![], vec![]).with_observations(vec![Some(
        NativeTurnFact::Terminal {
            turn_ref: turn,
            class: TerminalClass::Succeeded,
        },
    )]);
    recovered
        .poll_and_record_exact(&mut terminal)
        .expect("persist terminal");
    assert!(!recovered.has_pending_native_authority());

    let backend = recovered.authority_mut().inspect_persist().clone();
    let closed = HostCoordinator::recover(DaemonAuthority::new(backend, now()))
        .expect("recover terminal");
    assert!(!closed.has_pending_native_authority());
}

#[test]
fn unknown_write_recovers_only_as_metadata_and_is_never_resent() {
    let mut recovered = recovered_unknown();
    assert!(recovered.has_pending_native_authority());
    let turn_scope = unknown_scope(&mut recovered);
    let mut backend = recovered.authority_mut().inspect_persist().clone();
    let turn_ref = backend
        .seal_native_coordinate(
            &turn_scope,
            &SecretNativeCoordinate::turn("reconciled-turn").expect("turn"),
        )
        .expect("seal reconciled turn");
    let mut reconciler = FakeController::new(vec![], vec![])
        .with_reconciliation(ReconciliationDisposition::Accepted {
            turn_ref: turn_ref.clone(),
        })
        .with_observations(vec![Some(NativeTurnFact::Started {
            turn_ref: turn_ref.clone(),
        })]);
    assert_eq!(
        recovered
            .reconcile_and_record(&mut reconciler)
            .expect("reconcile and persist"),
        IdempotentWrite::Recorded
    );
    assert!(recovered.has_pending_native_authority());
    recovered
        .poll_and_record_exact(&mut reconciler)
        .expect("persist reconciled start");
    assert!(recovered.has_pending_native_authority());

    let backend = recovered.authority_mut().inspect_persist().clone();
    let restarted = HostCoordinator::recover(DaemonAuthority::new(backend, now()))
        .expect("recover reconciliation");
    assert!(restarted.has_pending_native_authority());
}

#[test]
fn uncertain_observations_enter_reconciliation() {
    for fact in [
        NativeTurnFact::DegradedTerminalObservation,
        NativeTurnFact::Unknown,
        NativeTurnFact::ControllerLost,
    ] {
        let mut coordinator = coordinator();
        let admission = coordinator.admit_claim(&claim_request()).expect("admit");
        let scope = coordinator
            .prepare(admission.into_receipt().expect("receipt"))
            .expect("prepare");
        let mut controller = FakeController::new(
            vec![FakeIdleState::Idle(4)],
            vec![NativeWriteDisposition::Accepted {
                turn_ref: PrivateNativeRef([8; 32]),
            }],
        )
        .with_now(now());
        let probe = controller.probe_idle(scope);
        let CoordinatedProbe::Ready(write) =
            coordinator.authorize_probe(probe).expect("authorize")
        else {
            panic!("ready");
        };
        let ReservedControllerWrite { lane, command } = *write;
        let turn_scope = command.turn_scope();
        let mut backend = coordinator.authority_mut().inspect_persist().clone();
        let turn = backend
            .seal_native_coordinate(
                &turn_scope,
                &SecretNativeCoordinate::turn("uncertain-turn").expect("turn"),
            )
            .expect("seal turn");
        let _ = controller.write_reserved_turn(lane, command);
        coordinator
            .conclude_native_write(Ok(NativeWriteDisposition::Accepted { turn_ref: turn }))
            .expect("conclude");
        controller = controller.with_observations(vec![Some(fact)]);
        assert_eq!(
            coordinator
                .poll_and_record_exact(&mut controller)
                .expect("record uncertain observation"),
            Some(IdempotentWrite::Recorded)
        );
        let mut reconciler = FakeController::new(vec![], vec![])
            .with_reconciliation(ReconciliationDisposition::Unknown);
        assert_eq!(
            coordinator
                .reconcile_and_record(&mut reconciler)
                .expect("reconciliation scope"),
            IdempotentWrite::Recorded
        );
        assert!(coordinator.has_pending_native_authority());
    }
}

#[test]
fn proven_prewrite_rejection_never_opens_reconciliation() {
    let mut coordinator = coordinator();
    let admission = coordinator.admit_claim(&claim_request()).expect("admit");
    let scope = coordinator
        .prepare(admission.into_receipt().expect("receipt"))
        .expect("prepare");
    let mut controller =
        FakeController::new(vec![FakeIdleState::Idle(1)], vec![]).with_now(now());
    let probe = controller.probe_idle(scope);
    let CoordinatedProbe::Ready(_) = coordinator.authorize_probe(probe).expect("authorize")
    else {
        panic!("ready");
    };
    coordinator
        .conclude_native_write(Ok(NativeWriteDisposition::ProvenNotAccepted))
        .expect("conclude prewrite rejection");
    assert!(!coordinator.has_pending_native_authority());
}

#[test]
fn controller_write_binding_rejection_records_no_conclusion() {
    let mut coordinator = coordinator();
    let admission = coordinator.admit_claim(&claim_request()).expect("admit");
    let scope = coordinator
        .prepare(admission.into_receipt().expect("receipt"))
        .expect("prepare");
    let mut controller = FakeController::new(
        vec![FakeIdleState::Idle(1)],
        vec![NativeWriteDisposition::ProvenNotAccepted],
    )
    .with_now(now())
    .with_write_binding_rejection();
    let probe = controller.probe_idle(scope);
    let CoordinatedProbe::Ready(write) = coordinator.authorize_probe(probe).expect("authorize")
    else {
        panic!("ready");
    };
    let before = durable_conclusion_counts(&mut coordinator);
    let ReservedControllerWrite { lane, command } = *write;
    let result = controller.write_reserved_turn(lane, command);
    assert_eq!(controller.native_bytes(), 0);
    assert_eq!(
        coordinator.conclude_native_write(result),
        Err(AuthorityError::Unauthorized)
    );
    assert_eq!(durable_conclusion_counts(&mut coordinator), before);
    assert!(!coordinator.has_pending_native_authority());
}

#[test]
fn controller_reconciliation_binding_rejection_records_no_conclusion() {
    let mut coordinator = recovered_unknown();
    let before = durable_conclusion_counts(&mut coordinator);
    let mut wrong_controller =
        FakeController::new(vec![], vec![]).with_reconciliation_binding_rejection();

    assert_eq!(
        coordinator.reconcile_and_record(&mut wrong_controller),
        Err(AuthorityError::Unauthorized)
    );
    assert_eq!(wrong_controller.native_bytes(), 0);
    assert_eq!(durable_conclusion_counts(&mut coordinator), before);
    assert!(coordinator.has_pending_native_authority());
}

#[test]
fn reconciliation_closed_outcomes_do_not_reopen_after_restart() {
    for terminal in [false, true] {
        let mut recovered = recovered_unknown();
        let disposition = if terminal {
            let turn_scope = unknown_scope(&mut recovered);
            let mut backend = recovered.authority_mut().inspect_persist().clone();
            ReconciliationDisposition::Terminal {
                turn_ref: backend
                    .seal_native_coordinate(
                        &turn_scope,
                        &SecretNativeCoordinate::turn("terminal-turn").expect("turn"),
                    )
                    .expect("seal terminal turn"),
                class: TerminalClass::Failed,
            }
        } else {
            ReconciliationDisposition::ProvenNotAccepted
        };
        let mut reconciler =
            FakeController::new(vec![], vec![]).with_reconciliation(disposition.clone());
        recovered
            .reconcile_and_record(&mut reconciler)
            .expect("persist closed reconciliation");
        assert!(!recovered.has_pending_native_authority());
        let backend = recovered.authority_mut().inspect_persist().clone();
        if matches!(disposition, ReconciliationDisposition::Terminal { .. }) {
            let mut inspection = DaemonAuthority::new(backend.clone(), now());
            let recovery = inspection.recover().expect("inspect terminal facts");
            assert!(matches!(
                recovery.snapshot.native_turn_facts[0].facts.as_slice(),
                [NativeTurnFact::Terminal { .. }]
            ));
        }
        let restarted = HostCoordinator::recover(DaemonAuthority::new(backend, now()))
            .expect("recover closed reconciliation");
        assert!(!restarted.has_pending_native_authority());
    }

    let mut recovered = recovered_unknown();
    let mut unresolved = FakeController::new(vec![], vec![])
        .with_reconciliation(ReconciliationDisposition::Unknown);
    recovered
        .reconcile_and_record(&mut unresolved)
        .expect("persist unknown reconciliation");
    let backend = recovered.authority_mut().inspect_persist().clone();
    let restarted = HostCoordinator::recover(DaemonAuthority::new(backend, now()))
        .expect("recover unknown reconciliation");
    assert!(restarted.has_pending_native_authority());
}

fn birth() -> (PersistedControllerBirth, ThreadCreateReservation) {
    let birth_id = ControllerBirthId([1; 32]);
    (
        PersistedControllerBirth {
            birth_id: birth_id.clone(),
            seat_id: SeatId::new("seat-a").expect("seat"),
            arm_id: ArmId::new("arm-a").expect("arm"),
            generation: 1,
            capability: ManagedCapability::HandleClaimedSignal,
            lease_until: Timestamp::unix_epoch(),
            verifier_ref: VerifierRef([3; 32]),
            created_at: Timestamp::unix_epoch(),
            revoked: false,
        },
        ThreadCreateReservation {
            birth_id,
            create_attempt_id: RequestNonce([2; 32]),
            reserved_at: Timestamp::unix_epoch(),
        },
    )
}

#[test]
fn controller_birth_replay_and_conflict_are_exact() {
    let mut store = FakePersist::fresh().expect("entropy");
    let (birth, create) = birth();
    assert_eq!(
        store.reserve_controller_birth(&birth, &create),
        Ok(ReserveBirthOutcome::Reserved)
    );
    assert_eq!(
        store.reserve_controller_birth(&birth, &create),
        Ok(ReserveBirthOutcome::ExactReplay)
    );
    let mut changed = create;
    changed.create_attempt_id = RequestNonce([3; 32]);
    assert_eq!(
        store.reserve_controller_birth(&birth, &changed),
        Ok(ReserveBirthOutcome::Conflict)
    );
}

#[test]
fn shared_fake_handles_observe_one_store() {
    let mut writer = Shared::fresh();
    let reader = writer.clone();
    let (birth, create) = birth();
    writer
        .reserve_controller_birth(&birth, &create)
        .expect("reserve birth");
    assert!(reader
            .thread_ownership_state(&birth.birth_id)
            .expect("shared ownership") == ThreadOwnershipState::Reserved {
            create_attempt_id: create.create_attempt_id,
        });
}

#[test]
fn recovery_quarantines_an_unresolved_create_reservation() {
    let mut store = FakePersist::fresh().expect("entropy");
    let (birth, create) = birth();
    store
        .reserve_controller_birth(&birth, &create)
        .expect("reserve birth");
    let snapshot = store.recover_authority_state().expect("recover");
    assert!(matches!(
        snapshot.ownership.as_slice(),
        [PersistedThreadOwnership {
            state: ThreadOwnershipState::Unknown { create_attempt_id },
            ..
        }] if create_attempt_id == &create.create_attempt_id
    ));
}

#[test]
fn unknown_create_cannot_be_replaced_by_another_attempt() {
    let mut store = FakePersist::fresh().expect("entropy");
    let (birth, create) = birth();
    store
        .reserve_controller_birth(&birth, &create)
        .expect("reserve");
    store
        .resolve_thread_create(ThreadCreateCommit {
            birth_id: birth.birth_id.clone(),
            create_attempt_id: create.create_attempt_id.clone(),
            resolution: ThreadCreateResolution::Unknown,
            evidence_ref: VerifierRef([4; 32]),
        })
        .expect("unknown");
    let conflict = store.resolve_thread_create(ThreadCreateCommit {
        birth_id: birth.birth_id,
        create_attempt_id: RequestNonce([9; 32]),
        resolution: ThreadCreateResolution::Owned {
            thread_ref: PrivateNativeRef([8; 32]),
        },
        evidence_ref: VerifierRef([5; 32]),
    });
    assert_eq!(conflict, Err(PersistError::Conflict));
}

fn coordinate_store() -> (
    FakePersist,
    ControllerBirthId,
    RequestNonce,
    PersistedTurnCorrelation,
) {
    let mut store = FakePersist::fresh().expect("entropy");
    let (birth, create) = birth();
    store
        .reserve_controller_birth(&birth, &create)
        .expect("reserve birth");
    let thread_scope = NativeCoordinateScope::Thread {
        birth_id: birth.birth_id.clone(),
        create_attempt_id: create.create_attempt_id.clone(),
    };
    let thread_ref = store
        .seal_native_coordinate(
            &thread_scope,
            &SecretNativeCoordinate::thread("native-thread-private").expect("secret"),
        )
        .expect("seal thread");
    store
        .resolve_thread_create(ThreadCreateCommit {
            birth_id: birth.birth_id.clone(),
            create_attempt_id: create.create_attempt_id.clone(),
            resolution: ThreadCreateResolution::Owned {
                thread_ref: thread_ref.clone(),
            },
            evidence_ref: VerifierRef([5; 32]),
        })
        .expect("resolve owned");
    let correlation = PersistedTurnCorrelation {
        attempt_id: AttemptId::new("attempt-a").expect("attempt"),
        signal_id: SignalId::new("signal-a").expect("signal"),
        birth_id: birth.birth_id.clone(),
        thread_ref,
        turn_write_id: RequestNonce([6; 32]),
        turn_ref: None,
    };
    let attachment_verifier = VerifierRef([8; 32]);
    store
        .admit_claim(
            &ClaimAdmission {
                record: PersistedClaimRecord {
                    attempt_id: correlation.attempt_id.clone(),
                    request_id: ClaimRequestId::new("claim-a").expect("claim"),
                    arm_id: birth.arm_id.clone(),
                    generation: birth.generation,
                    signal_id: correlation.signal_id.clone(),
                    event_refs: vec!["event-a".to_owned()],
                    claimed_at: Timestamp::unix_epoch(),
                },
                events: vec![ProviderEvent {
                    provider: "test".to_owned(),
                    event_ref: "event-a".to_owned(),
                    actor: None,
                    observed_at: "1970-01-01T00:00:00Z".to_owned(),
                    body: "test".to_owned(),
                }],
            },
            &PersistedControllerAttachment {
                attempt_id: correlation.attempt_id.clone(),
                birth_id: birth.birth_id.clone(),
                seat_id: birth.seat_id.clone(),
                arm_id: birth.arm_id.clone(),
                generation: birth.generation,
                capability: birth.capability,
                lease_until: birth.lease_until,
                verifier_ref: attachment_verifier.clone(),
                revoked: false,
            },
        )
        .expect("admit claim");
    store
        .record_dispatch_prepared(PreparedDispatchCommit {
            correlation: correlation.clone(),
        })
        .expect("prepare turn");
    store
        .reserve_native_turn_write(
            ValidatedIdlePermit {
                attempt_id: correlation.attempt_id.clone(),
                signal_id: correlation.signal_id.clone(),
                birth_id: correlation.birth_id.clone(),
                thread_ref: correlation.thread_ref.clone(),
                arm_id: birth.arm_id.clone(),
                generation: birth.generation,
                capability: birth.capability,
                verifier_ref: attachment_verifier,
                mutation_epoch: NativeMutationEpoch {
                    birth_id: birth.birth_id.clone(),
                    sequence: 1,
                },
                probe_id: RequestNonce([9; 32]),
                observed_at: Timestamp::unix_epoch(),
                valid_until: Timestamp::unix_epoch().plus(SECOND),
            },
            &correlation,
        )
        .expect("reserve write");
    (store, birth.birth_id, create.create_attempt_id, correlation)
}

fn active_proof(
    correlation: &PersistedTurnCorrelation,
    prehash: [u8; 32],
    epoch_sequence: u64,
) -> ActiveObservationProof {
    ActiveObservationProof {
        birth_id: correlation.birth_id.clone(),
        create_attempt_id: RequestNonce([2; 32]),
        thread_ref: correlation.thread_ref.clone(),
        seat_id: SeatId::new("seat-a").expect("seat"),
        arm_id: ArmId::new("arm-a").expect("arm"),
        generation: 1,
        capability: ManagedCapability::HandleClaimedSignal,
        attachment_verifier_ref: VerifierRef([8; 32]),
        lease_until: Timestamp::unix_epoch(),
        attempt_id: correlation.attempt_id.clone(),
        signal_id: correlation.signal_id.clone(),
        probe_id: RequestNonce([50; 32]),
        mutation_epoch: NativeMutationEpoch {
            birth_id: correlation.birth_id.clone(),
            sequence: epoch_sequence,
        },
        observed_at: Timestamp::unix_epoch().plus(-SECOND),
        prehash: ActiveObservationPrehash::new(prehash),
        producer_version: "codex-cli 0.149.1".to_owned(),
        producer_dialect: "thread/read-v2".to_owned(),
    }
}

#[test]
fn active_evidence_replay_binds_prehash_epoch_and_store_key() {
    let (store, _, _, correlation) = coordinate_store();
    let mut first = store.clone();
    let mut second = store;
    second.rekey_active_evidence([0x33; 32]);
    assert_eq!(
        first.record_active_hold(ActiveHoldCommit {
            evidence: active_proof(&correlation, [1; 32], 7),
        }),
        Ok(IdempotentWrite::Recorded)
    );
    assert_eq!(
        first.record_active_hold(ActiveHoldCommit {
            evidence: active_proof(&correlation, [1; 32], 7),
        }),
        Ok(IdempotentWrite::ExactReplay)
    );
    assert_eq!(
        first.record_active_hold(ActiveHoldCommit {
            evidence: active_proof(&correlation, [2; 32], 7),
        }),
        Err(PersistError::Conflict)
    );
    assert_eq!(
        first.record_active_hold(ActiveHoldCommit {
            evidence: active_proof(&correlation, [1; 32], 8),
        }),
        Err(PersistError::Conflict)
    );
    second
        .record_active_hold(ActiveHoldCommit {
            evidence: active_proof(&correlation, [1; 32], 7),
        })
        .expect("second store active evidence");
    let first_fingerprint = first
        .recover_authority_state()
        .expect("first snapshot")
        .active_observations[0]
        .fingerprint
        .clone();
    let second_fingerprint = second
        .recover_authority_state()
        .expect("second snapshot")
        .active_observations[0]
        .fingerprint
        .clone();
    assert!(first_fingerprint != second_fingerprint);
}

#[test]
fn native_coordinate_scopes_reject_every_cross_binding_and_kind() {
    let (mut store, birth_id, create_attempt_id, correlation) = coordinate_store();
    let thread_scope = NativeCoordinateScope::Thread {
        birth_id: birth_id.clone(),
        create_attempt_id: create_attempt_id.clone(),
    };
    let ThreadOwnershipState::Owned {
        create_attempt_id: recovered_create,
        thread_ref,
    } = store.thread_ownership_state(&birth_id).expect("ownership")
    else {
        panic!("owned");
    };
    assert!(recovered_create == create_attempt_id);
    assert!(store
            .open_native_coordinate(&thread_scope, &thread_ref)
            .expect("open thread")
            .as_str() == Ok("native-thread-private"));
    assert!(store
            .seal_native_coordinate(
                &thread_scope,
                &SecretNativeCoordinate::thread("native-thread-private").expect("secret")
            )
            .expect("replay thread seal") == thread_ref);
    assert!(store.seal_native_coordinate(
            &thread_scope,
            &SecretNativeCoordinate::thread("different-thread").expect("secret")
        ) == Err(PersistError::Unauthorized));

    let turn_scope = NativeCoordinateScope::Turn {
        birth_id: birth_id.clone(),
        attempt_id: correlation.attempt_id.clone(),
        signal_id: correlation.signal_id.clone(),
        turn_write_id: correlation.turn_write_id.clone(),
    };
    let turn_ref = store
        .seal_native_coordinate(
            &turn_scope,
            &SecretNativeCoordinate::turn("native-turn-private").expect("secret"),
        )
        .expect("seal turn");
    assert!(matches!(
        store.open_native_coordinate(&turn_scope, &turn_ref),
        Err(PersistError::Unauthorized)
    ));
    let mut accepted = correlation.clone();
    accepted.turn_ref = Some(turn_ref.clone());
    store
        .record_native_turn_fact(NativeTurnFactCommit {
            correlation: accepted,
            fact: NativeTurnFact::Accepted {
                turn_ref: turn_ref.clone(),
            },
            evidence_ref: VerifierRef([10; 32]),
        })
        .expect("commit accepted turn binding");
    assert!(store
            .open_native_coordinate(&turn_scope, &turn_ref)
            .expect("open turn")
            .as_str() == Ok("native-turn-private"));
    assert!(store
            .seal_native_coordinate(
                &turn_scope,
                &SecretNativeCoordinate::turn("native-turn-private").expect("secret")
            )
            .expect("replay turn seal") == turn_ref);
    assert!(store.seal_native_coordinate(
            &turn_scope,
            &SecretNativeCoordinate::turn("different-turn").expect("secret")
        ) == Err(PersistError::Unauthorized));

    let wrong_thread_scopes = [
        NativeCoordinateScope::Thread {
            birth_id: birth_id.clone(),
            create_attempt_id: RequestNonce([99; 32]),
        },
        NativeCoordinateScope::Thread {
            birth_id: ControllerBirthId([99; 32]),
            create_attempt_id: create_attempt_id.clone(),
        },
    ];
    for scope in wrong_thread_scopes {
        assert!(store.seal_native_coordinate(
                &scope,
                &SecretNativeCoordinate::thread("wrong").expect("secret")
            ) == Err(PersistError::Unauthorized));
        assert!(matches!(
            store.open_native_coordinate(&scope, &thread_ref),
            Err(PersistError::Unauthorized)
        ));
    }

    let wrong_turn_scopes = [
        NativeCoordinateScope::Turn {
            birth_id: ControllerBirthId([99; 32]),
            attempt_id: correlation.attempt_id.clone(),
            signal_id: correlation.signal_id.clone(),
            turn_write_id: correlation.turn_write_id.clone(),
        },
        NativeCoordinateScope::Turn {
            birth_id: birth_id.clone(),
            attempt_id: AttemptId::new("attempt-other").expect("attempt"),
            signal_id: correlation.signal_id.clone(),
            turn_write_id: correlation.turn_write_id.clone(),
        },
        NativeCoordinateScope::Turn {
            birth_id: birth_id.clone(),
            attempt_id: correlation.attempt_id.clone(),
            signal_id: SignalId::new("signal-other").expect("signal"),
            turn_write_id: correlation.turn_write_id.clone(),
        },
        NativeCoordinateScope::Turn {
            birth_id: birth_id.clone(),
            attempt_id: correlation.attempt_id.clone(),
            signal_id: correlation.signal_id.clone(),
            turn_write_id: RequestNonce([99; 32]),
        },
    ];
    for scope in wrong_turn_scopes {
        assert!(store.seal_native_coordinate(
                &scope,
                &SecretNativeCoordinate::turn("wrong").expect("secret")
            ) == Err(PersistError::Unauthorized));
        assert!(matches!(
            store.open_native_coordinate(&scope, &turn_ref),
            Err(PersistError::Unauthorized)
        ));
    }
    assert!(matches!(
        store.open_native_coordinate(&turn_scope, &thread_ref),
        Err(PersistError::Unauthorized)
    ));
    assert!(matches!(
        store.open_native_coordinate(&thread_scope, &turn_ref),
        Err(PersistError::Unauthorized)
    ));
    assert!(store.seal_native_coordinate(
            &turn_scope,
            &SecretNativeCoordinate::thread("wrong-kind").expect("secret")
        ) == Err(PersistError::Unauthorized));
    assert!(store.seal_native_coordinate(
            &thread_scope,
            &SecretNativeCoordinate::turn("wrong-kind").expect("secret")
        ) == Err(PersistError::Unauthorized));

    assert_eq!(
        store.redacted(),
        "FakePersist([redacted private recovery partition])"
    );
    let snapshot = store.recover_authority_state().expect("snapshot");
    assert!(matches!(
        snapshot.ownership.as_slice(),
        [PersistedThreadOwnership {
            state: ThreadOwnershipState::Owned { thread_ref: kept, .. },
            ..
        }] if *kept == thread_ref
    ));
    assert_eq!(snapshot.reservations.len(), 1);
    assert!(snapshot.reservations[0].correlation.turn_ref == Some(turn_ref));
}
