//! The Codex controller between its exchanges, and the digests beneath it.

use gearwit::authority::{ControllerBirthReservation, QuarantinedBirthReservation};
use gearwit::codex::{
    create_is_reserved, create_step, late_create_is_open, late_create_step, map_persist_error,
    open_name, resume_answer, resume_handshake, resume_is_owned, seal_thread, seal_turn,
    terminal_class, CodexLane, CreateEvent, CreateStage, CreateStep, DispatchStep, LateStep,
    PollStep, ProbeReading,
};
use gearwit::codex_steps::{
    resume_step, start_poll, start_probe, start_write, step_poll, step_probe, step_write,
    PollStart, ProbeAction, ProbeEvent, ProbeStep, ResumeEvent, ResumeStage, ResumeStep, TurnEvent,
    TurnStep, WriteAction,
};
use gearwit::controller::{
    ControllerAttachment, ControllerBirthBinding, ControllerCommand, ControllerIdleGuard,
    ControllerProbeError, ControllerReconcileError, ControllerWriteError, IdleProbeResult,
    ManagedCapability, NativeCoordinateScope, NativeMutationEpoch, NativeTurnFact,
    NativeWriteDisposition, NativeWriteReservation, ObservationScope, PersistedTurnCorrelation,
    ProbeBinding, ReconciliationDisposition, ReconciliationScope, SignalAction, TerminalClass,
};
use gearwit::exchange::{WriteFailure, WriteReceipt};
use gearwit::ident::{
    drawn_bytes, ArmId, AttemptId, ControllerBirthId, EntropyError, PrivateNativeRef, RequestNonce,
    SeatId, SignalId, VerifierRef,
};
use gearwit::persist::{FakePersist, Persist};
use gearwit::records::{
    PersistError, PersistedControllerBirth, ReserveBirthOutcome, ThreadCreateCommit,
    ThreadCreateReservation, ThreadCreateResolution,
};
use gearwit::secret::{SecretBytes, SecretKey};
use gearwit::timestamp::{Timestamp, SECOND};
use gearwit::transport::{
    parse_thread_state, NativeRef, Notification, Received, StatusView, ThreadState, ThreadView,
    TransportError, TurnEnd, TurnView,
};

fn now() -> Timestamp {
    Timestamp {
        nanos: 1_768_478_400 * SECOND,
    }
}

fn native(value: &str) -> NativeRef {
    NativeRef::parse_borrowed(value).expect("native reference")
}

fn binding() -> ControllerBirthBinding {
    ControllerBirthBinding {
        birth_id: ControllerBirthId([31; 32]),
        seat_id: SeatId::new("seat-a").expect("seat"),
        arm_id: ArmId::new("arm-a").expect("arm"),
        generation: 1,
        capability: ManagedCapability::HandleClaimedSignal,
        lease_until: now().plus(3_600 * SECOND),
        verifier_ref: VerifierRef([33; 32]),
    }
}

const CREATE: RequestNonce = RequestNonce([32; 32]);

fn reserved_store() -> FakePersist {
    let mut persist = FakePersist::with_key([5; 32]);
    let birth = binding();
    assert_eq!(
        persist.reserve_controller_birth(
            &PersistedControllerBirth {
                birth_id: birth.birth_id,
                seat_id: birth.seat_id,
                arm_id: birth.arm_id,
                generation: 1,
                capability: birth.capability,
                lease_until: birth.lease_until,
                verifier_ref: birth.verifier_ref,
                created_at: Timestamp::unix_epoch(),
                revoked: false,
            },
            &ThreadCreateReservation {
                birth_id: birth.birth_id,
                create_attempt_id: CREATE,
                reserved_at: Timestamp::unix_epoch(),
            },
        ),
        Ok(ReserveBirthOutcome::Reserved)
    );
    persist
}

fn resolve(persist: &mut FakePersist, resolution: ThreadCreateResolution) {
    persist
        .resolve_thread_create(ThreadCreateCommit {
            birth_id: binding().birth_id,
            create_attempt_id: CREATE,
            resolution,
            evidence_ref: VerifierRef([34; 32]),
        })
        .expect("resolved");
}

fn owned_store() -> (FakePersist, PrivateNativeRef) {
    let mut persist = reserved_store();
    let thread_ref = seal_thread(&mut persist, &binding(), &CREATE, native("thread-private"))
        .ok()
        .expect("sealed thread");
    resolve(&mut persist, ThreadCreateResolution::Owned { thread_ref });
    (persist, thread_ref)
}

fn attachment() -> ControllerAttachment {
    let birth = binding();
    ControllerAttachment {
        attempt_id: AttemptId::new("attempt-a").expect("attempt"),
        birth_id: birth.birth_id,
        arm_id: birth.arm_id,
        generation: 1,
        seat_id: birth.seat_id,
        capability: birth.capability,
        lease_until: birth.lease_until,
        verifier_ref: VerifierRef([4; 32]),
    }
}

fn probe_of(thread_ref: PrivateNativeRef) -> ProbeBinding {
    ProbeBinding {
        attachment: attachment(),
        signal_id: SignalId::new("signal-a").expect("signal"),
        thread_ref,
        challenge_id: RequestNonce([7; 32]),
    }
}

fn correlation(
    thread_ref: PrivateNativeRef,
    turn_ref: Option<PrivateNativeRef>,
) -> PersistedTurnCorrelation {
    PersistedTurnCorrelation {
        attempt_id: AttemptId::new("attempt-a").expect("attempt"),
        signal_id: SignalId::new("signal-a").expect("signal"),
        birth_id: binding().birth_id,
        thread_ref,
        turn_write_id: RequestNonce([3; 32]),
        turn_ref,
    }
}

fn command(thread_ref: PrivateNativeRef, sequence: u64) -> ControllerCommand {
    ControllerCommand::from_reservation(
        attachment(),
        SignalAction {
            signal_id: SignalId::new("signal-a").expect("signal"),
        },
        NativeWriteReservation {
            correlation: correlation(thread_ref, None),
            probe_id: RequestNonce([7; 32]),
            expected_epoch: NativeMutationEpoch {
                birth_id: binding().birth_id,
                sequence,
            },
        },
    )
}

fn lane(thread_ref: PrivateNativeRef) -> CodexLane {
    CodexLane::from_owned_parts(binding(), CREATE, thread_ref)
}

fn idle_lane(thread_ref: PrivateNativeRef) -> (CodexLane, ControllerIdleGuard) {
    let mut lane = lane(thread_ref);
    let Ok(IdleProbeResult::Idle { lane: guard, .. }) = lane.conclude_probe(
        probe_of(thread_ref),
        now(),
        Some((ThreadState::Idle, 0)),
        true,
    ) else {
        panic!("idle");
    };
    (lane, guard)
}

#[test]
fn creation_proceeds_stage_by_stage() {
    assert!(matches!(
        create_step(CreateEvent::Attached(Ok(()))),
        CreateStep::Perform(CreateStage::Start)
    ));
    assert!(matches!(
        create_step(CreateEvent::Started(Ok(()))),
        CreateStep::Perform(CreateStage::Handshake)
    ));
    assert!(matches!(
        create_step(CreateEvent::Handshake(Ok(Received::Initialized))),
        CreateStep::Perform(CreateStage::Request)
    ));
    assert!(matches!(
        create_step(CreateEvent::Requested(Ok(()))),
        CreateStep::Perform(CreateStage::Response)
    ));
    assert!(matches!(
        create_step(CreateEvent::Responded(Ok(Received::ThreadStarted(native(
            "thread-private"
        ))))),
        CreateStep::Seal(thread) if thread.same(&native("thread-private"))
    ));
}

#[test]
fn creation_is_denied_only_where_nothing_was_accepted() {
    for event in [
        CreateEvent::Attached(Err(TransportError::Identity)),
        CreateEvent::Started(Err(TransportError::Version)),
        CreateEvent::Handshake(Err(TransportError::Ambiguous)),
        CreateEvent::Handshake(Ok(Received::ServerRequestRejected)),
        CreateEvent::Requested(Err(TransportError::Closed)),
        CreateEvent::Responded(Err(TransportError::Native)),
    ] {
        assert!(matches!(create_step(event), CreateStep::ProvenNotAccepted));
    }
    for event in [
        CreateEvent::Requested(Err(TransportError::Ambiguous)),
        CreateEvent::Responded(Err(TransportError::Ambiguous)),
        CreateEvent::Responded(Err(TransportError::Malformed)),
        CreateEvent::Responded(Ok(Received::Initialized)),
    ] {
        assert!(matches!(create_step(event), CreateStep::Unknown));
    }
}

#[test]
fn quarantined_creation_takes_one_late_answer() {
    let mut persist = reserved_store();
    let reservation = ControllerBirthReservation {
        binding: binding(),
        create_attempt_id: CREATE,
    };
    let quarantined = QuarantinedBirthReservation {
        birth_id: binding().birth_id,
        create_attempt_id: CREATE,
    };
    assert!(create_is_reserved(&persist, &reservation));
    assert!(!late_create_is_open(&persist, &quarantined, &binding(), &CREATE));
    resolve(&mut persist, ThreadCreateResolution::Unknown);
    assert!(!create_is_reserved(&persist, &reservation));
    assert!(late_create_is_open(&persist, &quarantined, &binding(), &CREATE));
    assert!(!late_create_is_open(
        &persist,
        &quarantined,
        &binding(),
        &RequestNonce([99; 32])
    ));
    assert!(matches!(
        late_create_step(Err(TransportError::Deadline)),
        LateStep::StillUnknown
    ));
    assert!(matches!(
        late_create_step(Err(TransportError::Native)),
        LateStep::ProvenNotAccepted
    ));
    let LateStep::Seal(thread) =
        late_create_step(Ok(Received::ThreadStarted(native("thread-late"))))
    else {
        panic!("late thread");
    };
    let thread_ref = seal_thread(&mut persist, &binding(), &CREATE, thread)
        .ok()
        .expect("sealed");
    resolve(&mut persist, ThreadCreateResolution::Owned { thread_ref });
    assert!(!late_create_is_open(&persist, &quarantined, &binding(), &CREATE));
    let name = open_name(&persist, &lane(thread_ref).thread_scope(), &thread_ref);
    assert_eq!(name.ok().expect("name").as_str(), "thread-late");
}

#[test]
fn resuming_needs_exact_ownership() {
    let (persist, thread_ref) = owned_store();
    assert_eq!(
        resume_is_owned(&persist, &binding(), &CREATE, &thread_ref),
        Ok(())
    );
    assert_eq!(
        resume_is_owned(&persist, &binding(), &CREATE, &PrivateNativeRef([9; 32])),
        Err(TransportError::Correlation)
    );
    assert_eq!(
        resume_is_owned(&persist, &binding(), &RequestNonce([9; 32]), &thread_ref),
        Err(TransportError::Correlation)
    );
    assert_eq!(resume_handshake(Ok(Received::Initialized)), Ok(()));
    assert_eq!(
        resume_handshake(Ok(Received::ServerRequestRejected)),
        Err(TransportError::Correlation)
    );
    assert_eq!(
        resume_handshake(Err(TransportError::Closed)),
        Err(TransportError::Closed)
    );
    assert_eq!(
        resume_answer(Ok(Received::ThreadResumed(ThreadState::Unproven))),
        Ok(())
    );
    assert_eq!(
        resume_answer(Ok(Received::Initialized)),
        Err(TransportError::Correlation)
    );
    assert_eq!(
        map_persist_error(PersistError::StorageUnavailable),
        TransportError::Closed
    );
    assert_eq!(
        map_persist_error(PersistError::Unauthorized),
        TransportError::Correlation
    );
}

#[test]
fn event_after_an_idle_report_takes_no_lane() {
    let (_, thread_ref) = owned_store();
    let mut lane = lane(thread_ref);
    assert_eq!(lane.begin_probe(&probe_of(thread_ref)), Ok(()));
    assert_eq!(
        lane.begin_probe(&probe_of(PrivateNativeRef([9; 32]))),
        Err(ControllerProbeError::BindingRejected)
    );
    assert!(matches!(
        lane.probe_received(Ok(Received::Notification(Notification::Signal))),
        ProbeReading::Again
    ));
    let ProbeReading::Read { state, epoch } =
        lane.probe_received(Ok(Received::ThreadRead(ThreadState::Idle)))
    else {
        panic!("report");
    };
    assert_eq!(epoch, 1);
    assert_eq!(
        lane.drain_before_mutation(&Ok(Received::Notification(Notification::Signal))),
        None
    );
    assert_eq!(
        lane.drain_before_mutation(&Err(TransportError::Deadline)),
        Some(Ok(()))
    );
    assert_eq!(
        lane.conclude_probe(probe_of(thread_ref), now(), Some((state, epoch)), true)
            .err(),
        Some(ControllerProbeError::EpochInvalidated)
    );
    assert!(lane.lane_probe.is_none());
}

#[test]
fn only_a_clean_idle_report_takes_the_lane() {
    let (_, thread_ref) = owned_store();
    let mut busy = lane(thread_ref);
    for (reading, drained) in [
        (None, true),
        (Some((ThreadState::Unproven, 0)), true),
        (Some((ThreadState::Idle, 0)), false),
    ] {
        assert!(matches!(
            busy.conclude_probe(probe_of(thread_ref), now(), reading, drained),
            Ok(IdleProbeResult::Unproven(_))
        ));
        assert!(busy.lane_probe.is_none());
    }
    let (mut idle, guard) = idle_lane(thread_ref);
    assert!(guard.probe_id == RequestNonce([7; 32]));
    assert_eq!(guard.epoch.sequence, 0);
    assert_eq!(
        idle.begin_probe(&probe_of(thread_ref)),
        Err(ControllerProbeError::BindingRejected)
    );
    assert_eq!(idle.begin_write(&guard, &command(thread_ref, 0)), Ok(()));
    assert_eq!(
        idle.begin_write(&guard, &command(thread_ref, 4)),
        Err(ControllerWriteError::BindingRejected)
    );
    assert!(idle.lane_probe.is_none());
    assert_eq!(
        idle.redacted(),
        "CodexController([redacted owned binding])"
    );
}

#[test]
fn last_decision_guards_the_dispatch() {
    let (_, thread_ref) = owned_store();
    let turn = command(thread_ref, 0);
    let (mut lane, _) = idle_lane(thread_ref);
    assert!(matches!(
        lane.authorize_dispatch(&turn, true, now()),
        Ok(DispatchStep::Dispatch)
    ));
    assert!(lane.lane_probe.is_some());

    let (mut undrained, _) = idle_lane(thread_ref);
    assert!(matches!(
        undrained.authorize_dispatch(&turn, false, now()),
        Ok(DispatchStep::Concluded(
            NativeWriteDisposition::ProvenNotAccepted
        ))
    ));

    let (mut moved, _) = idle_lane(thread_ref);
    moved.bump_epoch();
    assert!(matches!(
        moved.authorize_dispatch(&turn, true, now()),
        Ok(DispatchStep::Concluded(
            NativeWriteDisposition::IdleEpochInvalidated { expected_epoch, observed_epoch, .. }
        )) if expected_epoch.sequence == 0 && observed_epoch.sequence == 1
    ));
    assert!(moved.lane_probe.is_none());

    let (mut expired, _) = idle_lane(thread_ref);
    assert!(matches!(
        expired.authorize_dispatch(&turn, true, binding().lease_until),
        Ok(DispatchStep::Concluded(
            NativeWriteDisposition::ProvenNotAccepted
        ))
    ));

    let (mut foreign, _) = idle_lane(thread_ref);
    foreign.thread_ref = PrivateNativeRef([9; 32]);
    assert!(matches!(
        foreign.authorize_dispatch(&turn, true, now()),
        Err(ControllerWriteError::BindingRejected)
    ));
}

#[test]
fn doubtful_dispatch_waits_for_reconciliation() {
    let (mut persist, thread_ref) = owned_store();
    let turn = command(thread_ref, 0);
    let (mut lane, _) = idle_lane(thread_ref);
    let unsent = lane.dispatch_failed(
        &turn,
        WriteFailure {
            error: TransportError::Closed,
            receipt: WriteReceipt::ProvenNotWritten,
        },
    );
    assert!(matches!(unsent, NativeWriteDisposition::ProvenNotAccepted));
    assert!(lane.reconciling.is_none());
    let doubtful = lane.dispatch_failed(
        &turn,
        WriteFailure {
            error: TransportError::Closed,
            receipt: WriteReceipt::PossiblyWritten,
        },
    );
    assert!(matches!(doubtful, NativeWriteDisposition::Unknown));
    assert!(lane.reconciling == Some(correlation(thread_ref, None)));

    let refused = lane.turn_answered(&mut persist, &turn, Err(TransportError::Native));
    assert!(matches!(refused, NativeWriteDisposition::ProvenNotAccepted));
    assert!(lane.reconciling.is_none());
    let silent = lane.turn_answered(&mut persist, &turn, Err(TransportError::Ambiguous));
    assert!(matches!(silent, NativeWriteDisposition::Unknown));
    assert!(lane.reconciling.is_some());

    let scope = ReconciliationScope {
        correlation: correlation(thread_ref, None),
        evidence_ref: VerifierRef([8; 32]),
    };
    assert!(matches!(
        lane.begin_reconcile(&mut persist, &scope),
        Err(ControllerReconcileError::BindingRejected)
    ));
    assert!(matches!(
        CodexLane::reconcile_received(&mut persist, &scope, Err(TransportError::Deadline)),
        ReconciliationDisposition::Unknown
    ));
    assert!(matches!(
        CodexLane::reconcile_received(&mut persist, &scope, Err(TransportError::Native)),
        ReconciliationDisposition::ProvenNotAccepted
    ));
}

fn started(thread: &str, turn: &str) -> Result<Received, TransportError> {
    Ok(Received::Notification(Notification::TurnStarted {
        thread: native(thread),
        turn: native(turn),
    }))
}

fn ended(thread: &str, turn: &str) -> Result<Received, TransportError> {
    Ok(Received::Notification(Notification::Terminal {
        thread: native(thread),
        turn: native(turn),
        class: TurnEnd::Succeeded,
    }))
}

#[test]
fn lifecycle_is_reported_in_order_and_once() {
    let (_, thread_ref) = owned_store();
    let turn_ref = PrivateNativeRef([21; 32]);
    let (thread, turn) = (native("thread-private"), native("turn-private"));
    let mut lane = lane(thread_ref);
    let scope = ObservationScope {
        correlation: correlation(thread_ref, Some(turn_ref)),
        evidence_ref: VerifierRef([8; 32]),
    };
    assert!(lane.begin_poll(&scope).is_none());
    for foreign in [
        started("thread-other", "turn-private"),
        ended("thread-private", "turn-other"),
    ] {
        assert!(matches!(
            lane.exact_notification(&turn_ref, &thread, &turn, foreign),
            PollStep::Again
        ));
    }
    assert!(matches!(
        lane.exact_notification(
            &turn_ref,
            &thread,
            &turn,
            ended("thread-private", "turn-private")
        ),
        PollStep::Again
    ));
    assert!(matches!(
        lane.exact_notification(&turn_ref, &thread, &turn, started("thread-private", "turn-private")),
        PollStep::Done(Some(NativeTurnFact::Started { turn_ref: found })) if found == turn_ref
    ));
    assert!(matches!(
        lane.begin_poll(&scope),
        Some(Some(NativeTurnFact::Terminal { class: TerminalClass::Succeeded, turn_ref: found }))
            if found == turn_ref
    ));
    assert!(lane.begin_poll(&scope).is_none());
    for again in [
        started("thread-private", "turn-private"),
        ended("thread-private", "turn-private"),
    ] {
        assert!(matches!(
            lane.exact_notification(&turn_ref, &thread, &turn, again),
            PollStep::Again
        ));
    }
    assert_eq!(lane.epoch, 6);
}

#[test]
fn degraded_and_lost_observations_are_reported_once() {
    let (_, thread_ref) = owned_store();
    let turn_ref = PrivateNativeRef([21; 32]);
    let (thread, turn) = (native("thread-private"), native("turn-private"));
    let mut lane = lane(thread_ref);
    let mut poll = |received| lane.exact_notification(&turn_ref, &thread, &turn, received);
    assert!(matches!(
        poll(Err(TransportError::Deadline)),
        PollStep::Done(None)
    ));
    assert!(matches!(
        poll(Err(TransportError::Malformed)),
        PollStep::Done(Some(NativeTurnFact::DegradedTerminalObservation))
    ));
    assert!(matches!(
        poll(Err(TransportError::Bounds)),
        PollStep::Done(None)
    ));
    assert!(matches!(
        poll(Err(TransportError::Closed)),
        PollStep::Done(Some(NativeTurnFact::ControllerLost))
    ));
    assert!(matches!(
        poll(Err(TransportError::Closed)),
        PollStep::Done(None)
    ));
    let scope = ObservationScope {
        correlation: correlation(thread_ref, Some(turn_ref)),
        evidence_ref: VerifierRef([8; 32]),
    };
    assert!(matches!(lane.begin_poll(&scope), Some(None)));
    assert_eq!(
        terminal_class(TurnEnd::Interrupted),
        TerminalClass::NativeInterrupted
    );
}

#[test]
fn poll_names_come_from_the_sealed_coordinates() {
    let (mut persist, thread_ref) = owned_store();
    let lane = lane(thread_ref);
    let scope = correlation(thread_ref, None).turn_scope();
    assert!(lane
        .expected_names(&persist, &scope, &PrivateNativeRef([21; 32]))
        .is_none());
    assert_eq!(
        seal_turn(&mut persist, &scope, &native("turn-private")).err(),
        Some(TransportError::Correlation)
    );
    assert!(matches!(scope, NativeCoordinateScope::Turn { .. }));
}

#[test]
fn active_report_is_bound_by_its_digest() {
    let view = ThreadView {
        id: "thread-private".to_owned(),
        status: Some(StatusView {
            kind: "active".to_owned(),
            active_flags: Some(vec!["waitingOnApproval".to_owned()]),
        }),
        turns: Some(vec![TurnView {
            id: Some("turn-exact".to_owned()),
            status: Some("inProgress".to_owned()),
        }]),
    };
    let Ok(ThreadState::ActiveTurn(prehash)) =
        parse_thread_state(&Some(view), &native("thread-private"))
    else {
        panic!("active");
    };
    let mut input = b"gearwit.codex-exact-active.v1\0".to_vec();
    for field in [
        "thread-private",
        "thread-private",
        "active",
        "waitingOnApproval",
        "turn-exact",
        "inProgress",
        "exactly-one-active-turn",
        "turn-exact",
        "codex-cli 0.152.1",
        "thread/read-v2",
    ] {
        input.extend_from_slice(&(field.len() as u64).to_le_bytes());
        input.extend_from_slice(field.as_bytes());
    }
    assert_eq!(prehash.bytes(), blake3::hash(&input).as_bytes());
}

#[test]
fn secrets_are_drawn_compared_and_erased() {
    let key = SecretKey::new([9; 32]);
    assert_eq!(
        key.digest(b"input"),
        *blake3::keyed_hash(&[9; 32], b"input").as_bytes()
    );
    let mut secret = SecretBytes::new(b"private".to_vec());
    assert_eq!(secret.as_bytes(), b"private");
    secret.erase();
    assert_eq!(secret.as_bytes(), [0_u8; 7]);
    let first = RequestNonce::random().expect("entropy");
    let second = RequestNonce::random().expect("entropy");
    assert!(first != second);
    let verifier = VerifierRef::random().expect("entropy");
    assert!(verifier == VerifierRef(*verifier.bytes()));
    assert!(verifier != VerifierRef([0; 32]));
    assert!(VerifierRef([1; 32]) != VerifierRef([2; 32]));
}

#[test]
fn draws_become_exactly_their_bytes() {
    assert!(drawn_bytes(Ok([7; 32])) == Ok([7; 32]));
    assert!(drawn_bytes(Err(getrandom::Error::UNSUPPORTED)) == Err(EntropyError));
    assert!(RequestNonce::from_drawn(Ok([7; 32])) == Ok(RequestNonce([7; 32])));
    assert!(RequestNonce::from_drawn(Err(EntropyError)) == Err(EntropyError));
    assert!(ControllerBirthId::from_drawn(Ok([8; 32])) == Ok(ControllerBirthId([8; 32])));
    assert!(ControllerBirthId::from_drawn(Err(EntropyError)) == Err(EntropyError));
    assert!(VerifierRef::from_drawn(Ok([9; 32])) == Ok(VerifierRef([9; 32])));
    assert!(VerifierRef::from_drawn(Err(EntropyError)) == Err(EntropyError));
    assert!(FakePersist::from_drawn(Ok([1; 32])).is_ok());
    assert!(FakePersist::from_drawn(Err(EntropyError)).err() == Some(EntropyError));
}

fn signal_received() -> Result<Received, TransportError> {
    Ok(Received::Notification(Notification::Signal))
}

#[test]
fn probe_drains_asks_and_settles() {
    let (persist, thread_ref) = owned_store();
    let mut lane = lane(thread_ref);
    let ProbeStep::Perform(probe, ProbeAction::ReceiveNow) =
        start_probe(&lane, probe_of(thread_ref), now())
    else {
        panic!("drain");
    };
    let ProbeStep::Perform(probe, ProbeAction::ReceiveNow) = step_probe(
        &mut lane,
        &persist,
        probe,
        ProbeEvent::Received(signal_received()),
    ) else {
        panic!("drain again");
    };
    let ProbeStep::Perform(probe, ProbeAction::Ask(thread)) = step_probe(
        &mut lane,
        &persist,
        probe,
        ProbeEvent::Received(Err(TransportError::Deadline)),
    ) else {
        panic!("ask");
    };
    assert_eq!(thread.as_str(), "thread-private");
    let ProbeStep::Perform(probe, ProbeAction::Receive) =
        step_probe(&mut lane, &persist, probe, ProbeEvent::Asked(Ok(())))
    else {
        panic!("await");
    };
    let ProbeStep::Perform(probe, ProbeAction::ReceiveNow) = step_probe(
        &mut lane,
        &persist,
        probe,
        ProbeEvent::Received(Ok(Received::ThreadRead(ThreadState::Idle))),
    ) else {
        panic!("settle");
    };
    let ProbeStep::Concluded(Ok(IdleProbeResult::Idle { lane: guard, .. })) = step_probe(
        &mut lane,
        &persist,
        probe,
        ProbeEvent::Received(Err(TransportError::Deadline)),
    ) else {
        panic!("idle");
    };
    assert_eq!(guard.epoch.sequence, 1);
    assert!(lane.lane_probe == Some(RequestNonce([7; 32])));
    assert!(matches!(
        start_probe(&lane, probe_of(thread_ref), now()),
        ProbeStep::Concluded(Err(ControllerProbeError::BindingRejected))
    ));
}

#[test]
fn probe_without_a_report_proves_nothing() {
    let (persist, thread_ref) = owned_store();
    let mut lane = lane(thread_ref);
    for lost in [TransportError::Closed, TransportError::Malformed] {
        let ProbeStep::Perform(probe, _) = start_probe(&lane, probe_of(thread_ref), now()) else {
            panic!("probe");
        };
        assert!(matches!(
            step_probe(
                &mut lane,
                &persist,
                probe,
                ProbeEvent::Received(Err(lost))
            ),
            ProbeStep::Concluded(Ok(IdleProbeResult::Unproven(_)))
        ));
    }
    assert!(lane.lane_probe.is_none());
}

#[test]
fn write_goes_from_preparation_to_its_answer() {
    let (mut persist, thread_ref) = owned_store();
    let (mut lane, guard) = idle_lane(thread_ref);
    let TurnStep::Perform(write, WriteAction::Prepare { thread, input }) =
        start_write(&mut lane, &persist, &guard, command(thread_ref, 0))
    else {
        panic!("prepare");
    };
    assert_eq!(thread.as_str(), "thread-private");
    assert!(input.contains("attempt_id=attempt-a") && input.ends_with("signal-a"));
    let TurnStep::Perform(write, WriteAction::ReceiveNow) = step_write(
        &mut lane,
        &mut persist,
        write,
        TurnEvent::Prepared(Ok(())),
    ) else {
        panic!("drain");
    };
    let TurnStep::Perform(write, WriteAction::Dispatch) = step_write(
        &mut lane,
        &mut persist,
        write,
        TurnEvent::Drained {
            received: Err(TransportError::Deadline),
            now: now(),
        },
    ) else {
        panic!("dispatch");
    };
    let TurnStep::Perform(write, WriteAction::Receive) = step_write(
        &mut lane,
        &mut persist,
        write,
        TurnEvent::Dispatched(Ok(WriteReceipt::Written)),
    ) else {
        panic!("await");
    };
    assert!(matches!(
        step_write(
            &mut lane,
            &mut persist,
            write,
            TurnEvent::Answered(Err(TransportError::Native)),
        ),
        TurnStep::Concluded(Ok(NativeWriteDisposition::ProvenNotAccepted))
    ));
    assert!(lane.lane_probe.is_none());
    assert!(matches!(
        start_write(&mut lane, &persist, &guard, command(thread_ref, 0)),
        TurnStep::Concluded(Err(ControllerWriteError::BindingRejected))
    ));
}

#[test]
fn message_before_the_dispatch_withholds_the_turn() {
    let (mut persist, thread_ref) = owned_store();
    let (mut lane, guard) = idle_lane(thread_ref);
    let TurnStep::Perform(write, _) =
        start_write(&mut lane, &persist, &guard, command(thread_ref, 0))
    else {
        panic!("prepare");
    };
    let TurnStep::Perform(write, _) = step_write(
        &mut lane,
        &mut persist,
        write,
        TurnEvent::Prepared(Ok(())),
    ) else {
        panic!("drain");
    };
    let TurnStep::Perform(write, WriteAction::ReceiveNow) = step_write(
        &mut lane,
        &mut persist,
        write,
        TurnEvent::Drained {
            received: signal_received(),
            now: now(),
        },
    ) else {
        panic!("drain again");
    };
    assert!(matches!(
        step_write(
            &mut lane,
            &mut persist,
            write,
            TurnEvent::Drained {
                received: Err(TransportError::Deadline),
                now: now(),
            },
        ),
        TurnStep::Concluded(Ok(NativeWriteDisposition::IdleEpochInvalidated { .. }))
    ));
    assert!(lane.lane_probe.is_none());
}

#[test]
fn resumption_asks_only_after_the_handshake() {
    let (persist, thread_ref) = owned_store();
    let lane = lane(thread_ref);
    let step = |event| resume_step(&persist, &lane, event);
    assert!(matches!(
        step(ResumeEvent::Attached(Ok(()))),
        ResumeStep::Perform(ResumeStage::Start)
    ));
    assert!(matches!(
        step(ResumeEvent::Started(Err(TransportError::Version))),
        ResumeStep::Failed(TransportError::Version)
    ));
    assert!(matches!(
        step(ResumeEvent::Handshake(Ok(Received::Initialized))),
        ResumeStep::Ask(thread) if thread.as_str() == "thread-private"
    ));
    assert!(matches!(
        step(ResumeEvent::Asked(Ok(()))),
        ResumeStep::Perform(ResumeStage::Answer)
    ));
    assert!(matches!(
        step(ResumeEvent::Answered(Ok(Received::Initialized))),
        ResumeStep::Failed(TransportError::Correlation)
    ));
    assert!(matches!(
        step(ResumeEvent::Answered(Ok(Received::ThreadResumed(
            ThreadState::Idle
        )))),
        ResumeStep::Resumed
    ));
}

#[test]
fn poll_without_its_names_is_degraded_once() {
    let (persist, thread_ref) = owned_store();
    let mut lane = lane(thread_ref);
    let scope = ObservationScope {
        correlation: correlation(thread_ref, Some(PrivateNativeRef([21; 32]))),
        evidence_ref: VerifierRef([8; 32]),
    };
    assert!(matches!(
        start_poll(&mut lane, &persist, &scope),
        PollStart::Done(Some(NativeTurnFact::DegradedTerminalObservation))
    ));
    assert!(matches!(
        start_poll(&mut lane, &persist, &scope),
        PollStart::Done(None)
    ));
    let poll = gearwit::codex_steps::Poll {
        turn_ref: PrivateNativeRef([21; 32]),
        thread: native("thread-private"),
        turn: native("turn-private"),
    };
    assert!(matches!(
        step_poll(&mut lane, &poll, started("thread-private", "turn-private")),
        PollStep::Done(Some(NativeTurnFact::Started { .. }))
    ));
}
