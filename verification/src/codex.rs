//! The Codex controller: what it decides between one exchange with the app
//! server and the next. The caller performs the exchanges.

use crate::authority::{ControllerBirthReservation, QuarantinedBirthReservation};
use crate::controller;
use crate::controller::{
    ActiveObservationProof, ControllerBirthBinding, ControllerCommand, ControllerIdleGuard,
    ControllerProbeError, ControllerReconcileError, ControllerWriteError, IdleProbeObservation,
    IdleProbeResult, NativeCoordinateKind, NativeCoordinateScope, NativeMutationEpoch,
    NativeTurnFact, NativeWriteDisposition, ObservationScope, PersistedTurnCorrelation,
    ProbeBinding, ReconciliationDisposition, ReconciliationScope, SecretNativeCoordinate,
    TerminalClass, PRODUCER_DIALECT, PRODUCER_VERSION,
};
use crate::exchange::{failed_write_disposition, WriteFailure, WriteReceipt};
use crate::ident::{AttemptId, PrivateNativeRef, RequestNonce, VerifierRef};
use crate::persist::Persist;
use crate::records::{
    NativeWriteEvidence, PersistError, PersistedNativeReservation, PersistedNativeWriteEvidence,
    RecoverySnapshot, ThreadOwnershipState,
};
use crate::timestamp::Timestamp;
use crate::transport;
use crate::transport::{NativeRef, Notification, Received, ThreadState, TransportError, TurnEnd};
use vstd::prelude::*;
use vstd::string::*;
use vstd::utf8::*;

verus! {

/// How a turn's end counts for the controller.
pub open spec fn class_of(end: TurnEnd) -> TerminalClass {
    match end {
        TurnEnd::Succeeded => TerminalClass::Succeeded,
        TurnEnd::Failed => TerminalClass::Failed,
        TurnEnd::Interrupted => TerminalClass::NativeInterrupted,
    }
}

pub fn terminal_class(end: TurnEnd) -> (class: TerminalClass)
    ensures
        class == class_of(end),
{
    match end {
        TurnEnd::Succeeded => TerminalClass::Succeeded,
        TurnEnd::Failed => TerminalClass::Failed,
        TurnEnd::Interrupted => TerminalClass::NativeInterrupted,
    }
}

/// How a persistence error shows on the transport.
pub open spec fn mapped_error(error: PersistError) -> TransportError {
    match error {
        PersistError::StorageUnavailable => TransportError::Closed,
        _ => TransportError::Correlation,
    }
}

pub fn map_persist_error(error: PersistError) -> (mapped: TransportError)
    ensures
        mapped == mapped_error(error),
{
    match error {
        PersistError::StorageUnavailable => TransportError::Closed,
        PersistError::Conflict | PersistError::InvalidTransition | PersistError::Unauthorized => {
            TransportError::Correlation
        },
    }
}

/// The scope of the thread of a birth.
pub open spec fn scope_of_thread(
    birth: ControllerBirthBinding,
    create_attempt_id: RequestNonce,
) -> NativeCoordinateScope {
    NativeCoordinateScope::Thread { birth_id: birth.birth_id, create_attempt_id }
}

/// Whether the create of a reservation is still only reserved.
pub fn create_is_reserved<P: Persist>(persist: &P, reservation: &ControllerBirthReservation) -> (
    reserved: bool)
    ensures
        reserved == (persist.store().ownership_state(reservation.binding.birth_id) == (
        ThreadOwnershipState::Reserved { create_attempt_id: reservation.create_attempt_id })),
{
    match persist.thread_ownership_state(&reservation.binding.birth_id) {
        Ok(state) => state.same(
            &ThreadOwnershipState::Reserved { create_attempt_id: reservation.create_attempt_id },
        ),
        Err(_) => false,
    }
}

/// One exchange of a thread creation, in the order in which they are made.
#[derive(Clone, Copy, Debug, PartialEq, Eq, Structural)]
pub enum CreateStage {
    Attach,
    Start,
    Handshake,
    Request,
    Response,
}

/// What an exchange of a thread creation came to.
pub enum CreateEvent {
    Attached(Result<(), TransportError>),
    Started(Result<(), TransportError>),
    Handshake(Result<Received, TransportError>),
    Requested(Result<(), TransportError>),
    Responded(Result<Received, TransportError>),
}

/// What a thread creation does next.
pub enum CreateStep {
    Perform(CreateStage),
    /// The thread exists under this name: its coordinate is to be sealed.
    Seal(NativeRef),
    ProvenNotAccepted,
    Unknown,
}

/// What follows an exchange. Before the request nothing can have been accepted;
/// after it only a native error proves that.
pub open spec fn create_next(event: CreateEvent) -> CreateStep {
    match event {
        CreateEvent::Attached(Ok(())) => CreateStep::Perform(CreateStage::Start),
        CreateEvent::Started(Ok(())) => CreateStep::Perform(CreateStage::Handshake),
        CreateEvent::Handshake(Ok(Received::Initialized)) => {
            CreateStep::Perform(CreateStage::Request)
        },
        CreateEvent::Requested(Ok(())) => CreateStep::Perform(CreateStage::Response),
        CreateEvent::Requested(Err(error)) => if error == TransportError::Ambiguous {
            CreateStep::Unknown
        } else {
            CreateStep::ProvenNotAccepted
        },
        CreateEvent::Responded(Ok(Received::ThreadStarted(thread))) => CreateStep::Seal(thread),
        CreateEvent::Responded(Err(error)) => if error == TransportError::Native {
            CreateStep::ProvenNotAccepted
        } else {
            CreateStep::Unknown
        },
        CreateEvent::Responded(Ok(_)) => CreateStep::Unknown,
        _ => CreateStep::ProvenNotAccepted,
    }
}

/// The next step of a thread creation.
pub fn create_step(event: CreateEvent) -> (step: CreateStep)
    ensures
        step == create_next(event),
{
    match event {
        CreateEvent::Attached(Ok(())) => CreateStep::Perform(CreateStage::Start),
        CreateEvent::Attached(Err(_)) => CreateStep::ProvenNotAccepted,
        CreateEvent::Started(Ok(())) => CreateStep::Perform(CreateStage::Handshake),
        CreateEvent::Started(Err(_)) => CreateStep::ProvenNotAccepted,
        CreateEvent::Handshake(Ok(Received::Initialized)) => {
            CreateStep::Perform(CreateStage::Request)
        },
        CreateEvent::Handshake(_) => CreateStep::ProvenNotAccepted,
        CreateEvent::Requested(Ok(())) => CreateStep::Perform(CreateStage::Response),
        CreateEvent::Requested(Err(error)) => if error == TransportError::Ambiguous {
            CreateStep::Unknown
        } else {
            CreateStep::ProvenNotAccepted
        },
        CreateEvent::Responded(Ok(received)) => match received {
            Received::ThreadStarted(thread) => CreateStep::Seal(thread),
            _ => CreateStep::Unknown,
        },
        CreateEvent::Responded(Err(error)) => if error == TransportError::Native {
            CreateStep::ProvenNotAccepted
        } else {
            CreateStep::Unknown
        },
    }
}

/// Once the request may have left, only the server's own error proves that no
/// thread was created; everything but its answer leaves the create unknown.
pub proof fn doubtful_create_is_never_denied(received: Result<Received, TransportError>)
    ensures
        create_next(CreateEvent::Requested(Err(TransportError::Ambiguous))) is Unknown,
        create_next(CreateEvent::Responded(received)) is ProvenNotAccepted <==> received == Err::<
            Received,
            TransportError,
        >(TransportError::Native),
        create_next(CreateEvent::Responded(received)) is Seal <==> (received matches Ok(
            Received::ThreadStarted(_),
        )),
{
}

/// Seals a coordinate that the server named. The store gives `result`; without
/// a reference the coordinate stays where it is.
pub open spec fn seals<P: Persist>(
    before: P,
    after: P,
    scope: NativeCoordinateScope,
    kind: NativeCoordinateKind,
    plaintext: Seq<u8>,
    result: Result<PrivateNativeRef, PersistError>,
) -> bool {
    before.store().sealed(scope, kind, plaintext, after.store(), result)
}

/// Seals the thread of a birth, or gives the thread back.
pub fn seal_thread<P: Persist>(
    persist: &mut P,
    birth: &ControllerBirthBinding,
    create_attempt_id: &RequestNonce,
    thread: NativeRef,
) -> (result: Result<PrivateNativeRef, NativeRef>)
    ensures
        match result {
            Ok(reference) => seals(
                *old(persist),
                *final(persist),
                scope_of_thread(*birth, *create_attempt_id),
                NativeCoordinateKind::Thread,
                thread@,
                Ok(reference),
            ),
            Err(kept) => kept@ == thread@ && exists|error: PersistError| #[trigger]
                seals(
                    *old(persist),
                    *final(persist),
                    scope_of_thread(*birth, *create_attempt_id),
                    NativeCoordinateKind::Thread,
                    thread@,
                    Err(error),
                ),
        },
{
    let scope = NativeCoordinateScope::Thread {
        birth_id: birth.birth_id,
        create_attempt_id: *create_attempt_id,
    };
    let name = thread.as_str();
    let secret = match SecretNativeCoordinate::thread(name) {
        Ok(secret) => secret,
        Err(_) => {
            assert(false);
            return Err(thread);
        },
    };
    let ghost before = *persist;
    match persist.seal_native_coordinate(&scope, &secret) {
        Ok(reference) => Ok(reference),
        Err(error) => {
            assert(seals(
                before,
                *persist,
                scope_of_thread(*birth, *create_attempt_id),
                NativeCoordinateKind::Thread,
                thread@,
                Err::<PrivateNativeRef, PersistError>(error),
            ));
            Err(thread)
        },
    }
}

/// Whether a late answer to a quarantined create may still be taken.
pub fn late_create_is_open<P: Persist>(
    persist: &P,
    reservation: &QuarantinedBirthReservation,
    birth: &ControllerBirthBinding,
    create_attempt_id: &RequestNonce,
) -> (open: bool)
    ensures
        open == (reservation.birth_id == birth.birth_id && reservation.create_attempt_id
            == *create_attempt_id && persist.store().ownership_state(birth.birth_id) == (
        ThreadOwnershipState::Unknown { create_attempt_id: *create_attempt_id })),
{
    let state = match persist.thread_ownership_state(&birth.birth_id) {
        Ok(state) => state,
        Err(_) => return false,
    };
    reservation.birth_id.same(&birth.birth_id) && reservation.create_attempt_id.same(
        create_attempt_id,
    ) && state.same(&ThreadOwnershipState::Unknown { create_attempt_id: *create_attempt_id })
}

/// What a late answer to a quarantined create settles.
pub enum LateStep {
    Seal(NativeRef),
    ProvenNotAccepted,
    StillUnknown,
}

pub fn late_create_step(received: Result<Received, TransportError>) -> (step: LateStep)
    ensures
        match create_next(CreateEvent::Responded(received)) {
            CreateStep::Seal(thread) => step == LateStep::Seal(thread),
            CreateStep::ProvenNotAccepted => step == LateStep::ProvenNotAccepted,
            _ => step == LateStep::StillUnknown,
        },
{
    match create_step(CreateEvent::Responded(received)) {
        CreateStep::Seal(thread) => LateStep::Seal(thread),
        CreateStep::ProvenNotAccepted => LateStep::ProvenNotAccepted,
        _ => LateStep::StillUnknown,
    }
}

/// Whether an owned thread may be resumed: its ownership must be on record
/// exactly.
pub fn resume_is_owned<P: Persist>(
    persist: &P,
    birth: &ControllerBirthBinding,
    create_attempt_id: &RequestNonce,
    thread_ref: &PrivateNativeRef,
) -> (result: Result<(), TransportError>)
    ensures
        result == if persist.store().ownership_state(birth.birth_id).owns(
            *create_attempt_id,
            *thread_ref,
        ) {
            Ok::<(), TransportError>(())
        } else {
            Err::<(), TransportError>(TransportError::Correlation)
        },
{
    match persist.thread_ownership_state(&birth.birth_id) {
        Ok(state) => if state.same(
            &ThreadOwnershipState::Owned {
                create_attempt_id: *create_attempt_id,
                thread_ref: *thread_ref,
            },
        ) {
            Ok(())
        } else {
            Err(TransportError::Correlation)
        },
        Err(error) => Err(map_persist_error(error)),
    }
}

/// The handshake of a resumed thread must be answered as such.
pub fn resume_handshake(received: Result<Received, TransportError>) -> (result: Result<
    (),
    TransportError,
>)
    ensures
        result == match received {
            Ok(Received::Initialized) => Ok::<(), TransportError>(()),
            Ok(_) => Err(TransportError::Correlation),
            Err(error) => Err(error),
        },
{
    match received {
        Ok(Received::Initialized) => Ok(()),
        Ok(_) => Err(TransportError::Correlation),
        Err(error) => Err(error),
    }
}

/// The request to resume must be answered as such, whatever state it reports.
pub fn resume_answer(received: Result<Received, TransportError>) -> (result: Result<
    (),
    TransportError,
>)
    ensures
        result == match received {
            Ok(Received::ThreadResumed(_)) => Ok::<(), TransportError>(()),
            Ok(_) => Err(TransportError::Correlation),
            Err(error) => Err(error),
        },
{
    match received {
        Ok(Received::ThreadResumed(_)) => Ok(()),
        Ok(_) => Err(TransportError::Correlation),
        Err(error) => Err(error),
    }
}

/// A coordinate as the server's name, where it can be one.
pub open spec fn native_name(plaintext: Seq<u8>) -> Result<Seq<u8>, TransportError> {
    if !valid_utf8(plaintext) {
        Err(TransportError::Malformed)
    } else if !transport::native_text(decode_utf8(plaintext)) {
        Err(TransportError::Bounds)
    } else {
        Ok(plaintext)
    }
}

/// The name that opening a coordinate gives.
pub open spec fn opened_name<P: Persist>(
    persist: P,
    scope: NativeCoordinateScope,
    reference: PrivateNativeRef,
) -> Result<Seq<u8>, TransportError> {
    match persist.store().open_coordinate(scope, reference) {
        Ok(plaintext) => native_name(plaintext),
        Err(error) => Err(mapped_error(error)),
    }
}

/// Opens a coordinate and reads it as the server's name.
pub fn open_name<P: Persist>(
    persist: &P,
    scope: &NativeCoordinateScope,
    reference: &PrivateNativeRef,
) -> (result: Result<NativeRef, TransportError>)
    ensures
        match result {
            Ok(name) => opened_name(*persist, *scope, *reference) == Ok::<
                Seq<u8>,
                TransportError,
            >(name@),
            Err(error) => opened_name(*persist, *scope, *reference) == Err::<
                Seq<u8>,
                TransportError,
            >(error),
        },
{
    let opened = match persist.open_native_coordinate(scope, reference) {
        Ok(opened) => opened,
        Err(error) => return Err(map_persist_error(error)),
    };
    let name = match opened.as_str() {
        Ok(name) => name,
        Err(_) => return Err(TransportError::Malformed),
    };
    proof {
        encode_utf8_valid_utf8(name@);
        encode_utf8_decode_utf8(name@);
    }
    NativeRef::parse_borrowed(name)
}

/// What a controller of one owned thread remembers.
#[derive(Clone, Copy)]
pub struct CodexLane {
    pub birth: ControllerBirthBinding,
    pub create_attempt_id: RequestNonce,
    pub thread_ref: PrivateNativeRef,
    /// How many unsolicited messages have changed what is known of the thread.
    pub epoch: u64,
    pub lane_probe: Option<RequestNonce>,
    pub started_turn: Option<PrivateNativeRef>,
    pub pending_terminal: Option<(PrivateNativeRef, TurnEnd)>,
    pub reconciling: Option<PersistedTurnCorrelation>,
    pub terminal: bool,
    pub lost_reported: bool,
    pub degraded_reported: bool,
}

/// A number and one, up to the largest.
pub open spec fn saturating_next(value: u64) -> u64 {
    if value == u64::MAX {
        value
    } else {
        (value + 1) as u64
    }
}

/// What a message came to while turn notifications are awaited.
pub enum PollStep {
    /// Read on.
    Again,
    /// Polling ends, with a fact or without.
    Done(Option<NativeTurnFact>),
}

/// How a probe's reading goes on.
pub enum ProbeReading {
    Again,
    Read { state: ThreadState, epoch: u64 },
    Failed,
}

/// Whether a prepared turn is dispatched.
pub enum DispatchStep {
    Dispatch,
    Concluded(NativeWriteDisposition),
}

impl CodexLane {
    /// The lane of a newly owned or resumed thread.
    pub open spec fn fresh(
        birth: ControllerBirthBinding,
        create_attempt_id: RequestNonce,
        thread_ref: PrivateNativeRef,
    ) -> CodexLane {
        CodexLane {
            birth,
            create_attempt_id,
            thread_ref,
            epoch: 0,
            lane_probe: None,
            started_turn: None,
            pending_terminal: None,
            reconciling: None,
            terminal: false,
            lost_reported: false,
            degraded_reported: false,
        }
    }

    pub fn from_owned_parts(
        birth: ControllerBirthBinding,
        create_attempt_id: RequestNonce,
        thread_ref: PrivateNativeRef,
    ) -> (lane: CodexLane)
        ensures
            lane == CodexLane::fresh(birth, create_attempt_id, thread_ref),
    {
        CodexLane {
            birth,
            create_attempt_id,
            thread_ref,
            epoch: 0,
            lane_probe: None,
            started_turn: None,
            pending_terminal: None,
            reconciling: None,
            terminal: false,
            lost_reported: false,
            degraded_reported: false,
        }
    }

    /// How the lane is shown: its binding stays out.
    pub fn redacted(&self) -> (text: String)
        ensures
            text@ == "CodexController([redacted owned binding])"@,
    {
        "CodexController([redacted owned binding])".to_owned()
    }

    pub fn thread_scope(&self) -> (scope: NativeCoordinateScope)
        ensures
            scope == scope_of_thread(self.birth, self.create_attempt_id),
    {
        NativeCoordinateScope::Thread {
            birth_id: self.birth.birth_id,
            create_attempt_id: self.create_attempt_id,
        }
    }

    /// The lane after an unsolicited message.
    pub open spec fn bumped(self) -> CodexLane {
        CodexLane { epoch: saturating_next(self.epoch), ..self }
    }

    pub fn bump_epoch(&mut self)
        ensures
            *final(self) == old(self).bumped(),
    {
        if self.epoch < u64::MAX {
            self.epoch = self.epoch + 1;
        }
    }

    /// Takes in one message while the transport is drained before a mutation.
    /// The drain is complete when nothing more is there.
    pub fn drain_before_mutation(&mut self, received: &Result<Received, TransportError>) -> (result:
        Option<Result<(), TransportError>>)
        ensures
            match received {
                Ok(_) => *final(self) == old(self).bumped() && result is None,
                Err(error) => *final(self) == *old(self) && result == Some(
                    if *error == TransportError::Deadline {
                        Ok::<(), TransportError>(())
                    } else {
                        Err::<(), TransportError>(*error)
                    },
                ),
            },
    {
        match received {
            Ok(_) => {
                self.bump_epoch();
                None
            },
            Err(error) => if *error == TransportError::Deadline {
                Some(Ok(()))
            } else {
                Some(Err(*error))
            },
        }
    }

    /// A probe is for this birth and thread, and no other probe holds the lane.
    pub open spec fn probe_allowed(self, binding: ProbeBinding) -> bool {
        &&& binding.attachment.birth_id == self.birth.birth_id
        &&& binding.thread_ref == self.thread_ref
        &&& self.lane_probe is None
    }

    /// Whether a probe may begin.
    pub fn begin_probe(&self, binding: &ProbeBinding) -> (result: Result<(), ControllerProbeError>)
        ensures
            result == if self.probe_allowed(*binding) {
                Ok::<(), ControllerProbeError>(())
            } else {
                Err::<(), ControllerProbeError>(ControllerProbeError::BindingRejected)
            },
    {
        if !binding.attachment.birth_id.same(&self.birth.birth_id) || !binding.thread_ref.same(
            &self.thread_ref,
        ) || self.lane_probe.is_some() {
            return Err(ControllerProbeError::BindingRejected);
        }
        Ok(())
    }

    /// Takes in one message while the answer to a probe's request is awaited.
    pub fn probe_received(&mut self, received: Result<Received, TransportError>) -> (reading:
        ProbeReading)
        ensures
            match received {
                Ok(Received::ThreadRead(state)) => *final(self) == *old(self) && reading == (
                ProbeReading::Read { state, epoch: old(self).epoch }),
                Ok(Received::Notification(_)) => *final(self) == old(self).bumped() && reading
                    == ProbeReading::Again,
                Ok(Received::ServerRequestRejected) => *final(self) == old(self).bumped()
                    && reading == ProbeReading::Again,
                _ => *final(self) == *old(self) && reading == ProbeReading::Failed,
            },
    {
        match received {
            Ok(Received::ThreadRead(state)) => ProbeReading::Read { state, epoch: self.epoch },
            Ok(Received::Notification(_)) => {
                self.bump_epoch();
                ProbeReading::Again
            },
            Ok(Received::ServerRequestRejected) => {
                self.bump_epoch();
                ProbeReading::Again
            },
            _ => ProbeReading::Failed,
        }
    }

    /// The mutation epoch of a sequence number.
    pub open spec fn epoch_at(self, sequence: u64) -> NativeMutationEpoch {
        NativeMutationEpoch { birth_id: self.birth.birth_id, sequence }
    }

    /// What a probe concludes from the report that it read and the drain after
    /// it. Idle keeps the lane for the probe; a message after the report makes
    /// the report worthless.
    pub open spec fn probe_concluded(
        self,
        binding: ProbeBinding,
        observed_at: Timestamp,
        reading: Option<(ThreadState, u64)>,
        drained: bool,
        after: CodexLane,
        result: Result<IdleProbeResult, ControllerProbeError>,
    ) -> bool {
        let probe_id = binding.challenge_id;
        let unproven = IdleProbeObservation::Unproven { binding, probe_id, observed_at };
        match reading {
            None => after == self && result == Ok::<IdleProbeResult, ControllerProbeError>(
                IdleProbeResult::Unproven(unproven),
            ),
            Some((state, epoch)) => if self.epoch != epoch {
                after == self && result == Err::<IdleProbeResult, ControllerProbeError>(
                    ControllerProbeError::EpochInvalidated,
                )
            } else if !drained {
                after == self && result == Ok::<IdleProbeResult, ControllerProbeError>(
                    IdleProbeResult::Unproven(unproven),
                )
            } else {
                match state {
                    ThreadState::Idle => {
                        &&& after == (CodexLane { lane_probe: Some(probe_id), ..self })
                        &&& result == Ok::<IdleProbeResult, ControllerProbeError>(
                            IdleProbeResult::Idle {
                                observation: IdleProbeObservation::Idle {
                                    binding,
                                    probe_id,
                                    epoch: self.epoch_at(epoch),
                                    observed_at,
                                },
                                lane: ControllerIdleGuard {
                                    probe_id,
                                    epoch: self.epoch_at(epoch),
                                },
                            },
                        )
                    },
                    ThreadState::ActiveTurn(prehash) => {
                        &&& after == self
                        &&& result matches Ok(IdleProbeResult::Active(evidence)) && evidence@
                            == controller::proof_from_binding(
                            binding,
                            self.create_attempt_id,
                            self.epoch_at(epoch),
                            observed_at,
                            prehash.digest@,
                            PRODUCER_VERSION@,
                            PRODUCER_DIALECT@,
                        )
                    },
                    ThreadState::Unproven => after == self && result == Ok::<
                        IdleProbeResult,
                        ControllerProbeError,
                    >(IdleProbeResult::Unproven(unproven)),
                }
            },
        }
    }

    /// Concludes a probe. `reading` is absent where no report came; `drained`
    /// says whether the drain after the report was clean.
    pub fn conclude_probe(
        &mut self,
        binding: ProbeBinding,
        observed_at: Timestamp,
        reading: Option<(ThreadState, u64)>,
        drained: bool,
    ) -> (result: Result<IdleProbeResult, ControllerProbeError>)
        ensures
            old(self).probe_concluded(
                binding,
                observed_at,
                reading,
                drained,
                *final(self),
                result,
            ),
    {
        let probe_id = binding.challenge_id;
        let (state, epoch) = match reading {
            Some(read) => read,
            None => return Ok(
                IdleProbeResult::Unproven(
                    IdleProbeObservation::Unproven { binding, probe_id, observed_at },
                ),
            ),
        };
        if self.epoch != epoch {
            return Err(ControllerProbeError::EpochInvalidated);
        }
        if !drained {
            return Ok(
                IdleProbeResult::Unproven(
                    IdleProbeObservation::Unproven { binding, probe_id, observed_at },
                ),
            );
        }
        let mutation = NativeMutationEpoch { birth_id: self.birth.birth_id, sequence: epoch };
        match state {
            ThreadState::Idle => {
                self.lane_probe = Some(probe_id);
                Ok(
                    IdleProbeResult::Idle {
                        observation: IdleProbeObservation::Idle {
                            binding,
                            probe_id,
                            epoch: mutation,
                            observed_at,
                        },
                        lane: ControllerIdleGuard { probe_id, epoch: mutation },
                    },
                )
            },
            ThreadState::ActiveTurn(prehash) => Ok(
                IdleProbeResult::Active(
                    ActiveObservationProof::from_binding(
                        binding,
                        self.create_attempt_id,
                        mutation,
                        observed_at,
                        prehash,
                        PRODUCER_VERSION,
                        PRODUCER_DIALECT,
                    ),
                ),
            ),
            ThreadState::Unproven => Ok(
                IdleProbeResult::Unproven(
                    IdleProbeObservation::Unproven { binding, probe_id, observed_at },
                ),
            ),
        }
    }

    /// The lane without a probe.
    pub open spec fn released(self) -> CodexLane {
        CodexLane { lane_probe: None, ..self }
    }

    /// The lane is held by the command's probe, and the guard is that probe's.
    pub open spec fn write_allowed(
        self,
        guard: ControllerIdleGuard,
        command: ControllerCommand,
    ) -> bool {
        &&& self.lane_probe == Some(command.expected_probe_id)
        &&& guard.probe_id == command.expected_probe_id
        &&& guard.epoch == command.expected_epoch
    }

    /// Whether a reserved turn may be prepared. A refusal releases the lane.
    pub fn begin_write(&mut self, guard: &ControllerIdleGuard, command: &ControllerCommand) -> (
        result: Result<(), ControllerWriteError>)
        ensures
            if old(self).write_allowed(*guard, *command) {
                *final(self) == *old(self) && result == Ok::<(), ControllerWriteError>(())
            } else {
                *final(self) == old(self).released() && result == Err::<(), ControllerWriteError>(
                    ControllerWriteError::BindingRejected,
                )
            },
    {
        let (expected_probe, expected_epoch) = command.expected_probe();
        let held = match &self.lane_probe {
            Some(probe) => probe.same(expected_probe),
            None => false,
        };
        if !held || !guard.probe_id.same(expected_probe) || !guard.epoch.same(expected_epoch) {
            self.lane_probe = None;
            return Err(ControllerWriteError::BindingRejected);
        }
        Ok(())
    }

    /// The turn could not be prepared: nothing was written.
    pub fn abandon_write(&mut self) -> (disposition: NativeWriteDisposition)
        ensures
            *final(self) == old(self).released(),
            disposition == NativeWriteDisposition::ProvenNotAccepted,
    {
        self.lane_probe = None;
        NativeWriteDisposition::ProvenNotAccepted
    }

    /// The last decision before a prepared turn leaves. Dispatch needs a clean
    /// drain, the probe's own epoch, the immutable binding and a running lease;
    /// anything else writes nothing and releases the lane.
    pub fn authorize_dispatch(
        &mut self,
        command: &ControllerCommand,
        drained: bool,
        now: Timestamp,
    ) -> (result: Result<DispatchStep, ControllerWriteError>)
        ensures
            if !drained {
                *final(self) == old(self).released() && result == Ok::<
                    DispatchStep,
                    ControllerWriteError,
                >(DispatchStep::Concluded(NativeWriteDisposition::ProvenNotAccepted))
            } else if old(self).epoch_at(old(self).epoch) != command.expected_epoch {
                *final(self) == old(self).released() && result == Ok::<
                    DispatchStep,
                    ControllerWriteError,
                >(
                    DispatchStep::Concluded(
                        NativeWriteDisposition::IdleEpochInvalidated {
                            probe_id: command.expected_probe_id,
                            expected_epoch: command.expected_epoch,
                            observed_epoch: old(self).epoch_at(old(self).epoch),
                        },
                    ),
                )
            } else if !command.bound_immutably(old(self).birth, old(self).thread_ref) {
                *final(self) == old(self).released() && result == Err::<
                    DispatchStep,
                    ControllerWriteError,
                >(ControllerWriteError::BindingRejected)
            } else if !command.leased(old(self).birth, now) {
                *final(self) == old(self).released() && result == Ok::<
                    DispatchStep,
                    ControllerWriteError,
                >(DispatchStep::Concluded(NativeWriteDisposition::ProvenNotAccepted))
            } else {
                *final(self) == *old(self) && result == Ok::<DispatchStep, ControllerWriteError>(
                    DispatchStep::Dispatch,
                )
            },
    {
        if !drained {
            return Ok(DispatchStep::Concluded(self.abandon_write()));
        }
        let (expected_probe, expected_epoch) = command.expected_probe();
        let observed_epoch = NativeMutationEpoch {
            birth_id: self.birth.birth_id,
            sequence: self.epoch,
        };
        if !observed_epoch.same(expected_epoch) {
            self.lane_probe = None;
            return Ok(
                DispatchStep::Concluded(
                    NativeWriteDisposition::IdleEpochInvalidated {
                        probe_id: *expected_probe,
                        expected_epoch: *expected_epoch,
                        observed_epoch,
                    },
                ),
            );
        }
        if !command.validate_immutable_binding(&self.birth, &self.thread_ref) {
            self.lane_probe = None;
            return Err(ControllerWriteError::BindingRejected);
        }
        if !command.lease_is_current(&self.birth, now) {
            return Ok(DispatchStep::Concluded(self.abandon_write()));
        }
        Ok(DispatchStep::Dispatch)
    }

    /// The lane after a write: released, and reconciling where the write is
    /// unknown.
    pub open spec fn written(
        self,
        correlation: PersistedTurnCorrelation,
        disposition: NativeWriteDisposition,
    ) -> CodexLane {
        CodexLane {
            lane_probe: None,
            reconciling: if disposition == NativeWriteDisposition::Unknown {
                Some(correlation)
            } else {
                None
            },
            ..self
        }
    }

    /// The dispatch failed. Only a failure without a byte written settles it.
    pub fn dispatch_failed(&mut self, command: &ControllerCommand, failure: WriteFailure) -> (
        disposition: NativeWriteDisposition)
        ensures
            if failure.receipt == WriteReceipt::ProvenNotWritten {
                *final(self) == old(self).released() && disposition
                    == NativeWriteDisposition::ProvenNotAccepted
            } else {
                *final(self) == old(self).written(
                    command.correlation,
                    NativeWriteDisposition::Unknown,
                ) && disposition == NativeWriteDisposition::Unknown
            },
    {
        self.lane_probe = None;
        let disposition = failed_write_disposition(failure);
        if let NativeWriteDisposition::Unknown = disposition {
            self.reconciling = Some(*command.correlation());
        }
        disposition
    }

    /// What the answer to a dispatched turn comes to, given what sealing the
    /// turn's name gave.
    pub open spec fn turn_verdict(
        received: Result<Received, TransportError>,
        sealed: Result<PrivateNativeRef, PersistError>,
    ) -> NativeWriteDisposition {
        match received {
            Ok(Received::TurnStarted(_)) => match sealed {
                Ok(turn_ref) => NativeWriteDisposition::Accepted { turn_ref },
                Err(_) => NativeWriteDisposition::Unknown,
            },
            Err(error) => if error == TransportError::Native {
                NativeWriteDisposition::ProvenNotAccepted
            } else {
                NativeWriteDisposition::Unknown
            },
            _ => NativeWriteDisposition::Unknown,
        }
    }

    /// The answer to a dispatched turn.
    pub fn turn_answered<P: Persist>(
        &mut self,
        persist: &mut P,
        command: &ControllerCommand,
        received: Result<Received, TransportError>,
    ) -> (disposition: NativeWriteDisposition)
        ensures
            *final(self) == old(self).written(command.correlation, disposition),
            match received {
                Ok(Received::TurnStarted(turn)) => exists|
                    sealed: Result<PrivateNativeRef, PersistError>,
                | #[trigger]
                    seals(
                        *old(persist),
                        *final(persist),
                        command.correlation.scope_of_turn(),
                        NativeCoordinateKind::Turn,
                        turn@,
                        sealed,
                    ) && disposition == CodexLane::turn_verdict(received, sealed),
                _ => *final(persist) == *old(persist) && disposition == CodexLane::turn_verdict(
                    received,
                    Err(PersistError::Conflict),
                ),
            },
    {
        let disposition = match received {
            Ok(Received::TurnStarted(turn)) => match seal_turn(
                persist,
                &command.turn_scope(),
                &turn,
            ) {
                Ok(turn_ref) => NativeWriteDisposition::Accepted { turn_ref },
                Err(_) => NativeWriteDisposition::Unknown,
            },
            Err(TransportError::Native) => NativeWriteDisposition::ProvenNotAccepted,
            _ => NativeWriteDisposition::Unknown,
        };
        if let NativeWriteDisposition::Unknown = disposition {
            self.reconciling = Some(*command.correlation());
        } else {
            self.reconciling = None;
        }
        self.lane_probe = None;
        disposition
    }

    /// The lane and the fact when something degraded is reported: once only.
    pub open spec fn once(self, fact: NativeTurnFact) -> (CodexLane, Option<NativeTurnFact>) {
        if self.degraded_reported {
            (self, None)
        } else {
            (CodexLane { degraded_reported: true, ..self }, Some(fact))
        }
    }

    pub fn degraded_once(&mut self) -> (fact: Option<NativeTurnFact>)
        ensures
            (*final(self), fact) == old(self).once(NativeTurnFact::DegradedTerminalObservation),
    {
        if self.degraded_reported {
            None
        } else {
            self.degraded_reported = true;
            Some(NativeTurnFact::DegradedTerminalObservation)
        }
    }

    pub fn unknown_once(&mut self) -> (fact: Option<NativeTurnFact>)
        ensures
            (*final(self), fact) == old(self).once(NativeTurnFact::Unknown),
    {
        if self.degraded_reported {
            None
        } else {
            self.degraded_reported = true;
            Some(NativeTurnFact::Unknown)
        }
    }

    /// A scope is for this birth and thread.
    pub open spec fn concerns(self, correlation: PersistedTurnCorrelation) -> bool {
        correlation.birth_id == self.birth.birth_id && correlation.thread_ref == self.thread_ref
    }

    fn is_about(&self, correlation: &PersistedTurnCorrelation) -> (about: bool)
        ensures
            about == self.concerns(*correlation),
    {
        correlation.birth_id.same(&self.birth.birth_id) && correlation.thread_ref.same(
            &self.thread_ref,
        )
    }

    /// Polling begins: with the fact of an end that came before its start, where
    /// one is kept and the turn has started by now.
    pub open spec fn poll_begun(self, correlation: PersistedTurnCorrelation) -> (
        CodexLane,
        Option<Option<NativeTurnFact>>,
    ) {
        if !self.concerns(correlation) || self.lost_reported || correlation.turn_ref is None {
            (self, Some(None))
        } else {
            let turn_ref = correlation.turn_ref->0;
            if self.started_turn == Some(turn_ref) && self.pending_terminal is Some {
                let (kept, end) = self.pending_terminal->0;
                let taken = CodexLane { pending_terminal: None, ..self };
                if kept == turn_ref {
                    (
                        CodexLane { terminal: true, ..taken },
                        Some(
                            Some(
                                NativeTurnFact::Terminal { turn_ref: kept, class: class_of(end) },
                            ),
                        ),
                    )
                } else {
                    let (after, fact) = taken.once(NativeTurnFact::DegradedTerminalObservation);
                    (after, Some(fact))
                }
            } else {
                (self, None)
            }
        }
    }

    /// Begins to poll. A result ends the poll at once.
    pub fn begin_poll(&mut self, scope: &ObservationScope) -> (done: Option<
        Option<NativeTurnFact>,
    >)
        ensures
            (*final(self), done) == old(self).poll_begun(scope.correlation),
    {
        let correlation = scope.correlation();
        if !self.is_about(correlation) {
            return Some(None);
        }
        if self.lost_reported {
            return Some(None);
        }
        let turn_ref = match &correlation.turn_ref {
            Some(turn_ref) => turn_ref,
            None => return Some(None),
        };
        let started = match &self.started_turn {
            Some(started) => started.same(turn_ref),
            None => false,
        };
        if started {
            if let Some((kept, end)) = self.pending_terminal {
                self.pending_terminal = None;
                if kept.same(turn_ref) {
                    self.terminal = true;
                    return Some(
                        Some(
                            NativeTurnFact::Terminal {
                                turn_ref: kept,
                                class: terminal_class(end),
                            },
                        ),
                    );
                }
                return Some(self.degraded_once());
            }
        }
        None
    }

    /// The names that notifications must carry to concern the turn, where both
    /// coordinates open.
    pub open spec fn names_of<P: Persist>(
        self,
        persist: P,
        scope: NativeCoordinateScope,
        turn_ref: PrivateNativeRef,
    ) -> Option<(Seq<u8>, Seq<u8>)> {
        match (
            opened_name(
                persist,
                scope_of_thread(self.birth, self.create_attempt_id),
                self.thread_ref,
            ),
            opened_name(persist, scope, turn_ref),
        ) {
            (Ok(thread), Ok(turn)) => Some((thread, turn)),
            _ => None,
        }
    }

    /// Opens the names of thread and turn. Without them the poll is degraded.
    pub fn expected_names<P: Persist>(
        &self,
        persist: &P,
        scope: &NativeCoordinateScope,
        turn_ref: &PrivateNativeRef,
    ) -> (names: Option<(NativeRef, NativeRef)>)
        ensures
            match names {
                Some((thread, turn)) => self.names_of(*persist, *scope, *turn_ref) == Some(
                    (thread@, turn@),
                ),
                None => self.names_of(*persist, *scope, *turn_ref) is None,
            },
    {
        let thread = match open_name(persist, &self.thread_scope(), &self.thread_ref) {
            Ok(thread) => thread,
            Err(_) => return None,
        };
        let turn = match open_name(persist, scope, turn_ref) {
            Ok(turn) => turn,
            Err(_) => return None,
        };
        Some((thread, turn))
    }

    /// What one message does to a poll for the turn that the server calls
    /// `turn` on `thread`.
    pub open spec fn observed(
        self,
        turn_ref: PrivateNativeRef,
        thread: Seq<u8>,
        turn: Seq<u8>,
        received: Result<Received, TransportError>,
    ) -> (CodexLane, PollStep) {
        match received {
            Err(error) => match error {
                TransportError::Closed | TransportError::Ambiguous => if !self.lost_reported {
                    (
                        CodexLane { lost_reported: true, ..self },
                        PollStep::Done(Some(NativeTurnFact::ControllerLost)),
                    )
                } else {
                    let (after, fact) = self.once(NativeTurnFact::Unknown);
                    (after, PollStep::Done(fact))
                },
                TransportError::Malformed
                | TransportError::Bounds
                | TransportError::Degraded
                | TransportError::Correlation => {
                    let (after, fact) = self.once(NativeTurnFact::DegradedTerminalObservation);
                    (after, PollStep::Done(fact))
                },
                TransportError::Deadline => (self, PollStep::Done(None)),
                _ => {
                    let (after, fact) = self.once(NativeTurnFact::Unknown);
                    (after, PollStep::Done(fact))
                },
            },
            Ok(Received::Notification(notification)) => {
                let lane = self.bumped();
                match notification {
                    Notification::TurnStarted { thread: t, turn: u } if t@ == thread && u@
                        == turn => if lane.started_turn == Some(turn_ref) {
                        (lane, PollStep::Again)
                    } else {
                        (
                            CodexLane { started_turn: Some(turn_ref), ..lane },
                            PollStep::Done(Some(NativeTurnFact::Started { turn_ref })),
                        )
                    },
                    Notification::Terminal { thread: t, turn: u, class } if t@ == thread && u@
                        == turn => if lane.terminal {
                        (lane, PollStep::Again)
                    } else if lane.started_turn != Some(turn_ref) {
                        if lane.pending_terminal is None {
                            (
                                CodexLane { pending_terminal: Some((turn_ref, class)), ..lane },
                                PollStep::Again,
                            )
                        } else {
                            let (after, fact) = lane.once(
                                NativeTurnFact::DegradedTerminalObservation,
                            );
                            (after, PollStep::Done(fact))
                        }
                    } else {
                        (
                            CodexLane { terminal: true, ..lane },
                            PollStep::Done(
                                Some(
                                    NativeTurnFact::Terminal { turn_ref, class: class_of(class) },
                                ),
                            ),
                        )
                    },
                    Notification::DegradedTerminal { thread: t, turn: u } if t@ == thread && u@
                        == turn => (
                        lane,
                        PollStep::Done(Some(NativeTurnFact::DegradedTerminalObservation)),
                    ),
                    _ => (lane, PollStep::Again),
                }
            },
            Ok(_) => {
                let (after, fact) = self.once(NativeTurnFact::DegradedTerminalObservation);
                (after, PollStep::Done(fact))
            },
        }
    }

    /// Takes one message into a poll.
    pub fn exact_notification(
        &mut self,
        turn_ref: &PrivateNativeRef,
        expected_thread: &NativeRef,
        expected_turn: &NativeRef,
        received: Result<Received, TransportError>,
    ) -> (step: PollStep)
        ensures
            (*final(self), step) == old(self).observed(
                *turn_ref,
                expected_thread@,
                expected_turn@,
                received,
            ),
    {
        let notification = match received {
            Ok(Received::Notification(notification)) => notification,
            Ok(_) => return PollStep::Done(self.degraded_once()),
            Err(error) => {
                return match error {
                    TransportError::Closed | TransportError::Ambiguous => if !self.lost_reported {
                        self.lost_reported = true;
                        PollStep::Done(Some(NativeTurnFact::ControllerLost))
                    } else {
                        PollStep::Done(self.unknown_once())
                    },
                    TransportError::Malformed
                    | TransportError::Bounds
                    | TransportError::Degraded
                    | TransportError::Correlation => PollStep::Done(self.degraded_once()),
                    TransportError::Deadline => PollStep::Done(None),
                    _ => PollStep::Done(self.unknown_once()),
                };
            },
        };
        self.bump_epoch();
        let started = match &self.started_turn {
            Some(started) => started.same(turn_ref),
            None => false,
        };
        match notification {
            Notification::Signal => PollStep::Again,
            Notification::TurnStarted { thread, turn } => {
                if !thread.same(expected_thread) || !turn.same(expected_turn) || started {
                    return PollStep::Again;
                }
                self.started_turn = Some(*turn_ref);
                PollStep::Done(Some(NativeTurnFact::Started { turn_ref: *turn_ref }))
            },
            Notification::Terminal { thread, turn, class } => {
                if !thread.same(expected_thread) || !turn.same(expected_turn) || self.terminal {
                    return PollStep::Again;
                }
                if !started {
                    if self.pending_terminal.is_none() {
                        self.pending_terminal = Some((*turn_ref, class));
                        return PollStep::Again;
                    }
                    return PollStep::Done(self.degraded_once());
                }
                self.terminal = true;
                PollStep::Done(
                    Some(
                        NativeTurnFact::Terminal {
                            turn_ref: *turn_ref,
                            class: terminal_class(class),
                        },
                    ),
                )
            },
            Notification::DegradedTerminal { thread, turn } => {
                if thread.same(expected_thread) && turn.same(expected_turn) {
                    PollStep::Done(Some(NativeTurnFact::DegradedTerminalObservation))
                } else {
                    PollStep::Again
                }
            },
        }
    }

    /// The snapshot holds an unknown write of exactly this scope.
    pub open spec fn durably_unknown(
        snapshot: Option<RecoverySnapshot>,
        scope: ReconciliationScope,
    ) -> bool {
        snapshot matches Some(state) && state.native_write_evidence@.contains(
            PersistedNativeWriteEvidence {
                correlation: scope.correlation,
                evidence: NativeWriteEvidence::Unknown,
                evidence_ref: scope.evidence_ref,
            },
        )
    }

    /// Why a scope cannot be reconciled, if it cannot.
    pub open spec fn reconcile_verdict(
        self,
        scope: ReconciliationScope,
        snapshot: Option<RecoverySnapshot>,
    ) -> Result<(), ControllerReconcileError> {
        if (self.reconciling matches Some(expected) && expected != scope.correlation)
            || !CodexLane::durably_unknown(snapshot, scope) || !self.concerns(scope.correlation) {
            Err(ControllerReconcileError::BindingRejected)
        } else {
            Ok(())
        }
    }

    /// Whether a scope may be reconciled, given what the store recovers.
    pub fn reconcile_allowed(
        &self,
        scope: &ReconciliationScope,
        snapshot: &Option<RecoverySnapshot>,
    ) -> (result: Result<(), ControllerReconcileError>)
        ensures
            result == self.reconcile_verdict(*scope, *snapshot),
    {
        let correlation = scope.correlation();
        let durable = match snapshot {
            Some(state) => {
                let list = &state.native_write_evidence;
                let ghost wanted = PersistedNativeWriteEvidence {
                    correlation: scope.correlation,
                    evidence: NativeWriteEvidence::Unknown,
                    evidence_ref: scope.evidence_ref,
                };
                let mut found = false;
                let mut i: usize = 0;
                while i < list.len() && !found
                    invariant
                        i <= list@.len(),
                        *correlation == scope.correlation,
                        wanted == (PersistedNativeWriteEvidence {
                            correlation: scope.correlation,
                            evidence: NativeWriteEvidence::Unknown,
                            evidence_ref: scope.evidence_ref,
                        }),
                        found ==> list@.contains(wanted),
                        !found ==> forall|j: int| 0 <= j < i ==> list@[j] != wanted,
                    decreases list.len() - i,
                {
                    let evidence = &list[i];
                    if evidence.correlation.same(correlation) && evidence.evidence_ref
                        == scope.evidence_ref && evidence.evidence.same(
                        &NativeWriteEvidence::Unknown,
                    ) {
                        found = true;
                        assert(list@[i as int] == wanted);
                    }
                    i += 1;
                }
                found
            },
            None => false,
        };
        let other = match &self.reconciling {
            Some(expected) => !expected.same(correlation),
            None => false,
        };
        if other || !durable || !self.is_about(correlation) {
            return Err(ControllerReconcileError::BindingRejected);
        }
        Ok(())
    }

    /// Recovers the store and decides by the snapshot whether a scope may be
    /// reconciled. Where the store cannot be recovered, nothing may.
    pub fn begin_reconcile<P: Persist>(&self, persist: &mut P, scope: &ReconciliationScope) -> (
        result: Result<(), ControllerReconcileError>)
        ensures
            exists|
                pairs: Seq<(AttemptId, PersistedNativeReservation)>,
                refs: Seq<VerifierRef>,
                snapshot: Option<RecoverySnapshot>,
            |
                #![trigger
                    old(persist).store().recovers(pairs, refs, final(persist).store()),
                    self.reconcile_verdict(*scope, snapshot)
                ]
                old(persist).store().recovers(pairs, refs, final(persist).store()) && (
                snapshot is Some <==> old(persist).store().all_marked(pairs, refs)) && (
                snapshot matches Some(state) ==> final(persist).store().snapshot(state)) && result
                    == self.reconcile_verdict(*scope, snapshot),
    {
        let ghost before = *persist;
        let recovered = persist.recover_authority_state();
        let ghost (pairs, refs) = choose|
            pairs: Seq<(AttemptId, PersistedNativeReservation)>,
            refs: Seq<VerifierRef>,
        | #[trigger]
            before.store().recovers(pairs, refs, persist.store()) && (recovered is Ok
                <==> before.store().all_marked(pairs, refs));
        let snapshot = match recovered {
            Ok(state) => Some(state),
            Err(_) => None,
        };
        let result = self.reconcile_allowed(scope, &snapshot);
        assert(before.store().recovers(pairs, refs, persist.store()));
        assert(result == self.reconcile_verdict(*scope, snapshot));
        result
    }

    /// What a message settles of an unknown write, given what sealing gave.
    pub open spec fn reconciled_as(
        received: Result<Received, TransportError>,
        sealed: Result<PrivateNativeRef, PersistError>,
    ) -> ReconciliationDisposition {
        match CodexLane::turn_verdict(received, sealed) {
            NativeWriteDisposition::Accepted { turn_ref } => {
                ReconciliationDisposition::Accepted { turn_ref }
            },
            NativeWriteDisposition::ProvenNotAccepted => {
                ReconciliationDisposition::ProvenNotAccepted
            },
            _ => ReconciliationDisposition::Unknown,
        }
    }

    /// Takes the message that an unknown write waits for.
    pub fn reconcile_received<P: Persist>(
        persist: &mut P,
        scope: &ReconciliationScope,
        received: Result<Received, TransportError>,
    ) -> (disposition: ReconciliationDisposition)
        ensures
            match received {
                Ok(Received::TurnStarted(turn)) => exists|
                    sealed: Result<PrivateNativeRef, PersistError>,
                | #[trigger]
                    seals(
                        *old(persist),
                        *final(persist),
                        scope.correlation.scope_of_turn(),
                        NativeCoordinateKind::Turn,
                        turn@,
                        sealed,
                    ) && disposition == CodexLane::reconciled_as(received, sealed),
                _ => *final(persist) == *old(persist) && disposition == CodexLane::reconciled_as(
                    received,
                    Err(PersistError::Conflict),
                ),
            },
    {
        match received {
            Ok(Received::TurnStarted(turn)) => match seal_turn(
                persist,
                &scope.turn_scope(),
                &turn,
            ) {
                Ok(turn_ref) => ReconciliationDisposition::Accepted { turn_ref },
                Err(_) => ReconciliationDisposition::Unknown,
            },
            Err(TransportError::Native) => ReconciliationDisposition::ProvenNotAccepted,
            _ => ReconciliationDisposition::Unknown,
        }
    }
}

/// Seals the turn that the server named.
pub fn seal_turn<P: Persist>(persist: &mut P, scope: &NativeCoordinateScope, turn: &NativeRef) -> (
    result: Result<PrivateNativeRef, TransportError>)
    ensures
        exists|sealed: Result<PrivateNativeRef, PersistError>| #[trigger]
            seals(
                *old(persist),
                *final(persist),
                *scope,
                NativeCoordinateKind::Turn,
                turn@,
                sealed,
            ) && result == match sealed {
                Ok(reference) => Ok::<PrivateNativeRef, TransportError>(reference),
                Err(error) => Err(mapped_error(error)),
            },
{
    let secret = match SecretNativeCoordinate::turn(turn.as_str()) {
        Ok(secret) => secret,
        Err(_) => {
            assert(false);
            return Err(TransportError::Bounds);
        },
    };
    let ghost before = *persist;
    let sealed = persist.seal_native_coordinate(scope, &secret);
    assert(seals(before, *persist, *scope, NativeCoordinateKind::Turn, turn@, sealed));
    match sealed {
        Ok(reference) => Ok(reference),
        Err(error) => Err(map_persist_error(error)),
    }
}

/// A probe that finds the thread busy or unproven leaves the lane as it was:
/// only idle gives a guard, and only for the epoch of the report.
pub proof fn only_idle_takes_the_lane(
    before: CodexLane,
    binding: ProbeBinding,
    observed_at: Timestamp,
    reading: Option<(ThreadState, u64)>,
    drained: bool,
    after: CodexLane,
    result: Result<IdleProbeResult, ControllerProbeError>,
)
    requires
        before.probe_concluded(binding, observed_at, reading, drained, after, result),
    ensures
        result matches Ok(IdleProbeResult::Idle { lane, .. }) ==> after.lane_probe == Some(
            lane.probe_id,
        ) && lane.epoch == before.epoch_at(before.epoch) && reading == Some(
            (ThreadState::Idle, before.epoch),
        ) && drained,
        !(result matches Ok(IdleProbeResult::Idle { .. })) ==> after == before,
{
}

/// A fact about a degraded or unknown observation is reported once in a lane's
/// life: after it nothing of the kind is reported again.
pub proof fn degraded_is_reported_once(lane: CodexLane, fact: NativeTurnFact, later: NativeTurnFact)
    ensures
        lane.once(fact).0.once(later).1 is None,
{
}

/// A turn's end is reported only after its start, whichever order the server's
/// notifications come in, and never twice.
pub proof fn end_follows_start(
    lane: CodexLane,
    turn_ref: PrivateNativeRef,
    thread: Seq<u8>,
    turn: Seq<u8>,
    received: Result<Received, TransportError>,
)
    ensures
        lane.observed(turn_ref, thread, turn, received).1 matches PollStep::Done(
            Some(NativeTurnFact::Terminal { .. }),
        ) ==> lane.started_turn == Some(turn_ref) && !lane.terminal && lane.observed(
            turn_ref,
            thread,
            turn,
            received,
        ).0.terminal,
{
}

/// Messages about other threads or turns never give a fact about this turn.
pub proof fn foreign_notifications_are_ignored(
    lane: CodexLane,
    turn_ref: PrivateNativeRef,
    thread: Seq<u8>,
    turn: Seq<u8>,
    other_thread: NativeRef,
    other_turn: NativeRef,
    class: TurnEnd,
)
    requires
        other_thread@ != thread || other_turn@ != turn,
    ensures
        ({
            let started = Notification::TurnStarted { thread: other_thread, turn: other_turn };
            let ended = Notification::Terminal { thread: other_thread, turn: other_turn, class };
            &&& lane.observed(turn_ref, thread, turn, Ok(Received::Notification(started))) == (
                lane.bumped(),
                PollStep::Again,
            )
            &&& lane.observed(turn_ref, thread, turn, Ok(Received::Notification(ended))) == (
                lane.bumped(),
                PollStep::Again,
            )
        }),
{
}

/// A lane serves one write: once a turn was answered, failed or given up, no
/// guard and no command is let through until another probe has taken the lane.
pub proof fn write_uses_up_the_lane(
    lane: CodexLane,
    correlation: PersistedTurnCorrelation,
    disposition: NativeWriteDisposition,
    guard: ControllerIdleGuard,
    command: ControllerCommand,
)
    ensures
        !lane.written(correlation, disposition).write_allowed(guard, command),
        !lane.released().write_allowed(guard, command),
{
}

/// A message that comes between the probe and the dispatch takes the command's
/// epoch away from the lane, so the turn is not dispatched. Only the last epoch
/// of all cannot be left.
pub proof fn message_outdates_the_command(lane: CodexLane, command: ControllerCommand)
    requires
        lane.epoch_at(lane.epoch) == command.expected_epoch,
        lane.epoch < u64::MAX,
    ensures
        lane.bumped().epoch_at(lane.bumped().epoch) != command.expected_epoch,
{
}

/// That the controller is lost is reported once: the report is remembered, and
/// from then on a poll ends at once, without a fact and without a change.
pub proof fn loss_is_reported_once(
    lane: CodexLane,
    turn_ref: PrivateNativeRef,
    thread: Seq<u8>,
    turn: Seq<u8>,
    received: Result<Received, TransportError>,
    correlation: PersistedTurnCorrelation,
)
    ensures
        ({
            let (after, step) = lane.observed(turn_ref, thread, turn, received);
            step == PollStep::Done(Some(NativeTurnFact::ControllerLost)) ==> after.lost_reported
                && after.poll_begun(correlation) == (after, Some(None::<NativeTurnFact>))
        }),
{
}

/// Reconciliation never invents an acceptance: it is reported only with the
/// reference of a turn that the server named and the store sealed.
pub proof fn reconciled_turns_are_sealed(
    received: Result<Received, TransportError>,
    sealed: Result<PrivateNativeRef, PersistError>,
)
    ensures
        CodexLane::reconciled_as(received, sealed) matches ReconciliationDisposition::Accepted {
            turn_ref,
        } ==> received matches Ok(Received::TurnStarted(_)) && sealed == Ok::<
            PrivateNativeRef,
            PersistError,
        >(turn_ref),
{
}

} // verus!
