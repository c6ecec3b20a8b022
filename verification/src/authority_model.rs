//! What daemon authority holds and what each operation makes of it.

use crate::authority::{
    AdmissionReceipt, AuthorityError, AuthorizedNativeWrite, ControllerBirthReservation,
    CreateResolution, ExactObservationRecord, NativeWriteConclusion, PreparedDispatch,
    ProbeAuthorization, QuarantinedBirthReservation, ReconciliationPhase,
};
use crate::controller;
use crate::controller::{
    ActiveProofModel, ControllerAttachment, ControllerBirthBinding, ControllerCommand,
    ControllerProbeError, ControllerReconcileError, ControllerWriteError, IdleProbeObservation,
    IdleProbeResult, IdleProbeScope, ManagedCapability, NativeTurnFact, NativeWriteDisposition,
    ObservationScope, PersistedTurnCorrelation, ProbeBinding, ReconciliationDisposition,
    ReconciliationScope, SignalAction, ValidatedIdlePermit,
};
use crate::ident;
use crate::ident::{
    ArmId, AttemptId, ClaimRequestId, ControllerBirthId, EntropyError, RequestNonce, SeatId,
    SignalId, VerifierRef,
};
use crate::primitives;
use crate::protocol::EventModel;
use crate::records::{
    ClaimModel, ClaimOutcome, IdempotentWrite, NativeTurnFactCommit, NativeWriteEvidence,
    NativeWriteEvidenceCommit, PersistError, PersistedArm, PersistedControllerAttachment,
    PersistedControllerBirth, PersistedNativeWriteEvidence, PersistedThreadOwnership,
    PreWriteConclusion, PreWriteConclusionCommit, RecoverySnapshot, ReserveBirthOutcome,
    ThreadCreateCommit, ThreadCreateReservation, ThreadCreateResolution, ThreadOwnershipState,
    ValidatedAttachmentScope,
};
use crate::store;
use crate::store::Store;
use crate::table;
use crate::text;
use crate::timestamp::Timestamp;
use vstd::prelude::*;
use vstd::utf8::*;

verus! {

/// Most events in one claim.
pub const MAX_CLAIM_EVENTS: usize = 64;

/// Longest event body, in bytes.
pub const MAX_EVENT_BODY_BYTES: usize = 4_096;

/// Longest sum of event bodies in one claim, in bytes.
pub const MAX_AGGREGATE_BODY_BYTES: usize = 131_072;

/// Longest event reference, in bytes.
pub const MAX_EVENT_REF_BYTES: usize = 256;

/// Longest provider name, in bytes.
pub const MAX_PROVIDER_BYTES: usize = 64;

/// Longest actor name, in bytes.
pub const MAX_ACTOR_BYTES: usize = 256;

/// Longest timestamp, in bytes.
pub const MAX_TIMESTAMP_BYTES: usize = 64;

/// How long an idle observation permits a write, in nanoseconds.
pub const IDLE_PERMIT_WINDOW: i128 = 5_000_000_000;

/// What every generated attempt identifier begins with.
pub const ATTEMPT_PREFIX: &'static str = "attempt-";

/// Text that can be an identifier.
pub open spec fn id_text(text: Seq<char>) -> bool {
    ident::bounded_token(encode_utf8(text), 256)
}

/// The error that a persistence error becomes.
pub open spec fn mapped(error: PersistError) -> AuthorityError {
    match error {
        PersistError::Conflict => AuthorityError::Conflict,
        PersistError::InvalidTransition => AuthorityError::Conflict,
        PersistError::Unauthorized => AuthorityError::Unauthorized,
        PersistError::StorageUnavailable => AuthorityError::Storage,
    }
}

/// Every part of the event keeps to its bound.
pub open spec fn event_bounded(event: EventModel) -> bool {
    &&& ident::bounded_token(encode_utf8(event.event_ref), MAX_EVENT_REF_BYTES as int)
    &&& ident::bounded_token(encode_utf8(event.provider), MAX_PROVIDER_BYTES as int)
    &&& event.actor matches Some(actor) ==> ident::bounded_token(
        encode_utf8(actor),
        MAX_ACTOR_BYTES as int,
    )
    &&& encode_utf8(event.observed_at).len() <= MAX_TIMESTAMP_BYTES
    &&& encode_utf8(event.body).len() <= MAX_EVENT_BODY_BYTES
}

/// Some event has this reference.
pub open spec fn ref_taken(events: Seq<EventModel>, event_ref: Seq<char>) -> bool {
    exists|i: int| 0 <= i < events.len() && (#[trigger] events[i]).event_ref == event_ref
}

/// The first objection to a list of events, read from its start: a part out of
/// bounds, a repeated reference or an unreadable time, or time that runs back.
pub open spec fn scan_events(events: Seq<EventModel>) -> Result<(), AuthorityError>
    decreases events.len(),
{
    if events.len() == 0 {
        Ok(())
    } else {
        let earlier = events.drop_last();
        let event = events.last();
        match scan_events(earlier) {
            Err(error) => Err(error),
            Ok(_) => if !event_bounded(event) || ref_taken(earlier, event.event_ref) {
                Err(AuthorityError::InvalidIdentifier)
            } else {
                match primitives::rfc3339_instant(event.observed_at) {
                    None => Err(AuthorityError::InvalidIdentifier),
                    Some(at) => if earlier.len() > 0 && at < primitives::rfc3339_instant(
                        earlier.last().observed_at,
                    )->0 {
                        Err(AuthorityError::Conflict)
                    } else {
                        Ok(())
                    },
                }
            },
        }
    }
}

/// Sum of the body lengths, in bytes.
pub open spec fn body_bytes(events: Seq<EventModel>) -> nat
    decreases events.len(),
{
    if events.len() == 0 {
        0
    } else {
        body_bytes(events.drop_last()) + encode_utf8(events.last().body).len()
    }
}

/// Whether a list of events can be claimed, and why not.
pub open spec fn events_verdict(events: Seq<EventModel>) -> Result<(), AuthorityError> {
    if events.len() == 0 || events.len() > MAX_CLAIM_EVENTS {
        Err(AuthorityError::Conflict)
    } else {
        match scan_events(events) {
            Err(error) => Err(error),
            Ok(_) => if body_bytes(events) > MAX_AGGREGATE_BODY_BYTES {
                Err(AuthorityError::Conflict)
            } else {
                Ok(())
            },
        }
    }
}

/// The references of a list of events.
pub open spec fn event_refs(events: Seq<EventModel>) -> Seq<Seq<char>> {
    Seq::new(events.len(), |i: int| events[i].event_ref)
}

/// The controller's view of an attachment.
pub open spec fn controller_attachment(
    attachment: PersistedControllerAttachment,
) -> ControllerAttachment {
    ControllerAttachment {
        attempt_id: attachment.attempt_id,
        birth_id: attachment.birth_id,
        arm_id: attachment.arm_id,
        generation: attachment.generation,
        seat_id: attachment.seat_id,
        capability: attachment.capability,
        lease_until: attachment.lease_until,
        verifier_ref: attachment.verifier_ref,
    }
}

/// An observation that is not from the future and still within the window.
pub open spec fn recent(observed_at: Timestamp, now: Timestamp) -> bool {
    observed_at.nanos <= now.nanos && now.nanos - observed_at.nanos < IDLE_PERMIT_WINDOW
}

/// The end of the window that an observation opens, cut off by the lease.
pub open spec fn permit_end(observed_at: Timestamp, lease_until: Timestamp) -> Timestamp {
    if observed_at.nanos + IDLE_PERMIT_WINDOW <= lease_until.nanos {
        Timestamp { nanos: (observed_at.nanos + IDLE_PERMIT_WINDOW) as i128 }
    } else {
        lease_until
    }
}

/// The state of daemon authority.
pub struct AuthorityModel {
    pub store: Store,
    pub arms: Map<ArmId, PersistedArm>,
    pub births: Map<ControllerBirthId, PersistedControllerBirth>,
    pub ownership: Map<ControllerBirthId, ThreadOwnershipState>,
    pub claims: Map<AttemptId, ClaimModel>,
    pub attachments: Map<AttemptId, PersistedControllerAttachment>,
    pub attempt_seq: u64,
    pub now: Timestamp,
}

impl AuthorityModel {
    pub open spec fn with_store(self, store: Store) -> AuthorityModel {
        AuthorityModel { store, ..self }
    }

    pub open spec fn register_arm(
        self,
        arm_id: Seq<char>,
        generation: u64,
        seat_id: Seq<char>,
        coverage_until: Timestamp,
    ) -> (AuthorityModel, Result<(), AuthorityError>) {
        if !id_text(arm_id) || !id_text(seat_id) {
            (self, Err(AuthorityError::InvalidIdentifier))
        } else {
            let record = PersistedArm {
                arm_id: ArmId::named(arm_id),
                generation,
                seat_id: SeatId::named(seat_id),
                capability: ManagedCapability::HandleClaimedSignal,
                coverage_until,
            };
            (
                AuthorityModel {
                    store: self.store.persist_arm(record),
                    arms: self.arms.insert(record.arm_id, record),
                    ..self
                },
                Ok(()),
            )
        }
    }

    /// Some birth serves this arm and generation.
    pub open spec fn generation_born(self, arm_id: ArmId, generation: u64) -> bool {
        exists|id: ControllerBirthId| #[trigger]
            self.births.dom().contains(id) && self.births[id].arm_id == arm_id
                && self.births[id].generation == generation
    }

    /// The birth that an arm gets.
    pub open spec fn new_birth(
        self,
        arm: PersistedArm,
        birth_id: ControllerBirthId,
        verifier_ref: VerifierRef,
    ) -> PersistedControllerBirth {
        PersistedControllerBirth {
            birth_id,
            seat_id: arm.seat_id,
            arm_id: arm.arm_id,
            generation: arm.generation,
            capability: arm.capability,
            lease_until: arm.coverage_until,
            verifier_ref,
            created_at: self.now,
            revoked: false,
        }
    }

    pub open spec fn reserve_birth(
        self,
        arm_id: Seq<char>,
        birth_id: Result<ControllerBirthId, EntropyError>,
        create_attempt_id: Result<RequestNonce, EntropyError>,
        verifier_ref: Result<VerifierRef, EntropyError>,
    ) -> (AuthorityModel, Result<ControllerBirthReservation, AuthorityError>) {
        let id = ArmId::named(arm_id);
        let arm = self.arms[id];
        if !id_text(arm_id) {
            (self, Err(AuthorityError::InvalidIdentifier))
        } else if !self.arms.dom().contains(id) {
            (self, Err(AuthorityError::UnknownArm))
        } else if arm.coverage_until.nanos <= self.now.nanos {
            (self, Err(AuthorityError::Unauthorized))
        } else if self.generation_born(id, arm.generation) {
            (self, Err(AuthorityError::Conflict))
        } else if birth_id is Err || create_attempt_id is Err || verifier_ref is Err {
            (self, Err(AuthorityError::Entropy))
        } else {
            let birth = self.new_birth(arm, birth_id->Ok_0, verifier_ref->Ok_0);
            let create = ThreadCreateReservation {
                birth_id: birth_id->Ok_0,
                create_attempt_id: create_attempt_id->Ok_0,
                reserved_at: self.now,
            };
            let (store, outcome) = self.store.reserve_birth(birth, create);
            match outcome {
                Err(error) => (self.with_store(store), Err(mapped(error))),
                Ok(ReserveBirthOutcome::Reserved) => (
                    AuthorityModel {
                        store,
                        births: self.births.insert(birth.birth_id, birth),
                        ownership: self.ownership.insert(
                            birth.birth_id,
                            ThreadOwnershipState::Reserved {
                                create_attempt_id: create.create_attempt_id,
                            },
                        ),
                        ..self
                    },
                    Ok(
                        ControllerBirthReservation {
                            binding: ControllerBirthBinding {
                                birth_id: birth.birth_id,
                                seat_id: birth.seat_id,
                                arm_id: birth.arm_id,
                                generation: birth.generation,
                                capability: birth.capability,
                                lease_until: birth.lease_until,
                                verifier_ref: birth.verifier_ref,
                            },
                            create_attempt_id: create.create_attempt_id,
                        },
                    ),
                ),
                Ok(_) => (self.with_store(store), Err(AuthorityError::Conflict)),
            }
        }
    }

    /// Commits the resolution of one create and takes over the ownership state
    /// that the store then has.
    pub open spec fn commit_create(
        self,
        birth_id: ControllerBirthId,
        create_attempt_id: RequestNonce,
        resolution: ThreadCreateResolution,
        evidence_ref: Result<VerifierRef, EntropyError>,
    ) -> (AuthorityModel, Result<IdempotentWrite, AuthorityError>) {
        match evidence_ref {
            Err(_) => (self, Err(AuthorityError::Entropy)),
            Ok(evidence_ref) => {
                let (store, outcome) = self.store.resolve_create(
                    ThreadCreateCommit { birth_id, create_attempt_id, resolution, evidence_ref },
                );
                match outcome {
                    Err(error) => (self.with_store(store), Err(mapped(error))),
                    Ok(write) => (
                        AuthorityModel {
                            store,
                            ownership: self.ownership.insert(
                                birth_id,
                                store.ownership_state(birth_id),
                            ),
                            ..self
                        },
                        Ok(write),
                    ),
                }
            },
        }
    }

    pub open spec fn resolve_create(
        self,
        reservation: ControllerBirthReservation,
        resolution: ThreadCreateResolution,
        evidence_ref: Result<VerifierRef, EntropyError>,
    ) -> (AuthorityModel, Result<CreateResolution, AuthorityError>) {
        let (after, outcome) = self.commit_create(
            reservation.binding.birth_id,
            reservation.create_attempt_id,
            resolution,
            evidence_ref,
        );
        (
            after,
            match outcome {
                Err(error) => Err(error),
                Ok(write) => if resolution is Unknown {
                    Ok(
                        CreateResolution::Unknown {
                            write,
                            reservation: QuarantinedBirthReservation {
                                birth_id: reservation.binding.birth_id,
                                create_attempt_id: reservation.create_attempt_id,
                            },
                        },
                    )
                } else {
                    Ok(CreateResolution::Final(write))
                },
            },
        )
    }

    pub open spec fn resolve_quarantined(
        self,
        reservation: QuarantinedBirthReservation,
        resolution: ThreadCreateResolution,
        evidence_ref: Result<VerifierRef, EntropyError>,
    ) -> (AuthorityModel, Result<IdempotentWrite, AuthorityError>) {
        if resolution is Unknown {
            (self, Err(AuthorityError::Conflict))
        } else {
            self.commit_create(
                reservation.birth_id,
                reservation.create_attempt_id,
                resolution,
                evidence_ref,
            )
        }
    }

    /// The first birth, in ascending order, that lives, serves the arm and owns
    /// its thread.
    pub open spec fn owning_birth(self, arm: PersistedArm, arm_id: ArmId) -> Option<
        ControllerBirthId,
    > {
        table::first_key(
            self.births,
            |id: ControllerBirthId, birth: PersistedControllerBirth|
                {
                    &&& birth.arm_id == arm_id
                    &&& birth.generation == arm.generation
                    &&& !birth.revoked
                    &&& birth.lease_until.nanos > self.now.nanos
                    &&& self.ownership.dom().contains(id)
                    &&& self.ownership[id] is Owned
                },
        )
    }

    /// The text of the attempt with this number.
    pub open spec fn attempt_text(sequence: int) -> Seq<char> {
        ATTEMPT_PREFIX@ + text::decimal(sequence as nat)
    }

    pub open spec fn accept_claim(
        self,
        arm_id: Seq<char>,
        request_id: Seq<char>,
        signal_id: Seq<char>,
        events: Seq<EventModel>,
        verifier_ref: Result<VerifierRef, EntropyError>,
    ) -> (AuthorityModel, Result<(ClaimOutcome, AttemptId), AuthorityError>) {
        let id = ArmId::named(arm_id);
        let arm = self.arms[id];
        let attempt_text = Self::attempt_text(self.attempt_seq + 1);
        if events_verdict(events) is Err {
            (self, Err(events_verdict(events)->Err_0))
        } else if !id_text(arm_id) {
            (self, Err(AuthorityError::InvalidIdentifier))
        } else if !self.arms.dom().contains(id) {
            (self, Err(AuthorityError::UnknownArm))
        } else if self.owning_birth(arm, id) is None {
            (self, Err(AuthorityError::NoOwnedController))
        } else if !id_text(request_id) || !id_text(signal_id) {
            (self, Err(AuthorityError::InvalidIdentifier))
        } else if self.attempt_seq == u64::MAX {
            (self, Err(AuthorityError::Conflict))
        } else if !id_text(attempt_text) {
            (self, Err(AuthorityError::InvalidIdentifier))
        } else if verifier_ref is Err {
            (self, Err(AuthorityError::Entropy))
        } else {
            let attempt_id = AttemptId::named(attempt_text);
            let attachment = PersistedControllerAttachment {
                attempt_id,
                birth_id: self.owning_birth(arm, id)->0,
                seat_id: arm.seat_id,
                arm_id: arm.arm_id,
                generation: arm.generation,
                capability: ManagedCapability::HandleClaimedSignal,
                lease_until: arm.coverage_until,
                verifier_ref: verifier_ref->Ok_0,
                revoked: false,
            };
            let claim = ClaimModel {
                attempt_id,
                request_id: ClaimRequestId::named(request_id),
                arm_id: arm.arm_id,
                generation: arm.generation,
                signal_id: SignalId::named(signal_id),
                event_refs: event_refs(events),
                claimed_at: self.now,
            };
            let (store, outcome) = self.store.admit_claim(claim, events, attachment);
            match outcome {
                Err(error) => (self.with_store(store), Err(mapped(error))),
                Ok(record) => if record.outcome == ClaimOutcome::ExactReplay {
                    (self.with_store(store), Ok((ClaimOutcome::ExactReplay, record.attempt_id)))
                } else {
                    (
                        AuthorityModel {
                            store,
                            claims: self.claims.insert(attempt_id, claim),
                            attachments: self.attachments.insert(attempt_id, attachment),
                            attempt_seq: (self.attempt_seq + 1) as u64,
                            ..self
                        },
                        Ok((ClaimOutcome::Admitted, attempt_id)),
                    )
                },
            }
        }
    }

    /// The attachment is the current one and everything behind it still holds.
    pub open spec fn attachment_verdict(
        self,
        attachment: PersistedControllerAttachment,
    ) -> Result<(), AuthorityError> {
        let birth = self.births[attachment.birth_id];
        let arm = self.arms[attachment.arm_id];
        if !self.attachments.dom().contains(attachment.attempt_id) {
            Err(AuthorityError::Unauthorized)
        } else if !self.births.dom().contains(attachment.birth_id) {
            Err(AuthorityError::Unauthorized)
        } else if !self.arms.dom().contains(attachment.arm_id) {
            Err(AuthorityError::UnknownArm)
        } else if {
            &&& self.attachments[attachment.attempt_id] == attachment
            &&& !attachment.revoked
            &&& !birth.revoked
            &&& self.now.nanos < attachment.lease_until.nanos
            &&& self.now.nanos < birth.lease_until.nanos
            &&& attachment.seat_id == birth.seat_id
            &&& attachment.arm_id == birth.arm_id
            &&& attachment.generation == birth.generation
            &&& attachment.generation == arm.generation
            &&& attachment.capability == ManagedCapability::HandleClaimedSignal
        } {
            Ok(())
        } else {
            Err(AuthorityError::Unauthorized)
        }
    }

    pub open spec fn prepare(
        self,
        receipt: AdmissionReceipt,
        turn_write_id: Result<RequestNonce, EntropyError>,
        probe_id: Result<RequestNonce, EntropyError>,
    ) -> (AuthorityModel, Result<(PreparedDispatch, IdleProbeScope), AuthorityError>) {
        let id = receipt.attempt_id;
        let attachment = self.attachments[id];
        if !self.claims.dom().contains(id) {
            (self, Err(AuthorityError::Conflict))
        } else if !self.attachments.dom().contains(id) {
            (self, Err(AuthorityError::Unauthorized))
        } else if self.attachment_verdict(attachment) is Err {
            (self, Err(self.attachment_verdict(attachment)->Err_0))
        } else {
            match store::lookup(self.ownership, attachment.birth_id) {
                Some(ThreadOwnershipState::Owned { thread_ref, .. }) => match turn_write_id {
                    Err(_) => (self, Err(AuthorityError::Entropy)),
                    Ok(turn_write_id) => {
                        let correlation = PersistedTurnCorrelation {
                            attempt_id: id,
                            signal_id: self.claims[id].signal_id,
                            birth_id: attachment.birth_id,
                            thread_ref,
                            turn_write_id,
                            turn_ref: None,
                        };
                        let (store, outcome) = self.store.prepare_dispatch(correlation);
                        (
                            self.with_store(store),
                            match outcome {
                                Err(error) => Err(mapped(error)),
                                Ok(_) => match probe_id {
                                    Err(_) => Err(AuthorityError::Entropy),
                                    Ok(challenge_id) => Ok(
                                        (
                                            PreparedDispatch {
                                                attachment,
                                                correlation,
                                                expected_probe_id: challenge_id,
                                            },
                                            IdleProbeScope {
                                                binding: ProbeBinding {
                                                    attachment: controller_attachment(attachment),
                                                    signal_id: correlation.signal_id,
                                                    thread_ref,
                                                    challenge_id,
                                                },
                                            },
                                        ),
                                    ),
                                },
                            },
                        )
                    },
                },
                _ => (self, Err(AuthorityError::NoOwnedController)),
            }
        }
    }

    /// The probe answered exactly the challenge of the prepared dispatch.
    pub open spec fn probe_bound(
        self,
        prepared: PreparedDispatch,
        binding: ProbeBinding,
        probe_id: RequestNonce,
        observed_at: Timestamp,
    ) -> bool {
        &&& binding.attachment.attempt_id == prepared.correlation.attempt_id
        &&& binding.signal_id == prepared.correlation.signal_id
        &&& binding.attachment.birth_id == prepared.correlation.birth_id
        &&& binding.thread_ref == prepared.correlation.thread_ref
        &&& binding.challenge_id == prepared.expected_probe_id
        &&& probe_id == prepared.expected_probe_id
        &&& binding.attachment.arm_id == prepared.attachment.arm_id
        &&& binding.attachment.generation == prepared.attachment.generation
        &&& binding.attachment.seat_id == prepared.attachment.seat_id
        &&& binding.attachment.capability == prepared.attachment.capability
        &&& binding.attachment.lease_until == prepared.attachment.lease_until
        &&& binding.attachment.verifier_ref == prepared.attachment.verifier_ref
        &&& recent(observed_at, self.now)
    }

    /// The active evidence is for exactly the prepared dispatch, recent, from
    /// the current producer, and for the owned thread.
    pub open spec fn active_bound(
        self,
        prepared: PreparedDispatch,
        evidence: ActiveProofModel,
    ) -> bool {
        &&& self.ownership.dom().contains(evidence.birth_id)
        &&& evidence.attempt_id == prepared.correlation.attempt_id
        &&& evidence.signal_id == prepared.correlation.signal_id
        &&& evidence.birth_id == prepared.correlation.birth_id
        &&& evidence.thread_ref == prepared.correlation.thread_ref
        &&& evidence.probe_id == prepared.expected_probe_id
        &&& evidence.seat_id == prepared.attachment.seat_id
        &&& evidence.arm_id == prepared.attachment.arm_id
        &&& evidence.generation == prepared.attachment.generation
        &&& evidence.capability == prepared.attachment.capability
        &&& evidence.attachment_verifier_ref == prepared.attachment.verifier_ref
        &&& evidence.lease_until == prepared.attachment.lease_until
        &&& evidence.mutation_epoch.birth_id == evidence.birth_id
        &&& recent(evidence.observed_at, self.now)
        &&& self.now.nanos < evidence.lease_until.nanos
        &&& evidence.producer_version == controller::PRODUCER_VERSION@
        &&& evidence.producer_dialect == controller::PRODUCER_DIALECT@
        &&& self.ownership[evidence.birth_id].owns(
            evidence.create_attempt_id,
            evidence.thread_ref,
        )
    }

    /// The permit that an exact idle observation gives.
    pub open spec fn permit(
        prepared: PreparedDispatch,
        probe_id: RequestNonce,
        epoch: controller::NativeMutationEpoch,
        observed_at: Timestamp,
    ) -> ValidatedIdlePermit {
        ValidatedIdlePermit {
            attempt_id: prepared.correlation.attempt_id,
            signal_id: prepared.correlation.signal_id,
            birth_id: prepared.correlation.birth_id,
            thread_ref: prepared.correlation.thread_ref,
            arm_id: prepared.attachment.arm_id,
            generation: prepared.attachment.generation,
            capability: prepared.attachment.capability,
            verifier_ref: prepared.attachment.verifier_ref,
            mutation_epoch: epoch,
            probe_id,
            observed_at,
            valid_until: permit_end(observed_at, prepared.attachment.lease_until),
        }
    }

    pub open spec fn authorize(
        self,
        prepared: PreparedDispatch,
        result: Result<IdleProbeResult, ControllerProbeError>,
    ) -> (AuthorityModel, Result<ProbeAuthorization, AuthorityError>) {
        if self.attachment_verdict(prepared.attachment) is Err {
            (self, Err(self.attachment_verdict(prepared.attachment)->Err_0))
        } else {
            match result {
                Err(error) => (self, Err(AuthorityError::ControllerProbe(error))),
                Ok(IdleProbeResult::Active(evidence)) => if !self.active_bound(
                    prepared,
                    evidence@,
                ) {
                    (self, Err(AuthorityError::Unauthorized))
                } else {
                    let (store, outcome) = self.store.hold_active(evidence@);
                    (
                        self.with_store(store),
                        match outcome {
                            Err(error) => Err(mapped(error)),
                            Ok(_) => Ok(ProbeAuthorization::HeldBeforeNativeWrite),
                        },
                    )
                },
                Ok(
                    IdleProbeResult::Unproven(
                        IdleProbeObservation::Unproven { binding, probe_id, observed_at },
                    ),
                ) => if !self.probe_bound(prepared, binding, probe_id, observed_at) {
                    (self, Err(AuthorityError::Unauthorized))
                } else {
                    let (store, outcome) = self.store.conclude_prewrite(
                        PreWriteConclusionCommit {
                            attempt_id: prepared.correlation.attempt_id,
                            signal_id: prepared.correlation.signal_id,
                            conclusion: PreWriteConclusion::IdleStateUnproven,
                            recorded_at: observed_at,
                        },
                    );
                    (
                        self.with_store(store),
                        match outcome {
                            Err(error) => Err(mapped(error)),
                            Ok(_) => Ok(ProbeAuthorization::IdleStateUnproven),
                        },
                    )
                },
                Ok(
                    IdleProbeResult::Idle {
                        observation: IdleProbeObservation::Idle {
                            binding,
                            probe_id,
                            epoch,
                            observed_at,
                        },
                        lane,
                    },
                ) => if !self.probe_bound(prepared, binding, probe_id, observed_at) || lane.probe_id
                    != probe_id || lane.epoch != epoch || epoch.birth_id
                    != prepared.correlation.birth_id {
                    (self, Err(AuthorityError::Unauthorized))
                } else {
                    let (store, outcome) = self.store.reserve_write(
                        Self::permit(prepared, probe_id, epoch, observed_at),
                        prepared.correlation,
                    );
                    (
                        self.with_store(store),
                        match outcome {
                            Err(error) => Err(mapped(error)),
                            Ok(reservation) => Ok(
                                ProbeAuthorization::Ready(
                                    Box::new(
                                        AuthorizedNativeWrite {
                                            prepared,
                                            lane,
                                            command: ControllerCommand {
                                                attachment: controller_attachment(
                                                    prepared.attachment,
                                                ),
                                                action: SignalAction {
                                                    signal_id: prepared.correlation.signal_id,
                                                },
                                                correlation: reservation.correlation,
                                                expected_probe_id: reservation.probe_id,
                                                expected_epoch: reservation.expected_epoch,
                                            },
                                        },
                                    ),
                                ),
                            ),
                        },
                    )
                },
                _ => (self, Err(AuthorityError::Unauthorized)),
            }
        }
    }

    /// The evidence that a write disposition leaves.
    pub open spec fn evidence_of(
        disposition: NativeWriteDisposition,
        write_id: RequestNonce,
    ) -> NativeWriteEvidence {
        match disposition {
            NativeWriteDisposition::ProvenNotAccepted => NativeWriteEvidence::ProvenNotAccepted,
            NativeWriteDisposition::Accepted { .. } => NativeWriteEvidence::WriterAccepted {
                write_id,
            },
            NativeWriteDisposition::ExactResponse(fact) => NativeWriteEvidence::ExactResponse {
                fact,
            },
            _ => NativeWriteEvidence::Unknown,
        }
    }

    /// The fact that a write disposition states at once.
    pub open spec fn immediate_fact(disposition: NativeWriteDisposition) -> Option<NativeTurnFact> {
        match disposition {
            NativeWriteDisposition::Accepted { turn_ref } => Some(
                NativeTurnFact::Accepted { turn_ref },
            ),
            NativeWriteDisposition::ExactResponse(fact) => Some(fact),
            _ => None,
        }
    }

    pub open spec fn conclude(
        self,
        prepared: PreparedDispatch,
        disposition: Result<NativeWriteDisposition, ControllerWriteError>,
        evidence_ref: Result<VerifierRef, EntropyError>,
        fact_ref: Result<VerifierRef, EntropyError>,
    ) -> (AuthorityModel, Result<NativeWriteConclusion, AuthorityError>) {
        match disposition {
            Err(_) => (self, Err(AuthorityError::Unauthorized)),
            Ok(
                NativeWriteDisposition::IdleEpochInvalidated {
                    probe_id,
                    expected_epoch,
                    observed_epoch,
                },
            ) => {
                let (store, outcome) = self.store.conclude_prewrite(
                    PreWriteConclusionCommit {
                        attempt_id: prepared.correlation.attempt_id,
                        signal_id: prepared.correlation.signal_id,
                        conclusion: PreWriteConclusion::IdleEpochInvalidated {
                            probe_id,
                            expected_epoch,
                            observed_epoch,
                        },
                        recorded_at: self.now,
                    },
                );
                (
                    self.with_store(store),
                    match outcome {
                        Err(error) => Err(mapped(error)),
                        Ok(_) => Ok(
                            NativeWriteConclusion {
                                disposition: disposition->Ok_0,
                                observation_scope: None,
                                reconciliation_scope: None,
                            },
                        ),
                    },
                )
            },
            Ok(disposition) => match evidence_ref {
                Err(_) => (self, Err(AuthorityError::Entropy)),
                Ok(evidence_ref) => {
                    let (store, outcome) = self.store.record_write(
                        NativeWriteEvidenceCommit {
                            correlation: prepared.correlation,
                            evidence: Self::evidence_of(
                                disposition,
                                prepared.correlation.turn_write_id,
                            ),
                            evidence_ref,
                        },
                    );
                    match outcome {
                        Err(error) => (self.with_store(store), Err(mapped(error))),
                        Ok(_) => self.with_store(store).conclude_facts(
                            prepared.correlation,
                            disposition,
                            evidence_ref,
                            fact_ref,
                        ),
                    }
                },
            },
        }
    }

    /// Second half of a conclusion: the immediate fact and the follow-up scope.
    pub open spec fn conclude_facts(
        self,
        written: PersistedTurnCorrelation,
        disposition: NativeWriteDisposition,
        evidence_ref: VerifierRef,
        fact_ref: Result<VerifierRef, EntropyError>,
    ) -> (AuthorityModel, Result<NativeWriteConclusion, AuthorityError>) {
        match Self::immediate_fact(disposition) {
            None => (
                self,
                Ok(
                    NativeWriteConclusion {
                        disposition,
                        observation_scope: None,
                        reconciliation_scope: if disposition is Unknown {
                            Some(ReconciliationScope { correlation: written, evidence_ref })
                        } else {
                            None
                        },
                    },
                ),
            ),
            Some(fact) => {
                let correlation = match fact.named_turn() {
                    Some(turn_ref) => written.bound_to(turn_ref),
                    None => written,
                };
                match fact_ref {
                    Err(_) => (self, Err(AuthorityError::Entropy)),
                    Ok(fact_ref) => {
                        let (store, outcome) = self.store.record_fact(
                            NativeTurnFactCommit { correlation, fact, evidence_ref: fact_ref },
                        );
                        (
                            self.with_store(store),
                            match outcome {
                                Err(error) => Err(mapped(error)),
                                Ok(_) => Ok(
                                    NativeWriteConclusion {
                                        disposition,
                                        observation_scope: Some(
                                            ObservationScope { correlation, evidence_ref },
                                        ),
                                        reconciliation_scope: None,
                                    },
                                ),
                            },
                        )
                    },
                }
            },
        }
    }

    pub open spec fn observe(
        self,
        scope: ObservationScope,
        fact: NativeTurnFact,
        evidence_ref: Result<VerifierRef, EntropyError>,
    ) -> (AuthorityModel, Result<ExactObservationRecord, AuthorityError>) {
        match evidence_ref {
            Err(_) => (self, Err(AuthorityError::Entropy)),
            Ok(evidence_ref) => {
                let (store, outcome) = self.store.record_fact(
                    NativeTurnFactCommit { correlation: scope.correlation, fact, evidence_ref },
                );
                (
                    self.with_store(store),
                    match outcome {
                        Err(error) => Err(mapped(error)),
                        Ok(write) => Ok(
                            ExactObservationRecord {
                                write,
                                reconciliation: if fact.named_turn() is None {
                                    Some(
                                        ReconciliationScope {
                                            correlation: scope.correlation,
                                            evidence_ref: scope.evidence_ref,
                                        },
                                    )
                                } else {
                                    None
                                },
                            },
                        ),
                    },
                )
            },
        }
    }

    pub open spec fn reconcile(
        self,
        scope: ReconciliationScope,
        disposition: Result<ReconciliationDisposition, ControllerReconcileError>,
        fact_ref: Result<VerifierRef, EntropyError>,
    ) -> (AuthorityModel, Result<(IdempotentWrite, ReconciliationPhase), AuthorityError>) {
        match disposition {
            Err(_) => (self, Err(AuthorityError::Unauthorized)),
            Ok(disposition) => {
                let (store, outcome) = self.store.record_reconciliation(scope, disposition);
                let settled = self.with_store(store);
                match outcome {
                    Err(error) => (settled, Err(mapped(error))),
                    Ok(write) => match disposition {
                        ReconciliationDisposition::Unknown => (
                            settled,
                            Ok((write, ReconciliationPhase::Reconciling)),
                        ),
                        ReconciliationDisposition::ProvenNotAccepted => (
                            settled,
                            Ok((write, ReconciliationPhase::Closed)),
                        ),
                        ReconciliationDisposition::Accepted { turn_ref } => settled.reconcile_fact(
                            scope.correlation.bound_to(turn_ref),
                            NativeTurnFact::Accepted { turn_ref },
                            fact_ref,
                            write,
                            ReconciliationPhase::Observing(
                                Box::new(
                                    ObservationScope {
                                        correlation: scope.correlation.bound_to(turn_ref),
                                        evidence_ref: scope.evidence_ref,
                                    },
                                ),
                            ),
                        ),
                        ReconciliationDisposition::Terminal { turn_ref, class } => {
                            settled.reconcile_fact(
                                scope.correlation.bound_to(turn_ref),
                                NativeTurnFact::Terminal { turn_ref, class },
                                fact_ref,
                                write,
                                ReconciliationPhase::Closed,
                            )
                        },
                    },
                }
            },
        }
    }

    /// Records the fact that a reconciliation found.
    pub open spec fn reconcile_fact(
        self,
        correlation: PersistedTurnCorrelation,
        fact: NativeTurnFact,
        fact_ref: Result<VerifierRef, EntropyError>,
        write: IdempotentWrite,
        phase: ReconciliationPhase,
    ) -> (AuthorityModel, Result<(IdempotentWrite, ReconciliationPhase), AuthorityError>) {
        match fact_ref {
            Err(_) => (self, Err(AuthorityError::Entropy)),
            Ok(evidence_ref) => {
                let (store, outcome) = self.store.record_fact(
                    NativeTurnFactCommit { correlation, fact, evidence_ref },
                );
                (
                    self.with_store(store),
                    match outcome {
                        Err(error) => Err(mapped(error)),
                        Ok(_) => Ok((write, phase)),
                    },
                )
            },
        }
    }

    /// The key of the attachment with this text.
    pub open spec fn attachment_key(self, attempt_id: Seq<char>) -> Option<AttemptId> {
        table::first_key(
            self.attachments,
            |id: AttemptId, attachment: PersistedControllerAttachment| id.chars() == attempt_id,
        )
    }

    pub open spec fn revoke(self, attempt_id: Seq<char>) -> (
        AuthorityModel,
        Result<IdempotentWrite, AuthorityError>,
    ) {
        match self.attachment_key(attempt_id) {
            None => (self, Err(AuthorityError::Unauthorized)),
            Some(key) => {
                let attachment = self.attachments[key];
                let (store, outcome) = self.store.revoke_attachment(
                    ValidatedAttachmentScope {
                        attempt_id: attachment.attempt_id,
                        birth_id: attachment.birth_id,
                        arm_id: attachment.arm_id,
                        generation: attachment.generation,
                        verifier_ref: attachment.verifier_ref,
                    },
                );
                match outcome {
                    Err(error) => (self.with_store(store), Err(mapped(error))),
                    Ok(write) => (
                        AuthorityModel {
                            store,
                            attachments: self.attachments.insert(
                                key,
                                PersistedControllerAttachment { revoked: true, ..attachment },
                            ),
                            ..self
                        },
                        Ok(write),
                    ),
                }
            },
        }
    }

    /// Takes over the metadata of a snapshot.
    pub open spec fn adopt(self, snapshot: RecoverySnapshot) -> AuthorityModel {
        AuthorityModel {
            arms: arm_index(snapshot.arms@),
            births: birth_index(snapshot.controller_births@),
            ownership: ownership_index(snapshot.ownership@),
            claims: claim_index(
                Seq::new(snapshot.claims@.len(), |i: int| snapshot.claims@[i]@),
            ),
            attachments: attachment_index(snapshot.attachments@),
            attempt_seq: snapshot.attempt_seq,
            ..self
        }
    }
}

/// Arms by identifier. Where one occurs twice the later record counts.
pub open spec fn arm_index(arms: Seq<PersistedArm>) -> Map<ArmId, PersistedArm>
    decreases arms.len(),
{
    if arms.len() == 0 {
        Map::empty()
    } else {
        arm_index(arms.drop_last()).insert(arms.last().arm_id, arms.last())
    }
}

/// Births by identifier.
pub open spec fn birth_index(births: Seq<PersistedControllerBirth>) -> Map<
    ControllerBirthId,
    PersistedControllerBirth,
>
    decreases births.len(),
{
    if births.len() == 0 {
        Map::empty()
    } else {
        birth_index(births.drop_last()).insert(births.last().birth_id, births.last())
    }
}

/// Ownership states by birth.
pub open spec fn ownership_index(records: Seq<PersistedThreadOwnership>) -> Map<
    ControllerBirthId,
    ThreadOwnershipState,
>
    decreases records.len(),
{
    if records.len() == 0 {
        Map::empty()
    } else {
        ownership_index(records.drop_last()).insert(records.last().birth_id, records.last().state)
    }
}

/// Claims by attempt. Where one occurs twice the later record counts.
pub open spec fn claim_index(claims: Seq<ClaimModel>) -> Map<AttemptId, ClaimModel>
    decreases claims.len(),
{
    if claims.len() == 0 {
        Map::empty()
    } else {
        claim_index(claims.drop_last()).insert(claims.last().attempt_id, claims.last())
    }
}

/// Attachments by attempt. Where one occurs twice the later record counts.
pub open spec fn attachment_index(attachments: Seq<PersistedControllerAttachment>) -> Map<
    AttemptId,
    PersistedControllerAttachment,
>
    decreases attachments.len(),
{
    if attachments.len() == 0 {
        Map::empty()
    } else {
        attachment_index(attachments.drop_last()).insert(
            attachments.last().attempt_id,
            attachments.last(),
        )
    }
}

/// No birth is listed twice.
pub open spec fn births_distinct(births: Seq<PersistedControllerBirth>) -> bool {
    forall|i: int, j: int|
        #![trigger births[i], births[j]]
        0 <= i < j < births.len() ==> births[i].birth_id != births[j].birth_id
}

/// No birth has two ownership states, and each has a birth record.
pub open spec fn ownership_consistent(
    records: Seq<PersistedThreadOwnership>,
    births: Seq<PersistedControllerBirth>,
) -> bool {
    &&& forall|i: int, j: int|
        #![trigger records[i], records[j]]
        0 <= i < j < records.len() ==> records[i].birth_id != records[j].birth_id
    &&& forall|i: int|
        0 <= i < records.len() ==> birth_index(births).dom().contains(
            (#[trigger] records[i]).birth_id,
        )
}

/// No attempt has two lists of facts or two reconciliations.
pub open spec fn followups_consistent(snapshot: RecoverySnapshot) -> bool {
    &&& forall|i: int, j: int|
        #![trigger snapshot.reconciliations@[i], snapshot.reconciliations@[j]]
        0 <= i < j < snapshot.reconciliations@.len() ==> snapshot.reconciliations@[i].attempt_id
            != snapshot.reconciliations@[j].attempt_id
    &&& forall|i: int, j: int|
        #![trigger snapshot.native_turn_facts@[i], snapshot.native_turn_facts@[j]]
        0 <= i < j < snapshot.native_turn_facts@.len() ==> snapshot.native_turn_facts@[i].attempt_id
            != snapshot.native_turn_facts@[j].attempt_id
}

/// Nothing in the snapshot contradicts another part of it.
pub open spec fn snapshot_consistent(snapshot: RecoverySnapshot) -> bool {
    &&& followups_consistent(snapshot)
    &&& births_distinct(snapshot.controller_births@)
    &&& ownership_consistent(snapshot.ownership@, snapshot.controller_births@)
}

/// The facts that a snapshot lists for an attempt.
pub open spec fn snapshot_facts(snapshot: RecoverySnapshot, id: AttemptId) -> Seq<NativeTurnFact> {
    if exists|i: int|
        0 <= i < snapshot.native_turn_facts@.len() && (
        #[trigger] snapshot.native_turn_facts@[i]).attempt_id == id {
        snapshot.native_turn_facts@[choose|i: int|
            0 <= i < snapshot.native_turn_facts@.len() && (
            #[trigger] snapshot.native_turn_facts@[i]).attempt_id == id].facts@
    } else {
        Seq::empty()
    }
}

/// The reconciliation that a snapshot lists for an attempt.
pub open spec fn snapshot_reconciliation(snapshot: RecoverySnapshot, id: AttemptId) -> Option<
    ReconciliationDisposition,
> {
    if exists|i: int|
        0 <= i < snapshot.reconciliations@.len() && (
        #[trigger] snapshot.reconciliations@[i]).attempt_id == id {
        Some(
            snapshot.reconciliations@[choose|i: int|
                0 <= i < snapshot.reconciliations@.len() && (
                #[trigger] snapshot.reconciliations@[i]).attempt_id == id].disposition,
        )
    } else {
        None
    }
}

/// Some fact ends the turn.
pub open spec fn has_terminal(facts: Seq<NativeTurnFact>) -> bool {
    exists|i: int| 0 <= i < facts.len() && #[trigger] facts[i] is Terminal
}

/// The turn of the first fact that shows a turn accepted or started.
pub open spec fn first_started(facts: Seq<NativeTurnFact>) -> Option<
    crate::ident::PrivateNativeRef,
>
    decreases facts.len(),
{
    if facts.len() == 0 {
        None
    } else {
        match facts[0] {
            NativeTurnFact::Accepted { turn_ref } => Some(turn_ref),
            NativeTurnFact::Started { turn_ref } => Some(turn_ref),
            _ => first_started(facts.drop_first()),
        }
    }
}

/// What is left to do for one recovered write.
pub enum Followup {
    Nothing,
    Observe(ObservationScope),
    Reconcile(ReconciliationScope),
}

/// What is left to do for one recovered write: nothing behind a terminal fact,
/// reconciliation while unknown, observation once a turn is known.
pub open spec fn followup(
    record: PersistedNativeWriteEvidence,
    facts: Seq<NativeTurnFact>,
    reconciliation: Option<ReconciliationDisposition>,
) -> Followup {
    if has_terminal(facts) {
        Followup::Nothing
    } else {
        match record.evidence {
            NativeWriteEvidence::Unknown => match reconciliation {
                None => Followup::Reconcile(
                    ReconciliationScope {
                        correlation: record.correlation,
                        evidence_ref: record.evidence_ref,
                    },
                ),
                Some(ReconciliationDisposition::Unknown) => Followup::Reconcile(
                    ReconciliationScope {
                        correlation: record.correlation,
                        evidence_ref: record.evidence_ref,
                    },
                ),
                Some(ReconciliationDisposition::Accepted { turn_ref }) => Followup::Observe(
                    ObservationScope {
                        correlation: record.correlation.bound_to(turn_ref),
                        evidence_ref: record.evidence_ref,
                    },
                ),
                _ => Followup::Nothing,
            },
            NativeWriteEvidence::ProvenNotAccepted => Followup::Nothing,
            _ => match first_started(facts) {
                Some(turn_ref) => Followup::Observe(
                    ObservationScope {
                        correlation: record.correlation.bound_to(turn_ref),
                        evidence_ref: record.evidence_ref,
                    },
                ),
                None => Followup::Nothing,
            },
        }
    }
}

/// The follow-up of one listed write.
pub open spec fn followup_at(
    snapshot: RecoverySnapshot,
    record: PersistedNativeWriteEvidence,
) -> Followup {
    followup(
        record,
        snapshot_facts(snapshot, record.correlation.attempt_id),
        snapshot_reconciliation(snapshot, record.correlation.attempt_id),
    )
}

/// The observations left among the first `n` listed writes.
pub open spec fn observations_left(snapshot: RecoverySnapshot, n: int) -> Seq<ObservationScope>
    decreases n,
{
    if n <= 0 {
        Seq::empty()
    } else {
        match followup_at(snapshot, snapshot.native_write_evidence@[n - 1]) {
            Followup::Observe(scope) => observations_left(snapshot, n - 1).push(scope),
            _ => observations_left(snapshot, n - 1),
        }
    }
}

/// The reconciliations left among the first `n` listed writes.
pub open spec fn reconciliations_left(snapshot: RecoverySnapshot, n: int) -> Seq<
    ReconciliationScope,
>
    decreases n,
{
    if n <= 0 {
        Seq::empty()
    } else {
        match followup_at(snapshot, snapshot.native_write_evidence@[n - 1]) {
            Followup::Reconcile(scope) => reconciliations_left(snapshot, n - 1).push(scope),
            _ => reconciliations_left(snapshot, n - 1),
        }
    }
}

} // verus!
