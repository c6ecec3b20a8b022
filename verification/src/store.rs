//! What a durable authority store holds and what each operation makes of it.

use crate::bytes;
use crate::controller;
use crate::controller::{
    ActiveProofModel, NativeCoordinateKind, NativeCoordinateScope, NativeTurnFact,
    NativeWriteReservation, PersistedTurnCorrelation, ReconciliationDisposition,
    ReconciliationScope, ValidatedIdlePermit,
};
use crate::ident::{
    ActiveObservationEvidenceRef, ActiveObservationFingerprint, ArmId, AttemptId, ClaimRequestId,
    ControllerBirthId, EntropyError, PrivateNativeRef, RequestNonce, VerifierRef,
};
use crate::primitives;
use crate::protocol::EventModel;
use crate::records::{
    ActiveEvidenceModel, AdmissionRecord, ClaimModel, ClaimOutcome, CoordinateModel,
    IdempotentWrite, NativeTurnFactCommit, NativeWriteEvidence, NativeWriteEvidenceCommit,
    PersistError, PersistedArm, PersistedControllerAttachment, PersistedControllerBirth,
    PersistedNativeReservation, PersistedNativeTurnFacts, PersistedNativeWriteEvidence,
    PersistedPreWriteConclusion, PersistedReconciliation, PersistedThreadOwnership,
    PreWriteConclusion, PreWriteConclusionCommit, RecoverySnapshot, ReserveBirthOutcome,
    ThreadCreateCommit, ThreadCreateReservation, ThreadCreateResolution, ThreadOwnershipState,
    ValidatedAttachmentScope,
};
use crate::table;
use crate::table::Key;
use vstd::prelude::*;
use vstd::utf8::*;

verus! {

/// The references that draws give for `wanted` attempts: those of the draws
/// before the first that failed or is missing.
pub open spec fn drawn(
    draws: Seq<Result<VerifierRef, EntropyError>>,
    wanted: nat,
    refs: Seq<VerifierRef>,
) -> bool {
    &&& refs.len() <= wanted
    &&& refs.len() <= draws.len()
    &&& forall|i: int|
        0 <= i < refs.len() ==> draws[i] == Ok::<VerifierRef, EntropyError>(#[trigger] refs[i])
    &&& refs.len() < wanted ==> refs.len() == draws.len() || draws[refs.len() as int] is Err
}

/// The contents of a durable authority store.
pub struct Store {
    pub arms: Map<ArmId, PersistedArm>,
    pub claims: Map<ClaimRequestId, ClaimModel>,
    pub payloads: Map<ClaimRequestId, Seq<EventModel>>,
    pub claim_attempts: Map<ClaimRequestId, AttemptId>,
    pub attachments: Map<AttemptId, PersistedControllerAttachment>,
    pub births: Map<ControllerBirthId, PersistedControllerBirth>,
    pub creates: Map<ControllerBirthId, ThreadCreateReservation>,
    pub ownership: Map<ControllerBirthId, ThreadOwnershipState>,
    pub create_evidence_refs: Map<ControllerBirthId, VerifierRef>,
    pub coordinates: Map<PrivateNativeRef, CoordinateModel>,
    pub prepared: Map<AttemptId, PersistedTurnCorrelation>,
    pub reservations: Map<AttemptId, PersistedNativeReservation>,
    pub consumed_probes: Set<RequestNonce>,
    pub prewrite: Map<AttemptId, PersistedPreWriteConclusion>,
    pub active_observations: Map<AttemptId, ActiveEvidenceModel>,
    pub mac_key: Seq<u8>,
    pub write_evidence: Map<AttemptId, NativeWriteEvidence>,
    pub write_evidence_refs: Map<AttemptId, VerifierRef>,
    pub turn_facts: Map<AttemptId, Seq<NativeTurnFact>>,
    pub reconciliations: Map<AttemptId, ReconciliationDisposition>,
    pub attempt_seq: u64,
    /// The next native fact meets a storage fault.
    pub fail_next_turn_fact: bool,
    /// The next new active hold meets a storage fault.
    pub fail_next_active_hold: bool,
}

/// The value of a key, where it has one.
pub open spec fn lookup<K, V>(map: Map<K, V>, key: K) -> Option<V> {
    if map.dom().contains(key) {
        Some(map[key])
    } else {
        None
    }
}

impl Store {
    /// The store that has recorded nothing.
    pub open spec fn empty(mac_key: Seq<u8>) -> Store {
        Store {
            arms: Map::empty(),
            claims: Map::empty(),
            payloads: Map::empty(),
            claim_attempts: Map::empty(),
            attachments: Map::empty(),
            births: Map::empty(),
            creates: Map::empty(),
            ownership: Map::empty(),
            create_evidence_refs: Map::empty(),
            coordinates: Map::empty(),
            prepared: Map::empty(),
            reservations: Map::empty(),
            consumed_probes: Set::empty(),
            prewrite: Map::empty(),
            active_observations: Map::empty(),
            mac_key,
            write_evidence: Map::empty(),
            write_evidence_refs: Map::empty(),
            turn_facts: Map::empty(),
            reconciliations: Map::empty(),
            attempt_seq: 0,
            fail_next_turn_fact: false,
            fail_next_active_hold: false,
        }
    }

    pub open spec fn persist_arm(self, arm: PersistedArm) -> Store {
        Store { arms: self.arms.insert(arm.arm_id, arm), ..self }
    }

    /// Some claim is already recorded for this arm and generation.
    pub open spec fn generation_claimed(self, arm_id: ArmId, generation: u64) -> bool {
        exists|id: ClaimRequestId| #[trigger]
            self.claims.dom().contains(id) && self.claims[id].arm_id == arm_id
                && self.claims[id].generation == generation
    }

    /// The claim of this request was admitted with exactly this content.
    pub open spec fn same_claim(self, record: ClaimModel, events: Seq<EventModel>) -> bool {
        let existing = self.claims[record.request_id];
        &&& existing.arm_id == record.arm_id
        &&& existing.generation == record.generation
        &&& existing.signal_id == record.signal_id
        &&& existing.event_refs == record.event_refs
        &&& lookup(self.payloads, record.request_id) == Some(events)
    }

    pub open spec fn admit_claim(
        self,
        record: ClaimModel,
        events: Seq<EventModel>,
        attachment: PersistedControllerAttachment,
    ) -> (Store, Result<AdmissionRecord, PersistError>) {
        let request_id = record.request_id;
        if self.claims.dom().contains(request_id) {
            if !self.same_claim(record, events) {
                (self, Err(PersistError::Conflict))
            } else if !self.claim_attempts.dom().contains(request_id)
                || !self.attachments.dom().contains(self.claim_attempts[request_id]) {
                (self, Err(PersistError::InvalidTransition))
            } else {
                let attempt_id = self.claim_attempts[request_id];
                (
                    self,
                    Ok(
                        AdmissionRecord {
                            outcome: ClaimOutcome::ExactReplay,
                            attempt_id,
                            verifier_ref: self.attachments[attempt_id].verifier_ref,
                        },
                    ),
                )
            }
        } else if self.generation_claimed(record.arm_id, record.generation)
            || self.attachments.dom().contains(attachment.attempt_id) {
            (self, Err(PersistError::Conflict))
        } else {
            (
                Store {
                    claims: self.claims.insert(request_id, record),
                    payloads: self.payloads.insert(request_id, events),
                    claim_attempts: self.claim_attempts.insert(request_id, attachment.attempt_id),
                    attachments: self.attachments.insert(attachment.attempt_id, attachment),
                    attempt_seq: if self.attempt_seq < u64::MAX {
                        (self.attempt_seq + 1) as u64
                    } else {
                        self.attempt_seq
                    },
                    ..self
                },
                Ok(
                    AdmissionRecord {
                        outcome: ClaimOutcome::Admitted,
                        attempt_id: attachment.attempt_id,
                        verifier_ref: attachment.verifier_ref,
                    },
                ),
            )
        }
    }

    pub open spec fn reserve_birth(
        self,
        birth: PersistedControllerBirth,
        create: ThreadCreateReservation,
    ) -> (Store, Result<ReserveBirthOutcome, PersistError>) {
        if self.births.dom().contains(birth.birth_id) {
            if self.births[birth.birth_id] == birth && lookup(self.creates, birth.birth_id) == Some(
                create,
            ) {
                (self, Ok(ReserveBirthOutcome::ExactReplay))
            } else {
                (self, Ok(ReserveBirthOutcome::Conflict))
            }
        } else if birth.birth_id != create.birth_id {
            (self, Err(PersistError::Conflict))
        } else {
            (
                Store {
                    births: self.births.insert(birth.birth_id, birth),
                    creates: self.creates.insert(birth.birth_id, create),
                    ownership: self.ownership.insert(
                        birth.birth_id,
                        ThreadOwnershipState::Reserved {
                            create_attempt_id: create.create_attempt_id,
                        },
                    ),
                    ..self
                },
                Ok(ReserveBirthOutcome::Reserved),
            )
        }
    }

    pub open spec fn resolve_create(self, commit: ThreadCreateCommit) -> (
        Store,
        Result<IdempotentWrite, PersistError>,
    ) {
        let birth_id = commit.birth_id;
        let next = resolved_state(commit.create_attempt_id, commit.resolution);
        if !self.creates.dom().contains(birth_id) {
            (self, Err(PersistError::InvalidTransition))
        } else if self.creates[birth_id].create_attempt_id != commit.create_attempt_id {
            (self, Err(PersistError::Conflict))
        } else if !self.ownership.dom().contains(birth_id) {
            (self, Err(PersistError::InvalidTransition))
        } else if self.ownership[birth_id] == next {
            if lookup(self.create_evidence_refs, birth_id) == Some(commit.evidence_ref) {
                (self, Ok(IdempotentWrite::ExactReplay))
            } else {
                (self, Err(PersistError::Conflict))
            }
        } else if !may_resolve(self.ownership[birth_id], next) {
            (self, Err(PersistError::Conflict))
        } else {
            (
                Store {
                    create_evidence_refs: self.create_evidence_refs.insert(
                        birth_id,
                        commit.evidence_ref,
                    ),
                    ownership: self.ownership.insert(birth_id, next),
                    ..self
                },
                Ok(IdempotentWrite::Recorded),
            )
        }
    }

    pub open spec fn ownership_state(self, birth_id: ControllerBirthId) -> ThreadOwnershipState {
        match lookup(self.ownership, birth_id) {
            Some(state) => state,
            None => ThreadOwnershipState::Absent,
        }
    }

    /// A birth that is on record and not revoked.
    pub open spec fn live_birth(self, birth_id: ControllerBirthId) -> bool {
        self.births.dom().contains(birth_id) && !self.births[birth_id].revoked
    }

    /// The scope allows a coordinate to be sealed, or `reference` to be opened.
    pub open spec fn scope_allows(
        self,
        scope: NativeCoordinateScope,
        reference: Option<PrivateNativeRef>,
        opening: bool,
    ) -> bool {
        match scope {
            NativeCoordinateScope::Thread { birth_id, create_attempt_id } => {
                &&& self.creates.dom().contains(birth_id)
                &&& self.creates[birth_id].create_attempt_id == create_attempt_id
                &&& self.live_birth(birth_id)
                &&& self.births[birth_id].birth_id == birth_id
                &&& self.ownership.dom().contains(birth_id)
                &&& if opening {
                    &&& reference is Some
                    &&& self.ownership[birth_id].owns(create_attempt_id, reference->0)
                } else {
                    ||| self.ownership[birth_id] == (ThreadOwnershipState::Reserved {
                        create_attempt_id,
                    })
                    ||| self.ownership[birth_id] == (ThreadOwnershipState::Unknown {
                        create_attempt_id,
                    })
                }
            },
            NativeCoordinateScope::Turn { birth_id, attempt_id, signal_id, turn_write_id } => {
                let correlation = self.reservations[attempt_id].correlation;
                let attachment = self.attachments[attempt_id];
                let birth = self.births[birth_id];
                &&& self.reservations.dom().contains(attempt_id)
                &&& self.attachments.dom().contains(attempt_id)
                &&& !attachment.revoked
                &&& self.live_birth(birth_id)
                &&& correlation.scope_of_turn() == scope
                &&& attachment.birth_id == birth_id
                &&& attachment.arm_id == birth.arm_id
                &&& attachment.generation == birth.generation
                &&& attachment.seat_id == birth.seat_id
                &&& attachment.capability == birth.capability
                &&& if opening {
                    correlation.turn_ref == reference
                } else {
                    correlation.turn_ref is None
                }
            },
        }
    }

    /// The reference under which exactly this coordinate is already sealed.
    pub open spec fn sealed_ref(
        self,
        scope: NativeCoordinateScope,
        plaintext: Seq<u8>,
    ) -> Option<PrivateNativeRef> {
        table::first_key(
            self.coordinates,
            |key: PrivateNativeRef, held: CoordinateModel|
                held == (CoordinateModel { scope, plaintext }),
        )
    }

    /// The scope already owns, or is bound to, the reference.
    pub open spec fn bound_ref(
        self,
        scope: NativeCoordinateScope,
        reference: PrivateNativeRef,
    ) -> bool {
        match scope {
            NativeCoordinateScope::Turn { attempt_id, .. } => {
                self.reservations.dom().contains(attempt_id)
                    && self.reservations[attempt_id].correlation.turn_ref == Some(reference)
            },
            NativeCoordinateScope::Thread { birth_id, .. } => {
                self.ownership.dom().contains(birth_id) && (self.ownership[birth_id] matches
                    ThreadOwnershipState::Owned { thread_ref, .. } && thread_ref == reference)
            },
        }
    }

    /// Outcome of sealing a coordinate. A new reference is the store's choice,
    /// except that it is not in use yet.
    pub open spec fn sealed(
        self,
        scope: NativeCoordinateScope,
        kind: NativeCoordinateKind,
        plaintext: Seq<u8>,
        after: Store,
        result: Result<PrivateNativeRef, PersistError>,
    ) -> bool {
        if scope.kind() != kind {
            after == self && result == Err::<PrivateNativeRef, PersistError>(
                PersistError::Unauthorized,
            )
        } else {
            match self.sealed_ref(scope, plaintext) {
                Some(reference) => {
                    &&& after == self
                    &&& result == if self.scope_allows(
                        scope,
                        Some(reference),
                        self.bound_ref(scope, reference),
                    ) {
                        Ok::<PrivateNativeRef, PersistError>(reference)
                    } else {
                        Err(PersistError::Unauthorized)
                    }
                },
                None => if !self.scope_allows(scope, None, false) {
                    after == self && result == Err::<PrivateNativeRef, PersistError>(
                        PersistError::Unauthorized,
                    )
                } else {
                    match result {
                        Ok(reference) => {
                            &&& !self.coordinates.dom().contains(reference)
                            &&& after == self.with_coordinate(reference, scope, plaintext)
                        },
                        Err(error) => after == self && error == PersistError::StorageUnavailable,
                    }
                },
            }
        }
    }

    /// Sealing takes a new reference: the coordinate is not sealed yet, and its
    /// scope allows it.
    pub open spec fn seals_anew(
        self,
        scope: NativeCoordinateScope,
        kind: NativeCoordinateKind,
        plaintext: Seq<u8>,
    ) -> bool {
        scope.kind() == kind && self.sealed_ref(scope, plaintext) is None && self.scope_allows(
            scope,
            None,
            false,
        )
    }

    /// The draw gives a reference that is in use.
    pub open spec fn draws_taken(self, draw: Result<[u8; 32], EntropyError>) -> bool {
        draw matches Ok(bytes) && self.coordinates.dom().contains(PrivateNativeRef(bytes))
    }

    /// The place of the first draw that does not give a reference in use; the
    /// number of draws where there is none.
    pub open spec fn decides(self, draws: Seq<Result<[u8; 32], EntropyError>>, at: int) -> bool {
        &&& 0 <= at <= draws.len()
        &&& forall|i: int| 0 <= i < at ==> self.draws_taken(#[trigger] draws[i])
        &&& at < draws.len() ==> !self.draws_taken(draws[at])
    }

    /// A coordinate is sealed under the reference of a draw. A draw that failed,
    /// or is missing, seals nothing.
    pub open spec fn seal_under(
        self,
        scope: NativeCoordinateScope,
        plaintext: Seq<u8>,
        draws: Seq<Result<[u8; 32], EntropyError>>,
        at: int,
    ) -> (Store, Result<PrivateNativeRef, PersistError>) {
        if 0 <= at < draws.len() && draws[at] is Ok {
            let reference = PrivateNativeRef(draws[at]->Ok_0);
            (self.with_coordinate(reference, scope, plaintext), Ok(reference))
        } else {
            (self, Err(PersistError::StorageUnavailable))
        }
    }

    pub open spec fn with_coordinate(
        self,
        reference: PrivateNativeRef,
        scope: NativeCoordinateScope,
        plaintext: Seq<u8>,
    ) -> Store {
        Store {
            coordinates: self.coordinates.insert(reference, CoordinateModel { scope, plaintext }),
            ..self
        }
    }

    /// The plaintext behind a reference.
    pub open spec fn open_coordinate(
        self,
        scope: NativeCoordinateScope,
        reference: PrivateNativeRef,
    ) -> Result<Seq<u8>, PersistError> {
        if self.scope_allows(scope, Some(reference), true) && self.coordinates.dom().contains(
            reference,
        ) && self.coordinates[reference].scope == scope {
            Ok(self.coordinates[reference].plaintext)
        } else {
            Err(PersistError::Unauthorized)
        }
    }

    pub open spec fn prepare_dispatch(self, correlation: PersistedTurnCorrelation) -> (
        Store,
        Result<IdempotentWrite, PersistError>,
    ) {
        let id = correlation.attempt_id;
        if !self.prepared.dom().contains(id) {
            (
                Store { prepared: self.prepared.insert(id, correlation), ..self },
                Ok(IdempotentWrite::Recorded),
            )
        } else if self.prepared[id] == correlation {
            (self, Ok(IdempotentWrite::ExactReplay))
        } else {
            (self, Err(PersistError::Conflict))
        }
    }

    pub open spec fn conclude_prewrite(self, commit: PreWriteConclusionCommit) -> (
        Store,
        Result<IdempotentWrite, PersistError>,
    ) {
        let id = commit.attempt_id;
        if !self.prewrite.dom().contains(id) {
            (
                Store {
                    reservations: concluded(self.reservations, id),
                    prewrite: self.prewrite.insert(
                        id,
                        PersistedPreWriteConclusion {
                            attempt_id: id,
                            signal_id: commit.signal_id,
                            conclusion: commit.conclusion,
                            recorded_at: commit.recorded_at,
                        },
                    ),
                    ..self
                },
                Ok(IdempotentWrite::Recorded),
            )
        } else if self.prewrite[id].conclusion == commit.conclusion {
            (self, Ok(IdempotentWrite::ExactReplay))
        } else {
            (self, Err(PersistError::Conflict))
        }
    }

    /// The first claim, by request, of an attempt.
    pub open spec fn claim_of(self, attempt_id: AttemptId) -> Option<ClaimModel> {
        match table::first_key(
            self.claims,
            |key: ClaimRequestId, claim: ClaimModel| claim.attempt_id == attempt_id,
        ) {
            Some(key) => Some(self.claims[key]),
            None => None,
        }
    }

    /// The store knows attempt, birth, claim and thread of the proof, and each
    /// of them agrees with it.
    pub open spec fn hold_authorized(self, evidence: ActiveProofModel) -> bool {
        let attachment = self.attachments[evidence.attempt_id];
        let birth = self.births[evidence.birth_id];
        let prepared = self.prepared[evidence.attempt_id];
        &&& self.attachments.dom().contains(evidence.attempt_id)
        &&& self.births.dom().contains(evidence.birth_id)
        &&& self.claim_of(evidence.attempt_id) is Some
        &&& self.prepared.dom().contains(evidence.attempt_id)
        &&& attachment.birth_id == evidence.birth_id
        &&& attachment.seat_id == evidence.seat_id
        &&& attachment.arm_id == evidence.arm_id
        &&& attachment.generation == evidence.generation
        &&& attachment.capability == evidence.capability
        &&& attachment.verifier_ref == evidence.attachment_verifier_ref
        &&& attachment.lease_until == evidence.lease_until
        &&& !attachment.revoked
        &&& !birth.revoked
        &&& birth.seat_id == evidence.seat_id
        &&& birth.arm_id == evidence.arm_id
        &&& birth.generation == evidence.generation
        &&& birth.capability == evidence.capability
        &&& evidence.observed_at.nanos <= birth.lease_until.nanos
        &&& self.claim_of(evidence.attempt_id)->0.signal_id == evidence.signal_id
        &&& prepared.signal_id == evidence.signal_id
        &&& prepared.birth_id == evidence.birth_id
        &&& prepared.thread_ref == evidence.thread_ref
        &&& evidence.mutation_epoch.birth_id == evidence.birth_id
        &&& evidence.producer_version == controller::PRODUCER_VERSION@ || evidence.producer_version
            == controller::EARLIER_PRODUCER_VERSION@
        &&& evidence.producer_dialect == controller::PRODUCER_DIALECT@
        &&& self.ownership.dom().contains(evidence.birth_id)
        &&& self.ownership[evidence.birth_id].owns(
            evidence.create_attempt_id,
            evidence.thread_ref,
        )
    }

    pub open spec fn hold_active(self, evidence: ActiveProofModel) -> (
        Store,
        Result<IdempotentWrite, PersistError>,
    ) {
        let id = evidence.attempt_id;
        let record = evidence_record(self.mac_key, evidence);
        let conclusion = held_conclusion(record);
        if !self.hold_authorized(evidence) {
            (self, Err(PersistError::Unauthorized))
        } else if self.active_observations.dom().contains(id) {
            if self.active_observations[id] == record && lookup(self.prewrite, id) == Some(
                conclusion,
            ) {
                (self, Ok(IdempotentWrite::ExactReplay))
            } else {
                (self, Err(PersistError::Conflict))
            }
        } else if self.fail_next_active_hold {
            (
                Store { fail_next_active_hold: false, ..self },
                Err(PersistError::StorageUnavailable),
            )
        } else if self.prewrite.dom().contains(id) || self.consumed_probes.contains(
            evidence.probe_id,
        ) {
            (self, Err(PersistError::Conflict))
        } else {
            (
                Store {
                    consumed_probes: self.consumed_probes.insert(evidence.probe_id),
                    active_observations: self.active_observations.insert(id, record),
                    prewrite: self.prewrite.insert(id, conclusion),
                    ..self
                },
                Ok(IdempotentWrite::Recorded),
            )
        }
    }

    /// The permit is for this correlation, still fresh, and agrees with the
    /// attachment on record.
    pub open spec fn reserve_authorized(
        self,
        idle: ValidatedIdlePermit,
        correlation: PersistedTurnCorrelation,
    ) -> bool {
        let attachment = self.attachments[idle.attempt_id];
        &&& idle.observed_at.nanos < idle.valid_until.nanos
        &&& idle.attempt_id == correlation.attempt_id
        &&& idle.signal_id == correlation.signal_id
        &&& idle.birth_id == correlation.birth_id
        &&& idle.thread_ref == correlation.thread_ref
        &&& idle.mutation_epoch.birth_id == idle.birth_id
        &&& !self.consumed_probes.contains(idle.probe_id)
        &&& !self.reservations.dom().contains(idle.attempt_id)
        &&& self.attachments.dom().contains(idle.attempt_id)
        &&& attachment.birth_id == idle.birth_id
        &&& attachment.arm_id == idle.arm_id
        &&& attachment.generation == idle.generation
        &&& attachment.capability == idle.capability
        &&& attachment.verifier_ref == idle.verifier_ref
        &&& !attachment.revoked
    }

    pub open spec fn reserve_write(
        self,
        idle: ValidatedIdlePermit,
        correlation: PersistedTurnCorrelation,
    ) -> (Store, Result<NativeWriteReservation, PersistError>) {
        if !self.reserve_authorized(idle, correlation) {
            (self, Err(PersistError::Unauthorized))
        } else {
            (
                Store {
                    consumed_probes: self.consumed_probes.insert(idle.probe_id),
                    reservations: self.reservations.insert(
                        idle.attempt_id,
                        PersistedNativeReservation {
                            correlation,
                            probe_id: idle.probe_id,
                            expected_epoch: idle.mutation_epoch,
                            concluded: false,
                        },
                    ),
                    ..self
                },
                Ok(
                    NativeWriteReservation {
                        correlation,
                        probe_id: idle.probe_id,
                        expected_epoch: idle.mutation_epoch,
                    },
                ),
            )
        }
    }

    pub open spec fn record_write(self, commit: NativeWriteEvidenceCommit) -> (
        Store,
        Result<IdempotentWrite, PersistError>,
    ) {
        let id = commit.correlation.attempt_id;
        if !self.reservations.dom().contains(id) {
            (self, Err(PersistError::InvalidTransition))
        } else if self.reservations[id].correlation != commit.correlation {
            (self, Err(PersistError::Unauthorized))
        } else if self.write_evidence.dom().contains(id) {
            if self.write_evidence[id] == commit.evidence && lookup(self.write_evidence_refs, id)
                == Some(commit.evidence_ref) {
                (self, Ok(IdempotentWrite::ExactReplay))
            } else {
                (self, Err(PersistError::Conflict))
            }
        } else {
            (
                Store {
                    write_evidence: self.write_evidence.insert(id, commit.evidence),
                    write_evidence_refs: self.write_evidence_refs.insert(id, commit.evidence_ref),
                    reservations: concluded(self.reservations, id),
                    ..self
                },
                Ok(IdempotentWrite::Recorded),
            )
        }
    }

    /// The fact is for a prepared attempt, and the turn it names is the sealed,
    /// reserved turn of that attempt.
    pub open spec fn fact_authorized(
        self,
        correlation: PersistedTurnCorrelation,
        fact: NativeTurnFact,
    ) -> bool {
        let id = correlation.attempt_id;
        let prepared = self.prepared[id];
        let reserved = self.reservations[id].correlation;
        &&& self.prepared.dom().contains(id)
        &&& prepared.signal_id == correlation.signal_id
        &&& prepared.birth_id == correlation.birth_id
        &&& prepared.thread_ref == correlation.thread_ref
        &&& prepared.turn_write_id == correlation.turn_write_id
        &&& fact.named_turn() matches Some(turn_ref) ==> {
            &&& correlation.turn_ref == Some(turn_ref)
            &&& self.coordinates.dom().contains(turn_ref)
            &&& self.coordinates[turn_ref].scope == correlation.scope_of_turn()
            &&& self.coordinates[turn_ref].plaintext.len() > 0
            &&& self.reservations.dom().contains(id)
            &&& reserved.birth_id == correlation.birth_id
            &&& reserved.signal_id == correlation.signal_id
            &&& reserved.thread_ref == correlation.thread_ref
            &&& reserved.turn_write_id == correlation.turn_write_id
            &&& reserved.turn_ref is None || reserved.turn_ref == Some(turn_ref)
            &&& prepared.turn_ref is None || prepared.turn_ref == Some(turn_ref)
        }
    }

    /// The facts of an attempt in the order of their recording.
    pub open spec fn facts_of(self, id: AttemptId) -> Seq<NativeTurnFact> {
        match lookup(self.turn_facts, id) {
            Some(facts) => facts,
            None => Seq::empty(),
        }
    }

    pub open spec fn record_fact(self, commit: NativeTurnFactCommit) -> (
        Store,
        Result<IdempotentWrite, PersistError>,
    ) {
        let id = commit.correlation.attempt_id;
        let facts = self.facts_of(id);
        if self.fail_next_turn_fact {
            (Store { fail_next_turn_fact: false, ..self }, Err(PersistError::StorageUnavailable))
        } else if !self.fact_authorized(commit.correlation, commit.fact) {
            (self, Err(PersistError::Unauthorized))
        } else if facts.contains(commit.fact) {
            (self, Ok(IdempotentWrite::ExactReplay))
        } else {
            let grown = Store {
                turn_facts: self.turn_facts.insert(id, facts.push(commit.fact)),
                ..self
            };
            (
                match commit.fact.named_turn() {
                    Some(turn_ref) => Store {
                        prepared: grown.prepared.insert(id, grown.prepared[id].bound_to(turn_ref)),
                        reservations: grown.reservations.insert(
                            id,
                            PersistedNativeReservation {
                                correlation: grown.reservations[id].correlation.bound_to(turn_ref),
                                ..grown.reservations[id]
                            },
                        ),
                        ..grown
                    },
                    None => Store {
                        write_evidence: grown.write_evidence.insert(
                            id,
                            NativeWriteEvidence::Unknown,
                        ),
                        ..grown
                    },
                },
                Ok(IdempotentWrite::Recorded),
            )
        }
    }

    pub open spec fn record_reconciliation(
        self,
        scope: ReconciliationScope,
        disposition: ReconciliationDisposition,
    ) -> (Store, Result<IdempotentWrite, PersistError>) {
        let id = scope.correlation.attempt_id;
        if !self.reservations.dom().contains(id) {
            (self, Err(PersistError::InvalidTransition))
        } else if self.reservations[id].correlation != scope.correlation || lookup(
            self.write_evidence,
            id,
        ) != Some(NativeWriteEvidence::Unknown) || lookup(self.write_evidence_refs, id) != Some(
            scope.evidence_ref,
        ) {
            (self, Err(PersistError::Unauthorized))
        } else {
            let settled = Store {
                reconciliations: self.reconciliations.insert(id, disposition),
                ..self
            };
            match lookup(self.reconciliations, id) {
                None => (settled, Ok(IdempotentWrite::Recorded)),
                Some(existing) => if existing == disposition {
                    (self, Ok(IdempotentWrite::ExactReplay))
                } else if existing == ReconciliationDisposition::Unknown {
                    (settled, Ok(IdempotentWrite::Recorded))
                } else {
                    (self, Err(PersistError::Conflict))
                },
            }
        }
    }

    pub open spec fn revoke_attachment(self, scope: ValidatedAttachmentScope) -> (
        Store,
        Result<IdempotentWrite, PersistError>,
    ) {
        let attachment = self.attachments[scope.attempt_id];
        if !self.attachments.dom().contains(scope.attempt_id) || attachment.birth_id
            != scope.birth_id || attachment.arm_id != scope.arm_id || attachment.generation
            != scope.generation || attachment.verifier_ref != scope.verifier_ref {
            (self, Err(PersistError::Unauthorized))
        } else if attachment.revoked {
            (self, Ok(IdempotentWrite::ExactReplay))
        } else {
            (
                Store {
                    attachments: self.attachments.insert(
                        scope.attempt_id,
                        PersistedControllerAttachment { revoked: true, ..attachment },
                    ),
                    ..self
                },
                Ok(IdempotentWrite::Recorded),
            )
        }
    }

    /// First part of recovery: creates that were only reserved become unknown,
    /// writes without a fact are settled from their evidence.
    pub open spec fn settled(self) -> Store {
        Store {
            ownership: Map::new(
                |id: ControllerBirthId| self.ownership.dom().contains(id),
                |id: ControllerBirthId| interrupted_create(self.ownership[id]),
            ),
            write_evidence: Map::new(
                |id: AttemptId| self.write_evidence.dom().contains(id),
                |id: AttemptId|
                    if !self.turn_facts.dom().contains(id) && self.write_evidence[id] is WriterAccepted {
                        NativeWriteEvidence::Unknown
                    } else {
                        self.write_evidence[id]
                    },
            ),
            turn_facts: Map::new(
                |id: AttemptId| self.turn_facts.dom().contains(id) || self.answered(id),
                |id: AttemptId|
                    if self.turn_facts.dom().contains(id) {
                        self.turn_facts[id]
                    } else {
                        seq![self.write_evidence[id]->fact]
                    },
            ),
            ..self
        }
    }

    /// The write of the attempt was answered exactly.
    pub open spec fn answered(self, id: AttemptId) -> bool {
        self.write_evidence.dom().contains(id) && self.write_evidence[id] is ExactResponse
    }

    /// The reservation of the attempt has no conclusion and no evidence.
    pub open spec fn unresolved(self, id: AttemptId, reservation: PersistedNativeReservation) -> bool {
        !reservation.concluded && !self.write_evidence.dom().contains(id)
    }

    /// The attempts whose write stays unknown, in ascending order.
    pub open spec fn unresolved_ids(
        self,
        pairs: Seq<(AttemptId, PersistedNativeReservation)>,
    ) -> Seq<AttemptId>
        decreases pairs.len(),
    {
        if pairs.len() == 0 {
            Seq::empty()
        } else {
            let rest = self.unresolved_ids(pairs.drop_last());
            if self.unresolved(pairs.last().0, pairs.last().1) {
                rest.push(pairs.last().0)
            } else {
                rest
            }
        }
    }

    /// Second part of recovery: an unresolved write becomes durably unknown.
    pub open spec fn mark_unknown(self, id: AttemptId, evidence_ref: VerifierRef) -> Store {
        Store {
            write_evidence: self.write_evidence.insert(id, NativeWriteEvidence::Unknown),
            write_evidence_refs: self.write_evidence_refs.insert(id, evidence_ref),
            reservations: concluded(self.reservations, id),
            ..self
        }
    }

    /// Marks the attempts one after the other, each with its own evidence.
    pub open spec fn mark_all(self, ids: Seq<AttemptId>, refs: Seq<VerifierRef>) -> Store
        decreases ids.len(),
    {
        if ids.len() == 0 {
            self
        } else {
            self.mark_all(ids.drop_last(), refs.drop_last()).mark_unknown(ids.last(), refs.last())
        }
    }

    /// Contents after a recovery that drew these evidence references.
    pub open spec fn recovers(
        self,
        pairs: Seq<(AttemptId, PersistedNativeReservation)>,
        refs: Seq<VerifierRef>,
        after: Store,
    ) -> bool {
        let ids = self.settled().unresolved_ids(pairs);
        &&& table::lists(pairs, self.reservations)
        &&& refs.len() <= ids.len()
        &&& after == self.settled().mark_all(ids.take(refs.len() as int), refs)
    }

    /// Every unresolved write got an evidence reference.
    pub open spec fn all_marked(
        self,
        pairs: Seq<(AttemptId, PersistedNativeReservation)>,
        refs: Seq<VerifierRef>,
    ) -> bool {
        refs.len() == self.settled().unresolved_ids(pairs).len()
    }

    /// The evidence of reserved writes that has a reference, in ascending order.
    pub open spec fn evidence_list(self, pairs: Seq<(AttemptId, NativeWriteEvidence)>) -> Seq<
        PersistedNativeWriteEvidence,
    >
        decreases pairs.len(),
    {
        if pairs.len() == 0 {
            Seq::empty()
        } else {
            let rest = self.evidence_list(pairs.drop_last());
            let id = pairs.last().0;
            if self.reservations.dom().contains(id) && self.write_evidence_refs.dom().contains(id) {
                rest.push(
                    PersistedNativeWriteEvidence {
                        correlation: self.reservations[id].correlation,
                        evidence: pairs.last().1,
                        evidence_ref: self.write_evidence_refs[id],
                    },
                )
            } else {
                rest
            }
        }
    }

    /// The snapshot lists the store's authority metadata, each part in ascending
    /// key order.
    pub open spec fn snapshot(self, snapshot: RecoverySnapshot) -> bool {
        &&& listed(self.arms, snapshot.arms@)
        &&& listed(self.claims, Seq::new(snapshot.claims@.len(), |i: int| snapshot.claims@[i]@))
        &&& listed(self.attachments, snapshot.attachments@)
        &&& listed(self.births, snapshot.controller_births@)
        &&& exists|pairs: Seq<(ControllerBirthId, ThreadOwnershipState)>|
            {
                &&& #[trigger] table::lists(pairs, self.ownership)
                &&& snapshot.ownership@ == Seq::new(
                    pairs.len(),
                    |i: int|
                        PersistedThreadOwnership { birth_id: pairs[i].0, state: pairs[i].1 },
                )
            }
        &&& listed(self.prepared, snapshot.turn_correlations@)
        &&& listed(self.reservations, snapshot.reservations@)
        &&& exists|pairs: Seq<(AttemptId, NativeWriteEvidence)>|
            {
                &&& #[trigger] table::lists(pairs, self.write_evidence)
                &&& snapshot.native_write_evidence@ == self.evidence_list(pairs)
            }
        &&& exists|pairs: Seq<(AttemptId, Seq<NativeTurnFact>)>|
            {
                &&& #[trigger] table::lists(pairs, self.turn_facts)
                &&& facts_listed(pairs, snapshot.native_turn_facts@)
            }
        &&& exists|pairs: Seq<(AttemptId, ReconciliationDisposition)>|
            {
                &&& #[trigger] table::lists(pairs, self.reconciliations)
                &&& snapshot.reconciliations@ == Seq::new(
                    pairs.len(),
                    |i: int|
                        PersistedReconciliation {
                            attempt_id: pairs[i].0,
                            disposition: pairs[i].1,
                        },
                )
            }
        &&& listed(self.prewrite, snapshot.prewrite_conclusions@)
        &&& listed(
            self.active_observations,
            Seq::new(
                snapshot.active_observations@.len(),
                |i: int| snapshot.active_observations@[i]@,
            ),
        )
        &&& snapshot.attempt_seq == self.attempt_seq
    }
}

/// The values of a map in ascending key order.
pub open spec fn listed<K: Key, W>(map: Map<K, W>, values: Seq<W>) -> bool {
    exists|pairs: Seq<(K, W)>| #[trigger] table::lists(pairs, map) && values_of(pairs) == values
}

/// The second components.
pub open spec fn values_of<K, W>(pairs: Seq<(K, W)>) -> Seq<W> {
    Seq::new(pairs.len(), |i: int| pairs[i].1)
}

/// The records pair each attempt with its facts.
pub open spec fn facts_listed(
    pairs: Seq<(AttemptId, Seq<NativeTurnFact>)>,
    records: Seq<PersistedNativeTurnFacts>,
) -> bool {
    &&& records.len() == pairs.len()
    &&& forall|i: int|
        0 <= i < records.len() ==> (#[trigger] records[i]).attempt_id == pairs[i].0
            && records[i].facts@ == pairs[i].1
}

/// What a create that was only reserved becomes when its outcome was lost.
pub open spec fn interrupted_create(state: ThreadOwnershipState) -> ThreadOwnershipState {
    match state {
        ThreadOwnershipState::Reserved { create_attempt_id } => ThreadOwnershipState::Unknown {
            create_attempt_id,
        },
        _ => state,
    }
}

/// The ownership state that a resolution leads to.
pub open spec fn resolved_state(
    create_attempt_id: RequestNonce,
    resolution: ThreadCreateResolution,
) -> ThreadOwnershipState {
    match resolution {
        ThreadCreateResolution::Owned { thread_ref } => ThreadOwnershipState::Owned {
            create_attempt_id,
            thread_ref,
        },
        ThreadCreateResolution::ProvenNotAccepted => ThreadOwnershipState::ProvenNotAccepted {
            create_attempt_id,
        },
        ThreadCreateResolution::Unknown => ThreadOwnershipState::Unknown { create_attempt_id },
    }
}

/// A reserved create takes any resolution, an unknown one only a definite one.
pub open spec fn may_resolve(current: ThreadOwnershipState, next: ThreadOwnershipState) -> bool {
    ||| current is Reserved
    ||| current is Unknown && (next is Owned || next is ProvenNotAccepted)
}

/// The reservation of the attempt, where there is one, has its conclusion.
pub open spec fn concluded(
    reservations: Map<AttemptId, PersistedNativeReservation>,
    id: AttemptId,
) -> Map<AttemptId, PersistedNativeReservation> {
    if reservations.dom().contains(id) {
        reservations.insert(
            id,
            PersistedNativeReservation { concluded: true, ..reservations[id] },
        )
    } else {
        reservations
    }
}

/// Domain of the fingerprint of an active observation.
pub const FINGERPRINT_DOMAIN: &'static str = "gearwit.active-observation.v1\0";

/// Domain of the reference to an active observation.
pub const EVIDENCE_DOMAIN: &'static str = "gearwit.active-observation-ref.v1\0";

/// The fields that the fingerprint binds.
pub open spec fn fingerprint_fields(evidence: ActiveProofModel) -> Seq<Seq<u8>> {
    seq![
        evidence.birth_id.0@,
        evidence.create_attempt_id.0@,
        evidence.thread_ref.0@,
        evidence.seat_id.token.text(),
        evidence.arm_id.token.text(),
        bytes::le_bytes(evidence.generation as int, 8),
        seq![evidence.capability.tag()],
        evidence.attachment_verifier_ref.0@,
        bytes::le_bytes(bytes::twos_complement(evidence.lease_until.nanos), 16),
        evidence.attempt_id.token.text(),
        evidence.signal_id.token.text(),
        evidence.probe_id.0@,
        bytes::le_bytes(evidence.mutation_epoch.sequence as int, 8),
        bytes::le_bytes(bytes::twos_complement(evidence.observed_at.nanos), 16),
        evidence.prehash,
        encode_utf8(evidence.producer_version),
        encode_utf8(evidence.producer_dialect),
    ]
}

/// What the fingerprint is the keyed digest of.
pub open spec fn fingerprint_input(evidence: ActiveProofModel) -> Seq<u8> {
    encode_utf8(FINGERPRINT_DOMAIN@) + bytes::frame(fingerprint_fields(evidence))
}

/// Keyed digest over everything that an active observation states.
pub open spec fn fingerprint_of(key: Seq<u8>, evidence: ActiveProofModel) -> Seq<u8> {
    primitives::blake3_keyed_digest(key, fingerprint_input(evidence))
}

/// Keyed digest that names the evidence.
pub open spec fn evidence_ref_of(key: Seq<u8>, fingerprint: Seq<u8>) -> Seq<u8> {
    primitives::blake3_keyed_digest(key, encode_utf8(EVIDENCE_DOMAIN@) + fingerprint)
}

/// The durable evidence of an active observation.
pub open spec fn evidence_record(key: Seq<u8>, evidence: ActiveProofModel) -> ActiveEvidenceModel {
    let fingerprint = fingerprint_of(key, evidence);
    ActiveEvidenceModel {
        evidence_ref: ActiveObservationEvidenceRef(
            bytes::array_of(evidence_ref_of(key, fingerprint)),
        ),
        birth_id: evidence.birth_id,
        create_attempt_id: evidence.create_attempt_id,
        seat_id: evidence.seat_id,
        arm_id: evidence.arm_id,
        generation: evidence.generation,
        capability: evidence.capability,
        attachment_verifier_ref: evidence.attachment_verifier_ref,
        lease_until: evidence.lease_until,
        attempt_id: evidence.attempt_id,
        signal_id: evidence.signal_id,
        probe_id: evidence.probe_id,
        mutation_epoch: evidence.mutation_epoch,
        observed_at: evidence.observed_at,
        fingerprint: ActiveObservationFingerprint(bytes::array_of(fingerprint)),
        producer_version: evidence.producer_version,
        producer_dialect: evidence.producer_dialect,
    }
}

/// The zero-write conclusion that durable active evidence carries.
pub open spec fn held_conclusion(record: ActiveEvidenceModel) -> PersistedPreWriteConclusion {
    PersistedPreWriteConclusion {
        attempt_id: record.attempt_id,
        signal_id: record.signal_id,
        conclusion: PreWriteConclusion::HeldBeforeNativeWrite {
            active_evidence_ref: record.evidence_ref,
        },
        recorded_at: record.observed_at,
    }
}

} // verus!
