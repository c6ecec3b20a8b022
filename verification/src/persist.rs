//! Semantic persistence port for native-controller authority.

use crate::bytes;
use crate::bytes::{i128_le, push_bytes, push_field, same_bytes, u64_le};
use crate::controller::{
    same_optional_ref, ActiveObservationProof, ManagedCapability, NativeCoordinateKind,
    NativeCoordinateScope, NativeTurnFact, NativeWriteReservation, OpenedNativeCoordinate,
    PersistedTurnCorrelation, ReconciliationDisposition, ReconciliationScope,
    SecretNativeCoordinate, ValidatedIdlePermit, EARLIER_PRODUCER_VERSION, PRODUCER_DIALECT,
    PRODUCER_VERSION,
};
use crate::ident::{
    random_bytes, ActiveObservationEvidenceRef, ActiveObservationFingerprint, ArmId, AttemptId,
    ClaimRequestId, ControllerBirthId, EntropyError, PrivateNativeRef, RequestNonce, VerifierRef,
};
use crate::protocol;
use crate::protocol::{copy_events, same_events};
use crate::records::{
    has_fact, ActiveHoldCommit, AdmissionRecord, ClaimAdmission, ClaimModel, ClaimOutcome,
    CoordinateModel, FactList, IdempotentWrite, Mark, NativeTurnFactCommit, NativeWriteEvidence,
    NativeWriteEvidenceCommit, Payload, PersistError, PersistedActiveObservationEvidence,
    PersistedArm, PersistedClaimRecord, PersistedControllerAttachment, PersistedControllerBirth,
    PersistedNativeReservation, PersistedNativeTurnFacts, PersistedNativeWriteEvidence,
    PersistedPreWriteConclusion, PersistedReconciliation, PersistedThreadOwnership,
    PreWriteConclusion, PreWriteConclusionCommit, PreparedDispatchCommit, RecoveryCoordinate,
    RecoverySnapshot, ReserveBirthOutcome, ThreadCreateCommit, ThreadCreateReservation,
    ThreadCreateResolution, ThreadOwnershipState, ValidatedAttachmentScope,
};
use crate::secret::{SecretBytes, SecretKey};
use crate::store;
use crate::store::{Store, EVIDENCE_DOMAIN, FINGERPRINT_DOMAIN};
use crate::table;
use crate::table::{Record, Table};
use crate::text::{same_text, same_texts};
use vstd::prelude::*;
use vstd::utf8::*;

verus! {

/// Marks a type as a persistence backend. Nothing keeps other types from being
/// marked.
pub trait Sealed {

}

/// Semantic host persistence port. There are no generic transition, raw
/// disposition, content-load, or backend escape-hatch methods. Each operation
/// is the transition of the same name on the store's contents.
pub trait Persist: Sealed + Sized {
    /// What the backend holds.
    spec fn store(&self) -> Store;

    fn persist_arm(&mut self, arm: &PersistedArm) -> (result: Result<(), PersistError>)
        ensures
            final(self).store() == old(self).store().persist_arm(*arm),
            result is Ok,
    ;

    fn admit_claim(
        &mut self,
        admission: &ClaimAdmission,
        attachment: &PersistedControllerAttachment,
    ) -> (result: Result<AdmissionRecord, PersistError>)
        ensures
            (final(self).store(), result) == old(self).store().admit_claim(
                admission.record@,
                protocol::event_models(admission.events@),
                *attachment,
            ),
    ;

    fn reserve_controller_birth(
        &mut self,
        birth: &PersistedControllerBirth,
        create: &ThreadCreateReservation,
    ) -> (result: Result<ReserveBirthOutcome, PersistError>)
        ensures
            (final(self).store(), result) == old(self).store().reserve_birth(*birth, *create),
    ;

    fn resolve_thread_create(&mut self, commit: ThreadCreateCommit) -> (result: Result<
        IdempotentWrite,
        PersistError,
    >)
        ensures
            (final(self).store(), result) == old(self).store().resolve_create(commit),
    ;

    fn thread_ownership_state(&self, birth_id: &ControllerBirthId) -> (result: Result<
        ThreadOwnershipState,
        PersistError,
    >)
        ensures
            result == Ok::<ThreadOwnershipState, PersistError>(
                self.store().ownership_state(*birth_id),
            ),
    ;

    fn seal_native_coordinate(
        &mut self,
        scope: &NativeCoordinateScope,
        coordinate: &SecretNativeCoordinate,
    ) -> (result: Result<PrivateNativeRef, PersistError>)
        ensures
            old(self).store().sealed(
                *scope,
                coordinate.kind,
                coordinate.plaintext@,
                final(self).store(),
                result,
            ),
    ;

    fn open_native_coordinate(
        &self,
        scope: &NativeCoordinateScope,
        native_ref: &PrivateNativeRef,
    ) -> (result: Result<OpenedNativeCoordinate, PersistError>)
        ensures
            match result {
                Ok(opened) => self.store().open_coordinate(*scope, *native_ref) == Ok::<
                    Seq<u8>,
                    PersistError,
                >(opened.plaintext@),
                Err(error) => self.store().open_coordinate(*scope, *native_ref) == Err::<
                    Seq<u8>,
                    PersistError,
                >(error),
            },
    ;

    fn record_dispatch_prepared(&mut self, commit: PreparedDispatchCommit) -> (result: Result<
        IdempotentWrite,
        PersistError,
    >)
        ensures
            (final(self).store(), result) == old(self).store().prepare_dispatch(commit.correlation),
    ;

    fn record_prewrite_conclusion(&mut self, commit: PreWriteConclusionCommit) -> (result: Result<
        IdempotentWrite,
        PersistError,
    >)
        ensures
            (final(self).store(), result) == old(self).store().conclude_prewrite(commit),
    ;

    fn record_active_hold(&mut self, commit: ActiveHoldCommit) -> (result: Result<
        IdempotentWrite,
        PersistError,
    >)
        ensures
            (final(self).store(), result) == old(self).store().hold_active(commit.evidence@),
    ;

    fn reserve_native_turn_write(
        &mut self,
        idle: ValidatedIdlePermit,
        correlation: &PersistedTurnCorrelation,
    ) -> (result: Result<NativeWriteReservation, PersistError>)
        ensures
            (final(self).store(), result) == old(self).store().reserve_write(idle, *correlation),
    ;

    fn record_native_write_evidence(&mut self, commit: NativeWriteEvidenceCommit) -> (result: Result<
        IdempotentWrite,
        PersistError,
    >)
        ensures
            (final(self).store(), result) == old(self).store().record_write(commit),
    ;

    fn record_native_turn_fact(&mut self, commit: NativeTurnFactCommit) -> (result: Result<
        IdempotentWrite,
        PersistError,
    >)
        ensures
            (final(self).store(), result) == old(self).store().record_fact(commit),
    ;

    fn record_reconciliation_fact(
        &mut self,
        scope: &ReconciliationScope,
        disposition: &ReconciliationDisposition,
    ) -> (result: Result<IdempotentWrite, PersistError>)
        ensures
            (final(self).store(), result) == old(self).store().record_reconciliation(
                *scope,
                *disposition,
            ),
    ;

    fn revoke_controller_attachment(&mut self, scope: ValidatedAttachmentScope) -> (result: Result<
        IdempotentWrite,
        PersistError,
    >)
        ensures
            (final(self).store(), result) == old(self).store().revoke_attachment(scope),
    ;

    fn recover_authority_state(&mut self) -> (result: Result<RecoverySnapshot, PersistError>)
        ensures
            exists|
                pairs: Seq<(AttemptId, PersistedNativeReservation)>,
                refs: Seq<VerifierRef>,
            | #[trigger]
                old(self).store().recovers(pairs, refs, final(self).store()) && (result is Ok
                    <==> old(self).store().all_marked(pairs, refs)),
            match result {
                Ok(snapshot) => final(self).store().snapshot(snapshot),
                Err(error) => error == PersistError::StorageUnavailable,
            },
    ;
}

/// Deterministic in-memory store. Payload content is isolated from all recovery
/// and authority inspection records.
pub struct FakePersist {
    arms: Table<ArmId, PersistedArm>,
    claims: Table<ClaimRequestId, PersistedClaimRecord>,
    payloads: Table<ClaimRequestId, Payload>,
    claim_attempts: Table<ClaimRequestId, AttemptId>,
    attachments: Table<AttemptId, PersistedControllerAttachment>,
    births: Table<ControllerBirthId, PersistedControllerBirth>,
    creates: Table<ControllerBirthId, ThreadCreateReservation>,
    ownership: Table<ControllerBirthId, ThreadOwnershipState>,
    create_evidence_refs: Table<ControllerBirthId, VerifierRef>,
    private_recovery: Table<PrivateNativeRef, RecoveryCoordinate>,
    prepared: Table<AttemptId, PersistedTurnCorrelation>,
    reservations: Table<AttemptId, PersistedNativeReservation>,
    consumed_probes: Table<RequestNonce, Mark>,
    prewrite: Table<AttemptId, PersistedPreWriteConclusion>,
    active_observations: Table<AttemptId, PersistedActiveObservationEvidence>,
    active_mac_key: SecretKey,
    write_evidence: Table<AttemptId, NativeWriteEvidence>,
    write_evidence_refs: Table<AttemptId, VerifierRef>,
    turn_facts: Table<AttemptId, FactList>,
    reconciliations: Table<AttemptId, ReconciliationDisposition>,
    attempt_seq: u64,
    fail_next_turn_fact: bool,
    fail_next_active_hold: bool,
}

impl View for FakePersist {
    type V = Store;

    closed spec fn view(&self) -> Store {
        Store {
            arms: self.arms@,
            claims: self.claims@,
            payloads: self.payloads@,
            claim_attempts: self.claim_attempts@,
            attachments: self.attachments@,
            births: self.births@,
            creates: self.creates@,
            ownership: self.ownership@,
            create_evidence_refs: self.create_evidence_refs@,
            coordinates: self.private_recovery@,
            prepared: self.prepared@,
            reservations: self.reservations@,
            consumed_probes: self.consumed_probes@.dom(),
            prewrite: self.prewrite@,
            active_observations: self.active_observations@,
            mac_key: self.active_mac_key@,
            write_evidence: self.write_evidence@,
            write_evidence_refs: self.write_evidence_refs@,
            turn_facts: self.turn_facts@,
            reconciliations: self.reconciliations@,
            attempt_seq: self.attempt_seq,
            fail_next_turn_fact: self.fail_next_turn_fact,
            fail_next_active_hold: self.fail_next_active_hold,
        }
    }
}

impl Clone for FakePersist {
    fn clone(&self) -> (copy: FakePersist)
        ensures
            copy@ == self@,
    {
        FakePersist {
            arms: self.arms.clone(),
            claims: self.claims.clone(),
            payloads: self.payloads.clone(),
            claim_attempts: self.claim_attempts.clone(),
            attachments: self.attachments.clone(),
            births: self.births.clone(),
            creates: self.creates.clone(),
            ownership: self.ownership.clone(),
            create_evidence_refs: self.create_evidence_refs.clone(),
            private_recovery: self.private_recovery.clone(),
            prepared: self.prepared.clone(),
            reservations: self.reservations.clone(),
            consumed_probes: self.consumed_probes.clone(),
            prewrite: self.prewrite.clone(),
            active_observations: self.active_observations.clone(),
            active_mac_key: self.active_mac_key.clone(),
            write_evidence: self.write_evidence.clone(),
            write_evidence_refs: self.write_evidence_refs.clone(),
            turn_facts: self.turn_facts.clone(),
            reconciliations: self.reconciliations.clone(),
            attempt_seq: self.attempt_seq,
            fail_next_turn_fact: self.fail_next_turn_fact,
            fail_next_active_hold: self.fail_next_active_hold,
        }
    }
}

impl FakePersist {
    /// The empty store under a given key for active evidence.
    pub fn with_key(key: [u8; 32]) -> (persist: FakePersist)
        ensures
            persist@ == Store::empty(key@),
    {
        let persist = FakePersist {
            arms: Table::new(),
            claims: Table::new(),
            payloads: Table::new(),
            claim_attempts: Table::new(),
            attachments: Table::new(),
            births: Table::new(),
            creates: Table::new(),
            ownership: Table::new(),
            create_evidence_refs: Table::new(),
            private_recovery: Table::new(),
            prepared: Table::new(),
            reservations: Table::new(),
            consumed_probes: Table::new(),
            prewrite: Table::new(),
            active_observations: Table::new(),
            active_mac_key: SecretKey::new(key),
            write_evidence: Table::new(),
            write_evidence_refs: Table::new(),
            turn_facts: Table::new(),
            reconciliations: Table::new(),
            attempt_seq: 0,
            fail_next_turn_fact: false,
            fail_next_active_hold: false,
        };
        assert(persist@.consumed_probes =~= Set::empty());
        persist
    }

    /// The empty store under a fresh random key, where the system gives one.
    /// Whether it does is the system's choice.
    pub fn fresh() -> (persist: Result<FakePersist, EntropyError>)
        ensures
            match persist {
                Ok(persist) => exists|key: [u8; 32]| persist@ == Store::empty(#[trigger] key@),
                Err(_) => true,
            },
    {
        FakePersist::from_drawn(random_bytes())
    }

    /// The empty store under the key of a draw.
    pub fn from_drawn(draw: Result<[u8; 32], EntropyError>) -> (persist: Result<
        FakePersist,
        EntropyError,
    >)
        ensures
            match draw {
                Ok(key) => persist is Ok && persist->Ok_0@ == Store::empty(key@),
                Err(error) => persist == Err::<FakePersist, EntropyError>(error),
            },
    {
        match draw {
            Ok(key) => Ok(FakePersist::with_key(key)),
            Err(error) => Err(error),
        }
    }

    /// How the store is shown: its recovery partition stays out.
    pub fn redacted(&self) -> (text: String)
        ensures
            text@ == "FakePersist([redacted private recovery partition])"@,
    {
        "FakePersist([redacted private recovery partition])".to_owned()
    }

    /// The zero-write conclusion of an attempt.
    pub fn prewrite_conclusion(&self, attempt_id: &str) -> (conclusion: Option<PreWriteConclusion>)
        ensures
            conclusion == match table::first_key(
                self@.prewrite,
                |id: AttemptId, record: PersistedPreWriteConclusion| id.chars() == attempt_id@,
            ) {
                Some(id) => Some(self@.prewrite[id].conclusion),
                None => None,
            },
    {
        let ghost wanted = |id: AttemptId, record: PersistedPreWriteConclusion|
            id.chars() == attempt_id@;
        let len: usize = self.prewrite.len();
        let mut i: usize = 0;
        while i < len
            invariant
                i <= len,
                len == self.prewrite.pairs().len(),
                table::lists(self.prewrite.pairs(), self.prewrite@),
                wanted == (|id: AttemptId, record: PersistedPreWriteConclusion|
                    id.chars() == attempt_id@),
                forall|j: int|
                    0 <= j < i ==> !wanted(
                        (#[trigger] self.prewrite.pairs()[j]).0,
                        self.prewrite.pairs()[j].1,
                    ),
            decreases len - i,
        {
            let id = self.prewrite.key_at(i);
            if same_text(id.as_str(), attempt_id) {
                proof {
                    table::first_key_at(
                        self.prewrite.pairs(),
                        self.prewrite@,
                        wanted,
                        i as int,
                    );
                }
                return Some(self.prewrite.value_at(i).conclusion);
            }
            i += 1;
        }
        proof {
            table::first_key_none(self.prewrite.pairs(), self.prewrite@, wanted);
        }
        None
    }

    /// Whether the write reservation of an attempt has its conclusion.
    pub fn reservation_concluded(&self, attempt_id: &str) -> (concluded: bool)
        ensures
            concluded == match table::first_key(
                self@.reservations,
                |id: AttemptId, record: PersistedNativeReservation| id.chars() == attempt_id@,
            ) {
                Some(id) => self@.reservations[id].concluded,
                None => false,
            },
    {
        let ghost wanted = |id: AttemptId, record: PersistedNativeReservation|
            id.chars() == attempt_id@;
        let len: usize = self.reservations.len();
        let mut i: usize = 0;
        while i < len
            invariant
                i <= len,
                len == self.reservations.pairs().len(),
                table::lists(self.reservations.pairs(), self.reservations@),
                wanted == (|id: AttemptId, record: PersistedNativeReservation|
                    id.chars() == attempt_id@),
                forall|j: int|
                    0 <= j < i ==> !wanted(
                        (#[trigger] self.reservations.pairs()[j]).0,
                        self.reservations.pairs()[j].1,
                    ),
            decreases len - i,
        {
            let id = self.reservations.key_at(i);
            if same_text(id.as_str(), attempt_id) {
                proof {
                    table::first_key_at(
                        self.reservations.pairs(),
                        self.reservations@,
                        wanted,
                        i as int,
                    );
                }
                return self.reservations.value_at(i).concluded;
            }
            i += 1;
        }
        proof {
            table::first_key_none(self.reservations.pairs(), self.reservations@, wanted);
        }
        false
    }

    /// Lets the next native fact meet a storage fault.
    pub fn fail_next_turn_fact(&mut self)
        ensures
            final(self)@ == (Store { fail_next_turn_fact: true, ..old(self)@ }),
    {
        self.fail_next_turn_fact = true;
    }

    /// Lets the next new active hold meet a storage fault.
    pub fn fail_next_active_hold(&mut self)
        ensures
            final(self)@ == (Store { fail_next_active_hold: true, ..old(self)@ }),
    {
        self.fail_next_active_hold = true;
    }

    /// Replaces the key for active evidence.
    pub fn rekey_active_evidence(&mut self, key: [u8; 32])
        ensures
            final(self)@ == (Store { mac_key: key@, ..old(self)@ }),
    {
        self.active_mac_key = SecretKey::new(key);
    }
}

impl FakePersist {
    /// Gives the reservation of an attempt, where there is one, its conclusion.
    fn conclude_reservation(&mut self, id: AttemptId)
        ensures
            final(self)@ == (Store {
                reservations: store::concluded(old(self)@.reservations, id),
                ..old(self)@
            }),
    {
        let found = match self.reservations.get(&id) {
            Some(reservation) => Some(*reservation),
            None => None,
        };
        if let Some(reservation) = found {
            self.reservations.insert(
                id,
                PersistedNativeReservation { concluded: true, ..reservation },
            );
        }
    }

    /// Whether some claim is recorded for this arm and generation.
    fn generation_claimed(&self, arm_id: &ArmId, generation: u64) -> (claimed: bool)
        ensures
            claimed == self@.generation_claimed(*arm_id, generation),
    {
        let len: usize = self.claims.len();
        let mut i: usize = 0;
        while i < len
            invariant
                i <= len,
                len == self.claims.pairs().len(),
                table::lists(self.claims.pairs(), self.claims@),
                forall|j: int|
                    0 <= j < i ==> !((#[trigger] self.claims.pairs()[j]).1.arm_id == *arm_id
                        && self.claims.pairs()[j].1.generation == generation),
            decreases len - i,
        {
            let claim = self.claims.value_at(i);
            if claim.arm_id.same(arm_id) && claim.generation == generation {
                proof {
                    table::ascending_at(self.claims.pairs(), i as int);
                    let id = self.claims.pairs()[i as int].0;
                    assert(self@.claims.dom().contains(id));
                }
                return true;
            }
            i += 1;
        }
        proof {
            assert forall|id: ClaimRequestId| #[trigger] self@.claims.dom().contains(id) implies !(
            self@.claims[id].arm_id == *arm_id && self@.claims[id].generation == generation) by {
                assert(table::has_key(self.claims.pairs(), id));
                let j = choose|j: int|
                    0 <= j < self.claims.pairs().len() && (#[trigger] self.claims.pairs()[j]).0
                        == id;
                table::ascending_at(self.claims.pairs(), j);
            }
        }
        false
    }

    /// The signal of the first claim, by request, of an attempt.
    fn claimed_signal(&self, attempt_id: &AttemptId) -> (signal: Option<crate::ident::SignalId>)
        ensures
            signal == match self@.claim_of(*attempt_id) {
                Some(claim) => Some(claim.signal_id),
                None => None,
            },
    {
        let ghost wanted = |key: ClaimRequestId, claim: ClaimModel| claim.attempt_id == *attempt_id;
        let len: usize = self.claims.len();
        let mut i: usize = 0;
        while i < len
            invariant
                i <= len,
                len == self.claims.pairs().len(),
                table::lists(self.claims.pairs(), self.claims@),
                wanted == (|key: ClaimRequestId, claim: ClaimModel|
                    claim.attempt_id == *attempt_id),
                forall|j: int|
                    0 <= j < i ==> !wanted(
                        (#[trigger] self.claims.pairs()[j]).0,
                        self.claims.pairs()[j].1,
                    ),
            decreases len - i,
        {
            let claim = self.claims.value_at(i);
            if claim.attempt_id.same(attempt_id) {
                proof {
                    table::first_key_at(self.claims.pairs(), self.claims@, wanted, i as int);
                }
                return Some(claim.signal_id);
            }
            i += 1;
        }
        proof {
            table::first_key_none(self.claims.pairs(), self.claims@, wanted);
        }
        None
    }

    /// The reference under which exactly this coordinate is already sealed.
    fn sealed_ref(&self, scope: &NativeCoordinateScope, plaintext: &[u8]) -> (found: Option<
        PrivateNativeRef,
    >)
        ensures
            found == self@.sealed_ref(*scope, plaintext@),
    {
        let ghost target = CoordinateModel { scope: *scope, plaintext: plaintext@ };
        let ghost wanted = |key: PrivateNativeRef, held: CoordinateModel|
            held == (CoordinateModel { scope: *scope, plaintext: plaintext@ });
        let len: usize = self.private_recovery.len();
        let mut i: usize = 0;
        while i < len
            invariant
                i <= len,
                len == self.private_recovery.pairs().len(),
                table::lists(self.private_recovery.pairs(), self.private_recovery@),
                wanted == (|key: PrivateNativeRef, held: CoordinateModel|
                    held == (CoordinateModel { scope: *scope, plaintext: plaintext@ })),
                forall|j: int|
                    0 <= j < i ==> !wanted(
                        (#[trigger] self.private_recovery.pairs()[j]).0,
                        self.private_recovery.pairs()[j].1,
                    ),
            decreases len - i,
        {
            let held = self.private_recovery.value_at(i);
            if held.scope.same(scope) && same_bytes(held.plaintext.as_bytes(), plaintext) {
                proof {
                    table::first_key_at(
                        self.private_recovery.pairs(),
                        self.private_recovery@,
                        wanted,
                        i as int,
                    );
                }
                return Some(self.private_recovery.key_at(i));
            }
            i += 1;
        }
        proof {
            table::first_key_none(self.private_recovery.pairs(), self.private_recovery@, wanted);
        }
        None
    }

    /// Whether the scope already owns, or is bound to, the reference.
    fn bound_ref(&self, scope: &NativeCoordinateScope, reference: &PrivateNativeRef) -> (bound: bool)
        ensures
            bound == self@.bound_ref(*scope, *reference),
    {
        match scope {
            NativeCoordinateScope::Turn { attempt_id, .. } => {
                match self.reservations.get(attempt_id) {
                    Some(reservation) => same_optional_ref(
                        &reservation.correlation.turn_ref,
                        &Some(*reference),
                    ),
                    None => false,
                }
            },
            NativeCoordinateScope::Thread { birth_id, .. } => {
                match self.ownership.get(birth_id) {
                    Some(state) => match state {
                        ThreadOwnershipState::Owned { thread_ref, .. } => thread_ref.same(
                            reference,
                        ),
                        _ => false,
                    },
                    None => false,
                }
            },
        }
    }

    /// Whether the scope allows a coordinate to be sealed, or `native_ref` to be
    /// opened.
    pub fn validate_coordinate_scope(
        &self,
        scope: &NativeCoordinateScope,
        native_ref: Option<PrivateNativeRef>,
        opening: bool,
    ) -> (result: Result<(), PersistError>)
        ensures
            result == if self@.scope_allows(*scope, native_ref, opening) {
                Ok::<(), PersistError>(())
            } else {
                Err(PersistError::Unauthorized)
            },
    {
        match scope {
            NativeCoordinateScope::Thread { birth_id, create_attempt_id } => {
                let create = match self.creates.get(birth_id) {
                    Some(create) => *create,
                    None => return Err(PersistError::Unauthorized),
                };
                if !create.create_attempt_id.same(create_attempt_id) {
                    return Err(PersistError::Unauthorized);
                }
                let birth = match self.births.get(birth_id) {
                    Some(birth) => *birth,
                    None => return Err(PersistError::Unauthorized),
                };
                if birth.revoked || !birth.birth_id.same(birth_id) {
                    return Err(PersistError::Unauthorized);
                }
                let state = match self.ownership.get(birth_id) {
                    Some(state) => *state,
                    None => return Err(PersistError::Unauthorized),
                };
                let allowed = if opening {
                    match (state, native_ref) {
                        (
                            ThreadOwnershipState::Owned {
                                create_attempt_id: owned_create,
                                thread_ref,
                            },
                            Some(reference),
                        ) => owned_create.same(create_attempt_id) && thread_ref.same(&reference),
                        _ => false,
                    }
                } else {
                    match state {
                        ThreadOwnershipState::Reserved { create_attempt_id: reserved } => {
                            reserved.same(create_attempt_id)
                        },
                        ThreadOwnershipState::Unknown { create_attempt_id: reserved } => {
                            reserved.same(create_attempt_id)
                        },
                        _ => false,
                    }
                };
                if !allowed {
                    return Err(PersistError::Unauthorized);
                }
            },
            NativeCoordinateScope::Turn { birth_id, attempt_id, signal_id, turn_write_id } => {
                let correlation = match self.reservations.get(attempt_id) {
                    Some(reservation) => reservation.correlation,
                    None => return Err(PersistError::Unauthorized),
                };
                let attachment = match self.attachments.get(attempt_id) {
                    Some(attachment) => *attachment,
                    None => return Err(PersistError::Unauthorized),
                };
                let birth = match self.births.get(birth_id) {
                    Some(birth) => *birth,
                    None => return Err(PersistError::Unauthorized),
                };
                if attachment.revoked || birth.revoked {
                    return Err(PersistError::Unauthorized);
                }
                if !correlation.birth_id.same(birth_id) || !correlation.attempt_id.same(attempt_id)
                    || !correlation.signal_id.same(signal_id) || !correlation.turn_write_id.same(
                    turn_write_id,
                ) || !attachment.birth_id.same(birth_id) || !attachment.arm_id.same(&birth.arm_id)
                    || attachment.generation != birth.generation || !attachment.seat_id.same(
                    &birth.seat_id,
                ) || attachment.capability != birth.capability || (opening && !same_optional_ref(
                    &correlation.turn_ref,
                    &native_ref,
                )) || (!opening && correlation.turn_ref.is_some()) {
                    return Err(PersistError::Unauthorized);
                }
            },
        }
        Ok(())
    }

    /// Draws references, one after the other, until a draw fails or gives one
    /// that is not in use. What is drawn is the operating system's choice.
    fn draw_unused(&self) -> (draws: Vec<Result<[u8; 32], EntropyError>>)
        ensures
            draws.len() > 0,
            forall|i: int|
                0 <= i < draws.len() - 1 ==> self@.draws_taken(#[trigger] draws@[i]),
            draws.len() < usize::MAX ==> !self@.draws_taken(draws@.last()),
    {
        let mut draws: Vec<Result<[u8; 32], EntropyError>> = Vec::new();
        loop
            invariant
                draws.len() < usize::MAX,
                forall|i: int| 0 <= i < draws.len() ==> self@.draws_taken(#[trigger] draws@[i]),
            decreases usize::MAX - draws.len(),
        {
            let draw = random_bytes();
            let taken = match draw {
                Ok(bytes) => self.private_recovery.contains(&PrivateNativeRef(bytes)),
                Err(_) => false,
            };
            draws.push(draw);
            if !taken || draws.len() == usize::MAX {
                return draws;
            }
        }
    }

    /// Seals a coordinate under a fresh random reference.
    fn seal_new(
        &mut self,
        scope: &NativeCoordinateScope,
        coordinate: &SecretNativeCoordinate,
    ) -> (result: Result<PrivateNativeRef, PersistError>)
        ensures
            match result {
                Ok(reference) => {
                    &&& !old(self)@.coordinates.dom().contains(reference)
                    &&& final(self)@ == old(self)@.with_coordinate(
                        reference,
                        *scope,
                        coordinate.plaintext@,
                    )
                },
                Err(error) => final(self)@ == old(self)@ && error
                    == PersistError::StorageUnavailable,
            },
    {
        let draws = self.draw_unused();
        self.seal_new_with(scope, coordinate, &draws)
    }

    /// Seals a coordinate under the first reference of a run of draws that is not
    /// in use. A draw that failed before one came seals nothing.
    fn seal_new_with(
        &mut self,
        scope: &NativeCoordinateScope,
        coordinate: &SecretNativeCoordinate,
        draws: &Vec<Result<[u8; 32], EntropyError>>,
    ) -> (result: Result<PrivateNativeRef, PersistError>)
        ensures
            exists|at: int| #[trigger]
                old(self)@.decides(draws@, at) && (final(self)@, result) == old(self)@.seal_under(
                    *scope,
                    coordinate.plaintext@,
                    draws@,
                    at,
                ),
    {
        let mut at: usize = 0;
        while at < draws.len()
            invariant
                at <= draws.len(),
                self@ == old(self)@,
                forall|i: int| 0 <= i < at ==> self@.draws_taken(#[trigger] draws@[i]),
            decreases draws.len() - at,
        {
            match self.seal_drawn(scope, coordinate, draws[at]) {
                Ok(Some(native_ref)) => {
                    assert(old(self)@.decides(draws@, at as int));
                    return Ok(native_ref);
                },
                Ok(None) => {},
                Err(error) => {
                    assert(old(self)@.decides(draws@, at as int));
                    return Err(error);
                },
            }
            at += 1;
        }
        assert(old(self)@.decides(draws@, at as int));
        Err(PersistError::StorageUnavailable)
    }

    /// The answer to sealing a coordinate where no new reference is taken.
    fn seal_answered(
        &self,
        scope: &NativeCoordinateScope,
        coordinate: &SecretNativeCoordinate,
    ) -> (answer: Option<Result<PrivateNativeRef, PersistError>>)
        ensures
            match answer {
                Some(result) => !self@.seals_anew(*scope, coordinate.kind, coordinate.plaintext@)
                    && self@.sealed(*scope, coordinate.kind, coordinate.plaintext@, self@, result),
                None => self@.seals_anew(*scope, coordinate.kind, coordinate.plaintext@),
            },
    {
        let matching = match (scope, coordinate.kind()) {
            (NativeCoordinateScope::Thread { .. }, NativeCoordinateKind::Thread) => true,
            (NativeCoordinateScope::Turn { .. }, NativeCoordinateKind::Turn) => true,
            _ => false,
        };
        if !matching {
            return Some(Err(PersistError::Unauthorized));
        }
        if let Some(native_ref) = self.sealed_ref(scope, coordinate.as_bytes()) {
            let replay_open = self.bound_ref(scope, &native_ref);
            return match self.validate_coordinate_scope(scope, Some(native_ref), replay_open) {
                Ok(()) => Some(Ok(native_ref)),
                Err(error) => Some(Err(error)),
            };
        }
        match self.validate_coordinate_scope(scope, None, false) {
            Ok(()) => None,
            Err(error) => Some(Err(error)),
        }
    }

    /// Seals a coordinate with the references that were drawn for it. They are
    /// looked at only where a new reference is taken.
    pub fn seal_native_coordinate_with(
        &mut self,
        scope: &NativeCoordinateScope,
        coordinate: &SecretNativeCoordinate,
        draws: &Vec<Result<[u8; 32], EntropyError>>,
    ) -> (result: Result<PrivateNativeRef, PersistError>)
        ensures
            old(self)@.sealed(
                *scope,
                coordinate.kind,
                coordinate.plaintext@,
                final(self)@,
                result,
            ),
            old(self)@.seals_anew(*scope, coordinate.kind, coordinate.plaintext@) ==> exists|
                at: int,
            | #[trigger]
                old(self)@.decides(draws@, at) && (final(self)@, result) == old(self)@.seal_under(
                    *scope,
                    coordinate.plaintext@,
                    draws@,
                    at,
                ),
    {
        match self.seal_answered(scope, coordinate) {
            Some(result) => result,
            None => self.seal_new_with(scope, coordinate, draws),
        }
    }

    /// Seals a coordinate under the reference of a draw, where it is not taken.
    fn seal_drawn(
        &mut self,
        scope: &NativeCoordinateScope,
        coordinate: &SecretNativeCoordinate,
        draw: Result<[u8; 32], EntropyError>,
    ) -> (result: Result<Option<PrivateNativeRef>, PersistError>)
        ensures
            match draw {
                Err(_) => final(self)@ == old(self)@ && result == Err::<
                    Option<PrivateNativeRef>,
                    PersistError,
                >(PersistError::StorageUnavailable),
                Ok(bytes) => if old(self)@.coordinates.dom().contains(PrivateNativeRef(bytes)) {
                    final(self)@ == old(self)@ && result == Ok::<
                        Option<PrivateNativeRef>,
                        PersistError,
                    >(None)
                } else {
                    final(self)@ == old(self)@.with_coordinate(
                        PrivateNativeRef(bytes),
                        *scope,
                        coordinate.plaintext@,
                    ) && result == Ok::<Option<PrivateNativeRef>, PersistError>(
                        Some(PrivateNativeRef(bytes)),
                    )
                },
            },
    {
        let native_ref = match draw {
            Ok(bytes) => PrivateNativeRef(bytes),
            Err(_) => return Err(PersistError::StorageUnavailable),
        };
        if self.private_recovery.contains(&native_ref) {
            return Ok(None);
        }
        self.private_recovery.insert(
            native_ref,
            RecoveryCoordinate {
                scope: *scope,
                plaintext: SecretBytes::new(bytes::copy_bytes(coordinate.as_bytes())),
            },
        );
        Ok(Some(native_ref))
    }

    /// The keyed fingerprint of an active observation.
    fn fingerprint(&self, evidence: &ActiveObservationProof) -> (fingerprint:
        ActiveObservationFingerprint)
        ensures
            fingerprint.0@ == store::fingerprint_of(self@.mac_key, evidence@),
    {
        let ghost prefix = encode_utf8(FINGERPRINT_DOMAIN@);
        let mut input: Vec<u8> = Vec::new();
        push_bytes(&mut input, FINGERPRINT_DOMAIN.as_bytes());
        let ghost fields0 = Seq::<Seq<u8>>::empty();
        assert(input@ =~= prefix + bytes::frame(fields0));
        push_field(&mut input, evidence.birth_id.0.as_slice(), Ghost(prefix), Ghost(fields0));
        let ghost fields1 = fields0.push(evidence.birth_id.0@);
        push_field(&mut input, evidence.create_attempt_id.0.as_slice(), Ghost(prefix), Ghost(fields1));
        let ghost fields2 = fields1.push(evidence.create_attempt_id.0@);
        push_field(&mut input, evidence.thread_ref.0.as_slice(), Ghost(prefix), Ghost(fields2));
        let ghost fields3 = fields2.push(evidence.thread_ref.0@);
        push_field(
            &mut input,
            evidence.seat_id.token.as_str().as_bytes(),
            Ghost(prefix),
            Ghost(fields3),
        );
        let ghost fields4 = fields3.push(evidence.seat_id.token.text());
        push_field(&mut input, evidence.arm_id.token.as_str().as_bytes(), Ghost(prefix), Ghost(fields4));
        let ghost fields5 = fields4.push(evidence.arm_id.token.text());
        let generation = u64_le(evidence.generation);
        push_field(&mut input, generation.as_slice(), Ghost(prefix), Ghost(fields5));
        let ghost fields6 = fields5.push(generation@);
        let tag: [u8; 1] = match evidence.capability {
            ManagedCapability::HandleClaimedSignal => [0u8],
        };
        push_field(&mut input, tag.as_slice(), Ghost(prefix), Ghost(fields6));
        let ghost fields7 = fields6.push(tag@);
        push_field(
            &mut input,
            evidence.attachment_verifier_ref.0.as_slice(),
            Ghost(prefix),
            Ghost(fields7),
        );
        let ghost fields8 = fields7.push(evidence.attachment_verifier_ref.0@);
        let lease = i128_le(evidence.lease_until.nanos);
        push_field(&mut input, lease.as_slice(), Ghost(prefix), Ghost(fields8));
        let ghost fields9 = fields8.push(lease@);
        push_field(
            &mut input,
            evidence.attempt_id.token.as_str().as_bytes(),
            Ghost(prefix),
            Ghost(fields9),
        );
        let ghost fields10 = fields9.push(evidence.attempt_id.token.text());
        push_field(
            &mut input,
            evidence.signal_id.token.as_str().as_bytes(),
            Ghost(prefix),
            Ghost(fields10),
        );
        let ghost fields11 = fields10.push(evidence.signal_id.token.text());
        push_field(&mut input, evidence.probe_id.0.as_slice(), Ghost(prefix), Ghost(fields11));
        let ghost fields12 = fields11.push(evidence.probe_id.0@);
        let sequence = u64_le(evidence.mutation_epoch.sequence);
        push_field(&mut input, sequence.as_slice(), Ghost(prefix), Ghost(fields12));
        let ghost fields13 = fields12.push(sequence@);
        let observed = i128_le(evidence.observed_at.nanos);
        push_field(&mut input, observed.as_slice(), Ghost(prefix), Ghost(fields13));
        let ghost fields14 = fields13.push(observed@);
        push_field(&mut input, evidence.prehash.bytes(), Ghost(prefix), Ghost(fields14));
        let ghost fields15 = fields14.push(evidence.prehash.digest@);
        push_field(
            &mut input,
            evidence.producer_version.as_str().as_bytes(),
            Ghost(prefix),
            Ghost(fields15),
        );
        let ghost fields16 = fields15.push(encode_utf8(evidence.producer_version@));
        push_field(
            &mut input,
            evidence.producer_dialect.as_str().as_bytes(),
            Ghost(prefix),
            Ghost(fields16),
        );
        let ghost fields17 = fields16.push(encode_utf8(evidence.producer_dialect@));
        assert(tag@ =~= seq![evidence.capability.tag()]);
        assert(fields17 =~= store::fingerprint_fields(evidence@));
        ActiveObservationFingerprint(self.active_mac_key.digest(input.as_slice()))
    }

    /// The keyed name of an active observation.
    fn evidence_ref(&self, fingerprint: &ActiveObservationFingerprint) -> (evidence_ref:
        ActiveObservationEvidenceRef)
        ensures
            evidence_ref.0@ == store::evidence_ref_of(self@.mac_key, fingerprint.0@),
    {
        let mut input: Vec<u8> = Vec::new();
        push_bytes(&mut input, EVIDENCE_DOMAIN.as_bytes());
        push_bytes(&mut input, fingerprint.0.as_slice());
        assert(input@ =~= encode_utf8(EVIDENCE_DOMAIN@) + fingerprint.0@);
        ActiveObservationEvidenceRef(self.active_mac_key.digest(input.as_slice()))
    }

    /// Creates that were only reserved become unknown.
    fn settle_creates(&mut self)
        ensures
            final(self)@ == (Store {
                ownership: old(self)@.settled().ownership,
                ..old(self)@
            }),
    {
        let len: usize = self.ownership.len();
        let ghost pairs = self.ownership.pairs();
        let ghost before = self.ownership@;
        let mut next: Table<ControllerBirthId, ThreadOwnershipState> = Table::new();
        let mut i: usize = 0;
        assert(next@ =~= Map::new(
            |id: ControllerBirthId| table::has_key(pairs.take(0), id),
            |id: ControllerBirthId| store::interrupted_create(before[id]),
        ));
        while i < len
            invariant
                i <= len,
                len == pairs.len(),
                pairs == self.ownership.pairs(),
                before == self.ownership@,
                table::lists(pairs, before),
                next@ == Map::new(
                    |id: ControllerBirthId| table::has_key(pairs.take(i as int), id),
                    |id: ControllerBirthId| store::interrupted_create(before[id]),
                ),
                *self == *old(self),
            decreases len - i,
        {
            let id = self.ownership.key_at(i);
            let state = *self.ownership.value_at(i);
            let settled = match state {
                ThreadOwnershipState::Reserved { create_attempt_id } => {
                    ThreadOwnershipState::Unknown { create_attempt_id }
                },
                other => other,
            };
            next.insert(id, settled);
            proof {
                table::ascending_at(pairs, i as int);
                table::has_key_next(pairs, i as int);
                assert(next@ =~= Map::new(
                    |id: ControllerBirthId| table::has_key(pairs.take(i + 1), id),
                    |id: ControllerBirthId| store::interrupted_create(before[id]),
                ));
            }
            i += 1;
        }
        self.ownership = next;
        proof {
            assert(pairs.take(len as int) =~= pairs);
            assert(self@.ownership =~= old(self)@.settled().ownership);
        }
    }

    /// Writes without a fact are settled from their evidence.
    fn settle_writes(&mut self)
        ensures
            final(self)@ == (Store {
                write_evidence: old(self)@.settled().write_evidence,
                turn_facts: old(self)@.settled().turn_facts,
                ..old(self)@
            }),
    {
        let evidence = self.write_evidence.clone();
        let facts = self.turn_facts.clone();
        let len: usize = evidence.len();
        let ghost pairs = evidence.pairs();
        let ghost settled = self@.settled();
        let ghost before = self@;
        let mut i: usize = 0;
        assert(self.write_evidence@ =~= Map::new(
            |id: AttemptId| before.write_evidence.dom().contains(id),
            |id: AttemptId|
                if table::has_key(pairs.take(0), id) {
                    settled.write_evidence[id]
                } else {
                    before.write_evidence[id]
                },
        ));
        assert(self.turn_facts@ =~= Map::new(
            |id: AttemptId|
                before.turn_facts.dom().contains(id) || (table::has_key(pairs.take(0), id)
                    && before.answered(id)),
            |id: AttemptId| settled.turn_facts[id],
        ));
        while i < len
            invariant
                i <= len,
                len == pairs.len(),
                pairs == evidence.pairs(),
                before == old(self)@,
                settled == before.settled(),
                evidence@ == before.write_evidence,
                facts@ == before.turn_facts,
                table::lists(pairs, before.write_evidence),
                self.write_evidence@ == Map::new(
                    |id: AttemptId| before.write_evidence.dom().contains(id),
                    |id: AttemptId|
                        if table::has_key(pairs.take(i as int), id) {
                            settled.write_evidence[id]
                        } else {
                            before.write_evidence[id]
                        },
                ),
                self.turn_facts@ == Map::new(
                    |id: AttemptId|
                        before.turn_facts.dom().contains(id) || (table::has_key(
                            pairs.take(i as int),
                            id,
                        ) && before.answered(id)),
                    |id: AttemptId| settled.turn_facts[id],
                ),
                self@ == (Store {
                    write_evidence: self.write_evidence@,
                    turn_facts: self.turn_facts@,
                    ..before
                }),
            decreases len - i,
        {
            let id = evidence.key_at(i);
            let held = *evidence.value_at(i);
            if !facts.contains(&id) {
                match held {
                    NativeWriteEvidence::WriterAccepted { .. } => {
                        self.write_evidence.insert(id, NativeWriteEvidence::Unknown);
                    },
                    NativeWriteEvidence::ExactResponse { fact } => {
                        let mut list: Vec<NativeTurnFact> = Vec::new();
                        list.push(fact);
                        assert(list@ =~= seq![fact]);
                        self.turn_facts.insert(id, FactList { facts: list });
                    },
                    _ => {},
                }
            }
            proof {
                table::ascending_at(pairs, i as int);
                table::has_key_next(pairs, i as int);
                assert(before.write_evidence[id] == held);
                assert(self.write_evidence@ =~= Map::new(
                    |id: AttemptId| before.write_evidence.dom().contains(id),
                    |id: AttemptId|
                        if table::has_key(pairs.take(i + 1), id) {
                            settled.write_evidence[id]
                        } else {
                            before.write_evidence[id]
                        },
                ));
                assert(self.turn_facts@ =~= Map::new(
                    |id: AttemptId|
                        before.turn_facts.dom().contains(id) || (table::has_key(
                            pairs.take(i + 1),
                            id,
                        ) && before.answered(id)),
                    |id: AttemptId| settled.turn_facts[id],
                ));
            }
            i += 1;
        }
        proof {
            assert(pairs.take(len as int) =~= pairs);
            assert forall|id: AttemptId| before.write_evidence.dom().contains(id) implies
                #[trigger] table::has_key(pairs, id) by {
                assert(table::map_of(pairs).dom().contains(id));
            }
            assert(self@.write_evidence =~= settled.write_evidence);
            assert(self@.turn_facts =~= settled.turn_facts);
        }
    }

    /// The attempts whose write is unresolved, in ascending order.
    fn unresolved(&self) -> (ids: Vec<AttemptId>)
        ensures
            table::lists(self.reservations.pairs(), self@.reservations),
            ids@ == self@.unresolved_ids(self.reservations.pairs()),
    {
        let ghost pairs = self.reservations.pairs();
        let len: usize = self.reservations.len();
        let mut ids: Vec<AttemptId> = Vec::new();
        let mut i: usize = 0;
        assert(pairs.take(0) =~= Seq::<(AttemptId, PersistedNativeReservation)>::empty());
        assert(ids@ =~= self@.unresolved_ids(pairs.take(0)));
        while i < len
            invariant
                i <= len,
                len == pairs.len(),
                pairs == self.reservations.pairs(),
                ids@ == self@.unresolved_ids(pairs.take(i as int)),
            decreases len - i,
        {
            let id = self.reservations.key_at(i);
            let reservation = *self.reservations.value_at(i);
            if !reservation.concluded && !self.write_evidence.contains(&id) {
                ids.push(id);
            }
            proof {
                assert(pairs.take(i + 1).drop_last() =~= pairs.take(i as int));
                assert(pairs.take(i + 1).last() == pairs[i as int]);
                assert(ids@ =~= self@.unresolved_ids(pairs.take(i + 1)));
            }
            i += 1;
        }
        assert(pairs.take(len as int) =~= pairs);
        ids
    }

    /// An unresolved write becomes durably unknown under the evidence of a draw.
    /// A failed draw marks nothing.
    fn mark_drawn(&mut self, id: AttemptId, draw: Result<VerifierRef, EntropyError>) -> (marked:
        bool)
        ensures
            match draw {
                Ok(evidence_ref) => marked && final(self)@ == old(self)@.mark_unknown(
                    id,
                    evidence_ref,
                ),
                Err(_) => !marked && final(self)@ == old(self)@,
            },
    {
        let evidence_ref = match draw {
            Ok(evidence_ref) => evidence_ref,
            Err(_) => return false,
        };
        self.write_evidence.insert(id, NativeWriteEvidence::Unknown);
        self.write_evidence_refs.insert(id, evidence_ref);
        self.conclude_reservation(id);
        true
    }

    /// Unresolved writes become durably unknown, each under the evidence of its
    /// own draw, up to the first that has none. Says whether all have.
    fn mark_unresolved(&mut self, draws: &Vec<Result<VerifierRef, EntropyError>>) -> (complete:
        bool)
        ensures
            exists|
                pairs: Seq<(AttemptId, PersistedNativeReservation)>,
                refs: Seq<VerifierRef>,
            | #[trigger]
                marked(old(self)@, pairs, refs, final(self)@, complete) && store::drawn(
                    draws@,
                    old(self)@.unresolved_ids(pairs).len(),
                    refs,
                ),
    {
        let ghost before = self@;
        let ghost pairs = self.reservations.pairs();
        let ids = self.unresolved();
        let ghost wanted = ids@;
        let ghost mut refs = Seq::<VerifierRef>::empty();
        let mut done: usize = 0;
        assert(wanted.take(0) =~= Seq::<AttemptId>::empty());
        while done < ids.len()
            invariant
                done <= ids.len(),
                done <= draws.len(),
                ids@ == wanted,
                wanted == before.unresolved_ids(pairs),
                table::lists(pairs, before.reservations),
                before == old(self)@,
                refs.len() == done,
                forall|k: int|
                    0 <= k < done ==> draws@[k] == Ok::<VerifierRef, EntropyError>(
                        #[trigger] refs[k],
                    ),
                self@ == before.mark_all(wanted.take(done as int), refs),
            decreases ids.len() - done,
        {
            let ghost previous = self@;
            if done == draws.len() || !self.mark_drawn(ids[done], draws[done]) {
                proof {
                    assert(marked(old(self)@, pairs, refs, self@, false));
                }
                return false;
            }
            proof {
                let evidence_ref = draws@[done as int]->Ok_0;
                assert(self@ == previous.mark_unknown(ids@[done as int], evidence_ref));
                let longer = wanted.take(done + 1);
                let more = refs.push(evidence_ref);
                assert(longer.drop_last() =~= wanted.take(done as int));
                assert(more.drop_last() =~= refs);
                refs = more;
            }
            done += 1;
        }
        assert(wanted.take(done as int) =~= wanted);
        assert(marked(old(self)@, pairs, refs, self@, true));
        true
    }

    /// First part of recovery: interrupted creates and answered writes settle.
    fn settle(&mut self)
        ensures
            final(self)@ == old(self)@.settled(),
    {
        self.settle_creates();
        self.settle_writes();
        proof {
            assert(self@.ownership =~= old(self)@.settled().ownership);
            assert(self@.write_evidence =~= old(self)@.settled().write_evidence);
            assert(self@.turn_facts =~= old(self)@.settled().turn_facts);
            assert(self@ == old(self)@.settled());
        }
    }

    /// Second part of recovery, with the evidence that was drawn.
    fn recover_settled(&mut self, draws: &Vec<Result<VerifierRef, EntropyError>>) -> (result:
        Result<RecoverySnapshot, PersistError>)
        ensures
            exists|
                pairs: Seq<(AttemptId, PersistedNativeReservation)>,
                refs: Seq<VerifierRef>,
            | #[trigger]
                marked(old(self)@, pairs, refs, final(self)@, result is Ok) && store::drawn(
                    draws@,
                    old(self)@.unresolved_ids(pairs).len(),
                    refs,
                ),
            match result {
                Ok(snapshot) => final(self)@.snapshot(snapshot),
                Err(error) => error == PersistError::StorageUnavailable,
            },
    {
        let complete = self.mark_unresolved(draws);
        let result = if complete {
            Ok(self.snapshot())
        } else {
            Err(PersistError::StorageUnavailable)
        };
        proof {
            let (pairs, refs) = choose|
                pairs: Seq<(AttemptId, PersistedNativeReservation)>,
                refs: Seq<VerifierRef>,
            | #[trigger]
                marked(old(self)@, pairs, refs, self@, complete) && store::drawn(
                    draws@,
                    old(self)@.unresolved_ids(pairs).len(),
                    refs,
                );
            assert(marked(old(self)@, pairs, refs, self@, result is Ok));
        }
        result
    }

    /// Recovery with the evidence that was drawn for the unresolved writes, one
    /// draw for each in ascending order. Each write before the first failed or
    /// missing draw becomes durably unknown, and only such a draw makes recovery
    /// fail.
    pub fn recover_authority_state_with(
        &mut self,
        draws: &Vec<Result<VerifierRef, EntropyError>>,
    ) -> (result: Result<RecoverySnapshot, PersistError>)
        ensures
            exists|
                pairs: Seq<(AttemptId, PersistedNativeReservation)>,
                refs: Seq<VerifierRef>,
            | #[trigger]
                old(self)@.recovers(pairs, refs, final(self)@) && store::drawn(
                    draws@,
                    old(self)@.settled().unresolved_ids(pairs).len(),
                    refs,
                ) && (result is Ok <==> old(self)@.all_marked(pairs, refs)),
            match result {
                Ok(snapshot) => final(self)@.snapshot(snapshot),
                Err(error) => error == PersistError::StorageUnavailable,
            },
    {
        self.settle();
        let ghost settled = self@;
        let result = self.recover_settled(draws);
        proof {
            let (pairs, refs) = choose|
                pairs: Seq<(AttemptId, PersistedNativeReservation)>,
                refs: Seq<VerifierRef>,
            | #[trigger]
                marked(settled, pairs, refs, self@, result is Ok) && store::drawn(
                    draws@,
                    settled.unresolved_ids(pairs).len(),
                    refs,
                );
            assert(old(self)@.recovers(pairs, refs, self@));
        }
        result
    }

    /// The authority metadata of the store.
    fn snapshot(&self) -> (snapshot: RecoverySnapshot)
        ensures
            self@.snapshot(snapshot),
    {
        let arms = self.arms.values();
        let claims = self.claims.values();
        let attachments = self.attachments.values();
        let controller_births = self.births.values();
        let turn_correlations = self.prepared.values();
        let reservations = self.reservations.values();
        let prewrite_conclusions = self.prewrite.values();
        let active_observations = self.active_observations.values();
        let ownership = self.list_ownership();
        let native_write_evidence = self.list_evidence();
        let native_turn_facts = self.list_facts();
        let reconciliations = self.list_reconciliations();
        let snapshot = RecoverySnapshot {
            arms,
            claims,
            attachments,
            controller_births,
            ownership,
            turn_correlations,
            reservations,
            native_write_evidence,
            native_turn_facts,
            reconciliations,
            prewrite_conclusions,
            active_observations,
            attempt_seq: self.attempt_seq,
        };
        proof {
            assert(store::values_of(self.arms.pairs()) =~= snapshot.arms@);
            assert(store::values_of(self.claims.pairs()) =~= Seq::new(
                snapshot.claims@.len(),
                |i: int| snapshot.claims@[i]@,
            ));
            assert(store::values_of(self.attachments.pairs()) =~= snapshot.attachments@);
            assert(store::values_of(self.births.pairs()) =~= snapshot.controller_births@);
            assert(store::values_of(self.prepared.pairs()) =~= snapshot.turn_correlations@);
            assert(store::values_of(self.reservations.pairs()) =~= snapshot.reservations@);
            assert(store::values_of(self.prewrite.pairs()) =~= snapshot.prewrite_conclusions@);
            assert(store::values_of(self.active_observations.pairs()) =~= Seq::new(
                snapshot.active_observations@.len(),
                |i: int| snapshot.active_observations@[i]@,
            ));
        }
        snapshot
    }

    fn list_ownership(&self) -> (list: Vec<PersistedThreadOwnership>)
        ensures
            table::lists(self.ownership.pairs(), self@.ownership),
            list@ == Seq::new(
                self.ownership.pairs().len(),
                |i: int|
                    PersistedThreadOwnership {
                        birth_id: self.ownership.pairs()[i].0,
                        state: self.ownership.pairs()[i].1,
                    },
            ),
    {
        let len: usize = self.ownership.len();
        let mut list: Vec<PersistedThreadOwnership> = Vec::new();
        let mut i: usize = 0;
        while i < len
            invariant
                i <= len,
                len == self.ownership.pairs().len(),
                list@.len() == i,
                forall|j: int|
                    0 <= j < i ==> #[trigger] list@[j] == (PersistedThreadOwnership {
                        birth_id: self.ownership.pairs()[j].0,
                        state: self.ownership.pairs()[j].1,
                    }),
            decreases len - i,
        {
            list.push(
                PersistedThreadOwnership {
                    birth_id: self.ownership.key_at(i),
                    state: *self.ownership.value_at(i),
                },
            );
            i += 1;
        }
        list
    }

    fn list_evidence(&self) -> (list: Vec<PersistedNativeWriteEvidence>)
        ensures
            table::lists(self.write_evidence.pairs(), self@.write_evidence),
            list@ == self@.evidence_list(self.write_evidence.pairs()),
    {
        let len: usize = self.write_evidence.len();
        let ghost pairs = self.write_evidence.pairs();
        let mut list: Vec<PersistedNativeWriteEvidence> = Vec::new();
        let mut i: usize = 0;
        assert(pairs.take(0) =~= Seq::<(AttemptId, NativeWriteEvidence)>::empty());
        assert(list@ =~= self@.evidence_list(pairs.take(0)));
        while i < len
            invariant
                i <= len,
                len == pairs.len(),
                pairs == self.write_evidence.pairs(),
                list@ == self@.evidence_list(pairs.take(i as int)),
            decreases len - i,
        {
            let id = self.write_evidence.key_at(i);
            let evidence = *self.write_evidence.value_at(i);
            if let Some(reservation) = self.reservations.get(&id) {
                if let Some(evidence_ref) = self.write_evidence_refs.get(&id) {
                    list.push(
                        PersistedNativeWriteEvidence {
                            correlation: reservation.correlation,
                            evidence,
                            evidence_ref: *evidence_ref,
                        },
                    );
                }
            }
            proof {
                assert(pairs.take(i + 1).drop_last() =~= pairs.take(i as int));
                assert(pairs.take(i + 1).last() == pairs[i as int]);
                assert(list@ =~= self@.evidence_list(pairs.take(i + 1)));
            }
            i += 1;
        }
        assert(pairs.take(len as int) =~= pairs);
        list
    }

    fn list_facts(&self) -> (list: Vec<PersistedNativeTurnFacts>)
        ensures
            table::lists(self.turn_facts.pairs(), self@.turn_facts),
            store::facts_listed(self.turn_facts.pairs(), list@),
    {
        let len: usize = self.turn_facts.len();
        let mut list: Vec<PersistedNativeTurnFacts> = Vec::new();
        let mut i: usize = 0;
        while i < len
            invariant
                i <= len,
                len == self.turn_facts.pairs().len(),
                list@.len() == i,
                forall|j: int|
                    0 <= j < i ==> (#[trigger] list@[j]).attempt_id == self.turn_facts.pairs()[j].0
                        && list@[j].facts@ == self.turn_facts.pairs()[j].1,
            decreases len - i,
        {
            let facts = self.turn_facts.value_at(i).dup();
            list.push(
                PersistedNativeTurnFacts {
                    attempt_id: self.turn_facts.key_at(i),
                    facts: facts.facts,
                },
            );
            i += 1;
        }
        list
    }

    fn list_reconciliations(&self) -> (list: Vec<PersistedReconciliation>)
        ensures
            table::lists(self.reconciliations.pairs(), self@.reconciliations),
            list@ == Seq::new(
                self.reconciliations.pairs().len(),
                |i: int|
                    PersistedReconciliation {
                        attempt_id: self.reconciliations.pairs()[i].0,
                        disposition: self.reconciliations.pairs()[i].1,
                    },
            ),
    {
        let len: usize = self.reconciliations.len();
        let mut list: Vec<PersistedReconciliation> = Vec::new();
        let mut i: usize = 0;
        while i < len
            invariant
                i <= len,
                len == self.reconciliations.pairs().len(),
                list@.len() == i,
                forall|j: int|
                    0 <= j < i ==> #[trigger] list@[j] == (PersistedReconciliation {
                        attempt_id: self.reconciliations.pairs()[j].0,
                        disposition: self.reconciliations.pairs()[j].1,
                    }),
            decreases len - i,
        {
            list.push(
                PersistedReconciliation {
                    attempt_id: self.reconciliations.key_at(i),
                    disposition: *self.reconciliations.value_at(i),
                },
            );
            i += 1;
        }
        list
    }

    /// Whether attempt, birth, claim and thread of the proof are on record and
    /// agree with it.
    fn hold_authorized(&self, evidence: &ActiveObservationProof) -> (authorized: bool)
        ensures
            authorized == self@.hold_authorized(evidence@),
    {
        let attachment = match self.attachments.get(&evidence.attempt_id) {
            Some(attachment) => *attachment,
            None => return false,
        };
        let birth = match self.births.get(&evidence.birth_id) {
            Some(birth) => *birth,
            None => return false,
        };
        let signal = match self.claimed_signal(&evidence.attempt_id) {
            Some(signal) => signal,
            None => return false,
        };
        let prepared = match self.prepared.get(&evidence.attempt_id) {
            Some(prepared) => *prepared,
            None => return false,
        };
        let state = match self.ownership.get(&evidence.birth_id) {
            Some(state) => *state,
            None => return false,
        };
        let owned = ThreadOwnershipState::Owned {
            create_attempt_id: evidence.create_attempt_id,
            thread_ref: evidence.thread_ref,
        };
        let version = evidence.producer_version.as_str();
        attachment.birth_id.same(&evidence.birth_id) && attachment.seat_id.same(&evidence.seat_id)
            && attachment.arm_id.same(&evidence.arm_id) && attachment.generation
            == evidence.generation && attachment.capability == evidence.capability
            && attachment.verifier_ref.same(&evidence.attachment_verifier_ref)
            && attachment.lease_until == evidence.lease_until && !attachment.revoked
            && !birth.revoked && birth.seat_id.same(&evidence.seat_id) && birth.arm_id.same(
            &evidence.arm_id,
        ) && birth.generation == evidence.generation && birth.capability == evidence.capability
            && evidence.observed_at.nanos <= birth.lease_until.nanos && signal.same(
            &evidence.signal_id,
        ) && prepared.signal_id.same(&evidence.signal_id) && prepared.birth_id.same(
            &evidence.birth_id,
        ) && prepared.thread_ref.same(&evidence.thread_ref)
            && evidence.mutation_epoch.birth_id.same(&evidence.birth_id) && (same_text(
            version,
            PRODUCER_VERSION,
        ) || same_text(version, EARLIER_PRODUCER_VERSION)) && same_text(
            evidence.producer_dialect.as_str(),
            PRODUCER_DIALECT,
        ) && state.same(&owned)
    }

    /// Whether a fact is for a prepared attempt and, where it names a turn, for
    /// the sealed and reserved turn of that attempt.
    fn fact_authorized(&self, correlation: &PersistedTurnCorrelation, fact: &NativeTurnFact) -> (
        authorized: bool)
        ensures
            authorized == self@.fact_authorized(*correlation, *fact),
    {
        let prepared = match self.prepared.get(&correlation.attempt_id) {
            Some(prepared) => *prepared,
            None => return false,
        };
        if !prepared.signal_id.same(&correlation.signal_id) || !prepared.birth_id.same(
            &correlation.birth_id,
        ) || !prepared.thread_ref.same(&correlation.thread_ref) || !prepared.turn_write_id.same(
            &correlation.turn_write_id,
        ) {
            return false;
        }
        let turn_ref = match fact.turn_ref() {
            Some(turn_ref) => turn_ref,
            None => return true,
        };
        if !same_optional_ref(&correlation.turn_ref, &Some(turn_ref)) {
            return false;
        }
        match self.private_recovery.get(&turn_ref) {
            Some(coordinate) => {
                if !coordinate.scope.same(&correlation.turn_scope())
                    || coordinate.plaintext.as_bytes().len() == 0 {
                    return false;
                }
            },
            None => return false,
        }
        let reserved = match self.reservations.get(&correlation.attempt_id) {
            Some(reservation) => reservation.correlation,
            None => return false,
        };
        reserved.birth_id.same(&correlation.birth_id) && reserved.signal_id.same(
            &correlation.signal_id,
        ) && reserved.thread_ref.same(&correlation.thread_ref) && reserved.turn_write_id.same(
            &correlation.turn_write_id,
        ) && (reserved.turn_ref.is_none() || same_optional_ref(&reserved.turn_ref, &Some(turn_ref)))
            && (prepared.turn_ref.is_none() || same_optional_ref(
            &prepared.turn_ref,
            &Some(turn_ref),
        ))
    }
}

/// Draws evidence references, one after the other, until there are `count` or a
/// draw fails. How many there are is the operating system's choice.
fn draw_refs(count: usize) -> (draws: Vec<Result<VerifierRef, EntropyError>>)
    ensures
        draws.len() <= count,
        draws.len() < count ==> draws.len() > 0 && draws@.last() is Err,
        forall|i: int| 0 <= i < draws.len() - 1 ==> (#[trigger] draws@[i]) is Ok,
{
    let mut draws: Vec<Result<VerifierRef, EntropyError>> = Vec::new();
    while draws.len() < count
        invariant
            draws.len() <= count,
            forall|i: int| 0 <= i < draws.len() ==> (#[trigger] draws@[i]) is Ok,
        decreases count - draws.len(),
    {
        let draw = VerifierRef::random();
        let failed = draw.is_err();
        draws.push(draw);
        if failed {
            return draws;
        }
    }
    draws
}

/// Outcome of marking the unresolved writes of a store.
pub open spec fn marked(
    before: Store,
    pairs: Seq<(AttemptId, PersistedNativeReservation)>,
    refs: Seq<VerifierRef>,
    after: Store,
    complete: bool,
) -> bool {
    let ids = before.unresolved_ids(pairs);
    &&& table::lists(pairs, before.reservations)
    &&& refs.len() <= ids.len()
    &&& complete == (refs.len() == ids.len())
    &&& after == before.mark_all(ids.take(refs.len() as int), refs)
}

impl Sealed for FakePersist {

}

impl Persist for FakePersist {
    open spec fn store(&self) -> Store {
        self@
    }

    fn persist_arm(&mut self, arm: &PersistedArm) -> (result: Result<(), PersistError>) {
        self.arms.insert(arm.arm_id, *arm);
        Ok(())
    }

    fn admit_claim(
        &mut self,
        admission: &ClaimAdmission,
        attachment: &PersistedControllerAttachment,
    ) -> (result: Result<AdmissionRecord, PersistError>) {
        let request_id = admission.record.request_id;
        if let Some(existing) = self.claims.get(&request_id) {
            let same_payload = match self.payloads.get(&request_id) {
                Some(payload) => same_events(&payload.events, &admission.events),
                None => false,
            };
            if existing.arm_id.same(&admission.record.arm_id) && existing.generation
                == admission.record.generation && existing.signal_id.same(
                &admission.record.signal_id,
            ) && same_texts(&existing.event_refs, &admission.record.event_refs) && same_payload {
                let attempt_id = match self.claim_attempts.get(&request_id) {
                    Some(attempt_id) => *attempt_id,
                    None => return Err(PersistError::InvalidTransition),
                };
                return match self.attachments.get(&attempt_id) {
                    Some(stored) => Ok(
                        AdmissionRecord {
                            outcome: ClaimOutcome::ExactReplay,
                            attempt_id,
                            verifier_ref: stored.verifier_ref,
                        },
                    ),
                    None => Err(PersistError::InvalidTransition),
                };
            }
            return Err(PersistError::Conflict);
        }
        if self.generation_claimed(&admission.record.arm_id, admission.record.generation) {
            return Err(PersistError::Conflict);
        }
        if self.attachments.contains(&attachment.attempt_id) {
            return Err(PersistError::Conflict);
        }
        self.claims.insert(request_id, admission.record.dup());
        self.payloads.insert(request_id, Payload { events: copy_events(&admission.events) });
        self.claim_attempts.insert(request_id, attachment.attempt_id);
        self.attachments.insert(attachment.attempt_id, *attachment);
        self.attempt_seq = self.attempt_seq.saturating_add(1);
        Ok(
            AdmissionRecord {
                outcome: ClaimOutcome::Admitted,
                attempt_id: attachment.attempt_id,
                verifier_ref: attachment.verifier_ref,
            },
        )
    }

    fn reserve_controller_birth(
        &mut self,
        birth: &PersistedControllerBirth,
        create: &ThreadCreateReservation,
    ) -> (result: Result<ReserveBirthOutcome, PersistError>) {
        if let Some(existing) = self.births.get(&birth.birth_id) {
            let same_create = match self.creates.get(&birth.birth_id) {
                Some(stored) => stored.same(create),
                None => false,
            };
            return if existing.same(birth) && same_create {
                Ok(ReserveBirthOutcome::ExactReplay)
            } else {
                Ok(ReserveBirthOutcome::Conflict)
            };
        }
        if !birth.birth_id.same(&create.birth_id) {
            return Err(PersistError::Conflict);
        }
        self.births.insert(birth.birth_id, *birth);
        self.creates.insert(birth.birth_id, *create);
        self.ownership.insert(
            birth.birth_id,
            ThreadOwnershipState::Reserved { create_attempt_id: create.create_attempt_id },
        );
        Ok(ReserveBirthOutcome::Reserved)
    }

    fn resolve_thread_create(&mut self, commit: ThreadCreateCommit) -> (result: Result<
        IdempotentWrite,
        PersistError,
    >) {
        let create_attempt_id = commit.create_attempt_id;
        match self.creates.get(&commit.birth_id) {
            Some(create) => {
                if !create.create_attempt_id.same(&create_attempt_id) {
                    return Err(PersistError::Conflict);
                }
            },
            None => return Err(PersistError::InvalidTransition),
        }
        let next = match commit.resolution {
            ThreadCreateResolution::Owned { thread_ref } => ThreadOwnershipState::Owned {
                create_attempt_id,
                thread_ref,
            },
            ThreadCreateResolution::ProvenNotAccepted => ThreadOwnershipState::ProvenNotAccepted {
                create_attempt_id,
            },
            ThreadCreateResolution::Unknown => ThreadOwnershipState::Unknown { create_attempt_id },
        };
        let current = match self.ownership.get(&commit.birth_id) {
            Some(current) => *current,
            None => return Err(PersistError::InvalidTransition),
        };
        if current.same(&next) {
            return match self.create_evidence_refs.get(&commit.birth_id) {
                Some(stored) => if stored.same(&commit.evidence_ref) {
                    Ok(IdempotentWrite::ExactReplay)
                } else {
                    Err(PersistError::Conflict)
                },
                None => Err(PersistError::Conflict),
            };
        }
        let definite = match next {
            ThreadOwnershipState::Owned { .. } => true,
            ThreadOwnershipState::ProvenNotAccepted { .. } => true,
            _ => false,
        };
        let valid_transition = match current {
            ThreadOwnershipState::Reserved { .. } => true,
            ThreadOwnershipState::Unknown { .. } => definite,
            _ => false,
        };
        if !valid_transition {
            return Err(PersistError::Conflict);
        }
        self.create_evidence_refs.insert(commit.birth_id, commit.evidence_ref);
        self.ownership.insert(commit.birth_id, next);
        Ok(IdempotentWrite::Recorded)
    }

    fn thread_ownership_state(&self, birth_id: &ControllerBirthId) -> (result: Result<
        ThreadOwnershipState,
        PersistError,
    >) {
        match self.ownership.get(birth_id) {
            Some(state) => Ok(*state),
            None => Ok(ThreadOwnershipState::Absent),
        }
    }

    fn seal_native_coordinate(
        &mut self,
        scope: &NativeCoordinateScope,
        coordinate: &SecretNativeCoordinate,
    ) -> (result: Result<PrivateNativeRef, PersistError>) {
        match self.seal_answered(scope, coordinate) {
            Some(result) => result,
            None => self.seal_new(scope, coordinate),
        }
    }

    fn open_native_coordinate(
        &self,
        scope: &NativeCoordinateScope,
        native_ref: &PrivateNativeRef,
    ) -> (result: Result<OpenedNativeCoordinate, PersistError>) {
        if let Err(error) = self.validate_coordinate_scope(scope, Some(*native_ref), true) {
            return Err(error);
        }
        match self.private_recovery.get(native_ref) {
            Some(coordinate) => if coordinate.scope.same(scope) {
                Ok(OpenedNativeCoordinate::from_bytes(coordinate.plaintext.as_bytes()))
            } else {
                Err(PersistError::Unauthorized)
            },
            None => Err(PersistError::Unauthorized),
        }
    }

    fn record_dispatch_prepared(&mut self, commit: PreparedDispatchCommit) -> (result: Result<
        IdempotentWrite,
        PersistError,
    >) {
        let id = commit.correlation.attempt_id;
        if let Some(existing) = self.prepared.get(&id) {
            return if existing.same(&commit.correlation) {
                Ok(IdempotentWrite::ExactReplay)
            } else {
                Err(PersistError::Conflict)
            };
        }
        self.prepared.insert(id, commit.correlation);
        Ok(IdempotentWrite::Recorded)
    }

    fn record_prewrite_conclusion(&mut self, commit: PreWriteConclusionCommit) -> (result: Result<
        IdempotentWrite,
        PersistError,
    >) {
        if let Some(existing) = self.prewrite.get(&commit.attempt_id) {
            return if existing.conclusion.same(&commit.conclusion) {
                Ok(IdempotentWrite::ExactReplay)
            } else {
                Err(PersistError::Conflict)
            };
        }
        self.conclude_reservation(commit.attempt_id);
        self.prewrite.insert(
            commit.attempt_id,
            PersistedPreWriteConclusion {
                attempt_id: commit.attempt_id,
                signal_id: commit.signal_id,
                conclusion: commit.conclusion,
                recorded_at: commit.recorded_at,
            },
        );
        Ok(IdempotentWrite::Recorded)
    }

    fn record_active_hold(&mut self, commit: ActiveHoldCommit) -> (result: Result<
        IdempotentWrite,
        PersistError,
    >) {
        let evidence = commit.evidence;
        if !self.hold_authorized(&evidence) {
            return Err(PersistError::Unauthorized);
        }
        let fingerprint = self.fingerprint(&evidence);
        let evidence_ref = self.evidence_ref(&fingerprint);
        proof {
            bytes::array_of_view(fingerprint.0);
            bytes::array_of_view(evidence_ref.0);
        }
        let ghost stated = evidence@;
        let attempt_id = evidence.attempt_id;
        let probe_id = evidence.probe_id;
        let record = PersistedActiveObservationEvidence {
            evidence_ref,
            birth_id: evidence.birth_id,
            create_attempt_id: evidence.create_attempt_id,
            seat_id: evidence.seat_id,
            arm_id: evidence.arm_id,
            generation: evidence.generation,
            capability: evidence.capability,
            attachment_verifier_ref: evidence.attachment_verifier_ref,
            lease_until: evidence.lease_until,
            attempt_id,
            signal_id: evidence.signal_id,
            probe_id,
            mutation_epoch: evidence.mutation_epoch,
            observed_at: evidence.observed_at,
            fingerprint,
            producer_version: evidence.producer_version,
            producer_dialect: evidence.producer_dialect,
        };
        assert(record@ == store::evidence_record(self@.mac_key, stated));
        let conclusion = PersistedPreWriteConclusion {
            attempt_id,
            signal_id: evidence.signal_id,
            conclusion: PreWriteConclusion::HeldBeforeNativeWrite {
                active_evidence_ref: evidence_ref,
            },
            recorded_at: evidence.observed_at,
        };
        if let Some(existing) = self.active_observations.get(&attempt_id) {
            let same_conclusion = match self.prewrite.get(&attempt_id) {
                Some(stored) => stored.same(&conclusion),
                None => false,
            };
            return if existing.same(&record) && same_conclusion {
                Ok(IdempotentWrite::ExactReplay)
            } else {
                Err(PersistError::Conflict)
            };
        }
        if self.fail_next_active_hold {
            self.fail_next_active_hold = false;
            return Err(PersistError::StorageUnavailable);
        }
        if self.prewrite.contains(&attempt_id) || self.consumed_probes.contains(&probe_id) {
            return Err(PersistError::Conflict);
        }
        self.consumed_probes.insert(probe_id, Mark);
        self.active_observations.insert(attempt_id, record);
        self.prewrite.insert(attempt_id, conclusion);
        proof {
            assert(self@.consumed_probes =~= old(self)@.consumed_probes.insert(probe_id));
        }
        Ok(IdempotentWrite::Recorded)
    }

    fn reserve_native_turn_write(
        &mut self,
        idle: ValidatedIdlePermit,
        correlation: &PersistedTurnCorrelation,
    ) -> (result: Result<NativeWriteReservation, PersistError>) {
        if idle.observed_at.nanos >= idle.valid_until.nanos || !idle.attempt_id.same(
            &correlation.attempt_id,
        ) || !idle.signal_id.same(&correlation.signal_id) || !idle.birth_id.same(
            &correlation.birth_id,
        ) || !idle.thread_ref.same(&correlation.thread_ref) || !idle.mutation_epoch.birth_id.same(
            &idle.birth_id,
        ) || self.consumed_probes.contains(&idle.probe_id) || self.reservations.contains(
            &idle.attempt_id,
        ) {
            return Err(PersistError::Unauthorized);
        }
        let attachment = match self.attachments.get(&idle.attempt_id) {
            Some(attachment) => *attachment,
            None => return Err(PersistError::Unauthorized),
        };
        if !attachment.birth_id.same(&idle.birth_id) || !attachment.arm_id.same(&idle.arm_id)
            || attachment.generation != idle.generation || attachment.capability != idle.capability
            || !attachment.verifier_ref.same(&idle.verifier_ref) || attachment.revoked {
            return Err(PersistError::Unauthorized);
        }
        self.consumed_probes.insert(idle.probe_id, Mark);
        self.reservations.insert(
            idle.attempt_id,
            PersistedNativeReservation {
                correlation: *correlation,
                probe_id: idle.probe_id,
                expected_epoch: idle.mutation_epoch,
                concluded: false,
            },
        );
        proof {
            assert(self@.consumed_probes =~= old(self)@.consumed_probes.insert(idle.probe_id));
        }
        Ok(
            NativeWriteReservation {
                correlation: *correlation,
                probe_id: idle.probe_id,
                expected_epoch: idle.mutation_epoch,
            },
        )
    }

    fn record_native_write_evidence(&mut self, commit: NativeWriteEvidenceCommit) -> (result: Result<
        IdempotentWrite,
        PersistError,
    >) {
        let id = commit.correlation.attempt_id;
        match self.reservations.get(&id) {
            Some(reservation) => {
                if !reservation.correlation.same(&commit.correlation) {
                    return Err(PersistError::Unauthorized);
                }
            },
            None => return Err(PersistError::InvalidTransition),
        }
        if let Some(existing) = self.write_evidence.get(&id) {
            let same_ref = match self.write_evidence_refs.get(&id) {
                Some(stored) => stored.same(&commit.evidence_ref),
                None => false,
            };
            return if existing.same(&commit.evidence) && same_ref {
                Ok(IdempotentWrite::ExactReplay)
            } else {
                Err(PersistError::Conflict)
            };
        }
        self.write_evidence.insert(id, commit.evidence);
        self.write_evidence_refs.insert(id, commit.evidence_ref);
        self.conclude_reservation(id);
        Ok(IdempotentWrite::Recorded)
    }

    fn record_native_turn_fact(&mut self, commit: NativeTurnFactCommit) -> (result: Result<
        IdempotentWrite,
        PersistError,
    >) {
        if self.fail_next_turn_fact {
            self.fail_next_turn_fact = false;
            return Err(PersistError::StorageUnavailable);
        }
        if !self.fact_authorized(&commit.correlation, &commit.fact) {
            return Err(PersistError::Unauthorized);
        }
        let id = commit.correlation.attempt_id;
        let mut facts = match self.turn_facts.get(&id) {
            Some(list) => list.dup(),
            None => FactList { facts: Vec::new() },
        };
        assert(facts@ =~= self@.facts_of(id));
        if has_fact(&facts.facts, &commit.fact) {
            return Ok(IdempotentWrite::ExactReplay);
        }
        facts.facts.push(commit.fact);
        self.turn_facts.insert(id, facts);
        match commit.fact.turn_ref() {
            Some(turn_ref) => {
                let prepared = match self.prepared.get(&id) {
                    Some(prepared) => Some(
                        PersistedTurnCorrelation { turn_ref: Some(turn_ref), ..*prepared },
                    ),
                    None => None,
                };
                if let Some(prepared) = prepared {
                    self.prepared.insert(id, prepared);
                }
                let reservation = match self.reservations.get(&id) {
                    Some(reservation) => Some(
                        PersistedNativeReservation {
                            correlation: PersistedTurnCorrelation {
                                turn_ref: Some(turn_ref),
                                ..reservation.correlation
                            },
                            ..*reservation
                        },
                    ),
                    None => None,
                };
                if let Some(reservation) = reservation {
                    self.reservations.insert(id, reservation);
                }
            },
            None => {
                self.write_evidence.insert(id, NativeWriteEvidence::Unknown);
            },
        }
        Ok(IdempotentWrite::Recorded)
    }

    fn record_reconciliation_fact(
        &mut self,
        scope: &ReconciliationScope,
        disposition: &ReconciliationDisposition,
    ) -> (result: Result<IdempotentWrite, PersistError>) {
        let id = scope.correlation.attempt_id;
        match self.reservations.get(&id) {
            Some(reservation) => {
                if !reservation.correlation.same(&scope.correlation) {
                    return Err(PersistError::Unauthorized);
                }
            },
            None => return Err(PersistError::InvalidTransition),
        }
        let unknown = match self.write_evidence.get(&id) {
            Some(evidence) => evidence.same(&NativeWriteEvidence::Unknown),
            None => false,
        };
        let same_ref = match self.write_evidence_refs.get(&id) {
            Some(stored) => stored.same(&scope.evidence_ref),
            None => false,
        };
        if !unknown || !same_ref {
            return Err(PersistError::Unauthorized);
        }
        if let Some(existing) = self.reconciliations.get(&id) {
            if existing.same(disposition) {
                return Ok(IdempotentWrite::ExactReplay);
            }
            if !existing.same(&ReconciliationDisposition::Unknown) {
                return Err(PersistError::Conflict);
            }
        }
        self.reconciliations.insert(id, *disposition);
        Ok(IdempotentWrite::Recorded)
    }

    fn revoke_controller_attachment(&mut self, scope: ValidatedAttachmentScope) -> (result: Result<
        IdempotentWrite,
        PersistError,
    >) {
        let attachment = match self.attachments.get(&scope.attempt_id) {
            Some(attachment) => *attachment,
            None => return Err(PersistError::Unauthorized),
        };
        if !attachment.birth_id.same(&scope.birth_id) || !attachment.arm_id.same(&scope.arm_id)
            || attachment.generation != scope.generation || !attachment.verifier_ref.same(
            &scope.verifier_ref,
        ) {
            return Err(PersistError::Unauthorized);
        }
        if attachment.revoked {
            return Ok(IdempotentWrite::ExactReplay);
        }
        self.attachments.insert(
            scope.attempt_id,
            PersistedControllerAttachment { revoked: true, ..attachment },
        );
        Ok(IdempotentWrite::Recorded)
    }

    fn recover_authority_state(&mut self) -> (result: Result<RecoverySnapshot, PersistError>) {
        self.settle();
        let ghost settled = self@;
        let draws = draw_refs(self.unresolved().len());
        let result = self.recover_settled(&draws);
        proof {
            let (pairs, refs) = choose|
                pairs: Seq<(AttemptId, PersistedNativeReservation)>,
                refs: Seq<VerifierRef>,
            | #[trigger] marked(settled, pairs, refs, self@, result is Ok);
            assert(old(self).store().recovers(pairs, refs, self.store()));
            assert(result is Ok == old(self).store().all_marked(pairs, refs));
        }
        result
    }
}

} // verus!
