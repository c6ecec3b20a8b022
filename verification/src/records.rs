//! Durable records of native-controller authority and the commits that make
//! them.

use crate::controller::{
    ActiveObservationProof, ManagedCapability, NativeCoordinateScope, NativeMutationEpoch,
    NativeTurnFact, PersistedTurnCorrelation, ReconciliationDisposition,
};
use crate::ident::{
    ActiveObservationEvidenceRef, ActiveObservationFingerprint, ArmId, AttemptId, ClaimRequestId,
    ControllerBirthId, PrivateNativeRef, RequestNonce, SeatId, SignalId, VerifierRef,
};
use crate::protocol;
use crate::protocol::{copy_events, EventModel, ProviderEvent};
use crate::secret::SecretBytes;
use crate::table::Record;
use crate::text;
use crate::text::{copy_texts, same_text};
use crate::timestamp::Timestamp;
use vstd::prelude::*;

verus! {

/// Full arm policy required to reconstruct daemon authority.
#[derive(Clone, Copy, PartialEq, Eq)]
pub struct PersistedArm {
    pub arm_id: ArmId,
    pub generation: u64,
    pub seat_id: SeatId,
    pub capability: ManagedCapability,
    pub coverage_until: Timestamp,
}

impl View for PersistedArm {
    type V = PersistedArm;

    open spec fn view(&self) -> PersistedArm {
        *self
    }
}

impl Record for PersistedArm {
    fn dup(&self) -> (copy: PersistedArm) {
        *self
    }
}

/// Metadata-only claim record used by general recovery.
#[derive(PartialEq, Eq)]
pub struct PersistedClaimRecord {
    pub attempt_id: AttemptId,
    pub request_id: ClaimRequestId,
    pub arm_id: ArmId,
    pub generation: u64,
    pub signal_id: SignalId,
    pub event_refs: Vec<String>,
    pub claimed_at: Timestamp,
}

/// What a [`PersistedClaimRecord`] states.
pub struct ClaimModel {
    pub attempt_id: AttemptId,
    pub request_id: ClaimRequestId,
    pub arm_id: ArmId,
    pub generation: u64,
    pub signal_id: SignalId,
    pub event_refs: Seq<Seq<char>>,
    pub claimed_at: Timestamp,
}

impl View for PersistedClaimRecord {
    type V = ClaimModel;

    open spec fn view(&self) -> ClaimModel {
        ClaimModel {
            attempt_id: self.attempt_id,
            request_id: self.request_id,
            arm_id: self.arm_id,
            generation: self.generation,
            signal_id: self.signal_id,
            event_refs: text::texts(self.event_refs@),
            claimed_at: self.claimed_at,
        }
    }
}

impl Record for PersistedClaimRecord {
    fn dup(&self) -> (copy: PersistedClaimRecord) {
        PersistedClaimRecord {
            attempt_id: self.attempt_id,
            request_id: self.request_id,
            arm_id: self.arm_id,
            generation: self.generation,
            signal_id: self.signal_id,
            event_refs: copy_texts(&self.event_refs),
            claimed_at: self.claimed_at,
        }
    }
}

/// The events of one claim. They are kept apart from every recovery record.
pub struct Payload {
    pub events: Vec<ProviderEvent>,
}

impl View for Payload {
    type V = Seq<EventModel>;

    open spec fn view(&self) -> Seq<EventModel> {
        protocol::event_models(self.events@)
    }
}

impl Record for Payload {
    fn dup(&self) -> (copy: Payload) {
        Payload { events: copy_events(&self.events) }
    }
}

/// Admission input. Event content goes to the payload partition and never
/// appears in a recovery snapshot.
pub struct ClaimAdmission {
    pub record: PersistedClaimRecord,
    pub events: Vec<ProviderEvent>,
}

/// Durable attachment bound to one controller birth.
#[derive(Clone, Copy, PartialEq, Eq)]
pub struct PersistedControllerAttachment {
    pub attempt_id: AttemptId,
    pub birth_id: ControllerBirthId,
    pub seat_id: SeatId,
    pub arm_id: ArmId,
    pub generation: u64,
    pub capability: ManagedCapability,
    pub lease_until: Timestamp,
    pub verifier_ref: VerifierRef,
    pub revoked: bool,
}

impl PersistedControllerAttachment {
    pub fn same(&self, other: &PersistedControllerAttachment) -> (same: bool)
        ensures
            same == (*self == *other),
    {
        self.attempt_id.same(&other.attempt_id) && self.birth_id.same(&other.birth_id)
            && self.seat_id.same(&other.seat_id) && self.arm_id.same(&other.arm_id)
            && self.generation == other.generation && self.capability == other.capability
            && self.lease_until == other.lease_until && self.verifier_ref.same(
            &other.verifier_ref,
        ) && self.revoked == other.revoked
    }
}

impl View for PersistedControllerAttachment {
    type V = PersistedControllerAttachment;

    open spec fn view(&self) -> PersistedControllerAttachment {
        *self
    }
}

impl Record for PersistedControllerAttachment {
    fn dup(&self) -> (copy: PersistedControllerAttachment) {
        *self
    }
}

/// One durable controller birth.
#[derive(Clone, Copy, PartialEq, Eq)]
pub struct PersistedControllerBirth {
    pub birth_id: ControllerBirthId,
    pub seat_id: SeatId,
    pub arm_id: ArmId,
    pub generation: u64,
    pub capability: ManagedCapability,
    pub lease_until: Timestamp,
    pub verifier_ref: VerifierRef,
    pub created_at: Timestamp,
    pub revoked: bool,
}

impl PersistedControllerBirth {
    pub fn same(&self, other: &PersistedControllerBirth) -> (same: bool)
        ensures
            same == (*self == *other),
    {
        self.birth_id.same(&other.birth_id) && self.seat_id.same(&other.seat_id)
            && self.arm_id.same(&other.arm_id) && self.generation == other.generation
            && self.capability == other.capability && self.lease_until == other.lease_until
            && self.verifier_ref.same(&other.verifier_ref) && self.created_at == other.created_at
            && self.revoked == other.revoked
    }
}

impl View for PersistedControllerBirth {
    type V = PersistedControllerBirth;

    open spec fn view(&self) -> PersistedControllerBirth {
        *self
    }
}

impl Record for PersistedControllerBirth {
    fn dup(&self) -> (copy: PersistedControllerBirth) {
        *self
    }
}

/// Native thread creation reserved before any create write.
#[derive(Clone, Copy, PartialEq, Eq)]
pub struct ThreadCreateReservation {
    pub birth_id: ControllerBirthId,
    pub create_attempt_id: RequestNonce,
    pub reserved_at: Timestamp,
}

impl ThreadCreateReservation {
    pub fn same(&self, other: &ThreadCreateReservation) -> (same: bool)
        ensures
            same == (*self == *other),
    {
        self.birth_id.same(&other.birth_id) && self.create_attempt_id.same(
            &other.create_attempt_id,
        ) && self.reserved_at == other.reserved_at
    }
}

impl View for ThreadCreateReservation {
    type V = ThreadCreateReservation;

    open spec fn view(&self) -> ThreadCreateReservation {
        *self
    }
}

impl Record for ThreadCreateReservation {
    fn dup(&self) -> (copy: ThreadCreateReservation) {
        *self
    }
}

/// Exact creation resolution. Unknown remains quarantined.
#[derive(Clone, Copy, PartialEq, Eq)]
pub enum ThreadCreateResolution {
    Owned { thread_ref: PrivateNativeRef },
    ProvenNotAccepted,
    Unknown,
}

/// Exact thread ownership state for a birth.
#[derive(Clone, Copy, PartialEq, Eq)]
pub enum ThreadOwnershipState {
    Absent,
    Reserved { create_attempt_id: RequestNonce },
    Unknown { create_attempt_id: RequestNonce },
    ProvenNotAccepted { create_attempt_id: RequestNonce },
    Owned { create_attempt_id: RequestNonce, thread_ref: PrivateNativeRef },
}

impl ThreadOwnershipState {
    pub fn same(&self, other: &ThreadOwnershipState) -> (same: bool)
        ensures
            same == (*self == *other),
    {
        match (self, other) {
            (ThreadOwnershipState::Absent, ThreadOwnershipState::Absent) => true,
            (
                ThreadOwnershipState::Reserved { create_attempt_id: a },
                ThreadOwnershipState::Reserved { create_attempt_id: b },
            ) => a.same(b),
            (
                ThreadOwnershipState::Unknown { create_attempt_id: a },
                ThreadOwnershipState::Unknown { create_attempt_id: b },
            ) => a.same(b),
            (
                ThreadOwnershipState::ProvenNotAccepted { create_attempt_id: a },
                ThreadOwnershipState::ProvenNotAccepted { create_attempt_id: b },
            ) => a.same(b),
            (
                ThreadOwnershipState::Owned { create_attempt_id: a, thread_ref: r },
                ThreadOwnershipState::Owned { create_attempt_id: b, thread_ref: s },
            ) => a.same(b) && r.same(s),
            _ => false,
        }
    }

    /// The thread is owned through this create and known by this reference.
    pub open spec fn owns(self, create: RequestNonce, reference: PrivateNativeRef) -> bool {
        self == (ThreadOwnershipState::Owned { create_attempt_id: create, thread_ref: reference })
    }
}

impl View for ThreadOwnershipState {
    type V = ThreadOwnershipState;

    open spec fn view(&self) -> ThreadOwnershipState {
        *self
    }
}

impl Record for ThreadOwnershipState {
    fn dup(&self) -> (copy: ThreadOwnershipState) {
        *self
    }
}

#[derive(Clone, Copy, PartialEq, Eq)]
pub struct PersistedThreadOwnership {
    pub birth_id: ControllerBirthId,
    pub state: ThreadOwnershipState,
}

/// Durable zero-write conclusion before native acceptance.
#[derive(Clone, Copy, PartialEq, Eq)]
pub enum PreWriteConclusion {
    HeldBeforeNativeWrite { active_evidence_ref: ActiveObservationEvidenceRef },
    IdleStateUnproven,
    IdleEpochInvalidated {
        probe_id: RequestNonce,
        expected_epoch: NativeMutationEpoch,
        observed_epoch: NativeMutationEpoch,
    },
}

impl PreWriteConclusion {
    pub fn same(&self, other: &PreWriteConclusion) -> (same: bool)
        ensures
            same == (*self == *other),
    {
        match (self, other) {
            (
                PreWriteConclusion::HeldBeforeNativeWrite { active_evidence_ref: a },
                PreWriteConclusion::HeldBeforeNativeWrite { active_evidence_ref: b },
            ) => a.same(b),
            (PreWriteConclusion::IdleStateUnproven, PreWriteConclusion::IdleStateUnproven) => true,
            (
                PreWriteConclusion::IdleEpochInvalidated {
                    probe_id: p,
                    expected_epoch: e,
                    observed_epoch: o,
                },
                PreWriteConclusion::IdleEpochInvalidated {
                    probe_id: q,
                    expected_epoch: f,
                    observed_epoch: n,
                },
            ) => p.same(q) && e.same(f) && o.same(n),
            _ => false,
        }
    }
}

/// Durable evidence that an exact active observation held a write back.
#[derive(PartialEq, Eq)]
pub struct PersistedActiveObservationEvidence {
    pub evidence_ref: ActiveObservationEvidenceRef,
    pub birth_id: ControllerBirthId,
    pub create_attempt_id: RequestNonce,
    pub seat_id: SeatId,
    pub arm_id: ArmId,
    pub generation: u64,
    pub capability: ManagedCapability,
    pub attachment_verifier_ref: VerifierRef,
    pub lease_until: Timestamp,
    pub attempt_id: AttemptId,
    pub signal_id: SignalId,
    pub probe_id: RequestNonce,
    pub mutation_epoch: NativeMutationEpoch,
    pub observed_at: Timestamp,
    pub fingerprint: ActiveObservationFingerprint,
    pub producer_version: String,
    pub producer_dialect: String,
}

/// What a [`PersistedActiveObservationEvidence`] states.
pub struct ActiveEvidenceModel {
    pub evidence_ref: ActiveObservationEvidenceRef,
    pub birth_id: ControllerBirthId,
    pub create_attempt_id: RequestNonce,
    pub seat_id: SeatId,
    pub arm_id: ArmId,
    pub generation: u64,
    pub capability: ManagedCapability,
    pub attachment_verifier_ref: VerifierRef,
    pub lease_until: Timestamp,
    pub attempt_id: AttemptId,
    pub signal_id: SignalId,
    pub probe_id: RequestNonce,
    pub mutation_epoch: NativeMutationEpoch,
    pub observed_at: Timestamp,
    pub fingerprint: ActiveObservationFingerprint,
    pub producer_version: Seq<char>,
    pub producer_dialect: Seq<char>,
}

impl View for PersistedActiveObservationEvidence {
    type V = ActiveEvidenceModel;

    open spec fn view(&self) -> ActiveEvidenceModel {
        ActiveEvidenceModel {
            evidence_ref: self.evidence_ref,
            birth_id: self.birth_id,
            create_attempt_id: self.create_attempt_id,
            seat_id: self.seat_id,
            arm_id: self.arm_id,
            generation: self.generation,
            capability: self.capability,
            attachment_verifier_ref: self.attachment_verifier_ref,
            lease_until: self.lease_until,
            attempt_id: self.attempt_id,
            signal_id: self.signal_id,
            probe_id: self.probe_id,
            mutation_epoch: self.mutation_epoch,
            observed_at: self.observed_at,
            fingerprint: self.fingerprint,
            producer_version: self.producer_version@,
            producer_dialect: self.producer_dialect@,
        }
    }
}

impl Record for PersistedActiveObservationEvidence {
    fn dup(&self) -> (copy: PersistedActiveObservationEvidence) {
        PersistedActiveObservationEvidence {
            evidence_ref: self.evidence_ref,
            birth_id: self.birth_id,
            create_attempt_id: self.create_attempt_id,
            seat_id: self.seat_id,
            arm_id: self.arm_id,
            generation: self.generation,
            capability: self.capability,
            attachment_verifier_ref: self.attachment_verifier_ref,
            lease_until: self.lease_until,
            attempt_id: self.attempt_id,
            signal_id: self.signal_id,
            probe_id: self.probe_id,
            mutation_epoch: self.mutation_epoch,
            observed_at: self.observed_at,
            fingerprint: self.fingerprint,
            producer_version: self.producer_version.clone(),
            producer_dialect: self.producer_dialect.clone(),
        }
    }
}

impl PersistedActiveObservationEvidence {
    pub fn same(&self, other: &PersistedActiveObservationEvidence) -> (same: bool)
        ensures
            same == (self@ == other@),
    {
        self.evidence_ref.same(&other.evidence_ref) && self.birth_id.same(&other.birth_id)
            && self.create_attempt_id.same(&other.create_attempt_id) && self.seat_id.same(
            &other.seat_id,
        ) && self.arm_id.same(&other.arm_id) && self.generation == other.generation
            && self.capability == other.capability && self.attachment_verifier_ref.same(
            &other.attachment_verifier_ref,
        ) && self.lease_until == other.lease_until && self.attempt_id.same(&other.attempt_id)
            && self.signal_id.same(&other.signal_id) && self.probe_id.same(&other.probe_id)
            && self.mutation_epoch.same(&other.mutation_epoch) && self.observed_at
            == other.observed_at && self.fingerprint.same(&other.fingerprint) && same_text(
            self.producer_version.as_str(),
            other.producer_version.as_str(),
        ) && same_text(self.producer_dialect.as_str(), other.producer_dialect.as_str())
    }
}

#[derive(Clone, Copy, PartialEq, Eq)]
pub struct PersistedPreWriteConclusion {
    pub attempt_id: AttemptId,
    pub signal_id: SignalId,
    pub conclusion: PreWriteConclusion,
    pub recorded_at: Timestamp,
}

impl PersistedPreWriteConclusion {
    pub fn same(&self, other: &PersistedPreWriteConclusion) -> (same: bool)
        ensures
            same == (*self == *other),
    {
        self.attempt_id.same(&other.attempt_id) && self.signal_id.same(&other.signal_id)
            && self.conclusion.same(&other.conclusion) && self.recorded_at == other.recorded_at
    }
}

impl View for PersistedPreWriteConclusion {
    type V = PersistedPreWriteConclusion;

    open spec fn view(&self) -> PersistedPreWriteConclusion {
        *self
    }
}

impl Record for PersistedPreWriteConclusion {
    fn dup(&self) -> (copy: PersistedPreWriteConclusion) {
        *self
    }
}

/// Durable native boundary evidence.
#[derive(Clone, Copy, PartialEq, Eq)]
pub enum NativeWriteEvidence {
    ProvenNotAccepted,
    WriterAccepted { write_id: RequestNonce },
    ExactResponse { fact: NativeTurnFact },
    Unknown,
}

impl NativeWriteEvidence {
    pub fn same(&self, other: &NativeWriteEvidence) -> (same: bool)
        ensures
            same == (*self == *other),
    {
        match (self, other) {
            (NativeWriteEvidence::ProvenNotAccepted, NativeWriteEvidence::ProvenNotAccepted) => {
                true
            },
            (
                NativeWriteEvidence::WriterAccepted { write_id: a },
                NativeWriteEvidence::WriterAccepted { write_id: b },
            ) => a.same(b),
            (
                NativeWriteEvidence::ExactResponse { fact: a },
                NativeWriteEvidence::ExactResponse { fact: b },
            ) => a.same(b),
            (NativeWriteEvidence::Unknown, NativeWriteEvidence::Unknown) => true,
            _ => false,
        }
    }
}

impl View for NativeWriteEvidence {
    type V = NativeWriteEvidence;

    open spec fn view(&self) -> NativeWriteEvidence {
        *self
    }
}

impl Record for NativeWriteEvidence {
    fn dup(&self) -> (copy: NativeWriteEvidence) {
        *self
    }
}

/// Semantic operation result.
#[derive(Clone, Copy, Debug, PartialEq, Eq, Structural)]
pub enum IdempotentWrite {
    Recorded,
    ExactReplay,
}

#[derive(Clone, Copy, Debug, PartialEq, Eq, Structural)]
pub enum ReserveBirthOutcome {
    Reserved,
    ExactReplay,
    Conflict,
}

#[derive(Clone, Copy, Debug, PartialEq, Eq, Structural)]
pub enum ClaimOutcome {
    Admitted,
    ExactReplay,
}

#[derive(Clone, Copy, PartialEq, Eq)]
pub struct AdmissionRecord {
    pub outcome: ClaimOutcome,
    pub attempt_id: AttemptId,
    pub verifier_ref: VerifierRef,
}

/// Resolution of a thread create. The store checks it against the reservation.
pub struct ThreadCreateCommit {
    pub birth_id: ControllerBirthId,
    pub create_attempt_id: RequestNonce,
    pub resolution: ThreadCreateResolution,
    pub evidence_ref: VerifierRef,
}

pub struct PreparedDispatchCommit {
    pub correlation: PersistedTurnCorrelation,
}

pub struct PreWriteConclusionCommit {
    pub attempt_id: AttemptId,
    pub signal_id: SignalId,
    pub conclusion: PreWriteConclusion,
    pub recorded_at: Timestamp,
}

pub struct ActiveHoldCommit {
    pub evidence: ActiveObservationProof,
}

pub struct NativeWriteEvidenceCommit {
    pub correlation: PersistedTurnCorrelation,
    pub evidence: NativeWriteEvidence,
    pub evidence_ref: VerifierRef,
}

pub struct NativeTurnFactCommit {
    pub correlation: PersistedTurnCorrelation,
    pub fact: NativeTurnFact,
    pub evidence_ref: VerifierRef,
}

pub struct ValidatedAttachmentScope {
    pub attempt_id: AttemptId,
    pub birth_id: ControllerBirthId,
    pub arm_id: ArmId,
    pub generation: u64,
    pub verifier_ref: VerifierRef,
}

/// Metadata for a reservation. Recovery can classify it but cannot remint its
/// consumed in-memory authority products.
#[derive(Clone, Copy, PartialEq, Eq)]
pub struct PersistedNativeReservation {
    pub correlation: PersistedTurnCorrelation,
    pub probe_id: RequestNonce,
    pub expected_epoch: NativeMutationEpoch,
    pub concluded: bool,
}

impl View for PersistedNativeReservation {
    type V = PersistedNativeReservation;

    open spec fn view(&self) -> PersistedNativeReservation {
        *self
    }
}

impl Record for PersistedNativeReservation {
    fn dup(&self) -> (copy: PersistedNativeReservation) {
        *self
    }
}

#[derive(Clone, Copy, PartialEq, Eq)]
pub struct PersistedNativeWriteEvidence {
    pub correlation: PersistedTurnCorrelation,
    pub evidence: NativeWriteEvidence,
    pub evidence_ref: VerifierRef,
}

/// The facts of one attempt in the order of their recording.
pub struct FactList {
    pub facts: Vec<NativeTurnFact>,
}

impl View for FactList {
    type V = Seq<NativeTurnFact>;

    open spec fn view(&self) -> Seq<NativeTurnFact> {
        self.facts@
    }
}

impl Record for FactList {
    fn dup(&self) -> (copy: FactList) {
        FactList { facts: copy_facts(&self.facts) }
    }
}

/// A copy of a list of facts.
pub fn copy_facts(facts: &Vec<NativeTurnFact>) -> (copy: Vec<NativeTurnFact>)
    ensures
        copy@ == facts@,
{
    let mut out: Vec<NativeTurnFact> = Vec::new();
    let mut i: usize = 0;
    while i < facts.len()
        invariant
            i <= facts.len(),
            out@ == facts@.take(i as int),
        decreases facts.len() - i,
    {
        out.push(facts[i]);
        assert(facts@.take(i + 1) =~= facts@.take(i as int).push(facts@[i as int]));
        i += 1;
    }
    assert(facts@.take(facts@.len() as int) =~= facts@);
    out
}

/// Whether a fact stands in a list.
pub fn has_fact(facts: &Vec<NativeTurnFact>, fact: &NativeTurnFact) -> (found: bool)
    ensures
        found == facts@.contains(*fact),
{
    let mut i: usize = 0;
    while i < facts.len()
        invariant
            i <= facts.len(),
            forall|j: int| 0 <= j < i ==> facts@[j] != *fact,
        decreases facts.len() - i,
    {
        if facts[i].same(fact) {
            return true;
        }
        i += 1;
    }
    false
}

#[derive(PartialEq, Eq)]
pub struct PersistedNativeTurnFacts {
    pub attempt_id: AttemptId,
    pub facts: Vec<NativeTurnFact>,
}

#[derive(Clone, Copy, PartialEq, Eq)]
pub struct PersistedReconciliation {
    pub attempt_id: AttemptId,
    pub disposition: ReconciliationDisposition,
}

/// A sealed native coordinate in the recovery partition.
pub struct RecoveryCoordinate {
    pub scope: NativeCoordinateScope,
    pub plaintext: SecretBytes,
}

/// What a [`RecoveryCoordinate`] holds.
pub struct CoordinateModel {
    pub scope: NativeCoordinateScope,
    pub plaintext: Seq<u8>,
}

impl View for RecoveryCoordinate {
    type V = CoordinateModel;

    open spec fn view(&self) -> CoordinateModel {
        CoordinateModel { scope: self.scope, plaintext: self.plaintext@ }
    }
}

impl Record for RecoveryCoordinate {
    fn dup(&self) -> (copy: RecoveryCoordinate) {
        RecoveryCoordinate { scope: self.scope, plaintext: self.plaintext.clone() }
    }
}

/// The value of a table that only marks its keys.
#[derive(Clone, Copy, Debug, PartialEq, Eq, Structural)]
pub struct Mark;

impl View for Mark {
    type V = Mark;

    open spec fn view(&self) -> Mark {
        *self
    }
}

impl Record for Mark {
    fn dup(&self) -> (copy: Mark) {
        *self
    }
}

/// General recovery state contains authority metadata only.
pub struct RecoverySnapshot {
    pub arms: Vec<PersistedArm>,
    pub claims: Vec<PersistedClaimRecord>,
    pub attachments: Vec<PersistedControllerAttachment>,
    pub controller_births: Vec<PersistedControllerBirth>,
    pub ownership: Vec<PersistedThreadOwnership>,
    pub turn_correlations: Vec<PersistedTurnCorrelation>,
    pub reservations: Vec<PersistedNativeReservation>,
    pub native_write_evidence: Vec<PersistedNativeWriteEvidence>,
    pub native_turn_facts: Vec<PersistedNativeTurnFacts>,
    pub reconciliations: Vec<PersistedReconciliation>,
    pub prewrite_conclusions: Vec<PersistedPreWriteConclusion>,
    pub active_observations: Vec<PersistedActiveObservationEvidence>,
    pub attempt_seq: u64,
}

#[derive(Clone, Copy, Debug, PartialEq, Eq, Structural)]
pub enum PersistError {
    Conflict,
    InvalidTransition,
    Unauthorized,
    StorageUnavailable,
}

} // verus!
