//! Single-writer authority for one birth-bound managed controller.

use crate::authority_model;
use crate::authority_model::{
    AuthorityModel, ATTEMPT_PREFIX, IDLE_PERMIT_WINDOW, MAX_ACTOR_BYTES, MAX_AGGREGATE_BODY_BYTES,
    MAX_CLAIM_EVENTS, MAX_EVENT_BODY_BYTES, MAX_EVENT_REF_BYTES, MAX_PROVIDER_BYTES,
    MAX_TIMESTAMP_BYTES,
};
use crate::controller::{
    ActiveObservationProof, ControllerAttachment, ControllerBirthBinding, ControllerCommand,
    ControllerIdleGuard, ControllerProbeError, ControllerReconcileError, ControllerWriteError,
    IdleProbeObservation, IdleProbeResult, IdleProbeScope, ManagedCapability, NativeTurnFact,
    NativeWriteDisposition, ObservationScope, PersistedTurnCorrelation, ProbeBinding,
    ReconciliationDisposition, ReconciliationScope, SignalAction, ValidatedIdlePermit,
    PRODUCER_DIALECT, PRODUCER_VERSION,
};
use crate::ident::{
    is_bounded_token, ArmId, AttemptId, ClaimRequestId, ControllerBirthId, EntropyError,
    PrivateNativeRef, RequestNonce, SeatId, SignalId, VerifierRef,
};
use crate::persist::Persist;
use crate::primitives;
use crate::primitives::parse_rfc3339;
use crate::protocol;
use crate::protocol::{copy_events, EventModel, ProviderEvent};
use crate::records::{
    copy_facts, ActiveHoldCommit, ClaimAdmission, ClaimModel, ClaimOutcome, IdempotentWrite,
    NativeTurnFactCommit, NativeWriteEvidence, NativeWriteEvidenceCommit, PersistError,
    PersistedArm, PersistedClaimRecord, PersistedControllerAttachment, PersistedControllerBirth,
    PersistedNativeReservation, PersistedThreadOwnership, PreWriteConclusion,
    PreWriteConclusionCommit, PreparedDispatchCommit, RecoverySnapshot, ReserveBirthOutcome,
    ThreadCreateCommit, ThreadCreateReservation, ThreadCreateResolution, ThreadOwnershipState,
    ValidatedAttachmentScope,
};
use crate::store;
use crate::table;
use crate::table::{Record, Table};
use crate::text;
use crate::text::{decimal_text, same_text};
use crate::timestamp::Timestamp;
use vstd::prelude::*;
use vstd::string::*;
use vstd::utf8::*;

verus! {

/// Input for generation-fenced claim admission.
pub struct ClaimRequest {
    pub arm_id: String,
    pub request_id: String,
    pub signal_id: String,
    pub events: Vec<ProviderEvent>,
}

/// Explicit managed-controller registration. Waiter-link routes never
/// construct this authority product.
pub struct ManagedArmRegistration {
    pub arm_id: String,
    pub generation: u64,
    pub seat_id: String,
    pub coverage_until: Timestamp,
}

/// What [`DaemonAuthority`] gives out once controller birth and create are
/// persisted. It is not Clone; its fields are open, so holding one is no proof.
pub struct ControllerBirthReservation {
    pub binding: ControllerBirthBinding,
    pub create_attempt_id: RequestNonce,
}

impl ControllerBirthReservation {
    pub fn binding(&self) -> (parts: (&ControllerBirthBinding, &RequestNonce))
        ensures
            *parts.0 == self.binding,
            *parts.1 == self.create_attempt_id,
    {
        (&self.binding, &self.create_attempt_id)
    }
}

/// A create whose outcome stays unknown until it is resolved definitely.
pub struct QuarantinedBirthReservation {
    pub birth_id: ControllerBirthId,
    pub create_attempt_id: RequestNonce,
}

impl QuarantinedBirthReservation {
    pub fn binding(&self) -> (parts: (&ControllerBirthId, &RequestNonce))
        ensures
            *parts.0 == self.birth_id,
            *parts.1 == self.create_attempt_id,
    {
        (&self.birth_id, &self.create_attempt_id)
    }
}

pub enum CreateResolution {
    Final(IdempotentWrite),
    Unknown { write: IdempotentWrite, reservation: QuarantinedBirthReservation },
}

/// Receipt for a newly admitted claim. Every use is checked against the store.
pub struct AdmissionReceipt {
    pub attempt_id: AttemptId,
}

impl AdmissionReceipt {
    pub fn attempt_id(&self) -> (text: &str)
        ensures
            text@ == self.attempt_id.chars(),
    {
        self.attempt_id.as_str()
    }
}

pub struct AdmissionResult {
    pub outcome: ClaimOutcome,
    pub attempt_id: String,
    pub receipt: Option<AdmissionReceipt>,
}

impl AdmissionResult {
    pub fn into_receipt(self) -> (receipt: Option<AdmissionReceipt>)
        ensures
            receipt == self.receipt,
    {
        self.receipt
    }

    /// The result names the attempt, and carries a receipt only for a new claim.
    pub open spec fn shows(self, outcome: ClaimOutcome, id: AttemptId) -> bool {
        &&& self.outcome == outcome
        &&& self.attempt_id@ == id.chars()
        &&& self.receipt == if outcome == ClaimOutcome::Admitted {
            Some(AdmissionReceipt { attempt_id: id })
        } else {
            None
        }
    }
}

/// Work retained across probe and native-write phases. Every use is checked
/// against the store.
pub struct PreparedDispatch {
    pub attachment: PersistedControllerAttachment,
    pub correlation: PersistedTurnCorrelation,
    pub expected_probe_id: RequestNonce,
}

/// Authorized write products. Neither guard nor command is Clone.
pub struct AuthorizedNativeWrite {
    pub prepared: PreparedDispatch,
    pub lane: ControllerIdleGuard,
    pub command: ControllerCommand,
}

impl AuthorizedNativeWrite {
    pub fn into_parts(self) -> (parts: (PreparedDispatch, ControllerIdleGuard, ControllerCommand))
        ensures
            parts == (self.prepared, self.lane, self.command),
    {
        (self.prepared, self.lane, self.command)
    }
}

/// Result of validating an exact controller probe.
pub enum ProbeAuthorization {
    Ready(Box<AuthorizedNativeWrite>),
    HeldBeforeNativeWrite,
    IdleStateUnproven,
}

pub enum ReconciliationPhase {
    Reconciling,
    Observing(Box<ObservationScope>),
    Closed,
}

pub struct ExactObservationRecord {
    pub write: IdempotentWrite,
    pub reconciliation: Option<ReconciliationScope>,
}

/// Post-write authority result with only exact follow-up scopes.
pub struct NativeWriteConclusion {
    pub disposition: NativeWriteDisposition,
    pub observation_scope: Option<ObservationScope>,
    pub reconciliation_scope: Option<ReconciliationScope>,
}

impl NativeWriteConclusion {
    pub fn into_observation_scope(self) -> (scope: Option<ObservationScope>)
        ensures
            scope == self.observation_scope,
    {
        self.observation_scope
    }

    pub fn into_reconciliation_scope(self) -> (scope: Option<ReconciliationScope>)
        ensures
            scope == self.reconciliation_scope,
    {
        self.reconciliation_scope
    }

    pub fn into_scopes(self) -> (scopes: (Option<ObservationScope>, Option<ReconciliationScope>))
        ensures
            scopes == (self.observation_scope, self.reconciliation_scope),
    {
        (self.observation_scope, self.reconciliation_scope)
    }
}

#[derive(Clone, Copy, Debug, PartialEq, Eq, Structural)]
pub enum AuthorityError {
    UnknownArm,
    NoOwnedController,
    Conflict,
    Unauthorized,
    Storage,
    InvalidIdentifier,
    Entropy,
    ControllerProbe(ControllerProbeError),
}

impl From<PersistError> for AuthorityError {
    fn from(error: PersistError) -> (mapped: AuthorityError) {
        match error {
            PersistError::Conflict => AuthorityError::Conflict,
            PersistError::InvalidTransition => AuthorityError::Conflict,
            PersistError::Unauthorized => AuthorityError::Unauthorized,
            PersistError::StorageUnavailable => AuthorityError::Storage,
        }
    }
}

impl vstd::std_specs::convert::FromSpecImpl<PersistError> for AuthorityError {
    open spec fn obeys_from_spec() -> bool {
        true
    }

    open spec fn from_spec(error: PersistError) -> AuthorityError {
        authority_model::mapped(error)
    }
}

/// Holds a list of events to the bounds of a claim.
pub fn validate_claim_events(events: &Vec<ProviderEvent>) -> (verdict: Result<(), AuthorityError>)
    ensures
        verdict == authority_model::events_verdict(protocol::event_models(events@)),
{
    let ghost models = protocol::event_models(events@);
    if events.len() == 0 || events.len() > MAX_CLAIM_EVENTS {
        return Err(AuthorityError::Conflict);
    }
    let mut total: usize = 0;
    let mut previous: Option<i128> = None;
    let mut i: usize = 0;
    assert(models.take(0) =~= Seq::<EventModel>::empty());
    while i < events.len()
        invariant
            i <= events.len() <= MAX_CLAIM_EVENTS,
            models == protocol::event_models(events@),
            authority_model::scan_events(models.take(i as int)) == Ok::<(), AuthorityError>(()),
            total == authority_model::body_bytes(models.take(i as int)),
            total <= i * MAX_EVENT_BODY_BYTES,
            i == 0 <==> previous is None,
            i > 0 ==> previous == primitives::rfc3339_instant(models[i - 1].observed_at),
        decreases events.len() - i,
    {
        let event = &events[i];
        let ghost earlier = models.take(i as int);
        let ghost upto = models.take(i + 1);
        proof {
            assert(upto.drop_last() =~= earlier);
            assert(upto.last() == models[i as int]);
            assert(models[i as int] == event@);
            if i > 0 {
                assert(earlier.last() == models[i - 1]);
            }
            if authority_model::scan_events(upto) is Err {
                scan_fails(models, i + 1);
            }
        }
        let actor_ok = match &event.actor {
            Some(actor) => is_bounded_token(actor.as_str(), MAX_ACTOR_BYTES),
            None => true,
        };
        if !is_bounded_token(event.event_ref.as_str(), MAX_EVENT_REF_BYTES) || event_ref_taken(
            events,
            i,
        ) || !is_bounded_token(event.provider.as_str(), MAX_PROVIDER_BYTES) || !actor_ok
            || event.observed_at.as_str().as_bytes().len() > MAX_TIMESTAMP_BYTES
            || event.body.as_str().as_bytes().len() > MAX_EVENT_BODY_BYTES {
            return Err(AuthorityError::InvalidIdentifier);
        }
        let observed_at = match parse_rfc3339(event.observed_at.as_str()) {
            Some(observed_at) => observed_at,
            None => return Err(AuthorityError::InvalidIdentifier),
        };
        if let Some(before) = previous {
            if observed_at < before {
                return Err(AuthorityError::Conflict);
            }
        }
        previous = Some(observed_at);
        total = total + event.body.as_str().as_bytes().len();
        i += 1;
    }
    assert(models.take(events@.len() as int) =~= models);
    if total > MAX_AGGREGATE_BODY_BYTES {
        return Err(AuthorityError::Conflict);
    }
    Ok(())
}

/// An objection to a prefix is the objection to the whole list.
proof fn scan_fails(events: Seq<EventModel>, n: int)
    requires
        0 <= n <= events.len(),
        authority_model::scan_events(events.take(n)) is Err,
    ensures
        authority_model::scan_events(events) == authority_model::scan_events(events.take(n)),
    decreases events.len() - n,
{
    if n < events.len() {
        assert(events.take(n + 1).drop_last() =~= events.take(n));
        scan_fails(events, n + 1);
    } else {
        assert(events.take(n) =~= events);
    }
}

/// Whether the reference of one event occurs before it.
fn event_ref_taken(events: &Vec<ProviderEvent>, n: usize) -> (taken: bool)
    requires
        n < events@.len(),
    ensures
        taken == authority_model::ref_taken(
            protocol::event_models(events@).take(n as int),
            events@[n as int].event_ref@,
        ),
{
    let ghost earlier = protocol::event_models(events@).take(n as int);
    let mut i: usize = 0;
    while i < n
        invariant
            i <= n < events@.len(),
            earlier == protocol::event_models(events@).take(n as int),
            forall|j: int|
                0 <= j < i ==> (#[trigger] earlier[j]).event_ref != events@[n as int].event_ref@,
        decreases n - i,
    {
        if same_text(events[i].event_ref.as_str(), events[n].event_ref.as_str()) {
            assert(earlier[i as int].event_ref == events@[n as int].event_ref@);
            return true;
        }
        i += 1;
    }
    false
}

/// The references of a list of events.
fn copy_event_refs(events: &Vec<ProviderEvent>) -> (refs: Vec<String>)
    ensures
        text::texts(refs@) == authority_model::event_refs(protocol::event_models(events@)),
{
    let mut refs: Vec<String> = Vec::new();
    let mut i: usize = 0;
    while i < events.len()
        invariant
            i <= events.len(),
            refs@.len() == i,
            forall|j: int| 0 <= j < i ==> (#[trigger] refs@[j])@ == events@[j].event_ref@,
        decreases events.len() - i,
    {
        refs.push(events[i].event_ref.clone());
        i += 1;
    }
    assert(text::texts(refs@) =~= authority_model::event_refs(protocol::event_models(events@)));
    refs
}

/// The controller's view of an attachment.
fn controller_attachment(attachment: &PersistedControllerAttachment) -> (view: ControllerAttachment)
    ensures
        view == authority_model::controller_attachment(*attachment),
{
    ControllerAttachment {
        attempt_id: attachment.attempt_id,
        birth_id: attachment.birth_id,
        arm_id: attachment.arm_id,
        generation: attachment.generation,
        seat_id: attachment.seat_id,
        capability: attachment.capability,
        lease_until: attachment.lease_until,
        verifier_ref: attachment.verifier_ref,
    }
}

/// Whether an observation is not from the future and still within the window.
fn is_recent(observed_at: Timestamp, now: Timestamp) -> (ok: bool)
    ensures
        ok == authority_model::recent(observed_at, now),
{
    if observed_at.nanos > now.nanos {
        return false;
    }
    match now.nanos.checked_sub(observed_at.nanos) {
        Some(age) => age < IDLE_PERMIT_WINDOW,
        None => false,
    }
}

/// The end of the window that an observation opens, cut off by the lease.
fn permit_end(observed_at: Timestamp, lease_until: Timestamp) -> (end: Timestamp)
    ensures
        end == authority_model::permit_end(observed_at, lease_until),
{
    match observed_at.nanos.checked_add(IDLE_PERMIT_WINDOW) {
        Some(nanos) => if nanos <= lease_until.nanos {
            Timestamp { nanos }
        } else {
            lease_until
        },
        None => lease_until,
    }
}

/// Single-writer authority. The persistence backend is private and cannot be
/// borrowed mutably by production callers.
pub struct DaemonAuthority<P: Persist> {
    persist: P,
    arms: Table<ArmId, PersistedArm>,
    births: Table<ControllerBirthId, PersistedControllerBirth>,
    ownership: Table<ControllerBirthId, ThreadOwnershipState>,
    claims: Table<AttemptId, PersistedClaimRecord>,
    attachments: Table<AttemptId, PersistedControllerAttachment>,
    attempt_seq: u64,
    now: Timestamp,
}

impl<P: Persist> View for DaemonAuthority<P> {
    type V = AuthorityModel;

    closed spec fn view(&self) -> AuthorityModel {
        AuthorityModel {
            store: self.persist.store(),
            arms: self.arms@,
            births: self.births@,
            ownership: self.ownership@,
            claims: self.claims@,
            attachments: self.attachments@,
            attempt_seq: self.attempt_seq,
            now: self.now,
        }
    }
}

impl<P: Persist> DaemonAuthority<P> {
    pub fn new(persist: P, now: Timestamp) -> (authority: Self)
        ensures
            authority@ == (AuthorityModel {
                store: persist.store(),
                arms: Map::empty(),
                births: Map::empty(),
                ownership: Map::empty(),
                claims: Map::empty(),
                attachments: Map::empty(),
                attempt_seq: 0,
                now,
            }),
    {
        DaemonAuthority {
            persist,
            arms: Table::new(),
            births: Table::new(),
            ownership: Table::new(),
            claims: Table::new(),
            attachments: Table::new(),
            attempt_seq: 0,
            now,
        }
    }

    pub fn set_now(&mut self, now: Timestamp)
        ensures
            final(self)@ == (AuthorityModel { now, ..old(self)@ }),
    {
        self.now = now;
    }

    pub fn register_managed_arm(&mut self, arm: ManagedArmRegistration) -> (result: Result<
        (),
        AuthorityError,
    >)
        ensures
            (final(self)@, result) == old(self)@.register_arm(
                arm.arm_id@,
                arm.generation,
                arm.seat_id@,
                arm.coverage_until,
            ),
    {
        let arm_id = match ArmId::new(arm.arm_id.as_str()) {
            Ok(arm_id) => arm_id,
            Err(_) => return Err(AuthorityError::InvalidIdentifier),
        };
        let seat_id = match SeatId::new(arm.seat_id.as_str()) {
            Ok(seat_id) => seat_id,
            Err(_) => return Err(AuthorityError::InvalidIdentifier),
        };
        let record = PersistedArm {
            arm_id,
            generation: arm.generation,
            seat_id,
            capability: ManagedCapability::HandleClaimedSignal,
            coverage_until: arm.coverage_until,
        };
        if let Err(error) = self.persist.persist_arm(&record) {
            return Err(AuthorityError::from(error));
        }
        self.arms.insert(arm_id, record);
        Ok(())
    }

    /// Whether some birth serves this arm and generation.
    fn generation_born(&self, arm_id: &ArmId, generation: u64) -> (born: bool)
        ensures
            born == self@.generation_born(*arm_id, generation),
    {
        let len: usize = self.births.len();
        let mut i: usize = 0;
        while i < len
            invariant
                i <= len,
                len == self.births.pairs().len(),
                table::lists(self.births.pairs(), self.births@),
                forall|j: int|
                    0 <= j < i ==> !((#[trigger] self.births.pairs()[j]).1.arm_id == *arm_id
                        && self.births.pairs()[j].1.generation == generation),
            decreases len - i,
        {
            let birth = self.births.value_at(i);
            if birth.arm_id.same(arm_id) && birth.generation == generation {
                proof {
                    table::ascending_at(self.births.pairs(), i as int);
                    assert(self@.births.dom().contains(self.births.pairs()[i as int].0));
                }
                return true;
            }
            i += 1;
        }
        proof {
            assert forall|id: ControllerBirthId| #[trigger]
                self@.births.dom().contains(id) implies !(self@.births[id].arm_id == *arm_id
                && self@.births[id].generation == generation) by {
                assert(table::has_key(self.births.pairs(), id));
                let j = choose|j: int|
                    0 <= j < self.births.pairs().len() && (#[trigger] self.births.pairs()[j]).0
                        == id;
                table::ascending_at(self.births.pairs(), j);
            }
        }
        false
    }

    /// Atomically reserve a controller birth and its sole native create.
    pub fn reserve_controller_birth(&mut self, arm_id: &str) -> (result: Result<
        ControllerBirthReservation,
        AuthorityError,
    >)
        ensures
            exists|
                birth_id: Result<ControllerBirthId, EntropyError>,
                create_attempt_id: Result<RequestNonce, EntropyError>,
                verifier_ref: Result<VerifierRef, EntropyError>,
            |
                (final(self)@, result) == #[trigger] old(self)@.reserve_birth(
                    arm_id@,
                    birth_id,
                    create_attempt_id,
                    verifier_ref,
                ),
    {
        let birth_id = ControllerBirthId::random();
        let create_attempt_id = RequestNonce::random();
        let verifier_ref = VerifierRef::random();
        self.reserve_controller_birth_with(arm_id, birth_id, create_attempt_id, verifier_ref)
    }

    /// [`Self::reserve_controller_birth`] with the random values that were drawn.
    pub fn reserve_controller_birth_with(
        &mut self,
        arm_id: &str,
        birth_id: Result<ControllerBirthId, EntropyError>,
        create_attempt_id: Result<RequestNonce, EntropyError>,
        verifier_ref: Result<VerifierRef, EntropyError>,
    ) -> (result: Result<ControllerBirthReservation, AuthorityError>)
        ensures
            (final(self)@, result) == old(self)@.reserve_birth(
                arm_id@,
                birth_id,
                create_attempt_id,
                verifier_ref,
            ),
    {
        let arm_id = match ArmId::new(arm_id) {
            Ok(arm_id) => arm_id,
            Err(_) => return Err(AuthorityError::InvalidIdentifier),
        };
        let arm = match self.arms.get(&arm_id) {
            Some(arm) => *arm,
            None => return Err(AuthorityError::UnknownArm),
        };
        if arm.coverage_until.nanos <= self.now.nanos {
            return Err(AuthorityError::Unauthorized);
        }
        if self.generation_born(&arm_id, arm.generation) {
            return Err(AuthorityError::Conflict);
        }
        let (birth_id, create_attempt_id, verifier_ref) = match (
            birth_id,
            create_attempt_id,
            verifier_ref,
        ) {
            (Ok(birth_id), Ok(create_attempt_id), Ok(verifier_ref)) => (
                birth_id,
                create_attempt_id,
                verifier_ref,
            ),
            _ => return Err(AuthorityError::Entropy),
        };
        let birth = PersistedControllerBirth {
            birth_id,
            seat_id: arm.seat_id,
            arm_id: arm.arm_id,
            generation: arm.generation,
            capability: arm.capability,
            lease_until: arm.coverage_until,
            verifier_ref,
            created_at: self.now,
            revoked: false,
        };
        let create = ThreadCreateReservation {
            birth_id,
            create_attempt_id,
            reserved_at: self.now,
        };
        match self.persist.reserve_controller_birth(&birth, &create) {
            Ok(ReserveBirthOutcome::Reserved) => {},
            Ok(_) => return Err(AuthorityError::Conflict),
            Err(error) => return Err(AuthorityError::from(error)),
        }
        let binding = ControllerBirthBinding {
            birth_id,
            seat_id: birth.seat_id,
            arm_id: birth.arm_id,
            generation: birth.generation,
            capability: birth.capability,
            lease_until: birth.lease_until,
            verifier_ref,
        };
        self.births.insert(birth_id, birth);
        self.ownership.insert(birth_id, ThreadOwnershipState::Reserved { create_attempt_id });
        Ok(ControllerBirthReservation { binding, create_attempt_id })
    }

    /// Commits the resolution of one create.
    fn commit_create(
        &mut self,
        birth_id: ControllerBirthId,
        create_attempt_id: RequestNonce,
        resolution: ThreadCreateResolution,
        evidence_ref: Result<VerifierRef, EntropyError>,
    ) -> (result: Result<IdempotentWrite, AuthorityError>)
        ensures
            (final(self)@, result) == old(self)@.commit_create(
                birth_id,
                create_attempt_id,
                resolution,
                evidence_ref,
            ),
    {
        let evidence_ref = match evidence_ref {
            Ok(evidence_ref) => evidence_ref,
            Err(_) => return Err(AuthorityError::Entropy),
        };
        let write = match self.persist.resolve_thread_create(
            ThreadCreateCommit { birth_id, create_attempt_id, resolution, evidence_ref },
        ) {
            Ok(write) => write,
            Err(error) => return Err(AuthorityError::from(error)),
        };
        let state = match self.persist.thread_ownership_state(&birth_id) {
            Ok(state) => state,
            Err(error) => return Err(AuthorityError::from(error)),
        };
        self.ownership.insert(birth_id, state);
        Ok(write)
    }

    /// Resolve only the exact reserved create. Unknown never causes a resend.
    pub fn resolve_thread_create(
        &mut self,
        reservation: ControllerBirthReservation,
        resolution: ThreadCreateResolution,
    ) -> (result: Result<CreateResolution, AuthorityError>)
        ensures
            exists|evidence_ref: Result<VerifierRef, EntropyError>|
                (final(self)@, result) == #[trigger] old(self)@.resolve_create(
                    reservation,
                    resolution,
                    evidence_ref,
                ),
    {
        let evidence_ref = VerifierRef::random();
        self.resolve_thread_create_with(reservation, resolution, evidence_ref)
    }

    /// [`Self::resolve_thread_create`] with the random value that was drawn.
    pub fn resolve_thread_create_with(
        &mut self,
        reservation: ControllerBirthReservation,
        resolution: ThreadCreateResolution,
        evidence_ref: Result<VerifierRef, EntropyError>,
    ) -> (result: Result<CreateResolution, AuthorityError>)
        ensures
            (final(self)@, result) == old(self)@.resolve_create(
                reservation,
                resolution,
                evidence_ref,
            ),
    {
        let birth_id = reservation.binding.birth_id;
        let create_attempt_id = reservation.create_attempt_id;
        match self.commit_create(birth_id, create_attempt_id, resolution, evidence_ref) {
            Err(error) => Err(error),
            Ok(write) => match resolution {
                ThreadCreateResolution::Unknown => Ok(
                    CreateResolution::Unknown {
                        write,
                        reservation: QuarantinedBirthReservation { birth_id, create_attempt_id },
                    },
                ),
                _ => Ok(CreateResolution::Final(write)),
            },
        }
    }

    /// Resolve a quarantined create definitely.
    pub fn resolve_quarantined_thread_create(
        &mut self,
        reservation: QuarantinedBirthReservation,
        resolution: ThreadCreateResolution,
    ) -> (result: Result<IdempotentWrite, AuthorityError>)
        ensures
            exists|evidence_ref: Result<VerifierRef, EntropyError>|
                (final(self)@, result) == #[trigger] old(self)@.resolve_quarantined(
                    reservation,
                    resolution,
                    evidence_ref,
                ),
    {
        let evidence_ref = VerifierRef::random();
        self.resolve_quarantined_thread_create_with(reservation, resolution, evidence_ref)
    }

    /// [`Self::resolve_quarantined_thread_create`] with the random value that
    /// was drawn.
    pub fn resolve_quarantined_thread_create_with(
        &mut self,
        reservation: QuarantinedBirthReservation,
        resolution: ThreadCreateResolution,
        evidence_ref: Result<VerifierRef, EntropyError>,
    ) -> (result: Result<IdempotentWrite, AuthorityError>)
        ensures
            (final(self)@, result) == old(self)@.resolve_quarantined(
                reservation,
                resolution,
                evidence_ref,
            ),
    {
        if let ThreadCreateResolution::Unknown = resolution {
            return Err(AuthorityError::Conflict);
        }
        self.commit_create(
            reservation.birth_id,
            reservation.create_attempt_id,
            resolution,
            evidence_ref,
        )
    }

    /// The first birth that lives, serves the arm and owns its thread.
    fn owning_birth(&self, arm: &PersistedArm, arm_id: &ArmId) -> (found: Option<ControllerBirthId>)
        ensures
            found == self@.owning_birth(*arm, *arm_id),
    {
        let ghost wanted = |id: ControllerBirthId, birth: PersistedControllerBirth|
            {
                &&& birth.arm_id == *arm_id
                &&& birth.generation == arm.generation
                &&& !birth.revoked
                &&& birth.lease_until.nanos > self@.now.nanos
                &&& self@.ownership.dom().contains(id)
                &&& self@.ownership[id] is Owned
            };
        let len: usize = self.births.len();
        let mut i: usize = 0;
        while i < len
            invariant
                i <= len,
                len == self.births.pairs().len(),
                table::lists(self.births.pairs(), self.births@),
                wanted == (|id: ControllerBirthId, birth: PersistedControllerBirth|
                    {
                        &&& birth.arm_id == *arm_id
                        &&& birth.generation == arm.generation
                        &&& !birth.revoked
                        &&& birth.lease_until.nanos > self@.now.nanos
                        &&& self@.ownership.dom().contains(id)
                        &&& self@.ownership[id] is Owned
                    }),
                forall|j: int|
                    0 <= j < i ==> !wanted(
                        (#[trigger] self.births.pairs()[j]).0,
                        self.births.pairs()[j].1,
                    ),
            decreases len - i,
        {
            let id = self.births.key_at(i);
            let birth = self.births.value_at(i);
            let owned = match self.ownership.get(&id) {
                Some(state) => match state {
                    ThreadOwnershipState::Owned { .. } => true,
                    _ => false,
                },
                None => false,
            };
            if birth.arm_id.same(arm_id) && birth.generation == arm.generation && !birth.revoked
                && birth.lease_until.nanos > self.now.nanos && owned {
                proof {
                    table::first_key_at(self.births.pairs(), self.births@, wanted, i as int);
                }
                return Some(id);
            }
            i += 1;
        }
        proof {
            table::first_key_none(self.births.pairs(), self.births@, wanted);
        }
        None
    }

    /// Admit one claim for the controller that owns its thread.
    pub fn admit_claim(&mut self, request: &ClaimRequest) -> (result: Result<
        AdmissionResult,
        AuthorityError,
    >)
        ensures
            exists|verifier_ref: Result<VerifierRef, EntropyError>|
                admitted(
                    #[trigger] old(self)@.accept_claim(
                        request.arm_id@,
                        request.request_id@,
                        request.signal_id@,
                        protocol::event_models(request.events@),
                        verifier_ref,
                    ),
                    final(self)@,
                    result,
                ),
    {
        let verifier_ref = VerifierRef::random();
        self.admit_claim_with(request, verifier_ref)
    }

    /// [`Self::admit_claim`] with the random value that was drawn.
    pub fn admit_claim_with(
        &mut self,
        request: &ClaimRequest,
        verifier_ref: Result<VerifierRef, EntropyError>,
    ) -> (result: Result<AdmissionResult, AuthorityError>)
        ensures
            admitted(
                old(self)@.accept_claim(
                    request.arm_id@,
                    request.request_id@,
                    request.signal_id@,
                    protocol::event_models(request.events@),
                    verifier_ref,
                ),
                final(self)@,
                result,
            ),
    {
        if let Err(error) = validate_claim_events(&request.events) {
            return Err(error);
        }
        let arm_id = match ArmId::new(request.arm_id.as_str()) {
            Ok(arm_id) => arm_id,
            Err(_) => return Err(AuthorityError::InvalidIdentifier),
        };
        let arm = match self.arms.get(&arm_id) {
            Some(arm) => *arm,
            None => return Err(AuthorityError::UnknownArm),
        };
        let birth_id = match self.owning_birth(&arm, &arm_id) {
            Some(birth_id) => birth_id,
            None => return Err(AuthorityError::NoOwnedController),
        };
        let request_id = match ClaimRequestId::new(request.request_id.as_str()) {
            Ok(request_id) => request_id,
            Err(_) => return Err(AuthorityError::InvalidIdentifier),
        };
        let signal_id = match SignalId::new(request.signal_id.as_str()) {
            Ok(signal_id) => signal_id,
            Err(_) => return Err(AuthorityError::InvalidIdentifier),
        };
        if self.attempt_seq == u64::MAX {
            return Err(AuthorityError::Conflict);
        }
        let attempt_seq: u64 = self.attempt_seq + 1;
        let mut attempt_text = ATTEMPT_PREFIX.to_owned();
        attempt_text.append(decimal_text(attempt_seq).as_str());
        let attempt_id = match AttemptId::new(attempt_text.as_str()) {
            Ok(attempt_id) => attempt_id,
            Err(_) => return Err(AuthorityError::InvalidIdentifier),
        };
        let verifier_ref = match verifier_ref {
            Ok(verifier_ref) => verifier_ref,
            Err(_) => return Err(AuthorityError::Entropy),
        };
        let attachment = PersistedControllerAttachment {
            attempt_id,
            birth_id,
            seat_id: arm.seat_id,
            arm_id: arm.arm_id,
            generation: arm.generation,
            capability: ManagedCapability::HandleClaimedSignal,
            lease_until: arm.coverage_until,
            verifier_ref,
            revoked: false,
        };
        let claim = PersistedClaimRecord {
            attempt_id,
            request_id,
            arm_id: arm.arm_id,
            generation: arm.generation,
            signal_id,
            event_refs: copy_event_refs(&request.events),
            claimed_at: self.now,
        };
        let admission = ClaimAdmission {
            record: claim.dup(),
            events: copy_events(&request.events),
        };
        let record = match self.persist.admit_claim(&admission, &attachment) {
            Ok(record) => record,
            Err(error) => return Err(AuthorityError::from(error)),
        };
        if record.outcome == ClaimOutcome::ExactReplay {
            return Ok(
                AdmissionResult {
                    outcome: record.outcome,
                    attempt_id: record.attempt_id.as_str().to_owned(),
                    receipt: None,
                },
            );
        }
        self.attempt_seq = attempt_seq;
        self.claims.insert(attempt_id, claim);
        self.attachments.insert(attempt_id, attachment);
        Ok(
            AdmissionResult {
                outcome: ClaimOutcome::Admitted,
                attempt_id: attempt_id.as_str().to_owned(),
                receipt: Some(AdmissionReceipt { attempt_id }),
            },
        )
    }

    /// Record dispatch preparation and return only the exact probe scope.
    pub fn prepare_handle_claimed_signal(&mut self, receipt: AdmissionReceipt) -> (result: Result<
        (PreparedDispatch, IdleProbeScope),
        AuthorityError,
    >)
        ensures
            exists|
                turn_write_id: Result<RequestNonce, EntropyError>,
                probe_id: Result<RequestNonce, EntropyError>,
            |
                (final(self)@, result) == #[trigger] old(self)@.prepare(
                    receipt,
                    turn_write_id,
                    probe_id,
                ),
    {
        let turn_write_id = RequestNonce::random();
        let probe_id = RequestNonce::random();
        self.prepare_handle_claimed_signal_with(receipt, turn_write_id, probe_id)
    }

    /// [`Self::prepare_handle_claimed_signal`] with the random values that were
    /// drawn.
    pub fn prepare_handle_claimed_signal_with(
        &mut self,
        receipt: AdmissionReceipt,
        turn_write_id: Result<RequestNonce, EntropyError>,
        probe_id: Result<RequestNonce, EntropyError>,
    ) -> (result: Result<(PreparedDispatch, IdleProbeScope), AuthorityError>)
        ensures
            (final(self)@, result) == old(self)@.prepare(receipt, turn_write_id, probe_id),
    {
        let signal_id = match self.claims.get(&receipt.attempt_id) {
            Some(claim) => claim.signal_id,
            None => return Err(AuthorityError::Conflict),
        };
        let attachment = match self.attachments.get(&receipt.attempt_id) {
            Some(attachment) => *attachment,
            None => return Err(AuthorityError::Unauthorized),
        };
        if let Err(error) = self.validate_attachment(&attachment) {
            return Err(error);
        }
        let state = match self.ownership.get(&attachment.birth_id) {
            Some(state) => *state,
            None => return Err(AuthorityError::NoOwnedController),
        };
        let thread_ref = match state {
            ThreadOwnershipState::Owned { thread_ref, .. } => thread_ref,
            _ => return Err(AuthorityError::NoOwnedController),
        };
        let turn_write_id = match turn_write_id {
            Ok(turn_write_id) => turn_write_id,
            Err(_) => return Err(AuthorityError::Entropy),
        };
        let correlation = PersistedTurnCorrelation {
            attempt_id: receipt.attempt_id,
            signal_id,
            birth_id: attachment.birth_id,
            thread_ref,
            turn_write_id,
            turn_ref: None,
        };
        if let Err(error) = self.persist.record_dispatch_prepared(
            PreparedDispatchCommit { correlation },
        ) {
            return Err(AuthorityError::from(error));
        }
        let expected_probe_id = match probe_id {
            Ok(probe_id) => probe_id,
            Err(_) => return Err(AuthorityError::Entropy),
        };
        let scope = IdleProbeScope {
            binding: ProbeBinding {
                attachment: controller_attachment(&attachment),
                signal_id,
                thread_ref,
                challenge_id: expected_probe_id,
            },
        };
        Ok((PreparedDispatch { attachment, correlation, expected_probe_id }, scope))
    }

    /// Validate an exact probe. Active and unproven paths only record
    /// zero-write conclusions and never construct a command.
    pub fn authorize_probe(
        &mut self,
        prepared: PreparedDispatch,
        result: Result<IdleProbeResult, ControllerProbeError>,
    ) -> (authorized: Result<ProbeAuthorization, AuthorityError>)
        ensures
            (final(self)@, authorized) == old(self)@.authorize(prepared, result),
    {
        if let Err(error) = self.validate_attachment(&prepared.attachment) {
            return Err(error);
        }
        let observed = match result {
            Ok(observed) => observed,
            Err(error) => return Err(AuthorityError::ControllerProbe(error)),
        };
        match observed {
            IdleProbeResult::Active(evidence) => {
                if !self.validate_active_proof(&prepared, &evidence) {
                    return Err(AuthorityError::Unauthorized);
                }
                match self.persist.record_active_hold(ActiveHoldCommit { evidence }) {
                    Ok(_) => Ok(ProbeAuthorization::HeldBeforeNativeWrite),
                    Err(error) => Err(AuthorityError::from(error)),
                }
            },
            IdleProbeResult::Unproven(
                IdleProbeObservation::Unproven { binding, probe_id, observed_at },
            ) => {
                if !self.validate_probe_binding(&prepared, &binding, &probe_id, observed_at) {
                    return Err(AuthorityError::Unauthorized);
                }
                match self.persist.record_prewrite_conclusion(
                    PreWriteConclusionCommit {
                        attempt_id: prepared.correlation.attempt_id,
                        signal_id: prepared.correlation.signal_id,
                        conclusion: PreWriteConclusion::IdleStateUnproven,
                        recorded_at: observed_at,
                    },
                ) {
                    Ok(_) => Ok(ProbeAuthorization::IdleStateUnproven),
                    Err(error) => Err(AuthorityError::from(error)),
                }
            },
            IdleProbeResult::Idle {
                observation: IdleProbeObservation::Idle { binding, probe_id, epoch, observed_at },
                lane,
            } => {
                if !self.validate_probe_binding(&prepared, &binding, &probe_id, observed_at) {
                    return Err(AuthorityError::Unauthorized);
                }
                if !lane.probe_id.same(&probe_id) || !lane.epoch.same(&epoch)
                    || !epoch.birth_id.same(&prepared.correlation.birth_id) {
                    return Err(AuthorityError::Unauthorized);
                }
                let permit = ValidatedIdlePermit {
                    attempt_id: prepared.correlation.attempt_id,
                    signal_id: prepared.correlation.signal_id,
                    birth_id: prepared.correlation.birth_id,
                    thread_ref: prepared.correlation.thread_ref,
                    arm_id: prepared.attachment.arm_id,
                    generation: prepared.attachment.generation,
                    capability: prepared.attachment.capability,
                    verifier_ref: prepared.attachment.verifier_ref,
                    mutation_epoch: epoch,
                    probe_id,
                    observed_at,
                    valid_until: permit_end(observed_at, prepared.attachment.lease_until),
                };
                let reservation = match self.persist.reserve_native_turn_write(
                    permit,
                    &prepared.correlation,
                ) {
                    Ok(reservation) => reservation,
                    Err(error) => return Err(AuthorityError::from(error)),
                };
                let command = ControllerCommand::from_reservation(
                    controller_attachment(&prepared.attachment),
                    SignalAction { signal_id: prepared.correlation.signal_id },
                    reservation,
                );
                Ok(
                    ProbeAuthorization::Ready(
                        Box::new(AuthorizedNativeWrite { prepared, lane, command }),
                    ),
                )
            },
            _ => Err(AuthorityError::Unauthorized),
        }
    }

    /// Persist the classified native boundary. Epoch invalidation is a
    /// pre-write conclusion, not ambiguous native acceptance.
    pub fn conclude_native_write(
        &mut self,
        prepared: PreparedDispatch,
        disposition: Result<NativeWriteDisposition, ControllerWriteError>,
    ) -> (result: Result<NativeWriteConclusion, AuthorityError>)
        ensures
            exists|
                evidence_ref: Result<VerifierRef, EntropyError>,
                fact_ref: Result<VerifierRef, EntropyError>,
            |
                (final(self)@, result) == #[trigger] old(self)@.conclude(
                    prepared,
                    disposition,
                    evidence_ref,
                    fact_ref,
                ),
    {
        let evidence_ref = VerifierRef::random();
        let fact_ref = VerifierRef::random();
        self.conclude_native_write_with(prepared, disposition, evidence_ref, fact_ref)
    }

    /// [`Self::conclude_native_write`] with the random values that were drawn.
    pub fn conclude_native_write_with(
        &mut self,
        prepared: PreparedDispatch,
        disposition: Result<NativeWriteDisposition, ControllerWriteError>,
        evidence_ref: Result<VerifierRef, EntropyError>,
        fact_ref: Result<VerifierRef, EntropyError>,
    ) -> (result: Result<NativeWriteConclusion, AuthorityError>)
        ensures
            (final(self)@, result) == old(self)@.conclude(
                prepared,
                disposition,
                evidence_ref,
                fact_ref,
            ),
    {
        let disposition = match disposition {
            Ok(disposition) => disposition,
            Err(_) => return Err(AuthorityError::Unauthorized),
        };
        let evidence = match disposition {
            NativeWriteDisposition::IdleEpochInvalidated {
                probe_id,
                expected_epoch,
                observed_epoch,
            } => {
                return match self.persist.record_prewrite_conclusion(
                    PreWriteConclusionCommit {
                        attempt_id: prepared.correlation.attempt_id,
                        signal_id: prepared.correlation.signal_id,
                        conclusion: PreWriteConclusion::IdleEpochInvalidated {
                            probe_id,
                            expected_epoch,
                            observed_epoch,
                        },
                        recorded_at: self.now,
                    },
                ) {
                    Ok(_) => Ok(
                        NativeWriteConclusion {
                            disposition,
                            observation_scope: None,
                            reconciliation_scope: None,
                        },
                    ),
                    Err(error) => Err(AuthorityError::from(error)),
                };
            },
            NativeWriteDisposition::ProvenNotAccepted => NativeWriteEvidence::ProvenNotAccepted,
            NativeWriteDisposition::Accepted { .. } => NativeWriteEvidence::WriterAccepted {
                write_id: prepared.correlation.turn_write_id,
            },
            NativeWriteDisposition::ExactResponse(fact) => NativeWriteEvidence::ExactResponse {
                fact,
            },
            NativeWriteDisposition::Unknown => NativeWriteEvidence::Unknown,
        };
        let evidence_ref = match evidence_ref {
            Ok(evidence_ref) => evidence_ref,
            Err(_) => return Err(AuthorityError::Entropy),
        };
        let written = prepared.correlation;
        if let Err(error) = self.persist.record_native_write_evidence(
            NativeWriteEvidenceCommit { correlation: written, evidence, evidence_ref },
        ) {
            return Err(AuthorityError::from(error));
        }
        let fact = match disposition {
            NativeWriteDisposition::Accepted { turn_ref } => NativeTurnFact::Accepted { turn_ref },
            NativeWriteDisposition::ExactResponse(fact) => fact,
            NativeWriteDisposition::Unknown => {
                return Ok(
                    NativeWriteConclusion {
                        disposition,
                        observation_scope: None,
                        reconciliation_scope: Some(
                            ReconciliationScope { correlation: written, evidence_ref },
                        ),
                    },
                );
            },
            _ => {
                return Ok(
                    NativeWriteConclusion {
                        disposition,
                        observation_scope: None,
                        reconciliation_scope: None,
                    },
                );
            },
        };
        let correlation = match fact.turn_ref() {
            Some(turn_ref) => PersistedTurnCorrelation { turn_ref: Some(turn_ref), ..written },
            None => written,
        };
        let fact_ref = match fact_ref {
            Ok(fact_ref) => fact_ref,
            Err(_) => return Err(AuthorityError::Entropy),
        };
        if let Err(error) = self.persist.record_native_turn_fact(
            NativeTurnFactCommit { correlation, fact, evidence_ref: fact_ref },
        ) {
            return Err(AuthorityError::from(error));
        }
        Ok(
            NativeWriteConclusion {
                disposition,
                observation_scope: Some(ObservationScope { correlation, evidence_ref }),
                reconciliation_scope: None,
            },
        )
    }

    /// Record one exact observation. A fact that names no turn leads to
    /// reconciliation.
    pub fn record_exact_observation(&mut self, scope: &ObservationScope, fact: NativeTurnFact) -> (
        result: Result<ExactObservationRecord, AuthorityError>)
        ensures
            exists|evidence_ref: Result<VerifierRef, EntropyError>|
                (final(self)@, result) == #[trigger] old(self)@.observe(*scope, fact, evidence_ref),
    {
        let evidence_ref = VerifierRef::random();
        self.record_exact_observation_with(scope, fact, evidence_ref)
    }

    /// [`Self::record_exact_observation`] with the random value that was drawn.
    pub fn record_exact_observation_with(
        &mut self,
        scope: &ObservationScope,
        fact: NativeTurnFact,
        evidence_ref: Result<VerifierRef, EntropyError>,
    ) -> (result: Result<ExactObservationRecord, AuthorityError>)
        ensures
            (final(self)@, result) == old(self)@.observe(*scope, fact, evidence_ref),
    {
        let degraded = fact.turn_ref().is_none();
        let evidence_ref = match evidence_ref {
            Ok(evidence_ref) => evidence_ref,
            Err(_) => return Err(AuthorityError::Entropy),
        };
        let write = match self.persist.record_native_turn_fact(
            NativeTurnFactCommit { correlation: scope.correlation, fact, evidence_ref },
        ) {
            Ok(write) => write,
            Err(error) => return Err(AuthorityError::from(error)),
        };
        let reconciliation = if degraded {
            Some(
                ReconciliationScope {
                    correlation: scope.correlation,
                    evidence_ref: scope.evidence_ref,
                },
            )
        } else {
            None
        };
        Ok(ExactObservationRecord { write, reconciliation })
    }

    /// Record one reconciliation and say what it leads to.
    pub fn record_reconciliation(
        &mut self,
        scope: &ReconciliationScope,
        disposition: Result<ReconciliationDisposition, ControllerReconcileError>,
    ) -> (result: Result<(IdempotentWrite, ReconciliationPhase), AuthorityError>)
        ensures
            exists|fact_ref: Result<VerifierRef, EntropyError>|
                (final(self)@, result) == #[trigger] old(self)@.reconcile(
                    *scope,
                    disposition,
                    fact_ref,
                ),
    {
        let fact_ref = VerifierRef::random();
        self.record_reconciliation_with(scope, disposition, fact_ref)
    }

    /// [`Self::record_reconciliation`] with the random value that was drawn.
    pub fn record_reconciliation_with(
        &mut self,
        scope: &ReconciliationScope,
        disposition: Result<ReconciliationDisposition, ControllerReconcileError>,
        fact_ref: Result<VerifierRef, EntropyError>,
    ) -> (result: Result<(IdempotentWrite, ReconciliationPhase), AuthorityError>)
        ensures
            (final(self)@, result) == old(self)@.reconcile(*scope, disposition, fact_ref),
    {
        let disposition = match disposition {
            Ok(disposition) => disposition,
            Err(_) => return Err(AuthorityError::Unauthorized),
        };
        let write = match self.persist.record_reconciliation_fact(scope, &disposition) {
            Ok(write) => write,
            Err(error) => return Err(AuthorityError::from(error)),
        };
        let (turn_ref, fact) = match disposition {
            ReconciliationDisposition::Unknown => {
                return Ok((write, ReconciliationPhase::Reconciling));
            },
            ReconciliationDisposition::ProvenNotAccepted => {
                return Ok((write, ReconciliationPhase::Closed));
            },
            ReconciliationDisposition::Accepted { turn_ref } => (
                turn_ref,
                NativeTurnFact::Accepted { turn_ref },
            ),
            ReconciliationDisposition::Terminal { turn_ref, class } => (
                turn_ref,
                NativeTurnFact::Terminal { turn_ref, class },
            ),
        };
        let correlation = PersistedTurnCorrelation {
            turn_ref: Some(turn_ref),
            ..scope.correlation
        };
        let evidence_ref = match fact_ref {
            Ok(fact_ref) => fact_ref,
            Err(_) => return Err(AuthorityError::Entropy),
        };
        if let Err(error) = self.persist.record_native_turn_fact(
            NativeTurnFactCommit { correlation, fact, evidence_ref },
        ) {
            return Err(AuthorityError::from(error));
        }
        match disposition {
            ReconciliationDisposition::Accepted { .. } => Ok(
                (
                    write,
                    ReconciliationPhase::Observing(
                        Box::new(
                            ObservationScope { correlation, evidence_ref: scope.evidence_ref },
                        ),
                    ),
                ),
            ),
            _ => Ok((write, ReconciliationPhase::Closed)),
        }
    }

    /// The key of the attachment with this text.
    fn attachment_key(&self, attempt_id: &str) -> (found: Option<AttemptId>)
        ensures
            found == self@.attachment_key(attempt_id@),
            found matches Some(key) ==> self@.attachments.dom().contains(key),
    {
        let ghost wanted = |id: AttemptId, attachment: PersistedControllerAttachment|
            id.chars() == attempt_id@;
        let len: usize = self.attachments.len();
        let mut i: usize = 0;
        while i < len
            invariant
                i <= len,
                len == self.attachments.pairs().len(),
                table::lists(self.attachments.pairs(), self.attachments@),
                wanted == (|id: AttemptId, attachment: PersistedControllerAttachment|
                    id.chars() == attempt_id@),
                forall|j: int|
                    0 <= j < i ==> !wanted(
                        (#[trigger] self.attachments.pairs()[j]).0,
                        self.attachments.pairs()[j].1,
                    ),
            decreases len - i,
        {
            let id = self.attachments.key_at(i);
            if same_text(id.as_str(), attempt_id) {
                proof {
                    table::first_key_at(
                        self.attachments.pairs(),
                        self.attachments@,
                        wanted,
                        i as int,
                    );
                }
                return Some(id);
            }
            i += 1;
        }
        proof {
            table::first_key_none(self.attachments.pairs(), self.attachments@, wanted);
        }
        None
    }

    pub fn revoke_attachment(&mut self, attempt_id: &str) -> (result: Result<
        IdempotentWrite,
        AuthorityError,
    >)
        ensures
            (final(self)@, result) == old(self)@.revoke(attempt_id@),
    {
        let key = match self.attachment_key(attempt_id) {
            Some(key) => key,
            None => return Err(AuthorityError::Unauthorized),
        };
        let attachment = match self.attachments.get(&key) {
            Some(attachment) => *attachment,
            None => return Err(AuthorityError::Unauthorized),
        };
        let write = match self.persist.revoke_controller_attachment(
            ValidatedAttachmentScope {
                attempt_id: attachment.attempt_id,
                birth_id: attachment.birth_id,
                arm_id: attachment.arm_id,
                generation: attachment.generation,
                verifier_ref: attachment.verifier_ref,
            },
        ) {
            Ok(write) => write,
            Err(error) => return Err(AuthorityError::from(error)),
        };
        self.attachments.insert(key, PersistedControllerAttachment { revoked: true, ..attachment });
        Ok(write)
    }

    /// Whether a probe answered exactly the challenge of the prepared dispatch.
    fn validate_probe_binding(
        &self,
        prepared: &PreparedDispatch,
        binding: &ProbeBinding,
        probe_id: &RequestNonce,
        observed_at: Timestamp,
    ) -> (valid: bool)
        ensures
            valid == self@.probe_bound(*prepared, *binding, *probe_id, observed_at),
    {
        binding.attachment.attempt_id.same(&prepared.correlation.attempt_id)
            && binding.signal_id.same(&prepared.correlation.signal_id)
            && binding.attachment.birth_id.same(&prepared.correlation.birth_id)
            && binding.thread_ref.same(&prepared.correlation.thread_ref)
            && binding.challenge_id.same(&prepared.expected_probe_id) && probe_id.same(
            &prepared.expected_probe_id,
        ) && binding.attachment.arm_id.same(&prepared.attachment.arm_id)
            && binding.attachment.generation == prepared.attachment.generation
            && binding.attachment.seat_id.same(&prepared.attachment.seat_id)
            && binding.attachment.capability == prepared.attachment.capability
            && binding.attachment.lease_until == prepared.attachment.lease_until
            && binding.attachment.verifier_ref.same(&prepared.attachment.verifier_ref) && is_recent(
            observed_at,
            self.now,
        )
    }

    /// Whether active evidence is for exactly the prepared dispatch. The epoch
    /// sequence is evidence from the controller; durable replay binds it
    /// into the keyed fingerprint.
    fn validate_active_proof(
        &self,
        prepared: &PreparedDispatch,
        evidence: &ActiveObservationProof,
    ) -> (valid: bool)
        ensures
            valid == self@.active_bound(*prepared, evidence@),
    {
        let owned = match self.ownership.get(&evidence.birth_id) {
            Some(owned) => *owned,
            None => return false,
        };
        let expected = ThreadOwnershipState::Owned {
            create_attempt_id: evidence.create_attempt_id,
            thread_ref: evidence.thread_ref,
        };
        evidence.attempt_id.same(&prepared.correlation.attempt_id) && evidence.signal_id.same(
            &prepared.correlation.signal_id,
        ) && evidence.birth_id.same(&prepared.correlation.birth_id) && evidence.thread_ref.same(
            &prepared.correlation.thread_ref,
        ) && evidence.probe_id.same(&prepared.expected_probe_id) && evidence.seat_id.same(
            &prepared.attachment.seat_id,
        ) && evidence.arm_id.same(&prepared.attachment.arm_id) && evidence.generation
            == prepared.attachment.generation && evidence.capability
            == prepared.attachment.capability && evidence.attachment_verifier_ref.same(
            &prepared.attachment.verifier_ref,
        ) && evidence.lease_until == prepared.attachment.lease_until
            && evidence.mutation_epoch.birth_id.same(&evidence.birth_id) && is_recent(
            evidence.observed_at,
            self.now,
        ) && self.now.nanos < evidence.lease_until.nanos && same_text(
            evidence.producer_version.as_str(),
            PRODUCER_VERSION,
        ) && same_text(evidence.producer_dialect.as_str(), PRODUCER_DIALECT) && owned.same(
            &expected,
        )
    }

    /// Whether an attachment is the current one and everything behind it holds.
    fn validate_attachment(&self, attachment: &PersistedControllerAttachment) -> (verdict: Result<
        (),
        AuthorityError,
    >)
        ensures
            verdict == self@.attachment_verdict(*attachment),
    {
        let current = match self.attachments.get(&attachment.attempt_id) {
            Some(current) => *current,
            None => return Err(AuthorityError::Unauthorized),
        };
        let birth = match self.births.get(&attachment.birth_id) {
            Some(birth) => *birth,
            None => return Err(AuthorityError::Unauthorized),
        };
        let arm = match self.arms.get(&attachment.arm_id) {
            Some(arm) => *arm,
            None => return Err(AuthorityError::UnknownArm),
        };
        if !current.same(attachment) || current.revoked || birth.revoked
            || attachment.lease_until.nanos <= self.now.nanos || birth.lease_until.nanos
            <= self.now.nanos || !attachment.seat_id.same(&birth.seat_id)
            || !attachment.arm_id.same(&birth.arm_id) || attachment.generation != birth.generation
            || attachment.generation != arm.generation || attachment.capability
            != ManagedCapability::HandleClaimedSignal {
            return Err(AuthorityError::Unauthorized);
        }
        Ok(())
    }

    /// The persistence backend, for inspection.
    pub fn inspect_persist(&self) -> (persist: &P)
        ensures
            persist.store() == self@.store,
    {
        &self.persist
    }

    /// The verifier of an attachment.
    pub fn attachment_verifier(&self, attempt_id: &str) -> (verifier: Option<VerifierRef>)
        ensures
            verifier == match self@.attachment_key(attempt_id@) {
                Some(key) => Some(self@.attachments[key].verifier_ref),
                None => None,
            },
    {
        let key = match self.attachment_key(attempt_id) {
            Some(key) => key,
            None => return None,
        };
        match self.attachments.get(&key) {
            Some(attachment) => Some(attachment.verifier_ref),
            None => None,
        }
    }
}

/// What recovery found and what is left to do.
pub struct AuthorityRecovery {
    pub snapshot: RecoverySnapshot,
    pub observation_scopes: Vec<ObservationScope>,
    pub reconciliation_scopes: Vec<ReconciliationScope>,
}

impl AuthorityRecovery {
    pub fn into_followup_scopes(self) -> (scopes: (
        Vec<ObservationScope>,
        Vec<ReconciliationScope>,
    ))
        ensures
            scopes == (self.observation_scopes, self.reconciliation_scopes),
    {
        (self.observation_scopes, self.reconciliation_scopes)
    }
}

/// Whether no attempt has two lists of facts or two reconciliations.
fn followups_consistent(snapshot: &RecoverySnapshot) -> (consistent: bool)
    ensures
        consistent == authority_model::followups_consistent(*snapshot),
{
    let mut i: usize = 0;
    while i < snapshot.reconciliations.len()
        invariant
            i <= snapshot.reconciliations@.len(),
            forall|a: int, b: int|
                #![trigger snapshot.reconciliations@[a], snapshot.reconciliations@[b]]
                0 <= a < b < i ==> snapshot.reconciliations@[a].attempt_id
                    != snapshot.reconciliations@[b].attempt_id,
        decreases snapshot.reconciliations.len() - i,
    {
        let mut j: usize = 0;
        while j < i
            invariant
                j <= i < snapshot.reconciliations@.len(),
                forall|a: int|
                    0 <= a < j ==> (#[trigger] snapshot.reconciliations@[a]).attempt_id
                        != snapshot.reconciliations@[i as int].attempt_id,
            decreases i - j,
        {
            if snapshot.reconciliations[j].attempt_id.same(
                &snapshot.reconciliations[i].attempt_id,
            ) {
                return false;
            }
            j += 1;
        }
        i += 1;
    }
    let mut i: usize = 0;
    while i < snapshot.native_turn_facts.len()
        invariant
            i <= snapshot.native_turn_facts@.len(),
            forall|a: int, b: int|
                #![trigger snapshot.native_turn_facts@[a], snapshot.native_turn_facts@[b]]
                0 <= a < b < i ==> snapshot.native_turn_facts@[a].attempt_id
                    != snapshot.native_turn_facts@[b].attempt_id,
        decreases snapshot.native_turn_facts.len() - i,
    {
        let mut j: usize = 0;
        while j < i
            invariant
                j <= i < snapshot.native_turn_facts@.len(),
                forall|a: int|
                    0 <= a < j ==> (#[trigger] snapshot.native_turn_facts@[a]).attempt_id
                        != snapshot.native_turn_facts@[i as int].attempt_id,
            decreases i - j,
        {
            if snapshot.native_turn_facts[j].attempt_id.same(
                &snapshot.native_turn_facts[i].attempt_id,
            ) {
                return false;
            }
            j += 1;
        }
        i += 1;
    }
    true
}

/// The facts that a consistent snapshot lists for an attempt.
fn facts_for(snapshot: &RecoverySnapshot, id: &AttemptId) -> (facts: Vec<NativeTurnFact>)
    requires
        authority_model::followups_consistent(*snapshot),
    ensures
        facts@ == authority_model::snapshot_facts(*snapshot, *id),
{
    let mut i: usize = 0;
    while i < snapshot.native_turn_facts.len()
        invariant
            i <= snapshot.native_turn_facts@.len(),
            authority_model::followups_consistent(*snapshot),
            forall|a: int|
                0 <= a < i ==> (#[trigger] snapshot.native_turn_facts@[a]).attempt_id != *id,
        decreases snapshot.native_turn_facts.len() - i,
    {
        if snapshot.native_turn_facts[i].attempt_id.same(id) {
            let found = copy_facts(&snapshot.native_turn_facts[i].facts);
            proof {
                assert(snapshot.native_turn_facts@[i as int].attempt_id == *id);
                let k = choose|k: int|
                    0 <= k < snapshot.native_turn_facts@.len() && (
                    #[trigger] snapshot.native_turn_facts@[k]).attempt_id == *id;
                assert(k == i);
            }
            return found;
        }
        i += 1;
    }
    Vec::new()
}

/// The reconciliation that a consistent snapshot lists for an attempt.
fn reconciliation_for(snapshot: &RecoverySnapshot, id: &AttemptId) -> (found: Option<
    ReconciliationDisposition,
>)
    requires
        authority_model::followups_consistent(*snapshot),
    ensures
        found == authority_model::snapshot_reconciliation(*snapshot, *id),
{
    let mut i: usize = 0;
    while i < snapshot.reconciliations.len()
        invariant
            i <= snapshot.reconciliations@.len(),
            authority_model::followups_consistent(*snapshot),
            forall|a: int|
                0 <= a < i ==> (#[trigger] snapshot.reconciliations@[a]).attempt_id != *id,
        decreases snapshot.reconciliations.len() - i,
    {
        if snapshot.reconciliations[i].attempt_id.same(id) {
            proof {
                assert(snapshot.reconciliations@[i as int].attempt_id == *id);
                let k = choose|k: int|
                    0 <= k < snapshot.reconciliations@.len() && (
                    #[trigger] snapshot.reconciliations@[k]).attempt_id == *id;
                assert(k == i);
            }
            return Some(snapshot.reconciliations[i].disposition);
        }
        i += 1;
    }
    None
}

/// Whether some fact ends the turn.
fn has_terminal(facts: &Vec<NativeTurnFact>) -> (found: bool)
    ensures
        found == authority_model::has_terminal(facts@),
{
    let mut i: usize = 0;
    while i < facts.len()
        invariant
            i <= facts@.len(),
            forall|j: int| 0 <= j < i ==> !(#[trigger] facts@[j] is Terminal),
        decreases facts.len() - i,
    {
        if let NativeTurnFact::Terminal { .. } = facts[i] {
            assert(facts@[i as int] is Terminal);
            return true;
        }
        i += 1;
    }
    false
}

/// The turn of the first fact that shows a turn accepted or started.
fn first_started(facts: &Vec<NativeTurnFact>) -> (found: Option<PrivateNativeRef>)
    ensures
        found == authority_model::first_started(facts@),
{
    let mut i: usize = 0;
    assert(facts@.skip(0) =~= facts@);
    while i < facts.len()
        invariant
            i <= facts@.len(),
            authority_model::first_started(facts@) == authority_model::first_started(
                facts@.skip(i as int),
            ),
        decreases facts.len() - i,
    {
        assert(facts@.skip(i as int)[0] == facts@[i as int]);
        match facts[i] {
            NativeTurnFact::Accepted { turn_ref } => return Some(turn_ref),
            NativeTurnFact::Started { turn_ref } => return Some(turn_ref),
            _ => {},
        }
        assert(facts@.skip(i as int).drop_first() =~= facts@.skip(i + 1));
        i += 1;
    }
    None
}

/// The exact scopes that recovered writes still need. Terminal facts and proven
/// rejections need none.
pub fn recovery_followup_scopes(snapshot: &RecoverySnapshot) -> (result: Result<
    (Vec<ObservationScope>, Vec<ReconciliationScope>),
    AuthorityError,
>)
    ensures
        match result {
            Ok((observing, reconciling)) => {
                &&& authority_model::followups_consistent(*snapshot)
                &&& observing@ == authority_model::observations_left(
                    *snapshot,
                    snapshot.native_write_evidence@.len() as int,
                )
                &&& reconciling@ == authority_model::reconciliations_left(
                    *snapshot,
                    snapshot.native_write_evidence@.len() as int,
                )
            },
            Err(error) => error == AuthorityError::Conflict
                && !authority_model::followups_consistent(*snapshot),
        },
{
    if !followups_consistent(snapshot) {
        return Err(AuthorityError::Conflict);
    }
    let mut observing: Vec<ObservationScope> = Vec::new();
    let mut reconciling: Vec<ReconciliationScope> = Vec::new();
    let mut i: usize = 0;
    while i < snapshot.native_write_evidence.len()
        invariant
            i <= snapshot.native_write_evidence@.len(),
            authority_model::followups_consistent(*snapshot),
            observing@ == authority_model::observations_left(*snapshot, i as int),
            reconciling@ == authority_model::reconciliations_left(*snapshot, i as int),
        decreases snapshot.native_write_evidence.len() - i,
    {
        let record = snapshot.native_write_evidence[i];
        let facts = facts_for(snapshot, &record.correlation.attempt_id);
        let reconciliation = reconciliation_for(snapshot, &record.correlation.attempt_id);
        let evidence_ref = record.evidence_ref;
        if !has_terminal(&facts) {
            match record.evidence {
                NativeWriteEvidence::Unknown => match reconciliation {
                    None => {
                        reconciling.push(
                            ReconciliationScope { correlation: record.correlation, evidence_ref },
                        );
                    },
                    Some(ReconciliationDisposition::Unknown) => {
                        reconciling.push(
                            ReconciliationScope { correlation: record.correlation, evidence_ref },
                        );
                    },
                    Some(ReconciliationDisposition::Accepted { turn_ref }) => {
                        let correlation = PersistedTurnCorrelation {
                            turn_ref: Some(turn_ref),
                            ..record.correlation
                        };
                        observing.push(ObservationScope { correlation, evidence_ref });
                    },
                    _ => {},
                },
                NativeWriteEvidence::ProvenNotAccepted => {},
                _ => {
                    if let Some(turn_ref) = first_started(&facts) {
                        let correlation = PersistedTurnCorrelation {
                            turn_ref: Some(turn_ref),
                            ..record.correlation
                        };
                        observing.push(ObservationScope { correlation, evidence_ref });
                    }
                },
            }
        }
        i += 1;
    }
    Ok((observing, reconciling))
}

/// Births by identifier, where none is listed twice.
fn index_births(births: &Vec<PersistedControllerBirth>) -> (index: Option<
    Table<ControllerBirthId, PersistedControllerBirth>,
>)
    ensures
        match index {
            Some(index) => authority_model::births_distinct(births@) && index@
                == authority_model::birth_index(births@),
            None => !authority_model::births_distinct(births@),
        },
{
    let mut index: Table<ControllerBirthId, PersistedControllerBirth> = Table::new();
    let mut i: usize = 0;
    assert(births@.take(0) =~= Seq::<PersistedControllerBirth>::empty());
    while i < births.len()
        invariant
            i <= births@.len(),
            index@ == authority_model::birth_index(births@.take(i as int)),
            forall|id: ControllerBirthId| #[trigger]
                index@.dom().contains(id) <==> exists|a: int|
                    0 <= a < i && (#[trigger] births@[a]).birth_id == id,
            forall|a: int, b: int|
                #![trigger births@[a], births@[b]]
                0 <= a < b < i ==> births@[a].birth_id != births@[b].birth_id,
        decreases births.len() - i,
    {
        let birth = births[i];
        if index.contains(&birth.birth_id) {
            proof {
                let a = choose|a: int|
                    0 <= a < i && (#[trigger] births@[a]).birth_id == birth.birth_id;
                assert(births@[a].birth_id == births@[i as int].birth_id);
            }
            return None;
        }
        let ghost before = index@;
        index.insert(birth.birth_id, birth);
        proof {
            assert(births@.take(i + 1).drop_last() =~= births@.take(i as int));
            assert(births@.take(i + 1).last() == birth);
            assert forall|id: ControllerBirthId| #[trigger]
                index@.dom().contains(id) <==> exists|a: int|
                    0 <= a < i + 1 && (#[trigger] births@[a]).birth_id == id by {
                if before.dom().contains(id) {
                    let a = choose|a: int| 0 <= a < i && (#[trigger] births@[a]).birth_id == id;
                    assert(births@[a].birth_id == id);
                }
                assert(births@[i as int].birth_id == birth.birth_id);
            }
        }
        i += 1;
    }
    assert(births@.take(births@.len() as int) =~= births@);
    Some(index)
}

/// Ownership states by birth, where none is listed twice and each has a birth.
fn index_ownership(
    records: &Vec<PersistedThreadOwnership>,
    births: &Table<ControllerBirthId, PersistedControllerBirth>,
    Ghost(list): Ghost<Seq<PersistedControllerBirth>>,
) -> (index: Option<Table<ControllerBirthId, ThreadOwnershipState>>)
    requires
        births@ == authority_model::birth_index(list),
    ensures
        match index {
            Some(index) => authority_model::ownership_consistent(records@, list) && index@
                == authority_model::ownership_index(records@),
            None => !authority_model::ownership_consistent(records@, list),
        },
{
    let mut index: Table<ControllerBirthId, ThreadOwnershipState> = Table::new();
    let mut i: usize = 0;
    assert(records@.take(0) =~= Seq::<PersistedThreadOwnership>::empty());
    while i < records.len()
        invariant
            i <= records@.len(),
            births@ == authority_model::birth_index(list),
            index@ == authority_model::ownership_index(records@.take(i as int)),
            forall|id: ControllerBirthId| #[trigger]
                index@.dom().contains(id) <==> exists|a: int|
                    0 <= a < i && (#[trigger] records@[a]).birth_id == id,
            forall|a: int, b: int|
                #![trigger records@[a], records@[b]]
                0 <= a < b < i ==> records@[a].birth_id != records@[b].birth_id,
            forall|a: int|
                0 <= a < i ==> births@.dom().contains((#[trigger] records@[a]).birth_id),
        decreases records.len() - i,
    {
        let record = records[i];
        if index.contains(&record.birth_id) {
            proof {
                let a = choose|a: int|
                    0 <= a < i && (#[trigger] records@[a]).birth_id == record.birth_id;
                assert(records@[a].birth_id == records@[i as int].birth_id);
            }
            return None;
        }
        if !births.contains(&record.birth_id) {
            assert(!births@.dom().contains(records@[i as int].birth_id));
            return None;
        }
        let ghost before = index@;
        index.insert(record.birth_id, record.state);
        proof {
            assert(records@.take(i + 1).drop_last() =~= records@.take(i as int));
            assert(records@.take(i + 1).last() == record);
            assert forall|id: ControllerBirthId| #[trigger]
                index@.dom().contains(id) <==> exists|a: int|
                    0 <= a < i + 1 && (#[trigger] records@[a]).birth_id == id by {
                if before.dom().contains(id) {
                    let a = choose|a: int| 0 <= a < i && (#[trigger] records@[a]).birth_id == id;
                    assert(records@[a].birth_id == id);
                }
                assert(records@[i as int].birth_id == record.birth_id);
            }
        }
        i += 1;
    }
    assert(records@.take(records@.len() as int) =~= records@);
    Some(index)
}

fn index_arms(arms: &Vec<PersistedArm>) -> (index: Table<ArmId, PersistedArm>)
    ensures
        index@ == authority_model::arm_index(arms@),
{
    let mut index: Table<ArmId, PersistedArm> = Table::new();
    let mut i: usize = 0;
    assert(arms@.take(0) =~= Seq::<PersistedArm>::empty());
    while i < arms.len()
        invariant
            i <= arms@.len(),
            index@ == authority_model::arm_index(arms@.take(i as int)),
        decreases arms.len() - i,
    {
        index.insert(arms[i].arm_id, arms[i]);
        assert(arms@.take(i + 1).drop_last() =~= arms@.take(i as int));
        i += 1;
    }
    assert(arms@.take(arms@.len() as int) =~= arms@);
    index
}

fn index_claims(claims: &Vec<PersistedClaimRecord>) -> (index: Table<
    AttemptId,
    PersistedClaimRecord,
>)
    ensures
        index@ == authority_model::claim_index(Seq::new(claims@.len(), |i: int| claims@[i]@)),
{
    let ghost models = Seq::new(claims@.len(), |i: int| claims@[i]@);
    let mut index: Table<AttemptId, PersistedClaimRecord> = Table::new();
    let mut i: usize = 0;
    assert(models.take(0) =~= Seq::<ClaimModel>::empty());
    while i < claims.len()
        invariant
            i <= claims@.len(),
            models == Seq::new(claims@.len(), |i: int| claims@[i]@),
            index@ == authority_model::claim_index(models.take(i as int)),
        decreases claims.len() - i,
    {
        index.insert(claims[i].attempt_id, claims[i].dup());
        assert(models.take(i + 1).drop_last() =~= models.take(i as int));
        assert(models.take(i + 1).last() == claims@[i as int]@);
        i += 1;
    }
    assert(models.take(claims@.len() as int) =~= models);
    index
}

fn index_attachments(attachments: &Vec<PersistedControllerAttachment>) -> (index: Table<
    AttemptId,
    PersistedControllerAttachment,
>)
    ensures
        index@ == authority_model::attachment_index(attachments@),
{
    let mut index: Table<AttemptId, PersistedControllerAttachment> = Table::new();
    let mut i: usize = 0;
    assert(attachments@.take(0) =~= Seq::<PersistedControllerAttachment>::empty());
    while i < attachments.len()
        invariant
            i <= attachments@.len(),
            index@ == authority_model::attachment_index(attachments@.take(i as int)),
        decreases attachments.len() - i,
    {
        index.insert(attachments[i].attempt_id, attachments[i]);
        assert(attachments@.take(i + 1).drop_last() =~= attachments@.take(i as int));
        i += 1;
    }
    assert(attachments@.take(attachments@.len() as int) =~= attachments@);
    index
}

impl<P: Persist> DaemonAuthority<P> {
    /// Recover authority metadata only. No reservation is converted back into
    /// a permit, guard, command, or caller-held receipt.
    pub fn recover(&mut self) -> (result: Result<AuthorityRecovery, AuthorityError>)
        ensures
            recovery_of(old(self)@, final(self)@, result),
    {
        let recovered = self.persist.recover_authority_state();
        let ghost (pairs, refs) = choose|
            pairs: Seq<(AttemptId, PersistedNativeReservation)>,
            refs: Seq<VerifierRef>,
        | #[trigger]
            old(self).persist.store().recovers(pairs, refs, self.persist.store()) && (recovered is Ok
                <==> old(self).persist.store().all_marked(pairs, refs));
        assert(old(self)@.store.recovers(pairs, refs, self@.store));
        let snapshot = match recovered {
            Ok(snapshot) => snapshot,
            Err(error) => return Err(AuthorityError::from(error)),
        };
        assert(self@.store.snapshot(snapshot));
        let (observation_scopes, reconciliation_scopes) = match recovery_followup_scopes(
            &snapshot,
        ) {
            Ok(scopes) => scopes,
            Err(error) => return Err(error),
        };
        let births = match index_births(&snapshot.controller_births) {
            Some(births) => births,
            None => return Err(AuthorityError::Conflict),
        };
        let ownership = match index_ownership(
            &snapshot.ownership,
            &births,
            Ghost(snapshot.controller_births@),
        ) {
            Some(ownership) => ownership,
            None => return Err(AuthorityError::Conflict),
        };
        self.arms = index_arms(&snapshot.arms);
        self.births = births;
        self.ownership = ownership;
        self.claims = index_claims(&snapshot.claims);
        self.attachments = index_attachments(&snapshot.attachments);
        self.attempt_seq = snapshot.attempt_seq;
        assert(old(self)@.store.recovers(pairs, refs, self@.store));
        Ok(AuthorityRecovery { snapshot, observation_scopes, reconciliation_scopes })
    }
}

/// A recovery with its outcome: the store is settled, and a consistent snapshot
/// of it replaces what authority held. The scopes left over follow from it.
pub open spec fn recovery_of(
    before: AuthorityModel,
    after: AuthorityModel,
    result: Result<AuthorityRecovery, AuthorityError>,
) -> bool {
    &&& exists|pairs: Seq<(AttemptId, PersistedNativeReservation)>, refs: Seq<VerifierRef>|
        #[trigger] before.store.recovers(pairs, refs, after.store) && (result == Err::<
            AuthorityRecovery,
            AuthorityError,
        >(AuthorityError::Storage) <==> !before.store.all_marked(pairs, refs))
    &&& match result {
        Ok(recovery) => {
            let writes = recovery.snapshot.native_write_evidence@.len() as int;
            &&& after.store.snapshot(recovery.snapshot)
            &&& authority_model::snapshot_consistent(recovery.snapshot)
            &&& after == before.with_store(after.store).adopt(recovery.snapshot)
            &&& recovery.observation_scopes@ == authority_model::observations_left(
                recovery.snapshot,
                writes,
            )
            &&& recovery.reconciliation_scopes@ == authority_model::reconciliations_left(
                recovery.snapshot,
                writes,
            )
        },
        Err(error) => {
            &&& after == before.with_store(after.store)
            &&& error == AuthorityError::Storage || (error == AuthorityError::Conflict && exists|
                snapshot: RecoverySnapshot,
            | #[trigger]
                after.store.snapshot(snapshot) && !authority_model::snapshot_consistent(snapshot))
        },
    }
}

/// An admission with its outcome.
pub open spec fn admitted(
    expected: (AuthorityModel, Result<(ClaimOutcome, AttemptId), AuthorityError>),
    after: AuthorityModel,
    result: Result<AdmissionResult, AuthorityError>,
) -> bool {
    &&& after == expected.0
    &&& match result {
        Ok(admission) => expected.1 matches Ok((outcome, id)) && admission.shows(outcome, id),
        Err(error) => expected.1 == Err::<(ClaimOutcome, AttemptId), AuthorityError>(error),
    }
}

} // verus!
