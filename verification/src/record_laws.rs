//! Laws of what a durable store takes, keeps and gives back, and of the
//! coordinator's one flight over it.

use crate::authority::{
    AdmissionReceipt, AuthorityError, AuthorityRecovery, PreparedDispatch, ProbeAuthorization,
    ReconciliationPhase,
};
use crate::authority_model::AuthorityModel;
use crate::controller;
use crate::controller::{
    ActiveProofModel, ControllerProbeError, ControllerReconcileError, ControllerWriteError,
    IdleProbeResult, IdleProbeScope, NativeCoordinateKind, NativeCoordinateScope, NativeTurnFact,
    NativeWriteDisposition, PersistedTurnCorrelation, ReconciliationDisposition,
    ReconciliationScope, ValidatedIdlePermit,
};
use crate::coordinator;
use crate::coordinator::{CoordinatedProbe, CoordinatorModel};
use crate::ident::{
    AttemptId, ControllerBirthId, EntropyError, PrivateNativeRef, RequestNonce, VerifierRef,
};
use crate::records::{
    IdempotentWrite, NativeTurnFactCommit, NativeWriteEvidence, NativeWriteEvidenceCommit,
    PersistError, PersistedControllerAttachment, PersistedControllerBirth,
    PersistedNativeReservation, PersistedNativeWriteEvidence, PersistedPreWriteConclusion,
    PreWriteConclusion,
    PreWriteConclusionCommit, ReserveBirthOutcome, ThreadCreateCommit, ThreadCreateReservation,
    ThreadCreateResolution, ThreadOwnershipState, ValidatedAttachmentScope,
};
use crate::store;
use crate::store::Store;
use vstd::prelude::*;

verus! {

/// A create takes an outcome only from the attempt that reserved it, and a
/// definite outcome is final.
pub proof fn create_outcome_is_for_its_own_attempt(before: Store, commit: ThreadCreateCommit)
    ensures
        ({
            let id = commit.birth_id;
            let (after, result) = before.resolve_create(commit);
            let refused = |error: PersistError|
                after == before && result == Err::<IdempotentWrite, PersistError>(error);
            let state = before.ownership[id];
            let known = before.creates.dom().contains(id);
            let own = known && before.creates[id].create_attempt_id == commit.create_attempt_id;
            let followed = own && before.ownership.dom().contains(id);
            &&& !known ==> refused(PersistError::InvalidTransition)
            &&& known && !own ==> refused(PersistError::Conflict)
            &&& own && !followed ==> refused(PersistError::InvalidTransition)
            &&& followed && state is Owned && !(commit.resolution matches
                ThreadCreateResolution::Owned { thread_ref } && state == (
            ThreadOwnershipState::Owned {
                create_attempt_id: commit.create_attempt_id,
                thread_ref,
            })) ==> refused(PersistError::Conflict)
            &&& followed && state is ProvenNotAccepted && !(commit.resolution is ProvenNotAccepted)
                ==> refused(PersistError::Conflict)
            &&& followed && state is Absent ==> refused(PersistError::Conflict)
        }),
{
}

/// A birth is reserved once: the same record again is a replay, another under the
/// same identifier a conflict, and neither changes anything.
pub proof fn birth_is_reserved_once(
    before: Store,
    birth: PersistedControllerBirth,
    create: ThreadCreateReservation,
)
    ensures
        ({
            let id = birth.birth_id;
            let (after, result) = before.reserve_birth(birth, create);
            let taken = before.births.dom().contains(id);
            let same = taken && before.births[id] == birth && before.creates.dom().contains(id)
                && before.creates[id] == create;
            &&& same ==> after == before && result == Ok::<ReserveBirthOutcome, PersistError>(
                ReserveBirthOutcome::ExactReplay,
            )
            &&& taken && !same ==> after == before && result == Ok::<
                ReserveBirthOutcome,
                PersistError,
            >(ReserveBirthOutcome::Conflict)
            &&& !taken && create.birth_id != id ==> after == before && result == Err::<
                ReserveBirthOutcome,
                PersistError,
            >(PersistError::Conflict)
            &&& !taken && create.birth_id == id ==> result == Ok::<
                ReserveBirthOutcome,
                PersistError,
            >(ReserveBirthOutcome::Reserved) && after.births == before.births.insert(id, birth)
                && after.creates == before.creates.insert(id, create) && after.ownership
                == before.ownership.insert(
                id,
                ThreadOwnershipState::Reserved { create_attempt_id: create.create_attempt_id },
            ) && after.attachments == before.attachments && after.claims == before.claims
        }),
{
}

/// A sealed thread opens to its owner alone: the live birth whose own create
/// owns exactly this reference, for which it was sealed.
pub proof fn thread_opens_to_its_owner(
    held: Store,
    birth_id: ControllerBirthId,
    create_attempt_id: RequestNonce,
    reference: PrivateNativeRef,
)
    ensures
        ({
            let scope = NativeCoordinateScope::Thread { birth_id, create_attempt_id };
            let owner = held.births.dom().contains(birth_id) && held.births[birth_id].birth_id
                == birth_id && !held.births[birth_id].revoked && held.creates.dom().contains(
                birth_id,
            ) && held.creates[birth_id].create_attempt_id == create_attempt_id
                && held.ownership.dom().contains(birth_id) && held.ownership[birth_id] == (
            ThreadOwnershipState::Owned { create_attempt_id, thread_ref: reference });
            let kept = held.coordinates.dom().contains(reference)
                && held.coordinates[reference].scope == scope;
            &&& owner && kept ==> held.open_coordinate(scope, reference) == Ok::<
                Seq<u8>,
                PersistError,
            >(held.coordinates[reference].plaintext)
            &&& !(owner && kept) ==> held.open_coordinate(scope, reference) == Err::<
                Seq<u8>,
                PersistError,
            >(PersistError::Unauthorized)
        }),
{
}

/// A sealed turn opens to the reserved write that it is bound to, while the
/// attachment and its birth live and agree, and to nothing else.
pub proof fn turn_opens_to_its_write(
    held: Store,
    scope: NativeCoordinateScope,
    reference: PrivateNativeRef,
)
    requires
        scope is Turn,
    ensures
        ({
            let id = scope->Turn_attempt_id;
            let birth_id = scope->Turn_birth_id;
            let write = held.reservations[id].correlation;
            let attachment = held.attachments[id];
            let birth = held.births[birth_id];
            let bound = held.reservations.dom().contains(id) && write.birth_id == birth_id
                && write.attempt_id == id && write.signal_id == scope->Turn_signal_id
                && write.turn_write_id == scope->Turn_turn_write_id && write.turn_ref == Some(
                reference,
            );
            let live = held.attachments.dom().contains(id) && !attachment.revoked
                && held.births.dom().contains(birth_id) && !birth.revoked && attachment.birth_id
                == birth_id && attachment.arm_id == birth.arm_id && attachment.generation
                == birth.generation && attachment.seat_id == birth.seat_id && attachment.capability
                == birth.capability;
            let kept = held.coordinates.dom().contains(reference)
                && held.coordinates[reference].scope == scope;
            &&& bound && live && kept ==> held.open_coordinate(scope, reference) == Ok::<
                Seq<u8>,
                PersistError,
            >(held.coordinates[reference].plaintext)
            &&& !(bound && live && kept) ==> held.open_coordinate(scope, reference) == Err::<
                Seq<u8>,
                PersistError,
            >(PersistError::Unauthorized)
        }),
{
    let id = scope->Turn_attempt_id;
    let write = held.reservations[id].correlation;
    if write.birth_id == scope->Turn_birth_id && write.attempt_id == id && write.signal_id
        == scope->Turn_signal_id && write.turn_write_id == scope->Turn_turn_write_id {
        assert(write.scope_of_turn() == scope);
    }
}

/// A new coordinate is sealed for a live birth whose create is still open, or for
/// a reserved write that has no turn yet, under a reference that was not in use;
/// it keeps scope and plaintext, and everything else stays.
pub proof fn new_coordinate_is_sealed_for_its_scope(
    before: Store,
    scope: NativeCoordinateScope,
    kind: NativeCoordinateKind,
    plaintext: Seq<u8>,
    after: Store,
    reference: PrivateNativeRef,
)
    requires
        before.sealed(scope, kind, plaintext, after, Ok(reference)),
        before.sealed_ref(scope, plaintext) is None,
    ensures
        !before.coordinates.dom().contains(reference),
        after.coordinates.dom().contains(reference),
        after.coordinates[reference].scope == scope,
        after.coordinates[reference].plaintext == plaintext,
        forall|other: PrivateNativeRef|
            other != reference ==> (#[trigger] after.coordinates.dom().contains(other)
                <==> before.coordinates.dom().contains(other)) && (
            before.coordinates.dom().contains(other) ==> after.coordinates[other]
                == before.coordinates[other]),
        after.ownership == before.ownership,
        after.reservations == before.reservations,
        after.attachments == before.attachments,
        scope is Thread <==> kind is Thread,
        scope matches NativeCoordinateScope::Thread { birth_id, create_attempt_id } ==> {
            &&& before.births.dom().contains(birth_id)
            &&& !before.births[birth_id].revoked
            &&& before.creates.dom().contains(birth_id)
            &&& before.creates[birth_id].create_attempt_id == create_attempt_id
            &&& before.ownership[birth_id] == (ThreadOwnershipState::Reserved {
                create_attempt_id,
            }) || before.ownership[birth_id] == (ThreadOwnershipState::Unknown {
                create_attempt_id,
            })
        },
        scope matches NativeCoordinateScope::Turn { attempt_id, .. } ==> {
            &&& before.reservations.dom().contains(attempt_id)
            &&& before.reservations[attempt_id].correlation.turn_ref is None
            &&& before.attachments.dom().contains(attempt_id)
            &&& !before.attachments[attempt_id].revoked
        },
{
}

/// A write is reserved exactly where the permit is for this correlation, was
/// given before it ends, its probe is unused, the attempt has no reservation and
/// the attachment on record is the permit's and unrevoked.
pub proof fn reservation_needs_a_fitting_permit(
    before: Store,
    idle: ValidatedIdlePermit,
    correlation: PersistedTurnCorrelation,
)
    ensures
        ({
            let id = correlation.attempt_id;
            let attachment = before.attachments[id];
            let (after, result) = before.reserve_write(idle, correlation);
            let fits = idle.attempt_id == id && idle.signal_id == correlation.signal_id
                && idle.birth_id == correlation.birth_id && idle.thread_ref
                == correlation.thread_ref && idle.mutation_epoch.birth_id == correlation.birth_id
                && idle.observed_at.nanos < idle.valid_until.nanos;
            let backed = before.attachments.dom().contains(id) && !attachment.revoked
                && attachment.birth_id == idle.birth_id && attachment.arm_id == idle.arm_id
                && attachment.generation == idle.generation && attachment.capability
                == idle.capability && attachment.verifier_ref == idle.verifier_ref;
            let free = !before.consumed_probes.contains(idle.probe_id)
                && !before.reservations.dom().contains(id);
            &&& result is Ok <==> fits && backed && free
            &&& result is Err ==> after == before && result->Err_0 is Unauthorized
            &&& result is Ok ==> {
                &&& result->Ok_0.correlation == correlation
                &&& result->Ok_0.probe_id == idle.probe_id
                &&& result->Ok_0.expected_epoch == idle.mutation_epoch
                &&& after.consumed_probes == before.consumed_probes.insert(idle.probe_id)
                &&& after.reservations == before.reservations.insert(
                    id,
                    PersistedNativeReservation {
                        correlation,
                        probe_id: idle.probe_id,
                        expected_epoch: idle.mutation_epoch,
                        concluded: false,
                    },
                )
            }
        }),
{
}

/// Write evidence is taken for the reserved correlation alone, once; it concludes
/// the reservation.
pub proof fn write_evidence_is_for_its_reservation(
    before: Store,
    commit: NativeWriteEvidenceCommit,
)
    ensures
        ({
            let id = commit.correlation.attempt_id;
            let (after, result) = before.record_write(commit);
            let reserved = before.reservations.dom().contains(id);
            let own = reserved && before.reservations[id].correlation == commit.correlation;
            let fresh = own && !before.write_evidence.dom().contains(id);
            let same = own && !fresh && before.write_evidence[id] == commit.evidence
                && before.write_evidence_refs.dom().contains(id) && before.write_evidence_refs[id]
                == commit.evidence_ref;
            &&& !reserved ==> result == Err::<IdempotentWrite, PersistError>(
                PersistError::InvalidTransition,
            )
            &&& reserved && !own ==> result == Err::<IdempotentWrite, PersistError>(
                PersistError::Unauthorized,
            )
            &&& own && !fresh && !same ==> result == Err::<IdempotentWrite, PersistError>(
                PersistError::Conflict,
            )
            &&& same ==> result == Ok::<IdempotentWrite, PersistError>(IdempotentWrite::ExactReplay)
            &&& !fresh ==> after == before
            &&& fresh ==> result == Ok::<IdempotentWrite, PersistError>(IdempotentWrite::Recorded)
                && after.write_evidence == before.write_evidence.insert(id, commit.evidence)
                && after.write_evidence_refs == before.write_evidence_refs.insert(
                id,
                commit.evidence_ref,
            ) && after.reservations == before.reservations.insert(
                id,
                PersistedNativeReservation { concluded: true, ..before.reservations[id] },
            ) && after.turn_facts == before.turn_facts && after.consumed_probes
                == before.consumed_probes
        }),
{
}

/// A correlation that was prepared for its attempt, whatever turn it names.
pub open spec fn prepared_as(held: Store, correlation: PersistedTurnCorrelation) -> bool {
    let prepared = held.prepared[correlation.attempt_id];
    &&& held.prepared.dom().contains(correlation.attempt_id)
    &&& prepared.signal_id == correlation.signal_id
    &&& prepared.birth_id == correlation.birth_id
    &&& prepared.thread_ref == correlation.thread_ref
    &&& prepared.turn_write_id == correlation.turn_write_id
}

/// A turn that is sealed for this correlation's own scope, and that no other turn
/// of the attempt stands against.
pub open spec fn turn_is_own(
    held: Store,
    correlation: PersistedTurnCorrelation,
    turn_ref: PrivateNativeRef,
) -> bool {
    let id = correlation.attempt_id;
    let reserved = held.reservations[id].correlation;
    &&& correlation.turn_ref == Some(turn_ref)
    &&& held.coordinates.dom().contains(turn_ref)
    &&& held.coordinates[turn_ref].plaintext.len() > 0
    &&& held.coordinates[turn_ref].scope == (NativeCoordinateScope::Turn {
        birth_id: correlation.birth_id,
        attempt_id: id,
        signal_id: correlation.signal_id,
        turn_write_id: correlation.turn_write_id,
    })
    &&& held.reservations.dom().contains(id)
    &&& reserved.birth_id == correlation.birth_id
    &&& reserved.signal_id == correlation.signal_id
    &&& reserved.thread_ref == correlation.thread_ref
    &&& reserved.turn_write_id == correlation.turn_write_id
    &&& reserved.turn_ref is None || reserved.turn_ref == Some(turn_ref)
    &&& held.prepared[id].turn_ref is None || held.prepared[id].turn_ref == Some(turn_ref)
}

/// A fact is taken for a prepared attempt, and one that names a turn only where
/// that turn is its own; it is added behind the earlier facts and binds the
/// attempt to the turn. Without a named turn the write becomes unknown.
pub proof fn fact_is_for_its_own_turn(before: Store, commit: NativeTurnFactCommit)
    requires
        !before.fail_next_turn_fact,
    ensures
        ({
            let id = commit.correlation.attempt_id;
            let (after, result) = before.record_fact(commit);
            let turn = match commit.fact {
                NativeTurnFact::Accepted { turn_ref } => Some(turn_ref),
                NativeTurnFact::Started { turn_ref } => Some(turn_ref),
                NativeTurnFact::Terminal { turn_ref, .. } => Some(turn_ref),
                NativeTurnFact::DegradedTerminalObservation => None,
                NativeTurnFact::ControllerLost => None,
                NativeTurnFact::Unknown => None,
            };
            let allowed = prepared_as(before, commit.correlation) && (turn is Some ==> turn_is_own(
                before,
                commit.correlation,
                turn->0,
            ));
            let earlier = if before.turn_facts.dom().contains(id) {
                before.turn_facts[id]
            } else {
                Seq::empty()
            };
            let known = earlier.contains(commit.fact);
            &&& !allowed ==> after == before && result == Err::<IdempotentWrite, PersistError>(
                PersistError::Unauthorized,
            )
            &&& allowed && known ==> after == before && result == Ok::<
                IdempotentWrite,
                PersistError,
            >(IdempotentWrite::ExactReplay)
            &&& allowed && !known ==> {
                &&& result == Ok::<IdempotentWrite, PersistError>(IdempotentWrite::Recorded)
                &&& after.turn_facts == before.turn_facts.insert(id, earlier.push(commit.fact))
                &&& turn is Some ==> after.prepared[id].turn_ref == turn
                    && after.reservations[id].correlation.turn_ref == turn
                    && after.reservations[id].concluded == before.reservations[id].concluded
                    && after.write_evidence == before.write_evidence
                &&& turn is None ==> after.write_evidence == before.write_evidence.insert(
                    id,
                    NativeWriteEvidence::Unknown,
                ) && after.prepared == before.prepared && after.reservations == before.reservations
            }
        }),
{
}

/// A reconciliation is taken for a reserved write that is unknown under this
/// evidence; a definite one is final.
pub proof fn reconciliation_is_for_its_unknown_write(
    before: Store,
    scope: ReconciliationScope,
    disposition: ReconciliationDisposition,
)
    ensures
        ({
            let id = scope.correlation.attempt_id;
            let (after, result) = before.record_reconciliation(scope, disposition);
            let reserved = before.reservations.dom().contains(id);
            let own = reserved && before.reservations[id].correlation == scope.correlation
                && before.write_evidence.dom().contains(id)
                && before.write_evidence[id] is Unknown
                && before.write_evidence_refs.dom().contains(id) && before.write_evidence_refs[id]
                == scope.evidence_ref;
            let held = before.reconciliations.dom().contains(id);
            let open = own && (!held || (before.reconciliations[id] is Unknown && !(
            disposition is Unknown)));
            &&& !reserved ==> result == Err::<IdempotentWrite, PersistError>(
                PersistError::InvalidTransition,
            )
            &&& reserved && !own ==> result == Err::<IdempotentWrite, PersistError>(
                PersistError::Unauthorized,
            )
            &&& open ==> result == Ok::<IdempotentWrite, PersistError>(IdempotentWrite::Recorded)
                && after.reconciliations == before.reconciliations.insert(id, disposition)
                && after.turn_facts == before.turn_facts && after.write_evidence
                == before.write_evidence
            &&& own && held && before.reconciliations[id] == disposition ==> result == Ok::<
                IdempotentWrite,
                PersistError,
            >(IdempotentWrite::ExactReplay)
            &&& own && held && before.reconciliations[id] != disposition && !(
            before.reconciliations[id] is Unknown) ==> result == Err::<
                IdempotentWrite,
                PersistError,
            >(PersistError::Conflict)
            &&& !open ==> after == before
        }),
{
}

/// An attachment is revoked under its own birth, arm, generation and verifier, and
/// stays revoked.
pub proof fn attachment_is_revoked_as_itself(before: Store, scope: ValidatedAttachmentScope)
    ensures
        ({
            let id = scope.attempt_id;
            let attachment = before.attachments[id];
            let (after, result) = before.revoke_attachment(scope);
            let own = before.attachments.dom().contains(id) && attachment.birth_id
                == scope.birth_id && attachment.arm_id == scope.arm_id && attachment.generation
                == scope.generation && attachment.verifier_ref == scope.verifier_ref;
            &&& !own ==> after == before && result == Err::<IdempotentWrite, PersistError>(
                PersistError::Unauthorized,
            )
            &&& own && attachment.revoked ==> after == before && result == Ok::<
                IdempotentWrite,
                PersistError,
            >(IdempotentWrite::ExactReplay)
            &&& own && !attachment.revoked ==> result == Ok::<IdempotentWrite, PersistError>(
                IdempotentWrite::Recorded,
            ) && after.attachments == before.attachments.insert(
                id,
                PersistedControllerAttachment { revoked: true, ..attachment },
            ) && after.births == before.births && after.reservations == before.reservations
        }),
{
}

/// A prepared correlation is kept once: the same again is a replay, another one
/// for the attempt a conflict.
pub proof fn correlation_is_prepared_once(before: Store, correlation: PersistedTurnCorrelation)
    ensures
        ({
            let id = correlation.attempt_id;
            let (after, result) = before.prepare_dispatch(correlation);
            let held = before.prepared.dom().contains(id);
            &&& !held ==> result == Ok::<IdempotentWrite, PersistError>(IdempotentWrite::Recorded)
                && after.prepared == before.prepared.insert(id, correlation)
                && after.reservations == before.reservations
            &&& held && before.prepared[id] == correlation ==> after == before && result == Ok::<
                IdempotentWrite,
                PersistError,
            >(IdempotentWrite::ExactReplay)
            &&& held && before.prepared[id] != correlation ==> after == before && result == Err::<
                IdempotentWrite,
                PersistError,
            >(PersistError::Conflict)
        }),
{
}

/// A conclusion before any write is kept once, with its own signal and instant,
/// and concludes the attempt's reservation where there is one.
pub proof fn conclusion_is_kept_once(before: Store, commit: PreWriteConclusionCommit)
    ensures
        ({
            let id = commit.attempt_id;
            let (after, result) = before.conclude_prewrite(commit);
            let held = before.prewrite.dom().contains(id);
            &&& !held ==> {
                &&& result == Ok::<IdempotentWrite, PersistError>(IdempotentWrite::Recorded)
                &&& after.prewrite == before.prewrite.insert(
                    id,
                    PersistedPreWriteConclusion {
                        attempt_id: id,
                        signal_id: commit.signal_id,
                        conclusion: commit.conclusion,
                        recorded_at: commit.recorded_at,
                    },
                )
                &&& before.reservations.dom().contains(id) ==> after.reservations
                    == before.reservations.insert(
                    id,
                    PersistedNativeReservation { concluded: true, ..before.reservations[id] },
                )
                &&& !before.reservations.dom().contains(id) ==> after.reservations
                    == before.reservations
                &&& after.write_evidence == before.write_evidence
                &&& after.turn_facts == before.turn_facts
            }
            &&& held && before.prewrite[id].conclusion == commit.conclusion ==> after == before
                && result == Ok::<IdempotentWrite, PersistError>(IdempotentWrite::ExactReplay)
            &&& held && before.prewrite[id].conclusion != commit.conclusion ==> after == before
                && result == Err::<IdempotentWrite, PersistError>(PersistError::Conflict)
        }),
{
}

/// Everything that a running turn's evidence states agrees with what the store
/// holds of its attempt.
pub open spec fn evidence_agrees(held: Store, evidence: ActiveProofModel) -> bool {
    let id = evidence.attempt_id;
    let attachment = held.attachments[id];
    let birth = held.births[evidence.birth_id];
    let prepared = held.prepared[id];
    &&& held.attachments.dom().contains(id)
    &&& !attachment.revoked
    &&& attachment.birth_id == evidence.birth_id
    &&& attachment.seat_id == evidence.seat_id
    &&& attachment.arm_id == evidence.arm_id
    &&& attachment.generation == evidence.generation
    &&& attachment.capability == evidence.capability
    &&& attachment.verifier_ref == evidence.attachment_verifier_ref
    &&& attachment.lease_until == evidence.lease_until
    &&& held.births.dom().contains(evidence.birth_id)
    &&& !birth.revoked
    &&& birth.seat_id == evidence.seat_id
    &&& birth.arm_id == evidence.arm_id
    &&& birth.generation == evidence.generation
    &&& birth.capability == evidence.capability
    &&& evidence.observed_at.nanos <= birth.lease_until.nanos
    &&& evidence.mutation_epoch.birth_id == evidence.birth_id
    &&& held.claim_of(id) is Some
    &&& held.claim_of(id)->0.signal_id == evidence.signal_id
    &&& held.prepared.dom().contains(id)
    &&& prepared.signal_id == evidence.signal_id
    &&& prepared.birth_id == evidence.birth_id
    &&& prepared.thread_ref == evidence.thread_ref
    &&& held.ownership.dom().contains(evidence.birth_id)
    &&& held.ownership[evidence.birth_id] == (ThreadOwnershipState::Owned {
        create_attempt_id: evidence.create_attempt_id,
        thread_ref: evidence.thread_ref,
    })
    &&& evidence.producer_version == "codex-cli 0.152.1"@ || evidence.producer_version
        == "codex-cli 0.149.1"@
    &&& evidence.producer_dialect == "thread/read-v2"@
}

/// A running turn holds its attempt where its evidence agrees with the store, its
/// probe is unused and the attempt has no conclusion: the evidence is kept with
/// everything that it states, the probe is used up, and the attempt is concluded
/// without a write under that evidence.
pub proof fn running_turn_holds_its_attempt(before: Store, evidence: ActiveProofModel)
    requires
        !before.fail_next_active_hold,
        !before.active_observations.dom().contains(evidence.attempt_id),
    ensures
        ({
            let id = evidence.attempt_id;
            let (after, result) = before.hold_active(evidence);
            let agrees = evidence_agrees(before, evidence);
            let free = !before.prewrite.dom().contains(id) && !before.consumed_probes.contains(
                evidence.probe_id,
            );
            let kept = after.active_observations[id];
            &&& !agrees ==> after == before && result == Err::<IdempotentWrite, PersistError>(
                PersistError::Unauthorized,
            )
            &&& agrees && !free ==> after == before && result == Err::<
                IdempotentWrite,
                PersistError,
            >(PersistError::Conflict)
            &&& agrees && free ==> {
                &&& result == Ok::<IdempotentWrite, PersistError>(IdempotentWrite::Recorded)
                &&& after.consumed_probes == before.consumed_probes.insert(evidence.probe_id)
                &&& after.active_observations == before.active_observations.insert(id, kept)
                &&& kept.birth_id == evidence.birth_id
                &&& kept.create_attempt_id == evidence.create_attempt_id
                &&& kept.seat_id == evidence.seat_id
                &&& kept.arm_id == evidence.arm_id
                &&& kept.generation == evidence.generation
                &&& kept.capability == evidence.capability
                &&& kept.attachment_verifier_ref == evidence.attachment_verifier_ref
                &&& kept.lease_until == evidence.lease_until
                &&& kept.attempt_id == id
                &&& kept.signal_id == evidence.signal_id
                &&& kept.probe_id == evidence.probe_id
                &&& kept.mutation_epoch == evidence.mutation_epoch
                &&& kept.observed_at == evidence.observed_at
                &&& kept.producer_version == evidence.producer_version
                &&& kept.producer_dialect == evidence.producer_dialect
                &&& after.prewrite == before.prewrite.insert(
                    id,
                    PersistedPreWriteConclusion {
                        attempt_id: id,
                        signal_id: evidence.signal_id,
                        conclusion: PreWriteConclusion::HeldBeforeNativeWrite {
                            active_evidence_ref: kept.evidence_ref,
                        },
                        recorded_at: evidence.observed_at,
                    },
                )
                &&& after.reservations == before.reservations
                &&& after.write_evidence == before.write_evidence
            }
        }),
{
}

/// Recovery takes nothing for granted: a create that was only reserved is unknown,
/// an accepted write without a fact is unknown, an exact answer becomes its fact,
/// and everything else stays as it was.
pub proof fn settling_takes_nothing_for_granted(
    before: Store,
    birth_id: ControllerBirthId,
    id: AttemptId,
)
    ensures
        ({
            let after = before.settled();
            let state = before.ownership[birth_id];
            let evidence = before.write_evidence[id];
            let told = before.turn_facts.dom().contains(id);
            let written = before.write_evidence.dom().contains(id);
            &&& after.ownership.dom().contains(birth_id) <==> before.ownership.dom().contains(
                birth_id,
            )
            &&& before.ownership.dom().contains(birth_id) && state is Reserved
                ==> after.ownership[birth_id] == (ThreadOwnershipState::Unknown {
                create_attempt_id: state->Reserved_create_attempt_id,
            })
            &&& before.ownership.dom().contains(birth_id) && !(state is Reserved)
                ==> after.ownership[birth_id] == state
            &&& after.write_evidence.dom().contains(id) <==> written
            &&& written && evidence is WriterAccepted && !told
                ==> after.write_evidence[id] is Unknown
            &&& written && (told || !(evidence is WriterAccepted)) ==> after.write_evidence[id]
                == evidence
            &&& told ==> after.turn_facts.dom().contains(id) && after.turn_facts[id]
                == before.turn_facts[id]
            &&& !told && written && evidence is ExactResponse ==> after.turn_facts.dom().contains(
                id,
            ) && after.turn_facts[id] =~= seq![evidence->fact]
            &&& !told && !(written && evidence is ExactResponse)
                ==> !after.turn_facts.dom().contains(id)
            &&& after.reservations == before.reservations
            &&& after.attachments == before.attachments
            &&& after.births == before.births
            &&& after.claims == before.claims
            &&& after.consumed_probes == before.consumed_probes
            &&& after.coordinates == before.coordinates
        }),
{
}

/// An unresolved write is one whose reservation has neither conclusion nor
/// evidence; marked, it is unknown under its own reference and concluded.
pub proof fn unresolved_write_becomes_unknown(
    before: Store,
    id: AttemptId,
    reservation: PersistedNativeReservation,
    evidence_ref: VerifierRef,
)
    ensures
        before.unresolved(id, reservation) <==> !reservation.concluded
            && !before.write_evidence.dom().contains(id),
        ({
            let after = before.mark_unknown(id, evidence_ref);
            &&& after.write_evidence == before.write_evidence.insert(
                id,
                NativeWriteEvidence::Unknown,
            )
            &&& after.write_evidence_refs == before.write_evidence_refs.insert(id, evidence_ref)
            &&& before.reservations.dom().contains(id) ==> after.reservations[id].concluded
                && after.reservations[id].correlation == before.reservations[id].correlation
            &&& after.turn_facts == before.turn_facts
            &&& after.ownership == before.ownership
        }),
{
}

/// The coordinator's flight: what was prepared is probed, what was authorized is
/// written, and the probe is over either way.
pub proof fn flight_goes_from_probe_to_write(
    before: CoordinatorModel,
    receipt: AdmissionReceipt,
    turn_write_id: Result<RequestNonce, EntropyError>,
    probe_id: Result<RequestNonce, EntropyError>,
    result: Result<IdleProbeResult, ControllerProbeError>,
)
    ensures
        before.probing is None && before.writing is None ==> {
            let (authority, prepared) = before.authority.prepare(receipt, turn_write_id, probe_id);
            let (after, scope) = before.prepare(receipt, turn_write_id, probe_id);
            &&& after.authority == authority
            &&& after.writing is None
            &&& after.observing == before.observing
            &&& after.reconciling == before.reconciling
            &&& prepared is Ok ==> after.probing == Some(prepared->Ok_0.0) && scope == Ok::<
                IdleProbeScope,
                AuthorityError,
            >(prepared->Ok_0.1)
            &&& prepared is Err ==> after.probing is None && scope == Err::<
                IdleProbeScope,
                AuthorityError,
            >(prepared->Err_0)
        },
        before.probing is Some ==> {
            let (authority, authorized) = before.authority.authorize(before.probing->0, result);
            let (after, probe) = before.authorize(result);
            &&& after.authority == authority
            &&& after.probing is None
            &&& after.observing == before.observing
            &&& after.reconciling == before.reconciling
            &&& authorized matches Ok(ProbeAuthorization::Ready(write)) ==> {
                &&& after.writing == Some(write.prepared)
                &&& probe is Ok
                &&& probe->Ok_0 is Ready
                &&& probe->Ok_0->Ready_0.lane == write.lane
                &&& probe->Ok_0->Ready_0.command == write.command
            }
            &&& authorized == Ok::<ProbeAuthorization, AuthorityError>(
                ProbeAuthorization::HeldBeforeNativeWrite,
            ) ==> after.writing == before.writing && probe == Ok::<CoordinatedProbe, AuthorityError>(
                CoordinatedProbe::HeldBeforeNativeWrite,
            )
            &&& authorized == Ok::<ProbeAuthorization, AuthorityError>(
                ProbeAuthorization::IdleStateUnproven,
            ) ==> after.writing == before.writing && probe == Ok::<CoordinatedProbe, AuthorityError>(
                CoordinatedProbe::IdleStateUnproven,
            )
            &&& authorized is Err ==> after.writing == before.writing && probe == Err::<
                CoordinatedProbe,
                AuthorityError,
            >(authorized->Err_0)
        },
{
}

/// What a concluded write leaves is taken up: the observation or the
/// reconciliation that the conclusion names.
pub proof fn conclusion_is_taken_up(
    before: CoordinatorModel,
    disposition: Result<NativeWriteDisposition, ControllerWriteError>,
    evidence_ref: Result<VerifierRef, EntropyError>,
    fact_ref: Result<VerifierRef, EntropyError>,
)
    requires
        before.writing is Some,
    ensures
        ({
            let (authority, concluded) = before.authority.conclude(
                before.writing->0,
                disposition,
                evidence_ref,
                fact_ref,
            );
            let (after, result) = before.conclude(disposition, evidence_ref, fact_ref);
            &&& after.authority == authority
            &&& after.writing is None
            &&& after.probing == before.probing
            &&& concluded is Ok ==> result is Ok && after.observing
                == concluded->Ok_0.observation_scope && after.reconciling
                == concluded->Ok_0.reconciliation_scope
            &&& concluded is Err ==> result == Err::<(), AuthorityError>(concluded->Err_0)
                && after.observing == before.observing && after.reconciling == before.reconciling
        }),
{
}

/// A turn is observed until it ends or is lost: a start keeps the observation, an
/// end closes it, and a loss hands it over to reconciliation. Without a fact
/// nothing changes.
pub proof fn observation_lasts_until_the_end(
    before: CoordinatorModel,
    fact: NativeTurnFact,
    evidence_ref: Result<VerifierRef, EntropyError>,
)
    requires
        before.observing is Some,
    ensures
        before.record_polled(None, evidence_ref) == (
            before,
            Ok::<Option<IdempotentWrite>, AuthorityError>(None),
        ),
        ({
            let (after, result) = before.record_polled(Some(fact), evidence_ref);
            let named = fact is Accepted || fact is Started || fact is Terminal;
            &&& result is Ok && fact is Terminal ==> after.observing is None
                && after.reconciling is None
            &&& result is Ok && (fact is Accepted || fact is Started) ==> after.observing
                == before.observing && after.reconciling is None
            &&& result is Ok && !named ==> after.observing is None && after.reconciling is Some
                && after.reconciling->0.correlation == before.observing->0.correlation
                && after.reconciling->0.evidence_ref == before.observing->0.evidence_ref
            &&& result is Err ==> after.observing == before.observing && after.reconciling
                == before.reconciling
            &&& after.probing == before.probing
            &&& after.writing == before.writing
        }),
{
}

/// A reconciliation goes on while the write stays unknown, hands an accepted turn
/// over to observation, and is over otherwise.
pub proof fn reconciliation_lasts_while_unknown(
    before: CoordinatorModel,
    disposition: ReconciliationDisposition,
    fact_ref: Result<VerifierRef, EntropyError>,
)
    requires
        before.reconciling is Some,
    ensures
        ({
            let (after, result) = before.record_reconciled(Ok(disposition), fact_ref);
            &&& result is Ok && disposition is Unknown ==> after.reconciling == before.reconciling
                && after.observing == before.observing
            &&& result is Ok && (disposition is ProvenNotAccepted || disposition is Terminal)
                ==> after.reconciling is None && after.observing == before.observing
            &&& result is Ok && disposition is Accepted ==> after.reconciling is None
                && after.observing is Some && after.observing->0.correlation == (
            PersistedTurnCorrelation {
                turn_ref: Some(disposition->Accepted_turn_ref),
                ..before.reconciling->0.correlation
            }) && after.observing->0.evidence_ref == before.reconciling->0.evidence_ref
            &&& result is Err ==> after.reconciling == before.reconciling && after.observing
                == before.observing
            &&& after.probing == before.probing
            &&& after.writing == before.writing
        }),
{
}

/// A snapshot lists the evidence of every reserved write that has a reference,
/// each under its own correlation and reference, and nothing else.
pub proof fn evidence_is_listed_for_reserved_writes(
    held: Store,
    pairs: Seq<(AttemptId, NativeWriteEvidence)>,
    item: PersistedNativeWriteEvidence,
)
    ensures
        held.evidence_list(pairs).contains(item) <==> exists|i: int|
            0 <= i < pairs.len() && {
                let (id, evidence) = #[trigger] pairs[i];
                &&& held.reservations.dom().contains(id)
                &&& held.write_evidence_refs.dom().contains(id)
                &&& item.correlation == held.reservations[id].correlation
                &&& item.evidence == evidence
                &&& item.evidence_ref == held.write_evidence_refs[id]
            },
    decreases pairs.len(),
{
    if pairs.len() > 0 {
        let rest = pairs.drop_last();
        let n = rest.len() as int;
        evidence_is_listed_for_reserved_writes(held, rest, item);
        let shorter = held.evidence_list(rest);
        let longer = held.evidence_list(pairs);
        let (id, evidence) = pairs.last();
        assert(pairs[n] == pairs.last());
        assert(forall|i: int| 0 <= i < n ==> #[trigger] rest[i] == pairs[i]);
        if held.reservations.dom().contains(id) && held.write_evidence_refs.dom().contains(id) {
            let added = PersistedNativeWriteEvidence {
                correlation: held.reservations[id].correlation,
                evidence,
                evidence_ref: held.write_evidence_refs[id],
            };
            assert(longer == shorter.push(added));
            if longer.contains(item) {
                let k = choose|k: int| 0 <= k < longer.len() && longer[k] == item;
                if k < shorter.len() {
                    assert(shorter[k] == item);
                    assert(shorter.contains(item));
                } else {
                    assert(item == added);
                }
            }
            if shorter.contains(item) {
                let k = choose|k: int| 0 <= k < shorter.len() && shorter[k] == item;
                assert(longer[k] == item);
            }
            if item.correlation == added.correlation && item.evidence == added.evidence
                && item.evidence_ref == added.evidence_ref {
                assert(item == added);
                assert(longer[shorter.len() as int] == item);
            }
        }
        if exists|i: int|
            0 <= i < rest.len() && {
                let (other, kept) = #[trigger] rest[i];
                &&& held.reservations.dom().contains(other)
                &&& held.write_evidence_refs.dom().contains(other)
                &&& item.correlation == held.reservations[other].correlation
                &&& item.evidence == kept
                &&& item.evidence_ref == held.write_evidence_refs[other]
            } {
            let i = choose|i: int|
                0 <= i < rest.len() && {
                    let (other, kept) = #[trigger] rest[i];
                    &&& held.reservations.dom().contains(other)
                    &&& held.write_evidence_refs.dom().contains(other)
                    &&& item.correlation == held.reservations[other].correlation
                    &&& item.evidence == kept
                    &&& item.evidence_ref == held.write_evidence_refs[other]
                };
            assert(pairs[i] == rest[i]);
        }
        if exists|i: int|
            0 <= i < pairs.len() && {
                let (other, kept) = #[trigger] pairs[i];
                &&& held.reservations.dom().contains(other)
                &&& held.write_evidence_refs.dom().contains(other)
                &&& item.correlation == held.reservations[other].correlation
                &&& item.evidence == kept
                &&& item.evidence_ref == held.write_evidence_refs[other]
            } {
            let i = choose|i: int|
                0 <= i < pairs.len() && {
                    let (other, kept) = #[trigger] pairs[i];
                    &&& held.reservations.dom().contains(other)
                    &&& held.write_evidence_refs.dom().contains(other)
                    &&& item.correlation == held.reservations[other].correlation
                    &&& item.evidence == kept
                    &&& item.evidence_ref == held.write_evidence_refs[other]
                };
            if i < n {
                assert(rest[i] == pairs[i]);
            }
        }
    }
}

/// A recovered coordinator takes up the one follow-up that is left; with more than
/// one left it is not recovered.
pub proof fn recovered_coordinator_takes_up_what_is_left(
    after: AuthorityModel,
    recovery: AuthorityRecovery,
    result: Result<CoordinatorModel, AuthorityError>,
)
    requires
        coordinator::coordinator_recovered(after, Ok(recovery), result),
    ensures
        ({
            let watched = recovery.observation_scopes@;
            let doubted = recovery.reconciliation_scopes@;
            &&& result is Ok <==> watched.len() + doubted.len() <= 1
            &&& result is Err ==> result->Err_0 == AuthorityError::Conflict
            &&& result matches Ok(taken) ==> {
                &&& taken.authority == after
                &&& taken.probing is None
                &&& taken.writing is None
                &&& watched.len() == 1 ==> taken.observing == Some(watched[0])
                &&& watched.len() == 0 ==> taken.observing is None
                &&& doubted.len() == 1 ==> taken.reconciling == Some(doubted[0])
                &&& doubted.len() == 0 ==> taken.reconciling is None
            }
        }),
{
}

/// A coordinator has native work pending while anything of its flight or its
/// follow-ups is left.
pub proof fn pending_work_is_what_is_left(model: CoordinatorModel)
    ensures
        model.pending() <==> model.probing is Some || model.writing is Some
            || model.observing is Some || model.reconciling is Some,
{
}

} // verus!
