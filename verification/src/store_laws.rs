//! Laws of the durable authority store.

use crate::bytes;
use crate::controller::{
    ActiveProofModel, NativeCoordinateKind, NativeCoordinateScope, PersistedTurnCorrelation,
    ReconciliationDisposition, ReconciliationScope, ValidatedIdlePermit,
};
use crate::ident::{AttemptId, ControllerBirthId, PrivateNativeRef, RequestNonce, Token, VerifierRef};
use crate::protocol::EventModel;
use crate::records::{
    ClaimModel, ClaimOutcome, CoordinateModel, IdempotentWrite, NativeTurnFactCommit,
    NativeWriteEvidence, NativeWriteEvidenceCommit, PersistError, PersistedControllerAttachment,
    PersistedControllerBirth, PersistedNativeReservation, PreWriteConclusionCommit,
    ReserveBirthOutcome, ThreadCreateCommit, ThreadCreateReservation, ThreadCreateResolution,
    ValidatedAttachmentScope,
};
use crate::store;
use crate::store::Store;
use crate::table;
use crate::text;
use vstd::prelude::*;
use vstd::utf8::*;

verus! {

/// An admitted claim that is repeated exactly answers with the first attempt
/// and its verifier, whatever attachment is offered, and changes nothing.
pub proof fn admission_replays(
    before: Store,
    record: ClaimModel,
    events: Seq<EventModel>,
    attachment: PersistedControllerAttachment,
    repeated: ClaimModel,
    offered: PersistedControllerAttachment,
)
    requires
        before.admit_claim(record, events, attachment).1 matches Ok(admission)
            && admission.outcome == ClaimOutcome::Admitted,
        repeated.request_id == record.request_id,
        repeated.arm_id == record.arm_id,
        repeated.generation == record.generation,
        repeated.signal_id == record.signal_id,
        repeated.event_refs == record.event_refs,
    ensures
        ({
            let after = before.admit_claim(record, events, attachment).0;
            let (again, outcome) = after.admit_claim(repeated, events, offered);
            &&& again == after
            &&& outcome matches Ok(admission)
            &&& admission.outcome == ClaimOutcome::ExactReplay
            &&& admission.attempt_id == attachment.attempt_id
            &&& admission.verifier_ref == attachment.verifier_ref
        }),
{
}

/// One generation of an arm is claimed at most once: another request for it
/// conflicts.
pub proof fn generation_claimed_once(
    before: Store,
    record: ClaimModel,
    events: Seq<EventModel>,
    attachment: PersistedControllerAttachment,
    other: ClaimModel,
    other_events: Seq<EventModel>,
    offered: PersistedControllerAttachment,
)
    requires
        before.admit_claim(record, events, attachment).1 matches Ok(admission)
            && admission.outcome == ClaimOutcome::Admitted,
        other.arm_id == record.arm_id,
        other.generation == record.generation,
        other.request_id != record.request_id,
        !before.claims.dom().contains(other.request_id),
    ensures
        ({
            let after = before.admit_claim(record, events, attachment).0;
            let (again, outcome) = after.admit_claim(other, other_events, offered);
            &&& again == after
            &&& outcome == Err::<crate::records::AdmissionRecord, PersistError>(
                PersistError::Conflict,
            )
        }),
{
    let after = before.admit_claim(record, events, attachment).0;
    assert(after.claims.dom().contains(record.request_id));
    assert(after.generation_claimed(other.arm_id, other.generation));
}

/// A reserved birth that is repeated exactly is a replay and changes nothing.
pub proof fn birth_replays(
    before: Store,
    birth: PersistedControllerBirth,
    create: ThreadCreateReservation,
)
    requires
        before.reserve_birth(birth, create).1 == Ok::<ReserveBirthOutcome, PersistError>(
            ReserveBirthOutcome::Reserved,
        ),
    ensures
        ({
            let after = before.reserve_birth(birth, create).0;
            after.reserve_birth(birth, create) == (
                after,
                Ok::<ReserveBirthOutcome, PersistError>(ReserveBirthOutcome::ExactReplay),
            )
        }),
{
}

/// A recorded create resolution that is repeated exactly is a replay and changes
/// nothing.
pub proof fn create_replays(before: Store, commit: ThreadCreateCommit)
    requires
        before.resolve_create(commit).1 == Ok::<IdempotentWrite, PersistError>(
            IdempotentWrite::Recorded,
        ),
    ensures
        ({
            let after = before.resolve_create(commit).0;
            after.resolve_create(commit) == (
                after,
                Ok::<IdempotentWrite, PersistError>(IdempotentWrite::ExactReplay),
            )
        }),
{
}

/// A definite create resolution is final: nothing that is resolved later changes
/// the ownership of that birth.
pub proof fn definite_create_is_final(before: Store, commit: ThreadCreateCommit)
    requires
        before.ownership.dom().contains(commit.birth_id),
        before.ownership[commit.birth_id] is Owned
            || before.ownership[commit.birth_id] is ProvenNotAccepted,
    ensures
        before.resolve_create(commit).0 == before,
        before.resolve_create(commit).1 != Ok::<IdempotentWrite, PersistError>(
            IdempotentWrite::Recorded,
        ),
{
}

/// An unknown create is never resent: it takes only a definite resolution, and
/// repeating "unknown" with new evidence conflicts.
pub proof fn unknown_create_stays_quarantined(before: Store, commit: ThreadCreateCommit)
    requires
        before.ownership.dom().contains(commit.birth_id),
        before.ownership[commit.birth_id] is Unknown,
        commit.resolution is Unknown,
    ensures
        before.resolve_create(commit).0 == before,
        before.resolve_create(commit).1 != Ok::<IdempotentWrite, PersistError>(
            IdempotentWrite::Recorded,
        ),
{
}

/// What is sealed for a thread is what opens once the create is resolved to
/// that reference.
pub proof fn sealed_thread_opens(
    before: Store,
    birth_id: ControllerBirthId,
    create_attempt_id: RequestNonce,
    plaintext: Seq<u8>,
    sealed: Store,
    reference: PrivateNativeRef,
    evidence_ref: VerifierRef,
)
    requires
        before.sealed_ref(
            NativeCoordinateScope::Thread { birth_id, create_attempt_id },
            plaintext,
        ) is None,
        before.sealed(
            NativeCoordinateScope::Thread { birth_id, create_attempt_id },
            NativeCoordinateKind::Thread,
            plaintext,
            sealed,
            Ok(reference),
        ),
    ensures
        ({
            let commit = ThreadCreateCommit {
                birth_id,
                create_attempt_id,
                resolution: ThreadCreateResolution::Owned { thread_ref: reference },
                evidence_ref,
            };
            let (owned, outcome) = sealed.resolve_create(commit);
            &&& outcome == Ok::<IdempotentWrite, PersistError>(IdempotentWrite::Recorded)
            &&& owned.open_coordinate(
                NativeCoordinateScope::Thread { birth_id, create_attempt_id },
                reference,
            ) == Ok::<Seq<u8>, PersistError>(plaintext)
        }),
{
}

/// What is sealed for a turn is what opens once a fact binds the turn to that
/// reference.
pub proof fn sealed_turn_opens(
    before: Store,
    scope: NativeCoordinateScope,
    plaintext: Seq<u8>,
    sealed: Store,
    reference: PrivateNativeRef,
    commit: NativeTurnFactCommit,
)
    requires
        scope is Turn,
        before.sealed_ref(scope, plaintext) is None,
        before.sealed(scope, NativeCoordinateKind::Turn, plaintext, sealed, Ok(reference)),
        commit.correlation.scope_of_turn() == scope,
        commit.fact.named_turn() == Some(reference),
        sealed.record_fact(commit).1 == Ok::<IdempotentWrite, PersistError>(
            IdempotentWrite::Recorded,
        ),
    ensures
        sealed.record_fact(commit).0.open_coordinate(scope, reference) == Ok::<
            Seq<u8>,
            PersistError,
        >(plaintext),
{
}

/// Sealing the same coordinate again gives the same reference and changes
/// nothing.
pub proof fn sealing_replays(
    before: Store,
    scope: NativeCoordinateScope,
    kind: NativeCoordinateKind,
    plaintext: Seq<u8>,
    sealed: Store,
    reference: PrivateNativeRef,
    again: Store,
    result: Result<PrivateNativeRef, PersistError>,
)
    requires
        before.coordinates.dom().finite(),
        before.sealed_ref(scope, plaintext) is None,
        before.sealed(scope, kind, plaintext, sealed, Ok(reference)),
        sealed.sealed(scope, kind, plaintext, again, result),
    ensures
        again == sealed,
        result == Ok::<PrivateNativeRef, PersistError>(reference),
{
    let wanted = |key: PrivateNativeRef, held: CoordinateModel|
        held == (CoordinateModel { scope, plaintext });
    assert forall|key: PrivateNativeRef| #[trigger]
        before.coordinates.dom().contains(key) implies before.coordinates[key] != (CoordinateModel {
        scope,
        plaintext,
    }) by {
        if wanted(key, before.coordinates[key]) {
            table::first_key_exists(before.coordinates, wanted, key);
        }
    }
    assert(sealed.coordinates.dom().contains(reference));
    assert(table::is_first(sealed.coordinates, wanted, reference));
    let chosen = choose|key: PrivateNativeRef| table::is_first(sealed.coordinates, wanted, key);
    assert(table::is_first(sealed.coordinates, wanted, chosen));
    assert(chosen == reference);
    assert(sealed.sealed_ref(scope, plaintext) == Some(reference));
}

/// A prepared dispatch that is repeated exactly is a replay; another one for the
/// same attempt conflicts. Neither changes anything.
pub proof fn preparation_is_final(
    before: Store,
    correlation: PersistedTurnCorrelation,
    other: PersistedTurnCorrelation,
)
    requires
        before.prepare_dispatch(correlation).1 is Ok,
        other.attempt_id == correlation.attempt_id,
    ensures
        ({
            let after = before.prepare_dispatch(correlation).0;
            after.prepare_dispatch(other) == (
                after,
                if other == correlation {
                    Ok::<IdempotentWrite, PersistError>(IdempotentWrite::ExactReplay)
                } else {
                    Err(PersistError::Conflict)
                },
            )
        }),
{
}

/// A zero-write conclusion is final: the same one replays, another conflicts.
pub proof fn conclusion_is_final(
    before: Store,
    commit: PreWriteConclusionCommit,
    other: PreWriteConclusionCommit,
)
    requires
        before.conclude_prewrite(commit).1 is Ok,
        other.attempt_id == commit.attempt_id,
    ensures
        ({
            let after = before.conclude_prewrite(commit).0;
            after.conclude_prewrite(other) == (
                after,
                if other.conclusion == commit.conclusion {
                    Ok::<IdempotentWrite, PersistError>(IdempotentWrite::ExactReplay)
                } else {
                    Err(PersistError::Conflict)
                },
            )
        }),
{
}

/// A recorded active hold that is repeated exactly is a replay and changes
/// nothing.
pub proof fn hold_replays(before: Store, evidence: ActiveProofModel)
    requires
        before.hold_active(evidence).1 == Ok::<IdempotentWrite, PersistError>(
            IdempotentWrite::Recorded,
        ),
    ensures
        ({
            let after = before.hold_active(evidence).0;
            after.hold_active(evidence) == (
                after,
                Ok::<IdempotentWrite, PersistError>(IdempotentWrite::ExactReplay),
            )
        }),
{
    let after = before.hold_active(evidence).0;
    assert(after.claim_of(evidence.attempt_id) == before.claim_of(evidence.attempt_id));
    assert(after.hold_authorized(evidence));
}

/// An active hold reserves nothing.
pub proof fn hold_writes_nothing(before: Store, evidence: ActiveProofModel)
    ensures
        before.hold_active(evidence).0.reservations == before.reservations,
        before.hold_active(evidence).0.write_evidence == before.write_evidence,
        before.hold_active(evidence).0.turn_facts == before.turn_facts,
{
}

/// A probe or an attempt that once reserved a write never reserves another.
pub proof fn reservation_is_single_use(
    before: Store,
    idle: ValidatedIdlePermit,
    correlation: PersistedTurnCorrelation,
    later: ValidatedIdlePermit,
    later_correlation: PersistedTurnCorrelation,
)
    requires
        before.reserve_write(idle, correlation).1 is Ok,
        later.probe_id == idle.probe_id || later.attempt_id == idle.attempt_id,
    ensures
        ({
            let after = before.reserve_write(idle, correlation).0;
            &&& after.reserve_write(later, later_correlation).0 == after
            &&& after.reserve_write(later, later_correlation).1 == Err::<
                crate::controller::NativeWriteReservation,
                PersistError,
            >(PersistError::Unauthorized)
        }),
{
}

/// A probe that reserved a write holds nothing back afterwards.
pub proof fn reserving_probe_cannot_hold(
    before: Store,
    idle: ValidatedIdlePermit,
    correlation: PersistedTurnCorrelation,
    evidence: ActiveProofModel,
)
    requires
        before.reserve_write(idle, correlation).1 is Ok,
        evidence.probe_id == idle.probe_id,
    ensures
        before.reserve_write(idle, correlation).0.hold_active(evidence).1 != Ok::<
            IdempotentWrite,
            PersistError,
        >(IdempotentWrite::Recorded),
{
}

/// Native write evidence is final: the same commit replays, another conflicts.
pub proof fn write_evidence_is_final(
    before: Store,
    commit: NativeWriteEvidenceCommit,
    other: NativeWriteEvidenceCommit,
)
    requires
        before.record_write(commit).1 is Ok,
        other.correlation == commit.correlation,
    ensures
        ({
            let after = before.record_write(commit).0;
            after.record_write(other) == (
                after,
                if other.evidence == commit.evidence && other.evidence_ref == commit.evidence_ref {
                    Ok::<IdempotentWrite, PersistError>(IdempotentWrite::ExactReplay)
                } else {
                    Err(PersistError::Conflict)
                },
            )
        }),
{
}

/// A recorded fact that is repeated is a replay and changes nothing.
pub proof fn fact_replays(before: Store, commit: NativeTurnFactCommit, again: NativeTurnFactCommit)
    requires
        before.record_fact(commit).1 is Ok,
        again.correlation == commit.correlation,
        again.fact == commit.fact,
    ensures
        ({
            let after = before.record_fact(commit).0;
            after.record_fact(again) == (
                after,
                Ok::<IdempotentWrite, PersistError>(IdempotentWrite::ExactReplay),
            )
        }),
{
    let id = commit.correlation.attempt_id;
    let facts = before.facts_of(id);
    let after = before.record_fact(commit).0;
    if !facts.contains(commit.fact) {
        assert(facts.push(commit.fact)[facts.len() as int] == commit.fact);
        assert(after.facts_of(id) == facts.push(commit.fact));
    }
}

/// Facts are only ever added, at the end.
pub proof fn facts_only_grow(before: Store, commit: NativeTurnFactCommit, id: AttemptId)
    ensures
        before.facts_of(id).is_prefix_of(before.record_fact(commit).0.facts_of(id)),
{
    let after = before.record_fact(commit).0;
    if id == commit.correlation.attempt_id {
        let facts = before.facts_of(id);
        assert(facts.is_prefix_of(facts.push(commit.fact)));
        assert(facts.is_prefix_of(facts));
    } else {
        assert(after.facts_of(id) == before.facts_of(id));
        assert(before.facts_of(id).is_prefix_of(before.facts_of(id)));
    }
}

/// A turn reference binds once: a fact that names another turn is refused.
pub proof fn turn_binding_is_final(
    before: Store,
    commit: NativeTurnFactCommit,
    later: NativeTurnFactCommit,
)
    requires
        before.record_fact(commit).1 == Ok::<IdempotentWrite, PersistError>(
            IdempotentWrite::Recorded,
        ),
        commit.fact.named_turn() is Some,
        later.correlation.attempt_id == commit.correlation.attempt_id,
        later.fact.named_turn() is Some,
        later.fact.named_turn() != commit.fact.named_turn(),
    ensures
        before.record_fact(commit).0.record_fact(later) == (
            before.record_fact(commit).0,
            Err::<IdempotentWrite, PersistError>(PersistError::Unauthorized),
        ),
{
}

/// A definite reconciliation is final: the same one replays, another conflicts.
pub proof fn reconciliation_is_final(
    before: Store,
    scope: ReconciliationScope,
    disposition: ReconciliationDisposition,
    other: ReconciliationDisposition,
)
    requires
        before.record_reconciliation(scope, disposition).1 is Ok,
        disposition != ReconciliationDisposition::Unknown,
    ensures
        ({
            let after = before.record_reconciliation(scope, disposition).0;
            after.record_reconciliation(scope, other) == (
                after,
                if other == disposition {
                    Ok::<IdempotentWrite, PersistError>(IdempotentWrite::ExactReplay)
                } else {
                    Err(PersistError::Conflict)
                },
            )
        }),
{
}

/// A revocation that is repeated is a replay, and a revoked attachment never
/// reserves a write again.
pub proof fn revocation_holds(
    before: Store,
    scope: ValidatedAttachmentScope,
    idle: ValidatedIdlePermit,
    correlation: PersistedTurnCorrelation,
)
    requires
        before.revoke_attachment(scope).1 is Ok,
        idle.attempt_id == scope.attempt_id,
    ensures
        ({
            let after = before.revoke_attachment(scope).0;
            &&& after.revoke_attachment(scope) == (
                after,
                Ok::<IdempotentWrite, PersistError>(IdempotentWrite::ExactReplay),
            )
            &&& after.reserve_write(idle, correlation).1 is Err
        }),
{
}

/// Settling twice is settling once.
pub proof fn settling_is_idempotent(before: Store)
    ensures
        before.settled().settled() == before.settled(),
{
    let once = before.settled();
    let twice = once.settled();
    assert(twice.ownership =~= once.ownership);
    assert(twice.write_evidence =~= once.write_evidence);
    assert(twice.turn_facts =~= once.turn_facts);
}

/// What marking leaves alone, and what it reaches.
proof fn marking(before: Store, ids: Seq<AttemptId>, refs: Seq<VerifierRef>)
    requires
        ids.len() == refs.len(),
    ensures
        ({
            let after = before.mark_all(ids, refs);
            &&& after.ownership == before.ownership
            &&& after.turn_facts == before.turn_facts
            &&& after.claims == before.claims
            &&& after.arms == before.arms
            &&& after.attachments == before.attachments
            &&& after.births == before.births
            &&& after.consumed_probes == before.consumed_probes
            &&& after.coordinates == before.coordinates
            &&& after.prepared == before.prepared
            &&& after.prewrite == before.prewrite
            &&& after.reconciliations == before.reconciliations
            &&& after.reservations.dom() == before.reservations.dom()
            &&& forall|id: AttemptId| #[trigger]
                after.write_evidence.dom().contains(id) <==> before.write_evidence.dom().contains(id)
                    || ids.contains(id)
            &&& forall|id: AttemptId|
                ids.contains(id) ==> #[trigger] after.write_evidence[id]
                    == NativeWriteEvidence::Unknown
            &&& forall|id: AttemptId|
                !ids.contains(id) ==> #[trigger] after.write_evidence[id]
                    == before.write_evidence[id]
            &&& forall|id: AttemptId|
                !ids.contains(id) && before.reservations.dom().contains(id)
                    ==> #[trigger] after.reservations[id] == before.reservations[id]
        }),
    decreases ids.len(),
{
    if ids.len() > 0 {
        let fewer = ids.drop_last();
        marking(before, fewer, refs.drop_last());
        let middle = before.mark_all(fewer, refs.drop_last());
        let after = before.mark_all(ids, refs);
        assert forall|id: AttemptId| ids.contains(id) <==> fewer.contains(id) || id == ids.last() by {
            if ids.contains(id) {
                let i = choose|i: int| 0 <= i < ids.len() && ids[i] == id;
                if i < fewer.len() {
                    assert(fewer[i] == id);
                }
            }
            if fewer.contains(id) {
                let i = choose|i: int| 0 <= i < fewer.len() && fewer[i] == id;
                assert(ids[i] == id);
            }
            assert(ids[ids.len() - 1] == ids.last());
        }
        assert(after.reservations.dom() =~= middle.reservations.dom());
    } else {
        assert forall|id: AttemptId| !ids.contains(id) by {}
    }
}

/// The unresolved attempts are those of the listed reservations that are.
proof fn unresolved_listed(
    before: Store,
    pairs: Seq<(AttemptId, PersistedNativeReservation)>,
    id: AttemptId,
)
    ensures
        before.unresolved_ids(pairs).contains(id) <==> exists|i: int|
            0 <= i < pairs.len() && (#[trigger] pairs[i]).0 == id && before.unresolved(
                pairs[i].0,
                pairs[i].1,
            ),
    decreases pairs.len(),
{
    if pairs.len() > 0 {
        let fewer = pairs.drop_last();
        unresolved_listed(before, fewer, id);
        let rest = before.unresolved_ids(fewer);
        let all = before.unresolved_ids(pairs);
        if all.contains(id) {
            let k = choose|k: int| 0 <= k < all.len() && all[k] == id;
            if k < rest.len() {
                assert(rest[k] == id);
                assert(rest.contains(id));
                let i = choose|i: int|
                    0 <= i < fewer.len() && (#[trigger] fewer[i]).0 == id && before.unresolved(
                        fewer[i].0,
                        fewer[i].1,
                    );
                assert(pairs[i] == fewer[i]);
            } else {
                assert(pairs[pairs.len() - 1].0 == id);
            }
        }
        if exists|i: int|
            0 <= i < pairs.len() && (#[trigger] pairs[i]).0 == id && before.unresolved(
                pairs[i].0,
                pairs[i].1,
            ) {
            let i = choose|i: int|
                0 <= i < pairs.len() && (#[trigger] pairs[i]).0 == id && before.unresolved(
                    pairs[i].0,
                    pairs[i].1,
                );
            if i < fewer.len() {
                assert(fewer[i] == pairs[i]);
                let k = choose|k: int| 0 <= k < rest.len() && rest[k] == id;
                assert(all[k] == id);
            } else {
                assert(all.last() == id);
                assert(all[all.len() - 1] == id);
            }
        }
    }
}

/// A complete recovery leaves no create merely reserved and no write without a
/// conclusion or evidence. Facts that were on record stay, and no claim,
/// attachment, birth, consumed probe or sealed coordinate is lost.
pub proof fn recovery_settles(
    before: Store,
    pairs: Seq<(AttemptId, PersistedNativeReservation)>,
    refs: Seq<VerifierRef>,
    after: Store,
)
    requires
        before.recovers(pairs, refs, after),
        before.all_marked(pairs, refs),
    ensures
        forall|id: ControllerBirthId|
            after.ownership.dom().contains(id) ==> !(#[trigger] after.ownership[id] is Reserved),
        forall|id: AttemptId| #[trigger]
            after.reservations.dom().contains(id) ==> after.reservations[id].concluded
                || after.write_evidence.dom().contains(id),
        forall|id: AttemptId| #[trigger]
            before.turn_facts.dom().contains(id) ==> after.turn_facts.dom().contains(id)
                && after.turn_facts[id] == before.turn_facts[id],
        after.arms == before.arms,
        after.claims == before.claims,
        after.attachments == before.attachments,
        after.births == before.births,
        after.consumed_probes == before.consumed_probes,
        after.coordinates == before.coordinates,
        after.prewrite == before.prewrite,
        after.reconciliations == before.reconciliations,
{
    let settled = before.settled();
    let ids = settled.unresolved_ids(pairs);
    assert(ids.take(refs.len() as int) =~= ids);
    marking(settled, ids, refs);
    assert forall|id: AttemptId| #[trigger] after.reservations.dom().contains(id) implies (
    after.reservations[id].concluded || after.write_evidence.dom().contains(id)) by {
        if !ids.contains(id) {
            assert(after.reservations[id] == before.reservations[id]);
            assert(table::has_key(pairs, id));
            let i = choose|i: int| 0 <= i < pairs.len() && (#[trigger] pairs[i]).0 == id;
            table::ascending_at(pairs, i);
            unresolved_listed(settled, pairs, id);
            assert(!settled.unresolved(pairs[i].0, pairs[i].1));
        }
    }
}

/// Recovering a recovered store changes nothing.
pub proof fn recovery_is_idempotent(
    before: Store,
    pairs: Seq<(AttemptId, PersistedNativeReservation)>,
    refs: Seq<VerifierRef>,
    after: Store,
    later_pairs: Seq<(AttemptId, PersistedNativeReservation)>,
    later_refs: Seq<VerifierRef>,
    again: Store,
)
    requires
        before.recovers(pairs, refs, after),
        before.all_marked(pairs, refs),
        after.recovers(later_pairs, later_refs, again),
    ensures
        again == after,
        after.all_marked(later_pairs, later_refs),
{
    recovery_settles(before, pairs, refs, after);
    let settled = before.settled();
    let ids = settled.unresolved_ids(pairs);
    assert(ids.take(refs.len() as int) =~= ids);
    marking(settled, ids, refs);
    settling_is_idempotent(before);
    assert(after.settled().ownership =~= after.ownership);
    assert forall|id: AttemptId| after.write_evidence.dom().contains(id) implies
        #[trigger] after.settled().write_evidence[id] == after.write_evidence[id] by {
        if !ids.contains(id) {
            assert(settled.settled().write_evidence[id] == settled.write_evidence[id]);
        }
    }
    assert(after.settled().write_evidence =~= after.write_evidence);
    assert forall|id: AttemptId| after.answered(id) implies after.turn_facts.dom().contains(id) by {
        if !ids.contains(id) {
            assert(before.answered(id) || before.turn_facts.dom().contains(id));
        }
    }
    assert(after.settled().turn_facts =~= after.turn_facts);
    assert(after.settled() == after);
    let left = after.unresolved_ids(later_pairs);
    if left.len() > 0 {
        let id = left[0];
        assert(left.contains(id));
        unresolved_listed(after, later_pairs, id);
        let i = choose|i: int|
            0 <= i < later_pairs.len() && (#[trigger] later_pairs[i]).0 == id && after.unresolved(
                later_pairs[i].0,
                later_pairs[i].1,
            );
        table::ascending_at(later_pairs, i);
        assert(after.reservations.dom().contains(id));
        assert(after.reservations[id] == later_pairs[i].1);
    }
    assert(left.take(later_refs.len() as int) =~= Seq::<AttemptId>::empty());
}

/// Every identifier in the evidence is a token, and every field has a length
/// that eight bytes can state.
pub open spec fn evidence_valid(evidence: ActiveProofModel) -> bool {
    &&& evidence.seat_id.token.well_formed()
    &&& evidence.arm_id.token.well_formed()
    &&& evidence.attempt_id.token.well_formed()
    &&& evidence.signal_id.token.well_formed()
    &&& evidence.mutation_epoch.birth_id == evidence.birth_id
    &&& evidence.prehash.len() <= u64::MAX
    &&& encode_utf8(evidence.producer_version).len() <= u64::MAX
    &&& encode_utf8(evidence.producer_dialect).len() <= u64::MAX
}

proof fn array_view_injective(a: [u8; 32], b: [u8; 32])
    requires
        a@ == b@,
    ensures
        a == b,
{
    bytes::array_of_view(a);
    bytes::array_of_view(b);
}

/// The fingerprint binds the whole observation: what is hashed determines every
/// part of the evidence.
pub proof fn fingerprint_binds_evidence(a: ActiveProofModel, b: ActiveProofModel)
    requires
        evidence_valid(a),
        evidence_valid(b),
        store::fingerprint_input(a) == store::fingerprint_input(b),
    ensures
        a == b,
{
    let prefix = encode_utf8(store::FINGERPRINT_DOMAIN@);
    let x = store::fingerprint_fields(a);
    let y = store::fingerprint_fields(b);
    assert(store::fingerprint_input(a).skip(prefix.len() as int) =~= bytes::frame(x));
    assert(store::fingerprint_input(b).skip(prefix.len() as int) =~= bytes::frame(y));
    assert forall|i: int| 0 <= i < x.len() implies (#[trigger] x[i]).len() <= u64::MAX by {
        field_lengths(a, i);
    }
    assert forall|i: int| 0 <= i < y.len() implies (#[trigger] y[i]).len() <= u64::MAX by {
        field_lengths(b, i);
    }
    bytes::frame_injective(x, y);
    assert(x[0] == y[0] && x[1] == y[1] && x[2] == y[2] && x[3] == y[3] && x[4] == y[4] && x[5]
        == y[5] && x[7] == y[7] && x[8] == y[8] && x[9] == y[9] && x[10] == y[10] && x[11] == y[11]
        && x[12] == y[12] && x[13] == y[13] && x[14] == y[14] && x[15] == y[15] && x[16] == y[16]);
    array_view_injective(a.birth_id.0, b.birth_id.0);
    array_view_injective(a.create_attempt_id.0, b.create_attempt_id.0);
    array_view_injective(a.thread_ref.0, b.thread_ref.0);
    array_view_injective(a.attachment_verifier_ref.0, b.attachment_verifier_ref.0);
    array_view_injective(a.probe_id.0, b.probe_id.0);
    Token::text_injective(a.seat_id.token, b.seat_id.token);
    Token::text_injective(a.arm_id.token, b.arm_id.token);
    Token::text_injective(a.attempt_id.token, b.attempt_id.token);
    Token::text_injective(a.signal_id.token, b.signal_id.token);
    assert(bytes::pow256(8) == 0x1_0000_0000_0000_0000int) by {
        reveal_with_fuel(bytes::pow256, 9);
    }
    assert(bytes::pow256(16) == 0x1_0000_0000_0000_0000_0000_0000_0000_0000int) by {
        reveal_with_fuel(bytes::pow256, 17);
    }
    bytes::le_bytes_injective(a.generation as int, b.generation as int, 8);
    bytes::le_bytes_injective(
        a.mutation_epoch.sequence as int,
        b.mutation_epoch.sequence as int,
        8,
    );
    bytes::le_bytes_injective(
        bytes::twos_complement(a.lease_until.nanos),
        bytes::twos_complement(b.lease_until.nanos),
        16,
    );
    bytes::le_bytes_injective(
        bytes::twos_complement(a.observed_at.nanos),
        bytes::twos_complement(b.observed_at.nanos),
        16,
    );
    text::utf8_injective(a.producer_version, b.producer_version);
    text::utf8_injective(a.producer_dialect, b.producer_dialect);
}

proof fn field_lengths(a: ActiveProofModel, i: int)
    requires
        evidence_valid(a),
        0 <= i < store::fingerprint_fields(a).len(),
    ensures
        store::fingerprint_fields(a)[i].len() <= u64::MAX,
{
    bytes::le_bytes_len(a.generation as int, 8);
    bytes::le_bytes_len(a.mutation_epoch.sequence as int, 8);
    bytes::le_bytes_len(bytes::twos_complement(a.lease_until.nanos), 16);
    bytes::le_bytes_len(bytes::twos_complement(a.observed_at.nanos), 16);
    a.seat_id.token.text_bounded();
    a.arm_id.token.text_bounded();
    a.attempt_id.token.text_bounded();
    a.signal_id.token.text_bounded();
}

} // verus!
