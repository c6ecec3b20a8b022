//! Laws of daemon authority and of the coordinator above it.

use crate::authority::{AuthorityError, ControllerBirthReservation, PreparedDispatch, ProbeAuthorization};
use crate::authority_model;
use crate::authority_model::AuthorityModel;
use crate::controller::{
    ControllerProbeError, ControllerReconcileError, ControllerWriteError, IdleProbeResult,
    NativeTurnFact, NativeWriteDisposition, ReconciliationDisposition,
};
use crate::coordinator::{CoordinatedProbe, CoordinatorModel};
use crate::ident;
use crate::ident::{AttemptId, ControllerBirthId, EntropyError, RequestNonce, VerifierRef};
use crate::protocol::EventModel;
use crate::records::{ClaimOutcome, PersistedNativeWriteEvidence};
use crate::store;
use crate::text;
use vstd::prelude::*;
use vstd::utf8::*;

verus! {

/// An active or unproven probe never leads to a native write: there is no
/// command, and no write is reserved.
pub proof fn busy_probe_writes_nothing(
    before: AuthorityModel,
    prepared: PreparedDispatch,
    result: Result<IdleProbeResult, ControllerProbeError>,
)
    requires
        result matches Ok(observed) ==> !(observed is Idle),
    ensures
        ({
            let (after, authorized) = before.authorize(prepared, result);
            &&& !(authorized matches Ok(ProbeAuthorization::Ready(_)))
            &&& after.store.reservations.dom() == before.store.reservations.dom()
            &&& after.store.write_evidence == before.store.write_evidence
            &&& after.store.turn_facts == before.store.turn_facts
        }),
{
    let (after, authorized) = before.authorize(prepared, result);
    assert(after.store.reservations.dom() =~= before.store.reservations.dom());
}

/// A command exists only behind a new durable reservation: of this attempt,
/// under this probe, which is consumed by it.
pub proof fn command_needs_reservation(
    before: AuthorityModel,
    prepared: PreparedDispatch,
    result: Result<IdleProbeResult, ControllerProbeError>,
)
    requires
        before.authorize(prepared, result).1 matches Ok(ProbeAuthorization::Ready(_)),
    ensures
        ({
            let (after, authorized) = before.authorize(prepared, result);
            let write = authorized->Ok_0->Ready_0;
            let id = prepared.correlation.attempt_id;
            &&& !before.store.reservations.dom().contains(id)
            &&& !before.store.consumed_probes.contains(prepared.expected_probe_id)
            &&& after.store.reservations.dom().contains(id)
            &&& after.store.reservations[id].correlation == write.command.correlation
            &&& after.store.reservations[id].probe_id == write.command.expected_probe_id
            &&& after.store.reservations[id].expected_epoch == write.command.expected_epoch
            &&& !after.store.reservations[id].concluded
            &&& after.store.consumed_probes.contains(prepared.expected_probe_id)
            &&& write.command.expected_probe_id == prepared.expected_probe_id
            &&& write.lane.probe_id == prepared.expected_probe_id
            &&& write.lane.epoch == write.command.expected_epoch
        }),
{
}

/// A prepared dispatch is authorized at most once: a second authorization of the
/// same dispatch gives no command.
pub proof fn dispatch_is_authorized_once(
    before: AuthorityModel,
    prepared: PreparedDispatch,
    first: Result<IdleProbeResult, ControllerProbeError>,
    second: Result<IdleProbeResult, ControllerProbeError>,
)
    requires
        before.authorize(prepared, first).1 matches Ok(ProbeAuthorization::Ready(_)),
    ensures
        !(before.authorize(prepared, first).0.authorize(prepared, second).1 matches Ok(
            ProbeAuthorization::Ready(_),
        )),
{
    command_needs_reservation(before, prepared, first);
    let middle = before.authorize(prepared, first).0;
    if middle.authorize(prepared, second).1 matches Ok(ProbeAuthorization::Ready(_)) {
        command_needs_reservation(middle, prepared, second);
    }
}

/// One generation of an arm gets one birth: while it stands, no other birth is
/// reserved for it, whatever is drawn. An unknown create is never sent again.
pub proof fn generation_is_born_once(
    before: AuthorityModel,
    arm_id: Seq<char>,
    birth_id: Result<ControllerBirthId, EntropyError>,
    create_attempt_id: Result<RequestNonce, EntropyError>,
    verifier_ref: Result<VerifierRef, EntropyError>,
    later_birth: Result<ControllerBirthId, EntropyError>,
    later_create: Result<RequestNonce, EntropyError>,
    later_verifier: Result<VerifierRef, EntropyError>,
)
    requires
        before.arms.dom().contains(ident::ArmId::named(arm_id)),
        before.arms[ident::ArmId::named(arm_id)].arm_id == ident::ArmId::named(arm_id),
        before.reserve_birth(arm_id, birth_id, create_attempt_id, verifier_ref).1 is Ok,
    ensures
        ({
            let after = before.reserve_birth(
                arm_id,
                birth_id,
                create_attempt_id,
                verifier_ref,
            ).0;
            after.reserve_birth(arm_id, later_birth, later_create, later_verifier) == (
                after,
                Err::<ControllerBirthReservation, AuthorityError>(AuthorityError::Conflict),
            )
        }),
{
    let after = before.reserve_birth(arm_id, birth_id, create_attempt_id, verifier_ref).0;
    assert(after.births.dom().contains(birth_id->Ok_0));
}

/// A birth reservation binds the seat, generation and coverage of its arm.
pub proof fn birth_is_bound_to_its_arm(
    before: AuthorityModel,
    arm_id: Seq<char>,
    birth_id: Result<ControllerBirthId, EntropyError>,
    create_attempt_id: Result<RequestNonce, EntropyError>,
    verifier_ref: Result<VerifierRef, EntropyError>,
)
    requires
        before.reserve_birth(arm_id, birth_id, create_attempt_id, verifier_ref).1 is Ok,
    ensures
        ({
            let (after, result) = before.reserve_birth(
                arm_id,
                birth_id,
                create_attempt_id,
                verifier_ref,
            );
            let arm = before.arms[ident::ArmId::named(arm_id)];
            let binding = result->Ok_0.binding;
            &&& binding.seat_id == arm.seat_id
            &&& binding.arm_id == arm.arm_id
            &&& binding.generation == arm.generation
            &&& binding.lease_until == arm.coverage_until
            &&& before.now.nanos < binding.lease_until.nanos
            &&& after.store.births.dom().contains(binding.birth_id)
            &&& after.store.ownership[binding.birth_id] == (
            crate::records::ThreadOwnershipState::Reserved {
                create_attempt_id: result->Ok_0.create_attempt_id,
            })
        }),
{
}

/// Every generated attempt text can be an identifier.
pub proof fn attempt_text_is_valid(sequence: u64)
    ensures
        authority_model::id_text(AuthorityModel::attempt_text(sequence as int)),
{
    let chars = AuthorityModel::attempt_text(sequence as int);
    let digits = text::decimal(sequence as nat);
    reveal_strlit("attempt-");
    assert(text::pow10(20) > u64::MAX) by {
        reveal_with_fuel(text::pow10, 21);
    }
    text::decimal_digits(sequence as nat, 20);
    assert forall|i: int| 0 <= i < chars.len() implies '-' <= #[trigger] chars[i] <= 'z'
        && ident::token_byte(chars[i] as u8) by {
        if i >= 8 {
            assert(chars[i] == digits[i - 8]);
        }
    }
    assert(is_ascii_chars(chars));
    is_ascii_chars_encode_utf8(chars);
}

/// Different attempt numbers give different attempt identifiers.
pub proof fn attempts_are_distinct(a: u64, b: u64, first: AttemptId, second: AttemptId)
    requires
        a != b,
        first.chars() == AuthorityModel::attempt_text(a as int),
        second.chars() == AuthorityModel::attempt_text(b as int),
    ensures
        first != second,
{
    if first == second {
        let n = authority_model::ATTEMPT_PREFIX@.len() as int;
        assert(first.chars().skip(n) =~= text::decimal(a as nat));
        assert(second.chars().skip(n) =~= text::decimal(b as nat));
        text::decimal_injective(a as nat, b as nat);
    }
}

/// A claim that is repeated exactly names the first attempt again and leaves
/// authority as it was: there is no second receipt and no second attempt.
pub proof fn claim_replays(
    before: AuthorityModel,
    arm_id: Seq<char>,
    request_id: Seq<char>,
    signal_id: Seq<char>,
    events: Seq<EventModel>,
    verifier_ref: Result<VerifierRef, EntropyError>,
    later_verifier: VerifierRef,
)
    requires
        before.attempt_seq < u64::MAX - 1,
        before.accept_claim(arm_id, request_id, signal_id, events, verifier_ref).1 matches Ok(
            admission,
        ) && admission.0 == ClaimOutcome::Admitted,
    ensures
        ({
            let (after, result) = before.accept_claim(
                arm_id,
                request_id,
                signal_id,
                events,
                verifier_ref,
            );
            after.accept_claim(arm_id, request_id, signal_id, events, Ok(later_verifier)) == (
                after,
                Ok::<(ClaimOutcome, AttemptId), AuthorityError>(
                    (ClaimOutcome::ExactReplay, result->Ok_0.1),
                ),
            )
        }),
{
    let after = before.accept_claim(arm_id, request_id, signal_id, events, verifier_ref).0;
    let id = ident::ArmId::named(arm_id);
    attempt_text_is_valid((before.attempt_seq + 2) as u64);
    assert(after.owning_birth(after.arms[id], id) == before.owning_birth(before.arms[id], id));
}

/// A revoked attachment authorizes nothing any more.
pub proof fn revocation_ends_authority(
    before: AuthorityModel,
    attempt_id: Seq<char>,
    prepared: PreparedDispatch,
    result: Result<IdleProbeResult, ControllerProbeError>,
)
    requires
        before.revoke(attempt_id).1 is Ok,
        before.attachment_key(attempt_id) == Some(prepared.attachment.attempt_id),
    ensures
        before.revoke(attempt_id).0.authorize(prepared, result).1 is Err,
{
}

/// Past its lease an attachment authorizes nothing, and nothing changes.
pub proof fn lease_bounds_authority(
    before: AuthorityModel,
    prepared: PreparedDispatch,
    result: Result<IdleProbeResult, ControllerProbeError>,
)
    requires
        prepared.attachment.lease_until.nanos <= before.now.nanos,
    ensures
        before.authorize(prepared, result).1 is Err,
        before.authorize(prepared, result).0 == before,
{
}

/// A write that the controller reports as stopped before any byte concludes
/// without write evidence and leaves nothing to follow up.
pub proof fn invalidated_epoch_leaves_no_write(
    before: AuthorityModel,
    prepared: PreparedDispatch,
    disposition: NativeWriteDisposition,
    evidence_ref: Result<VerifierRef, EntropyError>,
    fact_ref: Result<VerifierRef, EntropyError>,
)
    requires
        disposition is IdleEpochInvalidated,
        before.conclude(prepared, Ok(disposition), evidence_ref, fact_ref).1 is Ok,
    ensures
        ({
            let (after, result) = before.conclude(
                prepared,
                Ok(disposition),
                evidence_ref,
                fact_ref,
            );
            &&& after.store.write_evidence == before.store.write_evidence
            &&& after.store.turn_facts == before.store.turn_facts
            &&& result->Ok_0.observation_scope is None
            &&& result->Ok_0.reconciliation_scope is None
        }),
{
}

/// A concluded write has at most one follow-up: an exact response is observed,
/// an unknown outcome reconciled, a proven rejection neither.
pub proof fn conclusion_has_one_followup(
    before: AuthorityModel,
    prepared: PreparedDispatch,
    disposition: Result<NativeWriteDisposition, ControllerWriteError>,
    evidence_ref: Result<VerifierRef, EntropyError>,
    fact_ref: Result<VerifierRef, EntropyError>,
)
    requires
        before.conclude(prepared, disposition, evidence_ref, fact_ref).1 is Ok,
    ensures
        ({
            let conclusion = before.conclude(
                prepared,
                disposition,
                evidence_ref,
                fact_ref,
            ).1->Ok_0;
            &&& !(conclusion.observation_scope is Some && conclusion.reconciliation_scope is Some)
            &&& conclusion.reconciliation_scope is Some <==> conclusion.disposition is Unknown
            &&& conclusion.observation_scope is Some <==> conclusion.disposition is Accepted
                || conclusion.disposition is ExactResponse
        }),
{
}

/// A recovered write whose turn has ended needs nothing more, whatever else is
/// on record.
pub proof fn terminal_facts_are_not_reopened(
    record: PersistedNativeWriteEvidence,
    facts: Seq<NativeTurnFact>,
    reconciliation: Option<ReconciliationDisposition>,
    i: int,
)
    requires
        0 <= i < facts.len(),
        facts[i] is Terminal,
    ensures
        authority_model::followup(record, facts, reconciliation) is Nothing,
{
}

/// Never is a probe outstanding together with a write.
pub open spec fn single_flight(coordinator: CoordinatorModel) -> bool {
    !(coordinator.probing is Some && coordinator.writing is Some)
}

/// Every operation of a coordinator keeps it to a single flight.
pub proof fn coordinator_keeps_single_flight(
    before: CoordinatorModel,
    receipt: crate::authority::AdmissionReceipt,
    first_nonce: Result<RequestNonce, EntropyError>,
    second_nonce: Result<RequestNonce, EntropyError>,
    probe: Result<IdleProbeResult, ControllerProbeError>,
    disposition: Result<NativeWriteDisposition, ControllerWriteError>,
    reconciliation: Result<ReconciliationDisposition, ControllerReconcileError>,
    fact: Option<NativeTurnFact>,
    first_ref: Result<VerifierRef, EntropyError>,
    second_ref: Result<VerifierRef, EntropyError>,
)
    requires
        single_flight(before),
    ensures
        single_flight(before.prepare(receipt, first_nonce, second_nonce).0),
        single_flight(before.authorize(probe).0),
        single_flight(before.conclude(disposition, first_ref, second_ref).0),
        single_flight(before.record_polled(fact, first_ref).0),
        single_flight(before.record_reconciled(reconciliation, first_ref).0),
{
}

/// While a probe or a write is outstanding nothing else is prepared, and nothing
/// changes.
pub proof fn preparation_waits_for_the_flight(
    before: CoordinatorModel,
    receipt: crate::authority::AdmissionReceipt,
    first_nonce: Result<RequestNonce, EntropyError>,
    second_nonce: Result<RequestNonce, EntropyError>,
)
    requires
        before.probing is Some || before.writing is Some,
    ensures
        before.prepare(receipt, first_nonce, second_nonce) == (
            before,
            Err::<crate::controller::IdleProbeScope, AuthorityError>(AuthorityError::Conflict),
        ),
{
}

/// A probe is used up by its authorization, whatever comes of it.
pub proof fn probe_is_used_up(
    before: CoordinatorModel,
    probe: Result<IdleProbeResult, ControllerProbeError>,
    later: Result<IdleProbeResult, ControllerProbeError>,
)
    ensures
        before.authorize(probe).0.probing is None,
        before.authorize(probe).0.authorize(later).1 == Err::<CoordinatedProbe, AuthorityError>(
            AuthorityError::Conflict,
        ),
{
}

/// A terminal observation ends the observation and leaves nothing to reconcile.
pub proof fn terminal_observation_closes(
    before: CoordinatorModel,
    fact: NativeTurnFact,
    evidence_ref: Result<VerifierRef, EntropyError>,
)
    requires
        fact is Terminal,
        before.record_polled(Some(fact), evidence_ref).1 is Ok,
    ensures
        before.record_polled(Some(fact), evidence_ref).0.observing is None,
        before.record_polled(Some(fact), evidence_ref).0.reconciling is None,
{
}

} // verus!
