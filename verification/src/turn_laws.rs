//! Laws of a managed turn: what authority allows, records and leaves to do.

use crate::authority::{
    AdmissionReceipt, AuthorityError, AuthorizedNativeWrite, ControllerBirthReservation,
    CreateResolution, ExactObservationRecord, NativeWriteConclusion, PreparedDispatch,
    ProbeAuthorization, QuarantinedBirthReservation, ReconciliationPhase,
};
use crate::authority_laws;
use crate::authority_model;
use crate::authority_model::{AuthorityModel, Followup};
use crate::controller::{
    ControllerAttachment, ControllerBirthBinding, ControllerCommand, ControllerIdleGuard,
    IdleProbeObservation, IdleProbeResult, IdleProbeScope, ManagedCapability, NativeMutationEpoch,
    NativeTurnFact, NativeWriteDisposition, ObservationScope, PersistedTurnCorrelation,
    ProbeBinding, ReconciliationDisposition, ReconciliationScope, SignalAction, TerminalClass,
};
use crate::ident::{
    ArmId, AttemptId, ClaimRequestId, ControllerBirthId, EntropyError, PrivateNativeRef,
    RequestNonce, SeatId, SignalId, VerifierRef,
};
use crate::primitives;
use crate::protocol::EventModel;
use crate::records::{
    ClaimModel, ClaimOutcome, IdempotentWrite, NativeWriteEvidence, PersistError, PersistedArm,
    PersistedControllerAttachment, PersistedControllerBirth, PersistedNativeReservation,
    PersistedNativeWriteEvidence, PersistedPreWriteConclusion, PersistedThreadOwnership,
    PreWriteConclusion, ThreadCreateReservation, ThreadCreateResolution, ThreadOwnershipState,
};
use crate::store;
use crate::store::Store;
use crate::table;
use crate::text;
use crate::timestamp::Timestamp;
use vstd::prelude::*;
use vstd::string::*;
use vstd::utf8::*;

verus! {

/// An attachment that authority holds unrevoked, with a live birth and arm of its
/// own seat and generation behind it, while both leases run.
pub open spec fn current(
    authority: AuthorityModel,
    attachment: PersistedControllerAttachment,
) -> bool {
    let birth = authority.births[attachment.birth_id];
    &&& authority.attachments.dom().contains(attachment.attempt_id)
    &&& authority.attachments[attachment.attempt_id] == attachment
    &&& !attachment.revoked
    &&& attachment.capability == ManagedCapability::HandleClaimedSignal
    &&& authority.now.nanos < attachment.lease_until.nanos
    &&& authority.births.dom().contains(attachment.birth_id)
    &&& !birth.revoked
    &&& birth.arm_id == attachment.arm_id
    &&& birth.seat_id == attachment.seat_id
    &&& birth.generation == attachment.generation
    &&& authority.now.nanos < birth.lease_until.nanos
    &&& authority.arms.dom().contains(attachment.arm_id)
    &&& authority.arms[attachment.arm_id].generation == attachment.generation
}

/// An observation under the challenge of a prepared dispatch, for its own
/// attachment, signal and thread.
pub open spec fn answers(prepared: PreparedDispatch, binding: ProbeBinding) -> bool {
    &&& binding.challenge_id == prepared.expected_probe_id
    &&& binding.signal_id == prepared.correlation.signal_id
    &&& binding.thread_ref == prepared.correlation.thread_ref
    &&& binding.attachment.attempt_id == prepared.correlation.attempt_id
    &&& binding.attachment.birth_id == prepared.correlation.birth_id
    &&& binding.attachment.arm_id == prepared.attachment.arm_id
    &&& binding.attachment.generation == prepared.attachment.generation
    &&& binding.attachment.seat_id == prepared.attachment.seat_id
    &&& binding.attachment.capability == prepared.attachment.capability
    &&& binding.attachment.lease_until == prepared.attachment.lease_until
    &&& binding.attachment.verifier_ref == prepared.attachment.verifier_ref
}

/// An idle thread, observed at most five seconds ago in answer to the prepared
/// dispatch's challenge, starts the turn: the write is reserved under that probe,
/// which is used up, and the command is for exactly this attempt.
pub proof fn recent_idle_probe_starts_the_turn(
    before: AuthorityModel,
    prepared: PreparedDispatch,
    binding: ProbeBinding,
    epoch: NativeMutationEpoch,
    observed_at: Timestamp,
)
    requires
        current(before, prepared.attachment),
        answers(prepared, binding),
        prepared.attachment.attempt_id == prepared.correlation.attempt_id,
        prepared.attachment.birth_id == prepared.correlation.birth_id,
        epoch.birth_id == prepared.correlation.birth_id,
        observed_at.nanos <= before.now.nanos,
        before.now.nanos < observed_at.nanos + 5_000_000_000,
        before.store.attachments.dom().contains(prepared.attachment.attempt_id),
        before.store.attachments[prepared.attachment.attempt_id] == prepared.attachment,
        !before.store.consumed_probes.contains(prepared.expected_probe_id),
        !before.store.reservations.dom().contains(prepared.correlation.attempt_id),
    ensures
        ({
            let probe_id = prepared.expected_probe_id;
            let id = prepared.correlation.attempt_id;
            let lane = ControllerIdleGuard { probe_id, epoch };
            let observation = IdleProbeObservation::Idle { binding, probe_id, epoch, observed_at };
            let (after, authorized) = before.authorize(
                prepared,
                Ok(IdleProbeResult::Idle { observation, lane }),
            );
            let write = *authorized->Ok_0->Ready_0;
            let attachment = prepared.attachment;
            &&& authorized is Ok
            &&& authorized->Ok_0 is Ready
            &&& write.prepared == prepared
            &&& write.lane == lane
            &&& write.command == (ControllerCommand {
                attachment: ControllerAttachment {
                    attempt_id: attachment.attempt_id,
                    birth_id: attachment.birth_id,
                    arm_id: attachment.arm_id,
                    generation: attachment.generation,
                    seat_id: attachment.seat_id,
                    capability: attachment.capability,
                    lease_until: attachment.lease_until,
                    verifier_ref: attachment.verifier_ref,
                },
                action: SignalAction { signal_id: prepared.correlation.signal_id },
                correlation: prepared.correlation,
                expected_probe_id: probe_id,
                expected_epoch: epoch,
            })
            &&& after.store.reservations == before.store.reservations.insert(
                id,
                PersistedNativeReservation {
                    correlation: prepared.correlation,
                    probe_id,
                    expected_epoch: epoch,
                    concluded: false,
                },
            )
            &&& after.store.consumed_probes == before.store.consumed_probes.insert(probe_id)
            &&& after.store.write_evidence == before.store.write_evidence
            &&& after.store.prewrite == before.store.prewrite
            &&& after.attachments == before.attachments
            &&& after.now == before.now
        }),
{
}

/// An observation that is five seconds old, or lies in the future, authorizes
/// nothing, whether it shows the thread idle or leaves it unproven; nothing
/// changes.
pub proof fn outdated_probe_is_refused(
    before: AuthorityModel,
    prepared: PreparedDispatch,
    binding: ProbeBinding,
    probe_id: RequestNonce,
    epoch: NativeMutationEpoch,
    lane: ControllerIdleGuard,
    observed_at: Timestamp,
)
    requires
        current(before, prepared.attachment),
        before.now.nanos >= observed_at.nanos + 5_000_000_000 || before.now.nanos
            < observed_at.nanos,
    ensures
        before.authorize(
            prepared,
            Ok(
                IdleProbeResult::Idle {
                    observation: IdleProbeObservation::Idle {
                        binding,
                        probe_id,
                        epoch,
                        observed_at,
                    },
                    lane,
                },
            ),
        ) == (before, Err::<ProbeAuthorization, AuthorityError>(AuthorityError::Unauthorized)),
        before.authorize(
            prepared,
            Ok(
                IdleProbeResult::Unproven(
                    IdleProbeObservation::Unproven { binding, probe_id, observed_at },
                ),
            ),
        ) == (before, Err::<ProbeAuthorization, AuthorityError>(AuthorityError::Unauthorized)),
{
}

/// Evidence of a running turn that is five seconds old, or lies in the future,
/// holds nothing.
pub proof fn outdated_evidence_is_refused(
    before: AuthorityModel,
    prepared: PreparedDispatch,
    result: IdleProbeResult,
)
    requires
        current(before, prepared.attachment),
        result is Active,
        before.now.nanos >= result->Active_0@.observed_at.nanos + 5_000_000_000
            || before.now.nanos < result->Active_0@.observed_at.nanos,
    ensures
        before.authorize(prepared, Ok(result)) == (
            before,
            Err::<ProbeAuthorization, AuthorityError>(AuthorityError::Unauthorized),
        ),
{
}

/// An observation that does not answer the prepared dispatch's challenge, or is
/// held under another probe or epoch than it was made under, authorizes nothing.
pub proof fn foreign_probe_is_refused(
    before: AuthorityModel,
    prepared: PreparedDispatch,
    binding: ProbeBinding,
    probe_id: RequestNonce,
    epoch: NativeMutationEpoch,
    lane: ControllerIdleGuard,
    observed_at: Timestamp,
)
    requires
        current(before, prepared.attachment),
        !answers(prepared, binding) || probe_id != prepared.expected_probe_id || lane.probe_id
            != probe_id || lane.epoch != epoch || epoch.birth_id != prepared.correlation.birth_id,
    ensures
        before.authorize(
            prepared,
            Ok(
                IdleProbeResult::Idle {
                    observation: IdleProbeObservation::Idle {
                        binding,
                        probe_id,
                        epoch,
                        observed_at,
                    },
                    lane,
                },
            ),
        ) == (before, Err::<ProbeAuthorization, AuthorityError>(AuthorityError::Unauthorized)),
{
}

/// A dispatch whose attachment is not current is refused whatever the probe saw,
/// and nothing changes: an arm that authority does not know is named as such.
pub proof fn stale_attachment_is_refused(
    before: AuthorityModel,
    prepared: PreparedDispatch,
    result: Result<IdleProbeResult, crate::controller::ControllerProbeError>,
)
    requires
        !current(before, prepared.attachment),
    ensures
        before.authorize(prepared, result).0 == before,
        ({
            let attachment = prepared.attachment;
            let armless = before.attachments.dom().contains(attachment.attempt_id)
                && before.births.dom().contains(attachment.birth_id)
                && !before.arms.dom().contains(attachment.arm_id);
            before.authorize(prepared, result).1 == Err::<ProbeAuthorization, AuthorityError>(
                if armless {
                    AuthorityError::UnknownArm
                } else {
                    AuthorityError::Unauthorized
                },
            )
        }),
{
}

/// A probe that proves nothing, recent and in answer to the challenge, concludes
/// the attempt before any write: the conclusion says so, at the observation's
/// instant.
pub proof fn unproven_probe_concludes_without_a_write(
    before: AuthorityModel,
    prepared: PreparedDispatch,
    binding: ProbeBinding,
    observed_at: Timestamp,
)
    requires
        current(before, prepared.attachment),
        answers(prepared, binding),
        observed_at.nanos <= before.now.nanos,
        before.now.nanos < observed_at.nanos + 5_000_000_000,
        !before.store.prewrite.dom().contains(prepared.correlation.attempt_id),
    ensures
        ({
            let id = prepared.correlation.attempt_id;
            let (after, authorized) = before.authorize(
                prepared,
                Ok(
                    IdleProbeResult::Unproven(
                        IdleProbeObservation::Unproven {
                            binding,
                            probe_id: prepared.expected_probe_id,
                            observed_at,
                        },
                    ),
                ),
            );
            &&& authorized == Ok::<ProbeAuthorization, AuthorityError>(
                ProbeAuthorization::IdleStateUnproven,
            )
            &&& after.store.prewrite == before.store.prewrite.insert(
                id,
                PersistedPreWriteConclusion {
                    attempt_id: id,
                    signal_id: prepared.correlation.signal_id,
                    conclusion: PreWriteConclusion::IdleStateUnproven,
                    recorded_at: observed_at,
                },
            )
            &&& after.store.consumed_probes == before.store.consumed_probes
            &&& after.store.write_evidence == before.store.write_evidence
            &&& after.store.turn_facts == before.store.turn_facts
        }),
{
}

/// A permit is for its own attempt and ends five seconds after the observation,
/// or with the attachment's lease where that is earlier.
pub proof fn permit_lasts_five_seconds(
    prepared: PreparedDispatch,
    probe_id: RequestNonce,
    epoch: NativeMutationEpoch,
    observed_at: Timestamp,
)
    requires
        observed_at.nanos + 5_000_000_000 <= i128::MAX,
    ensures
        ({
            let permit = AuthorityModel::permit(prepared, probe_id, epoch, observed_at);
            let lease = prepared.attachment.lease_until.nanos;
            &&& permit.attempt_id == prepared.correlation.attempt_id
            &&& permit.signal_id == prepared.correlation.signal_id
            &&& permit.birth_id == prepared.correlation.birth_id
            &&& permit.thread_ref == prepared.correlation.thread_ref
            &&& permit.arm_id == prepared.attachment.arm_id
            &&& permit.generation == prepared.attachment.generation
            &&& permit.capability == prepared.attachment.capability
            &&& permit.verifier_ref == prepared.attachment.verifier_ref
            &&& permit.mutation_epoch == epoch
            &&& permit.probe_id == probe_id
            &&& permit.observed_at == observed_at
            &&& permit.valid_until.nanos <= lease
            &&& permit.valid_until.nanos <= observed_at.nanos + 5_000_000_000
            &&& permit.valid_until.nanos == lease || permit.valid_until.nanos == observed_at.nanos
                + 5_000_000_000
        }),
{
}

/// An admitted claim with a current attachment to an owned thread is prepared:
/// the dispatch and its challenge are for this attempt, its signal and its
/// thread, and the correlation is durable before any probe.
pub proof fn admitted_claim_is_prepared(
    before: AuthorityModel,
    receipt: AdmissionReceipt,
    create: RequestNonce,
    thread_ref: PrivateNativeRef,
    turn_write_id: RequestNonce,
    probe_id: RequestNonce,
)
    requires
        before.claims.dom().contains(receipt.attempt_id),
        before.attachments.dom().contains(receipt.attempt_id),
        before.attachments[receipt.attempt_id].attempt_id == receipt.attempt_id,
        current(before, before.attachments[receipt.attempt_id]),
        before.ownership.dom().contains(before.attachments[receipt.attempt_id].birth_id),
        before.ownership[before.attachments[receipt.attempt_id].birth_id] == (
        ThreadOwnershipState::Owned { create_attempt_id: create, thread_ref }),
        !before.store.prepared.dom().contains(receipt.attempt_id),
    ensures
        ({
            let id = receipt.attempt_id;
            let attachment = before.attachments[id];
            let correlation = PersistedTurnCorrelation {
                attempt_id: id,
                signal_id: before.claims[id].signal_id,
                birth_id: attachment.birth_id,
                thread_ref,
                turn_write_id,
                turn_ref: None,
            };
            let (after, prepared) = before.prepare(receipt, Ok(turn_write_id), Ok(probe_id));
            let (dispatch, scope) = prepared->Ok_0;
            &&& prepared is Ok
            &&& dispatch == (PreparedDispatch {
                attachment,
                correlation,
                expected_probe_id: probe_id,
            })
            &&& answers(dispatch, scope.binding)
            &&& scope.binding.attachment.attempt_id == id
            &&& after.store.prepared == before.store.prepared.insert(id, correlation)
            &&& after.store.reservations == before.store.reservations
            &&& after.store.consumed_probes == before.store.consumed_probes
        }),
{
}

/// A claim that was not admitted, an attachment that is not current and a thread
/// that is not owned are not prepared, and nothing changes.
pub proof fn unprepared_dispatches_are_refused(
    before: AuthorityModel,
    receipt: AdmissionReceipt,
    turn_write_id: Result<RequestNonce, EntropyError>,
    probe_id: Result<RequestNonce, EntropyError>,
)
    ensures
        ({
            let id = receipt.attempt_id;
            let attachment = before.attachments[id];
            let (after, prepared) = before.prepare(receipt, turn_write_id, probe_id);
            let claimed = before.claims.dom().contains(id);
            let attached = claimed && before.attachments.dom().contains(id);
            let live = attached && current(before, attachment);
            let owned = live && before.ownership.dom().contains(attachment.birth_id)
                && before.ownership[attachment.birth_id] is Owned;
            &&& !owned ==> after == before && prepared is Err
            &&& !claimed ==> prepared->Err_0 == AuthorityError::Conflict
            &&& claimed && !attached ==> prepared->Err_0 == AuthorityError::Unauthorized
            &&& live && !owned ==> prepared->Err_0 == AuthorityError::NoOwnedController
            &&& owned && turn_write_id is Err ==> after == before && prepared == Err::<
                (PreparedDispatch, IdleProbeScope),
                AuthorityError,
            >(AuthorityError::Entropy)
        }),
{
}

/// A write leaves the evidence of what became of it, and the follow-up that this
/// asks for: an accepted turn is observed under its own name, an unknown write is
/// reconciled under its own evidence, and a refused one needs nothing more.
pub proof fn written_turn_leaves_its_evidence(
    before: AuthorityModel,
    prepared: PreparedDispatch,
    turn_ref: PrivateNativeRef,
    evidence_ref: VerifierRef,
    fact_ref: VerifierRef,
)
    requires
        before.store.reservations.dom().contains(prepared.correlation.attempt_id),
        before.store.reservations[prepared.correlation.attempt_id].correlation
            == prepared.correlation,
        !before.store.write_evidence.dom().contains(prepared.correlation.attempt_id),
    ensures
        ({
            let id = prepared.correlation.attempt_id;
            let (after, refused) = before.conclude(
                prepared,
                Ok(NativeWriteDisposition::ProvenNotAccepted),
                Ok(evidence_ref),
                Ok(fact_ref),
            );
            &&& after.store.write_evidence == before.store.write_evidence.insert(
                id,
                NativeWriteEvidence::ProvenNotAccepted,
            )
            &&& after.store.write_evidence_refs == before.store.write_evidence_refs.insert(
                id,
                evidence_ref,
            )
            &&& after.store.reservations[id].concluded
            &&& after.store.turn_facts == before.store.turn_facts
            &&& refused == Ok::<NativeWriteConclusion, AuthorityError>(
                NativeWriteConclusion {
                    disposition: NativeWriteDisposition::ProvenNotAccepted,
                    observation_scope: None,
                    reconciliation_scope: None,
                },
            )
        }),
        ({
            let id = prepared.correlation.attempt_id;
            let (after, unknown) = before.conclude(
                prepared,
                Ok(NativeWriteDisposition::Unknown),
                Ok(evidence_ref),
                Ok(fact_ref),
            );
            &&& after.store.write_evidence == before.store.write_evidence.insert(
                id,
                NativeWriteEvidence::Unknown,
            )
            &&& after.store.write_evidence_refs == before.store.write_evidence_refs.insert(
                id,
                evidence_ref,
            )
            &&& after.store.turn_facts == before.store.turn_facts
            &&& unknown == Ok::<NativeWriteConclusion, AuthorityError>(
                NativeWriteConclusion {
                    disposition: NativeWriteDisposition::Unknown,
                    observation_scope: None,
                    reconciliation_scope: Some(
                        ReconciliationScope {
                            correlation: prepared.correlation,
                            evidence_ref,
                        },
                    ),
                },
            )
        }),
        ({
            let id = prepared.correlation.attempt_id;
            let (after, accepted) = before.conclude(
                prepared,
                Ok(NativeWriteDisposition::Accepted { turn_ref }),
                Ok(evidence_ref),
                Ok(fact_ref),
            );
            let named = PersistedTurnCorrelation { turn_ref: Some(turn_ref), ..prepared.correlation };
            &&& after.store.write_evidence[id] == (NativeWriteEvidence::WriterAccepted {
                write_id: prepared.correlation.turn_write_id,
            })
            &&& after.store.write_evidence_refs[id] == evidence_ref
            &&& accepted matches Ok(conclusion) ==> {
                &&& conclusion.disposition == (NativeWriteDisposition::Accepted { turn_ref })
                &&& conclusion.reconciliation_scope is None
                &&& conclusion.observation_scope is Some
                &&& conclusion.observation_scope->0.correlation == named
                &&& conclusion.observation_scope->0.evidence_ref == evidence_ref
                &&& after.store.turn_facts.dom().contains(id)
                &&& after.store.turn_facts[id].contains(NativeTurnFact::Accepted { turn_ref })
            }
        }),
{
    let id = prepared.correlation.attempt_id;
    let after = before.conclude(
        prepared,
        Ok(NativeWriteDisposition::Accepted { turn_ref }),
        Ok(evidence_ref),
        Ok(fact_ref),
    ).0;
    let facts = before.store.facts_of(id);
    let fact = NativeTurnFact::Accepted { turn_ref };
    assert(facts.push(fact)[facts.len() as int] == fact);
    assert(facts.push(fact).contains(fact));
}

/// A write that was answered exactly keeps the answer as its evidence and as the
/// turn's fact.
pub proof fn exact_answer_is_recorded(
    before: AuthorityModel,
    prepared: PreparedDispatch,
    fact: NativeTurnFact,
    evidence_ref: VerifierRef,
    fact_ref: VerifierRef,
)
    requires
        before.store.reservations.dom().contains(prepared.correlation.attempt_id),
        before.store.reservations[prepared.correlation.attempt_id].correlation
            == prepared.correlation,
        !before.store.write_evidence.dom().contains(prepared.correlation.attempt_id),
        fact is Accepted || fact is Started || fact is Terminal,
    ensures
        ({
            let id = prepared.correlation.attempt_id;
            let (after, answered) = before.conclude(
                prepared,
                Ok(NativeWriteDisposition::ExactResponse(fact)),
                Ok(evidence_ref),
                Ok(fact_ref),
            );
            &&& after.store.write_evidence[id] == (NativeWriteEvidence::ExactResponse { fact })
            &&& answered matches Ok(conclusion) ==> {
                &&& conclusion.reconciliation_scope is None
                &&& conclusion.observation_scope is Some
                &&& conclusion.observation_scope->0.evidence_ref == evidence_ref
                &&& conclusion.observation_scope->0.correlation.attempt_id == id
                &&& fact matches NativeTurnFact::Terminal { turn_ref, .. }
                    ==> conclusion.observation_scope->0.correlation.turn_ref == Some(turn_ref)
                &&& fact matches NativeTurnFact::Started { turn_ref }
                    ==> conclusion.observation_scope->0.correlation.turn_ref == Some(turn_ref)
                &&& fact matches NativeTurnFact::Accepted { turn_ref }
                    ==> conclusion.observation_scope->0.correlation.turn_ref == Some(turn_ref)
                &&& after.store.turn_facts.dom().contains(id)
                &&& after.store.turn_facts[id].contains(fact)
            }
        }),
{
    let id = prepared.correlation.attempt_id;
    let facts = before.store.facts_of(id);
    assert(facts.push(fact)[facts.len() as int] == fact);
    assert(facts.push(fact).contains(fact));
}

/// A write that the controller refused to make leaves nothing behind.
pub proof fn refused_write_leaves_nothing(
    before: AuthorityModel,
    prepared: PreparedDispatch,
    error: crate::controller::ControllerWriteError,
    evidence_ref: Result<VerifierRef, EntropyError>,
    fact_ref: Result<VerifierRef, EntropyError>,
)
    ensures
        before.conclude(prepared, Err(error), evidence_ref, fact_ref) == (
            before,
            Err::<NativeWriteConclusion, AuthorityError>(AuthorityError::Unauthorized),
        ),
{
}

/// An observed fact is added to those of its own attempt, and one that names no
/// turn makes the write unknown again, to be reconciled under its own evidence.
pub proof fn observed_fact_is_recorded(
    before: AuthorityModel,
    scope: ObservationScope,
    fact: NativeTurnFact,
    evidence_ref: VerifierRef,
)
    requires
        before.observe(scope, fact, Ok(evidence_ref)).1 is Ok,
    ensures
        ({
            let id = scope.correlation.attempt_id;
            let (after, observed) = before.observe(scope, fact, Ok(evidence_ref));
            let named = fact is Accepted || fact is Started || fact is Terminal;
            &&& after.store.turn_facts.dom().contains(id)
            &&& after.store.turn_facts[id].contains(fact)
            &&& forall|other: AttemptId|
                other != id ==> (#[trigger] after.store.turn_facts.dom().contains(other)
                    <==> before.store.turn_facts.dom().contains(other))
            &&& named ==> observed->Ok_0.reconciliation is None
            &&& !named ==> observed->Ok_0.reconciliation == Some(
                ReconciliationScope {
                    correlation: scope.correlation,
                    evidence_ref: scope.evidence_ref,
                },
            )
            &&& !named && observed->Ok_0.write is Recorded
                ==> after.store.write_evidence.dom().contains(id)
                && after.store.write_evidence[id] is Unknown
        }),
{
    let id = scope.correlation.attempt_id;
    let facts = before.store.facts_of(id);
    assert(facts.push(fact)[facts.len() as int] == fact);
    assert(facts.push(fact).contains(fact));
}

/// An unknown write is settled by what its reconciliation finds: still unknown
/// keeps reconciling, a refusal closes it, an acceptance is observed under the
/// turn that was found, and an end closes it with that end as its fact.
pub proof fn reconciliation_settles_the_write(
    before: AuthorityModel,
    scope: ReconciliationScope,
    disposition: ReconciliationDisposition,
    fact_ref: VerifierRef,
)
    requires
        before.reconcile(scope, Ok(disposition), Ok(fact_ref)).1 is Ok,
    ensures
        ({
            let id = scope.correlation.attempt_id;
            let (after, settled) = before.reconcile(scope, Ok(disposition), Ok(fact_ref));
            let phase = settled->Ok_0.1;
            &&& before.store.reservations.dom().contains(id)
            &&& before.store.reservations[id].correlation == scope.correlation
            &&& before.store.write_evidence.dom().contains(id)
            &&& before.store.write_evidence[id] is Unknown
            &&& before.store.write_evidence_refs.dom().contains(id)
            &&& before.store.write_evidence_refs[id] == scope.evidence_ref
            &&& after.store.reconciliations.dom().contains(id)
            &&& after.store.reconciliations[id] == disposition
            &&& disposition is Unknown ==> phase is Reconciling
            &&& disposition is ProvenNotAccepted ==> phase is Closed
            &&& disposition is Terminal ==> phase is Closed
            &&& disposition matches ReconciliationDisposition::Accepted { turn_ref } ==> {
                &&& phase is Observing
                &&& phase->Observing_0.correlation == (PersistedTurnCorrelation {
                    turn_ref: Some(turn_ref),
                    ..scope.correlation
                })
                &&& phase->Observing_0.evidence_ref == scope.evidence_ref
                &&& after.store.turn_facts[id].contains(NativeTurnFact::Accepted { turn_ref })
            }
            &&& disposition matches ReconciliationDisposition::Terminal { turn_ref, class }
                ==> after.store.turn_facts[id].contains(
                NativeTurnFact::Terminal { turn_ref, class },
            )
        }),
{
    let id = scope.correlation.attempt_id;
    let facts = before.store.facts_of(id);
    if let ReconciliationDisposition::Accepted { turn_ref } = disposition {
        let fact = NativeTurnFact::Accepted { turn_ref };
        assert(facts.push(fact)[facts.len() as int] == fact);
        assert(facts.push(fact).contains(fact));
    }
    if let ReconciliationDisposition::Terminal { turn_ref, class } = disposition {
        let fact = NativeTurnFact::Terminal { turn_ref, class };
        assert(facts.push(fact)[facts.len() as int] == fact);
        assert(facts.push(fact).contains(fact));
    }
}

/// A reserved write that is durably unknown under this evidence, and was not
/// reconciled yet, takes a refusal or a continued doubt.
pub proof fn durable_unknown_is_reconciled(
    before: AuthorityModel,
    scope: ReconciliationScope,
    fact_ref: VerifierRef,
)
    requires
        before.store.reservations.dom().contains(scope.correlation.attempt_id),
        before.store.reservations[scope.correlation.attempt_id].correlation == scope.correlation,
        before.store.write_evidence.dom().contains(scope.correlation.attempt_id),
        before.store.write_evidence[scope.correlation.attempt_id] is Unknown,
        before.store.write_evidence_refs.dom().contains(scope.correlation.attempt_id),
        before.store.write_evidence_refs[scope.correlation.attempt_id] == scope.evidence_ref,
        !before.store.reconciliations.dom().contains(scope.correlation.attempt_id),
    ensures
        before.reconcile(scope, Ok(ReconciliationDisposition::ProvenNotAccepted), Ok(fact_ref)).1
            == Ok::<(IdempotentWrite, ReconciliationPhase), AuthorityError>(
            (IdempotentWrite::Recorded, ReconciliationPhase::Closed),
        ),
        before.reconcile(scope, Ok(ReconciliationDisposition::Unknown), Ok(fact_ref)).1 == Ok::<
            (IdempotentWrite, ReconciliationPhase),
            AuthorityError,
        >((IdempotentWrite::Recorded, ReconciliationPhase::Reconciling)),
{
}

proof fn started_first(facts: Seq<NativeTurnFact>, at: int)
    requires
        0 <= at < facts.len(),
        facts[at] is Accepted || facts[at] is Started,
        forall|j: int|
            0 <= j < at ==> !(#[trigger] facts[j] is Accepted) && !(facts[j] is Started),
    ensures
        facts[at] is Accepted ==> authority_model::first_started(facts) == Some(
            facts[at]->Accepted_turn_ref,
        ),
        facts[at] is Started ==> authority_model::first_started(facts) == Some(
            facts[at]->Started_turn_ref,
        ),
    decreases at,
{
    if at > 0 {
        let rest = facts.drop_first();
        assert(rest[at - 1] == facts[at]);
        assert forall|j: int| 0 <= j < at - 1 implies !(#[trigger] rest[j] is Accepted) && !(
        rest[j] is Started) by {
            assert(rest[j] == facts[j + 1]);
        }
        started_first(rest, at - 1);
    }
}

proof fn never_started(facts: Seq<NativeTurnFact>)
    requires
        forall|j: int|
            0 <= j < facts.len() ==> !(#[trigger] facts[j] is Accepted) && !(facts[j] is Started),
    ensures
        authority_model::first_started(facts) is None,
    decreases facts.len(),
{
    if facts.len() > 0 {
        let rest = facts.drop_first();
        assert forall|j: int| 0 <= j < rest.len() implies !(#[trigger] rest[j] is Accepted) && !(
        rest[j] is Started) by {
            assert(rest[j] == facts[j + 1]);
        }
        never_started(rest);
    }
}

/// What recovery leaves to do for a write: nothing once its turn has ended or the
/// write was refused; while it is unknown, to reconcile it; and once a turn is
/// known, to observe exactly that turn.
pub proof fn recovered_write_has_its_followup(
    record: PersistedNativeWriteEvidence,
    facts: Seq<NativeTurnFact>,
    reconciliation: Option<ReconciliationDisposition>,
    turn_ref: PrivateNativeRef,
    at: int,
)
    ensures
        ({
            let followup = authority_model::followup(record, facts, reconciliation);
            let ended = exists|i: int| 0 <= i < facts.len() && #[trigger] facts[i] is Terminal;
            let again = Followup::Reconcile(
                ReconciliationScope {
                    correlation: record.correlation,
                    evidence_ref: record.evidence_ref,
                },
            );
            let watch = Followup::Observe(
                ObservationScope {
                    correlation: PersistedTurnCorrelation {
                        turn_ref: Some(turn_ref),
                        ..record.correlation
                    },
                    evidence_ref: record.evidence_ref,
                },
            );
            let begun = 0 <= at < facts.len() && (facts[at] == (NativeTurnFact::Accepted {
                turn_ref,
            }) || facts[at] == (NativeTurnFact::Started { turn_ref })) && forall|j: int|
                0 <= j < at ==> !(#[trigger] facts[j] is Accepted) && !(facts[j] is Started);
            let idle = forall|j: int|
                0 <= j < facts.len() ==> !(#[trigger] facts[j] is Accepted) && !(
                facts[j] is Started);
            let answered = record.evidence is WriterAccepted || record.evidence is ExactResponse;
            &&& ended ==> followup is Nothing
            &&& record.evidence is ProvenNotAccepted ==> followup is Nothing
            &&& !ended && record.evidence is Unknown && (reconciliation is None
                || reconciliation->0 is Unknown) ==> followup == again
            &&& !ended && record.evidence is Unknown && reconciliation == Some(
                ReconciliationDisposition::Accepted { turn_ref },
            ) ==> followup == watch
            &&& record.evidence is Unknown && reconciliation is Some && (
            reconciliation->0 is ProvenNotAccepted || reconciliation->0 is Terminal)
                ==> followup is Nothing
            &&& !ended && answered && begun ==> followup == watch
            &&& answered && idle ==> followup is Nothing
        }),
{
    if 0 <= at < facts.len() && (facts[at] == (NativeTurnFact::Accepted { turn_ref }) || facts[at]
        == (NativeTurnFact::Started { turn_ref })) && forall|j: int|
        0 <= j < at ==> !(#[trigger] facts[j] is Accepted) && !(facts[j] is Started) {
        started_first(facts, at);
    }
    if forall|j: int|
        0 <= j < facts.len() ==> !(#[trigger] facts[j] is Accepted) && !(facts[j] is Started) {
        never_started(facts);
    }
}

/// A revoked attachment is revoked in the store and here, and every other one
/// stays as it was.
pub proof fn revocation_is_recorded(before: AuthorityModel, attempt_id: Seq<char>, key: AttemptId)
    requires
        before.attachment_key(attempt_id) == Some(key),
        before.attachments.dom().contains(key),
        before.attachments[key].attempt_id == key,
        before.store.attachments.dom().contains(key),
        before.store.attachments[key] == before.attachments[key],
        !before.attachments[key].revoked,
    ensures
        ({
            let (after, revoked) = before.revoke(attempt_id);
            let gone = PersistedControllerAttachment { revoked: true, ..before.attachments[key] };
            &&& revoked == Ok::<IdempotentWrite, AuthorityError>(IdempotentWrite::Recorded)
            &&& after.attachments == before.attachments.insert(key, gone)
            &&& after.store.attachments == before.store.attachments.insert(key, gone)
            &&& after.births == before.births
            &&& after.claims == before.claims
        }),
{
}

/// An arm is registered under its own name with its generation, seat and
/// coverage, here and in the store; a name that is no identifier is refused.
pub proof fn arm_is_registered_as_named(
    before: AuthorityModel,
    arm_id: Seq<char>,
    generation: u64,
    seat_id: Seq<char>,
    coverage_until: Timestamp,
)
    ensures
        ({
            let (after, registered) = before.register_arm(
                arm_id,
                generation,
                seat_id,
                coverage_until,
            );
            let nameable = authority_model::id_text(arm_id) && authority_model::id_text(seat_id);
            let arm = PersistedArm {
                arm_id: ArmId::named(arm_id),
                generation,
                seat_id: SeatId::named(seat_id),
                capability: ManagedCapability::HandleClaimedSignal,
                coverage_until,
            };
            &&& nameable ==> registered is Ok && after.arms == before.arms.insert(
                ArmId::named(arm_id),
                arm,
            ) && after.store.arms == before.store.arms.insert(ArmId::named(arm_id), arm)
            &&& !nameable ==> after == before && registered == Err::<(), AuthorityError>(
                AuthorityError::InvalidIdentifier,
            )
            &&& after.births == before.births
            &&& after.attachments == before.attachments
        }),
{
}

/// A covered arm without a birth of its generation gets one: of the arm's own
/// seat, generation and capability, with the coverage as its lease, and a create
/// that is reserved here and in the store.
pub proof fn covered_arm_gets_a_birth(
    before: AuthorityModel,
    arm_id: Seq<char>,
    birth_id: ControllerBirthId,
    create_attempt_id: RequestNonce,
    verifier_ref: VerifierRef,
)
    requires
        authority_model::id_text(arm_id),
        before.arms.dom().contains(ArmId::named(arm_id)),
        before.now.nanos < before.arms[ArmId::named(arm_id)].coverage_until.nanos,
        forall|id: ControllerBirthId| #[trigger]
            before.births.dom().contains(id) ==> before.births[id].arm_id != ArmId::named(arm_id)
                || before.births[id].generation != before.arms[ArmId::named(arm_id)].generation,
        !before.store.births.dom().contains(birth_id),
    ensures
        ({
            let arm = before.arms[ArmId::named(arm_id)];
            let (after, reserved) = before.reserve_birth(
                arm_id,
                Ok(birth_id),
                Ok(create_attempt_id),
                Ok(verifier_ref),
            );
            let birth = PersistedControllerBirth {
                birth_id,
                seat_id: arm.seat_id,
                arm_id: arm.arm_id,
                generation: arm.generation,
                capability: arm.capability,
                lease_until: arm.coverage_until,
                verifier_ref,
                created_at: before.now,
                revoked: false,
            };
            let waiting = ThreadOwnershipState::Reserved { create_attempt_id };
            &&& reserved == Ok::<ControllerBirthReservation, AuthorityError>(
                ControllerBirthReservation {
                    binding: ControllerBirthBinding {
                        birth_id,
                        seat_id: arm.seat_id,
                        arm_id: arm.arm_id,
                        generation: arm.generation,
                        capability: arm.capability,
                        lease_until: arm.coverage_until,
                        verifier_ref,
                    },
                    create_attempt_id,
                },
            )
            &&& after.births == before.births.insert(birth_id, birth)
            &&& after.ownership == before.ownership.insert(birth_id, waiting)
            &&& after.store.births == before.store.births.insert(birth_id, birth)
            &&& after.store.ownership == before.store.ownership.insert(birth_id, waiting)
            &&& after.store.creates == before.store.creates.insert(
                birth_id,
                ThreadCreateReservation {
                    birth_id,
                    create_attempt_id,
                    reserved_at: before.now,
                },
            )
        }),
{
}

/// No birth is reserved for an arm that is unknown, no longer covered or already
/// born in its generation, and each is refused for what it is.
pub proof fn births_are_refused_for_cause(
    before: AuthorityModel,
    arm_id: Seq<char>,
    birth_id: Result<ControllerBirthId, EntropyError>,
    create_attempt_id: Result<RequestNonce, EntropyError>,
    verifier_ref: Result<VerifierRef, EntropyError>,
)
    ensures
        ({
            let id = ArmId::named(arm_id);
            let (after, reserved) = before.reserve_birth(
                arm_id,
                birth_id,
                create_attempt_id,
                verifier_ref,
            );
            let known = authority_model::id_text(arm_id) && before.arms.dom().contains(id);
            let covered = known && before.now.nanos < before.arms[id].coverage_until.nanos;
            let born = exists|birth: ControllerBirthId| #[trigger]
                before.births.dom().contains(birth) && before.births[birth].arm_id == id
                    && before.births[birth].generation == before.arms[id].generation;
            let drawn = birth_id is Ok && create_attempt_id is Ok && verifier_ref is Ok;
            let refused = |error: AuthorityError|
                after == before && reserved == Err::<ControllerBirthReservation, AuthorityError>(
                    error,
                );
            &&& !authority_model::id_text(arm_id) ==> refused(AuthorityError::InvalidIdentifier)
            &&& authority_model::id_text(arm_id) && !known ==> refused(AuthorityError::UnknownArm)
            &&& known && !covered ==> refused(AuthorityError::Unauthorized)
            &&& covered && born ==> refused(AuthorityError::Conflict)
            &&& covered && !born && !drawn ==> refused(AuthorityError::Entropy)
        }),
{
}

/// A reserved create takes its outcome: the thread that was made is owned under
/// its reference, a refusal is final, and a lost outcome is quarantined. What the
/// store then holds is what authority goes by.
pub proof fn reserved_create_takes_its_outcome(
    before: AuthorityModel,
    reservation: ControllerBirthReservation,
    resolution: ThreadCreateResolution,
    evidence_ref: VerifierRef,
)
    requires
        before.store.creates.dom().contains(reservation.binding.birth_id),
        before.store.creates[reservation.binding.birth_id].create_attempt_id
            == reservation.create_attempt_id,
        before.store.ownership.dom().contains(reservation.binding.birth_id),
        before.store.ownership[reservation.binding.birth_id] == (ThreadOwnershipState::Reserved {
            create_attempt_id: reservation.create_attempt_id,
        }),
    ensures
        ({
            let id = reservation.binding.birth_id;
            let create_attempt_id = reservation.create_attempt_id;
            let (after, resolved) = before.resolve_create(
                reservation,
                resolution,
                Ok(evidence_ref),
            );
            let state = after.store.ownership[id];
            &&& resolution matches ThreadCreateResolution::Owned { thread_ref } ==> state == (
            ThreadOwnershipState::Owned { create_attempt_id, thread_ref })
            &&& resolution is ProvenNotAccepted ==> state == (
            ThreadOwnershipState::ProvenNotAccepted { create_attempt_id })
            &&& resolution is Unknown ==> state == (ThreadOwnershipState::Unknown {
                create_attempt_id,
            })
            &&& after.ownership == before.ownership.insert(id, state)
            &&& after.store.ownership == before.store.ownership.insert(id, state)
            &&& after.store.create_evidence_refs == before.store.create_evidence_refs.insert(
                id,
                evidence_ref,
            )
            &&& resolution is Unknown ==> resolved == Ok::<CreateResolution, AuthorityError>(
                CreateResolution::Unknown {
                    write: IdempotentWrite::Recorded,
                    reservation: QuarantinedBirthReservation { birth_id: id, create_attempt_id },
                },
            )
            &&& !(resolution is Unknown) ==> resolved == Ok::<CreateResolution, AuthorityError>(
                CreateResolution::Final(IdempotentWrite::Recorded),
            )
        }),
{
}

/// A quarantined create is settled only by a definite outcome.
pub proof fn quarantined_create_is_settled_definitely(
    before: AuthorityModel,
    reservation: QuarantinedBirthReservation,
    resolution: ThreadCreateResolution,
    evidence_ref: VerifierRef,
)
    requires
        before.store.creates.dom().contains(reservation.birth_id),
        before.store.creates[reservation.birth_id].create_attempt_id
            == reservation.create_attempt_id,
        before.store.ownership.dom().contains(reservation.birth_id),
        before.store.ownership[reservation.birth_id] == (ThreadOwnershipState::Unknown {
            create_attempt_id: reservation.create_attempt_id,
        }),
    ensures
        ({
            let id = reservation.birth_id;
            let create_attempt_id = reservation.create_attempt_id;
            let (after, resolved) = before.resolve_quarantined(
                reservation,
                resolution,
                Ok(evidence_ref),
            );
            &&& resolution is Unknown ==> after == before && resolved == Err::<
                IdempotentWrite,
                AuthorityError,
            >(AuthorityError::Conflict)
            &&& resolution matches ThreadCreateResolution::Owned { thread_ref } ==> resolved is Ok
                && after.store.ownership[id] == (ThreadOwnershipState::Owned {
                create_attempt_id,
                thread_ref,
            }) && after.ownership[id] == after.store.ownership[id]
            &&& resolution is ProvenNotAccepted ==> resolved is Ok && after.store.ownership[id] == (
            ThreadOwnershipState::ProvenNotAccepted { create_attempt_id }) && after.ownership[id]
                == after.store.ownership[id]
        }),
{
}

/// Errors of the store keep their meaning: a refusal stays a refusal, a fault of
/// storage a fault of storage, and everything else is a conflict.
pub proof fn store_errors_keep_their_meaning(error: PersistError)
    ensures
        error is Unauthorized ==> authority_model::mapped(error) == AuthorityError::Unauthorized,
        error is StorageUnavailable ==> authority_model::mapped(error) == AuthorityError::Storage,
        error is Conflict || error is InvalidTransition ==> authority_model::mapped(error)
            == AuthorityError::Conflict,
{
}

/// What a snapshot lists of an attempt is found under that attempt, where it is
/// listed once.
pub proof fn listed_followups_are_found(
    snapshot: crate::records::RecoverySnapshot,
    id: AttemptId,
    at: int,
)
    ensures
        0 <= at < snapshot.native_turn_facts@.len() && snapshot.native_turn_facts@[at].attempt_id
            == id && (forall|j: int|
            0 <= j < snapshot.native_turn_facts@.len() && j != at ==> (
            #[trigger] snapshot.native_turn_facts@[j]).attempt_id != id)
            ==> authority_model::snapshot_facts(snapshot, id)
            == snapshot.native_turn_facts@[at].facts@,
        0 <= at < snapshot.reconciliations@.len() && snapshot.reconciliations@[at].attempt_id == id
            && (forall|j: int|
            0 <= j < snapshot.reconciliations@.len() && j != at ==> (
            #[trigger] snapshot.reconciliations@[j]).attempt_id != id)
            ==> authority_model::snapshot_reconciliation(snapshot, id) == Some(
            snapshot.reconciliations@[at].disposition,
        ),
        (forall|j: int|
            0 <= j < snapshot.native_turn_facts@.len() ==> (
            #[trigger] snapshot.native_turn_facts@[j]).attempt_id != id)
            ==> authority_model::snapshot_facts(snapshot, id).len() == 0,
        (forall|j: int|
            0 <= j < snapshot.reconciliations@.len() ==> (
            #[trigger] snapshot.reconciliations@[j]).attempt_id != id)
            ==> authority_model::snapshot_reconciliation(snapshot, id) is None,
{
}

/// What recovery leaves to observe or to reconcile is what its listed writes ask
/// for, each of them and nothing else.
pub proof fn leftovers_are_those_of_the_writes(
    snapshot: crate::records::RecoverySnapshot,
    n: int,
    observation: ObservationScope,
    reconciliation: ReconciliationScope,
)
    requires
        0 <= n <= snapshot.native_write_evidence@.len(),
    ensures
        authority_model::observations_left(snapshot, n).contains(observation) <==> exists|i: int|
            0 <= i < n && authority_model::followup_at(
                snapshot,
                #[trigger] snapshot.native_write_evidence@[i],
            ) == Followup::Observe(observation),
        authority_model::reconciliations_left(snapshot, n).contains(reconciliation) <==> exists|
            i: int,
        |
            0 <= i < n && authority_model::followup_at(
                snapshot,
                #[trigger] snapshot.native_write_evidence@[i],
            ) == Followup::Reconcile(reconciliation),
    decreases n,
{
    if n > 0 {
        leftovers_are_those_of_the_writes(snapshot, n - 1, observation, reconciliation);
        let watched = authority_model::observations_left(snapshot, n - 1);
        let doubted = authority_model::reconciliations_left(snapshot, n - 1);
        let last = snapshot.native_write_evidence@[n - 1];
        match authority_model::followup_at(snapshot, last) {
            Followup::Observe(scope) => {
                kept_when_pushed(watched, scope, observation);
            },
            Followup::Reconcile(scope) => {
                kept_when_pushed(doubted, scope, reconciliation);
            },
            Followup::Nothing => {},
        }
    }
}

proof fn kept_when_pushed<T>(list: Seq<T>, last: T, item: T)
    ensures
        list.push(last).contains(item) <==> list.contains(item) || item == last,
{
    let longer = list.push(last);
    if longer.contains(item) {
        let i = choose|i: int| 0 <= i < longer.len() && longer[i] == item;
        if i < list.len() {
            assert(list[i] == item);
        }
    }
    if list.contains(item) {
        let i = choose|i: int| 0 <= i < list.len() && list[i] == item;
        assert(longer[i] == item);
    }
    if item == last {
        assert(longer[list.len() as int] == item);
    }
}

/// Evidence of a running turn that answers the prepared dispatch: its own attempt,
/// signal, birth, thread and probe, the attachment's own terms, an epoch of that
/// birth, the supported producer, and the thread that the birth owns.
pub open spec fn attests(
    authority: AuthorityModel,
    prepared: PreparedDispatch,
    evidence: crate::controller::ActiveProofModel,
) -> bool {
    let attachment = prepared.attachment;
    &&& evidence.attempt_id == prepared.correlation.attempt_id
    &&& evidence.signal_id == prepared.correlation.signal_id
    &&& evidence.birth_id == prepared.correlation.birth_id
    &&& evidence.thread_ref == prepared.correlation.thread_ref
    &&& evidence.probe_id == prepared.expected_probe_id
    &&& evidence.seat_id == attachment.seat_id
    &&& evidence.arm_id == attachment.arm_id
    &&& evidence.generation == attachment.generation
    &&& evidence.capability == attachment.capability
    &&& evidence.attachment_verifier_ref == attachment.verifier_ref
    &&& evidence.lease_until == attachment.lease_until
    &&& evidence.mutation_epoch.birth_id == prepared.correlation.birth_id
    &&& evidence.producer_version == "codex-cli 0.152.1"@
    &&& evidence.producer_dialect == "thread/read-v2"@
    &&& authority.ownership.dom().contains(evidence.birth_id)
    &&& authority.ownership[evidence.birth_id] == (ThreadOwnershipState::Owned {
        create_attempt_id: evidence.create_attempt_id,
        thread_ref: evidence.thread_ref,
    })
}

/// A running turn holds the attempt where its evidence is less than five seconds old
/// and attests to this dispatch: the store then decides. Any other evidence is
/// refused and changes nothing.
pub proof fn attested_turn_holds_the_attempt(
    before: AuthorityModel,
    prepared: PreparedDispatch,
    result: IdleProbeResult,
)
    requires
        current(before, prepared.attachment),
        result is Active,
    ensures
        ({
            let evidence = result->Active_0@;
            let (after, authorized) = before.authorize(prepared, Ok(result));
            let (held, outcome) = before.store.hold_active(evidence);
            let recent = evidence.observed_at.nanos <= before.now.nanos && before.now.nanos
                < evidence.observed_at.nanos + 5_000_000_000;
            let taken = recent && attests(before, prepared, evidence);
            &&& !taken ==> after == before && authorized == Err::<
                ProbeAuthorization,
                AuthorityError,
            >(AuthorityError::Unauthorized)
            &&& taken ==> after == (AuthorityModel { store: held, ..before })
            &&& taken && outcome is Ok ==> authorized == Ok::<ProbeAuthorization, AuthorityError>(
                ProbeAuthorization::HeldBeforeNativeWrite,
            )
            &&& taken && outcome is Err ==> authorized is Err
        }),
{
}

/// A probe that failed authorizes nothing and says how it failed.
pub proof fn failed_probe_is_passed_on(
    before: AuthorityModel,
    prepared: PreparedDispatch,
    error: crate::controller::ControllerProbeError,
)
    requires
        current(before, prepared.attachment),
    ensures
        before.authorize(prepared, Err(error)) == (
            before,
            Err::<ProbeAuthorization, AuthorityError>(AuthorityError::ControllerProbe(error)),
        ),
{
}

} // verus!
