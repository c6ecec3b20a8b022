//! Laws of claims: which events can be claimed, and what a claim becomes.

use crate::authority::AuthorityError;
use crate::authority_laws;
use crate::authority_model;
use crate::authority_model::AuthorityModel;
use crate::controller::ManagedCapability;
use crate::ident;
use crate::ident::{
    ArmId, AttemptId, ClaimRequestId, ControllerBirthId, EntropyError, SignalId, VerifierRef,
};
use crate::primitives;
use crate::protocol::EventModel;
use crate::records::{
    ClaimModel, ClaimOutcome, PersistedArm, PersistedControllerAttachment,
    PersistedControllerBirth, PersistedThreadOwnership, RecoverySnapshot, ThreadOwnershipState,
};
use crate::store;
use crate::table;
use crate::text;
use crate::timestamp::Timestamp;
use vstd::prelude::*;
use vstd::string::*;
use vstd::utf8::*;

verus! {

/// Text of one to `max` bytes, all of them letters, digits, hyphens, underscores,
/// colons or full stops.
pub open spec fn token(text: Seq<char>, max: int) -> bool {
    let bytes = encode_utf8(text);
    &&& bytes.len() > 0
    &&& bytes.len() <= max
    &&& forall|i: int|
        0 <= i < bytes.len() ==> {
            let byte = #[trigger] bytes[i];
            ||| 48 <= byte && byte <= 57
            ||| 65 <= byte && byte <= 90
            ||| 97 <= byte && byte <= 122
            ||| byte == 45 || byte == 95 || byte == 58 || byte == 46
        }
}

/// Identifiers are tokens of at most 256 bytes.
pub proof fn identifiers_are_tokens(text: Seq<char>, max: int)
    ensures
        authority_model::id_text(text) <==> token(text, 256),
        ident::bounded_token(encode_utf8(text), max) <==> token(text, max),
{
    assert forall|limit: int| #[trigger]
        ident::bounded_token(encode_utf8(text), limit) <==> token(text, limit) by {
        let bytes = encode_utf8(text);
        if ident::bounded_token(bytes, limit) {
            assert forall|i: int| 0 <= i < bytes.len() implies {
                let byte = #[trigger] bytes[i];
                ||| 48 <= byte && byte <= 57
                ||| 65 <= byte && byte <= 90
                ||| 97 <= byte && byte <= 122
                ||| byte == 45 || byte == 95 || byte == 58 || byte == 46
            } by {
                assert(ident::token_byte(bytes[i]));
            }
        }
        if token(text, limit) {
            assert forall|i: int| 0 <= i < bytes.len() implies ident::token_byte(
                #[trigger] bytes[i],
            ) by {
                let byte = bytes[i];
            }
        }
    }
}

/// An event that keeps to every bound and names a readable instant.
pub open spec fn fit(event: EventModel) -> bool {
    &&& token(event.event_ref, 256)
    &&& token(event.provider, 64)
    &&& event.actor is None || token(event.actor->0, 256)
    &&& encode_utf8(event.observed_at).len() <= 64
    &&& encode_utf8(event.body).len() <= 4096
    &&& primitives::rfc3339_instant(event.observed_at) is Some
}

/// No reference occurs twice.
pub open spec fn distinct(events: Seq<EventModel>) -> bool {
    forall|i: int, j: int|
        #![trigger events[i], events[j]]
        0 <= i < j < events.len() ==> events[i].event_ref != events[j].event_ref
}

/// Readable instants never run back.
pub open spec fn forward(events: Seq<EventModel>) -> bool {
    forall|i: int, j: int|
        #![trigger events[i], events[j]]
        0 <= i < j < events.len() && primitives::rfc3339_instant(events[i].observed_at) is Some
            && primitives::rfc3339_instant(events[j].observed_at) is Some
            ==> primitives::rfc3339_instant(events[i].observed_at)->0
            <= primitives::rfc3339_instant(events[j].observed_at)->0
}

proof fn fit_is_bounded(event: EventModel)
    ensures
        fit(event) <==> authority_model::event_bounded(event) && primitives::rfc3339_instant(
            event.observed_at,
        ) is Some,
{
    identifiers_are_tokens(event.event_ref, 256);
    identifiers_are_tokens(event.provider, 64);
    if event.actor is Some {
        identifiers_are_tokens(event.actor->0, 256);
    }
}

/// A list of events is scanned through where each is fit, no reference occurs
/// twice and time does not run back. Where time does not run back the objection
/// is to an identifier; where all else is right it is a conflict.
pub proof fn scan_finds_every_fault(events: Seq<EventModel>)
    ensures
        ({
            let each = forall|i: int| 0 <= i < events.len() ==> fit(#[trigger] events[i]);
            let scanned = authority_model::scan_events(events);
            &&& scanned is Ok <==> each && distinct(events) && forward(events)
            &&& forward(events) && !(each && distinct(events)) ==> scanned == Err::<
                (),
                AuthorityError,
            >(AuthorityError::InvalidIdentifier)
            &&& each && distinct(events) && !forward(events) ==> scanned == Err::<
                (),
                AuthorityError,
            >(AuthorityError::Conflict)
        }),
    decreases events.len(),
{
    if events.len() > 0 {
        let earlier = events.drop_last();
        let event = events.last();
        let n = earlier.len() as int;
        scan_finds_every_fault(earlier);
        fit_is_bounded(event);
        assert(events[n] == event);
        assert(forall|i: int| 0 <= i < n ==> earlier[i] == #[trigger] events[i]);
        assert(forall|i: int| 0 <= i < n ==> #[trigger] earlier[i] == events[i]);
        let each_earlier = forall|i: int| 0 <= i < n ==> fit(#[trigger] earlier[i]);
        let each = forall|i: int| 0 <= i < events.len() ==> fit(#[trigger] events[i]);
        assert(each <==> each_earlier && fit(event)) by {
            if each {
                assert forall|i: int| 0 <= i < n implies fit(#[trigger] earlier[i]) by {
                    assert(fit(events[i]));
                }
                assert(fit(events[n]));
            }
            if each_earlier && fit(event) {
                assert forall|i: int| 0 <= i < events.len() implies fit(#[trigger] events[i]) by {
                    if i < n {
                        assert(fit(earlier[i]));
                    }
                }
            }
        }
        assert(distinct(events) <==> distinct(earlier) && !authority_model::ref_taken(
            earlier,
            event.event_ref,
        )) by {
            if distinct(events) {
                assert(distinct(earlier));
                if authority_model::ref_taken(earlier, event.event_ref) {
                    let k = choose|i: int|
                        0 <= i < earlier.len() && (#[trigger] earlier[i]).event_ref
                            == event.event_ref;
                    assert(events[k].event_ref != events[n].event_ref);
                }
            }
            if distinct(earlier) && !authority_model::ref_taken(earlier, event.event_ref) {
                assert forall|i: int, j: int|
                    #![trigger events[i], events[j]]
                    0 <= i < j < events.len() implies events[i].event_ref
                    != events[j].event_ref by {
                    if j == n {
                        assert(earlier[i].event_ref != event.event_ref);
                    } else {
                        assert(earlier[i].event_ref != earlier[j].event_ref);
                    }
                }
            }
        }
        assert(forward(events) ==> forward(earlier)) by {
            if forward(events) {
                assert forall|i: int, j: int|
                    #![trigger earlier[i], earlier[j]]
                    0 <= i < j < earlier.len() && primitives::rfc3339_instant(
                        earlier[i].observed_at,
                    ) is Some && primitives::rfc3339_instant(
                        earlier[j].observed_at,
                    ) is Some implies primitives::rfc3339_instant(earlier[i].observed_at)->0
                    <= primitives::rfc3339_instant(earlier[j].observed_at)->0 by {
                    assert(events[i] == earlier[i] && events[j] == earlier[j]);
                }
            }
        }
        if each && forward(earlier) {
            let at = primitives::rfc3339_instant(event.observed_at)->0;
            if n == 0 || primitives::rfc3339_instant(earlier[n - 1].observed_at)->0 <= at {
                assert forall|i: int, j: int|
                    #![trigger events[i], events[j]]
                    0 <= i < j < events.len() && primitives::rfc3339_instant(
                        events[i].observed_at,
                    ) is Some && primitives::rfc3339_instant(
                        events[j].observed_at,
                    ) is Some implies primitives::rfc3339_instant(events[i].observed_at)->0
                    <= primitives::rfc3339_instant(events[j].observed_at)->0 by {
                    if j == n {
                        assert(earlier[i] == events[i]);
                        assert(fit(events[n - 1]));
                        assert(earlier[n - 1] == events[n - 1]);
                        if i < n - 1 {
                            assert(primitives::rfc3339_instant(earlier[i].observed_at)->0
                                <= primitives::rfc3339_instant(earlier[n - 1].observed_at)->0);
                        }
                    } else {
                        assert(earlier[i] == events[i] && earlier[j] == events[j]);
                    }
                }
            } else {
                assert(fit(events[n - 1]) && fit(events[n]));
                assert(!forward(events));
            }
        }
        if forward(events) && n > 0 && fit(event) && each_earlier {
            assert(fit(earlier[n - 1]));
            assert(events[n - 1] == earlier[n - 1]);
            assert(primitives::rfc3339_instant(events[n - 1].observed_at)->0
                <= primitives::rfc3339_instant(events[n].observed_at)->0);
        }
    }
}

/// The length of a claim's bodies is the sum of the lengths of each.
pub proof fn bodies_add_up(events: Seq<EventModel>, event: EventModel)
    ensures
        authority_model::body_bytes(Seq::empty()) == 0,
        authority_model::body_bytes(events.push(event)) == authority_model::body_bytes(events)
            + encode_utf8(event.body).len(),
{
    assert(events.push(event).drop_last() =~= events);
}

/// A batch can be claimed where it holds one to sixty-four fit events, no
/// reference twice, time not running back, and no more than 131072 bytes of
/// bodies in all.
pub proof fn claimable_batch_is_literal(events: Seq<EventModel>)
    ensures
        authority_model::events_verdict(events) is Ok <==> {
            &&& 1 <= events.len() <= 64
            &&& forall|i: int| 0 <= i < events.len() ==> fit(#[trigger] events[i])
            &&& distinct(events)
            &&& forward(events)
            &&& authority_model::body_bytes(events) <= 131_072
        },
        events.len() == 0 || events.len() > 64 ==> authority_model::events_verdict(events)
            == Err::<(), AuthorityError>(AuthorityError::Conflict),
        1 <= events.len() <= 64 && authority_model::scan_events(events) is Err
            ==> authority_model::events_verdict(events) == authority_model::scan_events(events),
        1 <= events.len() <= 64 && authority_model::scan_events(events) is Ok
            && authority_model::body_bytes(events) > 131_072
            ==> authority_model::events_verdict(events) == Err::<(), AuthorityError>(
            AuthorityError::Conflict,
        ),
{
    scan_finds_every_fault(events);
}

/// A birth that can serve an arm: of its generation, unrevoked, within its lease,
/// and the owner of its thread.
pub open spec fn serves(
    authority: AuthorityModel,
    arm_id: ArmId,
    generation: u64,
    birth_id: ControllerBirthId,
) -> bool {
    let birth = authority.births[birth_id];
    &&& authority.births.dom().contains(birth_id)
    &&& birth.arm_id == arm_id
    &&& birth.generation == generation
    &&& !birth.revoked
    &&& authority.now.nanos < birth.lease_until.nanos
    &&& authority.ownership.dom().contains(birth_id)
    &&& authority.ownership[birth_id] is Owned
}

/// The birth that serves a claim is one that can, and one is found wherever there
/// is one.
pub proof fn serving_birth_is_found(
    authority: AuthorityModel,
    arm: PersistedArm,
    arm_id: ArmId,
    birth_id: ControllerBirthId,
)
    requires
        authority.births.dom().finite(),
    ensures
        authority.owning_birth(arm, arm_id) matches Some(found) ==> serves(
            authority,
            arm_id,
            arm.generation,
            found,
        ),
        serves(authority, arm_id, arm.generation, birth_id) ==> authority.owning_birth(arm, arm_id)
            is Some,
{
    let wanted = |id: ControllerBirthId, birth: PersistedControllerBirth|
        {
            &&& birth.arm_id == arm_id
            &&& birth.generation == arm.generation
            &&& !birth.revoked
            &&& birth.lease_until.nanos > authority.now.nanos
            &&& authority.ownership.dom().contains(id)
            &&& authority.ownership[id] is Owned
        };
    assert(authority.owning_birth(arm, arm_id) == table::first_key(authority.births, wanted));
    if serves(authority, arm_id, arm.generation, birth_id) {
        table::first_key_exists(authority.births, wanted, birth_id);
    }
}

/// A claimable batch for a known arm with a birth that can serve it, under a new
/// request and for a generation that was not claimed, is admitted: as the next
/// attempt, attached to such a birth with the arm's own seat, generation and
/// coverage, with its events kept in order.
pub proof fn claimable_batch_is_admitted(
    before: AuthorityModel,
    arm_id: Seq<char>,
    request_id: Seq<char>,
    signal_id: Seq<char>,
    events: Seq<EventModel>,
    verifier_ref: VerifierRef,
    birth_id: ControllerBirthId,
)
    requires
        authority_model::events_verdict(events) is Ok,
        token(arm_id, 256),
        token(request_id, 256),
        token(signal_id, 256),
        before.arms.dom().contains(ArmId::named(arm_id)),
        before.births.dom().finite(),
        serves(
            before,
            ArmId::named(arm_id),
            before.arms[ArmId::named(arm_id)].generation,
            birth_id,
        ),
        before.attempt_seq < u64::MAX,
        !before.store.claims.dom().contains(ClaimRequestId::named(request_id)),
        forall|id: ClaimRequestId| #[trigger]
            before.store.claims.dom().contains(id) ==> before.store.claims[id].arm_id
                != before.arms[ArmId::named(arm_id)].arm_id || before.store.claims[id].generation
                != before.arms[ArmId::named(arm_id)].generation,
        !before.store.attachments.dom().contains(
            AttemptId::named("attempt-"@ + text::decimal((before.attempt_seq + 1) as nat)),
        ),
    ensures
        ({
            let arm = before.arms[ArmId::named(arm_id)];
            let request = ClaimRequestId::named(request_id);
            let attempt = AttemptId::named(
                "attempt-"@ + text::decimal((before.attempt_seq + 1) as nat),
            );
            let (after, admitted) = before.accept_claim(
                arm_id,
                request_id,
                signal_id,
                events,
                Ok(verifier_ref),
            );
            let attachment = after.attachments[attempt];
            let claim = after.claims[attempt];
            &&& admitted == Ok::<(ClaimOutcome, AttemptId), AuthorityError>(
                (ClaimOutcome::Admitted, attempt),
            )
            &&& after.attempt_seq == before.attempt_seq + 1
            &&& before.store.attempt_seq < u64::MAX ==> after.store.attempt_seq
                == before.store.attempt_seq + 1
            &&& after.attachments == before.attachments.insert(attempt, attachment)
            &&& after.claims == before.claims.insert(attempt, claim)
            &&& serves(before, ArmId::named(arm_id), arm.generation, attachment.birth_id)
            &&& attachment == (PersistedControllerAttachment {
                attempt_id: attempt,
                birth_id: attachment.birth_id,
                seat_id: arm.seat_id,
                arm_id: arm.arm_id,
                generation: arm.generation,
                capability: ManagedCapability::HandleClaimedSignal,
                lease_until: arm.coverage_until,
                verifier_ref,
                revoked: false,
            })
            &&& claim.attempt_id == attempt
            &&& claim.request_id == request
            &&& claim.arm_id == arm.arm_id
            &&& claim.generation == arm.generation
            &&& claim.signal_id == SignalId::named(signal_id)
            &&& claim.claimed_at == before.now
            &&& claim.event_refs.len() == events.len()
            &&& forall|i: int|
                0 <= i < events.len() ==> #[trigger] claim.event_refs[i] == events[i].event_ref
            &&& after.store.claims == before.store.claims.insert(request, claim)
            &&& after.store.payloads == before.store.payloads.insert(request, events)
            &&& after.store.claim_attempts == before.store.claim_attempts.insert(request, attempt)
            &&& after.store.attachments == before.store.attachments.insert(attempt, attachment)
        }),
{
    identifiers_are_tokens(arm_id, 256);
    identifiers_are_tokens(request_id, 256);
    identifiers_are_tokens(signal_id, 256);
    authority_laws::attempt_text_is_valid((before.attempt_seq + 1) as u64);
    serving_birth_is_found(
        before,
        before.arms[ArmId::named(arm_id)],
        ArmId::named(arm_id),
        birth_id,
    );
}

/// A claim is refused for its events first, then for its arm, then for want of an
/// owned controller, then for its names; nothing changes.
pub proof fn claims_are_refused_for_cause(
    before: AuthorityModel,
    arm_id: Seq<char>,
    request_id: Seq<char>,
    signal_id: Seq<char>,
    events: Seq<EventModel>,
    verifier_ref: Result<VerifierRef, EntropyError>,
)
    requires
        before.births.dom().finite(),
    ensures
        ({
            let id = ArmId::named(arm_id);
            let (after, admitted) = before.accept_claim(
                arm_id,
                request_id,
                signal_id,
                events,
                verifier_ref,
            );
            let refused = |error: AuthorityError|
                after == before && admitted == Err::<(ClaimOutcome, AttemptId), AuthorityError>(
                    error,
                );
            let claimable = authority_model::events_verdict(events) is Ok;
            let named = claimable && token(arm_id, 256);
            let known = named && before.arms.dom().contains(id);
            let served = known && exists|birth: ControllerBirthId| #[trigger]
                serves(before, id, before.arms[id].generation, birth);
            let texts = served && token(request_id, 256) && token(signal_id, 256);
            &&& !claimable ==> refused(authority_model::events_verdict(events)->Err_0)
            &&& claimable && !named ==> refused(AuthorityError::InvalidIdentifier)
            &&& named && !known ==> refused(AuthorityError::UnknownArm)
            &&& known && !served ==> refused(AuthorityError::NoOwnedController)
            &&& served && !texts ==> refused(AuthorityError::InvalidIdentifier)
            &&& texts && before.attempt_seq == u64::MAX ==> refused(AuthorityError::Conflict)
            &&& texts && before.attempt_seq < u64::MAX && verifier_ref is Err ==> refused(
                AuthorityError::Entropy,
            )
        }),
{
    let id = ArmId::named(arm_id);
    let arm = before.arms[id];
    identifiers_are_tokens(arm_id, 256);
    identifiers_are_tokens(request_id, 256);
    identifiers_are_tokens(signal_id, 256);
    if before.attempt_seq < u64::MAX {
        authority_laws::attempt_text_is_valid((before.attempt_seq + 1) as u64);
    }
    if exists|birth: ControllerBirthId| #[trigger] serves(before, id, arm.generation, birth) {
        let birth = choose|birth: ControllerBirthId| #[trigger]
            serves(before, id, arm.generation, birth);
        serving_birth_is_found(before, arm, id, birth);
    }
    if before.owning_birth(arm, id) is Some {
        serving_birth_is_found(before, arm, id, before.owning_birth(arm, id)->0);
    }
}

/// Recovered metadata is found under its own key: where a key occurs once, its
/// record is the one that was listed, and no key is found that was not listed.
pub proof fn recovered_arms_are_found(arms: Seq<PersistedArm>, at: int, key: ArmId)
    ensures
        0 <= at < arms.len() && (forall|j: int|
            at < j < arms.len() ==> (#[trigger] arms[j]).arm_id != arms[at].arm_id)
            ==> authority_model::arm_index(arms).dom().contains(arms[at].arm_id)
            && authority_model::arm_index(arms)[arms[at].arm_id] == arms[at],
        (forall|j: int| 0 <= j < arms.len() ==> (#[trigger] arms[j]).arm_id != key)
            ==> !authority_model::arm_index(arms).dom().contains(key),
    decreases arms.len(),
{
    if arms.len() > 0 {
        let rest = arms.drop_last();
        recovered_arms_are_found(rest, at, key);
        if 0 <= at < rest.len() {
            assert(rest[at] == arms[at]);
            if forall|j: int| at < j < arms.len() ==> (#[trigger] arms[j]).arm_id != arms[at].arm_id {
                assert forall|j: int| at < j < rest.len() implies (#[trigger] rest[j]).arm_id
                    != rest[at].arm_id by {
                    assert(rest[j] == arms[j]);
                }
                assert(arms[arms.len() - 1].arm_id != arms[at].arm_id);
            }
        }
        if forall|j: int| 0 <= j < arms.len() ==> (#[trigger] arms[j]).arm_id != key {
            assert forall|j: int| 0 <= j < rest.len() implies (#[trigger] rest[j]).arm_id
                != key by {
                assert(rest[j] == arms[j]);
            }
            assert(arms[arms.len() - 1].arm_id != key);
        }
    }
}

/// The same for the births of a snapshot.
pub proof fn recovered_births_are_found(
    births: Seq<PersistedControllerBirth>,
    at: int,
    key: ControllerBirthId,
)
    ensures
        0 <= at < births.len() && (forall|j: int|
            at < j < births.len() ==> (#[trigger] births[j]).birth_id != births[at].birth_id)
            ==> authority_model::birth_index(births).dom().contains(births[at].birth_id)
            && authority_model::birth_index(births)[births[at].birth_id] == births[at],
        (forall|j: int| 0 <= j < births.len() ==> (#[trigger] births[j]).birth_id != key)
            ==> !authority_model::birth_index(births).dom().contains(key),
    decreases births.len(),
{
    if births.len() > 0 {
        let rest = births.drop_last();
        recovered_births_are_found(rest, at, key);
        if 0 <= at < rest.len() {
            assert(rest[at] == births[at]);
            if forall|j: int|
                at < j < births.len() ==> (#[trigger] births[j]).birth_id != births[at].birth_id {
                assert forall|j: int| at < j < rest.len() implies (#[trigger] rest[j]).birth_id
                    != rest[at].birth_id by {
                    assert(rest[j] == births[j]);
                }
                assert(births[births.len() - 1].birth_id != births[at].birth_id);
            }
        }
        if forall|j: int| 0 <= j < births.len() ==> (#[trigger] births[j]).birth_id != key {
            assert forall|j: int| 0 <= j < rest.len() implies (#[trigger] rest[j]).birth_id
                != key by {
                assert(rest[j] == births[j]);
            }
            assert(births[births.len() - 1].birth_id != key);
        }
    }
}

/// The same for the ownership states of a snapshot.
pub proof fn recovered_ownership_is_found(
    records: Seq<PersistedThreadOwnership>,
    at: int,
    key: ControllerBirthId,
)
    ensures
        0 <= at < records.len() && (forall|j: int|
            at < j < records.len() ==> (#[trigger] records[j]).birth_id != records[at].birth_id)
            ==> authority_model::ownership_index(records).dom().contains(records[at].birth_id)
            && authority_model::ownership_index(records)[records[at].birth_id]
            == records[at].state,
        (forall|j: int| 0 <= j < records.len() ==> (#[trigger] records[j]).birth_id != key)
            ==> !authority_model::ownership_index(records).dom().contains(key),
    decreases records.len(),
{
    if records.len() > 0 {
        let rest = records.drop_last();
        recovered_ownership_is_found(rest, at, key);
        if 0 <= at < rest.len() {
            assert(rest[at] == records[at]);
            if forall|j: int|
                at < j < records.len() ==> (#[trigger] records[j]).birth_id
                    != records[at].birth_id {
                assert forall|j: int| at < j < rest.len() implies (#[trigger] rest[j]).birth_id
                    != rest[at].birth_id by {
                    assert(rest[j] == records[j]);
                }
                assert(records[records.len() - 1].birth_id != records[at].birth_id);
            }
        }
        if forall|j: int| 0 <= j < records.len() ==> (#[trigger] records[j]).birth_id != key {
            assert forall|j: int| 0 <= j < rest.len() implies (#[trigger] rest[j]).birth_id
                != key by {
                assert(rest[j] == records[j]);
            }
            assert(records[records.len() - 1].birth_id != key);
        }
    }
}

/// The same for the claims of a snapshot.
pub proof fn recovered_claims_are_found(claims: Seq<ClaimModel>, at: int, key: AttemptId)
    ensures
        0 <= at < claims.len() && (forall|j: int|
            at < j < claims.len() ==> (#[trigger] claims[j]).attempt_id != claims[at].attempt_id)
            ==> authority_model::claim_index(claims).dom().contains(claims[at].attempt_id)
            && authority_model::claim_index(claims)[claims[at].attempt_id] == claims[at],
        (forall|j: int| 0 <= j < claims.len() ==> (#[trigger] claims[j]).attempt_id != key)
            ==> !authority_model::claim_index(claims).dom().contains(key),
    decreases claims.len(),
{
    if claims.len() > 0 {
        let rest = claims.drop_last();
        recovered_claims_are_found(rest, at, key);
        if 0 <= at < rest.len() {
            assert(rest[at] == claims[at]);
            if forall|j: int|
                at < j < claims.len() ==> (#[trigger] claims[j]).attempt_id
                    != claims[at].attempt_id {
                assert forall|j: int| at < j < rest.len() implies (#[trigger] rest[j]).attempt_id
                    != rest[at].attempt_id by {
                    assert(rest[j] == claims[j]);
                }
                assert(claims[claims.len() - 1].attempt_id != claims[at].attempt_id);
            }
        }
        if forall|j: int| 0 <= j < claims.len() ==> (#[trigger] claims[j]).attempt_id != key {
            assert forall|j: int| 0 <= j < rest.len() implies (#[trigger] rest[j]).attempt_id
                != key by {
                assert(rest[j] == claims[j]);
            }
            assert(claims[claims.len() - 1].attempt_id != key);
        }
    }
}

/// The same for the attachments of a snapshot.
pub proof fn recovered_attachments_are_found(
    attachments: Seq<PersistedControllerAttachment>,
    at: int,
    key: AttemptId,
)
    ensures
        0 <= at < attachments.len() && (forall|j: int|
            at < j < attachments.len() ==> (#[trigger] attachments[j]).attempt_id
                != attachments[at].attempt_id) ==> authority_model::attachment_index(
            attachments,
        ).dom().contains(attachments[at].attempt_id) && authority_model::attachment_index(
            attachments,
        )[attachments[at].attempt_id] == attachments[at],
        (forall|j: int|
            0 <= j < attachments.len() ==> (#[trigger] attachments[j]).attempt_id != key)
            ==> !authority_model::attachment_index(attachments).dom().contains(key),
    decreases attachments.len(),
{
    if attachments.len() > 0 {
        let rest = attachments.drop_last();
        recovered_attachments_are_found(rest, at, key);
        if 0 <= at < rest.len() {
            assert(rest[at] == attachments[at]);
            if forall|j: int|
                at < j < attachments.len() ==> (#[trigger] attachments[j]).attempt_id
                    != attachments[at].attempt_id {
                assert forall|j: int| at < j < rest.len() implies (#[trigger] rest[j]).attempt_id
                    != rest[at].attempt_id by {
                    assert(rest[j] == attachments[j]);
                }
                assert(attachments[attachments.len() - 1].attempt_id != attachments[at].attempt_id);
            }
        }
        if forall|j: int| 0 <= j < attachments.len() ==> (#[trigger] attachments[j]).attempt_id
            != key {
            assert forall|j: int| 0 <= j < rest.len() implies (#[trigger] rest[j]).attempt_id
                != key by {
                assert(rest[j] == attachments[j]);
            }
            assert(attachments[attachments.len() - 1].attempt_id != key);
        }
    }
}

/// Recovery takes over what the snapshot lists, and keeps store and clock.
pub proof fn snapshot_is_taken_over(before: AuthorityModel, snapshot: RecoverySnapshot, at: int)
    requires
        0 <= at < snapshot.attachments@.len(),
        forall|j: int|
            at < j < snapshot.attachments@.len() ==> (#[trigger] snapshot.attachments@[j]).attempt_id
                != snapshot.attachments@[at].attempt_id,
    ensures
        ({
            let after = before.adopt(snapshot);
            let attachment = snapshot.attachments@[at];
            &&& after.attempt_seq == snapshot.attempt_seq
            &&& after.store == before.store
            &&& after.now == before.now
            &&& after.attachments.dom().contains(attachment.attempt_id)
            &&& after.attachments[attachment.attempt_id] == attachment
        }),
{
    recovered_attachments_are_found(
        snapshot.attachments@,
        at,
        snapshot.attachments@[at].attempt_id,
    );
}

} // verus!
