//! Laws of what draws, recoveries and writers lead to, and of what a value reads as.

use crate::ack::{AckModel, AckRearm, HandledServe, ServeModel};
use crate::ack_handled;
use crate::admission;
use crate::admission::{AdmittedLink, AdmittedModel, ArmModel, DecisionModel, KnownArm};
use crate::attempt;
use crate::authority;
use crate::authority::{AdmissionResult, AuthorityError, AuthorityRecovery};
use crate::authority_model;
use crate::authority_model::AuthorityModel;
use crate::bytes;
use crate::codex;
use crate::codex::CodexLane;
use crate::codex_steps;
use crate::codex_steps::TurnStep;
use crate::controller::{
    Controller, ControllerCommand, ControllerIdleGuard, ControllerProbeError,
    ControllerReconcileError, ControllerWriteError, FakeController, FakeIdleState,
    IdleProbeResult, NativeCoordinateKind, NativeCoordinateScope, NativeMutationEpoch,
    NativeTurnFact, NativeWriteDisposition, ObservationScope, ProbeBinding,
    ReconciliationDisposition, ReconciliationScope,
};
use crate::daemon;
use crate::daemon::{
    ActionModel, CoverageModel, DaemonAction, DaemonCoverage, DeliveryIo, DrainError, DrainedEvent,
    LinkExchange, PipeModel, SignalClaim, SignalModel,
};
use crate::exchange;
use crate::ident::{AttemptId, ControllerBirthId, EntropyError, PrivateNativeRef, VerifierRef};
use crate::interrupt;
use crate::persist;
use crate::primitives;
use crate::protocol;
use crate::protocol::{
    EventModel, HandledCursor, HandledModel, LinkModel, ProviderEvent, WaiterLink, WaiterLinkError,
};
use crate::records::{
    AdmissionRecord, ClaimModel, ClaimOutcome, IdempotentWrite, NativeTurnFactCommit, PersistError,
    PersistedControllerAttachment, PersistedNativeReservation, PersistedReconciliation,
    PersistedThreadOwnership, RecoverySnapshot, ThreadCreateCommit, ThreadOwnershipState,
};
use crate::secret;
use crate::store;
use crate::store::Store;
use crate::table;
use crate::table::Key;
use crate::timestamp::Timestamp;
use crate::transport::{NativeRef, TransportError};
use crate::wait_on::{WaitOnSpec, WaitResult};
use vstd::prelude::*;
use vstd::std_specs::convert::FromSpec;
use vstd::utf8::*;

verus! {

/// A coordinate is sealed under the first reference drawn that is still free. The
/// references that were there stay, and without a free one nothing is sealed.
pub proof fn first_free_draw_seals(
    before: Store,
    scope: NativeCoordinateScope,
    plaintext: Seq<u8>,
    draws: Seq<Result<[u8; 32], EntropyError>>,
    at: int,
)
    requires
        before.decides(draws, at),
    ensures
        ({
            let (after, result) = before.seal_under(scope, plaintext, draws, at);
            &&& forall|i: int|
                0 <= i < at ==> (#[trigger] draws[i]) is Ok && before.coordinates.dom().contains(
                    PrivateNativeRef(draws[i]->Ok_0),
                )
            &&& result is Ok <==> at < draws.len() && draws[at] is Ok
            &&& result is Err ==> after == before && result->Err_0
                == PersistError::StorageUnavailable
            &&& result matches Ok(reference) ==> {
                &&& reference.0 == draws[at]->Ok_0
                &&& !before.coordinates.dom().contains(reference)
                &&& after.coordinates.dom() =~= before.coordinates.dom().insert(reference)
                &&& after.coordinates[reference].scope == scope
                &&& after.coordinates[reference].plaintext == plaintext
                &&& after == (Store { coordinates: after.coordinates, ..before })
                &&& forall|other: PrivateNativeRef|
                    other != reference ==> #[trigger] after.coordinates[other]
                        == before.coordinates[other]
            }
        }),
{
}

/// The place that decides among the draws is one.
pub proof fn deciding_draw_is_one(
    before: Store,
    draws: Seq<Result<[u8; 32], EntropyError>>,
    first: int,
    second: int,
)
    requires
        before.decides(draws, first),
        before.decides(draws, second),
    ensures
        first == second,
{
    if first < second {
        assert(before.draws_taken(draws[first]));
    } else if second < first {
        assert(before.draws_taken(draws[second]));
    }
}

/// A new reference is taken only for a coordinate of the scope's own kind that is
/// not sealed yet.
pub proof fn sealed_coordinate_takes_no_new_reference(
    before: Store,
    scope: NativeCoordinateScope,
    kind: NativeCoordinateKind,
    plaintext: Seq<u8>,
)
    requires
        before.seals_anew(scope, kind, plaintext),
    ensures
        scope is Thread ==> kind == NativeCoordinateKind::Thread,
        scope is Turn ==> kind == NativeCoordinateKind::Turn,
        before.sealed_ref(scope, plaintext) is None,
        before.scope_allows(scope, None, false),
{
}

/// The evidence references are the draws themselves, in their order, up to the first
/// that failed.
pub proof fn references_are_the_draws(
    draws: Seq<Result<VerifierRef, EntropyError>>,
    wanted: nat,
    refs: Seq<VerifierRef>,
)
    requires
        store::drawn(draws, wanted, refs),
    ensures
        forall|i: int|
            0 <= i < refs.len() ==> draws[i] == Ok::<VerifierRef, EntropyError>(#[trigger] refs[i]),
        refs.len() == wanted || refs.len() == draws.len() || draws[refs.len() as int] is Err,
        refs.len() <= wanted,
{
}

/// A snapshot is taken over where no birth, no ownership, no reconciliation and no
/// list of facts is there twice, and each owned birth has its record.
pub proof fn snapshot_without_doubles_is_consistent(snapshot: RecoverySnapshot)
    ensures
        authority_model::snapshot_consistent(snapshot) <==> {
            &&& forall|i: int, j: int|
                #![trigger snapshot.controller_births@[i], snapshot.controller_births@[j]]
                0 <= i < snapshot.controller_births@.len() && 0 <= j
                    < snapshot.controller_births@.len() && snapshot.controller_births@[i].birth_id
                    == snapshot.controller_births@[j].birth_id ==> i == j
            &&& forall|i: int, j: int|
                #![trigger snapshot.ownership@[i], snapshot.ownership@[j]]
                0 <= i < snapshot.ownership@.len() && 0 <= j < snapshot.ownership@.len()
                    && snapshot.ownership@[i].birth_id == snapshot.ownership@[j].birth_id ==> i == j
            &&& forall|i: int, j: int|
                #![trigger snapshot.reconciliations@[i], snapshot.reconciliations@[j]]
                0 <= i < snapshot.reconciliations@.len() && 0 <= j
                    < snapshot.reconciliations@.len() && snapshot.reconciliations@[i].attempt_id
                    == snapshot.reconciliations@[j].attempt_id ==> i == j
            &&& forall|i: int, j: int|
                #![trigger snapshot.native_turn_facts@[i], snapshot.native_turn_facts@[j]]
                0 <= i < snapshot.native_turn_facts@.len() && 0 <= j
                    < snapshot.native_turn_facts@.len() && snapshot.native_turn_facts@[i].attempt_id
                    == snapshot.native_turn_facts@[j].attempt_id ==> i == j
            &&& forall|i: int|
                0 <= i < snapshot.ownership@.len() ==> authority_model::birth_index(
                    snapshot.controller_births@,
                ).dom().contains((#[trigger] snapshot.ownership@[i]).birth_id)
        },
{
}

/// A recovery keeps the clock, takes over the counter of the snapshot, and says
/// whether it was the storage or the snapshot that stopped it.
pub proof fn recovery_says_what_stopped_it(
    before: AuthorityModel,
    after: AuthorityModel,
    result: Result<AuthorityRecovery, AuthorityError>,
)
    requires
        authority::recovery_of(before, after, result),
    ensures
        after.now == before.now,
        result matches Ok(recovery) ==> {
            &&& after.attempt_seq == recovery.snapshot.attempt_seq
            &&& after.store.snapshot(recovery.snapshot)
            &&& authority_model::snapshot_consistent(recovery.snapshot)
        },
        result is Err ==> after == (AuthorityModel { store: after.store, ..before }),
        result matches Err(error) ==> error == AuthorityError::Storage || error
            == AuthorityError::Conflict,
{
}

/// An error of the store becomes the authority's error of the same kind.
pub proof fn store_error_becomes_its_own_kind(error: PersistError)
    ensures
        ({
            let shown = <AuthorityError as FromSpec<PersistError>>::from_spec(error);
            &&& shown == AuthorityError::Storage <==> error == PersistError::StorageUnavailable
            &&& shown == AuthorityError::Unauthorized <==> error == PersistError::Unauthorized
            &&& shown == AuthorityError::Conflict <==> error == PersistError::Conflict || error
                == PersistError::InvalidTransition
        }),
{
}

/// A batch counts as sent where the writer took exactly it, and the answer is what the
/// writer then gave. A writer that did not take it is not asked for one.
pub proof fn writer_is_handed_the_batch_alone<I: DeliveryIo>(
    before: I,
    message: LinkModel,
    exchange: LinkExchange,
    after: I,
)
    requires
        daemon::used_for(before, Some(message), exchange, after),
    ensures
        exchange.sent ==> exists|
            handed: WaiterLink,
            taken: Result<(), &'static str>,
            between: I,
            answer: Result<WaiterLink, &'static str>,
        |
            {
                &&& #[trigger] I::wrote(before, handed, taken, between)
                &&& taken is Ok
                &&& #[trigger] I::answered(between, answer, after)
                &&& handed@ == message
                &&& exchange.received is Some <==> answer is Ok
                &&& answer matches Ok(given) ==> exchange.received == Some(given@)
            },
        !exchange.sent ==> exchange.received is None && exists|
            handed: WaiterLink,
            reason: &'static str,
        | #[trigger] I::wrote(before, handed, Err(reason), after) && handed@ == message,
{
    let (handed, taken, between) = choose|
        handed: WaiterLink,
        taken: Result<(), &'static str>,
        between: I,
    |
        {
            &&& #[trigger] I::wrote(before, handed, taken, between)
            &&& handed@ == message
            &&& exchange.sent == (taken is Ok)
            &&& if taken is Ok {
                exists|answer: Result<WaiterLink, &'static str>|
                    {
                        &&& #[trigger] I::answered(between, answer, after)
                        &&& exchange.received == daemon::answer_model(answer)
                    }
            } else {
                exchange.received is None && after == between
            }
        };
    if exchange.sent {
        let answer = choose|answer: Result<WaiterLink, &'static str>|
            #[trigger] I::answered(between, answer, after) && exchange.received
                == daemon::answer_model(answer);
        assert(I::wrote(before, handed, taken, between));
        assert(I::answered(between, answer, after));
    } else {
        assert(I::wrote(before, handed, Err(taken->Err_0), after));
    }
}

/// A writer without a batch to write is left alone.
pub proof fn idle_writer_is_left_alone<I: DeliveryIo>(before: I, exchange: LinkExchange, after: I)
    requires
        daemon::used_for(before, None, exchange, after),
    ensures
        after == before,
{
}

/// Only a matched wait whose drain gave events writes a batch, and only for the claim
/// of those events.
pub proof fn unmatched_wait_writes_nothing(
    pipe: PipeModel,
    wait: WaitResult,
    drained: Result<Seq<DrainedEvent>, DrainError>,
    arm: ArmModel,
    link: Option<AdmittedModel>,
    now: Timestamp,
    mint_signal: Seq<char>,
    delivery_id: Seq<char>,
)
    ensures
        ({
            let written = pipe.ingest_written(
                wait,
                drained,
                arm,
                link,
                now,
                mint_signal,
                delivery_id,
            );
            &&& wait != WaitResult::Matched ==> written is None
            &&& drained is Err ==> written is None
            &&& (drained matches Ok(events) && events.len() == 0) ==> written is None
            &&& link is None ==> written is None
            &&& (pipe.claim matches Some(live) && (live.arm_id != arm.arm_id || live.generation
                != arm.generation)) ==> written is None
            &&& (wait == WaitResult::Matched && drained is Ok && drained->Ok_0.len() > 0
                && pipe.claim is None) ==> {
                let live = daemon::claimed(
                    None,
                    arm,
                    daemon::events_of(drained->Ok_0, ack_handled::stamp_chars(now)),
                    mint_signal,
                ).1->Ok_0;
                written == PipeModel { claim: Some(live), ..pipe }.written(
                    live,
                    link,
                    now,
                    delivery_id,
                )
            }
        }),
{
}

/// A drain starts after the cursor of the wait; a wait without one starts at the
/// beginning.
pub proof fn baseline_is_the_cursor_of_the_wait(spec: WaitOnSpec)
    ensures
        spec.after matches Some(after) ==> daemon::baseline(spec) == after@,
        spec.after is None ==> daemon::baseline(spec).len() == 0,
{
    reveal_strlit("");
}

/// The exchange of a writer counts only where there is a writer.
pub proof fn missing_writer_has_no_exchange(linked: bool, exchange: LinkExchange)
    ensures
        daemon::used(linked, exchange) is Some <==> linked,
        linked ==> daemon::used(linked, exchange) == Some(exchange),
{
}

/// Optional and fallible values read as what they hold.
pub proof fn optional_values_read_as_what_they_hold(
    link: Option<&AdmittedLink>,
    message: Option<WaiterLink>,
    drained: Result<Vec<DrainedEvent>, DrainError>,
    valid: Result<(), WaiterLinkError>,
    arms: Seq<KnownArm>,
)
    ensures
        link is None <==> daemon::link_model(link) is None,
        link matches Some(there) ==> daemon::link_model(link) == Some(there@),
        message is None <==> daemon::message_model(message) is None,
        message matches Some(there) ==> daemon::message_model(message) == Some(there@),
        drained is Ok <==> daemon::drain_model(drained) is Ok,
        drained matches Ok(events) ==> daemon::drain_model(drained)->Ok_0 == events@,
        drained matches Err(error) ==> daemon::drain_model(drained)->Err_0 == error,
        valid is Ok <==> admission::verdict_model(valid) is Ok,
        valid matches Err(WaiterLinkError::Semantic(reason)) ==> admission::verdict_model(
            valid,
        )->Err_0 == reason@,
        admission::arm_models(arms).len() == arms.len(),
        forall|i: int|
            0 <= i < arms.len() ==> #[trigger] admission::arm_models(arms)[i] == arms[i]@,
{
}

/// An arm and a link read as their own fields.
pub proof fn arm_and_link_read_as_their_fields(arm: KnownArm, link: AdmittedLink)
    ensures
        arm@.arm_id == arm.arm_id@,
        arm@.generation == arm.generation,
        arm@.seat_id == arm.seat_id@,
        arm@.route == arm.route@,
        arm@.coverage_until == arm.coverage_until,
        link@.request_id == link.request_id@,
        link@.link_id == link.link_id@,
        link@.arm_id == link.arm_id@,
        link@.generation == link.generation,
        link@.waiter_id == link.waiter_id@,
        link@.route == link.route@,
        link@.lease_until == link.lease_until,
        link@.request == link.request@,
        link@.last_accepted == link.last_accepted@,
{
}

/// A claim reads as its own fields, its events one by one.
pub proof fn claim_reads_as_its_fields(claim: SignalClaim)
    ensures
        claim@.arm_id == claim.arm_id@,
        claim@.generation == claim.generation,
        claim@.signal_id == claim.signal_id@,
        claim@.event_refs.len() == claim.event_refs@.len(),
        forall|i: int|
            0 <= i < claim.event_refs@.len() ==> #[trigger] claim@.event_refs[i]
                == claim.event_refs@[i]@,
        claim@.events.len() == claim.events@.len(),
        forall|i: int|
            0 <= i < claim.events@.len() ==> #[trigger] claim@.events[i] == claim.events@[i]@,
{
}

/// An event reads as its own fields.
pub proof fn event_reads_as_its_fields(event: ProviderEvent)
    ensures
        event@.provider == event.provider@,
        event@.event_ref == event.event_ref@,
        event@.actor is None <==> event.actor is None,
        event.actor matches Some(actor) ==> event@.actor == Some(actor@),
        event@.observed_at == event.observed_at@,
        event@.body == event.body@,
{
}

/// What the daemon decided reads as it stands.
pub proof fn decisions_read_as_they_stand(
    coverage: DaemonCoverage,
    action: DaemonAction,
    rearm: AckRearm,
    serve: HandledServe,
)
    ensures
        coverage is Pause <==> coverage@ is Pause,
        coverage matches DaemonCoverage::Rearm { after } ==> coverage@ == (CoverageModel::Rearm {
            after: after@,
        }),
        coverage matches DaemonCoverage::Halt { exit } ==> coverage@ == (CoverageModel::Halt {
            exit,
        }),
        action is Continue <==> action@ is Continue,
        action is Flush <==> action@ is Flush,
        action matches DaemonAction::Respawn(after) ==> action@ == ActionModel::Respawn(after@),
        action matches DaemonAction::Halt(exit) ==> action@ == ActionModel::Halt(exit),
        rearm@.after == rearm.after@,
        rearm@.generation == rearm.generation,
        rearm@.signal_id == rearm.signal_id@,
        serve@.reply == serve.reply@,
        serve@.rearm is None <==> serve.rearm is None,
        serve.rearm matches Some(next) ==> serve@.rearm == Some(next@),
{
}

/// A message of the waiter link reads as its own kind.
pub proof fn link_message_keeps_its_kind(message: WaiterLink)
    ensures
        message is AttachWaiter <==> message@ is AttachWaiter,
        message is AttachAccepted <==> message@ is AttachAccepted,
        message is AttachRejected <==> message@ is AttachRejected,
        message is DeliverEvents <==> message@ is DeliverEvents,
        message is DeliveryResult <==> message@ is DeliveryResult,
        message matches WaiterLink::AttachRejected { request_id, code, observed_at } ==> message@
            == (LinkModel::AttachRejected {
            request_id: request_id@,
            code: code@,
            observed_at: observed_at@,
        }),
        message matches WaiterLink::DeliveryResult {
            delivery_id,
            link_id,
            signal_id,
            outcome,
            observed_at,
        } ==> message@ == (LinkModel::DeliveryResult {
            delivery_id: delivery_id@,
            link_id: link_id@,
            signal_id: signal_id@,
            outcome: outcome@,
            observed_at: observed_at@,
        }),
        message matches WaiterLink::DeliverEvents {
            delivery_id,
            link_id,
            arm_id,
            generation,
            signal_id,
            route,
            events,
            newest_event_ref,
            attempted_at,
        } ==> message@ == (LinkModel::DeliverEvents {
            delivery_id: delivery_id@,
            link_id: link_id@,
            arm_id: arm_id@,
            generation,
            signal_id: signal_id@,
            route: route@,
            events: protocol::event_models(events@),
            newest_event_ref: newest_event_ref@,
            attempted_at: attempted_at@,
        }),
{
}

/// An acknowledgement message reads as its own fields.
pub proof fn handled_message_reads_as_its_fields(message: HandledCursor)
    ensures
        message matches HandledCursor::Request {
            request_id,
            arm_id,
            generation,
            seat_id,
            signal_id,
            cursor,
            observed_at,
        } ==> message@ == (HandledModel::Request {
            request_id: request_id@,
            arm_id: arm_id@,
            generation,
            seat_id: seat_id@,
            signal_id: signal_id@,
            cursor: cursor@,
            observed_at: observed_at@,
        }),
        message matches HandledCursor::Accepted {
            request_id,
            arm_id,
            generation,
            signal_id,
            cursor,
            accepted_at,
        } ==> message@ == (HandledModel::Accepted {
            request_id: request_id@,
            arm_id: arm_id@,
            generation,
            signal_id: signal_id@,
            cursor: cursor@,
            accepted_at: accepted_at@,
        }),
        message matches HandledCursor::Rejected { request_id, code, observed_at } ==> message@
            == (HandledModel::Rejected {
            request_id: request_id@,
            code: code@,
            observed_at: observed_at@,
        }),
{
}

/// A scripted controller sends no byte where the write names another probe or epoch
/// than its lane, or where the epoch has moved on.
pub proof fn scripted_write_is_bound_to_its_lane(
    before: FakeController,
    lane: ControllerIdleGuard,
    command: ControllerCommand,
    result: Result<NativeWriteDisposition, ControllerWriteError>,
    after: FakeController,
)
    requires
        <FakeController as Controller>::wrote(before, lane, command, result, after),
    ensures
        ({
            let foreign = before.reject_write_binding || lane.probe_id != command.expected_probe_id
                || lane.epoch != command.expected_epoch;
            let moved = before.current_epoch matches Some(epoch) && epoch
                != command.expected_epoch;
            &&& foreign ==> after == before && result == Err::<
                NativeWriteDisposition,
                ControllerWriteError,
            >(ControllerWriteError::BindingRejected)
            &&& !foreign && moved ==> after == before && result == Ok::<
                NativeWriteDisposition,
                ControllerWriteError,
            >(
                NativeWriteDisposition::IdleEpochInvalidated {
                    probe_id: command.expected_probe_id,
                    expected_epoch: command.expected_epoch,
                    observed_epoch: before.current_epoch->0,
                },
            )
            &&& !foreign && !moved ==> after.write_cursor == (before.write_cursor + 1) as usize
                && result == Ok::<NativeWriteDisposition, ControllerWriteError>(
                before.writes@[before.write_cursor as int],
            )
        }),
{
}

/// A wiped secret holds nothing but zero bytes.
pub proof fn wiped_secret_is_zero(len: nat)
    ensures
        secret::zeros(len).len() == len,
        forall|i: int| 0 <= i < len ==> #[trigger] secret::zeros(len)[i] == 0u8,
{
}

/// Some key of the map has the value.
pub open spec fn keeps<K, W>(map: Map<K, W>, value: W) -> bool {
    exists|key: K| #[trigger] map.dom().contains(key) && map[key] == value
}

/// A listing holds exactly the values of its map.
pub proof fn listing_holds_the_values<K: Key, W>(map: Map<K, W>, values: Seq<W>)
    requires
        store::listed(map, values),
    ensures
        forall|key: K| #[trigger] map.dom().contains(key) ==> values.contains(map[key]),
        forall|i: int|
            0 <= i < values.len() ==> keeps(map, #[trigger] values[i]),
{
    let pairs = choose|pairs: Seq<(K, W)>|
        #[trigger] table::lists(pairs, map) && store::values_of(pairs) == values;
    assert forall|key: K| #[trigger] map.dom().contains(key) implies values.contains(map[key]) by {
        assert(table::has_key(pairs, key));
        let i = choose|i: int| 0 <= i < pairs.len() && (#[trigger] pairs[i]).0 == key;
        table::ascending_at(pairs, i);
        assert(values[i] == map[key]);
    }
    assert forall|i: int| 0 <= i < values.len() implies keeps(map, #[trigger] values[i]) by {
        table::ascending_at(pairs, i);
        assert(table::has_key(pairs, pairs[i].0));
        assert(map.dom().contains(pairs[i].0));
    }
}

/// A snapshot shows the counter of its store and every record of it, and nothing
/// that is not in it.
pub proof fn snapshot_shows_its_store(
    held: Store,
    snapshot: RecoverySnapshot,
    id: AttemptId,
    birth_id: ControllerBirthId,
)
    requires
        held.snapshot(snapshot),
    ensures
        snapshot.attempt_seq == held.attempt_seq,
        held.reservations.dom().contains(id) ==> snapshot.reservations@.contains(
            held.reservations[id],
        ),
        held.attachments.dom().contains(id) ==> snapshot.attachments@.contains(
            held.attachments[id],
        ),
        held.prepared.dom().contains(id) ==> snapshot.turn_correlations@.contains(
            held.prepared[id],
        ),
        held.prewrite.dom().contains(id) ==> snapshot.prewrite_conclusions@.contains(
            held.prewrite[id],
        ),
        held.births.dom().contains(birth_id) ==> snapshot.controller_births@.contains(
            held.births[birth_id],
        ),
        forall|i: int|
            0 <= i < snapshot.reservations@.len() ==> keeps(
                held.reservations,
                #[trigger] snapshot.reservations@[i],
            ),
        forall|i: int|
            0 <= i < snapshot.attachments@.len() ==> keeps(
                held.attachments,
                #[trigger] snapshot.attachments@[i],
            ),
        forall|i: int|
            0 <= i < snapshot.prewrite_conclusions@.len() ==> keeps(
                held.prewrite,
                #[trigger] snapshot.prewrite_conclusions@[i],
            ),
        forall|i: int|
            0 <= i < snapshot.controller_births@.len() ==> keeps(
                held.births,
                #[trigger] snapshot.controller_births@[i],
            ),
        snapshot.ownership@.len() > 0 ==> held.ownership.dom().contains(
            snapshot.ownership@[0].birth_id,
        ),
        held.turn_facts.dom().contains(id) ==> exists|i: int|
            0 <= i < snapshot.native_turn_facts@.len() && (
            #[trigger] snapshot.native_turn_facts@[i]).attempt_id == id
                && snapshot.native_turn_facts@[i].facts@ == held.turn_facts[id],
        held.reconciliations.dom().contains(id) ==> exists|i: int|
            0 <= i < snapshot.reconciliations@.len() && (
            #[trigger] snapshot.reconciliations@[i]).attempt_id == id
                && snapshot.reconciliations@[i].disposition == held.reconciliations[id],
{
    listing_holds_the_values(held.reservations, snapshot.reservations@);
    listing_holds_the_values(held.attachments, snapshot.attachments@);
    listing_holds_the_values(held.prepared, snapshot.turn_correlations@);
    listing_holds_the_values(held.prewrite, snapshot.prewrite_conclusions@);
    listing_holds_the_values(held.births, snapshot.controller_births@);
    let pairs = choose|pairs: Seq<(ControllerBirthId, ThreadOwnershipState)>|
        {
            &&& #[trigger] table::lists(pairs, held.ownership)
            &&& snapshot.ownership@ == Seq::new(
                pairs.len(),
                |i: int| PersistedThreadOwnership { birth_id: pairs[i].0, state: pairs[i].1 },
            )
        };
    if pairs.len() > 0 {
        table::ascending_at(pairs, 0);
        assert(table::has_key(pairs, pairs[0].0));
    }
    if held.turn_facts.dom().contains(id) {
        let told = choose|told: Seq<(AttemptId, Seq<NativeTurnFact>)>|
            {
                &&& #[trigger] table::lists(told, held.turn_facts)
                &&& store::facts_listed(told, snapshot.native_turn_facts@)
            };
        assert(table::has_key(told, id));
        let i = choose|i: int| 0 <= i < told.len() && (#[trigger] told[i]).0 == id;
        table::ascending_at(told, i);
        assert(snapshot.native_turn_facts@[i].attempt_id == id);
    }
    if held.reconciliations.dom().contains(id) {
        let ended = choose|ended: Seq<(AttemptId, ReconciliationDisposition)>|
            {
                &&& #[trigger] table::lists(ended, held.reconciliations)
                &&& snapshot.reconciliations@ == Seq::new(
                    ended.len(),
                    |i: int|
                        PersistedReconciliation {
                            attempt_id: ended[i].0,
                            disposition: ended[i].1,
                        },
                )
            };
        assert(table::has_key(ended, id));
        let i = choose|i: int| 0 <= i < ended.len() && (#[trigger] ended[i]).0 == id;
        table::ascending_at(ended, i);
        assert(snapshot.reconciliations@[i].attempt_id == id);
    }
}

/// Marking takes the unresolved writes in their order, one reference each, and is
/// complete where every one got its own.
pub proof fn marking_takes_one_reference_each(
    before: Store,
    pairs: Seq<(AttemptId, PersistedNativeReservation)>,
    refs: Seq<VerifierRef>,
    after: Store,
    complete: bool,
)
    requires
        persist::marked(before, pairs, refs, after, complete),
    ensures
        refs.len() == 0 ==> after == before,
        complete <==> refs.len() == before.unresolved_ids(pairs).len(),
        refs.len() > 0 ==> after.write_evidence.dom().contains(
            before.unresolved_ids(pairs)[refs.len() - 1],
        ),
        refs.len() > 0 ==> after == before.mark_all(
            before.unresolved_ids(pairs).take(refs.len() - 1),
            refs.drop_last(),
        ).mark_unknown(before.unresolved_ids(pairs)[refs.len() - 1], refs.last()),
{
    let ids = before.unresolved_ids(pairs);
    let n = refs.len() as int;
    if n > 0 {
        assert(ids.take(n).drop_last() =~= ids.take(n - 1));
        assert(ids.take(n).last() == ids[n - 1]);
    }
}

/// An admission names its own attempt and hands out a receipt only where the claim
/// is new.
pub proof fn admission_names_its_attempt(
    expected: (AuthorityModel, Result<(ClaimOutcome, AttemptId), AuthorityError>),
    after: AuthorityModel,
    result: Result<AdmissionResult, AuthorityError>,
)
    requires
        authority::admitted(expected, after, result),
    ensures
        after == expected.0,
        result is Ok <==> expected.1 is Ok,
        result matches Err(error) ==> expected.1->Err_0 == error,
        result matches Ok(admission) ==> {
            let (outcome, id) = expected.1->Ok_0;
            &&& admission.outcome == outcome
            &&& admission.attempt_id@ == id.chars()
            &&& admission.receipt is Some <==> outcome == ClaimOutcome::Admitted
            &&& admission.receipt matches Some(receipt) ==> receipt.attempt_id == id
        },
{
}

/// A claim of a known request is the one admitted only with the same arm, generation,
/// signal, references and events; otherwise it is refused and changes nothing.
pub proof fn known_request_keeps_its_claim(
    before: Store,
    record: ClaimModel,
    events: Seq<EventModel>,
    attachment: PersistedControllerAttachment,
)
    requires
        before.claims.dom().contains(record.request_id),
    ensures
        ({
            let (after, result) = before.admit_claim(record, events, attachment);
            let existing = before.claims[record.request_id];
            let same = existing.arm_id == record.arm_id && existing.generation
                == record.generation && existing.signal_id == record.signal_id
                && existing.event_refs == record.event_refs && before.payloads.dom().contains(
                record.request_id,
            ) && before.payloads[record.request_id] == events;
            &&& after == before
            &&& !same ==> result == Err::<AdmissionRecord, PersistError>(PersistError::Conflict)
            &&& result matches Ok(admission) ==> same && admission.outcome
                == ClaimOutcome::ExactReplay && admission.attempt_id
                == before.claim_attempts[record.request_id]
        }),
{
}

/// A coordinate may be sealed only for a live birth: the thread of a create that is
/// still open, or the turn of a reservation under its own attachment.
pub proof fn sealing_needs_a_live_birth(before: Store, scope: NativeCoordinateScope)
    requires
        before.scope_allows(scope, None, false),
    ensures
        scope matches NativeCoordinateScope::Thread { birth_id, create_attempt_id } ==> {
            &&& before.births.dom().contains(birth_id)
            &&& !before.births[birth_id].revoked
            &&& before.births[birth_id].birth_id == birth_id
            &&& before.creates.dom().contains(birth_id)
            &&& before.creates[birth_id].create_attempt_id == create_attempt_id
            &&& before.ownership.dom().contains(birth_id)
            &&& before.ownership[birth_id] is Reserved || before.ownership[birth_id] is Unknown
        },
        scope matches NativeCoordinateScope::Turn { birth_id, attempt_id, signal_id, turn_write_id }
            ==> {
            &&& before.births.dom().contains(birth_id)
            &&& !before.births[birth_id].revoked
            &&& before.reservations.dom().contains(attempt_id)
            &&& before.reservations[attempt_id].correlation.turn_ref is None
            &&& before.reservations[attempt_id].correlation.birth_id == birth_id
            &&& before.reservations[attempt_id].correlation.attempt_id == attempt_id
            &&& before.reservations[attempt_id].correlation.signal_id == signal_id
            &&& before.attachments.dom().contains(attempt_id)
            &&& !before.attachments[attempt_id].revoked
            &&& before.attachments[attempt_id].birth_id == birth_id
            &&& before.attachments[attempt_id].arm_id == before.births[birth_id].arm_id
            &&& before.attachments[attempt_id].generation == before.births[birth_id].generation
            &&& before.attachments[attempt_id].seat_id == before.births[birth_id].seat_id
            &&& before.attachments[attempt_id].capability == before.births[birth_id].capability
        },
{
}

/// What is not a request is neither recorded nor correlated.
pub proof fn only_requests_are_handled(
    acks: AckModel,
    message: HandledModel,
    reply: HandledModel,
    now: Timestamp,
)
    requires
        !(message is Request),
    ensures
        acks.record_handled(message, now) == (
            acks,
            Err::<HandledModel, Seq<char>>("expected request"@),
        ),
        acks.apply(message, now) == (acks, Err::<ServeModel, Seq<char>>("expected request"@)),
        ack_handled::correlated(message, reply) == Err::<u8, Seq<char>>("expected request"@),
{
}

/// An accepted request whose signal is closed is answered again without a rearm.
pub proof fn closed_signal_rearms_no_more(acks: AckModel, request: HandledModel, now: Timestamp)
    ensures
        ({
            let (recorded, reply) = acks.record_handled(request, now);
            let (after, served) = acks.apply(request, now);
            (reply matches Ok(HandledModel::Accepted { signal_id, .. }) && recorded.arm is Some
                && recorded.signals.dom().contains(signal_id)
                && recorded.signals[signal_id].handled is Some
                && recorded.signals[signal_id].closed) ==> after == recorded && served == Ok::<
                ServeModel,
                Seq<char>,
            >(ServeModel { reply: reply->Ok_0, rearm: None })
        }),
{
}

/// What a delivery tells of the claim is the claim that the pipe holds.
pub proof fn delivery_tells_of_the_live_claim(
    pipe: PipeModel,
    live: SignalModel,
    link: Option<AdmittedModel>,
    now: Timestamp,
    coverage: CoverageModel,
    delivery_id: Seq<char>,
    exchange: Option<LinkExchange>,
)
    requires
        pipe.claim == Some(live),
    ensures
        ({
            let (after, told) = pipe.deliver(live, link, now, coverage, delivery_id, exchange);
            &&& told.claim == Some(live)
            &&& after.claim == pipe.claim
            &&& told.coverage == coverage
            &&& told.waiter_attached <==> link is Some
        }),
{
}

/// An answer that comes back tells of the claim that the pipe held, whatever batch
/// was offered.
pub proof fn answered_delivery_keeps_the_held_claim(
    pipe: PipeModel,
    held: SignalModel,
    live: SignalModel,
    link: AdmittedModel,
    now: Timestamp,
    coverage: CoverageModel,
    delivery_id: Seq<char>,
    exchange: LinkExchange,
)
    requires
        pipe.claim == Some(held),
        exchange.sent,
        pipe.written(live, Some(link), now, delivery_id) is Some,
    ensures
        pipe.deliver(
            live,
            Some(link),
            now,
            coverage,
            delivery_id,
            Some(exchange),
        ).1.claim == Some(held),
{
}

/// An optional claim and an optional reference read as what they hold.
pub proof fn optional_claims_read_as_what_they_hold(
    claim: Option<SignalClaim>,
    thread: Option<NativeRef>,
)
    ensures
        claim is None <==> daemon::claim_model(claim) is None,
        claim matches Some(there) ==> daemon::claim_model(claim) == Some(there@),
        thread is None <==> exchange::optional_ref(thread) is None,
        thread matches Some(there) ==> exchange::optional_ref(thread) == Some(there@),
{
}

/// A scripted probe takes the next state of the script and stamps it with the probe
/// that asked.
pub proof fn scripted_probe_answers_its_own_challenge(
    before: FakeController,
    binding: ProbeBinding,
    result: Result<IdleProbeResult, ControllerProbeError>,
    after: FakeController,
)
    requires
        <FakeController as Controller>::probed(before, binding, result, after),
        before.cursor < usize::MAX,
    ensures
        after.cursor == before.cursor + 1,
        after.writes == before.writes,
        after.native_bytes == before.native_bytes,
        result is Ok,
        ({
            let scripted = before.probes@[before.cursor as int];
            &&& scripted is Idle <==> result->Ok_0 is Idle
            &&& scripted is Active <==> result->Ok_0 is Active
            &&& scripted is Unproven <==> result->Ok_0 is Unproven
            &&& scripted matches FakeIdleState::Idle(sequence) ==> {
                &&& after.current_epoch matches Some(epoch)
                &&& epoch.sequence == sequence
                &&& epoch.birth_id == binding.attachment.birth_id
                &&& result->Ok_0->lane.probe_id == binding.challenge_id
                &&& result->Ok_0->lane.epoch == epoch
            }
            &&& !(scripted is Idle) ==> after.current_epoch == before.current_epoch
            &&& scripted is Active ==> {
                let evidence = result->Ok_0->Active_0@;
                &&& evidence.probe_id == binding.challenge_id
                &&& evidence.attempt_id == binding.attachment.attempt_id
                &&& evidence.signal_id == binding.signal_id
                &&& evidence.birth_id == binding.attachment.birth_id
                &&& evidence.thread_ref == binding.thread_ref
                &&& evidence.create_attempt_id == before.create_attempt_id
                &&& evidence.observed_at == before.now
                &&& evidence.lease_until == binding.attachment.lease_until
                &&& evidence.producer_version == "codex-cli 0.152.1"@
                &&& evidence.producer_dialect == "thread/read-v2"@
            }
        }),
{
}

/// A scripted poll takes the next observation; a scripted reconciliation changes
/// nothing and gives the scripted answer.
pub proof fn scripted_follow_up_follows_its_script(
    before: FakeController,
    scope: ObservationScope,
    fact: Option<NativeTurnFact>,
    polled: FakeController,
    doubt: ReconciliationScope,
    answer: Result<ReconciliationDisposition, ControllerReconcileError>,
    reconciled: FakeController,
)
    requires
        <FakeController as Controller>::polled(before, scope, fact, polled),
        <FakeController as Controller>::reconciled(before, doubt, answer, reconciled),
        before.observation_cursor < usize::MAX,
    ensures
        fact == before.observations@[before.observation_cursor as int],
        polled == (FakeController {
            observation_cursor: (before.observation_cursor + 1) as usize,
            ..before
        }),
        reconciled == before,
        answer is Err <==> before.reject_reconciliation_binding,
        answer matches Err(error) ==> error == ControllerReconcileError::BindingRejected,
        answer matches Ok(given) ==> given == before.reconciliation,
{
}

/// Hexadecimal digits are the ten decimal ones and six small letters.
pub proof fn hex_digits_are_literal(value: int)
    requires
        0 <= value < 16,
    ensures
        value < 10 ==> primitives::hex_digit(value) as int == 0x30 + value,
        value >= 10 ==> primitives::hex_digit(value) as int == 0x61 + (value - 10),
{
}

/// In a JSON string a quote, a backslash and what is below the space are escaped, and
/// all else stands for itself.
pub proof fn json_escapes_are_literal(c: char)
    ensures
        primitives::json_char('"') =~= seq!['\\', '"'],
        primitives::json_char('\\') =~= seq!['\\', '\\'],
        primitives::json_char('\n') =~= seq!['\\', 'n'],
        primitives::json_char('\r') =~= seq!['\\', 'r'],
        primitives::json_char('\t') =~= seq!['\\', 't'],
        c >= ' ' && c != '"' && c != '\\' ==> primitives::json_char(c) =~= seq![c],
        c < ' ' ==> primitives::json_char(c).len() > 1 && primitives::json_char(c)[0] == '\\',
{
}

/// A text stands in JSON character by character.
pub proof fn json_text_goes_by_characters(text: Seq<char>, c: char)
    ensures
        primitives::json_chars(Seq::empty()).len() == 0,
        primitives::json_chars(text.push(c)) == primitives::json_chars(text)
            + primitives::json_char(c),
{
    assert(text.push(c).drop_last() =~= text);
}

/// Receipts count up by one and stay at the last number.
pub proof fn receipts_count_up(len: nat)
    ensures
        len < 0xffff_ffff_ffff_ffff ==> interrupt::next_sequence(len) == len + 1
            && attempt::next_sequence(len) == len + 1,
        len >= 0xffff_ffff_ffff_ffff ==> interrupt::next_sequence(len) == 0xffff_ffff_ffff_ffff
            && attempt::next_sequence(len) == 0xffff_ffff_ffff_ffff,
{
}

/// Dates run from the start of the year -9999 to the end of the year 9999.
pub proof fn dates_run_over_ten_thousand_years(at: Timestamp)
    ensures
        at.in_range() <==> -377_705_116_800_000_000_000 <= at.nanos && at.nanos
            < 253_402_300_800_000_000_000,
{
}

/// Keys are ordered by their first different byte, a shorter key before its
/// continuations.
pub proof fn first_difference_orders(common: Seq<u8>, x: u8, y: u8, s: Seq<u8>, t: Seq<u8>)
    ensures
        x != y ==> bytes::lex_lt(common + seq![x] + s, common + seq![y] + t) == (x < y),
        bytes::lex_lt(common, common + seq![x] + s),
        !bytes::lex_lt(common + seq![x] + s, common),
    decreases common.len(),
{
    let a = common + seq![x] + s;
    let b = common + seq![y] + t;
    if common.len() == 0 {
        assert(a[0] == x && b[0] == y);
    } else {
        let rest = common.drop_first();
        first_difference_orders(rest, x, y, s, t);
        assert(a.drop_first() =~= rest + seq![x] + s);
        assert(b.drop_first() =~= rest + seq![y] + t);
        assert(a[0] == common[0] && b[0] == common[0]);
    }
}

/// A reply that does not answer its request is refused with what is wrong with it.
pub proof fn foreign_replies_have_their_reasons(request: HandledModel, reply: HandledModel)
    requires
        request is Request,
    ensures
        ({
            let verdict = ack_handled::correlated(request, reply);
            let refused = |reason: Seq<char>| verdict == Err::<u8, Seq<char>>(reason);
            &&& reply is Request ==> refused("expected reply"@)
            &&& reply is Rejected && reply->Rejected_request_id != request->Request_request_id
                ==> refused("rejected reply request_id mismatch"@)
            &&& reply is Accepted && reply->Accepted_request_id != request->Request_request_id
                ==> refused("accepted reply did not echo the request"@)
            &&& reply is Accepted && reply->Accepted_cursor != request->Request_cursor
                ==> refused("accepted reply did not echo the request"@)
        }),
{
}

/// Only an attach request attaches, and a request id stands for one request.
pub proof fn only_attach_requests_attach(
    table: Option<AdmittedModel>,
    request: LinkModel,
    now: Timestamp,
    arms: Seq<ArmModel>,
    link_id: Seq<char>,
)
    ensures
        ({
            let verdict = admission::attach_verdict(table, request, now, arms, link_id);
            &&& !(request is AttachWaiter) ==> verdict == Err::<DecisionModel, Seq<char>>(
                "expected attach_waiter"@,
            )
            &&& (request is AttachWaiter && table is Some && table->0.request_id
                == request->AttachWaiter_request_id && table->0.request != request) ==> verdict
                == Err::<DecisionModel, Seq<char>>("request_id conflict"@)
        }),
{
}

/// A create without a reservation, or whose ownership is gone, takes no outcome.
pub proof fn unreserved_create_takes_no_outcome(before: Store, commit: ThreadCreateCommit)
    requires
        !before.creates.dom().contains(commit.birth_id) || (
        before.creates[commit.birth_id].create_attempt_id == commit.create_attempt_id
            && !before.ownership.dom().contains(commit.birth_id)),
    ensures
        before.resolve_create(commit) == (
            before,
            Err::<IdempotentWrite, PersistError>(PersistError::InvalidTransition),
        ),
{
}

/// A store that is set to fail fails once, keeps everything, and works again.
pub proof fn failing_store_fails_once(before: Store, commit: NativeTurnFactCommit)
    requires
        before.fail_next_turn_fact,
    ensures
        before.record_fact(commit) == (
            Store { fail_next_turn_fact: false, ..before },
            Err::<IdempotentWrite, PersistError>(PersistError::StorageUnavailable),
        ),
{
}

/// Bytes that are no text name nothing.
pub proof fn malformed_bytes_name_nothing(plaintext: Seq<u8>)
    ensures
        !valid_utf8(plaintext) ==> codex::native_name(plaintext) == Err::<
            Seq<u8>,
            TransportError,
        >(TransportError::Malformed),
        codex::native_name(plaintext) matches Ok(name) ==> name == plaintext,
{
}

/// A write that is held back says why: the epoch moved, or the command is for another
/// birth, thread or signal; otherwise it was not accepted.
pub proof fn withheld_write_says_why(lane: CodexLane, command: ControllerCommand)
    ensures
        ({
            let step = codex_steps::withheld(lane, command);
            let epoch = NativeMutationEpoch { birth_id: lane.birth.birth_id, sequence: lane.epoch };
            let moved = epoch != command.expected_epoch;
            let foreign = command.attachment.birth_id != lane.birth.birth_id
                || command.correlation.thread_ref != lane.thread_ref || command.action.signal_id
                != command.correlation.signal_id || command.attachment.attempt_id
                != command.correlation.attempt_id || command.attachment.lease_until.nanos
                > lane.birth.lease_until.nanos;
            &&& moved ==> step == TurnStep::Concluded(
                Ok(
                    NativeWriteDisposition::IdleEpochInvalidated {
                        probe_id: command.expected_probe_id,
                        expected_epoch: command.expected_epoch,
                        observed_epoch: epoch,
                    },
                ),
            )
            &&& !moved && foreign ==> step == TurnStep::Concluded(
                Err(ControllerWriteError::BindingRejected),
            )
            &&& step == TurnStep::Concluded(Ok(NativeWriteDisposition::ProvenNotAccepted)) ==> !moved
                && !foreign
        }),
{
}

} // verus!
