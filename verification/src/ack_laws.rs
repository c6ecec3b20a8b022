//! Laws of acknowledgement and rearm.

use crate::ack;
use crate::ack::{AckModel, BatchModel, HistoryModel, RearmModel, ServeModel};
use crate::admission::ArmModel;
use crate::protocol;
use crate::protocol::HandledModel;
use crate::timestamp::Timestamp;
use vstd::prelude::*;
use vstd::string::*;

verus! {

/// A reply names the request that it answers: an acceptance repeats its arm,
/// generation, signal and cursor.
pub open spec fn echoes(request: HandledModel, reply: HandledModel) -> bool {
    request matches HandledModel::Request {
        request_id,
        arm_id,
        generation,
        signal_id,
        cursor,
        ..
    } ==> match reply {
        HandledModel::Accepted {
            request_id: answered,
            arm_id: reply_arm,
            generation: reply_generation,
            signal_id: reply_signal,
            cursor: reply_cursor,
            ..
        } => {
            &&& answered == request_id
            &&& reply_arm == arm_id
            &&& reply_generation == generation
            &&& reply_signal == signal_id
            &&& reply_cursor == cursor
        },
        HandledModel::Rejected { request_id: answered, .. } => answered == request_id,
        HandledModel::Request { .. } => false,
    }
}

/// Every answered request has a reply that names it.
pub open spec fn history_echoes(store: AckModel) -> bool {
    forall|id: Seq<char>| #[trigger]
        store.history.dom().contains(id) ==> echoes(store.history[id].request, store.history[id].reply)
}

/// Every reply names its request, and a store that holds only such replies keeps
/// doing so.
pub proof fn replies_echo_their_request(store: AckModel, request: HandledModel, now: Timestamp)
    requires
        history_echoes(store),
        request is Request,
    ensures
        store.record_handled(request, now).1 matches Ok(reply) ==> echoes(request, reply),
        history_echoes(store.record_handled(request, now).0),
        history_echoes(store.apply(request, now).0),
{
    let (after, reply) = store.record_handled(request, now);
    let request_id = request->Request_request_id;
    if store.history.dom().contains(request_id) {
        assert(echoes(store.history[request_id].request, store.history[request_id].reply));
    }
    assert forall|id: Seq<char>| #[trigger] after.history.dom().contains(id) implies echoes(
        after.history[id].request,
        after.history[id].reply,
    ) by {
        if id != request_id || store.history.dom().contains(request_id) {
            assert(store.history.dom().contains(id));
        }
    }
    let applied = store.apply(request, now).0;
    assert(applied.history == after.history);
}

/// Coverage rearms from exactly the cursor that was accepted: the baseline of a
/// rearm is the request's own cursor, its generation the next one, and its signal
/// the one that was acknowledged and is now closed. Where the request is new, the
/// closed signal has that cursor as handled.
pub proof fn rearm_starts_after_the_accepted_cursor(
    store: AckModel,
    request: HandledModel,
    now: Timestamp,
)
    requires
        history_echoes(store),
        request is Request,
    ensures
        ({
            let (after, served) = store.apply(request, now);
            served matches Ok(served) ==> (served.rearm matches Some(rearm) ==> {
                &&& served.reply is Accepted
                &&& served.reply->Accepted_cursor == request->Request_cursor
                &&& rearm.after == request->Request_cursor
                &&& rearm.signal_id == request->Request_signal_id
                &&& store.arm is Some && after.arm is Some
                &&& rearm.generation == store.arm->0.generation + 1
                &&& after.arm->0.generation == store.arm->0.generation + 1
                &&& after.signals.dom().contains(request->Request_signal_id)
                &&& after.signals[request->Request_signal_id].closed
                &&& !store.signals[request->Request_signal_id].closed
                &&& !store.history.dom().contains(request->Request_request_id)
                    ==> after.signals[request->Request_signal_id].handled == Some(
                    request->Request_cursor,
                )
            })
        }),
{
    replies_echo_their_request(store, request, now);
}

proof fn placed_at(list: Seq<Seq<char>>, wanted: Seq<char>, at: int)
    requires
        list.no_duplicates(),
        0 <= at < list.len(),
        list[at] == wanted,
    ensures
        ack::first_place(list, wanted) == Some(at),
{
    assert(ack::stands_first(list, wanted, at));
    let found = choose|i: int| ack::stands_first(list, wanted, i);
    assert(list[found] == list[at]);
}

proof fn placed_nowhere(list: Seq<Seq<char>>, wanted: Seq<char>)
    requires
        !list.contains(wanted),
    ensures
        ack::first_place(list, wanted) is None,
{
    if exists|i: int| ack::stands_first(list, wanted, i) {
        let found = choose|i: int| ack::stands_first(list, wanted, i);
        assert(list[found] == wanted);
    }
}

/// A request of the seat that the arm is for, for the open signal of the live
/// generation, with a delivered cursor at or after the handled one, is accepted;
/// and applying it closes the signal there and rearms after that cursor.
pub proof fn delivered_cursor_is_accepted(
    store: AckModel,
    request: HandledModel,
    now: Timestamp,
    at: int,
    handled_at: int,
)
    requires
        request is Request,
        store.arm is Some,
        store.arm->0.arm_id == request->Request_arm_id,
        store.arm->0.seat_id == request->Request_seat_id,
        store.arm->0.generation == request->Request_generation,
        store.arm->0.generation < u64::MAX,
        store.signals.dom().contains(request->Request_signal_id),
        !store.history.dom().contains(request->Request_request_id),
        store.history.dom().len() < 256,
        ({
            let batch = store.signals[request->Request_signal_id];
            &&& !batch.closed
            &&& batch.generation == store.arm->0.generation
            &&& batch.delivered.no_duplicates()
            &&& 0 <= at < batch.delivered.len()
            &&& batch.delivered[at] == request->Request_cursor
            &&& !batch.after_bound.contains(request->Request_cursor)
            &&& batch.handled matches Some(handled) ==> 0 <= handled_at <= at
                && batch.delivered[handled_at] == handled
        }),
    ensures
        ({
            let batch = store.signals[request->Request_signal_id];
            let reply = HandledModel::Accepted {
                request_id: request->Request_request_id,
                arm_id: request->Request_arm_id,
                generation: request->Request_generation,
                signal_id: request->Request_signal_id,
                cursor: request->Request_cursor,
                accepted_at: protocol::time_chars(now),
            };
            let (after, served) = store.apply(request, now);
            &&& store.record_handled(request, now).1 == Ok::<HandledModel, Seq<char>>(reply)
            &&& served == Ok::<ServeModel, Seq<char>>(
                ServeModel {
                    reply,
                    rearm: Some(
                        RearmModel {
                            after: request->Request_cursor,
                            generation: (store.arm->0.generation + 1) as u64,
                            signal_id: request->Request_signal_id,
                        },
                    ),
                },
            )
            &&& after.arm == Some(
                ArmModel { generation: (store.arm->0.generation + 1) as u64, ..store.arm->0 },
            )
            &&& after.signals == store.signals.insert(
                request->Request_signal_id,
                BatchModel { handled: Some(request->Request_cursor), closed: true, ..batch },
            )
            &&& after.history == store.history.insert(
                request->Request_request_id,
                HistoryModel { request, reply },
            )
        }),
{
    let batch = store.signals[request->Request_signal_id];
    placed_at(batch.delivered, request->Request_cursor, at);
    placed_nowhere(batch.after_bound, request->Request_cursor);
    if let Some(handled) = batch.handled {
        placed_at(batch.delivered, handled, handled_at);
    }
    let after = store.apply(request, now).0;
    assert(after.signals =~= store.signals.insert(
        request->Request_signal_id,
        BatchModel { handled: Some(request->Request_cursor), closed: true, ..batch },
    ));
}

/// A new request is refused with the code of what is wrong with it, the arm
/// before the seat, the seat before the generation, and these before the cursor.
pub proof fn refusals_have_their_codes(
    store: AckModel,
    request: HandledModel,
    now: Timestamp,
)
    requires
        request is Request,
        !store.history.dom().contains(request->Request_request_id),
        store.history.dom().len() < 256,
    ensures
        ({
            let refused = |code: Seq<char>|
                store.record_handled(request, now).1 == Ok::<HandledModel, Seq<char>>(
                    HandledModel::Rejected {
                        request_id: request->Request_request_id,
                        code,
                        observed_at: protocol::time_chars(now),
                    },
                );
            let known = store.arm matches Some(arm) && arm.arm_id == request->Request_arm_id;
            let seated = known && store.arm->0.seat_id == request->Request_seat_id;
            let live = seated && store.arm->0.generation == request->Request_generation;
            let named = live && store.signals.dom().contains(request->Request_signal_id);
            let batch = store.signals[request->Request_signal_id];
            let open = named && !batch.closed && batch.generation == request->Request_generation;
            let sent = open && batch.delivered.len() > 0;
            let inside = sent && !batch.after_bound.contains(request->Request_cursor);
            &&& !known ==> refused("unknown_arm"@)
            &&& known && !seated ==> refused("seat_mismatch"@)
            &&& seated && !live ==> refused("stale_generation"@)
            &&& live && !named ==> refused("unknown_signal"@)
            &&& named && !open ==> refused("stale_generation"@)
            &&& open && !sent ==> refused("ack_before_delivery"@)
            &&& sent && !inside ==> refused("cursor_beyond_delivered"@)
            &&& inside && !batch.delivered.contains(request->Request_cursor) ==> refused(
                "cursor_not_member"@,
            )
        }),
{
    let batch = store.signals[request->Request_signal_id];
    if !batch.delivered.contains(request->Request_cursor) {
        placed_nowhere(batch.delivered, request->Request_cursor);
    }
    if batch.after_bound.contains(request->Request_cursor) {
        first_exists(batch.after_bound, request->Request_cursor);
    } else {
        placed_nowhere(batch.after_bound, request->Request_cursor);
    }
}

proof fn first_exists(list: Seq<Seq<char>>, wanted: Seq<char>)
    requires
        list.contains(wanted),
    ensures
        ack::first_place(list, wanted) is Some,
    decreases list.len(),
{
    let at = choose|i: int| 0 <= i < list.len() && list[i] == wanted;
    first_at_or_before(list, wanted, at);
}

proof fn first_at_or_before(list: Seq<Seq<char>>, wanted: Seq<char>, at: int)
    requires
        0 <= at < list.len(),
        list[at] == wanted,
    ensures
        exists|i: int| ack::stands_first(list, wanted, i),
    decreases at,
{
    if exists|j: int| 0 <= j < at && #[trigger] list[j] == wanted {
        let j = choose|j: int| 0 <= j < at && #[trigger] list[j] == wanted;
        first_at_or_before(list, wanted, j);
    } else {
        assert(ack::stands_first(list, wanted, at));
    }
}

/// A cursor before the handled one is refused as stale.
pub proof fn cursor_never_goes_back(
    store: AckModel,
    request: HandledModel,
    now: Timestamp,
    at: int,
    handled_at: int,
)
    requires
        request is Request,
        !store.history.dom().contains(request->Request_request_id),
        store.history.dom().len() < 256,
        store.arm is Some,
        store.arm->0.arm_id == request->Request_arm_id,
        store.arm->0.seat_id == request->Request_seat_id,
        store.arm->0.generation == request->Request_generation,
        store.signals.dom().contains(request->Request_signal_id),
        ({
            let batch = store.signals[request->Request_signal_id];
            &&& !batch.closed
            &&& batch.generation == store.arm->0.generation
            &&& batch.delivered.no_duplicates()
            &&& 0 <= at < handled_at < batch.delivered.len()
            &&& batch.delivered[at] == request->Request_cursor
            &&& batch.handled == Some(batch.delivered[handled_at])
            &&& !batch.after_bound.contains(request->Request_cursor)
        }),
    ensures
        store.record_handled(request, now).1 == Ok::<HandledModel, Seq<char>>(
            HandledModel::Rejected {
                request_id: request->Request_request_id,
                code: "stale_cursor"@,
                observed_at: protocol::time_chars(now),
            },
        ),
        store.record_handled(request, now).0.signals == store.signals,
{
    let batch = store.signals[request->Request_signal_id];
    placed_at(batch.delivered, request->Request_cursor, at);
    placed_at(batch.delivered, batch.delivered[handled_at], handled_at);
    placed_nowhere(batch.after_bound, request->Request_cursor);
}

/// The leading part of a drain that is delivered for a new signal is noted as
/// that signal's batch, with the rest of the drain beyond it; every other batch,
/// the arm and the answered requests stay.
pub proof fn delivery_is_noted(
    store: AckModel,
    signal_id: Seq<char>,
    delivered: Seq<Seq<char>>,
    rest: Seq<Seq<char>>,
)
    requires
        store.arm is Some,
        delivered.len() > 0,
        (delivered + rest).no_duplicates(),
        !store.signals.dom().contains(signal_id),
        forall|id: Seq<char>| #[trigger]
            store.signals.dom().contains(id) ==> store.signals[id].closed
                || store.signals[id].generation != store.arm->0.generation,
    ensures
        store.note_delivered(signal_id, delivered, delivered + rest) == (
            AckModel {
                signals: store.signals.insert(
                    signal_id,
                    BatchModel {
                        arm_id: store.arm->0.arm_id,
                        generation: store.arm->0.generation,
                        delivered,
                        drain_snapshot: delivered + rest,
                        after_bound: rest,
                        handled: None,
                        closed: false,
                    },
                ),
                ..store
            },
            Ok::<(), Seq<char>>(()),
        ),
{
    let drain = delivered + rest;
    assert(drain.take(delivered.len() as int) =~= delivered);
    assert(drain.skip(delivered.len() as int) =~= rest);
    assert forall|i: int, j: int|
        0 <= i < delivered.len() && 0 <= j < delivered.len() && i != j implies delivered[i]
        != delivered[j] by {
        assert(drain[i] != drain[j]);
    }
    assert(!store.other_open(store.arm->0.generation, signal_id));
}

/// A delivery that is empty, repeats an event or is not the leading part of its
/// drain is refused, as is one while another signal of the generation is open;
/// nothing changes.
pub proof fn foul_delivery_is_refused(
    store: AckModel,
    signal_id: Seq<char>,
    delivered: Seq<Seq<char>>,
    drain: Seq<Seq<char>>,
    other: Seq<char>,
)
    requires
        store.arm is None || delivered.len() == 0 || !delivered.no_duplicates()
            || !drain.no_duplicates() || !delivered.is_prefix_of(drain) || (
        store.signals.dom().contains(other) && other != signal_id
            && store.signals[other].generation == store.arm->0.generation
            && !store.signals[other].closed),
    ensures
        store.note_delivered(signal_id, delivered, drain).0 == store,
        store.note_delivered(signal_id, delivered, drain).1 is Err,
{
    if store.arm is Some && delivered.len() > 0 && ack::prefix_fault(delivered, drain) is None {
        assert(delivered.is_prefix_of(drain));
        assert(store.other_open(store.arm->0.generation, signal_id));
    }
}

/// A signal that is claimed before its delivery takes the delivery as its batch.
pub proof fn claimed_signal_takes_its_delivery(
    store: AckModel,
    signal_id: Seq<char>,
    delivered: Seq<Seq<char>>,
    rest: Seq<Seq<char>>,
)
    requires
        store.arm is Some,
        delivered.len() > 0,
        (delivered + rest).no_duplicates(),
        !store.signals.dom().contains(signal_id),
        forall|id: Seq<char>| #[trigger]
            store.signals.dom().contains(id) ==> store.signals[id].closed
                || store.signals[id].generation != store.arm->0.generation,
    ensures
        ({
            let (claimed, first) = store.note_claimed(signal_id);
            &&& first == Ok::<(), Seq<char>>(())
            &&& claimed.signals[signal_id].delivered.len() == 0
            &&& claimed.signals[signal_id].handled is None
            &&& !claimed.signals[signal_id].closed
            &&& claimed.note_delivered(signal_id, delivered, delivered + rest) == (
                store.note_delivered(signal_id, delivered, delivered + rest).0,
                Ok::<(), Seq<char>>(()),
            )
        }),
{
    delivery_is_noted(store, signal_id, delivered, rest);
    let (claimed, first) = store.note_claimed(signal_id);
    assert(!store.other_open(store.arm->0.generation, signal_id));
    assert(!claimed.other_open(claimed.arm->0.generation, signal_id)) by {
        if claimed.other_open(claimed.arm->0.generation, signal_id) {
            let id = choose|id: Seq<char>|
                {
                    &&& #[trigger] claimed.signals.dom().contains(id)
                    &&& id != signal_id
                    &&& claimed.signals[id].generation == claimed.arm->0.generation
                    &&& !claimed.signals[id].closed
                };
            assert(store.signals.dom().contains(id));
        }
    }
    let after = claimed.note_delivered(signal_id, delivered, delivered + rest).0;
    assert(after.signals =~= store.note_delivered(
        signal_id,
        delivered,
        delivered + rest,
    ).0.signals);
}

/// An answered request is never answered differently, and its id with another
/// body is a conflict; a full history answers nothing new.
pub proof fn request_id_is_bound_to_its_body(
    store: AckModel,
    request: HandledModel,
    now: Timestamp,
)
    requires
        request is Request,
    ensures
        store.history.dom().contains(request->Request_request_id)
            && store.history[request->Request_request_id].request == request
            ==> store.record_handled(request, now) == (
            store,
            Ok::<HandledModel, Seq<char>>(store.history[request->Request_request_id].reply),
        ),
        store.history.dom().contains(request->Request_request_id)
            && store.history[request->Request_request_id].request != request
            ==> store.record_handled(request, now) == (
            store,
            Err::<HandledModel, Seq<char>>("request_id conflict"@),
        ),
        !store.history.dom().contains(request->Request_request_id) && store.history.dom().len()
            >= 256 ==> store.record_handled(request, now) == (
            store,
            Err::<HandledModel, Seq<char>>("request history full"@),
        ),
{
}

/// A handled signal of the live generation is closed once, at its own cursor, and
/// the arm moves on by one generation; otherwise nothing changes and the refusal
/// says why.
pub proof fn rearm_closes_the_handled_signal(store: AckModel, signal_id: Seq<char>)
    ensures
        ({
            let (after, closed) = store.rearm(signal_id);
            let batch = store.signals[signal_id];
            let refused = |code: Seq<char>|
                after == store && closed == Err::<Seq<char>, Seq<char>>(code);
            let armed = store.arm is Some;
            let known = armed && store.signals.dom().contains(signal_id);
            let live = known && batch.generation == store.arm->0.generation;
            let handled = live && batch.handled is Some;
            let open = handled && !batch.closed;
            &&& !armed ==> refused("unknown_arm"@)
            &&& armed && !known ==> refused("unknown_signal"@)
            &&& known && !live ==> refused("stale_generation"@)
            &&& live && !handled ==> refused("ack_before_delivery"@)
            &&& handled && !open ==> refused("stale_generation"@)
            &&& open && store.arm->0.generation == u64::MAX ==> refused("generation overflow"@)
            &&& open && store.arm->0.generation < u64::MAX ==> {
                &&& closed == Ok::<Seq<char>, Seq<char>>(batch.handled->0)
                &&& after.arm is Some
                &&& after.arm->0.generation == store.arm->0.generation + 1
                &&& after.arm->0.arm_id == store.arm->0.arm_id
                &&& after.arm->0.seat_id == store.arm->0.seat_id
                &&& after.arm->0.route == store.arm->0.route
                &&& after.arm->0.coverage_until == store.arm->0.coverage_until
                &&& after.signals == store.signals.insert(
                    signal_id,
                    BatchModel { closed: true, ..batch },
                )
                &&& after.history == store.history
            }
        }),
{
}

/// A signal is claimed for the live arm and generation while no other signal of it
/// is open, and is claimed again only before anything was delivered for it.
pub proof fn claim_needs_a_free_generation(store: AckModel, signal_id: Seq<char>, other: Seq<char>)
    requires
        store.arm is Some,
    ensures
        ({
            let (after, claimed) = store.note_claimed(signal_id);
            let arm = store.arm->0;
            let batch = store.signals[signal_id];
            let taken = store.signals.dom().contains(other) && other != signal_id
                && store.signals[other].generation == arm.generation
                && !store.signals[other].closed;
            let known = store.signals.dom().contains(signal_id);
            let untouched = batch.arm_id == arm.arm_id && batch.generation == arm.generation
                && batch.delivered.len() == 0 && !batch.closed;
            &&& taken ==> after == store && claimed == Err::<(), Seq<char>>("signal conflict"@)
            &&& known && !untouched ==> after == store && claimed == Err::<(), Seq<char>>(
                "signal conflict"@,
            )
            &&& claimed is Ok ==> after.signals.dom().contains(signal_id)
                && after.signals[signal_id].arm_id == arm.arm_id
                && after.signals[signal_id].generation == arm.generation
                && after.signals[signal_id].delivered.len() == 0
                && !after.signals[signal_id].closed
            &&& after.arm == store.arm
            &&& after.history == store.history
        }),
{
    if store.signals.dom().contains(other) && other != signal_id && store.signals[other].generation
        == store.arm->0.generation && !store.signals[other].closed {
        assert(store.other_open(store.arm->0.generation, signal_id));
    }
}

/// A delivery is refused for what is wrong with it: the arm first, then that it is
/// empty, then what it repeats or leaves out, then another open signal.
pub proof fn delivery_refusals_have_their_codes(
    store: AckModel,
    signal_id: Seq<char>,
    delivered: Seq<Seq<char>>,
    drain: Seq<Seq<char>>,
    other: Seq<char>,
)
    ensures
        ({
            let (after, noted) = store.note_delivered(signal_id, delivered, drain);
            let refused = |code: Seq<char>|
                after == store && noted == Err::<(), Seq<char>>(code);
            let armed = store.arm is Some;
            let filled = armed && delivered.len() > 0;
            let clean = filled && drain.no_duplicates();
            let distinct = clean && delivered.no_duplicates();
            let leading = distinct && delivered.is_prefix_of(drain);
            let taken = store.signals.dom().contains(other) && other != signal_id
                && store.signals[other].generation == store.arm->0.generation
                && !store.signals[other].closed;
            &&& !armed ==> refused("unknown_arm"@)
            &&& armed && !filled ==> refused("empty delivery"@)
            &&& filled && !clean ==> refused("duplicate drain ref"@)
            &&& clean && !distinct ==> refused("duplicate event_ref"@)
            &&& distinct && !leading ==> refused("delivered not leading prefix"@)
            &&& leading && taken ==> refused("signal conflict"@)
        }),
{
    if delivered.is_prefix_of(drain) {
        assert(drain.take(delivered.len() as int) =~= delivered);
    } else if drain.len() >= delivered.len() {
        assert(drain.take(delivered.len() as int) != delivered);
    }
    if store.arm is Some && store.signals.dom().contains(other) && other != signal_id
        && store.signals[other].generation == store.arm->0.generation
        && !store.signals[other].closed {
        assert(store.other_open(store.arm->0.generation, signal_id));
    }
}

/// A signal that holds a delivery keeps it: the same delivery is taken again without a
/// change, and any other is refused.
pub proof fn noted_delivery_stays(
    store: AckModel,
    signal_id: Seq<char>,
    delivered: Seq<Seq<char>>,
    drain: Seq<Seq<char>>,
)
    requires
        store.arm is Some,
        store.signals.dom().contains(signal_id),
        store.signals[signal_id].delivered.len() > 0,
    ensures
        ({
            let (after, noted) = store.note_delivered(signal_id, delivered, drain);
            let held = store.signals[signal_id];
            &&& after == store
            &&& noted is Ok ==> held.delivered == delivered && held.drain_snapshot == drain
                && held.arm_id == store.arm->0.arm_id && held.generation
                == store.arm->0.generation
        }),
{
}

/// Without an arm nothing is claimed, noted or rearmed.
pub proof fn unarmed_store_takes_nothing(
    store: AckModel,
    signal_id: Seq<char>,
    delivered: Seq<Seq<char>>,
    drain: Seq<Seq<char>>,
)
    requires
        store.arm is None,
    ensures
        store.note_claimed(signal_id) == (store, Err::<(), Seq<char>>("unknown_arm"@)),
        store.note_delivered(signal_id, delivered, drain) == (
            store,
            Err::<(), Seq<char>>("unknown_arm"@),
        ),
        store.rearm(signal_id) == (store, Err::<Seq<char>, Seq<char>>("unknown_arm"@)),
{
}

} // verus!
