//! Laws of the waiter link: admission, delivery and the daemon's coverage.

use crate::ack_handled;
use crate::admission;
use crate::admission::{AdmittedModel, ArmModel, SessionModel};
use crate::attach;
use crate::attach::AcceptedModel;
use crate::daemon;
use crate::daemon::{
    ActionModel, ClaimError, CoverageModel, DaemonCoverage, DaemonEvent, DrainError, DrainedEvent,
    LinkExchange, OutcomeModel, PipeModel, PollRead, PollVerdict, SignalModel,
};
use crate::delivery;
use crate::delivery::PendingModel;
use crate::primitives;
use crate::protocol;
use crate::protocol::{EventModel, HandledModel, LinkModel};
use crate::timestamp::Timestamp;
use crate::wait_on::WaitResult;
use vstd::prelude::*;
use vstd::string::*;
use vstd::utf8::*;

verus! {

/// What the daemon's loop learns decides what it does: coverage that rearms is
/// started again from exactly its cursor and nothing else starts it, a claim is
/// offered to the waiter, a halt ends with its own exit, and coverage that is
/// over ends with 1.
pub proof fn daemon_acts_on_what_it_learns(
    event: DaemonEvent,
    coverage: DaemonCoverage,
    now: Timestamp,
    coverage_until: Timestamp,
)
    ensures
        coverage matches DaemonCoverage::Rearm { after } ==> daemon::next_action(
            DaemonEvent::Ingested(coverage),
            now,
            coverage_until,
        ) == ActionModel::Respawn(after@),
        coverage == DaemonCoverage::Pause ==> daemon::next_action(
            DaemonEvent::Ingested(coverage),
            now,
            coverage_until,
        ) == ActionModel::Flush,
        coverage matches DaemonCoverage::Halt { exit } ==> daemon::next_action(
            DaemonEvent::Ingested(coverage),
            now,
            coverage_until,
        ) == ActionModel::Halt(exit),
        daemon::next_action(event, now, coverage_until) is Respawn <==> (event matches
            DaemonEvent::Ingested(ingested) && ingested is Rearm),
        daemon::next_action(event, now, coverage_until) is Flush <==> (event matches
            DaemonEvent::Ingested(ingested) && ingested is Pause),
        event is AcceptLost || event is SpawnFailed || event is ChildFailed ==> daemon::next_action(
            event,
            now,
            coverage_until,
        ) == ActionModel::Halt(2),
        event is ChildRunning ==> daemon::next_action(event, now, coverage_until)
            == ActionModel::Continue,
        event is Tick && coverage_until.nanos <= now.nanos ==> daemon::next_action(
            event,
            now,
            coverage_until,
        ) == ActionModel::Halt(1),
        event is Tick && now.nanos < coverage_until.nanos ==> daemon::next_action(
            event,
            now,
            coverage_until,
        ) == ActionModel::Continue,
{
}

/// An interval of coverage, from the wait to the loop's next action: a timeout
/// starts the wait again after the same cursor, a match with events offers the
/// claim, and a failed wait or a match without events ends the daemon with 2.
pub proof fn interval_leads_to_its_action(
    pipe: PipeModel,
    after: Seq<char>,
    wait: WaitResult,
    drained: Result<Seq<DrainedEvent>, DrainError>,
    arm: ArmModel,
    link: Option<AdmittedModel>,
    now: Timestamp,
    mint_signal: Seq<char>,
    delivery_id: Seq<char>,
    exchange: Option<LinkExchange>,
    coverage: DaemonCoverage,
    until: Timestamp,
)
    requires
        coverage@ == pipe.ingest(
            after,
            wait,
            drained,
            arm,
            link,
            now,
            mint_signal,
            delivery_id,
            exchange,
        ).1.coverage,
    ensures
        ({
            let action = daemon::next_action(DaemonEvent::Ingested(coverage), now, until);
            let found = drained matches Ok(events) && events.len() > 0;
            &&& wait is Timeout ==> action == ActionModel::Respawn(after)
            &&& wait is Error ==> action == ActionModel::Halt(2)
            &&& wait is Matched && found ==> action == ActionModel::Flush
            &&& wait is Matched && !found ==> action == ActionModel::Halt(2)
        }),
{
}

/// A drained batch becomes the claim of its arm and generation under the minted
/// signal id: its events in drain order, each with the post's own id, body and
/// author, seen now.
pub proof fn drained_batch_is_claimed(
    pipe: PipeModel,
    after: Seq<char>,
    events: Seq<DrainedEvent>,
    arm: ArmModel,
    link: Option<AdmittedModel>,
    now: Timestamp,
    mint_signal: Seq<char>,
    delivery_id: Seq<char>,
    exchange: Option<LinkExchange>,
)
    requires
        pipe.claim is None,
        events.len() > 0,
    ensures
        ({
            let (next, outcome) = pipe.ingest(
                after,
                WaitResult::Matched,
                Ok(events),
                arm,
                link,
                now,
                mint_signal,
                delivery_id,
                exchange,
            );
            let claim = next.claim->0;
            &&& next.claim is Some
            &&& outcome.claim == next.claim
            &&& claim.arm_id == arm.arm_id
            &&& claim.generation == arm.generation
            &&& claim.signal_id == mint_signal
            &&& claim.events.len() == events.len()
            &&& claim.event_refs.len() == events.len()
            &&& forall|i: int|
                0 <= i < events.len() ==> {
                    let event = #[trigger] claim.events[i];
                    &&& event.provider == "mattermost"@
                    &&& event.event_ref == events[i].id@
                    &&& event.body == events[i].message@
                    &&& event.observed_at == ack_handled::stamp_chars(now)
                    &&& events[i].username@.len() == 0 ==> event.actor is None
                    &&& events[i].username@.len() > 0 ==> event.actor == Some(events[i].username@)
                }
            &&& forall|i: int|
                0 <= i < events.len() ==> #[trigger] claim.event_refs[i] == events[i].id@
        }),
{
}

/// A claim that has no batch under way is written to the attached link as it
/// stands: to that link, for its arm, generation and route, with the claim's
/// signal and events, and the last of them as the newest.
pub proof fn claim_is_written_to_its_link(
    pipe: PipeModel,
    live: SignalModel,
    link: AdmittedModel,
    now: Timestamp,
    delivery_id: Seq<char>,
    exchange: LinkExchange,
    coverage: CoverageModel,
)
    requires
        live.events.len() > 0,
        !pipe.attempted,
        pipe.ledger is None,
    ensures
        ({
            let message = LinkModel::DeliverEvents {
                delivery_id,
                link_id: link.link_id,
                arm_id: link.arm_id,
                generation: link.generation,
                signal_id: live.signal_id,
                route: link.route,
                events: live.events,
                newest_event_ref: live.events[live.events.len() - 1].event_ref,
                attempted_at: protocol::time_chars(now),
            };
            let batch = PendingModel {
                delivery_id,
                link_id: link.link_id,
                message,
                result: None,
            };
            let (next, outcome) = pipe.deliver(
                live,
                Some(link),
                now,
                coverage,
                delivery_id,
                Some(exchange),
            );
            &&& pipe.written(live, Some(link), now, delivery_id) == Some(message)
            &&& !exchange.sent ==> next.ledger == Some(batch) && !next.attempted
                && !outcome.delivery_attempted
            &&& exchange.sent && exchange.received is None ==> next.ledger == Some(batch)
                && next.attempted && outcome.delivery_attempted && outcome.result_outcome is None
            &&& outcome.delivery_id == Some(delivery_id)
            &&& outcome.waiter_attached
            &&& outcome.coverage == coverage
        }),
{
}

/// Without a link nothing is written and the pipe stays as it is.
pub proof fn no_link_no_delivery(
    pipe: PipeModel,
    live: SignalModel,
    now: Timestamp,
    delivery_id: Seq<char>,
    exchange: Option<LinkExchange>,
    coverage: CoverageModel,
)
    ensures
        pipe.written(live, None, now, delivery_id) is None,
        pipe.deliver(live, None, now, coverage, delivery_id, exchange) == (
            pipe,
            OutcomeModel {
                coverage,
                claim: Some(live),
                delivery_id: None,
                delivery_attempted: false,
                result_outcome: None,
                waiter_attached: false,
            },
        ),
{
}

/// A batch that was written and has no outcome is not written again to a link of
/// the same authority; once the transport is lost it is, under the same delivery
/// id, with the same events, to the link that is there then.
pub proof fn batch_is_written_once_per_transport(
    pipe: PipeModel,
    live: SignalModel,
    link: AdmittedModel,
    now: Timestamp,
    delivery_id: Seq<char>,
)
    requires
        pipe.ledger is Some,
        pipe.ledger->0.result is None,
        pipe.ledger->0.message is DeliverEvents,
        pipe.ledger->0.message->DeliverEvents_arm_id == link.arm_id,
        pipe.ledger->0.message->DeliverEvents_generation == link.generation,
        pipe.ledger->0.message->DeliverEvents_route == link.route,
    ensures
        pipe.attempted ==> pipe.written(live, Some(link), now, delivery_id) is None,
        ({
            let batch = pipe.ledger->0.message;
            let again = pipe.lost().written(live, Some(link), now, delivery_id);
            &&& again is Some
            &&& again->0 is DeliverEvents
            &&& again->0->DeliverEvents_delivery_id == batch->DeliverEvents_delivery_id
            &&& again->0->DeliverEvents_link_id == link.link_id
            &&& again->0->DeliverEvents_arm_id == batch->DeliverEvents_arm_id
            &&& again->0->DeliverEvents_generation == batch->DeliverEvents_generation
            &&& again->0->DeliverEvents_signal_id == batch->DeliverEvents_signal_id
            &&& again->0->DeliverEvents_route == batch->DeliverEvents_route
            &&& again->0->DeliverEvents_events == batch->DeliverEvents_events
            &&& again->0->DeliverEvents_newest_event_ref
                == batch->DeliverEvents_newest_event_ref
            &&& again->0->DeliverEvents_attempted_at == protocol::time_chars(now)
        }),
{
}

/// The answer to a batch that was just written is kept: an outcome other than a
/// lost link is recorded with it, and a lost link leaves it to be written again.
pub proof fn answer_is_kept_with_its_batch(
    pipe: PipeModel,
    live: SignalModel,
    link: AdmittedModel,
    now: Timestamp,
    delivery_id: Seq<char>,
    outcome: Seq<char>,
    observed_at: Seq<char>,
    coverage: CoverageModel,
)
    requires
        live.events.len() > 0,
        pipe.ledger is None,
        !pipe.attempted,
    ensures
        ({
            let answer = LinkModel::DeliveryResult {
                delivery_id,
                link_id: link.link_id,
                signal_id: live.signal_id,
                outcome,
                observed_at,
            };
            let exchange = LinkExchange { sent: true, received: Some(answer) };
            let (next, told) = pipe.deliver(
                live,
                Some(link),
                now,
                coverage,
                delivery_id,
                Some(exchange),
            );
            &&& told.result_outcome == Some(outcome)
            &&& told.delivery_attempted
            &&& next.ledger is Some
            &&& outcome == "link_lost"@ ==> !next.attempted && next.ledger->0.result is None
            &&& outcome != "link_lost"@ ==> next.attempted && next.ledger->0.result == Some(outcome)
        }),
{
}

/// A result of this delivery, link and signal is recorded; a result of another
/// one changes nothing and is refused with what does not match.
pub proof fn result_is_recorded_for_its_own_batch(ledger: Option<PendingModel>, result: LinkModel)
    requires
        result is DeliveryResult,
        ledger matches Some(pending) ==> pending.message is DeliverEvents,
    ensures
        ({
            let (after, verdict) = delivery::recorded(ledger, result);
            let own_id = ledger is Some && ledger->0.delivery_id
                == result->DeliveryResult_delivery_id;
            let own_link = own_id && ledger->0.link_id == result->DeliveryResult_link_id;
            let own = own_link && ledger->0.message->DeliverEvents_signal_id
                == result->DeliveryResult_signal_id;
            let outcome = result->DeliveryResult_outcome;
            let refused = |reason: Seq<char>|
                after == ledger && verdict == Err::<(), Seq<char>>(reason);
            &&& ledger is None ==> refused("no pending delivery"@)
            &&& ledger is Some && !own_id ==> refused("delivery_id mismatch"@)
            &&& own_id && !own_link ==> refused("link_id mismatch"@)
            &&& own_link && !own ==> refused("signal_id mismatch"@)
            &&& own && ledger->0.result is Some && ledger->0.result->0 != outcome ==> refused(
                "conflicting delivery outcome"@,
            )
            &&& own && ledger->0.result == Some(outcome) ==> after == ledger && verdict is Ok
            &&& own && ledger->0.result is None && outcome == "link_lost"@ ==> after == ledger
                && verdict is Ok
            &&& own && ledger->0.result is None && outcome != "link_lost"@ ==> verdict is Ok
                && after == Some(
                PendingModel {
                    delivery_id: ledger->0.delivery_id,
                    link_id: ledger->0.link_id,
                    message: ledger->0.message,
                    result: Some(outcome),
                },
            )
        }),
{
}

/// A batch is sent again only where it has no outcome, and only over a link for
/// the same arm, generation and route.
pub proof fn redelivery_needs_the_same_authority(
    ledger: Option<PendingModel>,
    link: AdmittedModel,
    now: Timestamp,
)
    requires
        ledger matches Some(pending) ==> pending.message is DeliverEvents,
    ensures
        ({
            let (after, sent) = delivery::redelivered(ledger, link, now);
            let message = ledger->0.message;
            let open = ledger is Some && ledger->0.result is None;
            let same = open && message->DeliverEvents_arm_id == link.arm_id
                && message->DeliverEvents_generation == link.generation
                && message->DeliverEvents_route == link.route;
            let refused = |reason: Seq<char>|
                after == ledger && sent == Err::<LinkModel, Seq<char>>(reason);
            &&& ledger is None ==> refused("no pending delivery"@)
            &&& ledger is Some && !open ==> refused("delivery already terminal"@)
            &&& open && !same ==> refused("successor authority mismatch"@)
            &&& same ==> sent is Ok && after == Some(
                PendingModel {
                    delivery_id: ledger->0.delivery_id,
                    link_id: link.link_id,
                    message: sent->Ok_0,
                    result: None,
                },
            )
        }),
{
}

/// A batch is prepared only where none is under way and there is something to
/// deliver.
pub proof fn batch_is_prepared_alone(
    ledger: Option<PendingModel>,
    link: AdmittedModel,
    signal_id: Seq<char>,
    events: Seq<EventModel>,
    now: Timestamp,
    delivery_id: Seq<char>,
)
    ensures
        ({
            let (after, sent) = delivery::prepared(
                ledger,
                link,
                signal_id,
                events,
                now,
                delivery_id,
            );
            let free = ledger is None || ledger->0.result is Some;
            &&& sent is Ok <==> free && events.len() > 0
            &&& !free ==> after == ledger && sent == Err::<LinkModel, Seq<char>>(
                "delivery pending"@,
            )
            &&& free && events.len() == 0 ==> after == ledger && sent == Err::<LinkModel, Seq<char>>(
                "empty delivery"@,
            )
            &&& sent is Ok ==> {
                &&& after == Some(
                    PendingModel {
                        delivery_id,
                        link_id: link.link_id,
                        message: sent->Ok_0,
                        result: None,
                    },
                )
                &&& sent->Ok_0 == LinkModel::DeliverEvents {
                    delivery_id,
                    link_id: link.link_id,
                    arm_id: link.arm_id,
                    generation: link.generation,
                    signal_id,
                    route: link.route,
                    events,
                    newest_event_ref: events[events.len() - 1].event_ref,
                    attempted_at: protocol::time_chars(now),
                }
            }
        }),
{
}

/// A read of the waiter's result waits for what is left of the lease in whole
/// milliseconds, between one and fifty of them.
pub proof fn poll_stays_inside_the_lease(lease_until: Timestamp, now: Timestamp)
    requires
        now.nanos < lease_until.nanos,
    ensures
        ({
            let wait = daemon::poll_millis(lease_until, now);
            let left = lease_until.nanos - now.nanos;
            &&& 1 <= wait <= 50
            &&& left < 1_000_000 ==> wait == 1
            &&& left >= 50_000_000 ==> wait == 50
            &&& 1_000_000 <= left < 50_000_000 ==> wait * 1_000_000 <= left < (wait + 1)
                * 1_000_000
        }),
{
}

/// A waiter that lost its link keeps its batch pending, one that returned ends
/// its session, and every other answer keeps it.
pub proof fn waiter_answer_decides_its_session(read: PollRead)
    ensures
        read is Failed ==> daemon::poll_verdict(read) == PollVerdict::RevokeLost,
        read is Idle ==> daemon::poll_verdict(read) == PollVerdict::Keep,
        read matches PollRead::Message(message) ==> {
            let told = |outcome: Seq<char>|
                message@ is DeliveryResult && message@->DeliveryResult_outcome == outcome;
            &&& told("link_lost"@) ==> daemon::poll_verdict(read) == PollVerdict::RevokeLost
            &&& told("return_completed"@) ==> daemon::poll_verdict(read) == PollVerdict::RevokeDone
            &&& told("return_failed"@) ==> daemon::poll_verdict(read) == PollVerdict::RevokeDone
            &&& !told("link_lost"@) && !told("return_completed"@) && !told("return_failed"@)
                ==> daemon::poll_verdict(read) == PollVerdict::Keep
        },
{
    reveal_strlit("link_lost");
    reveal_strlit("return_completed");
    reveal_strlit("return_failed");
    assert("link_lost"@.len() != "return_completed"@.len());
    assert("link_lost"@.len() != "return_failed"@.len());
}

/// A seat token is one to sixty-three bytes long, begins with a lower-case letter
/// and holds lower-case letters, digits and hyphens alone.
pub proof fn seat_token_is_literal(role: Seq<char>)
    ensures
        daemon::seat_role(role) <==> {
            let bytes = encode_utf8(role);
            &&& bytes.len() > 0
            &&& bytes.len() < 64
            &&& 97 <= bytes[0] && bytes[0] <= 122
            &&& forall|i: int|
                0 <= i < bytes.len() ==> (97 <= #[trigger] bytes[i] && bytes[i] <= 122) || (48
                    <= bytes[i] && bytes[i] <= 57) || bytes[i] == 45
        },
{
    let bytes = encode_utf8(role);
    if daemon::seat_role(role) {
        assert forall|i: int| 0 <= i < bytes.len() implies (97 <= #[trigger] bytes[i] && bytes[i]
            <= 122) || (48 <= bytes[i] && bytes[i] <= 57) || bytes[i] == 45 by {
            assert(daemon::seat_byte(bytes[i]));
        }
    }
}

proof fn named_arm(arms: Seq<ArmModel>, arm_id: Seq<char>, at: int)
    requires
        0 <= at < arms.len(),
        arms[at].arm_id == arm_id,
        forall|j: int| 0 <= j < at ==> (#[trigger] arms[j]).arm_id != arm_id,
    ensures
        admission::arm_named(arms, arm_id) == Some(arms[at]),
{
    assert(admission::first_arm(arms, arm_id, at));
    let found = choose|i: int| admission::first_arm(arms, arm_id, i);
    assert(admission::first_arm(arms, arm_id, found));
    if found < at {
        assert(arms[found].arm_id != arm_id);
    }
    if at < found {
        assert(arms[at].arm_id != arm_id);
    }
}

/// A waiter that asks for a covered arm, its generation, seat and route is
/// admitted where no link is live: under the new link id, with a lease of ten
/// minutes that ends no later than the coverage, and a reply that says so.
pub proof fn free_arm_admits_its_waiter(
    table: Option<AdmittedModel>,
    request: LinkModel,
    now: Timestamp,
    arms: Seq<ArmModel>,
    link_id: Seq<char>,
    at: int,
)
    requires
        request is AttachWaiter,
        now.in_range(),
        table matches Some(link) ==> link.lease_until.nanos <= now.nanos,
        0 <= at < arms.len(),
        arms[at].arm_id == request->AttachWaiter_arm_id,
        forall|j: int| 0 <= j < at ==> (#[trigger] arms[j]).arm_id != request->AttachWaiter_arm_id,
        arms[at].generation == request->AttachWaiter_generation,
        arms[at].seat_id == request->AttachWaiter_seat_id,
        arms[at].route == request->AttachWaiter_route,
        now.nanos < arms[at].coverage_until.nanos,
    ensures
        ({
            let (after, reply) = admission::admitted(table, request, now, arms, link_id);
            let link = after->0;
            let covered = arms[at].coverage_until.nanos;
            &&& after is Some
            &&& reply is Ok
            &&& link.request_id == request->AttachWaiter_request_id
            &&& link.link_id == link_id
            &&& link.arm_id == request->AttachWaiter_arm_id
            &&& link.generation == request->AttachWaiter_generation
            &&& link.waiter_id == request->AttachWaiter_waiter_id
            &&& link.route == request->AttachWaiter_route
            &&& link.request == request
            &&& link.last_accepted == reply->Ok_0
            &&& covered - now.nanos >= 600_000_000_000 ==> link.lease_until.nanos == now.nanos
                + 600_000_000_000
            &&& covered - now.nanos < 600_000_000_000 ==> link.lease_until.nanos == covered
            &&& reply->Ok_0 == LinkModel::AttachAccepted {
                request_id: request->AttachWaiter_request_id,
                link_id,
                arm_id: request->AttachWaiter_arm_id,
                generation: request->AttachWaiter_generation,
                route: request->AttachWaiter_route,
                accepted_at: protocol::time_chars(now),
                lease_until: protocol::time_chars(link.lease_until),
            }
        }),
{
    named_arm(arms, request->AttachWaiter_arm_id, at);
}

/// A waiter whose request the live link did not make is refused with the code of
/// what is wrong: the arm before its generation, that before seat and route, that
/// before the coverage, and that before a live link. The live link stays.
pub proof fn attach_refusals_have_their_codes(
    table: Option<AdmittedModel>,
    request: LinkModel,
    now: Timestamp,
    arms: Seq<ArmModel>,
    link_id: Seq<char>,
    at: int,
)
    requires
        request is AttachWaiter,
        table matches Some(link) ==> now.nanos < link.lease_until.nanos && link.request_id
            != request->AttachWaiter_request_id,
        0 <= at < arms.len(),
        arms[at].arm_id == request->AttachWaiter_arm_id,
        forall|j: int| 0 <= j < at ==> (#[trigger] arms[j]).arm_id != request->AttachWaiter_arm_id,
    ensures
        ({
            let (after, reply) = admission::admitted(table, request, now, arms, link_id);
            let arm = arms[at];
            let live = arm.generation == request->AttachWaiter_generation;
            let routed = live && arm.seat_id == request->AttachWaiter_seat_id && arm.route
                == request->AttachWaiter_route;
            let covered = routed && now.nanos < arm.coverage_until.nanos;
            let refused = |code: Seq<char>|
                after == table && reply == Ok::<LinkModel, Seq<char>>(
                    LinkModel::AttachRejected {
                        request_id: request->AttachWaiter_request_id,
                        code,
                        observed_at: protocol::time_chars(now),
                    },
                );
            &&& !live ==> refused("stale_generation"@)
            &&& live && !routed ==> refused("route_mismatch"@)
            &&& routed && !covered ==> refused("coverage_ended"@)
            &&& covered && table is Some ==> refused("already_attached"@)
        }),
{
    named_arm(arms, request->AttachWaiter_arm_id, at);
}

/// A waiter that asks for an arm that nobody knows is refused.
pub proof fn unknown_arm_is_refused(
    table: Option<AdmittedModel>,
    request: LinkModel,
    now: Timestamp,
    arms: Seq<ArmModel>,
    link_id: Seq<char>,
)
    requires
        request is AttachWaiter,
        table matches Some(link) ==> now.nanos < link.lease_until.nanos && link.request_id
            != request->AttachWaiter_request_id,
        forall|j: int|
            0 <= j < arms.len() ==> (#[trigger] arms[j]).arm_id != request->AttachWaiter_arm_id,
    ensures
        admission::admitted(table, request, now, arms, link_id) == (
            table,
            Ok::<LinkModel, Seq<char>>(
                LinkModel::AttachRejected {
                    request_id: request->AttachWaiter_request_id,
                    code: "unknown_arm"@,
                    observed_at: protocol::time_chars(now),
                },
            ),
        ),
{
}

/// The live link's own request gets its acceptance again; the same request id
/// with anything else changed is a conflict.
pub proof fn live_request_is_answered_again(
    link: AdmittedModel,
    request: LinkModel,
    now: Timestamp,
    arms: Seq<ArmModel>,
    link_id: Seq<char>,
)
    requires
        request is AttachWaiter,
        now.nanos < link.lease_until.nanos,
        link.request_id == request->AttachWaiter_request_id,
    ensures
        admission::admitted(Some(link), request, now, arms, link_id).0 == Some(link),
        request == link.request ==> admission::admitted(Some(link), request, now, arms, link_id).1
            == Ok::<LinkModel, Seq<char>>(link.last_accepted),
        request != link.request ==> admission::admitted(Some(link), request, now, arms, link_id).1
            == Err::<LinkModel, Seq<char>>("request_id conflict"@),
{
}

/// A link is gone once its lease has elapsed or its own session is revoked, and
/// in no other way.
pub proof fn link_ends_with_its_lease_or_session(
    table: Option<AdmittedModel>,
    session: SessionModel,
    now: Timestamp,
)
    ensures
        admission::unexpired(table, now) is Some <==> table is Some && now.nanos
            < table->0.lease_until.nanos,
        admission::unexpired(table, now) is Some ==> admission::unexpired(table, now) == table,
        admission::without_session(table, session) is Some <==> table is Some && table->0.link_id
            != session.link_id,
        admission::without_session(table, session) is Some ==> admission::without_session(
            table,
            session,
        ) == table,
        daemon::without(table, None) == table,
        table is Some && table->0.link_id == session.link_id ==> daemon::without(
            table,
            Some(session),
        ) is None,
{
}

/// A waiter takes an acceptance that repeats its request, with the lease that the
/// reply names, and turns every other reply down.
pub proof fn waiter_takes_its_own_acceptance(request: LinkModel, reply: LinkModel)
    requires
        request is AttachWaiter,
    ensures
        ({
            let verdict = attach::accept_verdict(request, reply);
            let asked = request->AttachWaiter_request_id;
            let echoed = reply is AttachAccepted && reply->AttachAccepted_request_id == asked
                && reply->AttachAccepted_arm_id == request->AttachWaiter_arm_id
                && reply->AttachAccepted_generation == request->AttachWaiter_generation
                && reply->AttachAccepted_route == request->AttachWaiter_route;
            let lease = primitives::rfc3339_instant(reply->AttachAccepted_lease_until);
            &&& verdict is Ok <==> echoed && lease is Some
            &&& verdict matches Ok(accepted) ==> accepted == AcceptedModel {
                request_id: asked,
                link_id: reply->AttachAccepted_link_id,
                arm_id: request->AttachWaiter_arm_id,
                generation: request->AttachWaiter_generation,
                route: request->AttachWaiter_route,
                lease_until: Timestamp { nanos: lease->0 },
            }
            &&& echoed && lease is None ==> verdict == Err::<AcceptedModel, Seq<char>>(
                "invalid lease_until"@,
            )
            &&& reply is AttachAccepted && !echoed ==> verdict == Err::<AcceptedModel, Seq<char>>(
                "attach accept mismatch"@,
            )
            &&& reply is AttachRejected && reply->AttachRejected_request_id != asked ==> verdict
                == Err::<AcceptedModel, Seq<char>>("attach reject request_id mismatch"@)
            &&& reply is AttachRejected && reply->AttachRejected_request_id == asked ==> verdict
                == Err::<AcceptedModel, Seq<char>>(
                "attach rejected: "@ + reply->AttachRejected_code,
            )
            &&& !(reply is AttachAccepted || reply is AttachRejected) ==> verdict == Err::<
                AcceptedModel,
                Seq<char>,
            >("expected attach reply"@)
        }),
{
}

/// A waiter takes a batch of its own session and no other.
pub proof fn waiter_takes_its_own_batch(accepted: AcceptedModel, delivery: LinkModel)
    ensures
        attach::delivery_fault(accepted, delivery) is None <==> {
            &&& delivery is DeliverEvents
            &&& delivery->DeliverEvents_link_id == accepted.link_id
            &&& delivery->DeliverEvents_arm_id == accepted.arm_id
            &&& delivery->DeliverEvents_generation == accepted.generation
            &&& delivery->DeliverEvents_route == accepted.route
        },
        attach::delivery_fault(accepted, delivery) is Some ==> attach::delivery_fault(
            accepted,
            delivery,
        )->0 == if delivery is DeliverEvents {
            "delivery authority mismatch"@
        } else {
            "expected deliver_events"@
        },
{
}

/// From claim to record: the batch that a daemon writes to an admitted link is one
/// that the link's waiter takes, and the waiter's result is one that the daemon
/// records.
pub proof fn written_batch_comes_back_recorded(
    link: AdmittedModel,
    accepted: AcceptedModel,
    signal_id: Seq<char>,
    events: Seq<EventModel>,
    sent_at: Timestamp,
    told_at: Timestamp,
    delivery_id: Seq<char>,
    outcome: Seq<char>,
)
    requires
        events.len() > 0,
        accepted.link_id == link.link_id,
        accepted.arm_id == link.arm_id,
        accepted.generation == link.generation,
        accepted.route == link.route,
        outcome != "link_lost"@,
    ensures
        ({
            let (pending, message) = delivery::prepared(
                None,
                link,
                signal_id,
                events,
                sent_at,
                delivery_id,
            );
            let result = attach::result_of(message->Ok_0, outcome, told_at);
            let (after, verdict) = delivery::recorded(pending, result);
            &&& message is Ok
            &&& attach::delivery_fault(accepted, message->Ok_0) is None
            &&& result == LinkModel::DeliveryResult {
                delivery_id,
                link_id: link.link_id,
                signal_id,
                outcome,
                observed_at: protocol::time_chars(told_at),
            }
            &&& verdict is Ok
            &&& after is Some
            &&& after->0.result == Some(outcome)
            &&& after->0.message == message->Ok_0
        }),
{
}

/// A reply to an acknowledgement counts only where it answers the request:
/// acceptance with exit 0 where it repeats arm, generation, signal and cursor,
/// refusal with exit 1 where it names the request.
pub proof fn acknowledgement_reply_is_correlated(request: HandledModel, reply: HandledModel)
    requires
        request is Request,
    ensures
        ({
            let verdict = ack_handled::correlated(request, reply);
            let accepted = reply is Accepted && reply->Accepted_request_id
                == request->Request_request_id && reply->Accepted_arm_id == request->Request_arm_id
                && reply->Accepted_generation == request->Request_generation
                && reply->Accepted_signal_id == request->Request_signal_id && reply->Accepted_cursor
                == request->Request_cursor;
            let rejected = reply is Rejected && reply->Rejected_request_id
                == request->Request_request_id;
            &&& verdict == Ok::<u8, Seq<char>>(0u8) <==> accepted
            &&& verdict == Ok::<u8, Seq<char>>(1u8) <==> rejected
            &&& verdict is Err <==> !accepted && !rejected
        }),
{
}

/// An invalid request is turned down with its own fault, and an acceptance or
/// refusal that cannot be said validly is not made: the live link stays either
/// way. What is valid is decided as it stands.
pub proof fn invalid_attach_changes_nothing(
    table: Option<AdmittedModel>,
    request: LinkModel,
    now: Timestamp,
    arms: Seq<ArmModel>,
    link_id: Seq<char>,
    valid: Result<(), Seq<char>>,
    reply_valid: Result<(), Seq<char>>,
)
    ensures
        ({
            let live = if table is Some && table->0.lease_until.nanos <= now.nanos {
                None
            } else {
                table
            };
            let plain = admission::admitted(table, request, now, arms, link_id);
            let checked = admission::admitted_checked(
                table,
                request,
                now,
                arms,
                link_id,
                valid,
                reply_valid,
            );
            &&& valid is Err ==> checked == (live, Err::<LinkModel, Seq<char>>(valid->Err_0))
            &&& valid is Ok && reply_valid is Ok ==> checked == plain
            &&& valid is Ok && plain.1 is Err ==> checked == (live, plain.1)
            &&& valid is Ok && reply_valid is Err && live is None && plain.1 is Ok ==> checked == (
                live,
                Err::<LinkModel, Seq<char>>(reply_valid->Err_0),
            )
        }),
{
}

/// An acceptance opens the session that it names, and no other reply opens one.
pub proof fn acceptance_opens_its_session(reply: LinkModel)
    ensures
        reply is AttachAccepted <==> admission::session_opened(reply) is Some,
        reply is AttachAccepted ==> admission::session_opened(reply) == Some(
            SessionModel {
                link_id: reply->AttachAccepted_link_id,
                arm_id: reply->AttachAccepted_arm_id,
                generation: reply->AttachAccepted_generation,
            },
        ),
{
}

/// A minted identifier is twenty-six digits and capitals, without the letters that
/// are mistaken for digits.
pub proof fn minted_identifiers_are_literal(text: Seq<char>)
    ensures
        protocol::minted(text) <==> text.len() == 26 && forall|i: int|
            0 <= i < text.len() ==> {
                let c = #[trigger] text[i];
                ||| '0' <= c && c <= '9'
                ||| 'A' <= c && c <= 'H'
                ||| c == 'J' || c == 'K' || c == 'M' || c == 'N'
                ||| 'P' <= c && c <= 'T'
                ||| 'V' <= c && c <= 'Z'
            },
{
    if protocol::minted(text) {
        assert forall|i: int| 0 <= i < text.len() implies {
            let c = #[trigger] text[i];
            ||| '0' <= c && c <= '9'
            ||| 'A' <= c && c <= 'H'
            ||| c == 'J' || c == 'K' || c == 'M' || c == 'N'
            ||| 'P' <= c && c <= 'T'
            ||| 'V' <= c && c <= 'Z'
        } by {
            assert(protocol::minted_char(text[i]));
        }
    }
}

/// Messages show an instant in RFC 3339 where it can be, and a drained event is
/// stamped with the epoch where it cannot.
pub proof fn instants_are_shown_in_rfc3339(at: Timestamp)
    ensures
        primitives::rfc3339_text(at.nanos) is Some ==> protocol::time_chars(at)
            == primitives::rfc3339_text(at.nanos)->0 && ack_handled::stamp_chars(at)
            == primitives::rfc3339_text(at.nanos)->0,
        primitives::rfc3339_text(at.nanos) is None ==> ack_handled::stamp_chars(at)
            == "1970-01-01T00:00:00Z"@,
{
}

/// The same batch for the same arm and generation is its claim again, whatever id
/// would be minted; any other batch is turned away while the claim is live.
pub proof fn live_claim_takes_its_own_batch_alone(
    live: SignalModel,
    arm: ArmModel,
    events: Seq<EventModel>,
    mint_id: Seq<char>,
)
    ensures
        ({
            let (kept, claimed) = daemon::claimed(Some(live), arm, events, mint_id);
            let same = live.arm_id == arm.arm_id && live.generation == arm.generation
                && live.events == events;
            &&& kept == Some(live)
            &&& same ==> claimed == Ok::<SignalModel, ClaimError>(live)
            &&& !same ==> claimed == Err::<SignalModel, ClaimError>(ClaimError::OccupiedDifferent)
        }),
{
}

} // verus!
