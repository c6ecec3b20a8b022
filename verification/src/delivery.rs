//! Stable `deliver_events` batches and `delivery_result` handling.

use crate::admission::{AdmittedLink, AdmittedModel};
use crate::primitives::mint_ulid;
use crate::protocol;
use crate::protocol::{
    copy_events, format_time, EventModel, LinkModel, ProviderEvent, WaiterLink, WaiterLinkError,
};
use crate::text;
use crate::text::{copy_optional_text, same_text};
use crate::timestamp::Timestamp;
use vstd::prelude::*;

verus! {

/// One undelivered or unacked batch.
#[derive(Debug, PartialEq, Eq)]
pub struct PendingDelivery {
    /// Stable delivery id.
    pub delivery_id: String,
    /// Link that last attempted the batch.
    pub link_id: String,
    /// Deliver payload to (re)send.
    pub message: WaiterLink,
    /// Terminal waiter outcome, if any.
    pub result: Option<String>,
}

/// What a [`PendingDelivery`] says.
pub struct PendingModel {
    pub delivery_id: Seq<char>,
    pub link_id: Seq<char>,
    pub message: LinkModel,
    pub result: Option<Seq<char>>,
}

impl View for PendingDelivery {
    type V = PendingModel;

    open spec fn view(&self) -> PendingModel {
        PendingModel {
            delivery_id: self.delivery_id@,
            link_id: self.link_id@,
            message: self.message@,
            result: text::optional_text(self.result),
        }
    }
}

impl Clone for PendingDelivery {
    fn clone(&self) -> (copy: PendingDelivery)
        ensures
            copy@ == self@,
    {
        PendingDelivery {
            delivery_id: self.delivery_id.clone(),
            link_id: self.link_id.clone(),
            message: self.message.clone(),
            result: copy_optional_text(&self.result),
        }
    }
}

/// In-memory pending delivery.
#[derive(Debug, PartialEq, Eq)]
pub struct DeliveryLedger {
    pending: Option<PendingDelivery>,
}

impl View for DeliveryLedger {
    type V = Option<PendingModel>;

    closed spec fn view(&self) -> Option<PendingModel> {
        match self.pending {
            Some(pending) => Some(pending@),
            None => None,
        }
    }
}

impl Default for DeliveryLedger {
    fn default() -> (ledger: DeliveryLedger)
        ensures
            ledger@ is None,
    {
        DeliveryLedger { pending: None }
    }
}

impl Clone for DeliveryLedger {
    fn clone(&self) -> (copy: DeliveryLedger)
        ensures
            copy@ == self@,
    {
        DeliveryLedger {
            pending: match &self.pending {
                Some(pending) => Some(pending.clone()),
                None => None,
            },
        }
    }
}

/// A batch is pending without an outcome.
pub open spec fn awaiting(ledger: Option<PendingModel>) -> bool {
    ledger matches Some(pending) && pending.result is None
}

impl DeliveryLedger {
    /// Current pending delivery.
    pub fn pending(&self) -> (pending: Option<&PendingDelivery>)
        ensures
            match pending {
                Some(pending) => self@ == Some(pending@),
                None => self@ is None,
            },
    {
        match &self.pending {
            Some(pending) => Some(pending),
            None => None,
        }
    }

    /// Whether the same `delivery_id` should be sent again.
    pub fn should_redeliver(&self) -> (again: bool)
        ensures
            again == awaiting(self@),
    {
        match &self.pending {
            Some(pending) => pending.result.is_none(),
            None => false,
        }
    }
}

/// A new batch on a link.
pub open spec fn batch_message(
    link: AdmittedModel,
    signal_id: Seq<char>,
    events: Seq<EventModel>,
    now: Timestamp,
    delivery_id: Seq<char>,
) -> LinkModel {
    LinkModel::DeliverEvents {
        delivery_id,
        link_id: link.link_id,
        arm_id: link.arm_id,
        generation: link.generation,
        signal_id,
        route: link.route,
        events,
        newest_event_ref: events.last().event_ref,
        attempted_at: protocol::time_chars(now),
    }
}

/// A batch is prepared where none is awaiting its outcome.
pub open spec fn prepared(
    ledger: Option<PendingModel>,
    link: AdmittedModel,
    signal_id: Seq<char>,
    events: Seq<EventModel>,
    now: Timestamp,
    delivery_id: Seq<char>,
) -> (Option<PendingModel>, Result<LinkModel, Seq<char>>) {
    if awaiting(ledger) {
        (ledger, Err("delivery pending"@))
    } else if events.len() == 0 {
        (ledger, Err("empty delivery"@))
    } else {
        let message = batch_message(link, signal_id, events, now, delivery_id);
        (
            Some(PendingModel { delivery_id, link_id: link.link_id, message, result: None }),
            Ok(message),
        )
    }
}

/// Builds a new batch under a given delivery id.
pub fn prepare_delivery_with(
    ledger: &mut DeliveryLedger,
    link: &AdmittedLink,
    signal_id: String,
    events: Vec<ProviderEvent>,
    now: Timestamp,
    delivery_id: String,
) -> (result: Result<WaiterLink, WaiterLinkError>)
    ensures
        final(ledger)@ == prepared(
            old(ledger)@,
            link@,
            signal_id@,
            protocol::event_models(events@),
            now,
            delivery_id@,
        ).0,
        match result {
            Ok(message) => prepared(
                old(ledger)@,
                link@,
                signal_id@,
                protocol::event_models(events@),
                now,
                delivery_id@,
            ).1 == Ok::<LinkModel, Seq<char>>(message@),
            Err(error) => prepared(
                old(ledger)@,
                link@,
                signal_id@,
                protocol::event_models(events@),
                now,
                delivery_id@,
            ).1 == Err::<LinkModel, Seq<char>>(error@),
        },
{
    if ledger.should_redeliver() {
        return Err(WaiterLinkError::Semantic("delivery pending"));
    }
    if events.len() == 0 {
        return Err(WaiterLinkError::Semantic("empty delivery"));
    }
    let newest = events[events.len() - 1].event_ref.clone();
    assert(newest@ == protocol::event_models(events@).last().event_ref);
    let message = WaiterLink::DeliverEvents {
        delivery_id: delivery_id.clone(),
        link_id: link.link_id.clone(),
        arm_id: link.arm_id.clone(),
        generation: link.generation,
        signal_id,
        route: link.route.clone(),
        events,
        newest_event_ref: newest,
        attempted_at: format_time(now),
    };
    ledger.pending = Some(
        PendingDelivery {
            delivery_id,
            link_id: link.link_id.clone(),
            message: message.clone(),
            result: None,
        },
    );
    Ok(message)
}

/// Builds a new batch under a given delivery id, with the verdict on whether its
/// message is valid. An invalid message is not kept.
pub fn prepare_delivery_checked(
    ledger: &mut DeliveryLedger,
    link: &AdmittedLink,
    signal_id: String,
    events: Vec<ProviderEvent>,
    now: Timestamp,
    delivery_id: String,
    valid: Result<(), WaiterLinkError>,
) -> (result: Result<WaiterLink, WaiterLinkError>)
    ensures
        ({
            let (after, verdict) = prepared(
                old(ledger)@,
                link@,
                signal_id@,
                protocol::event_models(events@),
                now,
                delivery_id@,
            );
            if verdict is Ok && valid is Err {
                final(ledger)@ == old(ledger)@ && result == Err::<WaiterLink, WaiterLinkError>(
                    valid->Err_0,
                )
            } else {
                &&& final(ledger)@ == after
                &&& match result {
                    Ok(message) => verdict == Ok::<LinkModel, Seq<char>>(message@),
                    Err(error) => verdict == Err::<LinkModel, Seq<char>>(error@),
                }
            }
        }),
{
    if let Err(error) = valid {
        if !ledger.should_redeliver() && events.len() > 0 {
            return Err(error);
        }
    }
    prepare_delivery_with(ledger, link, signal_id, events, now, delivery_id)
}

/// Builds a new batch under a minted delivery id. Its message is taken to be
/// valid; [`prepare_delivery_checked`] takes the verdict on that.
///
/// Fails if a delivery without an outcome is already pending. Route is taken
/// from the admitted link, not the caller.
pub fn prepare_delivery(
    ledger: &mut DeliveryLedger,
    link: &AdmittedLink,
    signal_id: String,
    events: Vec<ProviderEvent>,
    now: Timestamp,
) -> (result: Result<WaiterLink, WaiterLinkError>)
    ensures
        exists|delivery_id: Seq<char>|
            {
                &&& #[trigger] protocol::minted(delivery_id)
                &&& final(ledger)@ == prepared(
                    old(ledger)@,
                    link@,
                    signal_id@,
                    protocol::event_models(events@),
                    now,
                    delivery_id,
                ).0
                &&& match result {
                    Ok(message) => prepared(
                        old(ledger)@,
                        link@,
                        signal_id@,
                        protocol::event_models(events@),
                        now,
                        delivery_id,
                    ).1 == Ok::<LinkModel, Seq<char>>(message@),
                    Err(error) => prepared(
                        old(ledger)@,
                        link@,
                        signal_id@,
                        protocol::event_models(events@),
                        now,
                        delivery_id,
                    ).1 == Err::<LinkModel, Seq<char>>(error@),
                }
            },
{
    let delivery_id = mint_ulid();
    assert(protocol::minted(delivery_id@));
    prepare_delivery_with(ledger, link, signal_id, events, now, delivery_id)
}

/// A batch on a successor link: only the link and the time are new.
pub open spec fn moved_to(message: LinkModel, link_id: Seq<char>, now: Timestamp) -> LinkModel {
    LinkModel::DeliverEvents {
        delivery_id: message->DeliverEvents_delivery_id,
        link_id,
        arm_id: message->DeliverEvents_arm_id,
        generation: message->DeliverEvents_generation,
        signal_id: message->DeliverEvents_signal_id,
        route: message->DeliverEvents_route,
        events: message->DeliverEvents_events,
        newest_event_ref: message->DeliverEvents_newest_event_ref,
        attempted_at: protocol::time_chars(now),
    }
}

/// The pending batch is sent again where it has no outcome and the successor
/// has the same authority.
pub open spec fn redelivered(
    ledger: Option<PendingModel>,
    link: AdmittedModel,
    now: Timestamp,
) -> (Option<PendingModel>, Result<LinkModel, Seq<char>>) {
    match ledger {
        None => (ledger, Err("no pending delivery"@)),
        Some(pending) => if pending.result is Some {
            (ledger, Err("delivery already terminal"@))
        } else {
            match pending.message {
                LinkModel::DeliverEvents { arm_id, generation, route, .. } => if arm_id
                    != link.arm_id || generation != link.generation || route != link.route {
                    (ledger, Err("successor authority mismatch"@))
                } else {
                    let message = moved_to(pending.message, link.link_id, now);
                    (
                        Some(PendingModel { link_id: link.link_id, message, ..pending }),
                        Ok(message),
                    )
                },
                _ => (ledger, Err("expected deliver_events"@)),
            }
        },
    }
}

/// Resends the pending batch on a successor link.
///
/// Updates link and time only. Arm, generation and route must still match the
/// successor link's authority. The message is taken to be valid;
/// [`redeliver_pending_checked`] takes the verdict on that.
pub fn redeliver_pending(ledger: &mut DeliveryLedger, link: &AdmittedLink, now: Timestamp) -> (
    result: Result<WaiterLink, WaiterLinkError>)
    ensures
        final(ledger)@ == redelivered(old(ledger)@, link@, now).0,
        match result {
            Ok(message) => redelivered(old(ledger)@, link@, now).1 == Ok::<LinkModel, Seq<char>>(
                message@,
            ),
            Err(error) => redelivered(old(ledger)@, link@, now).1 == Err::<LinkModel, Seq<char>>(
                error@,
            ),
        },
{
    let pending = match &ledger.pending {
        Some(pending) => pending,
        None => return Err(WaiterLinkError::Semantic("no pending delivery")),
    };
    if pending.result.is_some() {
        return Err(WaiterLinkError::Semantic("delivery already terminal"));
    }
    let message = match &pending.message {
        WaiterLink::DeliverEvents {
            delivery_id,
            link_id: _,
            arm_id,
            generation,
            signal_id,
            route,
            events,
            newest_event_ref,
            attempted_at: _,
        } => {
            if !same_text(arm_id.as_str(), link.arm_id.as_str()) || *generation
                != link.generation || !same_text(route.as_str(), link.route.as_str()) {
                return Err(WaiterLinkError::Semantic("successor authority mismatch"));
            }
            WaiterLink::DeliverEvents {
                delivery_id: delivery_id.clone(),
                link_id: link.link_id.clone(),
                arm_id: arm_id.clone(),
                generation: *generation,
                signal_id: signal_id.clone(),
                route: route.clone(),
                events: copy_events(events),
                newest_event_ref: newest_event_ref.clone(),
                attempted_at: format_time(now),
            }
        },
        _ => return Err(WaiterLinkError::Semantic("expected deliver_events")),
    };
    let next = PendingDelivery {
        delivery_id: pending.delivery_id.clone(),
        link_id: link.link_id.clone(),
        message: message.clone(),
        result: None,
    };
    ledger.pending = Some(next);
    Ok(message)
}

/// Resends the pending batch on a successor link, with the verdict on whether its
/// message is valid. An invalid message keeps the new link and time, but the
/// attempt stays with the earlier link.
pub fn redeliver_pending_checked(
    ledger: &mut DeliveryLedger,
    link: &AdmittedLink,
    now: Timestamp,
    valid: Result<(), WaiterLinkError>,
) -> (result: Result<WaiterLink, WaiterLinkError>)
    ensures
        ({
            let (after, verdict) = redelivered(old(ledger)@, link@, now);
            if verdict is Ok && valid is Err {
                &&& final(ledger)@ == Some(
                    PendingModel { link_id: old(ledger)@->0.link_id, ..after->0 },
                )
                &&& result == Err::<WaiterLink, WaiterLinkError>(valid->Err_0)
            } else {
                &&& final(ledger)@ == after
                &&& match result {
                    Ok(message) => verdict == Ok::<LinkModel, Seq<char>>(message@),
                    Err(error) => verdict == Err::<LinkModel, Seq<char>>(error@),
                }
            }
        }),
{
    let earlier = match &ledger.pending {
        Some(pending) => Some(pending.link_id.clone()),
        None => None,
    };
    let resent = redeliver_pending(ledger, link, now);
    match (resent, valid) {
        (Ok(_), Err(error)) => {
            if let Some(link_id) = earlier {
                if let Some(pending) = &ledger.pending {
                    let mut kept = pending.clone();
                    kept.link_id = link_id;
                    ledger.pending = Some(kept);
                }
            }
            Err(error)
        },
        (resent, _) => resent,
    }
}

/// Accepts exactly the batches for sending.
pub fn sendable_delivery(message: &WaiterLink) -> (result: Result<(), WaiterLinkError>)
    ensures
        match result {
            Ok(()) => message@ is DeliverEvents,
            Err(error) => !(message@ is DeliverEvents) && error@ == "expected deliver_events"@,
        },
{
    match message {
        WaiterLink::DeliverEvents { .. } => Ok(()),
        _ => Err(WaiterLinkError::Semantic("expected deliver_events")),
    }
}

/// A result is recorded against the current attempt. An outcome is final; a
/// lost link is none.
pub open spec fn recorded(ledger: Option<PendingModel>, result: LinkModel) -> (
    Option<PendingModel>,
    Result<(), Seq<char>>,
) {
    match result {
        LinkModel::DeliveryResult { delivery_id, link_id, signal_id, outcome, .. } => match ledger {
            None => (ledger, Err("no pending delivery"@)),
            Some(pending) => match pending.message {
                LinkModel::DeliverEvents { signal_id: pending_signal, .. } => {
                    if pending.delivery_id != delivery_id {
                        (ledger, Err("delivery_id mismatch"@))
                    } else if pending.link_id != link_id {
                        (ledger, Err("link_id mismatch"@))
                    } else if pending_signal != signal_id {
                        (ledger, Err("signal_id mismatch"@))
                    } else {
                        match pending.result {
                            Some(existing) => if existing == outcome {
                                (ledger, Ok(()))
                            } else {
                                (ledger, Err("conflicting delivery outcome"@))
                            },
                            None => if outcome == "link_lost"@ {
                                (ledger, Ok(()))
                            } else {
                                (
                                    Some(PendingModel { result: Some(outcome), ..pending }),
                                    Ok(()),
                                )
                            },
                        }
                    }
                },
                _ => (ledger, Err("expected deliver_events"@)),
            },
        },
        _ => (ledger, Err("expected delivery_result"@)),
    }
}

/// Records a waiter `delivery_result` against the current attempt, with the
/// verdict on whether its message is valid. An invalid message records nothing.
pub fn record_delivery_result_checked(
    ledger: &mut DeliveryLedger,
    result: &WaiterLink,
    valid: Result<(), WaiterLinkError>,
) -> (verdict: Result<(), WaiterLinkError>)
    ensures
        match valid {
            Err(error) => final(ledger)@ == old(ledger)@ && verdict == Err::<(), WaiterLinkError>(
                error,
            ),
            Ok(()) => {
                &&& final(ledger)@ == recorded(old(ledger)@, result@).0
                &&& match verdict {
                    Ok(()) => recorded(old(ledger)@, result@).1 is Ok,
                    Err(error) => recorded(old(ledger)@, result@).1 == Err::<(), Seq<char>>(
                        error@,
                    ),
                }
            },
        },
{
    match valid {
        Ok(()) => record_delivery_result(ledger, result),
        Err(error) => Err(error),
    }
}

/// Records a waiter `delivery_result` against the current attempt. The message is
/// taken to be valid; [`record_delivery_result_checked`] takes the verdict on that.
///
/// Requires `delivery_id`, current attempt `link_id`, and `signal_id`. Terminal
/// outcomes are monotonic: exact replay is idempotent; a different outcome is a
/// hard error; `link_lost` cannot follow a terminal result.
pub fn record_delivery_result(ledger: &mut DeliveryLedger, result: &WaiterLink) -> (verdict: Result<
    (),
    WaiterLinkError,
>)
    ensures
        final(ledger)@ == recorded(old(ledger)@, result@).0,
        match verdict {
            Ok(()) => recorded(old(ledger)@, result@).1 is Ok,
            Err(error) => recorded(old(ledger)@, result@).1 == Err::<(), Seq<char>>(error@),
        },
{
    let (delivery_id, link_id, signal_id, outcome) = match result {
        WaiterLink::DeliveryResult { delivery_id, link_id, signal_id, outcome, observed_at: _ } => {
            (delivery_id, link_id, signal_id, outcome)
        },
        _ => return Err(WaiterLinkError::Semantic("expected delivery_result")),
    };
    let pending = match &ledger.pending {
        Some(pending) => pending,
        None => return Err(WaiterLinkError::Semantic("no pending delivery")),
    };
    let pending_signal = match &pending.message {
        WaiterLink::DeliverEvents {
            delivery_id: _,
            link_id: _,
            arm_id: _,
            generation: _,
            signal_id,
            route: _,
            events: _,
            newest_event_ref: _,
            attempted_at: _,
        } => signal_id,
        _ => return Err(WaiterLinkError::Semantic("expected deliver_events")),
    };
    if !same_text(pending.delivery_id.as_str(), delivery_id.as_str()) {
        return Err(WaiterLinkError::Semantic("delivery_id mismatch"));
    }
    if !same_text(pending.link_id.as_str(), link_id.as_str()) {
        return Err(WaiterLinkError::Semantic("link_id mismatch"));
    }
    if !same_text(pending_signal.as_str(), signal_id.as_str()) {
        return Err(WaiterLinkError::Semantic("signal_id mismatch"));
    }
    if let Some(existing) = &pending.result {
        if same_text(existing.as_str(), outcome.as_str()) {
            return Ok(());
        }
        return Err(WaiterLinkError::Semantic("conflicting delivery outcome"));
    }
    if same_text(outcome.as_str(), "link_lost") {
        return Ok(());
    }
    let mut next = pending.clone();
    next.result = Some(outcome.clone());
    ledger.pending = Some(next);
    Ok(())
}

/// A redelivery is the same batch: id, signal, arm, generation, route and
/// events stay.
pub proof fn redelivery_keeps_the_batch(
    ledger: Option<PendingModel>,
    link: AdmittedModel,
    now: Timestamp,
)
    requires
        redelivered(ledger, link, now).1 is Ok,
    ensures
        ({
            let before = ledger->0;
            let after = redelivered(ledger, link, now).0->0;
            let sent = redelivered(ledger, link, now).1->Ok_0;
            &&& after.delivery_id == before.delivery_id
            &&& after.message == sent
            &&& sent->DeliverEvents_delivery_id == before.message->DeliverEvents_delivery_id
            &&& sent->DeliverEvents_signal_id == before.message->DeliverEvents_signal_id
            &&& sent->DeliverEvents_events == before.message->DeliverEvents_events
            &&& sent->DeliverEvents_arm_id == before.message->DeliverEvents_arm_id
            &&& sent->DeliverEvents_generation == before.message->DeliverEvents_generation
            &&& sent->DeliverEvents_route == before.message->DeliverEvents_route
            &&& sent->DeliverEvents_link_id == link.link_id
            &&& awaiting(Some(after))
        }),
{
}

/// An outcome is final: once one is recorded, the same result again changes
/// nothing, no result changes it, and the batch is not sent again.
pub proof fn outcome_is_final(
    ledger: Option<PendingModel>,
    result: LinkModel,
    other: LinkModel,
    link: AdmittedModel,
    now: Timestamp,
)
    requires
        recorded(ledger, result).1 is Ok,
        recorded(ledger, result).0->0.result is Some,
    ensures
        ({
            let after = recorded(ledger, result).0;
            &&& recorded(after, result) == (after, Ok::<(), Seq<char>>(()))
            &&& recorded(after, other).0 == after
            &&& redelivered(after, link, now).0 == after
            &&& redelivered(after, link, now).1 is Err
            &&& !awaiting(after)
        }),
{
}

/// A lost link consumes nothing: the batch stays pending and is sent again.
pub proof fn lost_link_keeps_the_batch(ledger: Option<PendingModel>, result: LinkModel)
    requires
        awaiting(ledger),
        result is DeliveryResult,
        result->DeliveryResult_outcome == "link_lost"@,
    ensures
        recorded(ledger, result).0 == ledger,
        awaiting(recorded(ledger, result).0),
{
}

/// While a batch awaits its outcome no other batch takes its place.
pub proof fn pending_batch_is_not_replaced(
    ledger: Option<PendingModel>,
    link: AdmittedModel,
    signal_id: Seq<char>,
    events: Seq<EventModel>,
    now: Timestamp,
    delivery_id: Seq<char>,
)
    requires
        awaiting(ledger),
    ensures
        prepared(ledger, link, signal_id, events, now, delivery_id) == (
            ledger,
            Err::<LinkModel, Seq<char>>("delivery pending"@),
        ),
{
}

} // verus!
