//! `self wait-on attach`: one attached waiter session.
//!
//! Completing this session is `waiter_completed` and a `delivery_result`, not
//! `turn_started`.

use crate::primitives;
use crate::primitives::{json_string_text, mint_ulid, parse_rfc3339};
use crate::protocol;
use crate::protocol::{format_time, EventModel, LinkModel, ProviderEvent, WaiterLink};
use crate::sanitize;
use crate::sanitize::{paste_body, paste_field, MAX_BODY, MAX_ID};
use crate::text;
use crate::text::{decimal_text, same_text};
use crate::timestamp::{Span, Timestamp};
use vstd::prelude::*;
use vstd::string::*;

verus! {

/// Arguments for an attached waiter session.
#[derive(Clone, Debug, PartialEq, Eq)]
pub struct AttachSpec {
    /// Arm to attach to.
    pub arm_id: String,
    /// Arm generation.
    pub generation: u64,
    /// Seat token.
    pub seat_id: String,
    /// Attached return route.
    pub route: String,
}

/// What an accepted session is bound to.
#[derive(Debug, PartialEq, Eq)]
pub struct Accepted {
    pub request_id: String,
    pub link_id: String,
    pub arm_id: String,
    pub generation: u64,
    pub route: String,
    pub lease_until: Timestamp,
}

/// What an [`Accepted`] says.
pub struct AcceptedModel {
    pub request_id: Seq<char>,
    pub link_id: Seq<char>,
    pub arm_id: Seq<char>,
    pub generation: u64,
    pub route: Seq<char>,
    pub lease_until: Timestamp,
}

impl View for Accepted {
    type V = AcceptedModel;

    open spec fn view(&self) -> AcceptedModel {
        AcceptedModel {
            request_id: self.request_id@,
            link_id: self.link_id@,
            arm_id: self.arm_id@,
            generation: self.generation,
            route: self.route@,
            lease_until: self.lease_until,
        }
    }
}

/// The request of a session under given ids.
pub open spec fn request_of(
    spec: AttachSpec,
    request_id: Seq<char>,
    waiter_id: Seq<char>,
    now: Timestamp,
) -> LinkModel {
    LinkModel::AttachWaiter {
        request_id,
        waiter_id,
        arm_id: spec.arm_id@,
        generation: spec.generation,
        seat_id: spec.seat_id@,
        route: spec.route@,
        observed_at: protocol::time_chars(now),
    }
}

/// Asks to be attached, under given ids.
pub fn attach_request_with(
    spec: &AttachSpec,
    request_id: String,
    waiter_id: String,
    now: Timestamp,
) -> (request: WaiterLink)
    ensures
        request@ == request_of(*spec, request_id@, waiter_id@, now),
{
    WaiterLink::AttachWaiter {
        request_id,
        waiter_id,
        arm_id: spec.arm_id.clone(),
        generation: spec.generation,
        seat_id: spec.seat_id.clone(),
        route: spec.route.clone(),
        observed_at: format_time(now),
    }
}

/// Asks to be attached, under minted ids.
pub fn attach_request(spec: &AttachSpec, now: Timestamp) -> (request: WaiterLink)
    ensures
        exists|request_id: Seq<char>, waiter_id: Seq<char>|
            {
                &&& #[trigger] protocol::minted(request_id)
                &&& #[trigger] protocol::minted(waiter_id)
                &&& request@ == request_of(*spec, request_id, waiter_id, now)
            },
{
    let request_id = mint_ulid();
    let waiter_id = mint_ulid();
    assert(protocol::minted(request_id@) && protocol::minted(waiter_id@));
    attach_request_with(spec, request_id, waiter_id, now)
}

/// What a reply says to an attach request.
pub open spec fn accept_verdict(request: LinkModel, reply: LinkModel) -> Result<
    AcceptedModel,
    Seq<char>,
> {
    match request {
        LinkModel::AttachWaiter { request_id, arm_id, generation, route, .. } => match reply {
            LinkModel::AttachRejected { request_id: rejected_id, code, .. } => if rejected_id
                != request_id {
                Err("attach reject request_id mismatch"@)
            } else {
                Err("attach rejected: "@ + code)
            },
            LinkModel::AttachAccepted {
                request_id: accepted_id,
                link_id,
                arm_id: accepted_arm,
                generation: accepted_generation,
                route: accepted_route,
                lease_until,
                ..
            } => if accepted_id != request_id || accepted_arm != arm_id || accepted_generation
                != generation || accepted_route != route {
                Err("attach accept mismatch"@)
            } else {
                match primitives::rfc3339_instant(lease_until) {
                    None => Err("invalid lease_until"@),
                    Some(nanos) => Ok(
                        AcceptedModel {
                            request_id,
                            link_id,
                            arm_id,
                            generation,
                            route,
                            lease_until: Timestamp { nanos },
                        },
                    ),
                }
            },
            _ => Err("expected attach reply"@),
        },
        _ => Err("expected attach_waiter"@),
    }
}

/// Correlates a reply with the request that it answers.
pub fn correlate_accept(request: &WaiterLink, reply: &WaiterLink) -> (result: Result<
    Accepted,
    String,
>)
    ensures
        match result {
            Ok(accepted) => accept_verdict(request@, reply@) == Ok::<AcceptedModel, Seq<char>>(
                accepted@,
            ),
            Err(error) => accept_verdict(request@, reply@) == Err::<AcceptedModel, Seq<char>>(
                error@,
            ),
        },
{
    let (request_id, arm_id, generation, route) = match request {
        WaiterLink::AttachWaiter {
            request_id,
            waiter_id: _,
            arm_id,
            generation,
            seat_id: _,
            route,
            observed_at: _,
        } => (request_id, arm_id, *generation, route),
        _ => return Err("expected attach_waiter".to_owned()),
    };
    match reply {
        WaiterLink::AttachRejected { request_id: rejected_id, code, observed_at: _ } => {
            if !same_text(rejected_id.as_str(), request_id.as_str()) {
                return Err("attach reject request_id mismatch".to_owned());
            }
            let mut error = "attach rejected: ".to_owned();
            error.append(code.as_str());
            Err(error)
        },
        WaiterLink::AttachAccepted {
            request_id: accepted_id,
            link_id,
            arm_id: accepted_arm,
            generation: accepted_generation,
            route: accepted_route,
            accepted_at: _,
            lease_until,
        } => {
            if !same_text(accepted_id.as_str(), request_id.as_str()) || !same_text(
                accepted_arm.as_str(),
                arm_id.as_str(),
            ) || *accepted_generation != generation || !same_text(
                accepted_route.as_str(),
                route.as_str(),
            ) {
                return Err("attach accept mismatch".to_owned());
            }
            let nanos = match parse_rfc3339(lease_until.as_str()) {
                Some(nanos) => nanos,
                None => return Err("invalid lease_until".to_owned()),
            };
            Ok(
                Accepted {
                    request_id: request_id.clone(),
                    link_id: link_id.clone(),
                    arm_id: arm_id.clone(),
                    generation,
                    route: route.clone(),
                    lease_until: Timestamp { nanos },
                },
            )
        },
        _ => Err("expected attach reply".to_owned()),
    }
}

/// A delivery is for the accepted session.
pub open spec fn delivery_fault(accepted: AcceptedModel, delivery: LinkModel) -> Option<
    Seq<char>,
> {
    match delivery {
        LinkModel::DeliverEvents { link_id, arm_id, generation, route, .. } => if link_id
            != accepted.link_id || arm_id != accepted.arm_id || generation != accepted.generation
            || route != accepted.route {
            Some("delivery authority mismatch"@)
        } else {
            None
        },
        _ => Some("expected deliver_events"@),
    }
}

/// Correlates a delivery with the accepted session.
pub fn correlate_delivery(accepted: &Accepted, delivery: &WaiterLink) -> (result: Result<
    (),
    String,
>)
    ensures
        match result {
            Ok(()) => delivery_fault(accepted@, delivery@) is None,
            Err(error) => delivery_fault(accepted@, delivery@) == Some(error@),
        },
{
    match delivery {
        WaiterLink::DeliverEvents {
            delivery_id: _,
            link_id,
            arm_id,
            generation,
            signal_id: _,
            route,
            events: _,
            newest_event_ref: _,
            attempted_at: _,
        } => {
            if !same_text(link_id.as_str(), accepted.link_id.as_str()) || !same_text(
                arm_id.as_str(),
                accepted.arm_id.as_str(),
            ) || *generation != accepted.generation || !same_text(
                route.as_str(),
                accepted.route.as_str(),
            ) {
                return Err("delivery authority mismatch".to_owned());
            }
            Ok(())
        },
        _ => Err("expected deliver_events".to_owned()),
    }
}

/// How long a lease still runs: longer than nothing, and no longer than 64 bits
/// of nanoseconds hold.
pub fn remaining_lease(lease_until: Timestamp, now: Timestamp) -> (result: Result<Span, String>)
    requires
        lease_until.in_range(),
        now.in_range(),
    ensures
        match result {
            Ok(span) => 0 < lease_until.nanos - now.nanos <= u64::MAX && span.nanos
                == lease_until.nanos - now.nanos,
            Err(error) => !(0 < lease_until.nanos - now.nanos <= u64::MAX) && error@
                == "lease expired"@,
        },
{
    if lease_until.nanos <= now.nanos {
        return Err("lease expired".to_owned());
    }
    let nanos: i128 = lease_until.nanos - now.nanos;
    if nanos > 18_446_744_073_709_551_615i128 {
        return Err("lease expired".to_owned());
    }
    Ok(Span { nanos: nanos as u128 })
}

/// The result of a delivery.
pub open spec fn result_of(delivery: LinkModel, outcome: Seq<char>, now: Timestamp) -> LinkModel {
    LinkModel::DeliveryResult {
        delivery_id: delivery->DeliverEvents_delivery_id,
        link_id: delivery->DeliverEvents_link_id,
        signal_id: delivery->DeliverEvents_signal_id,
        outcome,
        observed_at: protocol::time_chars(now),
    }
}

/// The message that tells what became of a delivery: completed where its
/// receipt was written, failed where not.
pub fn delivery_result(delivery: &WaiterLink, written: bool, now: Timestamp) -> (result: Result<
    WaiterLink,
    String,
>)
    ensures
        match result {
            Ok(message) => delivery@ is DeliverEvents && message@ == result_of(
                delivery@,
                if written {
                    "return_completed"@
                } else {
                    "return_failed"@
                },
                now,
            ),
            Err(error) => !(delivery@ is DeliverEvents) && error@ == "expected deliver_events"@,
        },
{
    let outcome = if written {
        "return_completed"
    } else {
        "return_failed"
    };
    match delivery {
        WaiterLink::DeliverEvents {
            delivery_id,
            link_id,
            arm_id: _,
            generation: _,
            signal_id,
            route: _,
            events: _,
            newest_event_ref: _,
            attempted_at: _,
        } => Ok(
            WaiterLink::DeliveryResult {
                delivery_id: delivery_id.clone(),
                link_id: link_id.clone(),
                signal_id: signal_id.clone(),
                outcome: outcome.to_owned(),
                observed_at: format_time(now),
            },
        ),
        _ => Err("expected deliver_events".to_owned()),
    }
}

/// One event in a receipt.
pub open spec fn event_text(event: EventModel) -> Seq<char> {
    "{\"actor\":"@ + (match event.actor {
        Some(actor) => primitives::json_string(actor),
        None => "null"@,
    }) + ",\"body\":"@ + primitives::json_string(sanitize::pasted_body(event.body, MAX_BODY))
        + ",\"event_ref\":"@ + primitives::json_string(event.event_ref) + ",\"observed_at\":"@
        + primitives::json_string(event.observed_at) + ",\"provider\":"@ + primitives::json_string(
        event.provider,
    ) + "}"@
}

fn render_event(event: &ProviderEvent) -> (text: String)
    ensures
        text@ == event_text(event@),
{
    let mut text = "{\"actor\":".to_owned();
    match &event.actor {
        Some(actor) => text.append(json_string_text(actor.as_str()).as_str()),
        None => text.append("null"),
    }
    text.append(",\"body\":");
    text.append(json_string_text(paste_body(event.body.as_str(), MAX_BODY).as_str()).as_str());
    text.append(",\"event_ref\":");
    text.append(json_string_text(event.event_ref.as_str()).as_str());
    text.append(",\"observed_at\":");
    text.append(json_string_text(event.observed_at.as_str()).as_str());
    text.append(",\"provider\":");
    text.append(json_string_text(event.provider.as_str()).as_str());
    text.append("}");
    text
}

/// Events one after the other, with commas between them.
pub open spec fn events_text(events: Seq<EventModel>) -> Seq<char>
    decreases events.len(),
{
    if events.len() == 0 {
        Seq::empty()
    } else if events.len() == 1 {
        event_text(events[0])
    } else {
        events_text(events.drop_last()) + ","@ + event_text(events.last())
    }
}

fn render_events(events: &Vec<ProviderEvent>) -> (text: String)
    ensures
        text@ == events_text(protocol::event_models(events@)),
{
    let ghost models = protocol::event_models(events@);
    let mut text = "".to_owned();
    proof {
        reveal_strlit("");
        assert(models.take(0) =~= Seq::<EventModel>::empty());
        assert(text@ =~= events_text(models.take(0)));
    }
    let mut i: usize = 0;
    while i < events.len()
        invariant
            i <= events@.len(),
            models == protocol::event_models(events@),
            text@ == events_text(models.take(i as int)),
        decreases events.len() - i,
    {
        let ghost before = text@;
        if i > 0 {
            text.append(",");
        }
        text.append(render_event(&events[i]).as_str());
        proof {
            let longer = models.take(i + 1);
            assert(longer.drop_last() =~= models.take(i as int));
            assert(longer.last() == events@[i as int]@);
            if i == 0 {
                assert(before =~= Seq::<char>::empty());
                assert(text@ =~= events_text(longer));
            } else {
                assert(text@ =~= events_text(longer));
            }
        }
        i += 1;
    }
    assert(models.take(events@.len() as int) =~= models);
    text
}

/// The receipt of a delivery. It never claims a model turn.
pub open spec fn receipt_text(delivery: LinkModel) -> Seq<char> {
    match delivery {
        LinkModel::DeliverEvents {
            delivery_id,
            link_id,
            arm_id,
            generation,
            signal_id,
            route,
            events,
            newest_event_ref,
            attempted_at,
        } => "{\"arm_id\":"@ + primitives::json_string(sanitize::pasted(arm_id, MAX_ID))
            + ",\"delivery_id\":"@ + primitives::json_string(
            sanitize::pasted(delivery_id, MAX_ID),
        ) + ",\"event_count\":"@ + text::decimal(events.len()) + ",\"generation\":"@
            + text::decimal(generation as nat) + ",\"newest_observed\":"@
            + primitives::json_string(sanitize::pasted(newest_event_ref, MAX_ID))
            + ",\"signal_id\":"@ + primitives::json_string(sanitize::pasted(signal_id, MAX_ID))
            + ",\"turn_started\":\"unknown\",\"untrusted_provider_data\":["@ + events_text(events)
            + "],\"wait_outcome\":\"matched\",\"waiter_completed\":true}\n"@,
        _ => {
            "{\"waiter_completed\":true,\"wait_outcome\":\"error\",\"turn_started\":\"unknown\"}\n"@
        },
    }
}

/// Print a receipt that does not claim a model turn.
pub fn render_attach_receipt(delivery: &WaiterLink) -> (receipt: String)
    ensures
        receipt@ == receipt_text(delivery@),
{
    match delivery {
        WaiterLink::DeliverEvents {
            delivery_id,
            link_id: _,
            arm_id,
            generation,
            signal_id,
            route: _,
            events,
            newest_event_ref,
            attempted_at: _,
        } => {
            let mut receipt = "{\"arm_id\":".to_owned();
            receipt.append(
                json_string_text(paste_field(arm_id.as_str(), MAX_ID).as_str()).as_str(),
            );
            receipt.append(",\"delivery_id\":");
            receipt.append(
                json_string_text(paste_field(delivery_id.as_str(), MAX_ID).as_str()).as_str(),
            );
            receipt.append(",\"event_count\":");
            receipt.append(decimal_text(events.len() as u64).as_str());
            receipt.append(",\"generation\":");
            receipt.append(decimal_text(*generation).as_str());
            receipt.append(",\"newest_observed\":");
            receipt.append(
                json_string_text(paste_field(newest_event_ref.as_str(), MAX_ID).as_str()).as_str(),
            );
            receipt.append(",\"signal_id\":");
            receipt.append(
                json_string_text(paste_field(signal_id.as_str(), MAX_ID).as_str()).as_str(),
            );
            receipt.append(",\"turn_started\":\"unknown\",\"untrusted_provider_data\":[");
            receipt.append(render_events(events).as_str());
            receipt.append("],\"wait_outcome\":\"matched\",\"waiter_completed\":true}\n");
            receipt
        },
        _ => {
            "{\"waiter_completed\":true,\"wait_outcome\":\"error\",\"turn_started\":\"unknown\"}\n".to_owned()
        },
    }
}

/// A session that was accepted is bound to its own request: request id, arm,
/// generation and route are those that were asked for.
pub proof fn acceptance_echoes_the_request(request: LinkModel, reply: LinkModel)
    requires
        accept_verdict(request, reply) is Ok,
    ensures
        ({
            let accepted = accept_verdict(request, reply)->Ok_0;
            &&& request is AttachWaiter
            &&& reply is AttachAccepted
            &&& accepted.request_id == request->AttachWaiter_request_id
            &&& accepted.arm_id == request->AttachWaiter_arm_id
            &&& accepted.generation == request->AttachWaiter_generation
            &&& accepted.route == request->AttachWaiter_route
            &&& accepted.link_id == reply->AttachAccepted_link_id
        }),
{
}

} // verus!
