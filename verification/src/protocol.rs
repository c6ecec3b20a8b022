//! Values that cross the waiter link, without their encoding.

use crate::primitives;
use crate::primitives::{format_rfc3339, instant_text};
use crate::text;
use crate::text::{copy_optional_text, same_optional_text, same_text};
use crate::timestamp::Timestamp;
use vstd::prelude::*;

verus! {

/// One event as its provider reported it.
#[derive(Debug, PartialEq, Eq)]
pub struct ProviderEvent {
    pub provider: String,
    pub event_ref: String,
    pub actor: Option<String>,
    pub observed_at: String,
    pub body: String,
}

/// The texts of a [`ProviderEvent`].
pub struct EventModel {
    pub provider: Seq<char>,
    pub event_ref: Seq<char>,
    pub actor: Option<Seq<char>>,
    pub observed_at: Seq<char>,
    pub body: Seq<char>,
}

impl View for ProviderEvent {
    type V = EventModel;

    open spec fn view(&self) -> EventModel {
        EventModel {
            provider: self.provider@,
            event_ref: self.event_ref@,
            actor: text::optional_text(self.actor),
            observed_at: self.observed_at@,
            body: self.body@,
        }
    }
}

impl Clone for ProviderEvent {
    fn clone(&self) -> (copy: ProviderEvent)
        ensures
            copy@ == self@,
    {
        ProviderEvent {
            provider: self.provider.clone(),
            event_ref: self.event_ref.clone(),
            actor: copy_optional_text(&self.actor),
            observed_at: self.observed_at.clone(),
            body: self.body.clone(),
        }
    }
}

impl ProviderEvent {
    /// Whether two events have the same texts.
    pub fn same(&self, other: &ProviderEvent) -> (same: bool)
        ensures
            same == (self@ == other@),
    {
        same_text(self.provider.as_str(), other.provider.as_str()) && same_text(
            self.event_ref.as_str(),
            other.event_ref.as_str(),
        ) && same_optional_text(&self.actor, &other.actor) && same_text(
            self.observed_at.as_str(),
            other.observed_at.as_str(),
        ) && same_text(self.body.as_str(), other.body.as_str())
    }
}

/// The texts of a list of events.
pub open spec fn event_models(events: Seq<ProviderEvent>) -> Seq<EventModel> {
    Seq::new(events.len(), |i: int| events[i]@)
}

/// Whether two lists hold the same events in the same order.
pub fn same_events(a: &Vec<ProviderEvent>, b: &Vec<ProviderEvent>) -> (same: bool)
    ensures
        same == (event_models(a@) == event_models(b@)),
{
    if a.len() != b.len() {
        assert(event_models(a@).len() != event_models(b@).len());
        return false;
    }
    let mut i: usize = 0;
    while i < a.len()
        invariant
            i <= a.len(),
            a.len() == b.len(),
            forall|j: int| 0 <= j < i ==> a@[j]@ == b@[j]@,
        decreases a.len() - i,
    {
        if !a[i].same(&b[i]) {
            assert(event_models(a@)[i as int] != event_models(b@)[i as int]);
            return false;
        }
        i += 1;
    }
    assert(event_models(a@) =~= event_models(b@));
    true
}

/// A copy of a list of events.
pub fn copy_events(events: &Vec<ProviderEvent>) -> (copy: Vec<ProviderEvent>)
    ensures
        event_models(copy@) == event_models(events@),
{
    let mut out: Vec<ProviderEvent> = Vec::new();
    let mut i: usize = 0;
    while i < events.len()
        invariant
            i <= events.len(),
            out@.len() == i,
            forall|j: int| 0 <= j < i ==> (#[trigger] out@[j])@ == events@[j]@,
        decreases events.len() - i,
    {
        out.push(events[i].clone());
        i += 1;
    }
    assert(event_models(out@) =~= event_models(events@));
    out
}

/// A message on a waiter link.
#[derive(Debug, PartialEq, Eq)]
pub enum WaiterLink {
    /// A waiter asks to be attached.
    AttachWaiter {
        request_id: String,
        waiter_id: String,
        arm_id: String,
        generation: u64,
        seat_id: String,
        route: String,
        observed_at: String,
    },
    /// The waiter is attached.
    AttachAccepted {
        request_id: String,
        link_id: String,
        arm_id: String,
        generation: u64,
        route: String,
        accepted_at: String,
        lease_until: String,
    },
    /// The waiter is not attached.
    AttachRejected {
        request_id: String,
        code: String,
        observed_at: String,
    },
    /// A batch of events for the waiter.
    DeliverEvents {
        delivery_id: String,
        link_id: String,
        arm_id: String,
        generation: u64,
        signal_id: String,
        route: String,
        events: Vec<ProviderEvent>,
        newest_event_ref: String,
        attempted_at: String,
    },
    /// What became of a batch.
    DeliveryResult {
        delivery_id: String,
        link_id: String,
        signal_id: String,
        outcome: String,
        observed_at: String,
    },
}

/// The texts of a [`WaiterLink`].
pub enum LinkModel {
    AttachWaiter {
        request_id: Seq<char>,
        waiter_id: Seq<char>,
        arm_id: Seq<char>,
        generation: u64,
        seat_id: Seq<char>,
        route: Seq<char>,
        observed_at: Seq<char>,
    },
    AttachAccepted {
        request_id: Seq<char>,
        link_id: Seq<char>,
        arm_id: Seq<char>,
        generation: u64,
        route: Seq<char>,
        accepted_at: Seq<char>,
        lease_until: Seq<char>,
    },
    AttachRejected {
        request_id: Seq<char>,
        code: Seq<char>,
        observed_at: Seq<char>,
    },
    DeliverEvents {
        delivery_id: Seq<char>,
        link_id: Seq<char>,
        arm_id: Seq<char>,
        generation: u64,
        signal_id: Seq<char>,
        route: Seq<char>,
        events: Seq<EventModel>,
        newest_event_ref: Seq<char>,
        attempted_at: Seq<char>,
    },
    DeliveryResult {
        delivery_id: Seq<char>,
        link_id: Seq<char>,
        signal_id: Seq<char>,
        outcome: Seq<char>,
        observed_at: Seq<char>,
    },
}

impl View for WaiterLink {
    type V = LinkModel;

    open spec fn view(&self) -> LinkModel {
        match self {
            WaiterLink::AttachWaiter {
                request_id,
                waiter_id,
                arm_id,
                generation,
                seat_id,
                route,
                observed_at,
            } => LinkModel::AttachWaiter {
                request_id: request_id@,
                waiter_id: waiter_id@,
                arm_id: arm_id@,
                generation: *generation,
                seat_id: seat_id@,
                route: route@,
                observed_at: observed_at@,
            },
            WaiterLink::AttachAccepted {
                request_id,
                link_id,
                arm_id,
                generation,
                route,
                accepted_at,
                lease_until,
            } => LinkModel::AttachAccepted {
                request_id: request_id@,
                link_id: link_id@,
                arm_id: arm_id@,
                generation: *generation,
                route: route@,
                accepted_at: accepted_at@,
                lease_until: lease_until@,
            },
            WaiterLink::AttachRejected {
                request_id,
                code,
                observed_at,
            } => LinkModel::AttachRejected {
                request_id: request_id@,
                code: code@,
                observed_at: observed_at@,
            },
            WaiterLink::DeliverEvents {
                delivery_id,
                link_id,
                arm_id,
                generation,
                signal_id,
                route,
                events,
                newest_event_ref,
                attempted_at,
            } => LinkModel::DeliverEvents {
                delivery_id: delivery_id@,
                link_id: link_id@,
                arm_id: arm_id@,
                generation: *generation,
                signal_id: signal_id@,
                route: route@,
                events: event_models(events@),
                newest_event_ref: newest_event_ref@,
                attempted_at: attempted_at@,
            },
            WaiterLink::DeliveryResult {
                delivery_id,
                link_id,
                signal_id,
                outcome,
                observed_at,
            } => LinkModel::DeliveryResult {
                delivery_id: delivery_id@,
                link_id: link_id@,
                signal_id: signal_id@,
                outcome: outcome@,
                observed_at: observed_at@,
            },
        }
    }
}

impl Clone for WaiterLink {
    fn clone(&self) -> (copy: WaiterLink)
        ensures
            copy@ == self@,
    {
        match self {
            WaiterLink::AttachWaiter {
                request_id,
                waiter_id,
                arm_id,
                generation,
                seat_id,
                route,
                observed_at,
            } => WaiterLink::AttachWaiter {
                request_id: request_id.clone(),
                waiter_id: waiter_id.clone(),
                arm_id: arm_id.clone(),
                generation: *generation,
                seat_id: seat_id.clone(),
                route: route.clone(),
                observed_at: observed_at.clone(),
            },
            WaiterLink::AttachAccepted {
                request_id,
                link_id,
                arm_id,
                generation,
                route,
                accepted_at,
                lease_until,
            } => WaiterLink::AttachAccepted {
                request_id: request_id.clone(),
                link_id: link_id.clone(),
                arm_id: arm_id.clone(),
                generation: *generation,
                route: route.clone(),
                accepted_at: accepted_at.clone(),
                lease_until: lease_until.clone(),
            },
            WaiterLink::AttachRejected {
                request_id,
                code,
                observed_at,
            } => WaiterLink::AttachRejected {
                request_id: request_id.clone(),
                code: code.clone(),
                observed_at: observed_at.clone(),
            },
            WaiterLink::DeliverEvents {
                delivery_id,
                link_id,
                arm_id,
                generation,
                signal_id,
                route,
                events,
                newest_event_ref,
                attempted_at,
            } => WaiterLink::DeliverEvents {
                delivery_id: delivery_id.clone(),
                link_id: link_id.clone(),
                arm_id: arm_id.clone(),
                generation: *generation,
                signal_id: signal_id.clone(),
                route: route.clone(),
                events: copy_events(events),
                newest_event_ref: newest_event_ref.clone(),
                attempted_at: attempted_at.clone(),
            },
            WaiterLink::DeliveryResult {
                delivery_id,
                link_id,
                signal_id,
                outcome,
                observed_at,
            } => WaiterLink::DeliveryResult {
                delivery_id: delivery_id.clone(),
                link_id: link_id.clone(),
                signal_id: signal_id.clone(),
                outcome: outcome.clone(),
                observed_at: observed_at.clone(),
            },
        }
    }
}

impl WaiterLink {
    /// Whether two messages have the same texts.
    pub fn same(&self, other: &WaiterLink) -> (same: bool)
        ensures
            same == (self@ == other@),
    {
        match (self, other) {
            (
                WaiterLink::AttachWaiter {
                    request_id: a0,
                    waiter_id: a1,
                    arm_id: a2,
                    generation: a3,
                    seat_id: a4,
                    route: a5,
                    observed_at: a6,
                },
                WaiterLink::AttachWaiter {
                    request_id: b0,
                    waiter_id: b1,
                    arm_id: b2,
                    generation: b3,
                    seat_id: b4,
                    route: b5,
                    observed_at: b6,
                },
            ) => same_text(a0.as_str(), b0.as_str())
                && same_text(a1.as_str(), b1.as_str())
                && same_text(a2.as_str(), b2.as_str())
                && *a3 == *b3
                && same_text(a4.as_str(), b4.as_str())
                && same_text(a5.as_str(), b5.as_str())
                && same_text(a6.as_str(), b6.as_str()),
            (
                WaiterLink::AttachAccepted {
                    request_id: a0,
                    link_id: a1,
                    arm_id: a2,
                    generation: a3,
                    route: a4,
                    accepted_at: a5,
                    lease_until: a6,
                },
                WaiterLink::AttachAccepted {
                    request_id: b0,
                    link_id: b1,
                    arm_id: b2,
                    generation: b3,
                    route: b4,
                    accepted_at: b5,
                    lease_until: b6,
                },
            ) => same_text(a0.as_str(), b0.as_str())
                && same_text(a1.as_str(), b1.as_str())
                && same_text(a2.as_str(), b2.as_str())
                && *a3 == *b3
                && same_text(a4.as_str(), b4.as_str())
                && same_text(a5.as_str(), b5.as_str())
                && same_text(a6.as_str(), b6.as_str()),
            (
                WaiterLink::AttachRejected { request_id: a0, code: a1, observed_at: a2 },
                WaiterLink::AttachRejected { request_id: b0, code: b1, observed_at: b2 },
            ) => same_text(a0.as_str(), b0.as_str())
                && same_text(a1.as_str(), b1.as_str())
                && same_text(a2.as_str(), b2.as_str()),
            (
                WaiterLink::DeliverEvents {
                    delivery_id: a0,
                    link_id: a1,
                    arm_id: a2,
                    generation: a3,
                    signal_id: a4,
                    route: a5,
                    events: a6,
                    newest_event_ref: a7,
                    attempted_at: a8,
                },
                WaiterLink::DeliverEvents {
                    delivery_id: b0,
                    link_id: b1,
                    arm_id: b2,
                    generation: b3,
                    signal_id: b4,
                    route: b5,
                    events: b6,
                    newest_event_ref: b7,
                    attempted_at: b8,
                },
            ) => same_text(a0.as_str(), b0.as_str())
                && same_text(a1.as_str(), b1.as_str())
                && same_text(a2.as_str(), b2.as_str())
                && *a3 == *b3
                && same_text(a4.as_str(), b4.as_str())
                && same_text(a5.as_str(), b5.as_str())
                && same_events(a6, b6)
                && same_text(a7.as_str(), b7.as_str())
                && same_text(a8.as_str(), b8.as_str()),
            (
                WaiterLink::DeliveryResult {
                    delivery_id: a0,
                    link_id: a1,
                    signal_id: a2,
                    outcome: a3,
                    observed_at: a4,
                },
                WaiterLink::DeliveryResult {
                    delivery_id: b0,
                    link_id: b1,
                    signal_id: b2,
                    outcome: b3,
                    observed_at: b4,
                },
            ) => same_text(a0.as_str(), b0.as_str())
                && same_text(a1.as_str(), b1.as_str())
                && same_text(a2.as_str(), b2.as_str())
                && same_text(a3.as_str(), b3.as_str())
                && same_text(a4.as_str(), b4.as_str()),
            _ => false,
        }
    }
}

/// Why a waiter-link message was not taken.
#[derive(Clone, Copy, Debug, PartialEq, Eq)]
pub enum WaiterLinkError {
    /// The message has no place here.
    Semantic(&'static str),
}

impl View for WaiterLinkError {
    type V = Seq<char>;

    open spec fn view(&self) -> Seq<char> {
        match self {
            WaiterLinkError::Semantic(reason) => reason@,
        }
    }
}

/// A message about how far events have been handled.
#[derive(Debug, PartialEq, Eq)]
pub enum HandledCursor {
    /// Events up to the cursor have been handled.
    Request {
        request_id: String,
        arm_id: String,
        generation: u64,
        seat_id: String,
        signal_id: String,
        cursor: String,
        observed_at: String,
    },
    /// The cursor was recorded.
    Accepted {
        request_id: String,
        arm_id: String,
        generation: u64,
        signal_id: String,
        cursor: String,
        accepted_at: String,
    },
    /// The cursor was not recorded.
    Rejected {
        request_id: String,
        code: String,
        observed_at: String,
    },
}

/// The texts of a [`HandledCursor`].
pub enum HandledModel {
    Request {
        request_id: Seq<char>,
        arm_id: Seq<char>,
        generation: u64,
        seat_id: Seq<char>,
        signal_id: Seq<char>,
        cursor: Seq<char>,
        observed_at: Seq<char>,
    },
    Accepted {
        request_id: Seq<char>,
        arm_id: Seq<char>,
        generation: u64,
        signal_id: Seq<char>,
        cursor: Seq<char>,
        accepted_at: Seq<char>,
    },
    Rejected {
        request_id: Seq<char>,
        code: Seq<char>,
        observed_at: Seq<char>,
    },
}

impl View for HandledCursor {
    type V = HandledModel;

    open spec fn view(&self) -> HandledModel {
        match self {
            HandledCursor::Request {
                request_id,
                arm_id,
                generation,
                seat_id,
                signal_id,
                cursor,
                observed_at,
            } => HandledModel::Request {
                request_id: request_id@,
                arm_id: arm_id@,
                generation: *generation,
                seat_id: seat_id@,
                signal_id: signal_id@,
                cursor: cursor@,
                observed_at: observed_at@,
            },
            HandledCursor::Accepted {
                request_id,
                arm_id,
                generation,
                signal_id,
                cursor,
                accepted_at,
            } => HandledModel::Accepted {
                request_id: request_id@,
                arm_id: arm_id@,
                generation: *generation,
                signal_id: signal_id@,
                cursor: cursor@,
                accepted_at: accepted_at@,
            },
            HandledCursor::Rejected { request_id, code, observed_at } => HandledModel::Rejected {
                request_id: request_id@,
                code: code@,
                observed_at: observed_at@,
            },
        }
    }
}

impl Clone for HandledCursor {
    fn clone(&self) -> (copy: HandledCursor)
        ensures
            copy@ == self@,
    {
        match self {
            HandledCursor::Request {
                request_id,
                arm_id,
                generation,
                seat_id,
                signal_id,
                cursor,
                observed_at,
            } => HandledCursor::Request {
                request_id: request_id.clone(),
                arm_id: arm_id.clone(),
                generation: *generation,
                seat_id: seat_id.clone(),
                signal_id: signal_id.clone(),
                cursor: cursor.clone(),
                observed_at: observed_at.clone(),
            },
            HandledCursor::Accepted {
                request_id,
                arm_id,
                generation,
                signal_id,
                cursor,
                accepted_at,
            } => HandledCursor::Accepted {
                request_id: request_id.clone(),
                arm_id: arm_id.clone(),
                generation: *generation,
                signal_id: signal_id.clone(),
                cursor: cursor.clone(),
                accepted_at: accepted_at.clone(),
            },
            HandledCursor::Rejected { request_id, code, observed_at } => HandledCursor::Rejected {
                request_id: request_id.clone(),
                code: code.clone(),
                observed_at: observed_at.clone(),
            },
        }
    }
}

impl HandledCursor {
    /// Whether two messages have the same texts.
    pub fn same(&self, other: &HandledCursor) -> (same: bool)
        ensures
            same == (self@ == other@),
    {
        match (self, other) {
            (
                HandledCursor::Request {
                    request_id: a0,
                    arm_id: a1,
                    generation: a2,
                    seat_id: a3,
                    signal_id: a4,
                    cursor: a5,
                    observed_at: a6,
                },
                HandledCursor::Request {
                    request_id: b0,
                    arm_id: b1,
                    generation: b2,
                    seat_id: b3,
                    signal_id: b4,
                    cursor: b5,
                    observed_at: b6,
                },
            ) => same_text(a0.as_str(), b0.as_str())
                && same_text(a1.as_str(), b1.as_str())
                && *a2 == *b2
                && same_text(a3.as_str(), b3.as_str())
                && same_text(a4.as_str(), b4.as_str())
                && same_text(a5.as_str(), b5.as_str())
                && same_text(a6.as_str(), b6.as_str()),
            (
                HandledCursor::Accepted {
                    request_id: a0,
                    arm_id: a1,
                    generation: a2,
                    signal_id: a3,
                    cursor: a4,
                    accepted_at: a5,
                },
                HandledCursor::Accepted {
                    request_id: b0,
                    arm_id: b1,
                    generation: b2,
                    signal_id: b3,
                    cursor: b4,
                    accepted_at: b5,
                },
            ) => same_text(a0.as_str(), b0.as_str())
                && same_text(a1.as_str(), b1.as_str())
                && *a2 == *b2
                && same_text(a3.as_str(), b3.as_str())
                && same_text(a4.as_str(), b4.as_str())
                && same_text(a5.as_str(), b5.as_str()),
            (
                HandledCursor::Rejected { request_id: a0, code: a1, observed_at: a2 },
                HandledCursor::Rejected { request_id: b0, code: b1, observed_at: b2 },
            ) => same_text(a0.as_str(), b0.as_str())
                && same_text(a1.as_str(), b1.as_str())
                && same_text(a2.as_str(), b2.as_str()),
            _ => false,
        }
    }
}

/// Why a handled-cursor message was not taken.
#[derive(Clone, Copy, Debug, PartialEq, Eq)]
pub enum HandledCursorError {
    /// The message has no place here.
    Semantic(&'static str),
}

impl View for HandledCursorError {
    type V = Seq<char>;

    open spec fn view(&self) -> Seq<char> {
        match self {
            HandledCursorError::Semantic(reason) => reason@,
        }
    }
}

/// A character of a minted identifier: a digit or an upper-case letter other
/// than I, L, O and U.
pub open spec fn minted_char(c: char) -> bool {
    ||| '0' <= c <= '9'
    ||| 'A' <= c <= 'Z' && c != 'I' && c != 'L' && c != 'O' && c != 'U'
}

/// Text that a minted identifier can be: 26 characters of that alphabet.
pub open spec fn minted(text: Seq<char>) -> bool {
    text.len() == 26 && forall|i: int| 0 <= i < text.len() ==> minted_char(#[trigger] text[i])
}

/// The text of an instant in a message: RFC 3339 in UTC, the plain form of an
/// instant that RFC 3339 cannot show, and nothing for one without a date.
pub open spec fn time_chars(at: Timestamp) -> Seq<char> {
    match primitives::rfc3339_text(at.nanos) {
        Some(text) => text,
        None => match primitives::instant_chars(at.nanos) {
            Some(text) => text,
            None => ""@,
        },
    }
}

/// Shows an instant in a message.
pub fn format_time(at: Timestamp) -> (text: String)
    ensures
        text@ == time_chars(at),
{
    match format_rfc3339(at.nanos) {
        Some(text) => text,
        None => match instant_text(at.nanos) {
            Some(text) => text,
            None => "".to_owned(),
        },
    }
}

} // verus!
