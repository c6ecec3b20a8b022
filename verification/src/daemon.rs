//! Daemon wait-on: provider coverage plus waiter-link delivery.
//!
//! The daemon owns the provider wait. A wait match is only a hint: events come
//! from an exclusive-baseline drain. Nothing here records a handled cursor or
//! claims a model turn.

use crate::ack_handled;
use crate::ack_handled::stamp;
use crate::admission;
use crate::admission::{
    drop_session, AdmittedLink, AdmittedModel, ArmModel, KnownArm, LinkSession, LinkTable,
    SessionModel,
};
use crate::delivery;
use crate::delivery::{
    prepare_delivery_with, record_delivery_result, redeliver_pending, DeliveryLedger, PendingModel,
};
use crate::primitives::mint_ulid;
use crate::protocol;
use crate::protocol::{copy_events, same_events, EventModel, LinkModel, ProviderEvent, WaiterLink};
use crate::text;
use crate::text::{copy_texts, same_text};
use crate::timestamp::{Span, Timestamp};
use crate::wait_on::{WaitOnSpec, WaitResult};
use vstd::prelude::*;
use vstd::string::*;
use vstd::utf8::*;

verus! {

/// One drained provider post.
#[derive(Clone, Debug, PartialEq, Eq)]
pub struct DrainedEvent {
    pub id: String,
    pub username: String,
    pub message: String,
}

/// Why a drain gave nothing.
#[derive(Clone, Copy, Debug, PartialEq, Eq, Structural)]
pub enum DrainError {
    /// The drain found no event.
    Empty,
    /// The drain could not be made.
    Failed,
}

/// The waiter-link event of a drained post.
pub open spec fn event_of(event: DrainedEvent, observed_at: Seq<char>) -> EventModel {
    EventModel {
        provider: "mattermost"@,
        event_ref: event.id@,
        actor: if event.username@.len() > 0 {
            Some(event.username@)
        } else {
            None
        },
        observed_at,
        body: event.message@,
    }
}

/// The waiter-link events of drained posts, in drain order.
pub open spec fn events_of(events: Seq<DrainedEvent>, observed_at: Seq<char>) -> Seq<EventModel> {
    Seq::new(events.len(), |i: int| event_of(events[i], observed_at))
}

/// Map drained provider posts to waiter-link events, preserving drain order.
pub fn provider_events_from_drain(events: &Vec<DrainedEvent>, observed_at: &str) -> (mapped: Vec<
    ProviderEvent,
>)
    ensures
        protocol::event_models(mapped@) == events_of(events@, observed_at@),
{
    let mut mapped: Vec<ProviderEvent> = Vec::new();
    let mut i: usize = 0;
    while i < events.len()
        invariant
            i <= events@.len(),
            mapped@.len() == i,
            forall|j: int|
                0 <= j < i ==> (#[trigger] mapped@[j])@ == event_of(events@[j], observed_at@),
        decreases events.len() - i,
    {
        let event = &events[i];
        let actor = if event.username.as_str().is_empty() {
            None
        } else {
            Some(event.username.clone())
        };
        mapped.push(
            ProviderEvent {
                provider: "mattermost".to_owned(),
                event_ref: event.id.clone(),
                actor,
                observed_at: observed_at.to_owned(),
                body: event.message.clone(),
            },
        );
        i += 1;
    }
    assert(protocol::event_models(mapped@) =~= events_of(events@, observed_at@));
    mapped
}

/// One `(arm, generation, signal)` claim for a drained batch.
#[derive(Debug, PartialEq, Eq)]
pub struct SignalClaim {
    /// Arm id.
    pub arm_id: String,
    /// Arm generation.
    pub generation: u64,
    /// Stable signal id for this batch.
    pub signal_id: String,
    /// Oldest-first event refs.
    pub event_refs: Vec<String>,
    /// Bounded events held until a waiter can take them.
    pub events: Vec<ProviderEvent>,
}

/// What a [`SignalClaim`] says.
pub struct SignalModel {
    pub arm_id: Seq<char>,
    pub generation: u64,
    pub signal_id: Seq<char>,
    pub event_refs: Seq<Seq<char>>,
    pub events: Seq<EventModel>,
}

impl View for SignalClaim {
    type V = SignalModel;

    open spec fn view(&self) -> SignalModel {
        SignalModel {
            arm_id: self.arm_id@,
            generation: self.generation,
            signal_id: self.signal_id@,
            event_refs: text::texts(self.event_refs@),
            events: protocol::event_models(self.events@),
        }
    }
}

impl Clone for SignalClaim {
    fn clone(&self) -> (copy: SignalClaim)
        ensures
            copy@ == self@,
    {
        SignalClaim {
            arm_id: self.arm_id.clone(),
            generation: self.generation,
            signal_id: self.signal_id.clone(),
            event_refs: copy_texts(&self.event_refs),
            events: copy_events(&self.events),
        }
    }
}

/// What an optional claim says.
pub open spec fn claim_model(claim: Option<SignalClaim>) -> Option<SignalModel> {
    match claim {
        Some(claim) => Some(claim@),
        None => None,
    }
}

fn copy_claim(claim: &Option<SignalClaim>) -> (copy: Option<SignalClaim>)
    ensures
        claim_model(copy) == claim_model(*claim),
{
    match claim {
        Some(claim) => Some(claim.clone()),
        None => None,
    }
}

/// Why a second claim was refused.
#[derive(Clone, Copy, Debug, PartialEq, Eq, Structural)]
pub enum ClaimError {
    /// A different batch is already claimed on this arm generation.
    OccupiedDifferent,
}

/// The references of events.
pub open spec fn refs_of(events: Seq<EventModel>) -> Seq<Seq<char>> {
    Seq::new(events.len(), |i: int| events[i].event_ref)
}

/// A batch is claimed once: again it is reused, and another one is refused.
pub open spec fn claimed(
    current: Option<SignalModel>,
    arm: ArmModel,
    events: Seq<EventModel>,
    mint_id: Seq<char>,
) -> (Option<SignalModel>, Result<SignalModel, ClaimError>) {
    match current {
        Some(existing) => if existing.arm_id == arm.arm_id && existing.generation
            == arm.generation && existing.events == events {
            (current, Ok(existing))
        } else {
            (current, Err(ClaimError::OccupiedDifferent))
        },
        None => {
            let claim = SignalModel {
                arm_id: arm.arm_id,
                generation: arm.generation,
                signal_id: mint_id,
                event_refs: refs_of(events),
                events,
            };
            (Some(claim), Ok(claim))
        },
    }
}

fn copy_refs(events: &Vec<ProviderEvent>) -> (refs: Vec<String>)
    ensures
        text::texts(refs@) == refs_of(protocol::event_models(events@)),
{
    let mut refs: Vec<String> = Vec::new();
    let mut i: usize = 0;
    while i < events.len()
        invariant
            i <= events@.len(),
            refs@.len() == i,
            forall|j: int| 0 <= j < i ==> (#[trigger] refs@[j])@ == events@[j]@.event_ref,
        decreases events.len() - i,
    {
        refs.push(events[i].event_ref.clone());
        i += 1;
    }
    assert(text::texts(refs@) =~= refs_of(protocol::event_models(events@)));
    refs
}

/// Claim `events` once for this arm generation.
pub fn claim_or_reuse(
    current: &mut Option<SignalClaim>,
    arm: &KnownArm,
    events: &Vec<ProviderEvent>,
    mint_id: String,
) -> (result: Result<SignalClaim, ClaimError>)
    ensures
        claim_model(*final(current)) == claimed(
            claim_model(*old(current)),
            arm@,
            protocol::event_models(events@),
            mint_id@,
        ).0,
        match result {
            Ok(claim) => claimed(
                claim_model(*old(current)),
                arm@,
                protocol::event_models(events@),
                mint_id@,
            ).1 == Ok::<SignalModel, ClaimError>(claim@),
            Err(error) => claimed(
                claim_model(*old(current)),
                arm@,
                protocol::event_models(events@),
                mint_id@,
            ).1 == Err::<SignalModel, ClaimError>(error),
        },
{
    if let Some(existing) = &*current {
        if same_text(existing.arm_id.as_str(), arm.arm_id.as_str()) && existing.generation
            == arm.generation && same_events(&existing.events, events) {
            return Ok(existing.clone());
        }
        return Err(ClaimError::OccupiedDifferent);
    }
    let claim = SignalClaim {
        arm_id: arm.arm_id.clone(),
        generation: arm.generation,
        signal_id: mint_id,
        event_refs: copy_refs(events),
        events: copy_events(events),
    };
    let kept = claim.clone();
    *current = Some(kept);
    Ok(claim)
}

/// Coverage after one daemon interval. Does not record a handled cursor.
#[derive(Clone, Debug, PartialEq, Eq)]
pub enum DaemonCoverage {
    /// No claim yet; re-arm the provider wait from this exclusive cursor.
    Rearm {
        /// Next `--after` baseline.
        after: String,
    },
    /// A claim is live and unhandled; do not re-arm provider coverage.
    Pause,
    /// Fail closed and shut down.
    Halt {
        /// Process exit code.
        exit: i32,
    },
}

/// What a [`DaemonCoverage`] says.
pub enum CoverageModel {
    Rearm { after: Seq<char> },
    Pause,
    Halt { exit: i32 },
}

impl View for DaemonCoverage {
    type V = CoverageModel;

    open spec fn view(&self) -> CoverageModel {
        match self {
            DaemonCoverage::Rearm { after } => CoverageModel::Rearm { after: after@ },
            DaemonCoverage::Pause => CoverageModel::Pause,
            DaemonCoverage::Halt { exit } => CoverageModel::Halt { exit: *exit },
        }
    }
}

/// Result of one matched-interval ingest. Never sets `turn_started`.
#[derive(Debug, PartialEq, Eq)]
pub struct IngestOutcome {
    /// Coverage transition. Does not record a handled cursor.
    pub coverage: DaemonCoverage,
    /// Current claim, if any.
    pub claim: Option<SignalClaim>,
    /// Ledger delivery id when a link has prepared a batch.
    pub delivery_id: Option<String>,
    /// True only after a successful `deliver_events` write.
    pub delivery_attempted: bool,
    /// Waiter result token when one was recorded.
    pub result_outcome: Option<String>,
    /// Whether an attached link was present for this ingest.
    pub waiter_attached: bool,
}

/// What an [`IngestOutcome`] says.
pub struct OutcomeModel {
    pub coverage: CoverageModel,
    pub claim: Option<SignalModel>,
    pub delivery_id: Option<Seq<char>>,
    pub delivery_attempted: bool,
    pub result_outcome: Option<Seq<char>>,
    pub waiter_attached: bool,
}

impl View for IngestOutcome {
    type V = OutcomeModel;

    open spec fn view(&self) -> OutcomeModel {
        OutcomeModel {
            coverage: self.coverage@,
            claim: claim_model(self.claim),
            delivery_id: text::optional_text(self.delivery_id),
            delivery_attempted: self.delivery_attempted,
            result_outcome: text::optional_text(self.result_outcome),
            waiter_attached: self.waiter_attached,
        }
    }
}

/// Send and receive on the current waiter link. Each relation says what a writer
/// may answer and what becomes of it.
pub trait DeliveryIo: Sized {
    spec fn wrote(
        before: Self,
        message: WaiterLink,
        result: Result<(), &'static str>,
        after: Self,
    ) -> bool;

    spec fn answered(
        before: Self,
        result: Result<WaiterLink, &'static str>,
        after: Self,
    ) -> bool;

    /// Write one `deliver_events` frame.
    fn send(&mut self, message: &WaiterLink) -> (result: Result<(), &'static str>)
        ensures
            Self::wrote(*old(self), *message, result, *final(self)),
    ;

    /// Read one `delivery_result` frame.
    fn recv_result(&mut self) -> (result: Result<WaiterLink, &'static str>)
        ensures
            Self::answered(*old(self), result, *final(self)),
    ;
}

/// Drains provider events after the exclusive baseline of a spec.
pub trait EventDrain {
    fn drain_after(&self, spec: &WaitOnSpec) -> Result<Vec<DrainedEvent>, DrainError>;
}

/// What the link did with a batch: whether it took it, and the result that came
/// back, if one did.
pub struct LinkExchange {
    pub sent: bool,
    pub received: Option<LinkModel>,
}

/// The message of an answer, if it brought one.
pub open spec fn answer_model(answer: Result<WaiterLink, &'static str>) -> Option<LinkModel> {
    match answer {
        Ok(message) => Some(message@),
        Err(_) => None,
    }
}

/// A message was handed to a writer: whether the writer took it, and what the
/// writer then answered. A writer that did not take it is not asked.
pub open spec fn handed_over<I: DeliveryIo>(
    before: I,
    message: LinkModel,
    exchange: LinkExchange,
    after: I,
) -> bool {
    exists|handed: WaiterLink, taken: Result<(), &'static str>, between: I|
        {
            &&& #[trigger] I::wrote(before, handed, taken, between)
            &&& handed@ == message
            &&& exchange.sent == (taken is Ok)
            &&& if taken is Ok {
                exists|answer: Result<WaiterLink, &'static str>|
                    {
                        &&& #[trigger] I::answered(between, answer, after)
                        &&& exchange.received == answer_model(answer)
                    }
            } else {
                exchange.received is None && after == between
            }
        }
}

/// A writer after a delivery: the message was handed to it, or it was not used.
pub open spec fn used_for<I: DeliveryIo>(
    before: I,
    message: Option<LinkModel>,
    exchange: LinkExchange,
    after: I,
) -> bool {
    match message {
        Some(message) => handed_over(before, message, exchange, after),
        None => after == before,
    }
}

/// Ledger, claim, and attempt flag mutated by ingest.
#[derive(Debug, PartialEq, Eq)]
pub struct DaemonPipe {
    /// Pending `deliver_events` batch.
    pub ledger: DeliveryLedger,
    /// Current `(arm, generation, signal)` claim.
    pub claim: Option<SignalClaim>,
    /// True after a successful delivery write for the pending batch.
    pub attempted: bool,
}

/// What a [`DaemonPipe`] holds.
#[verifier::ext_equal]
pub struct PipeModel {
    pub ledger: Option<PendingModel>,
    pub claim: Option<SignalModel>,
    pub attempted: bool,
}

impl View for DaemonPipe {
    type V = PipeModel;

    open spec fn view(&self) -> PipeModel {
        PipeModel {
            ledger: self.ledger@,
            claim: claim_model(self.claim),
            attempted: self.attempted,
        }
    }
}

impl Default for DaemonPipe {
    fn default() -> (pipe: DaemonPipe)
        ensures
            pipe@ == (PipeModel { ledger: None, claim: None, attempted: false }),
    {
        DaemonPipe { ledger: DeliveryLedger::default(), claim: None, attempted: false }
    }
}

impl PipeModel {
    /// What the pipe looks like from outside.
    pub open spec fn snapshot(self, coverage: CoverageModel, attached: bool) -> OutcomeModel {
        OutcomeModel {
            coverage,
            claim: self.claim,
            delivery_id: match self.ledger {
                Some(pending) => Some(pending.delivery_id),
                None => None,
            },
            delivery_attempted: self.attempted,
            result_outcome: None,
            waiter_attached: attached,
        }
    }

    /// The ledger and the message when a claim is offered to a link: the batch
    /// that awaits its outcome again, or a new one.
    pub open spec fn offered(
        self,
        live: SignalModel,
        link: AdmittedModel,
        now: Timestamp,
        delivery_id: Seq<char>,
    ) -> (Option<PendingModel>, Result<LinkModel, Seq<char>>) {
        if delivery::awaiting(self.ledger) {
            delivery::redelivered(self.ledger, link, now)
        } else {
            delivery::prepared(self.ledger, link, live.signal_id, live.events, now, delivery_id)
        }
    }

    /// The message that is handed to a link's writer, if one is: a batch that was
    /// written and awaits its outcome is not written again.
    pub open spec fn written(
        self,
        live: SignalModel,
        link: Option<AdmittedModel>,
        now: Timestamp,
        delivery_id: Seq<char>,
    ) -> Option<LinkModel> {
        match link {
            None => None,
            Some(link) => {
                let (ledger, offered) = self.offered(live, link, now, delivery_id);
                match offered {
                    Ok(message) => if self.attempted && delivery::awaiting(ledger) {
                        None
                    } else {
                        Some(message)
                    },
                    Err(_) => None,
                }
            },
        }
    }

    /// An outcome about a message that was offered.
    pub open spec fn offer_outcome(
        coverage: CoverageModel,
        claim: Option<SignalModel>,
        message: LinkModel,
        attempted: bool,
        result: Option<Seq<char>>,
    ) -> OutcomeModel {
        OutcomeModel {
            coverage,
            claim,
            delivery_id: Some(message->DeliverEvents_delivery_id),
            delivery_attempted: attempted,
            result_outcome: result,
            waiter_attached: true,
        }
    }

    /// The outcome that a received message records, if it records one.
    pub open spec fn recorded_outcome(
        ledger: Option<PendingModel>,
        received: Option<LinkModel>,
    ) -> Option<Seq<char>> {
        match received {
            Some(result) => if delivery::recorded(ledger, result).1 is Ok {
                Some(result->DeliveryResult_outcome)
            } else {
                None
            },
            None => None,
        }
    }

    /// A claim is delivered. With `exchange` absent there is no link to write
    /// to. A batch that was written and awaits its outcome is not written again.
    pub open spec fn deliver(
        self,
        live: SignalModel,
        link: Option<AdmittedModel>,
        now: Timestamp,
        coverage: CoverageModel,
        delivery_id: Seq<char>,
        exchange: Option<LinkExchange>,
    ) -> (PipeModel, OutcomeModel) {
        match link {
            None => (
                self,
                OutcomeModel {
                    coverage,
                    claim: Some(live),
                    delivery_id: None,
                    delivery_attempted: false,
                    result_outcome: None,
                    waiter_attached: false,
                },
            ),
            Some(link) => {
                let (ledger, offered) = self.offered(live, link, now, delivery_id);
                let offering = PipeModel { ledger, ..self };
                match offered {
                    Err(_) => (offering, offering.snapshot(coverage, true)),
                    Ok(message) => match exchange {
                        None => (
                            PipeModel { attempted: false, ..offering },
                            PipeModel::offer_outcome(coverage, Some(live), message, false, None),
                        ),
                        Some(exchange) => if self.attempted && delivery::awaiting(ledger) {
                            (
                                offering,
                                PipeModel::offer_outcome(coverage, Some(live), message, true, None),
                            )
                        } else if !exchange.sent {
                            (
                                PipeModel { attempted: false, ..offering },
                                PipeModel::offer_outcome(coverage, Some(live), message, false, None),
                            )
                        } else {
                            let after = match exchange.received {
                                Some(result) => delivery::recorded(ledger, result).0,
                                None => ledger,
                            };
                            let outcome = PipeModel::recorded_outcome(ledger, exchange.received);
                            let attempted = outcome != Some("link_lost"@);
                            (
                                PipeModel { ledger: after, attempted, ..self },
                                PipeModel::offer_outcome(
                                    coverage,
                                    if self.claim is Some {
                                        self.claim
                                    } else {
                                        Some(live)
                                    },
                                    message,
                                    attempted || outcome is Some,
                                    outcome,
                                ),
                            )
                        },
                    },
                }
            },
        }
    }

    /// One wait interval is taken in. Only a match drains; a failed or empty
    /// drain halts; what was drained is claimed once and offered to the link.
    pub open spec fn ingest(
        self,
        after: Seq<char>,
        wait: WaitResult,
        drained: Result<Seq<DrainedEvent>, DrainError>,
        arm: ArmModel,
        link: Option<AdmittedModel>,
        now: Timestamp,
        mint_signal: Seq<char>,
        delivery_id: Seq<char>,
        exchange: Option<LinkExchange>,
    ) -> (PipeModel, OutcomeModel) {
        let attached = link is Some;
        if wait != WaitResult::Matched {
            (self, self.snapshot(coverage_after(wait, after), attached))
        } else if !(drained matches Ok(events) && events.len() > 0) {
            (self, self.snapshot(CoverageModel::Halt { exit: 2 }, attached))
        } else {
            let events = events_of(drained->Ok_0, ack_handled::stamp_chars(now));
            let (claim, result) = claimed(self.claim, arm, events, mint_signal);
            let claiming = PipeModel { claim, ..self };
            match result {
                Ok(live) => claiming.deliver(
                    live,
                    link,
                    now,
                    CoverageModel::Pause,
                    delivery_id,
                    exchange,
                ),
                Err(_) => (claiming, claiming.snapshot(CoverageModel::Pause, attached)),
            }
        }
    }

    /// The message that an ingest hands to a link's writer, if it does.
    pub open spec fn ingest_written(
        self,
        wait: WaitResult,
        drained: Result<Seq<DrainedEvent>, DrainError>,
        arm: ArmModel,
        link: Option<AdmittedModel>,
        now: Timestamp,
        mint_signal: Seq<char>,
        delivery_id: Seq<char>,
    ) -> Option<LinkModel> {
        if wait != WaitResult::Matched || !(drained matches Ok(events) && events.len() > 0) {
            None
        } else {
            let events = events_of(drained->Ok_0, ack_handled::stamp_chars(now));
            let (claim, result) = claimed(self.claim, arm, events, mint_signal);
            match result {
                Ok(live) => PipeModel { claim, ..self }.written(live, link, now, delivery_id),
                Err(_) => None,
            }
        }
    }

    /// The transport is lost: a batch that was written counts as not written.
    pub open spec fn lost(self) -> PipeModel {
        PipeModel { attempted: false, ..self }
    }
}

/// Coverage after a wait that did not match, or before its drain.
pub open spec fn coverage_after(wait: WaitResult, after: Seq<char>) -> CoverageModel {
    match wait {
        WaitResult::Timeout => CoverageModel::Rearm { after },
        WaitResult::Error => CoverageModel::Halt { exit: 2 },
        WaitResult::Matched => CoverageModel::Pause,
    }
}

pub fn daemon_coverage(wait: WaitResult, current_after: &str) -> (coverage: DaemonCoverage)
    ensures
        coverage@ == coverage_after(wait, current_after@),
{
    match wait {
        WaitResult::Timeout => DaemonCoverage::Rearm { after: current_after.to_owned() },
        WaitResult::Error => DaemonCoverage::Halt { exit: 2 },
        WaitResult::Matched => DaemonCoverage::Pause,
    }
}

impl DaemonPipe {
    fn snapshot(&self, coverage: DaemonCoverage, waiter_attached: bool) -> (outcome: IngestOutcome)
        ensures
            outcome@ == self@.snapshot(coverage@, waiter_attached),
    {
        let delivery_id = match self.ledger.pending() {
            Some(pending) => Some(pending.delivery_id.clone()),
            None => None,
        };
        IngestOutcome {
            coverage,
            claim: copy_claim(&self.claim),
            delivery_id,
            delivery_attempted: self.attempted,
            result_outcome: None,
            waiter_attached,
        }
    }
}

fn delivery_id_of(message: &WaiterLink) -> (id: Option<String>)
    ensures
        text::optional_text(id) == if message@ is DeliverEvents {
            Some(message@->DeliverEvents_delivery_id)
        } else {
            None
        },
{
    match message {
        WaiterLink::DeliverEvents {
            delivery_id,
            link_id: _,
            arm_id: _,
            generation: _,
            signal_id: _,
            route: _,
            events: _,
            newest_event_ref: _,
            attempted_at: _,
        } => Some(delivery_id.clone()),
        _ => None,
    }
}

/// The exchange of a link that is there.
pub open spec fn used(linked: bool, exchange: LinkExchange) -> Option<LinkExchange> {
    if linked {
        Some(exchange)
    } else {
        None
    }
}

/// A batch message, or the outcome that is reached without one.
pub enum Offer {
    Done(IngestOutcome),
    Send(WaiterLink),
}

/// Offers a claim to a link up to the write, under a given delivery id.
/// `linked` says whether there is a writer.
pub fn offer_claimed(
    live: &SignalClaim,
    link: Option<&AdmittedLink>,
    pipe: &mut DaemonPipe,
    now: Timestamp,
    linked: bool,
    coverage: &DaemonCoverage,
    delivery_id: String,
) -> (offer: Offer)
    ensures
        match offer {
            Offer::Done(outcome) => {
                &&& linked ==> old(pipe)@.written(live@, link_model(link), now, delivery_id@)
                    is None
                &&& forall|exchange: LinkExchange|
                    (final(pipe)@, outcome@) == #[trigger] old(pipe)@.deliver(
                        live@,
                        link_model(link),
                        now,
                        coverage@,
                        delivery_id@,
                        used(linked, exchange),
                    )
            },
            Offer::Send(message) => linked && link is Some && old(pipe)@.offered(
                live@,
                link->0@,
                now,
                delivery_id@,
            ) == (final(pipe)@.ledger, Ok::<LinkModel, Seq<char>>(message@)) && final(pipe)@.claim
                == old(pipe)@.claim && final(pipe)@.attempted == old(pipe)@.attempted && !(old(
                pipe,
            )@.attempted && delivery::awaiting(final(pipe)@.ledger)) && message@ is DeliverEvents,
        },
{
    let link = match link {
        Some(link) => link,
        None => {
            return Offer::Done(
                IngestOutcome {
                    coverage: copy_coverage(coverage),
                    claim: Some(live.clone()),
                    delivery_id: None,
                    delivery_attempted: false,
                    result_outcome: None,
                    waiter_attached: false,
                },
            );
        },
    };
    let offered = if pipe.ledger.should_redeliver() {
        redeliver_pending(&mut pipe.ledger, link, now)
    } else {
        prepare_delivery_with(
            &mut pipe.ledger,
            link,
            live.signal_id.clone(),
            copy_events(&live.events),
            now,
            delivery_id,
        )
    };
    let message = match offered {
        Ok(message) => message,
        Err(_) => return Offer::Done(pipe.snapshot(copy_coverage(coverage), true)),
    };
    let known_id = delivery_id_of(&message);
    if !linked {
        pipe.attempted = false;
        return Offer::Done(
            IngestOutcome {
                coverage: copy_coverage(coverage),
                claim: Some(live.clone()),
                delivery_id: known_id,
                delivery_attempted: false,
                result_outcome: None,
                waiter_attached: true,
            },
        );
    }
    if pipe.attempted && pipe.ledger.should_redeliver() {
        return Offer::Done(
            IngestOutcome {
                coverage: copy_coverage(coverage),
                claim: Some(live.clone()),
                delivery_id: known_id,
                delivery_attempted: true,
                result_outcome: None,
                waiter_attached: true,
            },
        );
    }
    Offer::Send(message)
}

fn copy_coverage(coverage: &DaemonCoverage) -> (copy: DaemonCoverage)
    ensures
        copy@ == coverage@,
{
    match coverage {
        DaemonCoverage::Rearm { after } => DaemonCoverage::Rearm { after: after.clone() },
        DaemonCoverage::Pause => DaemonCoverage::Pause,
        DaemonCoverage::Halt { exit } => DaemonCoverage::Halt { exit: *exit },
    }
}

/// What an optional message says.
pub open spec fn message_model(message: Option<WaiterLink>) -> Option<LinkModel> {
    match message {
        Some(message) => Some(message@),
        None => None,
    }
}

/// Concludes an offer whose message was handed to the link.
pub fn conclude_offer(
    live: SignalClaim,
    pipe: &mut DaemonPipe,
    coverage: DaemonCoverage,
    message: &WaiterLink,
    sent: bool,
    received: Option<WaiterLink>,
) -> (outcome: IngestOutcome)
    requires
        message@ is DeliverEvents,
    ensures
        if !sent {
            final(pipe)@ == old(pipe)@.lost() && outcome@ == PipeModel::offer_outcome(
                coverage@,
                Some(live@),
                message@,
                false,
                None,
            )
        } else {
            let recorded = PipeModel::recorded_outcome(old(pipe)@.ledger, message_model(received));
            let attempted = recorded != Some("link_lost"@);
            &&& final(pipe)@.claim == old(pipe)@.claim
            &&& final(pipe)@.attempted == attempted
            &&& final(pipe)@.ledger == match received {
                Some(result) => delivery::recorded(old(pipe)@.ledger, result@).0,
                None => old(pipe)@.ledger,
            }
            &&& outcome@ == PipeModel::offer_outcome(
                coverage@,
                if old(pipe)@.claim is Some {
                    old(pipe)@.claim
                } else {
                    Some(live@)
                },
                message@,
                attempted || recorded is Some,
                recorded,
            )
        },
{
    let delivery_id = delivery_id_of(message);
    if !sent {
        pipe.attempted = false;
        return IngestOutcome {
            coverage,
            claim: Some(live),
            delivery_id,
            delivery_attempted: false,
            result_outcome: None,
            waiter_attached: true,
        };
    }
    pipe.attempted = true;
    let mut result_outcome: Option<String> = None;
    if let Some(result) = &received {
        let recorded = record_delivery_result(&mut pipe.ledger, result);
        if recorded.is_ok() {
            if let WaiterLink::DeliveryResult {
                delivery_id: _,
                link_id: _,
                signal_id: _,
                outcome,
                observed_at: _,
            } = result {
                if same_text(outcome.as_str(), "link_lost") {
                    pipe.attempted = false;
                }
                result_outcome = Some(outcome.clone());
            }
        }
    }
    let claim = match &pipe.claim {
        Some(claim) => Some(claim.clone()),
        None => Some(live),
    };
    let attempted = pipe.attempted || result_outcome.is_some();
    IngestOutcome {
        coverage,
        claim,
        delivery_id,
        delivery_attempted: attempted,
        result_outcome,
        waiter_attached: true,
    }
}

/// Delivers a claim over a link, under a given delivery id.
pub fn deliver_claimed_with<I: DeliveryIo>(
    live: SignalClaim,
    link: Option<&AdmittedLink>,
    pipe: &mut DaemonPipe,
    now: Timestamp,
    io: &mut I,
    coverage: DaemonCoverage,
    delivery_id: String,
) -> (outcome: IngestOutcome)
    ensures
        exists|exchange: LinkExchange|
            (final(pipe)@, outcome@) == #[trigger] old(pipe)@.deliver(
                live@,
                link_model(link),
                now,
                coverage@,
                delivery_id@,
                Some(exchange),
            ) && used_for(
                *old(io),
                old(pipe)@.written(live@, link_model(link), now, delivery_id@),
                exchange,
                *final(io),
            ),
{
    let ghost writer = *io;
    let ghost before = pipe@;
    let ghost id = delivery_id@;
    match offer_claimed(&live, link, pipe, now, true, &coverage, delivery_id) {
        Offer::Done(outcome) => {
            proof {
                let exchange = LinkExchange { sent: false, received: None };
                assert((pipe@, outcome@) == before.deliver(
                    live@,
                    link_model(link),
                    now,
                    coverage@,
                    id,
                    used(true, exchange),
                ));
            }
            outcome
        },
        Offer::Send(message) => {
            let taken = io.send(&message);
            let sent = taken.is_ok();
            assert(I::wrote(writer, message, taken, *io));
            let received = if sent {
                let answer = io.recv_result();
                match answer {
                    Ok(result) => Some(result),
                    Err(_) => None,
                }
            } else {
                None
            };
            let ghost exchange = LinkExchange { sent, received: message_model(received) };
            let outcome = conclude_offer(live, pipe, coverage, &message, sent, received);
            proof {
                let expected = before.deliver(
                    live@,
                    link_model(link),
                    now,
                    coverage@,
                    id,
                    Some(exchange),
                );
                assert(pipe@ =~= expected.0);
                assert(outcome@ == expected.1);
                assert(before.written(live@, link_model(link), now, id) == Some(message@));
                assert(handed_over(writer, message@, exchange, *io));
            }
            outcome
        },
    }
}

/// Inputs for one wait-interval ingest. Wait match is only a hint.
pub struct IngestRequest<'a, D: EventDrain> {
    /// Coverage spec, including the exclusive `--after` baseline.
    pub spec: &'a WaitOnSpec,
    /// Child wait result. `Matched` triggers drain; other results do not.
    pub wait: WaitResult,
    /// Provider drain used after a match.
    pub drain: &'a D,
    /// Arm currently covered.
    pub arm: &'a KnownArm,
    /// Live waiter, if any.
    pub link: Option<&'a AdmittedLink>,
    /// Clock for `observed_at` / `attempted_at`.
    pub now: Timestamp,
}

/// The baseline of a spec; empty where it has none.
pub open spec fn baseline(spec: WaitOnSpec) -> Seq<char> {
    match spec.after {
        Some(after) => after@,
        None => ""@,
    }
}

/// What a drain gave.
pub open spec fn drain_model(drained: Result<Vec<DrainedEvent>, DrainError>) -> Result<
    Seq<DrainedEvent>,
    DrainError,
> {
    match drained {
        Ok(events) => Ok(events@),
        Err(error) => Err(error),
    }
}

/// What an ingest with a given drain comes to before the link is used.
pub enum IngestStep {
    Done(IngestOutcome),
    /// The claim that is to be delivered.
    Deliver(SignalClaim),
}

/// Takes in a wait interval and what was drained after it, up to the claim.
pub fn claim_drained(
    spec: &WaitOnSpec,
    wait: WaitResult,
    drained: &Result<Vec<DrainedEvent>, DrainError>,
    arm: &KnownArm,
    attached: bool,
    now: Timestamp,
    pipe: &mut DaemonPipe,
    mint_signal: String,
) -> (step: IngestStep)
    ensures
        match step {
            IngestStep::Done(outcome) => {
                &&& forall|
                    link: Option<AdmittedModel>,
                    delivery_id: Seq<char>,
                    exchange: Option<LinkExchange>,
                |
                    (link is Some) == attached ==> (final(pipe)@, outcome@) == #[trigger] old(
                        pipe,
                    )@.ingest(
                        baseline(*spec),
                        wait,
                        drain_model(*drained),
                        arm@,
                        link,
                        now,
                        mint_signal@,
                        delivery_id,
                        exchange,
                    )
                &&& forall|link: Option<AdmittedModel>, delivery_id: Seq<char>|
                    (#[trigger] old(pipe)@.ingest_written(
                        wait,
                        drain_model(*drained),
                        arm@,
                        link,
                        now,
                        mint_signal@,
                        delivery_id,
                    )) is None
            },
            IngestStep::Deliver(live) => {
                &&& forall|
                    link: Option<AdmittedModel>,
                    delivery_id: Seq<char>,
                    exchange: Option<LinkExchange>,
                | #[trigger]
                    old(pipe)@.ingest(
                        baseline(*spec),
                        wait,
                        drain_model(*drained),
                        arm@,
                        link,
                        now,
                        mint_signal@,
                        delivery_id,
                        exchange,
                    ) == final(pipe)@.deliver(
                        live@,
                        link,
                        now,
                        CoverageModel::Pause,
                        delivery_id,
                        exchange,
                    )
                &&& forall|link: Option<AdmittedModel>, delivery_id: Seq<char>| #[trigger]
                    old(pipe)@.ingest_written(
                        wait,
                        drain_model(*drained),
                        arm@,
                        link,
                        now,
                        mint_signal@,
                        delivery_id,
                    ) == final(pipe)@.written(live@, link, now, delivery_id)
            },
        },
{
    if wait != WaitResult::Matched {
        let after = match &spec.after {
            Some(after) => after.as_str(),
            None => "",
        };
        return IngestStep::Done(pipe.snapshot(daemon_coverage(wait, after), attached));
    }
    let events = match drained {
        Ok(events) => if events.len() == 0 {
            return IngestStep::Done(pipe.snapshot(DaemonCoverage::Halt { exit: 2 }, attached));
        } else {
            provider_events_from_drain(events, stamp(now).as_str())
        },
        Err(_) => {
            return IngestStep::Done(pipe.snapshot(DaemonCoverage::Halt { exit: 2 }, attached));
        },
    };
    match claim_or_reuse(&mut pipe.claim, arm, &events, mint_signal) {
        Ok(live) => IngestStep::Deliver(live),
        Err(ClaimError::OccupiedDifferent) => IngestStep::Done(
            pipe.snapshot(DaemonCoverage::Pause, attached),
        ),
    }
}

/// What an optional link says.
pub open spec fn link_model(link: Option<&AdmittedLink>) -> Option<AdmittedModel> {
    match link {
        Some(link) => Some(link@),
        None => None,
    }
}

/// Drain from the exclusive wait baseline, claim once, optionally deliver.
///
/// A wait match is only a hint: events always come from the drain. The writer,
/// where there is one, gets the batch and no other message.
pub fn ingest_match<D: EventDrain, I: DeliveryIo>(
    request: &IngestRequest<D>,
    pipe: &mut DaemonPipe,
    io: Option<&mut I>,
    mint_signal: String,
) -> (outcome: IngestOutcome)
    ensures
        exists|
            drained: Result<Vec<DrainedEvent>, DrainError>,
            delivery_id: Seq<char>,
            exchange: LinkExchange,
        |
            {
                &&& (final(pipe)@, outcome@) == #[trigger] old(pipe)@.ingest(
                    baseline(*request.spec),
                    request.wait,
                    drain_model(drained),
                    request.arm@,
                    link_model(request.link),
                    request.now,
                    mint_signal@,
                    delivery_id,
                    used(io is Some, exchange),
                )
                &&& request.wait == WaitResult::Matched ==> call_ensures(
                    D::drain_after,
                    (request.drain, request.spec),
                    drained,
                )
                &&& protocol::minted(delivery_id)
                &&& io matches Some(writer) ==> used_for(
                    *writer,
                    old(pipe)@.ingest_written(
                        request.wait,
                        drain_model(drained),
                        request.arm@,
                        link_model(request.link),
                        request.now,
                        mint_signal@,
                        delivery_id,
                    ),
                    exchange,
                    *final(writer),
                )
            },
{
    let drained = if request.wait == WaitResult::Matched {
        request.drain.drain_after(request.spec)
    } else {
        Err(DrainError::Empty)
    };
    let ghost before = pipe@;
    let ghost signal = mint_signal@;
    let delivery_id = mint_ulid();
    let ghost id = delivery_id@;
    let step = claim_drained(
        request.spec,
        request.wait,
        &drained,
        request.arm,
        request.link.is_some(),
        request.now,
        pipe,
        mint_signal,
    );
    let ghost quiet = LinkExchange { sent: false, received: None };
    let ghost exchanged: LinkExchange;
    let linked = io.is_some();
    let outcome = match step {
        IngestStep::Done(outcome) => {
            proof {
                exchanged = quiet;
            }
            outcome
        },
        IngestStep::Deliver(live) => {
            let ghost claiming = pipe@;
            match io {
                Some(io) => {
                    let ghost writer = *io;
                    let outcome = deliver_claimed_with(
                        live,
                        request.link,
                        pipe,
                        request.now,
                        io,
                        DaemonCoverage::Pause,
                        delivery_id,
                    );
                    proof {
                        exchanged =
                        choose|exchange: LinkExchange|
                            (pipe@, outcome@) == #[trigger] claiming.deliver(
                                live@,
                                link_model(request.link),
                                request.now,
                                CoverageModel::Pause,
                                id,
                                Some(exchange),
                            ) && used_for(
                                writer,
                                claiming.written(live@, link_model(request.link), request.now, id),
                                exchange,
                                *io,
                            );
                    }
                    outcome
                },
                None => {
                    let pause = DaemonCoverage::Pause;
                    let offer = offer_claimed(
                        &live,
                        request.link,
                        pipe,
                        request.now,
                        false,
                        &pause,
                        delivery_id,
                    );
                    proof {
                        exchanged = quiet;
                    }
                    match offer {
                        Offer::Done(outcome) => {
                            proof {
                                assert((pipe@, outcome@) == claiming.deliver(
                                    live@,
                                    link_model(request.link),
                                    request.now,
                                    pause@,
                                    id,
                                    used(false, quiet),
                                ));
                            }
                            outcome
                        },
                        Offer::Send(_) => {
                            assert(false);
                            pipe.snapshot(DaemonCoverage::Pause, true)
                        },
                    }
                },
            }
        },
    };
    proof {
        assert((pipe@, outcome@) == before.ingest(
            baseline(*request.spec),
            request.wait,
            drain_model(drained),
            request.arm@,
            link_model(request.link),
            request.now,
            signal,
            id,
            used(linked, exchanged),
        ));
    }
    outcome
}

/// True when `session` is the live table session and no writer is already held.
pub fn retain_live_attach(
    session: Option<&LinkSession>,
    table: &LinkTable,
    writer_occupied: bool,
) -> (retain: bool)
    ensures
        retain == (!writer_occupied && session is Some && table@ is Some && admission::session_of(
            table@->0,
        ) == session->0@),
{
    if writer_occupied {
        return false;
    }
    let session = match session {
        Some(session) => session,
        None => return false,
    };
    match table.current() {
        Some(current) => same_text(current.link_id.as_str(), session.link_id.as_str())
            && same_text(current.arm_id.as_str(), session.arm_id.as_str()) && current.generation
            == session.generation,
        None => false,
    }
}

/// What an optional session says.
pub open spec fn session_model(session: Option<&LinkSession>) -> Option<SessionModel> {
    match session {
        Some(session) => Some(session@),
        None => None,
    }
}

/// The table without a session, where there is one.
pub open spec fn without(
    table: Option<AdmittedModel>,
    session: Option<SessionModel>,
) -> Option<AdmittedModel> {
    match session {
        Some(session) => admission::without_session(table, session),
        None => table,
    }
}

/// Mark the current attempt lost without consuming the batch, then drop `session`.
pub fn on_transport_loss(
    pipe: &mut DaemonPipe,
    table: &mut LinkTable,
    session: Option<&LinkSession>,
    now: Timestamp,
)
    ensures
        final(pipe)@ == old(pipe)@.lost(),
        final(table)@ == without(old(table)@, session_model(session)),
{
    if pipe.attempted {
        let lost = match pipe.ledger.pending() {
            Some(pending) => if pending.result.is_none() {
                match &pending.message {
                    WaiterLink::DeliverEvents {
                        delivery_id,
                        link_id,
                        arm_id: _,
                        generation: _,
                        signal_id,
                        route: _,
                        events: _,
                        newest_event_ref: _,
                        attempted_at: _,
                    } => Some(
                        WaiterLink::DeliveryResult {
                            delivery_id: delivery_id.clone(),
                            link_id: link_id.clone(),
                            signal_id: signal_id.clone(),
                            outcome: "link_lost".to_owned(),
                            observed_at: stamp(now),
                        },
                    ),
                    _ => None,
                }
            } else {
                None
            },
            None => None,
        };
        if let Some(lost) = &lost {
            let _ = record_delivery_result(&mut pipe.ledger, lost);
        }
    }
    pipe.attempted = false;
    if let Some(session) = session {
        drop_session(table, session);
    }
}

/// True when `now` is at or past the admitted lease.
pub fn lease_expired(lease_until: Timestamp, now: Timestamp) -> (expired: bool)
    ensures
        expired == (now.nanos >= lease_until.nanos),
{
    now.nanos >= lease_until.nanos
}

/// How long a read may wait: what is left of the lease in whole milliseconds,
/// at least one and at most fifty.
pub open spec fn poll_millis(lease_until: Timestamp, now: Timestamp) -> int {
    let left = (lease_until.nanos - now.nanos) / 1_000_000;
    if left < 1 {
        1
    } else if left > 50 {
        50
    } else {
        left
    }
}

/// How long a read may wait before the lease is looked at again.
pub fn poll_timeout(lease_until: Timestamp, now: Timestamp) -> (timeout: Option<Span>)
    requires
        lease_until.in_range(),
        now.in_range(),
    ensures
        match timeout {
            Some(span) => now.nanos < lease_until.nanos && span.nanos == poll_millis(
                lease_until,
                now,
            ) * 1_000_000,
            None => now.nanos >= lease_until.nanos,
        },
{
    if lease_expired(lease_until, now) {
        return None;
    }
    let left: i128 = (lease_until.nanos - now.nanos) / 1_000_000;
    let millis: u64 = if left < 1 {
        1
    } else if left > 50 {
        50
    } else {
        left as u64
    };
    Some(Span::from_millis(millis))
}

/// Before a result is read: whether the session is given up, and how long the
/// read may wait.
pub enum PollPlan {
    Revoke,
    Read(Option<Span>),
}

/// Plans the read of a waiter's result. A session that no longer owns the link,
/// or whose lease is over, is given up.
pub fn plan_poll(session: Option<&LinkSession>, table: &LinkTable, now: Timestamp) -> (plan:
    PollPlan)
    requires
        now.in_range(),
        table@ matches Some(link) ==> link.lease_until.in_range(),
    ensures
        match plan {
            PollPlan::Revoke => session is Some && !(table@ is Some && admission::session_of(
                table@->0,
            ) == session->0@ && now.nanos < table@->0.lease_until.nanos),
            PollPlan::Read(None) => session is None,
            PollPlan::Read(Some(span)) => session is Some && table@ is Some
                && admission::session_of(table@->0) == session->0@ && now.nanos
                < table@->0.lease_until.nanos && span.nanos == poll_millis(
                table@->0.lease_until,
                now,
            ) * 1_000_000,
        },
{
    let session = match session {
        Some(session) => session,
        None => return PollPlan::Read(None),
    };
    if !retain_live_attach(Some(session), table, false) {
        return PollPlan::Revoke;
    }
    match table.current() {
        Some(link) => match poll_timeout(link.lease_until, now) {
            Some(span) => PollPlan::Read(Some(span)),
            None => PollPlan::Revoke,
        },
        None => PollPlan::Revoke,
    }
}

/// What reading a waiter's result gave.
pub enum PollRead {
    Message(WaiterLink),
    Idle,
    Failed,
}

/// What becomes of the session after a read.
#[derive(Clone, Copy, Debug, PartialEq, Eq, Structural)]
pub enum PollVerdict {
    Keep,
    /// The link is lost: the batch stays pending.
    RevokeLost,
    /// The waiter has returned: the session is over.
    RevokeDone,
}

/// What a read result makes of the session.
pub open spec fn poll_verdict(read: PollRead) -> PollVerdict {
    match read {
        PollRead::Message(message) => match message@ {
            LinkModel::DeliveryResult { outcome, .. } => if outcome == "link_lost"@ {
                PollVerdict::RevokeLost
            } else if outcome == "return_completed"@ || outcome == "return_failed"@ {
                PollVerdict::RevokeDone
            } else {
                PollVerdict::Keep
            },
            _ => PollVerdict::Keep,
        },
        PollRead::Idle => PollVerdict::Keep,
        PollRead::Failed => PollVerdict::RevokeLost,
    }
}

/// Takes a read result into the pipe.
pub fn poll_result(pipe: &mut DaemonPipe, read: &PollRead) -> (verdict: PollVerdict)
    ensures
        verdict == poll_verdict(*read),
        final(pipe)@.claim == old(pipe)@.claim,
        final(pipe)@.ledger == match read {
            PollRead::Message(message) => delivery::recorded(old(pipe)@.ledger, message@).0,
            _ => old(pipe)@.ledger,
        },
        final(pipe)@.attempted == (old(pipe)@.attempted && !(read is Message
            && poll_verdict(*read) == PollVerdict::RevokeLost)),
{
    match read {
        PollRead::Message(message) => {
            let _ = record_delivery_result(&mut pipe.ledger, message);
            match message {
                WaiterLink::DeliveryResult {
                    delivery_id: _,
                    link_id: _,
                    signal_id: _,
                    outcome,
                    observed_at: _,
                } => {
                    if same_text(outcome.as_str(), "link_lost") {
                        pipe.attempted = false;
                        PollVerdict::RevokeLost
                    } else if same_text(outcome.as_str(), "return_completed") || same_text(
                        outcome.as_str(),
                        "return_failed",
                    ) {
                        PollVerdict::RevokeDone
                    } else {
                        PollVerdict::Keep
                    }
                },
                _ => PollVerdict::Keep,
            }
        },
        PollRead::Idle => PollVerdict::Keep,
        PollRead::Failed => PollVerdict::RevokeLost,
    }
}

/// Gives a session up, with its attempt where it is lost.
pub fn revoke_exact(
    pipe: &mut DaemonPipe,
    table: &mut LinkTable,
    session: Option<&LinkSession>,
    now: Timestamp,
    mark_lost: bool,
)
    ensures
        final(pipe)@ == if mark_lost {
            old(pipe)@.lost()
        } else {
            old(pipe)@
        },
        final(table)@ == without(old(table)@, session_model(session)),
{
    if mark_lost {
        on_transport_loss(pipe, table, session, now);
    } else if let Some(session) = session {
        drop_session(table, session);
    }
}

/// Delivers the pending claim to a newly attached or idle waiter. The result
/// says whether the session has to be given up.
pub fn flush_attached<I: DeliveryIo>(
    pipe: &mut DaemonPipe,
    table: &LinkTable,
    io: &mut I,
    now: Timestamp,
) -> (revoke: bool)
    ensures
        if (old(pipe)@.ledger matches Some(pending) && pending.result is Some) || old(
            pipe,
        )@.claim is None || table@ is None {
            !revoke && final(pipe)@ == old(pipe)@ && *final(io) == *old(io)
        } else if now.nanos >= table@->0.lease_until.nanos {
            revoke && final(pipe)@ == old(pipe)@ && *final(io) == *old(io)
        } else {
            exists|delivery_id: Seq<char>, exchange: LinkExchange|
                {
                    let (after, outcome) = #[trigger] old(pipe)@.deliver(
                        old(pipe)@.claim->0,
                        table@,
                        now,
                        CoverageModel::Pause,
                        delivery_id,
                        Some(exchange),
                    );
                    &&& protocol::minted(delivery_id)
                    &&& used_for(
                        *old(io),
                        old(pipe)@.written(old(pipe)@.claim->0, table@, now, delivery_id),
                        exchange,
                        *final(io),
                    )
                    &&& final(pipe)@ == after
                    &&& revoke == (outcome.delivery_id is Some && !outcome.delivery_attempted)
                }
        },
{
    let terminal = match pipe.ledger.pending() {
        Some(pending) => pending.result.is_some(),
        None => false,
    };
    if terminal {
        return false;
    }
    let live = match &pipe.claim {
        Some(claim) => claim.clone(),
        None => return false,
    };
    let link = match table.current() {
        Some(link) => link,
        None => return false,
    };
    if lease_expired(link.lease_until, now) {
        return true;
    }
    let ghost before = pipe@;
    let ghost writer = *io;
    let delivery_id = mint_ulid();
    let ghost id = delivery_id@;
    let outcome = deliver_claimed_with(
        live,
        Some(link),
        pipe,
        now,
        io,
        DaemonCoverage::Pause,
        delivery_id,
    );
    proof {
        assert(table@ == Some(link@));
        let exchange = choose|exchange: LinkExchange|
            (pipe@, outcome@) == #[trigger] before.deliver(
                live@,
                Some(link@),
                now,
                CoverageModel::Pause,
                id,
                Some(exchange),
            ) && used_for(writer, before.written(live@, Some(link@), now, id), exchange, *io);
        assert((pipe@, outcome@) == before.deliver(
            before.claim->0,
            table@,
            now,
            CoverageModel::Pause,
            id,
            Some(exchange),
        ));
    }
    outcome.delivery_id.is_some() && !outcome.delivery_attempted
}

/// What the daemon's loop has learnt.
pub enum DaemonEvent {
    /// A turn of the loop begins.
    Tick,
    /// No more waiters can be accepted.
    AcceptLost,
    /// The provider wait could not be started.
    SpawnFailed,
    /// The provider wait could not be waited for.
    ChildFailed,
    /// The provider wait is still running.
    ChildRunning,
    /// The provider wait ended and was taken in.
    Ingested(DaemonCoverage),
}

/// What the daemon's loop does next.
pub enum DaemonAction {
    Continue,
    /// Start the provider wait again, after this cursor.
    Respawn(String),
    /// Offer the claim to the attached waiter.
    Flush,
    /// Shut down with this exit.
    Halt(i32),
}

/// What a [`DaemonAction`] says.
pub enum ActionModel {
    Continue,
    Respawn(Seq<char>),
    Flush,
    Halt(i32),
}

impl View for DaemonAction {
    type V = ActionModel;

    open spec fn view(&self) -> ActionModel {
        match self {
            DaemonAction::Continue => ActionModel::Continue,
            DaemonAction::Respawn(after) => ActionModel::Respawn(after@),
            DaemonAction::Flush => ActionModel::Flush,
            DaemonAction::Halt(exit) => ActionModel::Halt(*exit),
        }
    }
}

/// The next action of the loop. Coverage that has ended halts it whatever else
/// it learns at a tick.
pub open spec fn next_action(
    event: DaemonEvent,
    now: Timestamp,
    coverage_until: Timestamp,
) -> ActionModel {
    match event {
        DaemonEvent::Tick => if now.nanos >= coverage_until.nanos {
            ActionModel::Halt(1)
        } else {
            ActionModel::Continue
        },
        DaemonEvent::AcceptLost => ActionModel::Halt(2),
        DaemonEvent::SpawnFailed => ActionModel::Halt(2),
        DaemonEvent::ChildFailed => ActionModel::Halt(2),
        DaemonEvent::ChildRunning => ActionModel::Continue,
        DaemonEvent::Ingested(coverage) => match coverage@ {
            CoverageModel::Rearm { after } => ActionModel::Respawn(after),
            CoverageModel::Pause => ActionModel::Flush,
            CoverageModel::Halt { exit } => ActionModel::Halt(exit),
        },
    }
}

/// One decision of the daemon's loop.
pub fn daemon_step(event: DaemonEvent, now: Timestamp, coverage_until: Timestamp) -> (action:
    DaemonAction)
    ensures
        action@ == next_action(event, now, coverage_until),
{
    match event {
        DaemonEvent::Tick => if now.nanos >= coverage_until.nanos {
            DaemonAction::Halt(1)
        } else {
            DaemonAction::Continue
        },
        DaemonEvent::AcceptLost => DaemonAction::Halt(2),
        DaemonEvent::SpawnFailed => DaemonAction::Halt(2),
        DaemonEvent::ChildFailed => DaemonAction::Halt(2),
        DaemonEvent::ChildRunning => DaemonAction::Continue,
        DaemonEvent::Ingested(coverage) => match coverage {
            DaemonCoverage::Rearm { after } => DaemonAction::Respawn(after),
            DaemonCoverage::Pause => DaemonAction::Flush,
            DaemonCoverage::Halt { exit } => DaemonAction::Halt(exit),
        },
    }
}

/// What is done with a waiter that has attached.
#[derive(Clone, Copy, Debug, PartialEq, Eq, Structural)]
pub enum AttachedStep {
    /// Another writer is held, or the session is not the live one.
    Ignore,
    Revoke,
    Flush,
}

/// Decides on a waiter that has attached. `timeout_set` says whether its read
/// timeout could be set.
pub fn attached_step(
    session: Option<&LinkSession>,
    table: &LinkTable,
    writer_occupied: bool,
    timeout_set: bool,
    now: Timestamp,
) -> (step: AttachedStep)
    ensures
        step == if writer_occupied || session is None || table@ is None || admission::session_of(
            table@->0,
        ) != session->0@ {
            AttachedStep::Ignore
        } else if !timeout_set || now.nanos >= table@->0.lease_until.nanos {
            AttachedStep::Revoke
        } else {
            AttachedStep::Flush
        },
{
    if !retain_live_attach(session, table, writer_occupied) {
        return AttachedStep::Ignore;
    }
    match table.current() {
        Some(link) => if !timeout_set || lease_expired(link.lease_until, now) {
            AttachedStep::Revoke
        } else {
            AttachedStep::Flush
        },
        None => AttachedStep::Ignore,
    }
}

/// Report from tearing down coverage, the child, and the session.
#[derive(Clone, Copy, Debug, PartialEq, Eq, Structural)]
pub struct ShutdownReport {
    /// Child was killed/reaped or the slot was already empty.
    pub child_reaped: bool,
    /// Live waiter link after drop.
    pub link_live: bool,
}

/// Drops the live session and reports on the shutdown of the child beside it.
pub fn shutdown_daemon(table: &mut LinkTable, reaped: bool, occupied: bool) -> (report:
    ShutdownReport)
    ensures
        final(table)@ is None,
        report == (ShutdownReport { child_reaped: reaped || !occupied, link_live: false }),
{
    table.drop_current();
    ShutdownReport { child_reaped: reaped || !occupied, link_live: table.current().is_some() }
}

/// The exit of a halt: that of the halt where the child could be reaped.
pub fn halt_exit(child_failed: bool, code: i32) -> (exit: i32)
    ensures
        exit == if child_failed {
            2
        } else {
            code
        },
{
    if child_failed {
        2
    } else {
        code
    }
}

/// A byte of a seat token after the first.
pub open spec fn seat_byte(byte: u8) -> bool {
    97 <= byte <= 122 || 48 <= byte <= 57 || byte == 45
}

/// A role that can be a seat token: one to sixty-three bytes of lower-case
/// letters, digits and hyphens, the first a letter.
pub open spec fn seat_role(role: Seq<char>) -> bool {
    let bytes = encode_utf8(role);
    &&& 1 <= bytes.len() <= 63
    &&& 97 <= bytes[0] <= 122
    &&& forall|i: int| 0 <= i < bytes.len() ==> seat_byte(#[trigger] bytes[i])
}

/// The seat of a role, or the default seat.
pub fn seat_id(declared: Option<&str>) -> (seat: String)
    ensures
        seat@ == if declared is Some && seat_role(declared->0@) {
            declared->0@
        } else {
            "gearwit-seat"@
        },
{
    let role = match declared {
        Some(role) => role,
        None => return "gearwit-seat".to_owned(),
    };
    let bytes = role.as_bytes();
    if bytes.len() < 1 || bytes.len() > 63 || !(97 <= bytes[0] && bytes[0] <= 122) {
        return "gearwit-seat".to_owned();
    }
    let mut i: usize = 0;
    while i < bytes.len()
        invariant
            i <= bytes@.len(),
            declared == Some(role),
            bytes@ == encode_utf8(role@),
            forall|j: int| 0 <= j < i ==> seat_byte(#[trigger] bytes@[j]),
        decreases bytes.len() - i,
    {
        let byte = bytes[i];
        if !((97 <= byte && byte <= 122) || (48 <= byte && byte <= 57) || byte == 45) {
            assert(!seat_byte(bytes@[i as int]));
            return "gearwit-seat".to_owned();
        }
        i += 1;
    }
    role.to_owned()
}

/// A claimed batch is never displaced: whatever an interval brings, the claim
/// that was live stays the claim.
pub proof fn live_claim_stays(
    pipe: PipeModel,
    after: Seq<char>,
    wait: WaitResult,
    drained: Result<Seq<DrainedEvent>, DrainError>,
    arm: ArmModel,
    link: Option<AdmittedModel>,
    now: Timestamp,
    mint_signal: Seq<char>,
    delivery_id: Seq<char>,
    exchange: Option<LinkExchange>,
)
    requires
        pipe.claim is Some,
    ensures
        pipe.ingest(
            after,
            wait,
            drained,
            arm,
            link,
            now,
            mint_signal,
            delivery_id,
            exchange,
        ).0.claim == pipe.claim,
{
}

/// Without a match nothing is drained, claimed or delivered.
pub proof fn only_a_match_ingests(
    pipe: PipeModel,
    after: Seq<char>,
    wait: WaitResult,
    drained: Result<Seq<DrainedEvent>, DrainError>,
    arm: ArmModel,
    link: Option<AdmittedModel>,
    now: Timestamp,
    mint_signal: Seq<char>,
    delivery_id: Seq<char>,
    exchange: Option<LinkExchange>,
)
    requires
        wait != WaitResult::Matched,
    ensures
        pipe.ingest(
            after,
            wait,
            drained,
            arm,
            link,
            now,
            mint_signal,
            delivery_id,
            exchange,
        ).0 == pipe,
{
}

/// A live claim pauses provider coverage: while a batch is claimed and
/// unhandled, a match never rearms it.
pub proof fn claimed_batch_pauses_coverage(
    pipe: PipeModel,
    after: Seq<char>,
    drained: Result<Seq<DrainedEvent>, DrainError>,
    arm: ArmModel,
    link: Option<AdmittedModel>,
    now: Timestamp,
    mint_signal: Seq<char>,
    delivery_id: Seq<char>,
    exchange: Option<LinkExchange>,
)
    ensures
        !(pipe.ingest(
            after,
            WaitResult::Matched,
            drained,
            arm,
            link,
            now,
            mint_signal,
            delivery_id,
            exchange,
        ).1.coverage is Rearm),
{
}

/// A batch is claimed once for an arm and generation: the same events again
/// give the same claim, whatever id would be minted.
pub proof fn claim_is_made_once(
    current: Option<SignalModel>,
    arm: ArmModel,
    events: Seq<EventModel>,
    mint_id: Seq<char>,
    other_id: Seq<char>,
)
    requires
        claimed(current, arm, events, mint_id).1 is Ok,
    ensures
        ({
            let (after, first) = claimed(current, arm, events, mint_id);
            claimed(after, arm, events, other_id) == (after, first)
        }),
{
}

/// A lost transport consumes nothing: claim and batch stay, and the batch is
/// written again to the next waiter.
pub proof fn lost_transport_keeps_the_batch(pipe: PipeModel)
    ensures
        pipe.lost().claim == pipe.claim,
        pipe.lost().ledger == pipe.ledger,
        !pipe.lost().attempted,
{
}

} // verus!
