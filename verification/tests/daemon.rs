//! Daemon coverage and delivery.

use gearwit::admission::{admit_attach, AdmittedLink, KnownArm, LinkSession, LinkTable};
use gearwit::daemon::{
    claim_or_reuse, ingest_match, lease_expired, on_transport_loss, provider_events_from_drain,
    ClaimError, DaemonCoverage, DaemonPipe, DeliveryIo, DrainError, DrainedEvent, EventDrain,
    IngestOutcome, IngestRequest,
};
use gearwit::protocol::{ProviderEvent, WaiterLink};
use gearwit::timestamp::Timestamp;
use gearwit::wait_on::{WaitOnSpec, WaitResult};
use std::sync::Mutex;
use time::format_description::well_known::Rfc3339;
use time::OffsetDateTime;

fn now() -> Timestamp {
    let at = OffsetDateTime::parse("2026-01-15T12:05:00Z", &Rfc3339).expect("now");
    Timestamp {
        nanos: at.unix_timestamp_nanos(),
    }
}

fn arm() -> KnownArm {
    KnownArm {
        arm_id: "01J00000000000000000000010".to_owned(),
        generation: 1,
        seat_id: "example-devrev".to_owned(),
        route: "complete_background_tool".to_owned(),
        coverage_until: now().plus(20 * 60 * 1_000_000_000),
    }
}

fn spec() -> WaitOnSpec {
    WaitOnSpec {
        channel: "gearwit-e2e".to_owned(),
        after: Some("cursor1".to_owned()),
        timeout: "20m".to_owned(),
        team: Some("org-lanytehq".to_owned()),
    }
}

fn event(id: &str, body: &str) -> DrainedEvent {
    DrainedEvent {
        id: id.to_owned(),
        username: "peer".to_owned(),
        message: body.to_owned(),
    }
}

fn fixture_attach() -> WaiterLink {
    WaiterLink::AttachWaiter {
        request_id: "01J00000000000000000000040".to_owned(),
        waiter_id: "01J00000000000000000000041".to_owned(),
        arm_id: "01J00000000000000000000010".to_owned(),
        generation: 1,
        seat_id: "example-devrev".to_owned(),
        route: "complete_background_tool".to_owned(),
        observed_at: "2026-01-15T12:04:59Z".to_owned(),
    }
}

fn admitted() -> (LinkTable, AdmittedLink) {
    let instant = now();
    let mut table = LinkTable::default();
    admit_attach(&mut table, fixture_attach(), instant, &[arm()]).expect("admit");
    let link = table.current().expect("link").clone();
    (table, link)
}

struct FixedDrain {
    after: Mutex<Option<String>>,
    result: Result<Vec<DrainedEvent>, DrainError>,
}

impl EventDrain for FixedDrain {
    fn drain_after(&self, spec: &WaitOnSpec) -> Result<Vec<DrainedEvent>, DrainError> {
        *self.after.lock().expect("drain after") = spec.after.clone();
        self.result.clone()
    }
}

struct ScriptedIo {
    fail_send: bool,
    sent: Option<WaiterLink>,
    complete: bool,
}

impl DeliveryIo for ScriptedIo {
    fn wrote(
        _before: Self,
        _message: WaiterLink,
        _result: Result<(), &'static str>,
        _after: Self,
    ) -> bool {
        true
    }

    fn answered(
        _before: Self,
        _result: Result<WaiterLink, &'static str>,
        _after: Self,
    ) -> bool {
        true
    }

    fn send(&mut self, message: &WaiterLink) -> Result<(), &'static str> {
        if self.fail_send {
            return Err("write");
        }
        self.sent = Some(message.clone());
        Ok(())
    }

    fn recv_result(&mut self) -> Result<WaiterLink, &'static str> {
        let WaiterLink::DeliverEvents {
            delivery_id,
            link_id,
            signal_id,
            ..
        } = self.sent.as_ref().ok_or("no send")?
        else {
            return Err("type");
        };
        if !self.complete {
            return Err("disconnected");
        }
        Ok(WaiterLink::DeliveryResult {
            delivery_id: delivery_id.clone(),
            link_id: link_id.clone(),
            signal_id: signal_id.clone(),
            outcome: "return_completed".to_owned(),
            observed_at: "2026-01-15T12:05:03Z".to_owned(),
        })
    }
}

fn provider(id: &str) -> ProviderEvent {
    ProviderEvent {
        provider: "mattermost".to_owned(),
        event_ref: id.to_owned(),
        actor: Some("peer".to_owned()),
        observed_at: "2026-01-15T12:05:00Z".to_owned(),
        body: "body".to_owned(),
    }
}

fn ingest(
    wait: WaitResult,
    drain: &FixedDrain,
    link: Option<&AdmittedLink>,
    pipe: &mut DaemonPipe,
    io: Option<&mut ScriptedIo>,
    mint: &str,
) -> IngestOutcome {
    ingest_match(
        &IngestRequest {
            spec: &spec(),
            wait,
            drain,
            arm: &arm(),
            link,
            now: now(),
        },
        pipe,
        io,
        mint.to_owned(),
    )
}

#[test]
fn drain_maps_oldest_first_bodies() {
    let events = vec![
        event("post02", "first bounded event"),
        DrainedEvent {
            id: "post03".to_owned(),
            username: String::new(),
            message: "second bounded event".to_owned(),
        },
    ];
    let mapped = provider_events_from_drain(&events, "2026-01-15T12:05:00Z");
    assert_eq!(mapped[0].event_ref, "post02");
    assert_eq!(mapped[0].body, "first bounded event");
    assert_eq!(mapped[1].event_ref, "post03");
    assert!(mapped[1].actor.is_none());
}

#[test]
fn wait_match_is_hint_drain_uses_exclusive_baseline() {
    let drain = FixedDrain {
        after: Mutex::new(None),
        result: Ok(vec![event("post02", "one"), event("post03", "two")]),
    };
    let mut pipe = DaemonPipe::default();
    let outcome = ingest(
        WaitResult::Matched,
        &drain,
        None,
        &mut pipe,
        None,
        "01J00000000000000000000021",
    );
    assert_eq!(
        drain.after.lock().expect("after").as_deref(),
        Some("cursor1")
    );
    assert_eq!(
        pipe.claim.as_ref().map(|claim| claim.event_refs.clone()),
        Some(vec!["post02".to_owned(), "post03".to_owned()])
    );
    assert!(!outcome.delivery_attempted);
    assert!(outcome.delivery_id.is_none());
    assert!(!outcome.waiter_attached);
    assert_eq!(outcome.coverage, DaemonCoverage::Pause);
}

#[test]
fn no_waiter_keeps_claimed_batch_pending() {
    let drain = FixedDrain {
        after: Mutex::new(None),
        result: Ok(vec![event("post02", "one")]),
    };
    let mut pipe = DaemonPipe::default();
    let outcome = ingest(
        WaitResult::Matched,
        &drain,
        None,
        &mut pipe,
        None,
        "01J00000000000000000000021",
    );
    assert!(pipe.claim.is_some());
    assert!(pipe.ledger.pending().is_none());
    assert!(!outcome.delivery_attempted);
    assert_eq!(
        pipe.claim.as_ref().map(|c| c.signal_id.as_str()),
        Some("01J00000000000000000000021")
    );
    let same = pipe.claim.as_ref().expect("claim").events.clone();
    let again = claim_or_reuse(
        &mut pipe.claim,
        &arm(),
        &same,
        "01J00000000000000000000099".to_owned(),
    )
    .expect("reuse");
    assert_eq!(again.signal_id, "01J00000000000000000000021");
    assert!(matches!(
        claim_or_reuse(
            &mut pipe.claim,
            &arm(),
            &vec![provider("post02")],
            "01J00000000000000000000098".to_owned(),
        ),
        Err(ClaimError::OccupiedDifferent)
    ));
}

#[test]
fn write_failure_leaves_same_delivery_pending() {
    let (_table, link) = admitted();
    let drain = FixedDrain {
        after: Mutex::new(None),
        result: Ok(vec![event("post02", "one")]),
    };
    let mut pipe = DaemonPipe::default();
    let mut io = ScriptedIo {
        fail_send: true,
        sent: None,
        complete: false,
    };
    let first = ingest(
        WaitResult::Matched,
        &drain,
        Some(&link),
        &mut pipe,
        Some(&mut io),
        "01J00000000000000000000021",
    );
    let id = first.delivery_id.clone().expect("id");
    assert!(!first.delivery_attempted);
    assert!(pipe.ledger.should_redeliver());
    assert!(matches!(
        pipe.ledger.pending().map(|pending| &pending.result),
        Some(None)
    ));
    io.fail_send = false;
    io.complete = false;
    let second = ingest(
        WaitResult::Matched,
        &drain,
        Some(&link),
        &mut pipe,
        Some(&mut io),
        "01J00000000000000000000099",
    );
    assert_eq!(second.delivery_id.as_deref(), Some(id.as_str()));
    assert!(second.delivery_attempted);
    assert!(second.result_outcome.is_none());
    assert!(pipe.ledger.should_redeliver());
}

#[test]
fn successful_write_is_attempted_result_does_not_start_turn() {
    let (_table, link) = admitted();
    let drain = FixedDrain {
        after: Mutex::new(None),
        result: Ok(vec![event("post02", "one")]),
    };
    let mut pipe = DaemonPipe::default();
    let mut io = ScriptedIo {
        fail_send: false,
        sent: None,
        complete: true,
    };
    let outcome = ingest(
        WaitResult::Matched,
        &drain,
        Some(&link),
        &mut pipe,
        Some(&mut io),
        "01J00000000000000000000021",
    );
    assert!(outcome.delivery_attempted);
    assert_eq!(outcome.result_outcome.as_deref(), Some("return_completed"));
    assert!(!pipe.ledger.should_redeliver());
    assert!(pipe.claim.is_some());
    assert_eq!(outcome.coverage, DaemonCoverage::Pause);
    let sent = io.sent.expect("sent");
    assert!(matches!(sent, WaiterLink::DeliverEvents { .. }));
}

#[test]
fn failed_drain_does_not_claim() {
    let drain = FixedDrain {
        after: Mutex::new(None),
        result: Err(DrainError::Empty),
    };
    let mut pipe = DaemonPipe::default();
    let outcome = ingest(
        WaitResult::Matched,
        &drain,
        None,
        &mut pipe,
        None,
        "01J00000000000000000000021",
    );
    assert!(pipe.claim.is_none());
    assert_eq!(outcome.coverage, DaemonCoverage::Halt { exit: 2 });
}

#[test]
fn timeout_does_not_drain_or_claim() {
    let drain = FixedDrain {
        after: Mutex::new(None),
        result: Ok(vec![event("post02", "one")]),
    };
    let mut pipe = DaemonPipe::default();
    let outcome = ingest(
        WaitResult::Timeout,
        &drain,
        None,
        &mut pipe,
        None,
        "01J00000000000000000000021",
    );
    assert!(drain.after.lock().expect("after").is_none());
    assert!(pipe.claim.is_none());
    assert_eq!(
        outcome.coverage,
        DaemonCoverage::Rearm {
            after: "cursor1".to_owned()
        }
    );
}

fn attach_with(request_id: &str) -> WaiterLink {
    let mut message = fixture_attach();
    if let WaiterLink::AttachWaiter { request_id: id, .. } = &mut message {
        *id = request_id.to_owned();
    }
    message
}

#[test]
fn transport_loss_before_send_keeps_claim() {
    let (mut table, _link) = admitted();
    let drain = FixedDrain {
        after: Mutex::new(None),
        result: Ok(vec![event("post02", "one")]),
    };
    let mut pipe = DaemonPipe::default();
    let _ = ingest(
        WaitResult::Matched,
        &drain,
        None,
        &mut pipe,
        None,
        "01J00000000000000000000021",
    );
    assert!(pipe.claim.is_some());
    assert!(pipe.ledger.pending().is_none());
    let session = LinkSession {
        link_id: table.current().expect("link").link_id.clone(),
        arm_id: table.current().expect("link").arm_id.clone(),
        generation: table.current().expect("link").generation,
    };
    on_transport_loss(&mut pipe, &mut table, Some(&session), now());
    assert!(table.current().is_none());
    assert!(pipe.claim.is_some());
    assert!(!pipe.attempted);
}

#[test]
fn transport_loss_after_send_redelivers_same_id() {
    let (mut table, link) = admitted();
    let drain = FixedDrain {
        after: Mutex::new(None),
        result: Ok(vec![event("post02", "one")]),
    };
    let mut pipe = DaemonPipe::default();
    let mut io = ScriptedIo {
        fail_send: false,
        sent: None,
        complete: false,
    };
    let first = ingest(
        WaitResult::Matched,
        &drain,
        Some(&link),
        &mut pipe,
        Some(&mut io),
        "01J00000000000000000000021",
    );
    let id = first.delivery_id.clone().expect("id");
    assert!(first.delivery_attempted);
    let session = LinkSession {
        link_id: table.current().expect("link").link_id.clone(),
        arm_id: table.current().expect("link").arm_id.clone(),
        generation: table.current().expect("link").generation,
    };
    on_transport_loss(&mut pipe, &mut table, Some(&session), now());
    assert!(table.current().is_none());
    assert!(pipe.ledger.should_redeliver());
    assert!(!pipe.attempted);
    assert_eq!(
        pipe.ledger
            .pending()
            .map(|pending| pending.delivery_id.as_str()),
        Some(id.as_str())
    );
}

#[test]
fn stale_loss_does_not_revoke_successor() {
    let (mut table, first) = admitted();
    let old = LinkSession {
        link_id: first.link_id,
        arm_id: first.arm_id,
        generation: first.generation,
    };
    table.drop_current();
    admit_attach(
        &mut table,
        attach_with("01J00000000000000000000098"),
        now(),
        &[arm()],
    )
    .expect("successor");
    let successor = table.current().expect("live").link_id.clone();
    let mut pipe = DaemonPipe::default();
    on_transport_loss(&mut pipe, &mut table, Some(&old), now());
    assert_eq!(table.current().expect("still live").link_id, successor);
}

#[test]
fn expired_lease_drops_session_and_allows_successor() {
    let (mut table, link) = admitted();
    assert!(!lease_expired(link.lease_until, now()));
    let later = now().plus(11 * 60 * 1_000_000_000);
    assert!(lease_expired(link.lease_until, later));
    let session = LinkSession {
        link_id: link.link_id,
        arm_id: link.arm_id,
        generation: link.generation,
    };
    let mut pipe = DaemonPipe::default();
    on_transport_loss(&mut pipe, &mut table, Some(&session), later);
    assert!(table.current().is_none());
    admit_attach(
        &mut table,
        attach_with("01J00000000000000000000098"),
        later,
        &[arm()],
    )
    .expect("successor after expiry");
    assert!(table.current().is_some());
}

#[test]
fn ingest_outcome_never_implies_turn() {
    let outcome = IngestOutcome {
        coverage: DaemonCoverage::Pause,
        claim: None,
        delivery_id: None,
        delivery_attempted: true,
        result_outcome: Some("return_completed".to_owned()),
        waiter_attached: true,
    };
    assert_ne!(outcome.result_outcome.as_deref(), Some("turn_started"));
}
