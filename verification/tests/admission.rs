//! Attach requests, deliveries and their laws on fixed values.

use gearwit::admission::{
    admit_attach, admit_attach_checked, admit_attach_with, decide_attach_checked,
    decide_attach_with, drop_expired, drop_session, reply_session, AttachDecision, KnownArm, LinkTable, LINK_LEASE,
};
use gearwit::delivery::{
    prepare_delivery, prepare_delivery_checked, prepare_delivery_with, record_delivery_result,
    record_delivery_result_checked, redeliver_pending, redeliver_pending_checked,
    sendable_delivery, DeliveryLedger,
};
use gearwit::protocol::{
    format_time, HandledCursorError, ProviderEvent, WaiterLink, WaiterLinkError,
};
use gearwit::timestamp::{Timestamp, SECOND};
use time::format_description::well_known::Rfc3339;
use time::OffsetDateTime;

fn now() -> Timestamp {
    let at = OffsetDateTime::parse("2026-01-15T12:05:00Z", &Rfc3339).expect("now");
    Timestamp {
        nanos: at.unix_timestamp_nanos(),
    }
}

fn attach() -> WaiterLink {
    attach_as("01J00000000000000000000040")
}

fn attach_as(request_id: &str) -> WaiterLink {
    WaiterLink::AttachWaiter {
        request_id: request_id.to_owned(),
        waiter_id: "01J00000000000000000000041".to_owned(),
        arm_id: "01J00000000000000000000010".to_owned(),
        generation: 1,
        seat_id: "example-devrev".to_owned(),
        route: "complete_background_tool".to_owned(),
        observed_at: "2026-01-15T12:04:59Z".to_owned(),
    }
}

fn arm(now: Timestamp) -> KnownArm {
    KnownArm {
        arm_id: "01J00000000000000000000010".to_owned(),
        generation: 1,
        seat_id: "example-devrev".to_owned(),
        route: "complete_background_tool".to_owned(),
        coverage_until: now.plus(20 * 60 * SECOND),
    }
}

fn code_of(reply: WaiterLink) -> String {
    match reply {
        WaiterLink::AttachRejected { code, .. } => code,
        _ => panic!("rejection"),
    }
}

#[test]
fn unknown_arm_and_stale_generation_fail_closed() {
    let now = now();
    let mut table = LinkTable::default();
    let unknown = admit_attach(&mut table, attach(), now, &[]).expect("unknown");
    assert!(matches!(
        unknown,
        WaiterLink::AttachRejected { code, .. } if code == "unknown_arm"
    ));
    let mut stale = arm(now);
    stale.generation = 2;
    let rejected = admit_attach(&mut table, attach(), now, &[stale]).expect("stale");
    assert!(matches!(
        rejected,
        WaiterLink::AttachRejected { code, .. } if code == "stale_generation"
    ));
}

#[test]
fn first_attach_is_accepted_and_another_is_rejected() {
    let now = now();
    let mut table = LinkTable::default();
    let first = admit_attach(&mut table, attach(), now, &[arm(now)]).expect("admit");
    assert!(matches!(
        first,
        WaiterLink::AttachAccepted { generation: 1, .. }
    ));
    let second = admit_attach(
        &mut table,
        attach_as("01J00000000000000000000042"),
        now,
        &[arm(now)],
    )
    .expect("second");
    assert_eq!(code_of(second), "already_attached");
}

#[test]
fn repeated_request_is_answered_as_before() {
    let now = now();
    let mut table = LinkTable::default();
    let first = admit_attach(&mut table, attach(), now, &[arm(now)]).expect("admit");
    let again = admit_attach(&mut table, attach(), now.plus(SECOND), &[arm(now)]).expect("replay");
    assert!(first == again);
    let live = table.current().expect("link").session();
    assert!(reply_session(&again) == Some(live));
    assert!(reply_session(&attach()).is_none());

    let mut other = attach();
    if let WaiterLink::AttachWaiter { waiter_id, .. } = &mut other {
        *waiter_id = "01J00000000000000000000049".to_owned();
    }
    assert_eq!(
        admit_attach(&mut table, other, now, &[arm(now)]).err(),
        Some(WaiterLinkError::Semantic("request_id conflict"))
    );
}

#[test]
fn reused_request_id_is_a_conflict_whatever_the_body_names() {
    let now = now();
    let mut table = LinkTable::default();
    let first = admit_attach(&mut table, attach(), now, &[arm(now)]).expect("admit");
    let before = table.current().cloned();
    let changes: [fn(&mut WaiterLink); 4] = [
        |message| {
            if let WaiterLink::AttachWaiter { arm_id, .. } = message {
                *arm_id = "01J00000000000000000000077".to_owned();
            }
        },
        |message| {
            if let WaiterLink::AttachWaiter { generation, .. } = message {
                *generation = 7;
            }
        },
        |message| {
            if let WaiterLink::AttachWaiter { seat_id, .. } = message {
                *seat_id = "other-seat".to_owned();
            }
        },
        |message| {
            if let WaiterLink::AttachWaiter { route, .. } = message {
                *route = "other_route".to_owned();
            }
        },
    ];
    for change in changes {
        let mut other = attach();
        change(&mut other);
        assert_eq!(
            admit_attach(&mut table, other, now, &[arm(now)]).err(),
            Some(WaiterLinkError::Semantic("request_id conflict"))
        );
        assert!(table.current() == before.as_ref());
    }
    let again = admit_attach(&mut table, attach(), now, &[]).expect("replay");
    assert!(first == again);
    assert!(table.current() == before.as_ref());
}

#[test]
fn every_other_refusal_has_its_code() {
    let now = now();
    let mut table = LinkTable::default();
    let mut elsewhere = arm(now);
    elsewhere.route = "other_route".to_owned();
    let reply = admit_attach(&mut table, attach(), now, &[elsewhere]).expect("route");
    assert_eq!(code_of(reply), "route_mismatch");

    let mut seated = arm(now);
    seated.seat_id = "other-seat".to_owned();
    let reply = admit_attach(&mut table, attach(), now, &[seated]).expect("seat");
    assert_eq!(code_of(reply), "route_mismatch");

    let mut ended = arm(now);
    ended.coverage_until = now;
    let reply = admit_attach(&mut table, attach(), now, &[ended]).expect("coverage");
    assert_eq!(code_of(reply), "coverage_ended");

    let wrong = WaiterLink::AttachRejected {
        request_id: "r".to_owned(),
        code: "c".to_owned(),
        observed_at: "t".to_owned(),
    };
    assert_eq!(
        admit_attach(&mut table, wrong, now, &[arm(now)]).err(),
        Some(WaiterLinkError::Semantic("expected attach_waiter"))
    );
    assert!(table.current().is_none());
}

#[test]
fn lease_ends_with_the_coverage() {
    let now = now();
    let mut table = LinkTable::default();
    admit_attach(&mut table, attach(), now, &[arm(now)]).expect("admit");
    assert_eq!(
        table.current().expect("link").lease_until,
        now.plus(LINK_LEASE)
    );
    assert_eq!(LINK_LEASE, 600 * SECOND);

    let mut short = arm(now);
    short.coverage_until = now.plus(30 * SECOND);
    let mut table = LinkTable::default();
    let reply = admit_attach(&mut table, attach(), now, &[short]).expect("admit");
    assert!(matches!(
        reply,
        WaiterLink::AttachAccepted { accepted_at, lease_until, .. }
            if accepted_at == "2026-01-15T12:05:00Z" && lease_until == "2026-01-15T12:05:30Z"
    ));

    drop_expired(&mut table, now.plus(30 * SECOND - 1));
    assert!(table.current().is_some());
    drop_expired(&mut table, now.plus(30 * SECOND));
    assert!(table.current().is_none());
}

#[test]
fn stale_session_leaves_its_successor() {
    let now = now();
    let mut table = LinkTable::default();
    admit_attach_with(&mut table, attach(), now, &[arm(now)], "link-a".to_owned()).expect("first");
    let stale = table.current().expect("link").session();
    table.drop_current();
    admit_attach_with(
        &mut table,
        attach_as("01J00000000000000000000042"),
        now,
        &[arm(now)],
        "link-b".to_owned(),
    )
    .expect("second");
    drop_session(&mut table, &stale);
    assert_eq!(table.current().expect("successor").link_id, "link-b");
    let own = table.current().expect("link").session();
    drop_session(&mut table, &own);
    assert!(table.current().is_none());
}

#[test]
fn decision_alone_changes_nothing() {
    let now = now();
    let table = LinkTable::default();
    let decision = decide_attach_with(&table, attach(), now, &[arm(now)], "link-a".to_owned());
    assert!(matches!(
        decision,
        Ok(AttachDecision::Accept { link, .. }) if link.link_id == "link-a"
    ));
    assert!(table.current().is_none());
}

#[test]
fn minted_ids_are_fresh_and_of_one_shape() {
    let now = now();
    let mut seen: Vec<String> = Vec::new();
    for _ in 0..3 {
        let mut table = LinkTable::default();
        admit_attach(&mut table, attach(), now, &[arm(now)]).expect("admit");
        let id = table.current().expect("link").link_id.clone();
        assert_eq!(id.len(), 26);
        assert!(id.chars().all(|c| {
            c.is_ascii_digit() || (c.is_ascii_uppercase() && !matches!(c, 'I' | 'L' | 'O' | 'U'))
        }));
        assert!(!seen.contains(&id));
        seen.push(id);
    }
}

fn event(id: &str) -> ProviderEvent {
    ProviderEvent {
        event_ref: id.to_owned(),
        provider: "chanvoy".to_owned(),
        actor: None,
        body: "hello".to_owned(),
        observed_at: "2026-01-15T12:05:00Z".to_owned(),
    }
}

fn linked(link_id: &str) -> LinkTable {
    let mut table = LinkTable::default();
    admit_attach_with(
        &mut table,
        attach(),
        now(),
        &[arm(now())],
        link_id.to_owned(),
    )
    .expect("admit");
    table
}

fn result(delivery_id: &str, link_id: &str, outcome: &str) -> WaiterLink {
    WaiterLink::DeliveryResult {
        delivery_id: delivery_id.to_owned(),
        link_id: link_id.to_owned(),
        signal_id: "signal-a".to_owned(),
        outcome: outcome.to_owned(),
        observed_at: "2026-01-15T12:05:01Z".to_owned(),
    }
}

#[test]
fn redelivery_changes_link_and_time_only() {
    let first = linked("link-a");
    let link = first.current().expect("link");
    let mut ledger = DeliveryLedger::default();
    let sent = prepare_delivery_with(
        &mut ledger,
        link,
        "signal-a".to_owned(),
        vec![event("e1"), event("e2")],
        now(),
        "delivery-a".to_owned(),
    )
    .expect("prepared");
    assert!(sendable_delivery(&sent).is_ok());
    assert!(matches!(
        &sent,
        WaiterLink::DeliverEvents { newest_event_ref, link_id, .. }
            if newest_event_ref == "e2" && link_id == "link-a"
    ));
    assert!(ledger.should_redeliver());

    let second = linked("link-b");
    let again = redeliver_pending(
        &mut ledger,
        second.current().expect("link"),
        now().plus(SECOND),
    )
    .expect("redelivered");
    assert!(matches!(
        &again,
        WaiterLink::DeliverEvents { delivery_id, link_id, events, attempted_at, .. }
            if delivery_id == "delivery-a"
                && link_id == "link-b"
                && events.len() == 2
                && attempted_at == "2026-01-15T12:05:01Z"
    ));
}

const INVALID: WaiterLinkError = WaiterLinkError::Semantic("schema");

#[test]
fn invalid_attach_messages_are_refused() {
    let now = now();
    let ask = |table: &mut LinkTable, valid, reply_valid| {
        admit_attach_checked(
            table,
            attach(),
            now,
            &[arm(now)],
            "link-a".to_owned(),
            valid,
            reply_valid,
        )
    };
    let mut table = LinkTable::default();
    assert_eq!(ask(&mut table, Err(INVALID), Ok(())).err(), Some(INVALID));
    assert_eq!(ask(&mut table, Ok(()), Err(INVALID)).err(), Some(INVALID));
    assert!(table.current().is_none());
    let accepted = ask(&mut table, Ok(()), Ok(())).expect("accepted");
    assert!(table == linked("link-a"));
    assert!(ask(&mut table, Ok(()), Err(INVALID)) == Ok(accepted));

    let unknown = |reply_valid| {
        decide_attach_checked(
            &LinkTable::default(),
            attach(),
            now,
            &[],
            "link-a".to_owned(),
            Ok(()),
            reply_valid,
        )
    };
    assert!(matches!(unknown(Ok(())), Ok(AttachDecision::Reject { .. })));
    assert!(unknown(Err(INVALID)).err() == Some(INVALID));
}

#[test]
fn invalid_delivery_messages_are_refused() {
    let table = linked("link-a");
    let link = table.current().expect("link");
    let prepare = |ledger: &mut DeliveryLedger, events, valid| {
        prepare_delivery_checked(
            ledger,
            link,
            "signal-a".to_owned(),
            events,
            now(),
            "delivery-a".to_owned(),
            valid,
        )
    };
    let mut ledger = DeliveryLedger::default();
    assert_eq!(
        prepare(&mut ledger, vec![], Err(INVALID)).err(),
        Some(WaiterLinkError::Semantic("empty delivery"))
    );
    assert_eq!(
        prepare(&mut ledger, vec![event("e1")], Err(INVALID)).err(),
        Some(INVALID)
    );
    assert!(ledger.pending().is_none());
    prepare(&mut ledger, vec![event("e1")], Ok(())).expect("prepared");

    let done = result("delivery-a", "link-a", "return_completed");
    assert_eq!(
        record_delivery_result_checked(&mut ledger, &done, Err(INVALID)),
        Err(INVALID)
    );
    let successor = linked("link-b");
    let next = successor.current().expect("link");
    assert_eq!(
        redeliver_pending_checked(&mut ledger, next, now(), Err(INVALID)).err(),
        Some(INVALID)
    );
    let pending = ledger.pending().expect("pending");
    assert_eq!(pending.link_id, "link-a");
    assert!(matches!(
        &pending.message,
        WaiterLink::DeliverEvents { link_id, .. } if link_id == "link-b"
    ));
    assert!(pending.result.is_none());
    assert!(redeliver_pending_checked(&mut ledger, next, now(), Ok(())).is_ok());
    assert_eq!(ledger.pending().expect("pending").link_id, "link-b");
    assert_eq!(
        record_delivery_result_checked(
            &mut ledger,
            &result("delivery-a", "link-b", "return_completed"),
            Ok(())
        ),
        Ok(())
    );
}

#[test]
fn pending_batch_is_kept_until_an_outcome() {
    let table = linked("link-a");
    let link = table.current().expect("link");
    let mut ledger = DeliveryLedger::default();
    assert_eq!(
        redeliver_pending(&mut ledger, link, now()).err(),
        Some(WaiterLinkError::Semantic("no pending delivery"))
    );
    assert_eq!(
        record_delivery_result(&mut ledger, &result("delivery-a", "link-a", "return_completed")),
        Err(WaiterLinkError::Semantic("no pending delivery"))
    );
    assert_eq!(
        prepare_delivery(&mut ledger, link, "signal-a".to_owned(), vec![], now()).err(),
        Some(WaiterLinkError::Semantic("empty delivery"))
    );
    prepare_delivery_with(
        &mut ledger,
        link,
        "signal-a".to_owned(),
        vec![event("e1")],
        now(),
        "delivery-a".to_owned(),
    )
    .expect("prepared");
    assert_eq!(
        prepare_delivery(
            &mut ledger,
            link,
            "signal-b".to_owned(),
            vec![event("e9")],
            now()
        )
        .err(),
        Some(WaiterLinkError::Semantic("delivery pending"))
    );
    for (wrong, reason) in [
        (
            result("delivery-x", "link-a", "return_completed"),
            "delivery_id mismatch",
        ),
        (
            result("delivery-a", "link-x", "return_completed"),
            "link_id mismatch",
        ),
        (attach(), "expected delivery_result"),
    ] {
        assert_eq!(
            record_delivery_result(&mut ledger, &wrong),
            Err(WaiterLinkError::Semantic(reason))
        );
    }
    assert_eq!(
        record_delivery_result(&mut ledger, &result("delivery-a", "link-a", "link_lost")),
        Ok(())
    );
    assert!(ledger.should_redeliver());
    assert_eq!(
        record_delivery_result(&mut ledger, &result("delivery-a", "link-a", "return_completed")),
        Ok(())
    );
    assert!(!ledger.should_redeliver());
    assert_eq!(
        record_delivery_result(&mut ledger, &result("delivery-a", "link-a", "return_completed")),
        Ok(())
    );
    assert_eq!(
        record_delivery_result(&mut ledger, &result("delivery-a", "link-a", "return_failed")),
        Err(WaiterLinkError::Semantic("conflicting delivery outcome"))
    );
    assert_eq!(
        redeliver_pending(&mut ledger, link, now()).err(),
        Some(WaiterLinkError::Semantic("delivery already terminal"))
    );
}

#[test]
fn successor_without_the_same_authority_gets_nothing() {
    let table = linked("link-a");
    let mut ledger = DeliveryLedger::default();
    prepare_delivery(
        &mut ledger,
        table.current().expect("link"),
        "signal-a".to_owned(),
        vec![event("e1")],
        now(),
    )
    .expect("prepared");
    let mut other = table.current().expect("link").clone();
    other.generation = 2;
    assert_eq!(
        redeliver_pending(&mut ledger, &other, now()).err(),
        Some(WaiterLinkError::Semantic("successor authority mismatch"))
    );
    assert!(ledger.should_redeliver());
}

#[test]
fn instants_are_shown_in_utc() {
    assert_eq!(format_time(Timestamp::unix_epoch()), "1970-01-01T00:00:00Z");
    assert_eq!(
        format_time(Timestamp { nanos: 1_500_000_000 }),
        "1970-01-01T00:00:01.5Z"
    );
    let ancient = Timestamp {
        nanos: -100_000_000_000 * SECOND,
    };
    assert!(format_time(ancient).starts_with('-'));
    assert_ne!(
        HandledCursorError::Semantic("a"),
        HandledCursorError::Semantic("b")
    );
}
