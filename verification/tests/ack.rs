//! Handled-cursor acknowledgement.

use gearwit::ack::{
    apply_handled_request, rearm_from_handled, record_handled, record_handled_checked, AckStore,
};
use gearwit::admission::{KnownArm, HISTORY_CAP};
use gearwit::timestamp::Timestamp;
use gearwit::protocol::{HandledCursor, HandledCursorError};
use time::format_description::well_known::Rfc3339;
use time::OffsetDateTime;

fn now() -> Timestamp {
    let at = OffsetDateTime::parse("2026-01-15T12:05:20Z", &Rfc3339).expect("now");
    Timestamp {
        nanos: at.unix_timestamp_nanos(),
    }
}

fn arm() -> KnownArm {
    KnownArm {
        arm_id: "01J00000000000000000000010".to_owned(),
        generation: 1,
        seat_id: "example-devrev".to_owned(),
        route: "complete_background_tool".to_owned(),
        coverage_until: now().plus(20 * 60 * 1_000_000_000),
    }
}

fn store_with_batch() -> AckStore {
    let mut store = AckStore::with_arm(arm());
    store
        .note_delivered(
            "01J00000000000000000000021".to_owned(),
            vec!["post02".to_owned(), "post03".to_owned()],
            &vec![
                "post02".to_owned(),
                "post03".to_owned(),
                "post04".to_owned(),
            ],
        )
        .expect("note");
    store
}

fn request(cursor: &str, request_id: &str) -> HandledCursor {
    HandledCursor::Request {
        request_id: request_id.to_owned(),
        arm_id: "01J00000000000000000000010".to_owned(),
        generation: 1,
        seat_id: "example-devrev".to_owned(),
        signal_id: "01J00000000000000000000021".to_owned(),
        cursor: cursor.to_owned(),
        observed_at: "2026-01-15T12:05:20Z".to_owned(),
    }
}

#[test]
fn prefix_and_newest_are_accepted() {
    let mut store = store_with_batch();
    let prefix = record_handled(
        &mut store,
        request("post02", "01J00000000000000000000051"),
        now(),
    )
    .expect("prefix");
    assert!(matches!(
        prefix,
        HandledCursor::Accepted { cursor, .. } if cursor == "post02"
    ));
    let newest = record_handled(
        &mut store,
        request("post03", "01J00000000000000000000050"),
        now(),
    )
    .expect("newest");
    assert!(matches!(
        newest,
        HandledCursor::Accepted { cursor, .. } if cursor == "post03"
    ));
}

#[test]
fn every_reject_code() {
    let mut empty = AckStore::with_arm(arm());
    let reply = record_handled(
        &mut empty,
        request("post03", "01J00000000000000000000052"),
        now(),
    )
    .expect("unknown signal");
    assert!(matches!(
        reply,
        HandledCursor::Rejected { code, .. } if code == "unknown_signal"
    ));

    let mut store = store_with_batch();
    let mut stale_gen = request("post03", "01J00000000000000000000057");
    if let HandledCursor::Request { generation, .. } = &mut stale_gen {
        *generation = 2;
    }
    let reply = record_handled(&mut store, stale_gen, now()).expect("stale gen");
    assert!(matches!(
        reply,
        HandledCursor::Rejected { code, .. } if code == "stale_generation"
    ));

    let mut seat = request("post03", "01J00000000000000000000058");
    if let HandledCursor::Request { seat_id, .. } = &mut seat {
        *seat_id = "other-seat".to_owned();
    }
    let reply = record_handled(&mut store, seat, now()).expect("seat");
    assert!(matches!(
        reply,
        HandledCursor::Rejected { code, .. } if code == "seat_mismatch"
    ));

    let reply = record_handled(
        &mut store,
        request("post99", "01J00000000000000000000054"),
        now(),
    )
    .expect("not member");
    assert!(matches!(
        reply,
        HandledCursor::Rejected { code, .. } if code == "cursor_not_member"
    ));

    let reply = record_handled(
        &mut store,
        request("post04", "01J00000000000000000000055"),
        now(),
    )
    .expect("beyond");
    assert!(matches!(
        reply,
        HandledCursor::Rejected { code, .. } if code == "cursor_beyond_delivered"
    ));

    record_handled(
        &mut store,
        request("post03", "01J00000000000000000000050"),
        now(),
    )
    .expect("newest");
    let reply = record_handled(
        &mut store,
        request("post02", "01J00000000000000000000059"),
        now(),
    )
    .expect("stale cursor");
    assert!(matches!(
        reply,
        HandledCursor::Rejected { code, .. } if code == "stale_cursor"
    ));

    let mut before = AckStore::with_arm(arm());
    before
        .note_claimed("01J00000000000000000000021".to_owned())
        .expect("claimed");
    let reply = record_handled(
        &mut before,
        request("post03", "01J00000000000000000000053"),
        now(),
    )
    .expect("before");
    assert!(matches!(
        reply,
        HandledCursor::Rejected { code, .. } if code == "ack_before_delivery"
    ));

    let unknown = record_handled(
        &mut AckStore::default(),
        request("post03", "01J00000000000000000000056"),
        now(),
    )
    .expect("no arm");
    assert!(matches!(
        unknown,
        HandledCursor::Rejected { code, .. } if code == "unknown_arm"
    ));
}

#[test]
fn exact_replay_survives_rearm() {
    let mut store = store_with_batch();
    let first = request("post03", "01J00000000000000000000050");
    let accepted = record_handled(&mut store, first.clone(), now()).expect("ack");
    assert!(matches!(accepted, HandledCursor::Accepted { .. }));
    rearm_from_handled(&mut store, "01J00000000000000000000021").expect("rearm");
    assert_eq!(store.arm().expect("arm").generation, 2);
    let replay = record_handled(&mut store, first, now()).expect("replay");
    assert_eq!(replay, accepted);
    let mut fresh = request("post03", "01J00000000000000000000060");
    if let HandledCursor::Request { generation, .. } = &mut fresh {
        *generation = 1;
    }
    let stale = record_handled(&mut store, fresh, now()).expect("unseen old gen");
    assert!(matches!(
        stale,
        HandledCursor::Rejected { code, .. } if code == "stale_generation"
    ));
}

#[test]
fn conflicting_body_is_hard_fail() {
    let mut store = store_with_batch();
    let first = request("post03", "01J00000000000000000000050");
    record_handled(&mut store, first, now()).expect("first");
    let mut conflict = request("post02", "01J00000000000000000000050");
    if let HandledCursor::Request { cursor, .. } = &mut conflict {
        *cursor = "post02".to_owned();
    }
    let error = record_handled(&mut store, conflict, now()).expect_err("conflict");
    assert!(matches!(
        error,
        HandledCursorError::Semantic("request_id conflict")
    ));
}

#[test]
fn rearm_without_record_fails() {
    let mut store = store_with_batch();
    let error =
        rearm_from_handled(&mut store, "01J00000000000000000000021").expect_err("order");
    assert!(matches!(
        error,
        HandledCursorError::Semantic("ack_before_delivery")
    ));
}

#[test]
fn note_delivered_is_idempotent_and_does_not_reset() {
    let mut store = store_with_batch();
    record_handled(
        &mut store,
        request("post03", "01J00000000000000000000050"),
        now(),
    )
    .expect("ack");
    store
        .note_delivered(
            "01J00000000000000000000021".to_owned(),
            vec!["post02".to_owned(), "post03".to_owned()],
            &vec![
                "post02".to_owned(),
                "post03".to_owned(),
                "post04".to_owned(),
            ],
        )
        .expect("replay");
    let error = store
        .note_delivered(
            "01J00000000000000000000021".to_owned(),
            vec!["post02".to_owned()],
            &vec!["post02".to_owned()],
        )
        .expect_err("conflict");
    assert!(matches!(
        error,
        HandledCursorError::Semantic("signal conflict")
    ));
    let stale = record_handled(
        &mut store,
        request("post02", "01J00000000000000000000061"),
        now(),
    )
    .expect("still newest");
    assert!(matches!(
        stale,
        HandledCursor::Rejected { code, .. } if code == "stale_cursor"
    ));
}

#[test]
fn rearm_does_not_advance_a_replaced_generation() {
    let mut store = store_with_batch();
    record_handled(
        &mut store,
        request("post03", "01J00000000000000000000050"),
        now(),
    )
    .expect("ack a");
    let conflict = store.note_delivered(
        "01J00000000000000000000022".to_owned(),
        vec!["post02".to_owned(), "post03".to_owned()],
        &vec!["post02".to_owned(), "post03".to_owned()],
    );
    assert!(matches!(
        conflict,
        Err(HandledCursorError::Semantic(
            "signal conflict"
        ))
    ));
    rearm_from_handled(&mut store, "01J00000000000000000000021").expect("rearm a");
    store
        .note_delivered(
            "01J00000000000000000000022".to_owned(),
            vec!["post02".to_owned(), "post03".to_owned()],
            &vec!["post02".to_owned(), "post03".to_owned()],
        )
        .expect("next gen");
    let mut other = request("post03", "01J00000000000000000000062");
    if let HandledCursor::Request {
        signal_id,
        generation,
        ..
    } = &mut other
    {
        *signal_id = "01J00000000000000000000022".to_owned();
        *generation = 2;
    }
    record_handled(&mut store, other, now()).expect("ack b");
    let error =
        rearm_from_handled(&mut store, "01J00000000000000000000021").expect_err("stale a");
    assert!(matches!(
        error,
        HandledCursorError::Semantic("stale_generation")
    ));
    assert_eq!(store.arm().expect("arm").generation, 2);
}

#[test]
fn generation_overflow_does_not_close() {
    let mut max = arm();
    max.generation = u64::MAX;
    let mut store = AckStore::with_arm(max);
    store
        .note_delivered(
            "01J00000000000000000000021".to_owned(),
            vec!["post02".to_owned(), "post03".to_owned()],
            &vec!["post02".to_owned(), "post03".to_owned()],
        )
        .expect("note");
    let mut req = request("post03", "01J00000000000000000000050");
    if let HandledCursor::Request { generation, .. } = &mut req {
        *generation = u64::MAX;
    }
    record_handled(&mut store, req, now()).expect("ack");
    let error =
        rearm_from_handled(&mut store, "01J00000000000000000000021").expect_err("overflow");
    assert!(matches!(
        error,
        HandledCursorError::Semantic("generation overflow")
    ));
    assert_eq!(store.arm().expect("arm").generation, u64::MAX);
}

#[test]
fn sparse_delivered_slice_is_rejected() {
    let mut store = AckStore::with_arm(arm());
    let error = store
        .note_delivered(
            "01J00000000000000000000021".to_owned(),
            vec!["post02".to_owned(), "post04".to_owned()],
            &vec![
                "post02".to_owned(),
                "post03".to_owned(),
                "post04".to_owned(),
            ],
        )
        .expect_err("sparse");
    assert!(matches!(
        error,
        HandledCursorError::Semantic("delivered not leading prefix")
    ));
}

#[test]
fn leading_skip_is_rejected() {
    let mut store = AckStore::with_arm(arm());
    let error = store
        .note_delivered(
            "01J00000000000000000000021".to_owned(),
            vec!["post03".to_owned(), "post04".to_owned()],
            &vec![
                "post02".to_owned(),
                "post03".to_owned(),
                "post04".to_owned(),
            ],
        )
        .expect_err("skip");
    assert!(matches!(
        error,
        HandledCursorError::Semantic("delivered not leading prefix")
    ));
}

#[test]
fn claimed_then_delivered_then_ack() {
    let mut store = AckStore::with_arm(arm());
    store
        .note_claimed("01J00000000000000000000021".to_owned())
        .expect("claimed");
    let before = record_handled(
        &mut store,
        request("post03", "01J00000000000000000000053"),
        now(),
    )
    .expect("before");
    assert!(matches!(
        before,
        HandledCursor::Rejected { code, .. } if code == "ack_before_delivery"
    ));
    store
        .note_delivered(
            "01J00000000000000000000021".to_owned(),
            vec!["post02".to_owned(), "post03".to_owned()],
            &vec![
                "post02".to_owned(),
                "post03".to_owned(),
                "post04".to_owned(),
            ],
        )
        .expect("deliver");
    let accepted = record_handled(
        &mut store,
        request("post03", "01J00000000000000000000050"),
        now(),
    )
    .expect("ack");
    assert!(matches!(accepted, HandledCursor::Accepted { .. }));
}

#[test]
fn history_cap_preserves_accepted_replay() {
    let mut store = store_with_batch();
    let first = request("post03", "01J00000000000000000000050");
    let accepted = record_handled(&mut store, first.clone(), now()).expect("first");
    for index in 1..HISTORY_CAP {
        let request_id = format!("01K{index:023}");
        let reply =
            record_handled(&mut store, request("post03", &request_id), now()).expect("fill");
        assert!(matches!(reply, HandledCursor::Accepted { .. }));
    }
    let error = record_handled(
        &mut store,
        request("post03", "01K99999999999999999999999"),
        now(),
    )
    .expect_err("full");
    assert!(matches!(
        error,
        HandledCursorError::Semantic("request history full")
    ));
    let replay = record_handled(&mut store, first, now()).expect("replay");
    assert_eq!(replay, accepted);
    assert_eq!(store.arm().expect("arm").generation, 1);
}

#[test]
fn apply_records_before_rearm_and_replay_does_not_bump() {
    let mut store = store_with_batch();
    let first = apply_handled_request(
        &mut store,
        request("post02", "01J00000000000000000000051"),
        now(),
    )
    .expect("first");
    assert!(matches!(first.reply, HandledCursor::Accepted { .. }));
    let rearm = first.rearm.expect("rearm");
    assert_eq!(rearm.after, "post02");
    assert_eq!(rearm.generation, 2);
    assert_eq!(store.arm().expect("arm").generation, 2);
    let replay = apply_handled_request(
        &mut store,
        request("post02", "01J00000000000000000000051"),
        now(),
    )
    .expect("replay");
    assert_eq!(replay.reply, first.reply);
    assert!(replay.rearm.is_none());
    assert_eq!(store.arm().expect("arm").generation, 2);
}

#[test]
fn invalid_message_gets_its_verdict_and_changes_nothing() {
    let mut store = store_with_batch();
    let asked = || request("post02", "01J00000000000000000000051");
    let verdict = HandledCursorError::Semantic("schema");
    assert_eq!(
        record_handled_checked(&mut store, asked(), now(), Err(verdict)).err(),
        Some(verdict)
    );
    let checked = record_handled_checked(&mut store, asked(), now(), Ok(())).expect("valid");
    let mut other = store_with_batch();
    assert!(record_handled(&mut other, asked(), now()) == Ok(checked));
}
