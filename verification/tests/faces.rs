//! Faces of the command line, paths and process starts on fixed values.

use gearwit::ack_handled::{
    build_request, build_request_checked, build_request_with, correlate, phase_members,
    report_exchange, stamp, AckHandledSpec, EXIT_ACCEPTED, EXIT_REJECTED,
};
use gearwit::attach::{
    attach_request, correlate_accept, delivery_result, remaining_lease, render_attach_receipt,
    AttachSpec,
};
use gearwit::check::{render_check_from, state_dir};
use gearwit::child::{kill_and_reap, ChildSlot, EndFault, KillAttempt, KillReap};
use gearwit::launch::{
    anchor_stands, cleanup_verdict, launch_failure, prove_group_member, receive_allowed,
    same_executable, settle_failure, FileIdentity, LaunchPoint, Remains,
};
use gearwit::link::{accept_frame, LinkError, COMMAND, MAX_PAYLOAD};
use gearwit::paths::{
    bind_over, canonical_root, private_dir_needed, require_owned, require_private_dir,
    socket_needs_probe, BindError, GearwitPaths, ListenerProbe, PathKind,
};
use gearwit::protocol::{HandledCursor, ProviderEvent, WaiterLink};
use gearwit::sanitize::{paste_body, paste_field, MAX_ID};
use gearwit::timestamp::{Span, Timestamp, SECOND};
use gearwit::transport::TransportError;

fn now() -> Timestamp {
    Timestamp {
        nanos: 1_768_478_700 * SECOND,
    }
}

#[test]
fn check_shows_the_stored_receipt_or_unknown() {
    assert_eq!(
        render_check_from(None),
        "gearwit self check\nlast_receipt: unknown\n"
    );
    assert_eq!(
        render_check_from(Some("")),
        "gearwit self check\nlast_receipt: unknown\n"
    );
    assert_eq!(
        render_check_from(Some("wait_outcome: matched\n")),
        "gearwit self check\nwait_outcome: matched\n"
    );
}

#[test]
fn receipt_directory_prefers_the_override() {
    assert_eq!(
        state_dir(Some("/tmp/x"), Some("/home/a")),
        Some("/tmp/x".to_owned())
    );
    assert_eq!(
        state_dir(Some(""), Some("/home/a")),
        Some("/home/a/.local/state/gearwit".to_owned())
    );
    assert_eq!(state_dir(None, None), None);
}

#[test]
fn home_is_resolved_below_the_user() {
    assert_eq!(
        canonical_root(Some("/home/a")),
        Ok("/home/a/.lanyte/gearwit".to_owned())
    );
    assert_eq!(canonical_root(None), Err(BindError::HomeUnset));
    let paths = GearwitPaths {
        root: "/home/a/.lanyte/gearwit".to_owned(),
    };
    assert_eq!(
        paths.socket_path(),
        "/home/a/.lanyte/gearwit/run/gearwit.sock"
    );
    assert_eq!(paths.state_dir(), "/home/a/.lanyte/gearwit/state");
    assert_eq!(paths.root(), "/home/a/.lanyte/gearwit");
    assert_eq!(
        paths.private_dirs(),
        (
            "/home/a/.lanyte/gearwit".to_owned(),
            "/home/a/.lanyte/gearwit/run".to_owned(),
            "/home/a/.lanyte/gearwit/state".to_owned()
        )
    );
}

#[test]
fn only_own_directories_and_stale_sockets_are_used() {
    assert_eq!(private_dir_needed("/d", PathKind::Absent), Ok(true));
    assert_eq!(private_dir_needed("/d", PathKind::Directory), Ok(false));
    assert_eq!(
        private_dir_needed("/d", PathKind::Symlink),
        Err(BindError::Symlink("/d".to_owned()))
    );
    assert_eq!(
        private_dir_needed("/d", PathKind::Other),
        Err(BindError::NotADirectory("/d".to_owned()))
    );
    assert_eq!(require_private_dir("/d", PathKind::Directory, 1, 1), Ok(()));
    assert_eq!(
        require_private_dir("/d", PathKind::Directory, 1, 2),
        Err(BindError::WrongOwner("/d".to_owned()))
    );
    assert_eq!(
        require_private_dir("/d", PathKind::Absent, 1, 1),
        Err(BindError::NotADirectory("/d".to_owned()))
    );
    assert_eq!(require_owned("/d", 7, 7), Ok(()));
    assert_eq!(socket_needs_probe("/s", PathKind::Absent, 0, 1), Ok(false));
    assert_eq!(socket_needs_probe("/s", PathKind::Socket, 1, 1), Ok(true));
    assert_eq!(
        socket_needs_probe("/s", PathKind::Socket, 0, 1),
        Err(BindError::WrongOwner("/s".to_owned()))
    );
    assert_eq!(
        socket_needs_probe("/s", PathKind::Directory, 1, 1),
        Err(BindError::NotASocket("/s".to_owned()))
    );
    assert_eq!(
        socket_needs_probe("/s", PathKind::Symlink, 1, 1),
        Err(BindError::Symlink("/s".to_owned()))
    );
    assert_eq!(bind_over("/s", &ListenerProbe::Refused), Ok(()));
    let live = bind_over("/s", &ListenerProbe::Live).expect_err("live");
    assert_eq!(live.message(), "listener already live at /s");
    assert_eq!(
        bind_over("/s", &ListenerProbe::Failed("no route".to_owned())),
        Err(BindError::Transport("no route".to_owned()))
    );
    assert_eq!(BindError::HomeUnset.message(), "HOME is unset");
    assert_eq!(BindError::Io("denied".to_owned()).message(), "denied");
}

#[test]
fn failed_starts_end_what_they_started() {
    let told = TransportError::Deadline;
    assert_eq!(
        launch_failure(LaunchPoint::Identify, told),
        (Remains::Nothing, TransportError::Deadline)
    );
    assert_eq!(
        launch_failure(LaunchPoint::GroupNumber, told),
        (Remains::Anchor, TransportError::Group)
    );
    assert_eq!(
        launch_failure(LaunchPoint::Spawn, told),
        (Remains::Anchor, TransportError::Preflight)
    );
    assert_eq!(
        launch_failure(LaunchPoint::JoinGroup, told),
        (Remains::Group, TransportError::Group)
    );
    assert_eq!(
        launch_failure(LaunchPoint::Report, told),
        (Remains::Group, TransportError::Deadline)
    );
    assert_eq!(
        launch_failure(LaunchPoint::Status, told),
        (Remains::Anchor, TransportError::Preflight)
    );
    assert_eq!(
        launch_failure(LaunchPoint::RecheckAfter, told),
        (Remains::Anchor, TransportError::Identity)
    );
    assert_eq!(
        launch_failure(LaunchPoint::Exited, told),
        (Remains::Group, TransportError::Closed)
    );
    assert_eq!(settle_failure(told, true), told);
    assert_eq!(settle_failure(told, false), TransportError::Cleanup);
    assert_eq!(cleanup_verdict(true, true, true, true), Ok(()));
    for failed in 0..4 {
        let part = |index: i32| index != failed;
        assert_eq!(
            cleanup_verdict(part(0), part(1), part(2), part(3)),
            Err(TransportError::Cleanup)
        );
    }
}

#[test]
fn running_processes_are_proven() {
    let identity = FileIdentity {
        device: 1,
        inode: 2,
        length: 3,
        modified_seconds: 4,
        modified_nanoseconds: 5,
    };
    let mut replaced = identity;
    replaced.inode = 9;
    assert_eq!(same_executable(identity, Some(identity)), Ok(()));
    assert_eq!(
        same_executable(identity, Some(replaced)),
        Err(TransportError::Identity)
    );
    assert_eq!(
        same_executable(identity, None),
        Err(TransportError::Identity)
    );
    assert_eq!(prove_group_member(Some(7), Some(3), 7), Ok(()));
    assert_eq!(
        prove_group_member(Some(8), Some(3), 7),
        Err(TransportError::Group)
    );
    assert_eq!(
        prove_group_member(Some(7), Some(0), 7),
        Err(TransportError::Group)
    );
    assert_eq!(
        prove_group_member(None, Some(3), 7),
        Err(TransportError::Group)
    );
    assert!(anchor_stands(Some(11), 11, true));
    assert!(!anchor_stands(Some(11), 12, true));
    assert!(!anchor_stands(Some(11), 11, false));
    assert!(!anchor_stands(None, 11, true));
    assert_eq!(receive_allowed(false, false, true), Ok(()));
    assert_eq!(
        receive_allowed(true, false, true),
        Err(TransportError::Bounds)
    );
    assert_eq!(
        receive_allowed(false, true, false),
        Err(TransportError::Bounds)
    );
    assert_eq!(
        receive_allowed(false, false, false),
        Err(TransportError::Closed)
    );
}

fn spec() -> AckHandledSpec {
    AckHandledSpec {
        arm_id: "arm-a".to_owned(),
        generation: 3,
        seat_id: "seat-a".to_owned(),
        signal_id: "signal-a".to_owned(),
        cursor: "e2".to_owned(),
        request_id: Some("request-a".to_owned()),
        observed_at: None,
    }
}

#[test]
fn printed_phase_claims_neither_rearm_nor_turn() {
    assert_eq!(
        phase_members("request"),
        "\"phase\":\"request\",\"rearm_claimed\":false,\"turn_started\":\"unknown\""
    );
}

#[test]
fn request_is_built_only_when_valid_and_encodable() {
    let build = |valid, encoded| {
        build_request_checked(&spec(), now(), "minted".to_owned(), valid, encoded)
    };
    assert!(build(Ok(()), Ok(())) == Ok(build_request_with(&spec(), now(), "minted".to_owned())));
    assert_eq!(
        build(Err("schema".to_owned()), Err("size".to_owned())),
        Err("schema".to_owned())
    );
    assert_eq!(
        build(Ok(()), Err("size".to_owned())),
        Err("size".to_owned())
    );
}

fn accepted(cursor: &str) -> HandledCursor {
    HandledCursor::Accepted {
        request_id: "request-a".to_owned(),
        arm_id: "arm-a".to_owned(),
        generation: 3,
        signal_id: "signal-a".to_owned(),
        cursor: cursor.to_owned(),
        accepted_at: "2026-01-15T12:05:00Z".to_owned(),
    }
}

fn rejected(request_id: &str) -> HandledCursor {
    HandledCursor::Rejected {
        request_id: request_id.to_owned(),
        code: "stale_generation".to_owned(),
        observed_at: "2026-01-15T12:05:00Z".to_owned(),
    }
}

#[test]
fn handled_replies_must_answer_their_request() {
    let request = build_request_with(&spec(), now(), "minted".to_owned());
    assert!(matches!(
        &request,
        HandledCursor::Request { request_id, observed_at, .. }
            if request_id == "request-a" && observed_at == "2026-01-15T12:05:00Z"
    ));
    assert_eq!(correlate(&request, &accepted("e2")), Ok(EXIT_ACCEPTED));
    assert_eq!(
        correlate(&request, &accepted("e1")),
        Err("accepted reply did not echo the request".to_owned())
    );
    assert_eq!(correlate(&request, &rejected("request-a")), Ok(EXIT_REJECTED));
    assert_eq!(
        correlate(&request, &rejected("request-b")),
        Err("rejected reply request_id mismatch".to_owned())
    );
    assert_eq!(
        correlate(&request, &request),
        Err("expected reply".to_owned())
    );
    assert_eq!(
        correlate(&rejected("a"), &request),
        Err("expected request".to_owned())
    );
    let report = report_exchange(request, accepted("e2")).expect("report");
    assert_eq!(report.exit, EXIT_ACCEPTED);
}

#[test]
fn absent_request_ids_are_minted() {
    let mut open = spec();
    open.request_id = None;
    open.observed_at = Some("2026-01-15T12:00:00Z".to_owned());
    let HandledCursor::Request {
        request_id,
        observed_at,
        ..
    } = build_request(&open, now())
    else {
        panic!("request");
    };
    assert_eq!(request_id.len(), 26);
    assert_eq!(observed_at, "2026-01-15T12:00:00Z");
    assert_eq!(stamp(now()), "2026-01-15T12:05:00Z");
    assert_eq!(
        stamp(Timestamp {
            nanos: -100_000_000_000 * SECOND
        }),
        "1970-01-01T00:00:00Z"
    );
}

#[test]
fn attach_replies_are_correlated_and_leased() {
    let spec = AttachSpec {
        arm_id: "arm-a".to_owned(),
        generation: 1,
        seat_id: "seat-a".to_owned(),
        route: "route-a".to_owned(),
    };
    let request = attach_request(&spec, now());
    let WaiterLink::AttachWaiter { request_id, .. } = &request else {
        panic!("request");
    };
    let reply = |lease_until: &str| WaiterLink::AttachAccepted {
        request_id: request_id.clone(),
        link_id: "link-a".to_owned(),
        arm_id: "arm-a".to_owned(),
        generation: 1,
        route: "route-a".to_owned(),
        accepted_at: "2026-01-15T12:05:00Z".to_owned(),
        lease_until: lease_until.to_owned(),
    };
    let accepted = correlate_accept(&request, &reply("2026-01-15T14:15:00+02:00")).expect("ok");
    assert_eq!(accepted.lease_until, now().plus(600 * SECOND));
    assert_eq!(
        remaining_lease(accepted.lease_until, now()),
        Ok(Span::from_secs(600))
    );
    assert_eq!(
        remaining_lease(now(), now()),
        Err("lease expired".to_owned())
    );
    assert_eq!(
        correlate_accept(&request, &reply("tomorrow")).err(),
        Some("invalid lease_until".to_owned())
    );
    let refused = WaiterLink::AttachRejected {
        request_id: request_id.clone(),
        code: "unknown_arm".to_owned(),
        observed_at: "2026-01-15T12:05:00Z".to_owned(),
    };
    assert_eq!(
        correlate_accept(&request, &refused).err(),
        Some("attach rejected: unknown_arm".to_owned())
    );
    assert_eq!(
        correlate_accept(&request, &request).err(),
        Some("expected attach reply".to_owned())
    );
    assert_eq!(
        delivery_result(&request, true, now()).err(),
        Some("expected deliver_events".to_owned())
    );
}

#[test]
fn receipts_quote_untrusted_text() {
    let delivery = WaiterLink::DeliverEvents {
        delivery_id: "delivery-a".to_owned(),
        link_id: "link-a".to_owned(),
        arm_id: "arm\na".to_owned(),
        generation: 2,
        signal_id: "signal-a".to_owned(),
        route: "route-a".to_owned(),
        events: vec![ProviderEvent {
            event_ref: "e1".to_owned(),
            provider: "chanvoy".to_owned(),
            actor: Some("pe\"er".to_owned()),
            body: "line one\nline two".to_owned(),
            observed_at: "2026-01-15T12:05:00Z".to_owned(),
        }],
        newest_event_ref: "e1".to_owned(),
        attempted_at: "2026-01-15T12:05:00Z".to_owned(),
    };
    assert_eq!(
        render_attach_receipt(&delivery),
        "{\"arm_id\":\"rejected\",\"delivery_id\":\"delivery-a\",\"event_count\":1,\"generation\":2,\"newest_observed\":\"e1\",\"signal_id\":\"signal-a\",\"turn_started\":\"unknown\",\"untrusted_provider_data\":[{\"actor\":\"pe\\\"er\",\"body\":\"line one\\nline two\",\"event_ref\":\"e1\",\"observed_at\":\"2026-01-15T12:05:00Z\",\"provider\":\"chanvoy\"}],\"wait_outcome\":\"matched\",\"waiter_completed\":true}\n"
    );
    let written = delivery_result(&delivery, true, now()).expect("result");
    assert!(matches!(
        written,
        WaiterLink::DeliveryResult { outcome, .. } if outcome == "return_completed"
    ));
    let failed = delivery_result(&delivery, false, now()).expect("result");
    assert!(matches!(
        failed,
        WaiterLink::DeliveryResult { outcome, .. } if outcome == "return_failed"
    ));
}

#[test]
fn pasted_fields_are_bounded() {
    let long = "x".repeat(MAX_ID);
    assert_eq!(paste_field(&long, MAX_ID), long);
    assert_eq!(paste_field(&"x".repeat(MAX_ID + 1), MAX_ID), "rejected");
    assert_eq!(paste_field("", MAX_ID), "rejected");
    assert_eq!(paste_field("a\u{85}b", MAX_ID), "rejected");
    assert_eq!(paste_body("a\nb", 3), "a\nb");
    assert_eq!(paste_body("a\nbc", 3), "rejected");
}

#[test]
fn slot_takes_a_second_child_only_after_the_first() {
    let mut slot = ChildSlot::new();
    assert_eq!(slot.pid(), None);
    assert_eq!(slot.vacant(), Ok(()));
    assert_eq!(slot.spawn("first", 7), Ok(7));
    assert!(slot.occupied());
    assert_eq!(slot.vacant(), Err("child slot occupied"));
    assert_eq!(slot.spawn("second", 8), Err("second"));
    slot.try_wait(false);
    assert_eq!(slot.pid(), Some(7));
    assert_eq!(slot.held(), Some(&mut "first"));
    slot.try_wait(true);
    assert!(!slot.occupied());
    assert_eq!(slot.spawn("second", 8), Ok(8));
    assert_eq!(slot.take(), Some("second"));
    assert_eq!(slot.take(), None);
}

#[test]
fn ending_a_child_reports_the_first_failure() {
    assert_eq!(
        kill_and_reap(None),
        Ok(KillReap {
            killed: false,
            reaped: false
        })
    );
    for (attempt, killed) in [(KillAttempt::Killed, true), (KillAttempt::Gone, false)] {
        assert_eq!(
            kill_and_reap(Some((attempt, true))),
            Ok(KillReap {
                killed,
                reaped: true
            })
        );
        assert_eq!(
            kill_and_reap(Some((attempt, false))),
            Err(EndFault::Wait)
        );
    }
    for reaped in [true, false] {
        assert_eq!(
            kill_and_reap(Some((KillAttempt::Failed, reaped))),
            Err(EndFault::Kill)
        );
    }
}

#[test]
fn only_bounded_command_frames_are_taken() {
    assert_eq!(accept_frame(MAX_PAYLOAD, COMMAND), Ok(()));
    assert_eq!(
        accept_frame(MAX_PAYLOAD + 1, COMMAND + 1),
        Err(LinkError::Frame("payload over the frame bound".to_owned()))
    );
    let wrong = accept_frame(0, 12).expect_err("channel");
    assert_eq!(
        wrong.message(),
        "waiter-link requires COMMAND channel, got 12"
    );
    assert_eq!(LinkError::Message("lease expired").message(), "lease expired");
}
