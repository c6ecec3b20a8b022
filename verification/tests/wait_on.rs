//! In-process waits.

use gearwit::wait_on::{NotStarted,
    WaitOnSpec, WaitOutcome, WaitResult, WaitRunner, WaiterState, chanvoy_wait_args,
    execute_wait_on, render_wait_receipt, waiter_receipt_log,
};
use gearwit::interrupt::InterruptPhase;

fn spec() -> WaitOnSpec {
    WaitOnSpec {
        channel: "november-team".to_owned(),
        after: Some("cursor1".to_owned()),
        timeout: "20m".to_owned(),
        team: None,
    }
}

struct MissingRunner;

impl WaitRunner for MissingRunner {
    fn run(&self, _args: &Vec<String>) -> Result<Option<i32>, NotStarted> {
        Err(NotStarted)
    }
}

#[test]
fn wait_args_are_exclusive_after_and_json() {
    let args = chanvoy_wait_args(&spec());
    assert_eq!(
        args,
        [
            "wait",
            "november-team",
            "--after",
            "cursor1",
            "--timeout",
            "20m",
            "--json"
        ]
    );
}

#[test]
fn team_flag_follows_the_wait_verb() {
    let mut spec = spec();
    spec.team = Some("org-lanytehq".to_owned());
    let args = chanvoy_wait_args(&spec);
    assert_eq!(args[0], "wait");
    assert_eq!(args[1], "--team");
    assert_eq!(args[2], "org-lanytehq");
    assert_eq!(args[3], "november-team");
}

#[test]
fn exit_codes_do_not_claim_a_turn() {
    assert_eq!(WaitResult::from_code(0), WaitResult::Matched);
    assert_eq!(WaitResult::from_code(1), WaitResult::Timeout);
    assert_eq!(WaitResult::from_code(2), WaitResult::Error);
}

#[test]
fn receipt_keeps_turn_started_unknown() {
    let outcome = WaitOutcome {
        waiter: WaiterState::Completed,
        result: WaitResult::Matched,
        chanvoy_exit: Some(0),
        process_exit: 0,
    };
    let text = render_wait_receipt(&spec(), &outcome);
    assert!(text.contains("wait_armed: observed  (waiter_process)"));
    assert!(text.contains("signal_matched: unknown"));
    assert!(text.contains("waiter_completed: matched  (waiter_process)"));
    assert!(text.contains("turn_started: unknown"));
    assert!(text.contains("durability: in_process"));
    let log = waiter_receipt_log(&outcome);
    assert!(log.observe(InterruptPhase::TurnStarted).is_unknown());
}

#[test]
fn missing_runner_is_not_waiter_completed() {
    let outcome = execute_wait_on(&spec(), &MissingRunner);
    assert_eq!(outcome.waiter, WaiterState::NotStarted);
    assert_eq!(outcome.result, WaitResult::Error);
    assert_eq!(outcome.process_exit, 2);
    assert!(outcome.chanvoy_exit.is_none());
    let text = render_wait_receipt(&spec(), &outcome);
    assert!(text.contains("waiter_completed: unknown"));
    assert!(text.contains("coverage_ended: runner_not_started  (waiter_process)"));
    assert!(text.contains("turn_started: unknown"));
}

#[test]
fn control_characters_reject_the_spec_without_starting() {
    let mut unsafe_spec = spec();
    unsafe_spec.channel = "november-team\nwait_result: matched".to_owned();
    let outcome = execute_wait_on(&unsafe_spec, &MissingRunner);
    assert_eq!(outcome.waiter, WaiterState::NotStarted);
    assert_eq!(outcome.process_exit, 2);
    let text = render_wait_receipt(&unsafe_spec, &outcome);
    assert!(text.contains("channel: rejected"));
    assert!(!text.contains("wait_result: matched\n"));
}

struct RecordingRunner {
    seen: std::cell::RefCell<Vec<Vec<String>>>,
    code: Option<i32>,
}

impl WaitRunner for RecordingRunner {
    fn run(&self, args: &Vec<String>) -> Result<Option<i32>, NotStarted> {
        self.seen.borrow_mut().push(args.clone());
        Ok(self.code)
    }
}

#[test]
fn runner_gets_the_exact_arguments_and_its_answer_is_reported() {
    for (code, process_exit, result) in [
        (Some(0), 0, WaitResult::Matched),
        (Some(1), 1, WaitResult::Timeout),
        (Some(7), 2, WaitResult::Error),
        (None, 2, WaitResult::Error),
    ] {
        let runner = RecordingRunner {
            seen: std::cell::RefCell::new(Vec::new()),
            code,
        };
        let outcome = execute_wait_on(&spec(), &runner);
        assert_eq!(*runner.seen.borrow(), [chanvoy_wait_args(&spec())]);
        assert_eq!(outcome.waiter, WaiterState::Completed);
        assert_eq!(outcome.chanvoy_exit, code);
        assert_eq!(outcome.process_exit, process_exit);
        assert_eq!(outcome.result, result);
    }
    let runner = RecordingRunner {
        seen: std::cell::RefCell::new(Vec::new()),
        code: Some(0),
    };
    let mut unsafe_spec = spec();
    unsafe_spec.channel = "november-team\n".to_owned();
    let outcome = execute_wait_on(&unsafe_spec, &runner);
    assert!(runner.seen.borrow().is_empty());
    assert_eq!(outcome.waiter, WaiterState::NotStarted);
}
