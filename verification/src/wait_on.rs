//! In-process `self wait-on`.
//!
//! Wraps `chanvoy wait`. This process completing is not proof that the harness
//! started a model turn. Receipts keep those facts separate.

use crate::interrupt;
use crate::interrupt::{
    CoverageEndReason, InterruptPhase, LifecycleFact, LifecycleReceipt, LifecycleStep,
    PhaseObservation, ReceiptLog, ReceiptSource, WaiterCompletion,
};
use crate::sanitize;
use crate::sanitize::{paste_field, paste_token, MAX_ID, MAX_TIMEOUT};
use crate::text;
use crate::text::signed_decimal_text;
use vstd::prelude::*;
use vstd::string::*;

verus! {

/// Arguments for an in-process wait.
#[derive(Clone, Debug, PartialEq, Eq)]
pub struct WaitOnSpec {
    /// Mattermost channel name or `team/channel`.
    pub channel: String,
    /// Exclusive `--after` cursor, when the caller has one.
    pub after: Option<String>,
    /// Deadman duration understood by `chanvoy wait`.
    pub timeout: String,
    /// Optional Mattermost team slug.
    pub team: Option<String>,
}

/// How the waiter process ended. Not a harness-turn claim.
#[derive(Clone, Copy, Debug, PartialEq, Eq, Structural)]
pub enum WaitResult {
    /// Child reported a matching peer event.
    Matched,
    /// Child reported a clean timeout.
    Timeout,
    /// Child missing, crashed, or other failure.
    Error,
}

impl WaitResult {
    /// Stable token for the local receipt face.
    pub fn as_str(self) -> (token: &'static str)
        ensures
            token@ == match self {
                WaitResult::Matched => "matched"@,
                WaitResult::Timeout => "timeout"@,
                WaitResult::Error => "error"@,
            },
    {
        match self {
            WaitResult::Matched => "matched",
            WaitResult::Timeout => "timeout",
            WaitResult::Error => "error",
        }
    }

    /// What an exit code means.
    pub open spec fn of_code(code: i32) -> WaitResult {
        if code == 0 {
            WaitResult::Matched
        } else if code == 1 {
            WaitResult::Timeout
        } else {
            WaitResult::Error
        }
    }

    /// Map a Unix-style wait exit: 0 matched, 1 timeout, anything else error.
    pub fn from_code(code: i32) -> (result: WaitResult)
        ensures
            result == WaitResult::of_code(code),
    {
        if code == 0 {
            WaitResult::Matched
        } else if code == 1 {
            WaitResult::Timeout
        } else {
            WaitResult::Error
        }
    }
}

/// Whether a waiter child process actually started.
#[derive(Clone, Copy, Debug, PartialEq, Eq, Structural)]
pub enum WaiterState {
    /// The runner was not started (missing binary or rejected spec).
    NotStarted,
    /// The waiter child ran to a status.
    Completed,
}

impl WaiterState {
    /// Stable token for the local receipt face.
    pub fn as_str(self) -> (token: &'static str)
        ensures
            token@ == match self {
                WaiterState::NotStarted => "false"@,
                WaiterState::Completed => "true"@,
            },
    {
        match self {
            WaiterState::NotStarted => "false",
            WaiterState::Completed => "true",
        }
    }
}

/// Outcome of an in-process wait attempt.
#[derive(Clone, Copy, Debug, PartialEq, Eq, Structural)]
pub struct WaitOutcome {
    /// Whether a waiter child started.
    pub waiter: WaiterState,
    /// Classified child result. Not a harness-turn claim.
    pub result: WaitResult,
    /// Raw child exit code, if any.
    pub chanvoy_exit: Option<i32>,
    /// Process exit: 0 matched, 1 timeout, otherwise 2.
    pub process_exit: i32,
}

/// A waiter could not be started.
#[derive(Clone, Copy, Debug, PartialEq, Eq, Structural)]
pub struct NotStarted;

/// Spawn a waiter. Tests inject a missing runner.
pub trait WaitRunner {
    /// Run `chanvoy wait` argv and return the child's exit code, which a child
    /// that was killed has not.
    fn run(&self, args: &Vec<String>) -> Result<Option<i32>, NotStarted>;
}

/// An optional text is absent or paste-safe.
pub open spec fn absent_or_safe(value: Option<String>, max: usize) -> bool {
    value matches Some(text) ==> sanitize::paste_safe(text@, max)
}

impl WaitOnSpec {
    /// Every field can appear on a paste-safe face.
    pub open spec fn safe(self) -> bool {
        &&& sanitize::paste_safe(self.channel@, MAX_ID)
        &&& absent_or_safe(self.after, MAX_ID)
        &&& sanitize::paste_safe(self.timeout@, MAX_TIMEOUT)
        &&& absent_or_safe(self.team, MAX_ID)
    }
}

fn is_absent_or_safe(value: &Option<String>, max: usize) -> (safe: bool)
    ensures
        safe == absent_or_safe(*value, max),
{
    match value {
        Some(text) => paste_token(text.as_str(), max).is_some(),
        None => true,
    }
}

/// True when every spec field is paste-safe.
pub fn spec_is_paste_safe(spec: &WaitOnSpec) -> (safe: bool)
    ensures
        safe == spec.safe(),
{
    paste_token(spec.channel.as_str(), MAX_ID).is_some() && is_absent_or_safe(
        &spec.after,
        MAX_ID,
    ) && paste_token(spec.timeout.as_str(), MAX_TIMEOUT).is_some() && is_absent_or_safe(
        &spec.team,
        MAX_ID,
    )
}

/// The arguments of `chanvoy wait`.
pub open spec fn wait_args(spec: WaitOnSpec) -> Seq<Seq<char>> {
    let team = match spec.team {
        Some(team) => seq!["--team"@, team@],
        None => Seq::empty(),
    };
    let after = match spec.after {
        Some(after) => seq!["--after"@, after@],
        None => Seq::empty(),
    };
    seq!["wait"@] + team + seq![spec.channel@] + after + seq![
        "--timeout"@,
        spec.timeout@,
        "--json"@,
    ]
}

fn push_text(list: &mut Vec<String>, value: &str)
    ensures
        text::texts(final(list)@) == text::texts(old(list)@).push(value@),
{
    list.push(value.to_owned());
    assert(text::texts(list@) =~= text::texts(old(list)@).push(value@));
}

/// Build the `chanvoy wait` argv (without the program name).
pub fn chanvoy_wait_args(spec: &WaitOnSpec) -> (args: Vec<String>)
    ensures
        text::texts(args@) == wait_args(*spec),
{
    let mut args: Vec<String> = Vec::new();
    assert(text::texts(args@) =~= Seq::<Seq<char>>::empty());
    push_text(&mut args, "wait");
    if let Some(team) = &spec.team {
        push_text(&mut args, "--team");
        push_text(&mut args, team.as_str());
    }
    push_text(&mut args, spec.channel.as_str());
    if let Some(after) = &spec.after {
        push_text(&mut args, "--after");
        push_text(&mut args, after.as_str());
    }
    push_text(&mut args, "--timeout");
    push_text(&mut args, spec.timeout.as_str());
    push_text(&mut args, "--json");
    assert(text::texts(args@) =~= wait_args(*spec));
    args
}

/// How a result counts as a waiter's completion.
pub open spec fn completion_of(result: WaitResult) -> WaiterCompletion {
    match result {
        WaitResult::Matched => WaiterCompletion::Matched,
        WaitResult::Timeout => WaiterCompletion::DeadmanExpired,
        WaitResult::Error => WaiterCompletion::Failed,
    }
}

/// The waiter's own step.
pub open spec fn waiter_step(sequence: u64, fact: LifecycleFact) -> LifecycleStep {
    LifecycleStep { sequence, fact, source: ReceiptSource::WaiterProcess }
}

/// What a waiter can say of its own wait.
pub open spec fn waiter_steps(outcome: WaitOutcome) -> Seq<LifecycleStep> {
    if outcome.waiter == WaiterState::NotStarted {
        seq![
            waiter_step(1, LifecycleFact::CoverageEnded(CoverageEndReason::RunnerNotStarted)),
        ]
    } else {
        seq![
            waiter_step(1, LifecycleFact::WaitArmed),
            waiter_step(2, LifecycleFact::WaiterCompleted(completion_of(outcome.result))),
        ]
    }
}

fn append_waiter(log: &mut ReceiptLog, sequence: u64, fact: LifecycleFact)
    requires
        sequence > 0,
        ReceiptSource::WaiterProcess.proves(fact.proved()),
        interrupt::append_fault(old(log)@, waiter_step(sequence, fact)) is None,
    ensures
        final(log)@ == old(log)@.push(waiter_step(sequence, fact)),
{
    if let Ok(receipt) = LifecycleReceipt::try_new(sequence, fact, ReceiptSource::WaiterProcess) {
        let _ = log.append(receipt);
    }
}

/// Build waiter-process receipts. The waiter cannot evidence `turn_started`.
pub fn waiter_receipt_log(outcome: &WaitOutcome) -> (log: ReceiptLog)
    ensures
        log@ == waiter_steps(*outcome),
{
    let mut log = ReceiptLog::new();
    if outcome.waiter == WaiterState::NotStarted {
        append_waiter(
            &mut log,
            1,
            LifecycleFact::CoverageEnded(CoverageEndReason::RunnerNotStarted),
        );
        assert(log@ =~= waiter_steps(*outcome));
        return log;
    }
    append_waiter(&mut log, 1, LifecycleFact::WaitArmed);
    let completion = match outcome.result {
        WaitResult::Matched => WaiterCompletion::Matched,
        WaitResult::Timeout => WaiterCompletion::DeadmanExpired,
        WaitResult::Error => WaiterCompletion::Failed,
    };
    append_waiter(&mut log, 2, LifecycleFact::WaiterCompleted(completion));
    assert(log@ =~= waiter_steps(*outcome));
    log
}

/// The word for what a phase's receipt says.
pub open spec fn detail_of(fact: LifecycleFact) -> Seq<char> {
    match fact {
        LifecycleFact::WaiterCompleted(completion) => completion.token(),
        LifecycleFact::CoverageEnded(reason) => reason.token(),
        _ => "observed"@,
    }
}

/// One line of a receipt.
pub open spec fn phase_line(steps: Seq<LifecycleStep>, phase: InterruptPhase) -> Seq<char> {
    match interrupt::observed(steps, phase) {
        PhaseObservation::Unknown => phase.token() + ": unknown"@,
        PhaseObservation::Observed { fact, source } => phase.token() + ": "@ + detail_of(fact)
            + "  ("@ + source.token() + ")"@,
    }
}

fn format_phase_line(log: &ReceiptLog, phase: InterruptPhase) -> (line: String)
    ensures
        line@ == phase_line(log@, phase),
{
    let mut line = phase.as_str().to_owned();
    match log.observe(phase) {
        PhaseObservation::Unknown => line.append(": unknown"),
        PhaseObservation::Observed { fact, source } => {
            let detail = match fact {
                LifecycleFact::WaiterCompleted(completion) => completion.as_str(),
                LifecycleFact::CoverageEnded(reason) => reason.as_str(),
                _ => "observed",
            };
            line.append(": ");
            line.append(detail);
            line.append("  (");
            line.append(source.as_str());
            line.append(")");
        },
    }
    line
}

/// What a receipt shows of an optional cursor.
pub open spec fn shown_cursor(after: Option<String>) -> Seq<char> {
    match after {
        Some(after) => sanitize::pasted(after@, MAX_ID),
        None => "unknown"@,
    }
}

/// What a receipt shows of an optional exit code.
pub open spec fn shown_exit(code: Option<i32>) -> Seq<char> {
    match code {
        Some(code) => text::signed_decimal(code as int),
        None => "unknown"@,
    }
}

/// A receipt for what a log says.
pub open spec fn receipt_text(
    spec: WaitOnSpec,
    exit: Option<i32>,
    steps: Seq<LifecycleStep>,
) -> Seq<char> {
    "gearwit self wait-on\nchannel: "@ + sanitize::pasted(spec.channel@, MAX_ID) + "\nafter: "@
        + shown_cursor(spec.after) + "\ntimeout: "@ + sanitize::pasted(spec.timeout@, MAX_TIMEOUT)
        + "\ndurability: in_process\nchanvoy_exit: "@ + shown_exit(exit) + "\n"@ + phase_line(
        steps,
        InterruptPhase::WaitArmed,
    ) + "\n"@ + phase_line(steps, InterruptPhase::SignalMatched) + "\n"@ + phase_line(
        steps,
        InterruptPhase::WaiterCompleted,
    ) + "\n"@ + phase_line(steps, InterruptPhase::TurnStarted) + "\n"@ + phase_line(
        steps,
        InterruptPhase::ModelObserved,
    ) + "\n"@ + phase_line(steps, InterruptPhase::SeatActed) + "\n"@ + phase_line(
        steps,
        InterruptPhase::CoverageRearmed,
    ) + "\n"@ + phase_line(steps, InterruptPhase::CoverageEnded) + "\n"@
}

/// Render a paste-safe receipt using interrupt-lifecycle tokens.
pub fn render_wait_receipt(spec: &WaitOnSpec, outcome: &WaitOutcome) -> (receipt: String)
    ensures
        receipt@ == receipt_text(*spec, outcome.chanvoy_exit, waiter_steps(*outcome)),
{
    let log = waiter_receipt_log(outcome);
    let mut receipt = "gearwit self wait-on\nchannel: ".to_owned();
    receipt.append(paste_field(spec.channel.as_str(), MAX_ID).as_str());
    receipt.append("\nafter: ");
    match &spec.after {
        Some(after) => receipt.append(paste_field(after.as_str(), MAX_ID).as_str()),
        None => receipt.append("unknown"),
    }
    receipt.append("\ntimeout: ");
    receipt.append(paste_field(spec.timeout.as_str(), MAX_TIMEOUT).as_str());
    receipt.append("\ndurability: in_process\nchanvoy_exit: ");
    match outcome.chanvoy_exit {
        Some(code) => receipt.append(signed_decimal_text(code).as_str()),
        None => receipt.append("unknown"),
    }
    receipt.append("\n");
    receipt.append(format_phase_line(&log, InterruptPhase::WaitArmed).as_str());
    receipt.append("\n");
    receipt.append(format_phase_line(&log, InterruptPhase::SignalMatched).as_str());
    receipt.append("\n");
    receipt.append(format_phase_line(&log, InterruptPhase::WaiterCompleted).as_str());
    receipt.append("\n");
    receipt.append(format_phase_line(&log, InterruptPhase::TurnStarted).as_str());
    receipt.append("\n");
    receipt.append(format_phase_line(&log, InterruptPhase::ModelObserved).as_str());
    receipt.append("\n");
    receipt.append(format_phase_line(&log, InterruptPhase::SeatActed).as_str());
    receipt.append("\n");
    receipt.append(format_phase_line(&log, InterruptPhase::CoverageRearmed).as_str());
    receipt.append("\n");
    receipt.append(format_phase_line(&log, InterruptPhase::CoverageEnded).as_str());
    receipt.append("\n");
    receipt
}

/// What a run of the waiter comes to.
pub open spec fn outcome_of(ran: Result<Option<i32>, NotStarted>) -> WaitOutcome {
    match ran {
        Ok(code) => {
            let process_exit: i32 = if code == Some(0i32) {
                0
            } else if code == Some(1i32) {
                1
            } else {
                2
            };
            WaitOutcome {
                waiter: WaiterState::Completed,
                result: WaitResult::of_code(process_exit),
                chanvoy_exit: code,
                process_exit,
            }
        },
        Err(_) => WaitOutcome {
            waiter: WaiterState::NotStarted,
            result: WaitResult::Error,
            chanvoy_exit: None,
            process_exit: 2,
        },
    }
}

/// Classifies a run of the waiter.
pub fn classify_run(ran: Result<Option<i32>, NotStarted>) -> (outcome: WaitOutcome)
    ensures
        outcome == outcome_of(ran),
{
    match ran {
        Ok(code) => {
            let process_exit: i32 = match code {
                Some(raw) => if raw == 0 {
                    0
                } else if raw == 1 {
                    1
                } else {
                    2
                },
                None => 2,
            };
            WaitOutcome {
                waiter: WaiterState::Completed,
                result: WaitResult::from_code(process_exit),
                chanvoy_exit: code,
                process_exit,
            }
        },
        Err(_) => WaitOutcome {
            waiter: WaiterState::NotStarted,
            result: WaitResult::Error,
            chanvoy_exit: None,
            process_exit: 2,
        },
    }
}

/// Execute a wait with an injected runner: it gets exactly the arguments of the
/// spec, and the outcome is that of its run. An unsafe spec starts nothing.
pub fn execute_wait_on<R: WaitRunner>(spec: &WaitOnSpec, runner: &R) -> (outcome: WaitOutcome)
    ensures
        if spec.safe() {
            exists|args: Vec<String>, ran: Result<Option<i32>, NotStarted>|
                {
                    &&& text::texts(args@) == wait_args(*spec)
                    &&& #[trigger] call_ensures(R::run, (runner, &args), ran)
                    &&& outcome == outcome_of(ran)
                }
        } else {
            outcome == outcome_of(Err(NotStarted))
        },
{
    if !spec_is_paste_safe(spec) {
        return classify_run(Err(NotStarted));
    }
    let args = chanvoy_wait_args(spec);
    let ran = runner.run(&args);
    classify_run(ran)
}

/// No receipt of a waiter says that a turn started, that the model saw the
/// signal or that the seat acted, however its process ended.
pub proof fn waiter_receipts_claim_no_turn(outcome: WaitOutcome)
    ensures
        interrupt::observed(waiter_steps(outcome), InterruptPhase::TurnStarted) is Unknown,
        interrupt::observed(waiter_steps(outcome), InterruptPhase::ModelObserved) is Unknown,
        interrupt::observed(waiter_steps(outcome), InterruptPhase::SeatActed) is Unknown,
{
    let steps = waiter_steps(outcome);
    assert forall|i: int| 0 <= i < steps.len() implies {
        let phase = (#[trigger] steps[i]).fact.proved();
        !(phase is TurnStarted) && !(phase is ModelObserved) && !(phase is SeatActed)
    } by {
        if outcome.waiter == WaiterState::NotStarted {
            assert(i == 0);
        } else {
            assert(i == 0 || i == 1);
        }
    }
}

/// A waiter that never started has not completed: its receipt says only why
/// coverage ended.
pub proof fn missing_runner_completes_nothing(outcome: WaitOutcome)
    requires
        outcome.waiter == WaiterState::NotStarted,
    ensures
        interrupt::observed(waiter_steps(outcome), InterruptPhase::WaiterCompleted) is Unknown,
        interrupt::observed(waiter_steps(outcome), InterruptPhase::WaitArmed) is Unknown,
        interrupt::observed(waiter_steps(outcome), InterruptPhase::CoverageEnded) == (
        PhaseObservation::Observed {
            fact: LifecycleFact::CoverageEnded(CoverageEndReason::RunnerNotStarted),
            source: ReceiptSource::WaiterProcess,
        }),
{
    let steps = waiter_steps(outcome);
    assert(steps.len() == 1);
    assert(interrupt::first_for(steps, InterruptPhase::CoverageEnded, 0));
}

/// An exit code of zero is a match, one a timeout, and everything else an
/// error, also for a child without a code.
pub proof fn process_exit_follows_result(ran: Result<Option<i32>, NotStarted>)
    ensures
        outcome_of(ran).result is Matched <==> outcome_of(ran).process_exit == 0,
        outcome_of(ran).result is Timeout <==> outcome_of(ran).process_exit == 1,
        outcome_of(ran).result is Error <==> outcome_of(ran).process_exit == 2,
{
}

} // verus!
