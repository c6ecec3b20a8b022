//! Laws of what a wait reports of itself.

use crate::interrupt;
use crate::interrupt::{
    CoverageEndReason, InterruptPhase, LifecycleFact, LifecycleStep, PhaseObservation,
    ReceiptSource, WaiterCompletion,
};
use crate::sanitize;
use crate::text;
use crate::wait_on;
use crate::wait_on::{NotStarted, WaitOnSpec, WaitOutcome, WaitResult, WaiterState};
use vstd::prelude::*;
use vstd::string::*;
use vstd::utf8::*;

verus! {

/// What the waiter itself observed of a phase.
pub open spec fn seen_by_waiter(fact: LifecycleFact) -> PhaseObservation {
    PhaseObservation::Observed { fact, source: ReceiptSource::WaiterProcess }
}

proof fn started_steps(outcome: WaitOutcome)
    requires
        outcome.waiter == WaiterState::Completed,
    ensures
        interrupt::observed(wait_on::waiter_steps(outcome), InterruptPhase::WaitArmed)
            == seen_by_waiter(LifecycleFact::WaitArmed),
        interrupt::observed(wait_on::waiter_steps(outcome), InterruptPhase::WaiterCompleted)
            == seen_by_waiter(LifecycleFact::WaiterCompleted(wait_on::completion_of(outcome.result))),
        interrupt::observed(wait_on::waiter_steps(outcome), InterruptPhase::SignalMatched)
            is Unknown,
        interrupt::observed(wait_on::waiter_steps(outcome), InterruptPhase::CoverageRearmed)
            is Unknown,
        interrupt::observed(wait_on::waiter_steps(outcome), InterruptPhase::CoverageEnded)
            is Unknown,
{
    let steps = wait_on::waiter_steps(outcome);
    assert(steps.len() == 2);
    assert(interrupt::first_for(steps, InterruptPhase::WaitArmed, 0));
    assert(steps[0].fact.proved() != InterruptPhase::WaiterCompleted);
    assert(interrupt::first_for(steps, InterruptPhase::WaiterCompleted, 1));
}

/// A run of the waiter is reported as it ended: exit 0 is a match, exit 1 an
/// expired deadman, every other exit, or none, a failure. The child's own code is
/// kept, and only a waiter that started is reported as armed and completed.
pub proof fn receipt_names_its_own_run(ran: Result<Option<i32>, NotStarted>)
    ensures
        ({
            let outcome = wait_on::outcome_of(ran);
            let completed = interrupt::observed(
                wait_on::waiter_steps(outcome),
                InterruptPhase::WaiterCompleted,
            );
            &&& completed == seen_by_waiter(
                LifecycleFact::WaiterCompleted(WaiterCompletion::Matched),
            ) <==> ran == Ok::<Option<i32>, NotStarted>(Some(0i32))
            &&& completed == seen_by_waiter(
                LifecycleFact::WaiterCompleted(WaiterCompletion::DeadmanExpired),
            ) <==> ran == Ok::<Option<i32>, NotStarted>(Some(1i32))
            &&& completed == seen_by_waiter(
                LifecycleFact::WaiterCompleted(WaiterCompletion::Failed),
            ) <==> (ran matches Ok(code) && code != Some(0i32) && code != Some(1i32))
            &&& completed is Unknown <==> ran is Err
            &&& interrupt::observed(wait_on::waiter_steps(outcome), InterruptPhase::WaitArmed)
                == if ran is Ok {
                seen_by_waiter(LifecycleFact::WaitArmed)
            } else {
                PhaseObservation::Unknown
            }
            &&& ran matches Ok(code) ==> outcome.chanvoy_exit == code && outcome.waiter
                == WaiterState::Completed
            &&& ran is Err ==> outcome.chanvoy_exit is None && outcome.waiter
                == WaiterState::NotStarted
            &&& outcome.process_exit == if ran == Ok::<Option<i32>, NotStarted>(Some(0i32)) {
                0i32
            } else if ran == Ok::<Option<i32>, NotStarted>(Some(1i32)) {
                1i32
            } else {
                2i32
            }
            &&& outcome.result == if ran == Ok::<Option<i32>, NotStarted>(Some(0i32)) {
                WaitResult::Matched
            } else if ran == Ok::<Option<i32>, NotStarted>(Some(1i32)) {
                WaitResult::Timeout
            } else {
                WaitResult::Error
            }
        }),
{
    let outcome = wait_on::outcome_of(ran);
    if ran is Ok {
        started_steps(outcome);
    } else {
        wait_on::missing_runner_completes_nothing(outcome);
    }
}

/// The waiter's lines of a receipt, word for word: what the result was, and that
/// nothing is known of what the waiter cannot see.
pub proof fn receipt_lines_are_literal(outcome: WaitOutcome)
    ensures
        ({
            let steps = wait_on::waiter_steps(outcome);
            let line = |phase: InterruptPhase| wait_on::phase_line(steps, phase);
            &&& line(InterruptPhase::SignalMatched) == "signal_matched: unknown"@
            &&& line(InterruptPhase::TurnStarted) == "turn_started: unknown"@
            &&& line(InterruptPhase::ModelObserved) == "model_observed: unknown"@
            &&& line(InterruptPhase::SeatActed) == "seat_acted: unknown"@
            &&& line(InterruptPhase::CoverageRearmed) == "coverage_rearmed: unknown"@
            &&& outcome.waiter == WaiterState::NotStarted ==> {
                &&& line(InterruptPhase::WaitArmed) == "wait_armed: unknown"@
                &&& line(InterruptPhase::WaiterCompleted) == "waiter_completed: unknown"@
                &&& line(InterruptPhase::CoverageEnded)
                    == "coverage_ended: runner_not_started  (waiter_process)"@
            }
            &&& outcome.waiter == WaiterState::Completed ==> {
                &&& line(InterruptPhase::WaitArmed) == "wait_armed: observed  (waiter_process)"@
                &&& line(InterruptPhase::CoverageEnded) == "coverage_ended: unknown"@
                &&& line(InterruptPhase::WaiterCompleted) == match outcome.result {
                    WaitResult::Matched => "waiter_completed: matched  (waiter_process)"@,
                    WaitResult::Timeout => "waiter_completed: deadman_expired  (waiter_process)"@,
                    WaitResult::Error => "waiter_completed: failed  (waiter_process)"@,
                }
            }
        }),
{
    let steps = wait_on::waiter_steps(outcome);
    reveal_strlit(": unknown");
    reveal_strlit(": ");
    reveal_strlit("  (");
    reveal_strlit(")");
    reveal_strlit("observed");
    reveal_strlit("waiter_process");
    reveal_strlit("wait_armed");
    reveal_strlit("signal_matched");
    reveal_strlit("waiter_completed");
    reveal_strlit("turn_started");
    reveal_strlit("model_observed");
    reveal_strlit("seat_acted");
    reveal_strlit("coverage_rearmed");
    reveal_strlit("coverage_ended");
    reveal_strlit("matched");
    reveal_strlit("deadman_expired");
    reveal_strlit("failed");
    reveal_strlit("runner_not_started");
    reveal_strlit("signal_matched: unknown");
    reveal_strlit("turn_started: unknown");
    reveal_strlit("model_observed: unknown");
    reveal_strlit("seat_acted: unknown");
    reveal_strlit("coverage_rearmed: unknown");
    reveal_strlit("wait_armed: unknown");
    reveal_strlit("waiter_completed: unknown");
    reveal_strlit("coverage_ended: unknown");
    reveal_strlit("coverage_ended: runner_not_started  (waiter_process)");
    reveal_strlit("wait_armed: observed  (waiter_process)");
    reveal_strlit("waiter_completed: matched  (waiter_process)");
    reveal_strlit("waiter_completed: deadman_expired  (waiter_process)");
    reveal_strlit("waiter_completed: failed  (waiter_process)");
    wait_on::waiter_receipts_claim_no_turn(outcome);
    assert("signal_matched"@ + ": unknown"@ =~= "signal_matched: unknown"@);
    assert("turn_started"@ + ": unknown"@ =~= "turn_started: unknown"@);
    assert("model_observed"@ + ": unknown"@ =~= "model_observed: unknown"@);
    assert("seat_acted"@ + ": unknown"@ =~= "seat_acted: unknown"@);
    assert("coverage_rearmed"@ + ": unknown"@ =~= "coverage_rearmed: unknown"@);
    assert("wait_armed"@ + ": unknown"@ =~= "wait_armed: unknown"@);
    assert("waiter_completed"@ + ": unknown"@ =~= "waiter_completed: unknown"@);
    assert("coverage_ended"@ + ": unknown"@ =~= "coverage_ended: unknown"@);
    assert("coverage_ended"@ + ": "@ + "runner_not_started"@ + "  ("@ + "waiter_process"@ + ")"@
        =~= "coverage_ended: runner_not_started  (waiter_process)"@);
    assert("wait_armed"@ + ": "@ + "observed"@ + "  ("@ + "waiter_process"@ + ")"@
        =~= "wait_armed: observed  (waiter_process)"@);
    assert("waiter_completed"@ + ": "@ + "matched"@ + "  ("@ + "waiter_process"@ + ")"@
        =~= "waiter_completed: matched  (waiter_process)"@);
    assert("waiter_completed"@ + ": "@ + "deadman_expired"@ + "  ("@ + "waiter_process"@ + ")"@
        =~= "waiter_completed: deadman_expired  (waiter_process)"@);
    assert("waiter_completed"@ + ": "@ + "failed"@ + "  ("@ + "waiter_process"@ + ")"@
        =~= "waiter_completed: failed  (waiter_process)"@);
    if outcome.waiter == WaiterState::Completed {
        started_steps(outcome);
    } else {
        wait_on::missing_runner_completes_nothing(outcome);
        assert(steps.len() == 1);
        assert(interrupt::observed(steps, InterruptPhase::SignalMatched) is Unknown);
        assert(interrupt::observed(steps, InterruptPhase::CoverageRearmed) is Unknown);
    }
}

/// A paste-safe face shows a bounded text without control characters as it is,
/// and of every other text only that it was rejected.
pub proof fn pasting_is_literal(raw: Seq<char>, max: usize)
    ensures
        ({
            let harmless = raw.len() > 0 && encode_utf8(raw).len() <= max && forall|i: int|
                0 <= i < raw.len() ==> #[trigger] raw[i] >= ' ' && !(raw[i] >= '\u{7f}' && raw[i]
                    <= '\u{9f}');
            sanitize::pasted(raw, max) == if harmless {
                raw
            } else {
                "rejected"@
            }
        }),
{
    if sanitize::paste_safe(raw, max) {
        assert forall|i: int| 0 <= i < raw.len() implies #[trigger] raw[i] >= ' ' && !(raw[i]
            >= '\u{7f}' && raw[i] <= '\u{9f}') by {
            assert(!sanitize::control(raw[i]));
        }
    }
}

/// The receipt of a paste-safe wait shows channel, baseline, timeout and the
/// child's exit, and then one line for each phase in lifecycle order.
pub proof fn receipt_shows_its_wait(
    spec: WaitOnSpec,
    exit: Option<i32>,
    steps: Seq<LifecycleStep>,
)
    requires
        sanitize::paste_safe(spec.channel@, 128),
        sanitize::paste_safe(spec.timeout@, 16),
        spec.after matches Some(after) ==> sanitize::paste_safe(after@, 128),
    ensures
        ({
            let line = |phase: InterruptPhase| wait_on::phase_line(steps, phase);
            let after = match spec.after {
                Some(after) => after@,
                None => "unknown"@,
            };
            let code = match exit {
                Some(code) => text::signed_decimal(code as int),
                None => "unknown"@,
            };
            wait_on::receipt_text(spec, exit, steps) == "gearwit self wait-on\nchannel: "@
                + spec.channel@ + "\nafter: "@ + after + "\ntimeout: "@ + spec.timeout@
                + "\ndurability: in_process\nchanvoy_exit: "@ + code + "\n"@ + line(
                InterruptPhase::WaitArmed,
            ) + "\n"@ + line(InterruptPhase::SignalMatched) + "\n"@ + line(
                InterruptPhase::WaiterCompleted,
            ) + "\n"@ + line(InterruptPhase::TurnStarted) + "\n"@ + line(
                InterruptPhase::ModelObserved,
            ) + "\n"@ + line(InterruptPhase::SeatActed) + "\n"@ + line(
                InterruptPhase::CoverageRearmed,
            ) + "\n"@ + line(InterruptPhase::CoverageEnded) + "\n"@
        }),
{
}

/// The waiter is run as `wait [--team T] C [--after A] --timeout D --json`, with
/// the exclusive baseline that was asked for.
pub proof fn wait_is_run_as_asked(spec: WaitOnSpec)
    ensures
        ({
            let args = wait_on::wait_args(spec);
            let n = args.len();
            let at: int = if spec.team is Some {
                3
            } else {
                1
            };
            &&& n == 5 + (if spec.team is Some {
                2int
            } else {
                0
            }) + (if spec.after is Some {
                2int
            } else {
                0
            })
            &&& args[0] == "wait"@
            &&& spec.team matches Some(team) ==> args[1] == "--team"@ && args[2] == team@
            &&& args[at] == spec.channel@
            &&& spec.after matches Some(after) ==> args[at + 1] == "--after"@ && args[at + 2]
                == after@
            &&& args[n - 3] == "--timeout"@
            &&& args[n - 2] == spec.timeout@
            &&& args[n - 1] == "--json"@
        }),
{
}

/// A wait is refused exactly where one of its texts cannot stand on a paste-safe
/// face: channel, baseline and team up to 128 bytes, the timeout up to 16.
pub proof fn safe_wait_is_literal(spec: WaitOnSpec)
    ensures
        spec.safe() <==> {
            &&& sanitize::paste_safe(spec.channel@, 128)
            &&& sanitize::paste_safe(spec.timeout@, 16)
            &&& spec.after matches Some(after) ==> sanitize::paste_safe(after@, 128)
            &&& spec.team matches Some(team) ==> sanitize::paste_safe(team@, 128)
        },
{
}

/// A waiter that never started tells of the end of its coverage and of nothing else.
pub proof fn unstarted_waiter_tells_only_of_its_end(outcome: WaitOutcome)
    requires
        outcome.waiter == WaiterState::NotStarted,
    ensures
        ({
            let steps = wait_on::waiter_steps(outcome);
            &&& steps.len() == 1
            &&& steps[0].sequence == 1
            &&& steps[0].source == ReceiptSource::WaiterProcess
            &&& steps[0].fact == LifecycleFact::CoverageEnded(CoverageEndReason::RunnerNotStarted)
            &&& interrupt::observed(steps, InterruptPhase::WaitArmed) is Unknown
            &&& interrupt::observed(steps, InterruptPhase::WaiterCompleted) is Unknown
            &&& interrupt::observed(steps, InterruptPhase::CoverageEnded) == seen_by_waiter(
                LifecycleFact::CoverageEnded(CoverageEndReason::RunnerNotStarted),
            )
        }),
{
    let steps = wait_on::waiter_steps(outcome);
    assert(steps.len() == 1);
    assert(interrupt::first_for(steps, InterruptPhase::CoverageEnded, 0));
}

} // verus!
