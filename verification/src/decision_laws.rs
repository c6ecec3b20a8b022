//! Laws of single decisions, stated over what their functions may return.

use crate::ack;
use crate::ack::{AckStore, HandledServe};
use crate::ack_laws;
use crate::admission::{LinkSession, LinkTable};
use crate::attach;
use crate::authority::{
    AuthorityError, DaemonAuthority, PreparedDispatch, ProbeAuthorization,
};
use crate::check;
use crate::child;
use crate::child::{EndFault, KillAttempt, KillReap};
use crate::codex;
use crate::codex::{CodexLane, DispatchStep, LateStep, PollStep, ProbeReading};
use crate::codex_laws;
use crate::codex_steps;
use crate::codex_steps::{ResumeEvent, ResumeStage, ResumeStep};
use crate::controller::{
    ControllerCommand, ControllerIdleGuard, ControllerWriteError, IdleProbeObservation,
    IdleProbeResult, ManagedCapability, NativeCoordinateKind, NativeMutationEpoch, NativeTurnFact,
    NativeWriteDisposition, ProbeBinding, SecretNativeCoordinate, TerminalClass,
};
use crate::daemon;
use crate::daemon::{
    AttachedStep, DaemonAction, DaemonCoverage, DaemonEvent, DaemonPipe, PollPlan, PollRead,
    PollVerdict, ShutdownReport,
};
use crate::exchange;
use crate::exchange::{
    FlushEvent, FrameWrite, ReadEvent, RequestKind, WriteEvent, WriteFailure, WriteReceipt,
};
use crate::ident::PrivateNativeRef;
use crate::interrupt;
use crate::interrupt::{
    CoveragePolicy, CoveragePolicyError, InterruptPhase, LifecycleFact, PhaseObservation,
    ReceiptLog, WaiterCompletion,
};
use crate::launch;
use crate::launch::FileIdentity;
use crate::link;
use crate::link::{LinkError, LinkFault};
use crate::paths;
use crate::paths::{BindError, BindFault, GearwitPaths, ListenerProbe, PathKind};
use crate::persist::Persist;
use crate::protocol;
use crate::protocol::{HandledCursor, HandledCursorError, LinkModel, WaiterLink};
use crate::receipt_laws;
use crate::text;
use crate::timestamp::{Span, Timestamp};
use crate::transport::{NativeRef, Notification, Received, TransportError, TurnEnd};
use crate::turn_laws;
use crate::wait_on;
use crate::wait_on::{NotStarted, WaitOutcome, WaitResult, WaiterState};
use crate::who;
use crate::who::{HarnessHint, HarnessMarkers};
use vstd::prelude::*;
use vstd::string::*;
use vstd::utf8::*;

verus! {

/// Authority makes a turn ready on an idle observation at most five seconds old,
/// and on none that is older or lies in the future.
pub proof fn authority_goes_by_recent_observations<P: Persist>(
    authority: &mut DaemonAuthority<P>,
    prepared: PreparedDispatch,
    binding: ProbeBinding,
    epoch: NativeMutationEpoch,
    observed_at: Timestamp,
    authorized: Result<ProbeAuthorization, AuthorityError>,
)
    requires
        call_ensures(
            DaemonAuthority::<P>::authorize_probe,
            (
                authority,
                prepared,
                Ok(
                    IdleProbeResult::Idle {
                        observation: IdleProbeObservation::Idle {
                            binding,
                            probe_id: prepared.expected_probe_id,
                            epoch,
                            observed_at,
                        },
                        lane: ControllerIdleGuard { probe_id: prepared.expected_probe_id, epoch },
                    },
                ),
            ),
            authorized,
        ),
        turn_laws::current(old(authority)@, prepared.attachment),
        turn_laws::answers(prepared, binding),
        prepared.attachment.attempt_id == prepared.correlation.attempt_id,
        prepared.attachment.birth_id == prepared.correlation.birth_id,
        epoch.birth_id == prepared.correlation.birth_id,
        old(authority)@.store.attachments.dom().contains(prepared.attachment.attempt_id),
        old(authority)@.store.attachments[prepared.attachment.attempt_id] == prepared.attachment,
        !old(authority)@.store.consumed_probes.contains(prepared.expected_probe_id),
        !old(authority)@.store.reservations.dom().contains(prepared.correlation.attempt_id),
    ensures
        observed_at.nanos <= old(authority)@.now.nanos && old(authority)@.now.nanos
            < observed_at.nanos + 5_000_000_000 ==> authorized is Ok && authorized->Ok_0 is Ready
            && final(authority)@.store.reservations.dom().contains(
            prepared.correlation.attempt_id,
        ),
        old(authority)@.now.nanos < observed_at.nanos || old(authority)@.now.nanos
            >= observed_at.nanos + 5_000_000_000 ==> authorized == Err::<
            ProbeAuthorization,
            AuthorityError,
        >(AuthorityError::Unauthorized) && final(authority)@ == old(authority)@,
{
    let before = old(authority)@;
    if observed_at.nanos <= before.now.nanos && before.now.nanos < observed_at.nanos
        + 5_000_000_000 {
        turn_laws::recent_idle_probe_starts_the_turn(before, prepared, binding, epoch, observed_at);
    }
}

/// An end has the class that it is named after.
pub proof fn end_has_its_own_class(end: TurnEnd, class: TerminalClass)
    requires
        call_ensures(codex::terminal_class, (end,), class),
    ensures
        end is Succeeded <==> class is Succeeded,
        end is Failed <==> class is Failed,
        end is Interrupted <==> class is NativeInterrupted,
{
}

/// The end of a started turn is told as it was.
pub proof fn observed_end_is_told_as_it_was(
    lane: &mut CodexLane,
    turn_ref: &PrivateNativeRef,
    thread: &NativeRef,
    turn: &NativeRef,
    end: TurnEnd,
    told: Received,
    step: PollStep,
)
    requires
        told matches Received::Notification(Notification::Terminal { thread: t, turn: u, class })
            && t@ == thread@ && u@ == turn@ && class == end,
        old(lane).started_turn == Some(*turn_ref),
        !old(lane).terminal,
        call_ensures(CodexLane::exact_notification, (lane, turn_ref, thread, turn, Ok(told)), step),
    ensures
        step matches PollStep::Done(Some(NativeTurnFact::Terminal { turn_ref: named, class }))
            && named == *turn_ref && (end is Succeeded <==> class is Succeeded) && (end is Failed
            <==> class is Failed) && (end is Interrupted <==> class is NativeInterrupted),
        final(lane).terminal,
{
}

/// An applied request that rearms, rearms after its own cursor, for its own signal
/// and one generation later.
pub proof fn applied_request_rearms_after_its_cursor(
    store: &mut AckStore,
    request: HandledCursor,
    now: Timestamp,
    result: Result<HandledServe, HandledCursorError>,
)
    requires
        call_ensures(ack::apply_handled_request, (store, request, now), result),
        ack_laws::history_echoes(old(store)@),
        request@ is Request,
    ensures
        result matches Ok(served) ==> (served.rearm matches Some(rearm) ==> {
            &&& rearm.after@ == request@->Request_cursor
            &&& rearm.signal_id@ == request@->Request_signal_id
            &&& old(store)@.arm is Some
            &&& rearm.generation == old(store)@.arm->0.generation + 1
            &&& served.reply@ is Accepted
        }),
{
    ack_laws::rearm_starts_after_the_accepted_cursor(old(store)@, request@, now);
}

/// The daemon starts its wait again exactly where coverage rearms, after that
/// cursor; it offers a claim exactly where coverage pauses; and it halts with the
/// exit that it was given.
pub proof fn daemon_follows_its_coverage(
    event: DaemonEvent,
    now: Timestamp,
    coverage_until: Timestamp,
    action: DaemonAction,
)
    requires
        call_ensures(daemon::daemon_step, (event, now, coverage_until), action),
    ensures
        event matches DaemonEvent::Ingested(DaemonCoverage::Rearm { after }) ==> (action matches
            DaemonAction::Respawn(cursor) && cursor@ == after@),
        action is Respawn ==> event is Ingested && event->Ingested_0 is Rearm,
        event matches DaemonEvent::Ingested(DaemonCoverage::Pause) ==> action is Flush,
        action is Flush ==> event is Ingested && event->Ingested_0 is Pause,
        event matches DaemonEvent::Ingested(DaemonCoverage::Halt { exit }) ==> (action matches
            DaemonAction::Halt(code) && code == exit),
        event is Tick && coverage_until.nanos <= now.nanos ==> (action matches DaemonAction::Halt(
            code,
        ) && code == 1),
        event is Tick && now.nanos < coverage_until.nanos ==> action is Continue,
        event is ChildRunning ==> action is Continue,
        event is AcceptLost || event is SpawnFailed || event is ChildFailed ==> (action matches
            DaemonAction::Halt(code) && code == 2),
{
}

/// Coverage after a wait: a timeout rearms after the same cursor, an error halts
/// with 2, a match pauses.
pub proof fn coverage_follows_its_wait(
    wait: WaitResult,
    current_after: &str,
    coverage: DaemonCoverage,
)
    requires
        call_ensures(daemon::daemon_coverage, (wait, current_after), coverage),
    ensures
        wait is Timeout ==> (coverage matches DaemonCoverage::Rearm { after } && after@
            == current_after@),
        wait is Error ==> (coverage matches DaemonCoverage::Halt { exit } && exit == 2),
        wait is Matched ==> coverage is Pause,
{
}

/// The receipt log of a run says how it ended: exit 0 is a match, exit 1 an expired
/// deadman, and anything else a failure.
pub proof fn logged_completion_is_that_of_the_run(
    ran: Result<Option<i32>, NotStarted>,
    outcome: WaitOutcome,
    log: ReceiptLog,
)
    requires
        call_ensures(wait_on::classify_run, (ran,), outcome),
        call_ensures(wait_on::waiter_receipt_log, (&outcome,), log),
    ensures
        ({
            let completed = interrupt::observed(log@, InterruptPhase::WaiterCompleted);
            let as_completed = |completion: WaiterCompletion|
                completed matches PhaseObservation::Observed { fact, .. } && fact
                    == LifecycleFact::WaiterCompleted(completion);
            &&& ran == Ok::<Option<i32>, NotStarted>(Some(0i32)) <==> as_completed(
                WaiterCompletion::Matched,
            )
            &&& ran == Ok::<Option<i32>, NotStarted>(Some(1i32)) <==> as_completed(
                WaiterCompletion::DeadmanExpired,
            )
            &&& ran is Err ==> completed is Unknown
        }),
{
    receipt_laws::receipt_names_its_own_run(ran);
}

/// An exit code means a match, a timeout or an error.
pub proof fn exit_code_means_its_result(code: i32, result: WaitResult)
    requires
        call_ensures(WaitResult::from_code, (code,), result),
    ensures
        result is Matched <==> code == 0,
        result is Timeout <==> code == 1,
        result is Error <==> code != 0 && code != 1,
{
}

/// A halt ends with its own code, or with 2 where the child could not be ended.
pub proof fn halt_keeps_its_code(child_failed: bool, code: i32, exit: i32)
    requires
        call_ensures(daemon::halt_exit, (child_failed, code), exit),
    ensures
        child_failed ==> exit == 2,
        !child_failed ==> exit == code,
{
}

/// A waiter that attached is served only under the live session, with no other
/// writer held, within its lease and with a deadline on its reads.
pub proof fn attached_waiter_is_served_under_its_lease(
    session: Option<&LinkSession>,
    table: &LinkTable,
    writer_occupied: bool,
    timeout_set: bool,
    now: Timestamp,
    step: AttachedStep,
)
    requires
        call_ensures(
            daemon::attached_step,
            (session, table, writer_occupied, timeout_set, now),
            step,
        ),
    ensures
        ({
            let live = !writer_occupied && session is Some && table@ is Some && table@->0.link_id
                == session->0@.link_id && table@->0.arm_id == session->0@.arm_id
                && table@->0.generation == session->0@.generation;
            let timely = live && timeout_set && now.nanos < table@->0.lease_until.nanos;
            &&& step is Ignore <==> !live
            &&& step is Flush <==> timely
            &&& step is Revoke <==> live && !timely
        }),
{
}

/// A session is retained where it is the live link's own and no writer is held.
pub proof fn live_session_is_retained(
    session: Option<&LinkSession>,
    table: &LinkTable,
    writer_occupied: bool,
    retain: bool,
)
    requires
        call_ensures(daemon::retain_live_attach, (session, table, writer_occupied), retain),
    ensures
        retain <==> !writer_occupied && session is Some && table@ is Some && table@->0.link_id
            == session->0@.link_id && table@->0.arm_id == session->0@.arm_id && table@->0.generation
            == session->0@.generation,
{
}

/// A waiter's result is read while its session is live and its lease runs, for at
/// most fifty milliseconds.
pub proof fn poll_reads_within_the_lease(
    session: Option<&LinkSession>,
    table: &LinkTable,
    now: Timestamp,
    plan: PollPlan,
)
    requires
        call_ensures(daemon::plan_poll, (session, table, now), plan),
    ensures
        ({
            let live = session is Some && table@ is Some && table@->0.link_id
                == session->0@.link_id && table@->0.arm_id == session->0@.arm_id
                && table@->0.generation == session->0@.generation && now.nanos
                < table@->0.lease_until.nanos;
            &&& session is None <==> plan == PollPlan::Read(None)
            &&& session is Some && !live <==> plan is Revoke
            &&& live ==> plan is Read && plan->Read_0 is Some && 1_000_000
                <= plan->Read_0->0.nanos <= 50_000_000
        }),
{
}

/// What a waiter answers is recorded, and a lost link leaves its batch to be
/// written again.
pub proof fn polled_answer_is_taken_in(
    pipe: &mut DaemonPipe,
    read: &PollRead,
    verdict: PollVerdict,
)
    requires
        call_ensures(daemon::poll_result, (pipe, read), verdict),
    ensures
        final(pipe)@.claim == old(pipe)@.claim,
        *read is Idle ==> verdict is Keep && final(pipe)@ == old(pipe)@,
        *read is Failed ==> verdict is RevokeLost && final(pipe)@ == old(pipe)@,
        read matches PollRead::Message(message) ==> (message@ matches LinkModel::DeliveryResult {
            outcome,
            ..
        } ==> (outcome == "link_lost"@ ==> verdict is RevokeLost && !final(pipe)@.attempted) && (
        outcome == "return_completed"@ || outcome == "return_failed"@ ==> verdict is RevokeDone
            && final(pipe)@.attempted == old(pipe)@.attempted)),
{
    reveal_strlit("link_lost");
    reveal_strlit("return_completed");
    reveal_strlit("return_failed");
    assert("link_lost"@.len() != "return_completed"@.len());
    assert("link_lost"@.len() != "return_failed"@.len());
}

/// A transport that is lost consumes neither claim nor batch and drops its own
/// session alone.
pub proof fn lost_transport_drops_its_session(
    pipe: &mut DaemonPipe,
    table: &mut LinkTable,
    session: Option<&LinkSession>,
    now: Timestamp,
)
    requires
        call_ensures(daemon::on_transport_loss, (pipe, table, session, now), ()),
    ensures
        final(pipe)@.claim == old(pipe)@.claim,
        final(pipe)@.ledger == old(pipe)@.ledger,
        !final(pipe)@.attempted,
        session is None ==> final(table)@ == old(table)@,
        session is Some && old(table)@ is Some && old(table)@->0.link_id == session->0@.link_id
            ==> final(table)@ is None,
        session is Some && !(old(table)@ is Some && old(table)@->0.link_id == session->0@.link_id)
            ==> final(table)@ == old(table)@,
{
}

/// A shutdown leaves no live link, and counts the child as gone where it was reaped
/// or there was none.
pub proof fn shutdown_leaves_no_link(
    table: &mut LinkTable,
    reaped: bool,
    occupied: bool,
    report: ShutdownReport,
)
    requires
        call_ensures(daemon::shutdown_daemon, (table, reaped, occupied), report),
    ensures
        final(table)@ is None,
        !report.link_live,
        report.child_reaped <==> reaped || !occupied,
{
}

/// A declared role that is a seat token is the seat; every other is the default.
pub proof fn declared_seat_is_kept(declared: Option<&str>, seat: String)
    requires
        call_ensures(daemon::seat_id, (declared,), seat),
    ensures
        declared is None ==> seat@ == "gearwit-seat"@,
        declared is Some && daemon::seat_role(declared->0@) ==> seat@ == declared->0@,
        declared is Some && !daemon::seat_role(declared->0@) ==> seat@ == "gearwit-seat"@,
{
}

/// A lease that still runs leaves exactly the time to its end.
pub proof fn lease_leaves_the_time_to_its_end(
    lease_until: Timestamp,
    now: Timestamp,
    result: Result<Span, String>,
)
    requires
        call_ensures(attach::remaining_lease, (lease_until, now), result),
    ensures
        result is Ok <==> now.nanos < lease_until.nanos && lease_until.nanos - now.nanos
            <= u64::MAX,
        result matches Ok(span) ==> now.nanos + span.nanos == lease_until.nanos,
        result matches Err(reason) ==> reason@ == "lease expired"@,
{
}

/// A waiter reports the batch that it got: completed where the receipt was
/// written, failed where it was not.
pub proof fn waiter_reports_its_own_batch(
    delivery: &WaiterLink,
    written: bool,
    now: Timestamp,
    result: Result<WaiterLink, String>,
)
    requires
        call_ensures(attach::delivery_result, (delivery, written, now), result),
    ensures
        result is Ok <==> delivery@ is DeliverEvents,
        result matches Ok(message) ==> {
            &&& message@ is DeliveryResult
            &&& message@->DeliveryResult_delivery_id == delivery@->DeliverEvents_delivery_id
            &&& message@->DeliveryResult_link_id == delivery@->DeliverEvents_link_id
            &&& message@->DeliveryResult_signal_id == delivery@->DeliverEvents_signal_id
            &&& written ==> message@->DeliveryResult_outcome == "return_completed"@
            &&& !written ==> message@->DeliveryResult_outcome == "return_failed"@
        },
        result matches Err(reason) ==> reason@ == "expected deliver_events"@,
{
}

/// The stored receipt is shown as it is, and its absence as unknown.
pub proof fn stored_receipt_is_shown(stored: Option<&str>, text: String)
    requires
        call_ensures(check::render_check_from, (stored,), text),
    ensures
        stored is Some && stored->0@.len() > 0 ==> text@ == "gearwit self check\n"@ + stored->0@,
        stored is None || stored->0@.len() == 0 ==> text@
            == "gearwit self check\nlast_receipt: unknown\n"@,
{
}

/// Ending a child reports the step that failed, the kill before the wait, and
/// counts a child that had ended before as reaped but not killed.
pub proof fn ended_child_is_reported(
    ended: Option<(KillAttempt, bool)>,
    result: Result<KillReap, EndFault>,
)
    requires
        call_ensures(child::kill_and_reap, (ended,), result),
    ensures
        ended is None ==> result == Ok::<KillReap, EndFault>(
            KillReap { killed: false, reaped: false },
        ),
        ended is Some && (ended->0).0 is Failed ==> result == Err::<KillReap, EndFault>(
            EndFault::Kill,
        ),
        ended is Some && !((ended->0).0 is Failed) && !(ended->0).1 ==> result == Err::<
            KillReap,
            EndFault,
        >(EndFault::Wait),
        ended is Some && (ended->0).0 is Killed && (ended->0).1 ==> result == Ok::<
            KillReap,
            EndFault,
        >(KillReap { killed: true, reaped: true }),
        ended is Some && (ended->0).0 is Gone && (ended->0).1 ==> result == Ok::<
            KillReap,
            EndFault,
        >(KillReap { killed: false, reaped: true }),
{
}

/// A late answer to a create in doubt seals the thread that it names, denies it
/// only by the server's own error, and otherwise settles nothing.
pub proof fn late_answer_settles_only_what_it_says(
    received: Result<Received, TransportError>,
    step: LateStep,
)
    requires
        call_ensures(codex::late_create_step, (received,), step),
    ensures
        received matches Ok(Received::ThreadStarted(thread)) ==> step == LateStep::Seal(thread),
        received == Err::<Received, TransportError>(TransportError::Native)
            <==> step is ProvenNotAccepted,
        step is Seal ==> received is Ok && received->Ok_0 is ThreadStarted,
{
}

/// A resumption goes through its exchanges in their order, and fails with the error
/// of the exchange that failed.
pub proof fn resumption_goes_through_its_exchanges<P: Persist>(
    persist: &P,
    lane: &CodexLane,
    event: ResumeEvent,
    step: ResumeStep,
)
    requires
        call_ensures(codex_steps::resume_step::<P>, (persist, lane, event), step),
    ensures
        event == ResumeEvent::Attached(Ok(())) ==> step == ResumeStep::Perform(ResumeStage::Start),
        event == ResumeEvent::Started(Ok(())) ==> step == ResumeStep::Perform(
            ResumeStage::Handshake,
        ),
        event == ResumeEvent::Asked(Ok(())) ==> step == ResumeStep::Perform(ResumeStage::Answer),
        event is Attached && event->Attached_0 is Err ==> step == ResumeStep::Failed(
            event->Attached_0->Err_0,
        ),
        event is Started && event->Started_0 is Err ==> step == ResumeStep::Failed(
            event->Started_0->Err_0,
        ),
        event is Asked && event->Asked_0 is Err ==> step == ResumeStep::Failed(
            event->Asked_0->Err_0,
        ),
        event is Handshake && event->Handshake_0 is Err ==> step == ResumeStep::Failed(
            event->Handshake_0->Err_0,
        ),
        event is Answered && event->Answered_0 is Err ==> step == ResumeStep::Failed(
            event->Answered_0->Err_0,
        ),
        step is Resumed <==> event is Answered && event->Answered_0 is Ok
            && event->Answered_0->Ok_0 is ThreadResumed,
        step is Ask ==> event is Handshake && event->Handshake_0 is Ok
            && event->Handshake_0->Ok_0 is Initialized,
        event is Answered && event->Answered_0 is Ok && !(event->Answered_0->Ok_0 is ThreadResumed)
            ==> step == ResumeStep::Failed(TransportError::Correlation),
{
}

/// The last check before a turn leaves: dispatch needs a clean drain, the probe's
/// own epoch, the command's own binding and running leases.
pub proof fn dispatch_is_authorized_under_its_authority(
    lane: &mut CodexLane,
    command: &ControllerCommand,
    drained: bool,
    now: Timestamp,
    result: Result<DispatchStep, ControllerWriteError>,
)
    requires
        call_ensures(CodexLane::authorize_dispatch, (lane, command, drained, now), result),
    ensures
        (result matches Ok(DispatchStep::Dispatch)) <==> drained && codex_laws::may_leave(
            *old(lane),
            *command,
            now,
        ),
        result matches Ok(DispatchStep::Dispatch) ==> *final(lane) == *old(lane),
        !(result matches Ok(DispatchStep::Dispatch)) ==> final(lane).lane_probe is None,
        !drained ==> result == Ok::<DispatchStep, ControllerWriteError>(
            DispatchStep::Concluded(NativeWriteDisposition::ProvenNotAccepted),
        ),
{
    let epoch = command.expected_epoch;
    if epoch.birth_id == old(lane).birth.birth_id && epoch.sequence == old(lane).epoch {
        assert(epoch == old(lane).epoch_at(old(lane).epoch));
    }
}

/// While an answer is awaited a report is taken at the present epoch, unasked
/// messages move the epoch on, and anything else fails the reading.
pub proof fn awaited_report_is_taken_at_its_epoch(
    lane: &mut CodexLane,
    received: Result<Received, TransportError>,
    reading: ProbeReading,
)
    requires
        call_ensures(CodexLane::probe_received, (lane, received), reading),
    ensures
        received matches Ok(Received::ThreadRead(state)) ==> reading == (ProbeReading::Read {
            state,
            epoch: old(lane).epoch,
        }) && *final(lane) == *old(lane),
        received is Ok && (received->Ok_0 is Notification
            || received->Ok_0 is ServerRequestRejected) ==> reading is Again && (old(lane).epoch
            < u64::MAX ==> final(lane).epoch == old(lane).epoch + 1),
        received is Err ==> reading is Failed && *final(lane) == *old(lane),
{
}

/// A write that failed is settled only where not a byte was written.
pub proof fn failed_write_is_settled_by_its_receipt(
    failure: WriteFailure,
    disposition: NativeWriteDisposition,
)
    requires
        call_ensures(exchange::failed_write_disposition, (failure,), disposition),
    ensures
        failure.receipt is ProvenNotWritten ==> disposition is ProvenNotAccepted,
        !(failure.receipt is ProvenNotWritten) ==> disposition is Unknown,
{
}

/// A frame is its text's bytes and a line end, within one mebibyte.
pub proof fn frame_is_a_bounded_line(value: &str, result: Result<Vec<u8>, WriteFailure>)
    requires
        call_ensures(exchange::encode_frame, (value,), result),
    ensures
        result is Ok <==> encode_utf8(value@).len() < 1_048_576,
        result matches Ok(frame) ==> frame@ =~= encode_utf8(value@) + seq![10u8],
        result matches Err(failure) ==> failure.error is Bounds
            && failure.receipt is ProvenNotWritten,
{
}

/// A write event moves the frame on by what was written, and a failure tells
/// whether anything may have left.
pub proof fn write_events_are_counted(
    write: &mut FrameWrite,
    event: WriteEvent,
    failure: Option<WriteFailure>,
)
    requires
        call_ensures(FrameWrite::on_write, (write, event), failure),
        old(write).well_formed(),
        event matches WriteEvent::Wrote(n) ==> n <= old(write).total - old(write).written,
    ensures
        final(write).total == old(write).total,
        event matches WriteEvent::Wrote(n) ==> final(write).written == old(write).written + n && (
        failure is Some <==> n == 0),
        event matches WriteEvent::Blocked { expired } ==> final(write).written
            == old(write).written && (failure is Some <==> expired) && (failure is Some
            ==> failure->0.error is Deadline),
        event is Failed ==> failure is Some && failure->0.error is Closed,
        failure is Some ==> (failure->0.receipt is ProvenNotWritten <==> old(write).written == 0)
            && (failure->0.receipt is PossiblyWritten <==> old(write).written > 0),
{
}

/// A frame counts as written once it is flushed; before that a failure leaves it in
/// doubt.
pub proof fn flushed_frame_is_written(
    write: &FrameWrite,
    event: FlushEvent,
    result: Option<Result<WriteReceipt, WriteFailure>>,
)
    requires
        call_ensures(FrameWrite::on_flush, (write, event), result),
    ensures
        event is Flushed <==> result == Some(Ok::<WriteReceipt, WriteFailure>(WriteReceipt::Written)),
        result is None <==> (event matches FlushEvent::Blocked { expired } && !expired),
        result matches Some(Err(failure)) ==> failure.receipt is PossiblyWritten && (
        event is Failed ==> failure.error is Ambiguous) && (event is Blocked
            ==> failure.error is Deadline),
{
}

/// Only the supported version, on a line of its own, is accepted.
pub proof fn only_the_supported_version_passes(output: &[u8], result: Result<(), TransportError>)
    requires
        call_ensures(exchange::version_matches, (output,), result),
    ensures
        result is Ok <==> output@ == encode_utf8("codex-cli 0.152.1"@).push(10u8),
        result is Err ==> result->Err_0 is Version,
{
}

/// Counted bytes stop at their maximum.
pub proof fn counted_bytes_stop_at_the_maximum(
    total: usize,
    read: usize,
    maximum: usize,
    result: Result<usize, TransportError>,
    counted: (usize, bool),
)
    requires
        call_ensures(exchange::drain_bounded, (total, read, maximum), result),
        call_ensures(exchange::count_diagnostics, (total, read), counted),
    ensures
        result is Ok <==> total + read <= maximum,
        result matches Ok(sum) ==> sum == total + read,
        result is Err ==> result->Err_0 is Bounds,
        counted.1 <==> total + read > 16_384,
        !counted.1 ==> counted.0 == total + read,
        counted.1 ==> counted.0 == 16_384,
{
}

/// A frame is taken on the command channel within its bound.
pub proof fn frame_is_taken_on_the_command_channel(
    length: usize,
    channel: u16,
    result: Result<(), LinkError>,
)
    requires
        call_ensures(link::accept_frame, (length, channel), result),
    ensures
        result is Ok <==> length <= 262_144 && channel == 1,
        result matches Err(error) ==> (length > 262_144 ==> error@ == LinkFault::Frame(
            "payload over the frame bound"@,
        )) && (length <= 262_144 ==> error@ == LinkFault::WrongChannel(channel)),
{
}

/// The executable that runs is the one that was qualified, and its process stands
/// in its own group with a session.
pub proof fn started_process_is_the_qualified_one(
    qualified: FileIdentity,
    observed: Option<FileIdentity>,
    same: Result<(), TransportError>,
    seen: Option<u32>,
    session: Option<u32>,
    group: u32,
    member: Result<(), TransportError>,
    birth: Option<u64>,
    expected: u64,
    joined: bool,
    stands: bool,
)
    requires
        call_ensures(launch::same_executable, (qualified, observed), same),
        call_ensures(launch::prove_group_member, (seen, session, group), member),
        call_ensures(launch::anchor_stands, (birth, expected, joined), stands),
    ensures
        same is Ok <==> observed is Some && observed->0 == qualified,
        same is Err ==> same->Err_0 is Identity,
        member is Ok <==> seen is Some && seen->0 == group && session is Some && session->0 != 0,
        member is Err ==> member->Err_0 is Group,
        stands <==> birth is Some && birth->0 == expected && joined,
{
}

/// A start whose cleanup failed says so, and a cleanup succeeds only as a whole.
pub proof fn cleanup_succeeds_as_a_whole(
    error: TransportError,
    cleaned: bool,
    reported: TransportError,
    terminated: bool,
    killed: bool,
    child_gone: bool,
    anchor_gone: bool,
    result: Result<(), TransportError>,
)
    requires
        call_ensures(launch::settle_failure, (error, cleaned), reported),
        call_ensures(launch::cleanup_verdict, (terminated, killed, child_gone, anchor_gone), result),
    ensures
        cleaned ==> reported == error,
        !cleaned ==> reported is Cleanup,
        result is Ok <==> terminated && killed && child_gone && anchor_gone,
        result is Err ==> result->Err_0 is Cleanup,
{
}

/// A server is read from while its diagnostics are readable and within bounds and
/// its input is open.
pub proof fn server_is_read_while_sound(
    overflow: bool,
    failed: bool,
    input_open: bool,
    result: Result<(), TransportError>,
)
    requires
        call_ensures(launch::receive_allowed, (overflow, failed, input_open), result),
    ensures
        result is Ok <==> !overflow && !failed && input_open,
        overflow || failed ==> result == Err::<(), TransportError>(TransportError::Bounds),
        !overflow && !failed && !input_open ==> result == Err::<(), TransportError>(
            TransportError::Closed,
        ),
{
}

/// Private directories stand below the root and are this user's own; a missing one
/// is created, and nothing else is taken for one.
pub proof fn private_directories_are_owned(
    path: &str,
    kind: PathKind,
    owner: u32,
    user: u32,
    needed: Result<bool, BindError>,
    required: Result<(), BindError>,
)
    requires
        call_ensures(paths::private_dir_needed, (path, kind), needed),
        call_ensures(paths::require_private_dir, (path, kind, owner, user), required),
    ensures
        kind is Absent ==> (needed matches Ok(create) && create),
        kind is Directory ==> (needed matches Ok(create) && !create),
        kind is Symlink ==> needed is Err && needed->Err_0@ == BindFault::Symlink(path@),
        kind is Socket || kind is Other ==> needed is Err && needed->Err_0@
            == BindFault::NotADirectory(path@),
        required is Ok <==> kind is Directory && owner == user,
        kind is Directory && owner != user ==> required->Err_0@ == BindFault::WrongOwner(path@),
        kind is Symlink ==> required->Err_0@ == BindFault::Symlink(path@),
{
}

/// A socket path is taken where nothing stands, or where a socket of this user
/// refuses connections; a live listener is never displaced.
pub proof fn live_listener_is_not_displaced(
    path: &str,
    kind: PathKind,
    owner: u32,
    user: u32,
    probed: Result<bool, BindError>,
    probe: &ListenerProbe,
    bound: Result<(), BindError>,
)
    requires
        call_ensures(paths::socket_needs_probe, (path, kind, owner, user), probed),
        call_ensures(paths::bind_over, (path, probe), bound),
    ensures
        kind is Absent ==> (probed matches Ok(again) && !again),
        kind is Socket && owner == user ==> (probed matches Ok(again) && again),
        kind is Socket && owner != user ==> probed is Err && probed->Err_0@
            == BindFault::WrongOwner(path@),
        kind is Symlink ==> probed is Err && probed->Err_0@ == BindFault::Symlink(path@),
        kind is Directory || kind is Other ==> probed is Err && probed->Err_0@
            == BindFault::NotASocket(path@),
        bound is Ok <==> *probe is Refused,
        *probe is Live ==> bound->Err_0@ == BindFault::LiveListener(path@),
{
}

/// The production root stands below the home directory, and without one there is
/// none.
pub proof fn root_stands_below_home(home: Option<&str>, result: Result<String, BindError>)
    requires
        call_ensures(paths::canonical_root, (home,), result),
    ensures
        home is Some ==> result is Ok && result->Ok_0@ == paths::below(
            paths::below(home->0@, ".lanyte"@),
            "gearwit"@,
        ),
        home is None ==> result is Err && result->Err_0@ == BindFault::HomeUnset,
{
}

/// Socket and state stand in their own directories below the root.
pub proof fn socket_and_state_stand_below_the_root(
    resolved: &GearwitPaths,
    socket: String,
    state: String,
    dirs: (String, String, String),
)
    requires
        call_ensures(GearwitPaths::socket_path, (resolved,), socket),
        call_ensures(GearwitPaths::state_dir, (resolved,), state),
        call_ensures(GearwitPaths::private_dirs, (resolved,), dirs),
    ensures
        socket@ == paths::below(paths::below(resolved.root@, "run"@), "gearwit.sock"@),
        state@ == paths::below(resolved.root@, "state"@),
        dirs.0@ == resolved.root@,
        dirs.1@ == paths::below(resolved.root@, "run"@),
        dirs.2@ == state@,
{
}

/// The first marker in a fixed order names the harness.
pub proof fn first_marker_names_the_harness(markers: HarnessMarkers, hint: HarnessHint)
    requires
        call_ensures(who::detect_harness_hint, (markers,), hint),
    ensures
        hint is Grok <==> markers.grok,
        hint is Codex <==> markers.codex && !markers.grok,
        hint is ClaudeCode <==> markers.claude_code && !markers.grok && !markers.codex,
        hint is OpenCode <==> markers.open_code && !markers.grok && !markers.codex
            && !markers.claude_code,
        hint is Unmarked <==> !markers.grok && !markers.codex && !markers.claude_code
            && !markers.open_code,
{
}

/// A policy is made of a coverage and a deadman that is not zero and no longer;
/// otherwise the fault is named, coverage first.
pub proof fn policy_bounds_its_deadman(
    coverage: Span,
    deadman: Span,
    result: Result<CoveragePolicy, CoveragePolicyError>,
)
    requires
        call_ensures(CoveragePolicy::try_new, (coverage, deadman), result),
    ensures
        result is Ok <==> deadman.nanos > 0 && deadman.nanos <= coverage.nanos,
        result matches Ok(policy) ==> policy.covered() == coverage && policy.interval() == deadman,
        coverage.nanos == 0 ==> result == Err::<CoveragePolicy, CoveragePolicyError>(
            CoveragePolicyError::ZeroCoverage,
        ),
        coverage.nanos > 0 && deadman.nanos == 0 ==> result == Err::<
            CoveragePolicy,
            CoveragePolicyError,
        >(CoveragePolicyError::ZeroDeadman),
        0 < coverage.nanos < deadman.nanos ==> result == Err::<CoveragePolicy, CoveragePolicyError>(
            CoveragePolicyError::DeadmanExceedsCoverage,
        ),
{
}

/// A route names its capability, and no other route names one.
pub proof fn route_names_its_capability(
    route: &str,
    capability: Option<ManagedCapability>,
    named: &'static str,
)
    requires
        call_ensures(ManagedCapability::parse, (route,), capability),
        call_ensures(ManagedCapability::as_route, (ManagedCapability::HandleClaimedSignal,), named),
    ensures
        capability is Some <==> route@ == "handle_claimed_signal"@,
        named@ == "handle_claimed_signal"@,
{
}

/// A native coordinate keeps its text of one to 1024 bytes, and nothing else can be
/// one.
pub proof fn coordinate_keeps_its_text(
    kind: NativeCoordinateKind,
    value: &str,
    result: Result<SecretNativeCoordinate, &'static str>,
)
    requires
        call_ensures(SecretNativeCoordinate::new, (kind, value), result),
    ensures
        result is Ok <==> value@.len() > 0 && encode_utf8(value@).len() <= 1024,
        result matches Ok(coordinate) ==> coordinate.kind == kind && coordinate.plaintext@
            == encode_utf8(value@),
        result matches Err(reason) ==> reason@ == "invalid native coordinate"@,
{
}

/// The earlier of two instants is one of them and not after either; an instant
/// moves by the span that is added.
pub proof fn instants_are_ordered(
    a: Timestamp,
    b: Timestamp,
    first: Timestamp,
    span: i128,
    later: Timestamp,
)
    requires
        call_ensures(Timestamp::earlier, (a, b), first),
        call_ensures(Timestamp::plus, (a, span), later),
        i128::MIN <= a.nanos + span <= i128::MAX,
    ensures
        first.nanos <= a.nanos,
        first.nanos <= b.nanos,
        first == a || first == b,
        later.nanos - a.nanos == span,
{
}

} // verus!
