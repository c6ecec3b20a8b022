//! Laws of the conversation with a server: what its frames say, and what the
//! client may still send.

use crate::bytes;
use crate::codex::{CodexLane, PollStep};
use crate::controller::{NativeTurnFact, TerminalClass};
use crate::exchange;
use crate::exchange::{
    HandledModel, PendingModel, ReadEvent, RequestKind, ResponseView, TransportModel, WriteFailure,
    WriteReceipt,
};
use crate::ident::PrivateNativeRef;
use crate::primitives;
use crate::text;
use crate::transport;
use crate::transport::{
    Envelope, Inbound, NativeRef, Notification, NotificationModel, NotificationView, Received,
    ReceivedModel, ThreadStateModel, ThreadView, TransportError, TurnEnd, TurnView,
};
use vstd::prelude::*;
use vstd::string::*;
use vstd::utf8::*;

verus! {

proof fn words_differ()
    ensures
        "completed"@ != "interrupted"@,
        "completed"@ != "failed"@,
        "completed"@ != "inProgress"@,
        "interrupted"@ != "failed"@,
        "interrupted"@ != "inProgress"@,
        "failed"@ != "inProgress"@,
        "turn/started"@ != "turn/completed"@,
        "idle"@ != "active"@,
{
    reveal_strlit("completed");
    reveal_strlit("interrupted");
    reveal_strlit("failed");
    reveal_strlit("inProgress");
    reveal_strlit("turn/started");
    reveal_strlit("turn/completed");
    reveal_strlit("idle");
    reveal_strlit("active");
    assert("completed"@.len() == 9);
    assert("interrupted"@.len() == 11);
    assert("failed"@.len() == 6);
    assert("inProgress"@.len() == 10);
    assert("turn/started"@.len() == 12);
    assert("turn/completed"@.len() == 14);
    assert("idle"@.len() == 4);
    assert("active"@.len() == 6);
}

/// A status names its own end: completed is success, interrupted and failed are
/// what they say, and no other status ends a turn.
pub proof fn status_names_its_end(status: Seq<char>)
    ensures
        transport::turn_end(Some("completed"@)) == Some(TurnEnd::Succeeded),
        transport::turn_end(Some("interrupted"@)) == Some(TurnEnd::Interrupted),
        transport::turn_end(Some("failed"@)) == Some(TurnEnd::Failed),
        transport::turn_end(None) is None,
        transport::turn_end(Some("inProgress"@)) is None,
        transport::turn_end(Some(status)) is Some <==> status == "completed"@ || status
            == "interrupted"@ || status == "failed"@,
{
    words_differ();
}

/// A turn notification says what it is: the names of its thread and turn, and for
/// a completed turn how it ended, or that its end is not known.
pub proof fn notification_says_what_it_is(view: NotificationView)
    requires
        view.turn_id is Some,
        0 < view.thread_id@.len(),
        encode_utf8(view.thread_id@).len() <= 1024,
        0 < view.turn_id->0@.len(),
        encode_utf8(view.turn_id->0@).len() <= 1024,
        view.method@ == "turn/started"@ || view.method@ == "turn/completed"@,
    ensures
        ({
            let thread = encode_utf8(view.thread_id@);
            let turn = encode_utf8(view.turn_id->0@);
            let said = transport::notification_verdict(view.method@, Some(view));
            let over = view.method@ == "turn/completed"@;
            let status = |word: Seq<char>| view.turn_status is Some && view.turn_status->0@ == word;
            &&& !over ==> said == Ok::<NotificationModel, TransportError>(
                NotificationModel::TurnStarted { thread, turn },
            )
            &&& over && status("completed"@) ==> said == Ok::<NotificationModel, TransportError>(
                NotificationModel::Terminal { thread, turn, class: TurnEnd::Succeeded },
            )
            &&& over && status("interrupted"@) ==> said == Ok::<NotificationModel, TransportError>(
                NotificationModel::Terminal { thread, turn, class: TurnEnd::Interrupted },
            )
            &&& over && status("failed"@) ==> said == Ok::<NotificationModel, TransportError>(
                NotificationModel::Terminal { thread, turn, class: TurnEnd::Failed },
            )
            &&& over && !status("completed"@) && !status("interrupted"@) && !status("failed"@)
                ==> said == Ok::<NotificationModel, TransportError>(
                NotificationModel::DegradedTerminal { thread, turn },
            )
        }),
{
    words_differ();
}

/// Other notifications only signal, and a turn notification without readable
/// names says nothing.
pub proof fn unreadable_notification_says_nothing(
    method: Seq<char>,
    notification: Option<NotificationView>,
)
    ensures
        method != "turn/started"@ && method != "turn/completed"@
            ==> transport::notification_verdict(method, notification) == Ok::<
            NotificationModel,
            TransportError,
        >(NotificationModel::Signal),
        method == "turn/started"@ || method == "turn/completed"@ ==> {
            let said = transport::notification_verdict(method, notification);
            let view = notification->0;
            let named = |name: Seq<char>| 0 < name.len() && encode_utf8(name).len() <= 1024;
            &&& notification is None ==> said == Err::<NotificationModel, TransportError>(
                TransportError::Malformed,
            )
            &&& notification is Some && !named(view.thread_id@) ==> said == Err::<
                NotificationModel,
                TransportError,
            >(TransportError::Bounds)
            &&& notification is Some && named(view.thread_id@) && view.turn_id is None ==> said
                == Err::<NotificationModel, TransportError>(TransportError::Malformed)
            &&& notification is Some && named(view.thread_id@) && view.turn_id is Some && !named(
                view.turn_id->0@,
            ) ==> said == Err::<NotificationModel, TransportError>(TransportError::Bounds)
        },
{
}

/// From the wire to the fact: the status that the server reports of a started turn
/// is the class under which its end is told.
pub proof fn reported_status_is_the_told_class(
    lane: CodexLane,
    turn_ref: PrivateNativeRef,
    view: NotificationView,
    notification: Notification,
)
    requires
        lane.started_turn == Some(turn_ref),
        !lane.terminal,
        view.method@ == "turn/completed"@,
        view.turn_status is Some,
        view.turn_id is Some,
        transport::notification_verdict(view.method@, Some(view)) == Ok::<
            NotificationModel,
            TransportError,
        >(notification@),
    ensures
        ({
            let (after, step) = lane.observed(
                turn_ref,
                encode_utf8(view.thread_id@),
                encode_utf8(view.turn_id->0@),
                Ok(Received::Notification(notification)),
            );
            let told = |class: TerminalClass|
                step == PollStep::Done(Some(NativeTurnFact::Terminal { turn_ref, class }));
            let status = view.turn_status->0@;
            &&& status == "completed"@ ==> told(TerminalClass::Succeeded)
            &&& status == "failed"@ ==> told(TerminalClass::Failed)
            &&& status == "interrupted"@ ==> told(TerminalClass::NativeInterrupted)
            &&& status != "completed"@ && status != "failed"@ && status != "interrupted"@ ==> step
                == PollStep::Done(Some(NativeTurnFact::DegradedTerminalObservation))
        }),
{
    words_differ();
}

/// A turn of a thread report that has a readable name.
pub open spec fn named(turn: TurnView) -> bool {
    &&& turn.id is Some
    &&& 0 < turn.id->0@.len()
    &&& encode_utf8(turn.id->0@).len() <= 1024
}

/// A turn whose status is one of the three ends.
pub open spec fn over(turn: TurnView) -> bool {
    &&& turn.status is Some
    &&& turn.status->0@ == "completed"@ || turn.status->0@ == "interrupted"@ || turn.status->0@
        == "failed"@
}

proof fn turns_read_alike(turn: TurnView)
    ensures
        named(turn) <==> transport::turn_named(turn),
        over(turn) <==> transport::turn_over(turn),
        (turn.status is Some && turn.status->0@ == "inProgress"@) <==> transport::turn_running(turn),
{
    words_differ();
}

/// A thread is idle only where it says so and lists at most sixty-four turns, all
/// named and over; anything else that calls itself idle proves nothing.
pub proof fn idle_thread_has_no_running_turn(view: ThreadView)
    requires
        0 < view.id@.len(),
        encode_utf8(view.id@).len() <= 1024,
        view.status is Some,
        view.status->0.kind@ == "idle"@,
    ensures
        ({
            let turns = view.turns->0@;
            let rest = view.turns is Some && turns.len() <= 64 && forall|i: int|
                0 <= i < turns.len() ==> named(#[trigger] turns[i]) && over(turns[i]);
            let verdict = transport::thread_verdict(Some(view), encode_utf8(view.id@));
            &&& rest ==> verdict == Ok::<ThreadStateModel, TransportError>(ThreadStateModel::Idle)
            &&& !rest ==> verdict == Ok::<ThreadStateModel, TransportError>(
                ThreadStateModel::Unproven,
            )
        }),
{
    let turns = view.turns->0@;
    assert forall|i: int| 0 <= i < turns.len() implies (named(#[trigger] turns[i]) && over(turns[i])
        <==> transport::turn_named(turns[i]) && transport::turn_over(turns[i])) by {
        turns_read_alike(turns[i]);
    }
    if view.turns is Some && turns.len() <= 64 && forall|i: int|
        0 <= i < turns.len() ==> named(#[trigger] turns[i]) && over(turns[i]) {
        assert(transport::at_rest(turns));
    }
    if view.turns is Some && transport::at_rest(turns) {
        assert forall|i: int| 0 <= i < turns.len() implies named(#[trigger] turns[i]) && over(
            turns[i],
        ) by {
            assert(transport::turn_named(turns[i]) && transport::turn_over(turns[i]));
        }
    }
}

/// A thread is active only where it says so under known flags and lists exactly
/// one running turn among named ones, the others over.
pub proof fn active_thread_has_one_running_turn(view: ThreadView, at: int)
    requires
        0 < view.id@.len(),
        encode_utf8(view.id@).len() <= 1024,
        view.status is Some,
        view.status->0.kind@ == "active"@,
    ensures
        ({
            let turns = view.turns->0@;
            let flags = view.status->0.active_flags->0@;
            let known = view.status->0.active_flags is Some && forall|i: int|
                0 <= i < flags.len() ==> (#[trigger] flags[i])@ == "waitingOnApproval"@ || flags[i]@
                    == "waitingOnUserInput"@;
            let only = view.turns is Some && turns.len() <= 64 && 0 <= at < turns.len()
                && turns[at].status is Some && turns[at].status->0@ == "inProgress"@ && (forall|
                j: int,
            | 0 <= j < turns.len() ==> named(#[trigger] turns[j])) && (forall|j: int|
                0 <= j < turns.len() && j != at ==> over(#[trigger] turns[j]));
            let verdict = transport::thread_verdict(Some(view), encode_utf8(view.id@));
            &&& known && only ==> verdict is Ok && verdict->Ok_0 is ActiveTurn
            &&& !known ==> verdict == Ok::<ThreadStateModel, TransportError>(
                ThreadStateModel::Unproven,
            )
            &&& view.turns is None ==> verdict == Ok::<ThreadStateModel, TransportError>(
                ThreadStateModel::Unproven,
            )
            &&& view.turns is Some && (forall|j: int|
                0 <= j < turns.len() ==> !((#[trigger] turns[j]).status is Some
                    && turns[j].status->0@ == "inProgress"@)) ==> verdict == Ok::<
                ThreadStateModel,
                TransportError,
            >(ThreadStateModel::Unproven)
        }),
{
    words_differ();
    let turns = view.turns->0@;
    assert forall|i: int| 0 <= i < turns.len() implies (named(#[trigger] turns[i])
        <==> transport::turn_named(turns[i])) && (over(turns[i]) <==> transport::turn_over(turns[i]))
        && ((turns[i].status is Some && turns[i].status->0@ == "inProgress"@)
        <==> transport::turn_running(turns[i])) by {
        turns_read_alike(turns[i]);
    }
    if view.turns is Some && turns.len() <= 64 && 0 <= at < turns.len() && turns[at].status is Some
        && turns[at].status->0@ == "inProgress"@ && (forall|j: int|
        0 <= j < turns.len() ==> named(#[trigger] turns[j])) && (forall|j: int|
        0 <= j < turns.len() && j != at ==> over(#[trigger] turns[j])) {
        assert forall|j: int| 0 <= j < turns.len() implies transport::turn_named(
            #[trigger] turns[j],
        ) by {
            assert(named(turns[j]));
        }
        assert forall|j: int| 0 <= j < turns.len() && j != at implies transport::turn_over(
            #[trigger] turns[j],
        ) by {
            assert(over(turns[j]));
        }
        assert(transport::only_running(turns, at));
    }
    if view.turns is Some && exists|i: int| transport::only_running(turns, i) {
        let i = choose|i: int| transport::only_running(turns, i);
        assert(transport::turn_running(turns[i]));
        assert(turns[i].status is Some && turns[i].status->0@ == "inProgress"@);
    }
}

/// A report is taken for the thread that was asked for alone.
pub proof fn report_is_for_the_asked_thread(view: ThreadView, requested: Seq<u8>)
    ensures
        ({
            let readable = 0 < view.id@.len() && encode_utf8(view.id@).len() <= 1024;
            let verdict = transport::thread_verdict(Some(view), requested);
            &&& !readable ==> verdict == Err::<ThreadStateModel, TransportError>(
                TransportError::Bounds,
            )
            &&& readable && encode_utf8(view.id@) != requested ==> verdict == Err::<
                ThreadStateModel,
                TransportError,
            >(TransportError::Correlation)
            &&& readable && encode_utf8(view.id@) == requested ==> verdict is Ok
            &&& readable && encode_utf8(view.id@) == requested && (view.status is None || (
            view.status->0.kind@ != "idle"@ && view.status->0.kind@ != "active"@)) ==> verdict
                == Ok::<ThreadStateModel, TransportError>(ThreadStateModel::Unproven)
            &&& transport::thread_verdict(None, requested) == Err::<
                ThreadStateModel,
                TransportError,
            >(TransportError::Malformed)
        }),
{
}

/// A response answers the request that it is for, as that request expects.
pub proof fn response_answers_its_request(view: ResponseView, id: u64, thread: Seq<u8>)
    ensures
        ({
            let asked = |kind: RequestKind, about: Option<Seq<u8>>|
                exchange::response_verdict(Some(view), PendingModel { id, kind, thread: about });
            let named = |name: Seq<char>| 0 < name.len() && encode_utf8(name).len() <= 1024;
            let state = transport::thread_verdict(view.thread, thread);
            &&& asked(RequestKind::Initialize, None) == Ok::<ReceivedModel, TransportError>(
                ReceivedModel::Initialized,
            )
            &&& view.thread_id is Some && named(view.thread_id->0@) ==> asked(
                RequestKind::ThreadStart,
                None,
            ) == Ok::<ReceivedModel, TransportError>(
                ReceivedModel::ThreadStarted(encode_utf8(view.thread_id->0@)),
            )
            &&& view.turn_id is Some && named(view.turn_id->0@) ==> asked(
                RequestKind::TurnStart,
                None,
            ) == Ok::<ReceivedModel, TransportError>(
                ReceivedModel::TurnStarted(encode_utf8(view.turn_id->0@)),
            )
            &&& view.thread_id is None ==> asked(RequestKind::ThreadStart, None) == Err::<
                ReceivedModel,
                TransportError,
            >(TransportError::Malformed)
            &&& view.turn_id is None ==> asked(RequestKind::TurnStart, None) == Err::<
                ReceivedModel,
                TransportError,
            >(TransportError::Malformed)
            &&& view.turn_id is Some && !named(view.turn_id->0@) ==> asked(
                RequestKind::TurnStart,
                None,
            ) == Err::<ReceivedModel, TransportError>(TransportError::Bounds)
            &&& state is Ok ==> asked(RequestKind::ThreadRead, Some(thread)) == Ok::<
                ReceivedModel,
                TransportError,
            >(ReceivedModel::ThreadRead(state->Ok_0)) && asked(
                RequestKind::ThreadResume,
                Some(thread),
            ) == Ok::<ReceivedModel, TransportError>(ReceivedModel::ThreadResumed(state->Ok_0))
            &&& state is Err ==> asked(RequestKind::ThreadRead, Some(thread)) == Err::<
                ReceivedModel,
                TransportError,
            >(state->Err_0) && asked(RequestKind::ThreadResume, Some(thread)) == Err::<
                ReceivedModel,
                TransportError,
            >(state->Err_0)
        }),
{
}

/// A frame is what its members make it: a method with an identifier is a request
/// of the server, a method alone a notification, an identifier with a result
/// object a response, and one with an error object the server's error. Anything
/// else is malformed.
pub proof fn frame_is_what_its_members_make_it(
    envelope: Envelope,
    notification: Option<NotificationView>,
    result: Result<Inbound, TransportError>,
    number: u64,
)
    requires
        transport::classified(Some(envelope), notification, result),
    ensures
        ({
            let numbered = envelope.id is Some && primitives::json_number(envelope.id->0@) == Some(
                number,
            );
            let object = |member: Option<String>|
                member is Some && exists|i: int|
                    0 <= i < member->0@.len() && #[trigger] member->0@[i] == '{' && forall|j: int|
                        0 <= j < i ==> (#[trigger] member->0@[j] == ' ' || member->0@[j] == '\t'
                            || member->0@[j] == '\n' || member->0@[j] == '\r');
            let malformed = result == Err::<Inbound, TransportError>(TransportError::Malformed);
            &&& envelope.method is Some && envelope.id is Some && primitives::json_value(
                envelope.id->0@,
            ) is Some ==> result is Ok && result->Ok_0 is ServerRequest
                && result->Ok_0->ServerRequest_0@ == primitives::json_value(envelope.id->0@)->0
            &&& envelope.method is Some && envelope.id is None && result is Ok
                ==> result->Ok_0 is Notification
            &&& envelope.method is None && numbered && number > 0 && object(envelope.result)
                ==> result == Ok::<Inbound, TransportError>(Inbound::Response { id: number })
            &&& envelope.method is None && numbered && number > 0 && !object(envelope.result)
                && object(envelope.error) ==> result == Ok::<Inbound, TransportError>(
                Inbound::NativeError(number),
            )
            &&& envelope.method is None && numbered && !object(envelope.result) && !object(
                envelope.error,
            ) ==> malformed
            &&& envelope.method is None && numbered && number == 0 ==> malformed
            &&& envelope.method is None && envelope.id is None ==> malformed
        }),
{
    assert forall|value: Seq<char>| #[trigger] transport::opens_object(value) <==> exists|i: int|
        0 <= i < value.len() && #[trigger] value[i] == '{' && forall|j: int|
            0 <= j < i ==> (#[trigger] value[j] == ' ' || value[j] == '\t' || value[j] == '\n'
                || value[j] == '\r') by {
        if transport::opens_object(value) {
            let i = choose|i: int|
                0 <= i < value.len() && #[trigger] value[i] == '{' && forall|j: int|
                    0 <= j < i ==> transport::json_space(#[trigger] value[j]);
            assert forall|j: int| 0 <= j < i implies (#[trigger] value[j] == ' ' || value[j] == '\t'
                || value[j] == '\n' || value[j] == '\r') by {
                assert(transport::json_space(value[j]));
            }
        }
        if exists|i: int|
            0 <= i < value.len() && #[trigger] value[i] == '{' && forall|j: int|
                0 <= j < i ==> (#[trigger] value[j] == ' ' || value[j] == '\t' || value[j] == '\n'
                    || value[j] == '\r') {
            let i = choose|i: int|
                0 <= i < value.len() && #[trigger] value[i] == '{' && forall|j: int|
                    0 <= j < i ==> (#[trigger] value[j] == ' ' || value[j] == '\t' || value[j]
                        == '\n' || value[j] == '\r');
            assert forall|j: int| 0 <= j < i implies transport::json_space(#[trigger] value[j]) by {
            }
        }
    }
}

/// A request may be sent on an initialised conversation that is free of doubt and
/// has nothing outstanding: it gets the next identifier.
pub proof fn request_gets_the_next_identifier(state: TransportModel)
    ensures
        ({
            let (after, begun) = state.begin_request();
            let free = state.initialized && !state.ambiguous && state.pending.len() == 0
                && state.next_id < u64::MAX;
            &&& free ==> begun == Ok::<u64, TransportError>(state.next_id) && after.next_id
                == state.next_id + 1 && after.pending == state.pending && after.ambiguous
                == state.ambiguous && after.initialized && after.notifications
                == state.notifications
            &&& !free ==> begun is Err && after == state
            &&& state.ambiguous ==> begun->Err_0 is Ambiguous
            &&& !state.ambiguous && !state.initialized ==> begun->Err_0 is Preflight
            &&& state.initialized && !state.ambiguous && state.pending.len() > 0
                ==> begun->Err_0 is Bounds
        }),
        state.initialize_verdict() is Ok <==> !state.ambiguous && !state.initialized
            && state.pending.len() == 0,
        state.ambiguous ==> state.initialize_verdict()->Err_0 is Ambiguous,
        !state.ambiguous && (state.initialized || state.pending.len() > 0)
            ==> state.initialize_verdict()->Err_0 is Bounds,
{
}

/// A request that left is outstanding behind the others; one that may have left
/// puts the conversation in doubt; one that did not leaves it as it was.
pub proof fn sent_request_is_outstanding(
    state: TransportModel,
    request: PendingModel,
    failure: WriteFailure,
    receipt: WriteReceipt,
)
    ensures
        ({
            let (after, sent) = state.finish_request(request, Ok(receipt));
            &&& sent is Ok
            &&& after.pending =~= state.pending.push(request)
            &&& after.ambiguous == state.ambiguous
        }),
        ({
            let (after, sent) = state.finish_request(request, Err(failure));
            let doubtful = failure.receipt is PossiblyWritten;
            &&& after.pending == state.pending
            &&& doubtful ==> after.ambiguous && sent == Err::<(), TransportError>(
                TransportError::Ambiguous,
            )
            &&& !doubtful ==> after == state && sent == Err::<(), TransportError>(failure.error)
        }),
{
}

/// A prepared turn keeps its whole frame with a line end, within the bound; once
/// dispatched the frame is gone, and the turn is outstanding where its bytes left
/// or may have left.
pub proof fn prepared_turn_is_dispatched_once(
    state: TransportModel,
    text: Seq<char>,
    id: u64,
    failure: WriteFailure,
)
    ensures
        state.begin_request().1 is Ok && encode_utf8(text).len() < 1_048_576 ==> {
            let (after, prepared) = state.prepare(text);
            &&& prepared == Ok::<u64, TransportError>(state.next_id)
            &&& after.frame =~= encode_utf8(text).push(10u8)
            &&& after.next_id == state.next_id + 1
            &&& after.pending == state.pending
        },
        state.begin_request().1 is Ok && encode_utf8(text).len() >= 1_048_576 ==> state.prepare(
            text,
        ).1 == Err::<u64, TransportError>(TransportError::Bounds) && state.prepare(
            text,
        ).0.frame.len() == 0,
        ({
            let turn = PendingModel { id, kind: RequestKind::TurnStart, thread: None };
            let written = state.finish_turn(id, Ok(WriteReceipt::Written));
            let failed = state.finish_turn(id, Err(failure));
            let doubtful = failure.receipt is PossiblyWritten;
            &&& written.frame.len() == 0
            &&& written.pending =~= state.pending.push(turn)
            &&& !written.ambiguous
            &&& failed.frame.len() == 0
            &&& doubtful ==> failed.ambiguous && failed.pending =~= state.pending.push(turn)
            &&& !doubtful ==> failed.ambiguous == state.ambiguous && failed.pending == state.pending
        }),
{
}

/// The answer to the oldest request settles it and ends the doubt; the server's
/// own error does too; an answer to anything else is refused.
pub proof fn answer_settles_the_oldest_request(
    state: TransportModel,
    id: u64,
    view: Option<ResponseView>,
)
    ensures
        state.pending.len() > 0 && state.pending[0].id == id ==> {
            let verdict = exchange::response_verdict(view, state.pending[0]);
            let (after, handled) = state.handle(Inbound::Response { id }, view);
            &&& verdict is Ok && !(verdict->Ok_0 is Initialized) ==> handled == Ok::<
                HandledModel,
                TransportError,
            >(HandledModel::Received(verdict->Ok_0)) && !after.ambiguous && after.pending
                =~= state.pending.subrange(1, state.pending.len() as int)
            &&& verdict is Ok && verdict->Ok_0 is Initialized ==> handled == Ok::<
                HandledModel,
                TransportError,
            >(HandledModel::Initialized) && !after.ambiguous && after.pending == state.pending
            &&& verdict is Err ==> handled == Err::<HandledModel, TransportError>(verdict->Err_0)
                && after.ambiguous && after.pending == state.pending
        },
        state.pending.len() > 0 && state.pending[0].id == id ==> {
            let (after, handled) = state.handle(Inbound::NativeError(id), view);
            &&& handled == Err::<HandledModel, TransportError>(TransportError::Native)
            &&& !after.ambiguous
            &&& after.pending =~= state.pending.subrange(1, state.pending.len() as int)
        },
        state.pending.len() == 0 || state.pending[0].id != id ==> {
            let (after, handled) = state.handle(Inbound::Response { id }, view);
            let (faulted, refused) = state.handle(Inbound::NativeError(id), view);
            &&& handled == Err::<HandledModel, TransportError>(TransportError::Correlation)
            &&& refused == Err::<HandledModel, TransportError>(TransportError::Correlation)
            &&& after.pending == state.pending
            &&& faulted.pending == state.pending
            &&& state.pending.len() > 0 ==> after.ambiguous && faulted.ambiguous
            &&& state.pending.len() == 0 ==> after.ambiguous == state.ambiguous && faulted.ambiguous
                == state.ambiguous
        },
{
    if state.pending.len() > 0 {
        assert(state.pending.skip(1) =~= state.pending.subrange(1, state.pending.len() as int));
    }
}

/// A notification is told at once where nothing is outstanding, kept back in order
/// while something is, and refused beyond sixty-four of them or before the
/// handshake. Those kept back come out oldest first.
pub proof fn notifications_wait_for_the_answer(
    state: TransportModel,
    notification: Notification,
    view: Option<ResponseView>,
)
    ensures
        ({
            let (after, handled) = state.handle(Inbound::Notification(notification), view);
            let waits = state.initialized && state.pending.len() > 0;
            &&& !state.initialized ==> handled == Err::<HandledModel, TransportError>(
                TransportError::Correlation,
            )
            &&& state.initialized && state.pending.len() == 0 ==> after == state && handled
                == Ok::<HandledModel, TransportError>(
                HandledModel::Received(ReceivedModel::Notification(notification@)),
            )
            &&& waits && state.notifications.len() < 64 ==> handled == Ok::<
                HandledModel,
                TransportError,
            >(HandledModel::Waiting) && after.notifications =~= state.notifications.push(
                notification@,
            ) && after.pending == state.pending
            &&& waits && state.notifications.len() == 64 ==> after == state && handled == Err::<
                HandledModel,
                TransportError,
            >(TransportError::Degraded)
        }),
        state.pending.len() == 0 && state.notifications.len() > 0 ==> {
            let (after, oldest) = state.take_queued();
            &&& oldest == Some(state.notifications[0])
            &&& after.notifications =~= state.notifications.subrange(
                1,
                state.notifications.len() as int,
            )
            &&& after.pending == state.pending
        },
        state.pending.len() > 0 || state.notifications.len() == 0 ==> state.take_queued() == (
            state,
            None::<NotificationModel>,
        ),
{
    if state.notifications.len() > 0 {
        assert(state.notifications.skip(1) =~= state.notifications.subrange(
            1,
            state.notifications.len() as int,
        ));
    }
}

/// The server's own requests are refused by name while nothing is in doubt, and
/// the handshake is done once its completion has been written.
pub proof fn server_requests_are_refused(
    state: TransportModel,
    id: String,
    view: Option<ResponseView>,
    receipt: WriteReceipt,
    failure: WriteFailure,
)
    ensures
        ({
            let (after, handled) = state.handle(Inbound::ServerRequest(id), view);
            &&& after == state
            &&& !state.ambiguous ==> handled == Ok::<HandledModel, TransportError>(
                HandledModel::Refuse(
                    "{\"error\":{\"code\":-32601,\"message\":\"server requests unsupported\"},\"id\":"@
                        + id@ + "}"@,
                ),
            )
            &&& state.ambiguous ==> handled == Err::<HandledModel, TransportError>(
                TransportError::Ambiguous,
            )
        }),
        state.finish_initialized(Ok(receipt)).1 is Ok,
        state.finish_initialized(Ok(receipt)).0.initialized,
        state.finish_initialized(Err(failure)).1 is Err,
        state.finish_initialized(Err(failure)).0.initialized == state.initialized,
{
}

/// Bytes read count against one bound, and a read that fails while something is
/// outstanding leaves it in doubt.
pub proof fn reads_are_counted(state: TransportModel, consumed: usize, error: TransportError)
    ensures
        state.stdout + consumed <= 1_048_576 ==> state.note_read(Ok(consumed)).1 is Ok
            && state.note_read(Ok(consumed)).0.stdout == state.stdout + consumed,
        state.stdout + consumed > 1_048_576 ==> state.note_read(Ok(consumed)) == (
            state,
            Err::<(), TransportError>(TransportError::Bounds),
        ),
        state.pending.len() > 0 ==> state.note_read(Err(error)).0.ambiguous && state.note_read(
            Err(error),
        ).1 == Err::<(), TransportError>(TransportError::Ambiguous),
        state.pending.len() == 0 ==> state.note_read(Err(error)) == (
            state,
            Err::<(), TransportError>(error),
        ),
{
}

/// A line grows by the bytes that are read, ends at a line end, and is given up at
/// its bound, at the end of the stream, at the deadline or where the read fails.
pub proof fn line_grows_to_its_end(line: Seq<u8>, byte: u8)
    requires
        line.len() <= 1_048_576,
    ensures
        byte != 10 && line.len() < 1_048_576 ==> exchange::line_step(line, ReadEvent::Byte(byte))
            == (line.push(byte), None::<Result<nat, TransportError>>),
        byte == 10 ==> exchange::line_step(line, ReadEvent::Byte(byte)) == (
            line,
            Some(Ok::<nat, TransportError>((line.len() + 1) as nat)),
        ),
        byte != 10 && line.len() == 1_048_576 ==> exchange::line_step(line, ReadEvent::Byte(byte))
            == (line, Some(Err::<nat, TransportError>(TransportError::Bounds))),
        exchange::line_step(line, ReadEvent::End) == (
            line,
            Some(
                Err::<nat, TransportError>(
                    if line.len() == 0 {
                        TransportError::Closed
                    } else {
                        TransportError::Malformed
                    },
                ),
            ),
        ),
        exchange::line_step(line, ReadEvent::Blocked { expired: true }) == (
            line,
            Some(Err::<nat, TransportError>(TransportError::Deadline)),
        ),
        exchange::line_step(line, ReadEvent::Blocked { expired: false }) == (
            line,
            None::<Result<nat, TransportError>>,
        ),
        exchange::line_step(line, ReadEvent::Failed) == (
            line,
            Some(Err::<nat, TransportError>(TransportError::Closed)),
        ),
{
}

/// A write that failed settles what left: nothing before the first byte, and
/// perhaps something after it.
pub proof fn interrupted_write_is_in_doubt(written: usize)
    ensures
        exchange::interrupted_receipt(written) is ProvenNotWritten <==> written == 0,
        exchange::interrupted_receipt(written) is PossiblyWritten <==> written > 0,
{
}

/// Requests are written with their own method, identifier and parameters.
pub proof fn requests_are_written_as_named(
    id: u64,
    params: Seq<char>,
    thread: Seq<char>,
    input: Seq<char>,
    helper: Seq<char>,
)
    ensures
        exchange::method_of(RequestKind::Initialize) == "initialize"@,
        exchange::method_of(RequestKind::ThreadStart) == "thread/start"@,
        exchange::method_of(RequestKind::ThreadResume) == "thread/resume"@,
        exchange::method_of(RequestKind::ThreadRead) == "thread/read"@,
        exchange::method_of(RequestKind::TurnStart) == "turn/start"@,
        exchange::request_text(id, "turn/start"@, params) == "{\"id\":"@ + text::decimal(id as nat)
            + ",\"method\":\""@ + "turn/start"@ + "\",\"params\":"@ + params + "}"@,
        exchange::turn_params_text(thread, input) == "{\"threadId\":"@ + primitives::json_string(
            thread,
        ) + ",\"input\":[{\"type\":\"text\",\"text\":"@ + primitives::json_string(input) + "}]}"@,
        exchange::read_params_text(thread) == "{\"threadId\":"@ + primitives::json_string(thread)
            + ",\"includeTurns\":true}"@,
        exchange::resume_params_text(thread, helper) == "{\"threadId\":"@ + primitives::json_string(
            thread,
        ) + ",\"config\":{\"mcp_servers\":{\"gearwit_claimed_batch\":{\"command\":"@
            + primitives::json_string(helper) + ",\"args\":[]}}}}"@,
        exchange::attached_params_text(helper)
            == "{\"config\":{\"mcp_servers\":{\"gearwit_claimed_batch\":{\"args\":[],\"command\":"@
            + primitives::json_string(helper) + "}}}}"@,
{
}

/// The client introduces itself by name and version.
pub proof fn client_introduces_itself()
    ensures
        exchange::initialize_params_text() == "{\"clientInfo\":{\"name\":"@
            + primitives::json_string("gearwit"@) + ",\"version\":"@ + primitives::json_string(
            "0.1.0"@,
        ) + "}}"@,
{
}

/// Each turn of a report adds its own identifier and status to what the digest
/// binds, in order.
pub proof fn digest_binds_each_turn(turns: Seq<TurnView>, turn: TurnView)
    ensures
        transport::turn_fields(Seq::empty()).len() == 0,
        transport::turn_fields(turns.push(turn)) == transport::turn_fields(turns).push(
            encode_utf8(turn.id->0@),
        ).push(encode_utf8(turn.status->0@)),
{
    assert(turns.push(turn).drop_last() =~= turns);
}

/// The digest of a running turn is taken over the thread that was asked for, the
/// flags, every turn and the running one, under the producer's own version and
/// dialect.
pub proof fn active_digest_binds_the_report(view: ThreadView, at: int)
    requires
        0 < view.id@.len(),
        encode_utf8(view.id@).len() <= 1024,
        view.status is Some,
        view.status->0.kind@ == "active"@,
        view.status->0.active_flags is Some,
        transport::flags_known(view.status->0.active_flags->0@),
        view.turns is Some,
        transport::only_running(view.turns->0@, at),
    ensures
        ({
            let asked = encode_utf8(view.id@);
            let flags = view.status->0.active_flags->0@;
            let turns = view.turns->0@;
            let fields = seq![asked, asked, encode_utf8("active"@)] + Seq::new(
                flags.len(),
                |i: int| encode_utf8(flags[i]@),
            ) + transport::turn_fields(turns) + seq![
                encode_utf8("exactly-one-active-turn"@),
                encode_utf8(turns[at].id->0@),
                encode_utf8("codex-cli 0.152.1"@),
                encode_utf8("thread/read-v2"@),
            ];
            transport::thread_verdict(Some(view), asked) == Ok::<ThreadStateModel, TransportError>(
                ThreadStateModel::ActiveTurn(
                    primitives::blake3_digest(
                        encode_utf8("gearwit.codex-exact-active.v1\0"@) + bytes::frame(fields),
                    ),
                ),
            )
        }),
{
    words_differ();
    let turns = view.turns->0@;
    let chosen = choose|i: int| transport::only_running(turns, i);
    assert(transport::only_running(turns, chosen));
    if chosen != at {
        assert(transport::turn_over(turns[at]));
        assert(transport::turn_running(turns[at]));
    }
}

/// A conversation begins without a handshake, with nothing outstanding, kept back
/// or in doubt, and with its second identifier free: the first is the handshake's.
pub proof fn conversation_begins_empty()
    ensures
        ({
            let state = TransportModel::fresh();
            &&& state.stdout == 0
            &&& state.pending.len() == 0
            &&& state.notifications.len() == 0
            &&& !state.ambiguous
            &&& !state.initialized
            &&& state.next_id == 2
            &&& state.frame.len() == 0
        }),
{
}

} // verus!
