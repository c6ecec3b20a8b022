//! The Codex controller's exchanges in their order. Each step takes what the
//! last exchange came to and says which exchange is next; the caller performs
//! it.

use crate::codex;
use crate::codex::{
    open_name, resume_answer, resume_handshake, CodexLane, DispatchStep, PollStep, ProbeReading,
};
use crate::controller::{
    ControllerCommand, ControllerIdleGuard, ControllerProbeError, ControllerWriteError,
    IdleProbeObservation, IdleProbeResult, NativeCoordinateKind, NativeTurnFact,
    NativeWriteDisposition, ObservationScope, PersistedTurnCorrelation, ProbeBinding,
};
use crate::exchange::{WriteFailure, WriteReceipt};
use crate::ident::PrivateNativeRef;
use crate::persist::Persist;
use crate::records::PersistError;
use crate::timestamp::Timestamp;
use crate::transport::{NativeRef, Received, ThreadState, TransportError};
use vstd::prelude::*;
use vstd::utf8::*;

verus! {

/// Where a probe stands.
pub enum ProbeStage {
    /// What is there is read before the request.
    Drain,
    /// The thread's report is asked for.
    Request,
    /// The thread's report is awaited.
    Await,
    /// What is there is read after the report.
    Settle { state: ThreadState, epoch: u64 },
}

/// A probe under way.
pub struct Probe {
    pub binding: ProbeBinding,
    pub observed_at: Timestamp,
    pub stage: ProbeStage,
}

/// The exchange that a probe needs next.
pub enum ProbeAction {
    /// Receive what is there, without waiting.
    ReceiveNow,
    /// Ask for the report of the thread of this name.
    Ask(NativeRef),
    /// Receive the next message.
    Receive,
}

/// What an exchange of a probe came to.
pub enum ProbeEvent {
    Asked(Result<(), TransportError>),
    Received(Result<Received, TransportError>),
}

/// How a probe goes on.
pub enum ProbeStep {
    Perform(Probe, ProbeAction),
    Concluded(Result<IdleProbeResult, ControllerProbeError>),
}

impl Probe {
    /// The event is that of the exchange that was due.
    pub open spec fn awaits(self, event: ProbeEvent) -> bool {
        (self.stage is Request) == (event is Asked)
    }

    /// The probe at another stage.
    pub open spec fn at(self, stage: ProbeStage) -> Probe {
        Probe { stage, ..self }
    }

    /// The probe ends without a proof.
    pub open spec fn unproven(self) -> ProbeStep {
        ProbeStep::Concluded(
            Ok(
                IdleProbeResult::Unproven(
                    IdleProbeObservation::Unproven {
                        binding: self.binding,
                        probe_id: self.binding.challenge_id,
                        observed_at: self.observed_at,
                    },
                ),
            ),
        )
    }

    fn end_unproven(self) -> (step: ProbeStep)
        ensures
            step == self.unproven(),
    {
        let probe_id = self.binding.challenge_id;
        ProbeStep::Concluded(
            Ok(
                IdleProbeResult::Unproven(
                    IdleProbeObservation::Unproven {
                        binding: self.binding,
                        probe_id,
                        observed_at: self.observed_at,
                    },
                ),
            ),
        )
    }

    fn perform(self, stage: ProbeStage, action: ProbeAction) -> (step: ProbeStep)
        ensures
            step == ProbeStep::Perform(self.at(stage), action),
    {
        ProbeStep::Perform(
            Probe { binding: self.binding, observed_at: self.observed_at, stage },
            action,
        )
    }
}

/// Begins a probe: what is there is read first.
pub fn start_probe(lane: &CodexLane, binding: ProbeBinding, observed_at: Timestamp) -> (step:
    ProbeStep)
    ensures
        step == if lane.probe_allowed(binding) {
            ProbeStep::Perform(
                Probe { binding, observed_at, stage: ProbeStage::Drain },
                ProbeAction::ReceiveNow,
            )
        } else {
            ProbeStep::Concluded(Err(ControllerProbeError::BindingRejected))
        },
{
    match lane.begin_probe(&binding) {
        Ok(()) => ProbeStep::Perform(
            Probe { binding, observed_at, stage: ProbeStage::Drain },
            ProbeAction::ReceiveNow,
        ),
        Err(error) => ProbeStep::Concluded(Err(error)),
    }
}

/// What an exchange does to a probe and to the lane. The report is asked for
/// only when nothing is left to read, and it counts only when nothing came after
/// it.
pub open spec fn probe_stepped<P: Persist>(
    persist: P,
    before: CodexLane,
    probe: Probe,
    event: ProbeEvent,
    after: CodexLane,
    step: ProbeStep,
) -> bool {
    match (probe.stage, event) {
        (ProbeStage::Drain, ProbeEvent::Received(Ok(_))) => after == before.bumped() && step
            == ProbeStep::Perform(probe, ProbeAction::ReceiveNow),
        (ProbeStage::Drain, ProbeEvent::Received(Err(error))) => after == before && if error
            == TransportError::Deadline {
            match codex::opened_name(
                persist,
                codex::scope_of_thread(before.birth, before.create_attempt_id),
                before.thread_ref,
            ) {
                Ok(name) => step matches ProbeStep::Perform(next, ProbeAction::Ask(asked)) && next
                    == probe.at(ProbeStage::Request) && asked@ == name,
                Err(_) => step == probe.unproven(),
            }
        } else {
            step == probe.unproven()
        },
        (ProbeStage::Request, ProbeEvent::Asked(Ok(()))) => after == before && step
            == ProbeStep::Perform(probe.at(ProbeStage::Await), ProbeAction::Receive),
        (ProbeStage::Request, ProbeEvent::Asked(Err(_))) => after == before && step
            == probe.unproven(),
        (ProbeStage::Await, ProbeEvent::Received(received)) => match received {
            Ok(Received::ThreadRead(state)) => after == before && step == ProbeStep::Perform(
                probe.at(ProbeStage::Settle { state, epoch: before.epoch }),
                ProbeAction::ReceiveNow,
            ),
            Ok(Received::Notification(_)) => after == before.bumped() && step
                == ProbeStep::Perform(probe, ProbeAction::Receive),
            Ok(Received::ServerRequestRejected) => after == before.bumped() && step
                == ProbeStep::Perform(probe, ProbeAction::Receive),
            _ => after == before && step == probe.unproven(),
        },
        (ProbeStage::Settle { .. }, ProbeEvent::Received(Ok(_))) => after == before.bumped()
            && step == ProbeStep::Perform(probe, ProbeAction::ReceiveNow),
        (ProbeStage::Settle { state, epoch }, ProbeEvent::Received(Err(error))) => {
            step matches ProbeStep::Concluded(result) && before.probe_concluded(
                probe.binding,
                probe.observed_at,
                Some((state, epoch)),
                error == TransportError::Deadline,
                after,
                result,
            )
        },
        _ => false,
    }
}

/// Takes what an exchange came to into the probe.
pub fn step_probe<P: Persist>(
    lane: &mut CodexLane,
    persist: &P,
    probe: Probe,
    event: ProbeEvent,
) -> (step: ProbeStep)
    requires
        probe.awaits(event),
    ensures
        probe_stepped(*persist, *old(lane), probe, event, *final(lane), step),
{
    let Probe { binding, observed_at, stage } = probe;
    match (stage, event) {
        (ProbeStage::Drain, ProbeEvent::Received(received)) => {
            let probe = Probe { binding, observed_at, stage: ProbeStage::Drain };
            match lane.drain_before_mutation(&received) {
                None => ProbeStep::Perform(probe, ProbeAction::ReceiveNow),
                Some(Err(_)) => probe.end_unproven(),
                Some(Ok(())) => match open_name(persist, &lane.thread_scope(), &lane.thread_ref) {
                    Ok(name) => probe.perform(ProbeStage::Request, ProbeAction::Ask(name)),
                    Err(_) => probe.end_unproven(),
                },
            }
        },
        (ProbeStage::Request, ProbeEvent::Asked(asked)) => {
            let probe = Probe { binding, observed_at, stage: ProbeStage::Request };
            match asked {
                Ok(()) => probe.perform(ProbeStage::Await, ProbeAction::Receive),
                Err(_) => probe.end_unproven(),
            }
        },
        (ProbeStage::Await, ProbeEvent::Received(received)) => {
            let probe = Probe { binding, observed_at, stage: ProbeStage::Await };
            match lane.probe_received(received) {
                ProbeReading::Again => ProbeStep::Perform(probe, ProbeAction::Receive),
                ProbeReading::Read { state, epoch } => probe.perform(
                    ProbeStage::Settle { state, epoch },
                    ProbeAction::ReceiveNow,
                ),
                ProbeReading::Failed => probe.end_unproven(),
            }
        },
        (ProbeStage::Settle { state, epoch }, ProbeEvent::Received(received)) => {
            match lane.drain_before_mutation(&received) {
                None => ProbeStep::Perform(
                    Probe { binding, observed_at, stage: ProbeStage::Settle { state, epoch } },
                    ProbeAction::ReceiveNow,
                ),
                Some(drained) => ProbeStep::Concluded(
                    lane.conclude_probe(
                        binding,
                        observed_at,
                        Some((state, epoch)),
                        drained.is_ok(),
                    ),
                ),
            }
        },
        _ => {
            assert(false);
            ProbeStep::Concluded(Err(ControllerProbeError::BindingRejected))
        },
    }
}

/// A probe concludes idle only from an idle report after which nothing came, and
/// with a guard for that report's epoch.
pub proof fn idle_needs_a_quiet_report<P: Persist>(
    persist: P,
    before: CodexLane,
    probe: Probe,
    event: ProbeEvent,
    after: CodexLane,
    step: ProbeStep,
)
    requires
        probe_stepped(persist, before, probe, event, after, step),
    ensures
        step matches ProbeStep::Concluded(Ok(IdleProbeResult::Idle { lane, .. })) ==> {
            &&& probe.stage == (ProbeStage::Settle { state: ThreadState::Idle, epoch: before.epoch })
            &&& event == ProbeEvent::Received(Err(TransportError::Deadline))
            &&& lane.epoch == before.epoch_at(before.epoch)
            &&& after.lane_probe == Some(lane.probe_id)
        },
{
}

/// Until a probe concludes idle, it takes no lane.
pub proof fn unfinished_probe_takes_no_lane<P: Persist>(
    persist: P,
    before: CodexLane,
    probe: Probe,
    event: ProbeEvent,
    after: CodexLane,
    step: ProbeStep,
)
    requires
        probe_stepped(persist, before, probe, event, after, step),
    ensures
        !(step matches ProbeStep::Concluded(Ok(IdleProbeResult::Idle { .. })))
            ==> after.lane_probe == before.lane_probe,
{
}

/// Where the write of a reserved turn stands.
pub enum WriteStage {
    /// The turn's frame is prepared.
    Prepare,
    /// What is there is read before the last decision.
    Drain,
    /// The frame is sent.
    Dispatch,
    /// The answer is awaited.
    Await,
}

/// The write of a reserved turn under way.
pub struct TurnWrite {
    pub command: ControllerCommand,
    pub stage: WriteStage,
}

/// The exchange that a write needs next.
pub enum WriteAction {
    /// Prepare the frame of a turn on the thread of this name.
    Prepare { thread: NativeRef, input: String },
    /// Receive what is there, without waiting.
    ReceiveNow,
    /// Send the prepared frame.
    Dispatch,
    /// Receive the next message.
    Receive,
}

/// What an exchange of a write came to.
pub enum TurnEvent {
    Prepared(Result<(), TransportError>),
    Drained { received: Result<Received, TransportError>, now: Timestamp },
    Dispatched(Result<WriteReceipt, WriteFailure>),
    Answered(Result<Received, TransportError>),
}

/// How a write goes on. Where it is concluded a prepared frame is thrown away.
pub enum TurnStep {
    Perform(TurnWrite, WriteAction),
    Concluded(Result<NativeWriteDisposition, ControllerWriteError>),
}

impl TurnWrite {
    /// The event is that of the exchange that was due.
    pub open spec fn awaits(self, event: TurnEvent) -> bool {
        match self.stage {
            WriteStage::Prepare => event is Prepared,
            WriteStage::Drain => event is Drained,
            WriteStage::Dispatch => event is Dispatched,
            WriteStage::Await => event is Answered,
        }
    }

    /// The write at another stage.
    pub open spec fn at(self, stage: WriteStage) -> TurnWrite {
        TurnWrite { stage, ..self }
    }
}

/// Nothing was written.
pub open spec fn not_accepted() -> TurnStep {
    TurnStep::Concluded(Ok(NativeWriteDisposition::ProvenNotAccepted))
}

/// What beginning a write comes to.
pub open spec fn write_started<P: Persist>(
    persist: P,
    before: CodexLane,
    guard: ControllerIdleGuard,
    command: ControllerCommand,
    after: CodexLane,
    step: TurnStep,
) -> bool {
    if !before.write_allowed(guard, command) {
        after == before.released() && step == TurnStep::Concluded(
            Err(ControllerWriteError::BindingRejected),
        )
    } else {
        match codex::opened_name(
            persist,
            codex::scope_of_thread(before.birth, before.create_attempt_id),
            before.thread_ref,
        ) {
            Ok(name) => after == before && (step matches TurnStep::Perform(
                write,
                WriteAction::Prepare { thread, input },
            ) && write == (TurnWrite { command, stage: WriteStage::Prepare }) && thread@ == name
                && input@ == command.turn_text()),
            Err(_) => after == before.released() && step == not_accepted(),
        }
    }
}

/// Begins the write of a reserved turn.
pub fn start_write<P: Persist>(
    lane: &mut CodexLane,
    persist: &P,
    guard: &ControllerIdleGuard,
    command: ControllerCommand,
) -> (step: TurnStep)
    ensures
        write_started(*persist, *old(lane), *guard, command, *final(lane), step),
{
    match lane.begin_write(guard, &command) {
        Ok(()) => {},
        Err(error) => return TurnStep::Concluded(Err(error)),
    }
    match open_name(persist, &lane.thread_scope(), &lane.thread_ref) {
        Ok(thread) => {
            let input = command.fixed_turn();
            TurnStep::Perform(
                TurnWrite { command, stage: WriteStage::Prepare },
                WriteAction::Prepare { thread, input },
            )
        },
        Err(_) => TurnStep::Concluded(Ok(lane.abandon_write())),
    }
}

/// A dispatch at this instant passes every check.
pub open spec fn dispatchable(lane: CodexLane, command: ControllerCommand, now: Timestamp) -> bool {
    &&& lane.epoch_at(lane.epoch) == command.expected_epoch
    &&& command.bound_immutably(lane.birth, lane.thread_ref)
    &&& command.leased(lane.birth, now)
}

/// Why a drained write is not dispatched.
pub open spec fn withheld(lane: CodexLane, command: ControllerCommand) -> TurnStep {
    if lane.epoch_at(lane.epoch) != command.expected_epoch {
        TurnStep::Concluded(
            Ok(
                NativeWriteDisposition::IdleEpochInvalidated {
                    probe_id: command.expected_probe_id,
                    expected_epoch: command.expected_epoch,
                    observed_epoch: lane.epoch_at(lane.epoch),
                },
            ),
        )
    } else if !command.bound_immutably(lane.birth, lane.thread_ref) {
        TurnStep::Concluded(Err(ControllerWriteError::BindingRejected))
    } else {
        not_accepted()
    }
}

/// What an exchange does to a write, to the lane and to the store. Only the
/// answer reaches the store.
pub open spec fn write_stepped<P: Persist>(
    stored: P,
    before: CodexLane,
    write: TurnWrite,
    event: TurnEvent,
    kept: P,
    after: CodexLane,
    step: TurnStep,
) -> bool {
    match (write.stage, event) {
        (WriteStage::Prepare, TurnEvent::Prepared(prepared)) => kept == stored && if prepared is Ok {
            after == before && step == TurnStep::Perform(
                write.at(WriteStage::Drain),
                WriteAction::ReceiveNow,
            )
        } else {
            after == before.released() && step == not_accepted()
        },
        (WriteStage::Drain, TurnEvent::Drained { received, now }) => kept == stored && match received {
            Ok(_) => after == before.bumped() && step == TurnStep::Perform(
                write,
                WriteAction::ReceiveNow,
            ),
            Err(error) => if error != TransportError::Deadline {
                after == before.released() && step == not_accepted()
            } else if dispatchable(before, write.command, now) {
                after == before && step == TurnStep::Perform(
                    write.at(WriteStage::Dispatch),
                    WriteAction::Dispatch,
                )
            } else {
                after == before.released() && step == withheld(before, write.command)
            },
        },
        (WriteStage::Dispatch, TurnEvent::Dispatched(sent)) => kept == stored && match sent {
            Ok(_) => after == before && step == TurnStep::Perform(
                write.at(WriteStage::Await),
                WriteAction::Receive,
            ),
            Err(failure) => if failure.receipt == WriteReceipt::ProvenNotWritten {
                after == before.released() && step == not_accepted()
            } else {
                after == before.written(
                    write.command.correlation,
                    NativeWriteDisposition::Unknown,
                ) && step == TurnStep::Concluded(Ok(NativeWriteDisposition::Unknown))
            },
        },
        (WriteStage::Await, TurnEvent::Answered(received)) => {
            &&& step matches TurnStep::Concluded(Ok(disposition)) && after == before.written(
                write.command.correlation,
                disposition,
            ) && match received {
                Ok(Received::TurnStarted(turn)) => exists|
                    sealed: Result<PrivateNativeRef, PersistError>,
                | #[trigger]
                    codex::seals(
                        stored,
                        kept,
                        write.command.correlation.scope_of_turn(),
                        NativeCoordinateKind::Turn,
                        turn@,
                        sealed,
                    ) && disposition == CodexLane::turn_verdict(received, sealed),
                _ => kept == stored && disposition == CodexLane::turn_verdict(
                    received,
                    Err(PersistError::Conflict),
                ),
            }
        },
        _ => false,
    }
}

/// Takes what an exchange came to into the write.
pub fn step_write<P: Persist>(
    lane: &mut CodexLane,
    persist: &mut P,
    write: TurnWrite,
    event: TurnEvent,
) -> (step: TurnStep)
    requires
        write.awaits(event),
    ensures
        write_stepped(
            *old(persist),
            *old(lane),
            write,
            event,
            *final(persist),
            *final(lane),
            step,
        ),
{
    let TurnWrite { command, stage } = write;
    match (stage, event) {
        (WriteStage::Prepare, TurnEvent::Prepared(prepared)) => match prepared {
            Ok(()) => TurnStep::Perform(
                TurnWrite { command, stage: WriteStage::Drain },
                WriteAction::ReceiveNow,
            ),
            Err(_) => TurnStep::Concluded(Ok(lane.abandon_write())),
        },
        (WriteStage::Drain, TurnEvent::Drained { received, now }) => {
            match lane.drain_before_mutation(&received) {
                None => TurnStep::Perform(
                    TurnWrite { command, stage: WriteStage::Drain },
                    WriteAction::ReceiveNow,
                ),
                Some(drained) => match lane.authorize_dispatch(&command, drained.is_ok(), now) {
                    Ok(DispatchStep::Dispatch) => TurnStep::Perform(
                        TurnWrite { command, stage: WriteStage::Dispatch },
                        WriteAction::Dispatch,
                    ),
                    Ok(DispatchStep::Concluded(disposition)) => TurnStep::Concluded(
                        Ok(disposition),
                    ),
                    Err(error) => TurnStep::Concluded(Err(error)),
                },
            }
        },
        (WriteStage::Dispatch, TurnEvent::Dispatched(sent)) => match sent {
            Ok(_) => TurnStep::Perform(
                TurnWrite { command, stage: WriteStage::Await },
                WriteAction::Receive,
            ),
            Err(failure) => TurnStep::Concluded(Ok(lane.dispatch_failed(&command, failure))),
        },
        (WriteStage::Await, TurnEvent::Answered(received)) => TurnStep::Concluded(
            Ok(lane.turn_answered(persist, &command, received)),
        ),
        _ => {
            assert(false);
            TurnStep::Concluded(Err(ControllerWriteError::BindingRejected))
        },
    }
}

/// A turn's bytes leave only right after a drain that found nothing, in the
/// probe's own epoch, under the immutable binding and a running lease.
pub proof fn dispatch_follows_every_check<P: Persist>(
    stored: P,
    before: CodexLane,
    write: TurnWrite,
    event: TurnEvent,
    kept: P,
    after: CodexLane,
    step: TurnStep,
)
    requires
        write_stepped(stored, before, write, event, kept, after, step),
    ensures
        step matches TurnStep::Perform(next, WriteAction::Dispatch) ==> {
            &&& write.stage is Drain
            &&& next == write.at(WriteStage::Dispatch)
            &&& event matches TurnEvent::Drained { received, now } && received matches Err(error)
                && error == TransportError::Deadline && dispatchable(before, write.command, now)
        },
{
}

/// A turn is dispatched once: from the dispatch on, no step asks for another.
pub proof fn dispatched_turn_is_not_sent_again<P: Persist>(
    stored: P,
    before: CodexLane,
    write: TurnWrite,
    event: TurnEvent,
    kept: P,
    after: CodexLane,
    step: TurnStep,
)
    requires
        write_stepped(stored, before, write, event, kept, after, step),
        write.stage is Dispatch || write.stage is Await,
    ensures
        !(step matches TurnStep::Perform(_, WriteAction::Dispatch)),
        step matches TurnStep::Perform(next, _) ==> next.stage is Await && next.command
            == write.command,
{
}

/// A write that has come to its end has given the lane back.
pub proof fn concluded_write_frees_the_lane<P: Persist>(
    stored: P,
    before: CodexLane,
    write: TurnWrite,
    event: TurnEvent,
    kept: P,
    after: CodexLane,
    step: TurnStep,
)
    requires
        write_stepped(stored, before, write, event, kept, after, step),
    ensures
        step is Concluded ==> after.lane_probe is None,
        step is Perform ==> after.lane_probe == before.lane_probe,
{
}

/// The exchanges of a resumption, in their order.
#[derive(Clone, Copy, Debug, PartialEq, Eq, Structural)]
pub enum ResumeStage {
    Attach,
    Start,
    Handshake,
    Answer,
}

/// What an exchange of a resumption came to.
pub enum ResumeEvent {
    Attached(Result<(), TransportError>),
    Started(Result<(), TransportError>),
    Handshake(Result<Received, TransportError>),
    Asked(Result<(), TransportError>),
    Answered(Result<Received, TransportError>),
}

/// How a resumption goes on.
pub enum ResumeStep {
    Perform(ResumeStage),
    /// Ask to resume the thread of this name.
    Ask(NativeRef),
    Resumed,
    Failed(TransportError),
}

/// Takes what an exchange came to into the resumption of a lane's thread. The
/// thread's name is opened only after the handshake.
pub fn resume_step<P: Persist>(persist: &P, lane: &CodexLane, event: ResumeEvent) -> (step:
    ResumeStep)
    ensures
        match event {
            ResumeEvent::Attached(Ok(())) => step == ResumeStep::Perform(ResumeStage::Start),
            ResumeEvent::Started(Ok(())) => step == ResumeStep::Perform(ResumeStage::Handshake),
            ResumeEvent::Asked(Ok(())) => step == ResumeStep::Perform(ResumeStage::Answer),
            ResumeEvent::Attached(Err(error)) => step == ResumeStep::Failed(error),
            ResumeEvent::Started(Err(error)) => step == ResumeStep::Failed(error),
            ResumeEvent::Asked(Err(error)) => step == ResumeStep::Failed(error),
            ResumeEvent::Handshake(Err(error)) => step == ResumeStep::Failed(error),
            ResumeEvent::Handshake(Ok(Received::Initialized)) => match codex::opened_name(
                *persist,
                codex::scope_of_thread(lane.birth, lane.create_attempt_id),
                lane.thread_ref,
            ) {
                Ok(name) => step matches ResumeStep::Ask(thread) && thread@ == name,
                Err(error) => step == ResumeStep::Failed(error),
            },
            ResumeEvent::Answered(Err(error)) => step == ResumeStep::Failed(error),
            ResumeEvent::Answered(Ok(Received::ThreadResumed(_))) => step == ResumeStep::Resumed,
            _ => step == ResumeStep::Failed(TransportError::Correlation),
        },
{
    match event {
        ResumeEvent::Attached(result) => match result {
            Ok(()) => ResumeStep::Perform(ResumeStage::Start),
            Err(error) => ResumeStep::Failed(error),
        },
        ResumeEvent::Started(result) => match result {
            Ok(()) => ResumeStep::Perform(ResumeStage::Handshake),
            Err(error) => ResumeStep::Failed(error),
        },
        ResumeEvent::Handshake(received) => match resume_handshake(received) {
            Ok(()) => match open_name(persist, &lane.thread_scope(), &lane.thread_ref) {
                Ok(thread) => ResumeStep::Ask(thread),
                Err(error) => ResumeStep::Failed(error),
            },
            Err(error) => ResumeStep::Failed(error),
        },
        ResumeEvent::Asked(result) => match result {
            Ok(()) => ResumeStep::Perform(ResumeStage::Answer),
            Err(error) => ResumeStep::Failed(error),
        },
        ResumeEvent::Answered(received) => match resume_answer(received) {
            Ok(()) => ResumeStep::Resumed,
            Err(error) => ResumeStep::Failed(error),
        },
    }
}

/// A poll under way: the turn that it is for, and the names that notifications
/// must carry.
pub struct Poll {
    pub turn_ref: PrivateNativeRef,
    pub thread: NativeRef,
    pub turn: NativeRef,
}

/// How a poll begins.
pub enum PollStart {
    Done(Option<NativeTurnFact>),
    /// Receive what is there and hand it to the poll.
    Receive(Poll),
}

/// What beginning a poll comes to: a fact that was kept, a poll for the names of
/// thread and turn, or a degraded observation where they cannot be opened.
pub open spec fn poll_started<P: Persist>(
    persist: P,
    before: CodexLane,
    correlation: PersistedTurnCorrelation,
    after: CodexLane,
    start: PollStart,
) -> bool {
    let (begun, done) = before.poll_begun(correlation);
    match done {
        Some(fact) => after == begun && start == PollStart::Done(fact),
        None => match begun.names_of(
            persist,
            correlation.scope_of_turn(),
            correlation.turn_ref->0,
        ) {
            Some((thread, turn)) => after == begun && (start matches PollStart::Receive(poll)
                && poll.turn_ref == correlation.turn_ref->0 && poll.thread@ == thread
                && poll.turn@ == turn),
            None => after == begun.once(NativeTurnFact::DegradedTerminalObservation).0 && start
                == PollStart::Done(begun.once(NativeTurnFact::DegradedTerminalObservation).1),
        },
    }
}

/// Begins to poll for the turn of a scope.
pub fn start_poll<P: Persist>(lane: &mut CodexLane, persist: &P, scope: &ObservationScope) -> (start:
    PollStart)
    ensures
        poll_started(*persist, *old(lane), scope.correlation, *final(lane), start),
{
    if let Some(fact) = lane.begin_poll(scope) {
        return PollStart::Done(fact);
    }
    let turn_ref = match scope.correlation().turn_ref {
        Some(turn_ref) => turn_ref,
        None => {
            assert(false);
            return PollStart::Done(None);
        },
    };
    match lane.expected_names(persist, &scope.turn_scope(), &turn_ref) {
        Some((thread, turn)) => PollStart::Receive(Poll { turn_ref, thread, turn }),
        None => PollStart::Done(lane.degraded_once()),
    }
}

/// Takes one message into a poll.
pub fn step_poll(
    lane: &mut CodexLane,
    poll: &Poll,
    received: Result<Received, TransportError>,
) -> (step: PollStep)
    ensures
        (*final(lane), step) == old(lane).observed(
            poll.turn_ref,
            poll.thread@,
            poll.turn@,
            received,
        ),
{
    lane.exact_notification(&poll.turn_ref, &poll.thread, &poll.turn, received)
}

} // verus!
