//! One conversation with a Codex app server: outbound frames, the request that
//! is outstanding, and what an inbound frame does to it.

use crate::bytes::{copy_bytes, push_bytes, same_bytes};
use crate::controller::{NativeWriteDisposition, PRODUCER_VERSION};
use crate::primitives;
use crate::primitives::json_string_text;
use crate::secret::SecretBytes;
use crate::text;
use crate::text::decimal_text;
use crate::transport;
use crate::transport::{
    parse_thread_state, Inbound, NativeRef, Notification, NotificationModel, Received,
    ReceivedModel, ThreadView, TransportError, MAX_FRAME, MAX_LINE, MAX_QUEUE, MAX_STDERR,
    MAX_STDOUT, MAX_VERSION,
};
use vstd::prelude::*;
use vstd::string::*;
use vstd::utf8::*;

verus! {

/// The name that the client gives itself.
pub const CLIENT_NAME: &'static str = "gearwit";

/// The version that the client gives itself.
pub const CLIENT_VERSION: &'static str = "0.1.0";

#[derive(Clone, Copy, Debug, PartialEq, Eq, Structural)]
pub enum RequestKind {
    Initialize,
    ThreadStart,
    ThreadResume,
    ThreadRead,
    TurnStart,
}

/// A request whose response has not come.
pub struct Pending {
    pub id: u64,
    pub kind: RequestKind,
    pub thread: Option<NativeRef>,
}

/// What a [`Pending`] waits for.
#[verifier::ext_equal]
pub struct PendingModel {
    pub id: u64,
    pub kind: RequestKind,
    pub thread: Option<Seq<u8>>,
}

/// The bytes of an optional reference.
pub open spec fn optional_ref(thread: Option<NativeRef>) -> Option<Seq<u8>> {
    match thread {
        Some(thread) => Some(thread@),
        None => None,
    }
}

impl View for Pending {
    type V = PendingModel;

    open spec fn view(&self) -> PendingModel {
        PendingModel { id: self.id, kind: self.kind, thread: optional_ref(self.thread) }
    }
}

/// What is known of a frame that was handed to the server.
#[derive(Clone, Copy, Debug, PartialEq, Eq, Structural)]
pub enum WriteReceipt {
    ProvenNotWritten,
    PossiblyWritten,
    Written,
}

#[derive(Clone, Copy, Debug, PartialEq, Eq, Structural)]
pub struct WriteFailure {
    pub error: TransportError,
    pub receipt: WriteReceipt,
}

/// A failed write is settled only where no byte left.
pub fn failed_write_disposition(failure: WriteFailure) -> (disposition: NativeWriteDisposition)
    ensures
        disposition == if failure.receipt == WriteReceipt::ProvenNotWritten {
            NativeWriteDisposition::ProvenNotAccepted
        } else {
            NativeWriteDisposition::Unknown
        },
{
    if failure.receipt == WriteReceipt::ProvenNotWritten {
        NativeWriteDisposition::ProvenNotAccepted
    } else {
        NativeWriteDisposition::Unknown
    }
}

/// A turn whose frame is ready. It can be dispatched once.
pub struct PreparedTurn {
    pub id: u64,
}

/// A client request as JSON text.
pub open spec fn request_text(id: u64, method: Seq<char>, params: Seq<char>) -> Seq<char> {
    "{\"id\":"@ + text::decimal(id as nat) + ",\"method\":\""@ + method + "\",\"params\":"@ + params
        + "}"@
}

/// The method of a request.
pub open spec fn method_of(kind: RequestKind) -> Seq<char> {
    match kind {
        RequestKind::Initialize => "initialize"@,
        RequestKind::ThreadStart => "thread/start"@,
        RequestKind::ThreadResume => "thread/resume"@,
        RequestKind::ThreadRead => "thread/read"@,
        RequestKind::TurnStart => "turn/start"@,
    }
}

/// A client request.
pub fn client_request(id: u64, kind: RequestKind, params: &str) -> (request: String)
    ensures
        request@ == request_text(id, method_of(kind), params@),
{
    let method = match kind {
        RequestKind::Initialize => "initialize",
        RequestKind::ThreadStart => "thread/start",
        RequestKind::ThreadResume => "thread/resume",
        RequestKind::ThreadRead => "thread/read",
        RequestKind::TurnStart => "turn/start",
    };
    let mut request = "{\"id\":".to_owned();
    request.append(decimal_text(id).as_str());
    request.append(",\"method\":\"");
    request.append(method);
    request.append("\",\"params\":");
    request.append(params);
    request.append("}");
    request
}

/// The parameters that introduce the client.
pub open spec fn initialize_params_text() -> Seq<char> {
    "{\"clientInfo\":{\"name\":"@ + primitives::json_string(CLIENT_NAME@) + ",\"version\":"@
        + primitives::json_string(CLIENT_VERSION@) + "}}"@
}

pub fn initialize_params() -> (params: String)
    ensures
        params@ == initialize_params_text(),
{
    let mut params = "{\"clientInfo\":{\"name\":".to_owned();
    params.append(json_string_text(CLIENT_NAME).as_str());
    params.append(",\"version\":");
    params.append(json_string_text(CLIENT_VERSION).as_str());
    params.append("}}");
    params
}

/// The parameters of a new thread that is given the claimed-batch helper.
pub open spec fn attached_params_text(helper: Seq<char>) -> Seq<char> {
    "{\"config\":{\"mcp_servers\":{\"gearwit_claimed_batch\":{\"args\":[],\"command\":"@
        + primitives::json_string(helper) + "}}}}"@
}

pub fn attached_thread_params(helper: &str) -> (params: String)
    ensures
        params@ == attached_params_text(helper@),
{
    let mut params =
        "{\"config\":{\"mcp_servers\":{\"gearwit_claimed_batch\":{\"args\":[],\"command\":".to_owned();
    params.append(json_string_text(helper).as_str());
    params.append("}}}}");
    params
}

/// The parameters that resume a thread with the claimed-batch helper.
pub open spec fn resume_params_text(thread: Seq<char>, helper: Seq<char>) -> Seq<char> {
    "{\"threadId\":"@ + primitives::json_string(thread)
        + ",\"config\":{\"mcp_servers\":{\"gearwit_claimed_batch\":{\"command\":"@
        + primitives::json_string(helper) + ",\"args\":[]}}}}"@
}

pub fn resume_params(thread: &NativeRef, helper: &str) -> (params: String)
    ensures
        exists|id: Seq<char>|
            encode_utf8(id) == thread@ && params@ == #[trigger] resume_params_text(id, helper@),
{
    let id = thread.as_str();
    let mut params = "{\"threadId\":".to_owned();
    params.append(json_string_text(id).as_str());
    params.append(",\"config\":{\"mcp_servers\":{\"gearwit_claimed_batch\":{\"command\":");
    params.append(json_string_text(helper).as_str());
    params.append(",\"args\":[]}}}}");
    assert(params@ == resume_params_text(id@, helper@));
    params
}

/// The parameters that ask for a thread with its turns.
pub open spec fn read_params_text(thread: Seq<char>) -> Seq<char> {
    "{\"threadId\":"@ + primitives::json_string(thread) + ",\"includeTurns\":true}"@
}

pub fn read_params(thread: &NativeRef) -> (params: String)
    ensures
        exists|id: Seq<char>|
            encode_utf8(id) == thread@ && params@ == #[trigger] read_params_text(id),
{
    let id = thread.as_str();
    let mut params = "{\"threadId\":".to_owned();
    params.append(json_string_text(id).as_str());
    params.append(",\"includeTurns\":true}");
    assert(params@ == read_params_text(id@));
    params
}

/// The parameters that start a turn with one text.
pub open spec fn turn_params_text(thread: Seq<char>, input: Seq<char>) -> Seq<char> {
    "{\"threadId\":"@ + primitives::json_string(thread)
        + ",\"input\":[{\"type\":\"text\",\"text\":"@ + primitives::json_string(input) + "}]}"@
}

pub fn turn_params(thread: &NativeRef, input: &str) -> (params: String)
    ensures
        exists|id: Seq<char>|
            encode_utf8(id) == thread@ && params@ == #[trigger] turn_params_text(id, input@),
{
    let id = thread.as_str();
    let mut params = "{\"threadId\":".to_owned();
    params.append(json_string_text(id).as_str());
    params.append(",\"input\":[{\"type\":\"text\",\"text\":");
    params.append(json_string_text(input).as_str());
    params.append("}]}");
    assert(params@ == turn_params_text(id@, input@));
    params
}

/// The notice that completes the handshake.
pub fn initialized_notice() -> (notice: String)
    ensures
        notice@ == "{\"method\":\"initialized\",\"params\":{}}"@,
{
    "{\"method\":\"initialized\",\"params\":{}}".to_owned()
}

/// The answer to a request of the server, which the client does not serve.
pub open spec fn refusal_text(id: Seq<char>) -> Seq<char> {
    "{\"error\":{\"code\":-32601,\"message\":\"server requests unsupported\"},\"id\":"@ + id + "}"@
}

pub fn server_request_refusal(id: &str) -> (refusal: String)
    ensures
        refusal@ == refusal_text(id@),
{
    let mut refusal =
        "{\"error\":{\"code\":-32601,\"message\":\"server requests unsupported\"},\"id\":".to_owned();
    refusal.append(id);
    refusal.append("}");
    refusal
}

/// The frame of a text: its bytes and a line end, within the frame bound.
pub fn encode_frame(value: &str) -> (result: Result<Vec<u8>, WriteFailure>)
    ensures
        match result {
            Ok(frame) => encode_utf8(value@).len() < MAX_FRAME && frame@ == encode_utf8(
                value@,
            ).push(10u8),
            Err(failure) => encode_utf8(value@).len() >= MAX_FRAME && failure == (WriteFailure {
                error: TransportError::Bounds,
                receipt: WriteReceipt::ProvenNotWritten,
            }),
        },
{
    let bytes = value.as_bytes();
    if bytes.len() >= MAX_FRAME {
        return Err(
            WriteFailure {
                error: TransportError::Bounds,
                receipt: WriteReceipt::ProvenNotWritten,
            },
        );
    }
    let mut frame: Vec<u8> = copy_bytes(bytes);
    frame.push(10u8);
    Ok(frame)
}

/// What one attempt to write came to.
#[derive(Clone, Copy, Debug, PartialEq, Eq, Structural)]
pub enum WriteEvent {
    Wrote(usize),
    Blocked { expired: bool },
    Failed,
}

/// What one attempt to flush came to.
#[derive(Clone, Copy, Debug, PartialEq, Eq, Structural)]
pub enum FlushEvent {
    Flushed,
    Blocked { expired: bool },
    Failed,
}

/// A frame that is being written: how many of its bytes have left.
#[derive(Clone, Copy, Debug, PartialEq, Eq, Structural)]
pub struct FrameWrite {
    pub total: usize,
    pub written: usize,
}

/// The receipt of a write that failed after `written` bytes.
pub open spec fn interrupted_receipt(written: usize) -> WriteReceipt {
    if written == 0 {
        WriteReceipt::ProvenNotWritten
    } else {
        WriteReceipt::PossiblyWritten
    }
}

impl FrameWrite {
    pub open spec fn well_formed(self) -> bool {
        self.written <= self.total
    }

    pub fn new(total: usize) -> (write: FrameWrite)
        ensures
            write.well_formed(),
            write == (FrameWrite { total, written: 0 }),
    {
        FrameWrite { total, written: 0 }
    }

    /// Whether bytes are left to write. After that the writer is flushed.
    pub fn unfinished(&self) -> (unfinished: bool)
        ensures
            unfinished == (self.written < self.total),
    {
        self.written < self.total
    }

    /// Takes in one attempt to write. No result means that writing goes on.
    pub fn on_write(&mut self, event: WriteEvent) -> (failure: Option<WriteFailure>)
        requires
            old(self).well_formed(),
            event matches WriteEvent::Wrote(n) ==> n <= old(self).total - old(self).written,
        ensures
            final(self).well_formed(),
            final(self).total == old(self).total,
            final(self).written == match event {
                WriteEvent::Wrote(n) => (old(self).written + n) as usize,
                _ => old(self).written,
            },
            failure == match event {
                WriteEvent::Wrote(n) => if n == 0 {
                    Some(
                        WriteFailure {
                            error: TransportError::Ambiguous,
                            receipt: interrupted_receipt(old(self).written),
                        },
                    )
                } else {
                    None
                },
                WriteEvent::Blocked { expired } => if expired {
                    Some(
                        WriteFailure {
                            error: TransportError::Deadline,
                            receipt: interrupted_receipt(old(self).written),
                        },
                    )
                } else {
                    None
                },
                WriteEvent::Failed => Some(
                    WriteFailure {
                        error: TransportError::Closed,
                        receipt: interrupted_receipt(old(self).written),
                    },
                ),
            },
    {
        let receipt = if self.written == 0 {
            WriteReceipt::ProvenNotWritten
        } else {
            WriteReceipt::PossiblyWritten
        };
        match event {
            WriteEvent::Wrote(n) => {
                self.written = self.written + n;
                if n == 0 {
                    Some(WriteFailure { error: TransportError::Ambiguous, receipt })
                } else {
                    None
                }
            },
            WriteEvent::Blocked { expired } => if expired {
                Some(WriteFailure { error: TransportError::Deadline, receipt })
            } else {
                None
            },
            WriteEvent::Failed => Some(WriteFailure { error: TransportError::Closed, receipt }),
        }
    }

    /// Takes in one attempt to flush a frame whose bytes have all been handed
    /// over. No result means that flushing goes on.
    pub fn on_flush(&self, event: FlushEvent) -> (result: Option<
        Result<WriteReceipt, WriteFailure>,
    >)
        ensures
            result == match event {
                FlushEvent::Flushed => Some(
                    Ok::<WriteReceipt, WriteFailure>(WriteReceipt::Written),
                ),
                FlushEvent::Blocked { expired } => if expired {
                    Some(
                        Err(
                            WriteFailure {
                                error: TransportError::Deadline,
                                receipt: WriteReceipt::PossiblyWritten,
                            },
                        ),
                    )
                } else {
                    None
                },
                FlushEvent::Failed => Some(
                    Err(
                        WriteFailure {
                            error: TransportError::Ambiguous,
                            receipt: WriteReceipt::PossiblyWritten,
                        },
                    ),
                ),
            },
    {
        match event {
            FlushEvent::Flushed => Some(Ok(WriteReceipt::Written)),
            FlushEvent::Blocked { expired } => if expired {
                Some(
                    Err(
                        WriteFailure {
                            error: TransportError::Deadline,
                            receipt: WriteReceipt::PossiblyWritten,
                        },
                    ),
                )
            } else {
                None
            },
            FlushEvent::Failed => Some(
                Err(
                    WriteFailure {
                        error: TransportError::Ambiguous,
                        receipt: WriteReceipt::PossiblyWritten,
                    },
                ),
            ),
        }
    }
}

/// What one attempt to read came to.
#[derive(Clone, Copy, Debug, PartialEq, Eq, Structural)]
pub enum ReadEvent {
    Byte(u8),
    End,
    Blocked { expired: bool },
    Failed,
}

/// What a line that is being read becomes, and what the reader learns: the
/// bytes that the finished line took, an error, or nothing yet.
pub open spec fn line_step(line: Seq<u8>, event: ReadEvent) -> (
    Seq<u8>,
    Option<Result<nat, TransportError>>,
) {
    match event {
        ReadEvent::End => if line.len() == 0 {
            (line, Some(Err(TransportError::Closed)))
        } else {
            (line, Some(Err(TransportError::Malformed)))
        },
        ReadEvent::Byte(byte) => if byte == 10u8 {
            (line, Some(Ok((line.len() + 1) as nat)))
        } else if line.len() == MAX_LINE {
            (line, Some(Err(TransportError::Bounds)))
        } else {
            (line.push(byte), None)
        },
        ReadEvent::Blocked { expired } => if expired {
            (line, Some(Err(TransportError::Deadline)))
        } else {
            (line, None)
        },
        ReadEvent::Failed => (line, Some(Err(TransportError::Closed))),
    }
}

/// Takes one read event into the line.
pub fn on_read(line: &mut Vec<u8>, event: ReadEvent) -> (result: Option<
    Result<usize, TransportError>,
>)
    requires
        old(line).len() <= MAX_LINE,
    ensures
        final(line).len() <= MAX_LINE,
        final(line)@ == line_step(old(line)@, event).0,
        match result {
            None => line_step(old(line)@, event).1 is None,
            Some(Ok(consumed)) => line_step(old(line)@, event).1 == Some(
                Ok::<nat, TransportError>(consumed as nat),
            ),
            Some(Err(error)) => line_step(old(line)@, event).1 == Some(
                Err::<nat, TransportError>(error),
            ),
        },
{
    match event {
        ReadEvent::End => if line.len() == 0 {
            Some(Err(TransportError::Closed))
        } else {
            Some(Err(TransportError::Malformed))
        },
        ReadEvent::Byte(byte) => if byte == 10u8 {
            Some(Ok(line.len() + 1))
        } else if line.len() == MAX_LINE {
            Some(Err(TransportError::Bounds))
        } else {
            line.push(byte);
            None
        },
        ReadEvent::Blocked { expired } => if expired {
            Some(Err(TransportError::Deadline))
        } else {
            None
        },
        ReadEvent::Failed => Some(Err(TransportError::Closed)),
    }
}

/// The line after a run of bytes.
pub open spec fn line_after(line: Seq<u8>, input: Seq<u8>) -> Seq<u8>
    decreases input.len(),
{
    if input.len() == 0 {
        line
    } else {
        line_step(line_after(line, input.drop_last()), ReadEvent::Byte(input.last())).0
    }
}

/// However its bytes arrive, a line of at most the bound without a line end in
/// it is read back exactly, and the line end completes it.
pub proof fn line_is_reassembled(input: Seq<u8>)
    requires
        input.len() <= MAX_LINE,
        !input.contains(10u8),
    ensures
        line_after(Seq::empty(), input) == input,
        line_step(input, ReadEvent::Byte(10u8)) == (
            input,
            Some(Ok::<nat, TransportError>((input.len() + 1) as nat)),
        ),
    decreases input.len(),
{
    if input.len() > 0 {
        let shorter = input.drop_last();
        assert(!shorter.contains(10u8)) by {
            if shorter.contains(10u8) {
                let i = choose|i: int| 0 <= i < shorter.len() && shorter[i] == 10u8;
                assert(input[i] == 10u8);
            }
        }
        line_is_reassembled(shorter);
        assert(input.last() != 10u8) by {
            assert(input[input.len() - 1] == input.last());
        }
        assert(shorter.push(input.last()) =~= input);
    }
}

/// Adds what was read to a version report.
pub fn version_chunk(output: &mut Vec<u8>, chunk: &[u8]) -> (result: Result<(), TransportError>)
    requires
        old(output).len() <= MAX_VERSION,
    ensures
        final(output).len() <= MAX_VERSION,
        match result {
            Ok(()) => old(output)@.len() + chunk@.len() <= MAX_VERSION && final(output)@ == old(
                output,
            )@ + chunk@,
            Err(error) => old(output)@.len() + chunk@.len() > MAX_VERSION && error
                == TransportError::Bounds && final(output)@ == old(output)@,
        },
{
    if chunk.len() > MAX_VERSION - output.len() {
        return Err(TransportError::Bounds);
    }
    push_bytes(output, chunk);
    Ok(())
}

/// Accepts exactly the supported version on a line of its own.
pub fn version_matches(output: &[u8]) -> (result: Result<(), TransportError>)
    ensures
        result == if output@ == encode_utf8(PRODUCER_VERSION@).push(10u8) {
            Ok::<(), TransportError>(())
        } else {
            Err::<(), TransportError>(TransportError::Version)
        },
{
    let mut expected: Vec<u8> = copy_bytes(PRODUCER_VERSION.as_bytes());
    expected.push(10u8);
    if same_bytes(output, expected.as_slice()) {
        Ok(())
    } else {
        Err(TransportError::Version)
    }
}

/// Counts bytes that are thrown away, up to a maximum.
pub fn drain_bounded(total: usize, read: usize, maximum: usize) -> (result: Result<
    usize,
    TransportError,
>)
    ensures
        result == if total + read <= maximum {
            Ok::<usize, TransportError>((total + read) as usize)
        } else {
            Err::<usize, TransportError>(TransportError::Bounds)
        },
{
    if read > maximum || total > maximum - read {
        Err(TransportError::Bounds)
    } else {
        Ok(total + read)
    }
}

/// Counts diagnostics: the capped count, and whether the cap was passed.
pub fn count_diagnostics(seen: usize, read: usize) -> (counted: (usize, bool))
    ensures
        counted.0 == if seen + read <= MAX_STDERR {
            seen + read
        } else {
            MAX_STDERR as int
        },
        counted.1 == (seen + read > MAX_STDERR),
{
    if read > MAX_STDERR || seen > MAX_STDERR - read {
        (MAX_STDERR, true)
    } else {
        (seen + read, false)
    }
}

/// A response body, read in each shape that a request may expect. A shape that
/// the body does not have is absent.
pub struct ResponseView {
    pub thread_id: Option<String>,
    pub turn_id: Option<String>,
    pub thread: Option<ThreadView>,
}

/// A reference by name: absent is malformed, and an invalid name out of bounds.
pub open spec fn named_ref(name: Option<String>) -> Result<Seq<u8>, TransportError> {
    match name {
        None => Err(TransportError::Malformed),
        Some(name) => if transport::native_text(name@) {
            Ok(encode_utf8(name@))
        } else {
            Err(TransportError::Bounds)
        },
    }
}

/// What a response says to the request that it answers.
pub open spec fn response_verdict(view: Option<ResponseView>, pending: PendingModel) -> Result<
    ReceivedModel,
    TransportError,
> {
    match view {
        None => Err(TransportError::Malformed),
        Some(view) => match pending.kind {
            RequestKind::Initialize => Ok(ReceivedModel::Initialized),
            RequestKind::ThreadStart => match named_ref(view.thread_id) {
                Ok(thread) => Ok(ReceivedModel::ThreadStarted(thread)),
                Err(error) => Err(error),
            },
            RequestKind::TurnStart => match named_ref(view.turn_id) {
                Ok(turn) => Ok(ReceivedModel::TurnStarted(turn)),
                Err(error) => Err(error),
            },
            RequestKind::ThreadResume => match pending.thread {
                None => Err(TransportError::Correlation),
                Some(thread) => match transport::thread_verdict(view.thread, thread) {
                    Ok(state) => Ok(ReceivedModel::ThreadResumed(state)),
                    Err(error) => Err(error),
                },
            },
            RequestKind::ThreadRead => match pending.thread {
                None => Err(TransportError::Correlation),
                Some(thread) => match transport::thread_verdict(view.thread, thread) {
                    Ok(state) => Ok(ReceivedModel::ThreadRead(state)),
                    Err(error) => Err(error),
                },
            },
        },
    }
}

fn parse_ref(name: &Option<String>) -> (result: Result<NativeRef, TransportError>)
    ensures
        match result {
            Ok(reference) => named_ref(*name) == Ok::<Seq<u8>, TransportError>(reference@),
            Err(error) => named_ref(*name) == Err::<Seq<u8>, TransportError>(error),
        },
{
    match name {
        Some(name) => NativeRef::parse_borrowed(name.as_str()),
        None => Err(TransportError::Malformed),
    }
}

/// Reads a response to a request. `view` is absent where the frame has no
/// result.
pub fn parse_response(view: &Option<ResponseView>, pending: &Pending) -> (result: Result<
    Received,
    TransportError,
>)
    ensures
        match result {
            Ok(received) => response_verdict(*view, pending@) == Ok::<
                ReceivedModel,
                TransportError,
            >(received@),
            Err(error) => response_verdict(*view, pending@) == Err::<
                ReceivedModel,
                TransportError,
            >(error),
        },
{
    let view = match view {
        Some(view) => view,
        None => return Err(TransportError::Malformed),
    };
    match pending.kind {
        RequestKind::Initialize => Ok(Received::Initialized),
        RequestKind::ThreadStart => match parse_ref(&view.thread_id) {
            Ok(thread) => Ok(Received::ThreadStarted(thread)),
            Err(error) => Err(error),
        },
        RequestKind::TurnStart => match parse_ref(&view.turn_id) {
            Ok(turn) => Ok(Received::TurnStarted(turn)),
            Err(error) => Err(error),
        },
        RequestKind::ThreadResume => match &pending.thread {
            None => Err(TransportError::Correlation),
            Some(thread) => match parse_thread_state(&view.thread, thread) {
                Ok(state) => Ok(Received::ThreadResumed(state)),
                Err(error) => Err(error),
            },
        },
        RequestKind::ThreadRead => match &pending.thread {
            None => Err(TransportError::Correlation),
            Some(thread) => match parse_thread_state(&view.thread, thread) {
                Ok(state) => Ok(Received::ThreadRead(state)),
                Err(error) => Err(error),
            },
        },
    }
}

/// What an inbound frame asks of the client.
pub enum Handled {
    /// The frame was kept; more has to be read.
    Waiting,
    Received(Received),
    /// The handshake is answered: the completion notice has to be sent.
    Initialized,
    /// The server's request has to be refused with this frame text.
    Refuse(String),
}

/// What a [`Handled`] says.
pub enum HandledModel {
    Waiting,
    Received(ReceivedModel),
    Initialized,
    Refuse(Seq<char>),
}

impl View for Handled {
    type V = HandledModel;

    open spec fn view(&self) -> HandledModel {
        match self {
            Handled::Waiting => HandledModel::Waiting,
            Handled::Received(received) => HandledModel::Received(received@),
            Handled::Initialized => HandledModel::Initialized,
            Handled::Refuse(text) => HandledModel::Refuse(text@),
        }
    }
}

/// A conversation: bytes read so far, requests without a response, notifications
/// kept back, whether the last outbound frame is in doubt, whether the handshake
/// is done, the next request identifier, and the frame of the turn that is
/// prepared.
#[verifier::ext_equal]
pub struct TransportModel {
    pub stdout: nat,
    pub pending: Seq<PendingModel>,
    pub notifications: Seq<NotificationModel>,
    pub ambiguous: bool,
    pub initialized: bool,
    pub next_id: u64,
    pub frame: Seq<u8>,
}

impl TransportModel {
    pub open spec fn fresh() -> TransportModel {
        TransportModel {
            stdout: 0,
            pending: Seq::empty(),
            notifications: Seq::empty(),
            ambiguous: false,
            initialized: false,
            next_id: 2,
            frame: Seq::empty(),
        }
    }

    /// Why the handshake cannot begin, if it cannot.
    pub open spec fn initialize_verdict(self) -> Result<(), TransportError> {
        if self.ambiguous {
            Err(TransportError::Ambiguous)
        } else if self.initialized || self.pending.len() > 0 {
            Err(TransportError::Bounds)
        } else {
            Ok(())
        }
    }

    /// A request identifier, where a request may be sent.
    pub open spec fn begin_request(self) -> (TransportModel, Result<u64, TransportError>) {
        if self.ambiguous {
            (self, Err(TransportError::Ambiguous))
        } else if !self.initialized {
            (self, Err(TransportError::Preflight))
        } else if self.pending.len() > 0 {
            (self, Err(TransportError::Bounds))
        } else if self.next_id == u64::MAX {
            (self, Err(TransportError::Bounds))
        } else {
            (
                TransportModel { next_id: (self.next_id + 1) as u64, ..self },
                Ok(self.next_id),
            )
        }
    }

    /// What a write leaves behind: doubt where bytes may have left.
    pub open spec fn note_sent(self, write: Result<WriteReceipt, WriteFailure>) -> (
        TransportModel,
        Result<(), TransportError>,
    ) {
        match write {
            Ok(_) => (self, Ok(())),
            Err(failure) => if failure.receipt == WriteReceipt::PossiblyWritten {
                (TransportModel { ambiguous: true, ..self }, Err(TransportError::Ambiguous))
            } else {
                (self, Err(failure.error))
            },
        }
    }

    /// A request was written: it is outstanding where the write succeeded.
    pub open spec fn finish_request(
        self,
        request: PendingModel,
        write: Result<WriteReceipt, WriteFailure>,
    ) -> (TransportModel, Result<(), TransportError>) {
        let (noted, result) = self.note_sent(write);
        match result {
            Ok(()) => (TransportModel { pending: noted.pending.push(request), ..noted }, Ok(())),
            Err(error) => (noted, Err(error)),
        }
    }

    /// No frame is kept.
    pub open spec fn discard(self) -> TransportModel {
        TransportModel { frame: Seq::empty(), ..self }
    }

    /// Prepares a turn whose request is `text`: its frame is kept where it is
    /// within the frame bound.
    pub open spec fn prepare(self, text: Seq<char>) -> (TransportModel, Result<u64, TransportError>) {
        let (begun, verdict) = self.begin_request();
        match verdict {
            Err(error) => (self, Err(error)),
            Ok(id) => if encode_utf8(text).len() < MAX_FRAME {
                (TransportModel { frame: encode_utf8(text).push(10u8), ..begun }, Ok(id))
            } else {
                (begun.discard(), Err(TransportError::Bounds))
            },
        }
    }

    /// A prepared turn was dispatched: it is outstanding where its bytes left or
    /// may have left, and its frame is gone.
    pub open spec fn finish_turn(
        self,
        id: u64,
        write: Result<WriteReceipt, WriteFailure>,
    ) -> TransportModel {
        let left = match write {
            Ok(receipt) => receipt == WriteReceipt::Written,
            Err(failure) => failure.receipt == WriteReceipt::PossiblyWritten,
        };
        if left {
            TransportModel {
                ambiguous: write is Err,
                pending: self.pending.push(
                    PendingModel { id, kind: RequestKind::TurnStart, thread: None },
                ),
                ..self.discard()
            }
        } else {
            self.discard()
        }
    }

    /// The oldest notification kept back, where nothing is outstanding.
    pub open spec fn take_queued(self) -> (TransportModel, Option<NotificationModel>) {
        if self.pending.len() == 0 && self.notifications.len() > 0 {
            (
                TransportModel { notifications: self.notifications.skip(1), ..self },
                Some(self.notifications[0]),
            )
        } else {
            (self, None)
        }
    }

    /// A line was read, or could not be.
    pub open spec fn note_read(self, read: Result<usize, TransportError>) -> (
        TransportModel,
        Result<(), TransportError>,
    ) {
        match read {
            Err(error) => if self.pending.len() > 0 {
                (TransportModel { ambiguous: true, ..self }, Err(TransportError::Ambiguous))
            } else {
                (self, Err(error))
            },
            Ok(consumed) => if self.stdout + consumed <= MAX_STDOUT {
                (TransportModel { stdout: self.stdout + consumed as nat, ..self }, Ok(()))
            } else {
                (self, Err(TransportError::Bounds))
            },
        }
    }

    /// A frame could not be classified.
    pub open spec fn in_doubt(self) -> TransportModel {
        TransportModel { ambiguous: self.ambiguous || self.pending.len() > 0, ..self }
    }

    /// The front request is answered.
    pub open spec fn answered(self) -> TransportModel {
        TransportModel { pending: self.pending.skip(1), ..self }
    }

    /// Takes in a classified frame.
    pub open spec fn handle(self, inbound: Inbound, view: Option<ResponseView>) -> (
        TransportModel,
        Result<HandledModel, TransportError>,
    ) {
        match inbound {
            Inbound::Response { id } => if self.pending.len() == 0 {
                (self, Err(TransportError::Correlation))
            } else if self.pending[0].id != id {
                (self.in_doubt(), Err(TransportError::Correlation))
            } else {
                match response_verdict(view, self.pending[0]) {
                    Err(error) => (TransportModel { ambiguous: true, ..self }, Err(error)),
                    Ok(ReceivedModel::Initialized) => (
                        TransportModel { ambiguous: false, ..self },
                        Ok(HandledModel::Initialized),
                    ),
                    Ok(received) => (
                        TransportModel { ambiguous: false, ..self.answered() },
                        Ok(HandledModel::Received(received)),
                    ),
                }
            },
            Inbound::NativeError(id) => if self.pending.len() > 0 && self.pending[0].id == id {
                (
                    TransportModel { ambiguous: false, ..self.answered() },
                    Err(TransportError::Native),
                )
            } else {
                (self.in_doubt(), Err(TransportError::Correlation))
            },
            Inbound::Notification(notification) => if !self.initialized {
                (self.in_doubt(), Err(TransportError::Correlation))
            } else if self.pending.len() == 0 {
                (
                    self,
                    Ok(HandledModel::Received(ReceivedModel::Notification(notification@))),
                )
            } else if self.notifications.len() == MAX_QUEUE {
                (self, Err(TransportError::Degraded))
            } else {
                (
                    TransportModel {
                        notifications: self.notifications.push(notification@),
                        ..self
                    },
                    Ok(HandledModel::Waiting),
                )
            },
            Inbound::ServerRequest(id) => if self.ambiguous {
                (self, Err(TransportError::Ambiguous))
            } else {
                (self, Ok(HandledModel::Refuse(refusal_text(id@))))
            },
        }
    }

    /// The completion notice was written: the handshake is done where the write
    /// succeeded.
    pub open spec fn finish_initialized(self, write: Result<WriteReceipt, WriteFailure>) -> (
        TransportModel,
        Result<(), TransportError>,
    ) {
        let (noted, result) = self.note_sent(write);
        match result {
            Ok(()) => (TransportModel { initialized: true, ..noted.answered() }, Ok(())),
            Err(error) => (noted, Err(error)),
        }
    }
}

/// One conversation with a server. At most 64 notifications are kept back.
pub struct TransportState {
    stdout: usize,
    pending: Vec<Pending>,
    notifications: Vec<Notification>,
    ambiguous: bool,
    initialized: bool,
    next_id: u64,
    frame: SecretBytes,
}

/// What each request waits for.
pub open spec fn pending_models(list: Seq<Pending>) -> Seq<PendingModel> {
    Seq::new(list.len(), |i: int| list[i]@)
}

/// What each notification says.
pub open spec fn notification_models(list: Seq<Notification>) -> Seq<NotificationModel> {
    Seq::new(list.len(), |i: int| list[i]@)
}

impl View for TransportState {
    type V = TransportModel;

    closed spec fn view(&self) -> TransportModel {
        TransportModel {
            stdout: self.stdout as nat,
            pending: pending_models(self.pending@),
            notifications: notification_models(self.notifications@),
            ambiguous: self.ambiguous,
            initialized: self.initialized,
            next_id: self.next_id,
            frame: self.frame@,
        }
    }
}

impl TransportState {
    pub fn new() -> (state: TransportState)
        ensures
            state@ == TransportModel::fresh(),
    {
        let state = TransportState {
            stdout: 0,
            pending: Vec::new(),
            notifications: Vec::new(),
            ambiguous: false,
            initialized: false,
            next_id: 2,
            frame: SecretBytes::new(Vec::new()),
        };
        assert(state@.pending =~= Seq::<PendingModel>::empty());
        assert(state@.notifications =~= Seq::<NotificationModel>::empty());
        state
    }

    /// The kind of the oldest request without a response.
    pub fn expected(&self) -> (kind: Option<RequestKind>)
        ensures
            kind == if self@.pending.len() > 0 {
                Some(self@.pending[0].kind)
            } else {
                None::<RequestKind>
            },
    {
        if self.pending.len() > 0 {
            assert(self@.pending[0] == self.pending@[0]@);
            Some(self.pending[0].kind)
        } else {
            None
        }
    }

    /// Whether the outcome of an outbound frame is in doubt.
    pub fn is_ambiguous(&self) -> (ambiguous: bool)
        ensures
            ambiguous == self@.ambiguous,
    {
        self.ambiguous
    }

    /// The frame text that opens the handshake, where it may be sent.
    pub fn begin_initialize(&self) -> (result: Result<String, TransportError>)
        ensures
            match result {
                Ok(frame) => self@.initialize_verdict() is Ok && frame@ == request_text(
                    1,
                    method_of(RequestKind::Initialize),
                    initialize_params_text(),
                ),
                Err(error) => self@.initialize_verdict() == Err::<(), TransportError>(error),
            },
    {
        if self.ambiguous {
            return Err(TransportError::Ambiguous);
        }
        if self.initialized || self.pending.len() > 0 {
            return Err(TransportError::Bounds);
        }
        Ok(client_request(1, RequestKind::Initialize, initialize_params().as_str()))
    }

    /// The handshake request was written.
    pub fn finish_initialize(&mut self, write: Result<WriteReceipt, WriteFailure>) -> (result:
        Result<(), TransportError>)
        ensures
            (final(self)@, result) == old(self)@.finish_request(
                PendingModel { id: 1, kind: RequestKind::Initialize, thread: None },
                write,
            ),
    {
        self.finish_request(1, RequestKind::Initialize, None, write)
    }

    /// The identifier of the next request, where one may be sent. Every
    /// identifier is given out once.
    pub fn begin_request(&mut self) -> (result: Result<u64, TransportError>)
        ensures
            (final(self)@, result) == old(self)@.begin_request(),
    {
        if self.ambiguous {
            return Err(TransportError::Ambiguous);
        }
        if !self.initialized {
            return Err(TransportError::Preflight);
        }
        if self.pending.len() > 0 {
            return Err(TransportError::Bounds);
        }
        if self.next_id == u64::MAX {
            return Err(TransportError::Bounds);
        }
        let id = self.next_id;
        self.next_id = self.next_id + 1;
        Ok(id)
    }

    fn note_sent(&mut self, write: Result<WriteReceipt, WriteFailure>) -> (result: Result<
        (),
        TransportError,
    >)
        ensures
            (final(self)@, result) == old(self)@.note_sent(write),
    {
        match write {
            Ok(_) => Ok(()),
            Err(failure) => if failure.receipt == WriteReceipt::PossiblyWritten {
                self.ambiguous = true;
                Err(TransportError::Ambiguous)
            } else {
                Err(failure.error)
            },
        }
    }

    /// A request was written.
    pub fn finish_request(
        &mut self,
        id: u64,
        kind: RequestKind,
        thread: Option<NativeRef>,
        write: Result<WriteReceipt, WriteFailure>,
    ) -> (result: Result<(), TransportError>)
        ensures
            (final(self)@, result) == old(self)@.finish_request(
                PendingModel { id, kind, thread: optional_ref(thread) },
                write,
            ),
    {
        match self.note_sent(write) {
            Ok(()) => {},
            Err(error) => return Err(error),
        }
        let ghost before = self@;
        let request = Pending { id, kind, thread };
        self.pending.push(request);
        assert(self@.pending =~= before.pending.push(request@));
        Ok(())
    }

    /// Prepares a turn, where a request may be sent: its identifier is given out
    /// and its frame is kept.
    pub fn prepare_turn(&mut self, thread: &NativeRef, managed_input: &str) -> (result: Result<
        PreparedTurn,
        TransportError,
    >)
        ensures
            exists|id: Seq<char>|
                encode_utf8(id) == thread@ && ({
                    let (after, verdict) = old(self)@.prepare(
                        request_text(
                            old(self)@.next_id,
                            method_of(RequestKind::TurnStart),
                            #[trigger] turn_params_text(id, managed_input@),
                        ),
                    );
                    &&& final(self)@ == after
                    &&& match result {
                        Ok(prepared) => verdict == Ok::<u64, TransportError>(prepared.id),
                        Err(error) => verdict == Err::<u64, TransportError>(error),
                    }
                }),
    {
        let params = turn_params(thread, managed_input);
        let id = match self.begin_request() {
            Ok(id) => id,
            Err(error) => return Err(error),
        };
        let text = client_request(id, RequestKind::TurnStart, params.as_str());
        self.discard_prepared_turn();
        match encode_frame(text.as_str()) {
            Ok(frame) => {
                self.frame = SecretBytes::new(frame);
                Ok(PreparedTurn { id })
            },
            Err(failure) => Err(failure.error),
        }
    }

    /// The frame of the turn that is prepared; empty where none is.
    pub fn prepared_frame(&self) -> (frame: &[u8])
        ensures
            frame@ == self@.frame,
    {
        self.frame.as_bytes()
    }

    /// Erases the frame of a turn that will not be dispatched.
    pub fn discard_prepared_turn(&mut self)
        ensures
            final(self)@ == old(self)@.discard(),
    {
        self.frame.erase();
        self.frame = SecretBytes::new(Vec::new());
        assert(self@.frame =~= Seq::<u8>::empty());
    }

    /// A prepared turn was dispatched. The turn is used up and its frame erased.
    pub fn finish_turn(
        &mut self,
        prepared: PreparedTurn,
        write: Result<WriteReceipt, WriteFailure>,
    )
        ensures
            final(self)@ == old(self)@.finish_turn(prepared.id, write),
    {
        self.discard_prepared_turn();
        let left = match write {
            Ok(receipt) => receipt == WriteReceipt::Written,
            Err(failure) => failure.receipt == WriteReceipt::PossiblyWritten,
        };
        if left {
            let ghost before = self@;
            self.ambiguous = write.is_err();
            let request = Pending { id: prepared.id, kind: RequestKind::TurnStart, thread: None };
            self.pending.push(request);
            assert(self@.pending =~= before.pending.push(request@));
        }
    }

    /// Hands out the oldest notification kept back, where nothing is
    /// outstanding.
    pub fn take_queued(&mut self) -> (queued: Option<Notification>)
        ensures
            final(self)@ == old(self)@.take_queued().0,
            match queued {
                Some(notification) => old(self)@.take_queued().1 == Some(notification@),
                None => old(self)@.take_queued().1 is None,
            },
    {
        if self.pending.len() == 0 && self.notifications.len() > 0 {
            let ghost before = self@;
            let notification = self.notifications.remove(0);
            assert(notification@ == before.notifications[0]);
            assert(self@.notifications =~= before.notifications.skip(1));
            Some(notification)
        } else {
            None
        }
    }

    /// A line was read, or could not be.
    pub fn note_read(&mut self, read: Result<usize, TransportError>) -> (result: Result<
        (),
        TransportError,
    >)
        ensures
            (final(self)@, result) == old(self)@.note_read(read),
    {
        match read {
            Err(error) => if self.pending.len() > 0 {
                self.ambiguous = true;
                Err(TransportError::Ambiguous)
            } else {
                Err(error)
            },
            Ok(consumed) => match drain_bounded(self.stdout, consumed, MAX_STDOUT) {
                Ok(total) => {
                    self.stdout = total;
                    Ok(())
                },
                Err(error) => Err(error),
            },
        }
    }

    /// A frame could not be classified: a request that is outstanding is in
    /// doubt.
    pub fn note_unreadable(&mut self)
        ensures
            final(self)@ == old(self)@.in_doubt(),
    {
        if self.pending.len() > 0 {
            self.ambiguous = true;
        }
    }

    /// Takes in a classified frame. `view` is the body of a response.
    pub fn handle_inbound(&mut self, inbound: Inbound, view: &Option<ResponseView>) -> (result:
        Result<Handled, TransportError>)
        ensures
            final(self)@ == old(self)@.handle(inbound, *view).0,
            match result {
                Ok(handled) => old(self)@.handle(inbound, *view).1 == Ok::<
                    HandledModel,
                    TransportError,
                >(handled@),
                Err(error) => old(self)@.handle(inbound, *view).1 == Err::<
                    HandledModel,
                    TransportError,
                >(error),
            },
    {
        let ghost before = self@;
        match inbound {
            Inbound::Response { id } => {
                if self.pending.len() == 0 {
                    return Err(TransportError::Correlation);
                }
                assert(before.pending[0] == self.pending@[0]@);
                if self.pending[0].id != id {
                    self.ambiguous = true;
                    return Err(TransportError::Correlation);
                }
                match parse_response(view, &self.pending[0]) {
                    Err(error) => {
                        self.ambiguous = true;
                        Err(error)
                    },
                    Ok(received) => {
                        self.ambiguous = false;
                        match received {
                            Received::Initialized => Ok(Handled::Initialized),
                            other => {
                                self.pop_answered();
                                Ok(Handled::Received(other))
                            },
                        }
                    },
                }
            },
            Inbound::NativeError(id) => {
                if self.pending.len() > 0 {
                    assert(before.pending[0] == self.pending@[0]@);
                    if self.pending[0].id == id {
                        self.ambiguous = false;
                        self.pop_answered();
                        return Err(TransportError::Native);
                    }
                    self.ambiguous = true;
                }
                Err(TransportError::Correlation)
            },
            Inbound::Notification(notification) => {
                if !self.initialized {
                    self.note_unreadable();
                    Err(TransportError::Correlation)
                } else if self.pending.len() == 0 {
                    Ok(Handled::Received(Received::Notification(notification)))
                } else if self.notifications.len() == MAX_QUEUE {
                    Err(TransportError::Degraded)
                } else {
                    self.notifications.push(notification);
                    assert(self@.notifications =~= before.notifications.push(notification@));
                    Ok(Handled::Waiting)
                }
            },
            Inbound::ServerRequest(id) => if self.ambiguous {
                Err(TransportError::Ambiguous)
            } else {
                Ok(Handled::Refuse(server_request_refusal(id.as_str())))
            },
        }
    }

    fn pop_answered(&mut self)
        requires
            old(self)@.pending.len() > 0,
        ensures
            final(self)@ == old(self)@.answered(),
    {
        let ghost before = self@;
        let _ = self.pending.remove(0);
        assert(self@.pending =~= before.pending.skip(1));
    }

    /// The completion notice was written.
    pub fn finish_initialized(&mut self, write: Result<WriteReceipt, WriteFailure>) -> (result:
        Result<Received, TransportError>)
        requires
            old(self)@.pending.len() > 0,
        ensures
            final(self)@ == old(self)@.finish_initialized(write).0,
            match result {
                Ok(received) => old(self)@.finish_initialized(write).1 is Ok && received@
                    == ReceivedModel::Initialized,
                Err(error) => old(self)@.finish_initialized(write).1 == Err::<
                    (),
                    TransportError,
                >(error),
            },
    {
        match self.note_sent(write) {
            Ok(()) => {},
            Err(error) => return Err(error),
        }
        self.initialized = true;
        self.pop_answered();
        Ok(Received::Initialized)
    }

    /// The refusal of a server request was written. It is reported only where
    /// nothing is outstanding.
    pub fn finish_refused(&mut self, write: Result<WriteReceipt, WriteFailure>) -> (result: Result<
        Handled,
        TransportError,
    >)
        ensures
            final(self)@ == old(self)@.note_sent(write).0,
            match result {
                Ok(handled) => old(self)@.note_sent(write).1 is Ok && handled@ == if old(
                    self,
                )@.pending.len() == 0 {
                    HandledModel::Received(ReceivedModel::ServerRequestRejected)
                } else {
                    HandledModel::Waiting
                },
                Err(error) => old(self)@.note_sent(write).1 == Err::<(), TransportError>(error),
            },
    {
        match self.note_sent(write) {
            Ok(()) => {},
            Err(error) => return Err(error),
        }
        if self.pending.len() == 0 {
            Ok(Handled::Received(Received::ServerRequestRejected))
        } else {
            Ok(Handled::Waiting)
        }
    }
}

/// While the outcome of a frame is in doubt nothing is sent: no handshake, no
/// request, no turn, no refusal.
pub proof fn doubt_stops_sending(state: TransportModel, id: String, view: Option<ResponseView>)
    requires
        state.ambiguous,
    ensures
        state.initialize_verdict() == Err::<(), TransportError>(TransportError::Ambiguous),
        state.begin_request() == (state, Err::<u64, TransportError>(TransportError::Ambiguous)),
        state.handle(Inbound::ServerRequest(id), view) == (
            state,
            Err::<HandledModel, TransportError>(TransportError::Ambiguous),
        ),
{
}

/// One request is outstanding at a time: with one outstanding no other begins.
pub proof fn one_request_at_a_time(state: TransportModel)
    requires
        state.pending.len() > 0,
    ensures
        state.initialize_verdict() is Err,
        state.begin_request().1 is Err,
        state.begin_request().0 == state,
{
}

/// Identifiers ascend: two requests never share one.
pub proof fn identifiers_ascend(state: TransportModel)
    requires
        state.begin_request().1 is Ok,
    ensures
        state.begin_request().1->Ok_0 == state.next_id,
        state.begin_request().0.next_id > state.next_id,
{
}

/// A turn that may have left is never sent again: its dispatch leaves the turn
/// outstanding and in doubt, and no request begins until it is answered.
pub proof fn doubtful_turn_is_not_replayed(state: TransportModel, id: u64, failure: WriteFailure)
    requires
        failure.receipt == WriteReceipt::PossiblyWritten,
    ensures
        ({
            let after = state.finish_turn(id, Err(failure));
            &&& after.ambiguous
            &&& after.pending.len() > 0
            &&& after.begin_request().1 == Err::<u64, TransportError>(TransportError::Ambiguous)
        }),
{
}

/// A turn of which no byte left changes nothing but its frame, which is gone.
pub proof fn unsent_turn_changes_nothing(state: TransportModel, id: u64, failure: WriteFailure)
    requires
        failure.receipt == WriteReceipt::ProvenNotWritten,
    ensures
        state.finish_turn(id, Err(failure)) == state.discard(),
{
}

/// A dispatched turn leaves no frame behind, whatever the write came to.
pub proof fn dispatch_erases_the_frame(
    state: TransportModel,
    id: u64,
    write: Result<WriteReceipt, WriteFailure>,
)
    ensures
        state.finish_turn(id, write).frame == Seq::<u8>::empty(),
{
}

/// Notifications come out in the order in which they came in: while a response
/// is outstanding they line up behind those kept already, and the front one
/// leaves first.
pub proof fn notifications_keep_their_order(
    state: TransportModel,
    notification: Notification,
    view: Option<ResponseView>,
)
    requires
        state.initialized,
        state.pending.len() > 0,
        state.notifications.len() < MAX_QUEUE,
    ensures
        ({
            let kept = state.handle(Inbound::Notification(notification), view).0;
            &&& kept.notifications == state.notifications.push(notification@)
            &&& kept.answered().pending.len() == 0 ==> kept.answered().take_queued().1 == Some(
                state.notifications.push(notification@)[0],
            )
        }),
{
}

} // verus!
