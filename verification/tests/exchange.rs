//! The line protocol over readers and writers of fixed behaviour.

use gearwit::controller::NativeWriteDisposition;
use gearwit::exchange::{
    client_request, count_diagnostics, drain_bounded, encode_frame, failed_write_disposition,
    initialized_notice, on_read, read_params, resume_params, turn_params, version_chunk,
    version_matches, FlushEvent, FrameWrite, Handled, ReadEvent, RequestKind, ResponseView,
    TransportState, WriteEvent, WriteFailure, WriteReceipt, CLIENT_NAME, CLIENT_VERSION,
};
use gearwit::secret::SecretBytes;
use gearwit::transport::{
    classify, parse_thread_state, Envelope, Inbound, NativeRef, Notification, NotificationView,
    Received, StatusView, ThreadState, ThreadView, TransportError, TurnEnd, TurnView, MAX_FRAME,
    MAX_LINE, MAX_NATIVE_REF, MAX_QUEUE, MAX_STDERR, MAX_VERSION,
};
use serde_json::value::RawValue;
use serde_json::Value;
use std::collections::BTreeMap;
use std::io::{self, Cursor, Read, Write};
use std::time::{Duration, Instant};

const IO_DEADLINE: Duration = Duration::from_secs(8);

fn native(value: &str) -> NativeRef {
    NativeRef::parse_borrowed(value).expect("native reference")
}

type Members<'a> = BTreeMap<&'a str, &'a RawValue>;

fn members(text: &str) -> Option<Members<'_>> {
    serde_json::from_str(text).ok()
}

fn text_of(map: &Members<'_>, name: &str) -> Option<Option<String>> {
    match map.get(name) {
        None => Some(None),
        Some(raw) => serde_json::from_str::<Option<&str>>(raw.get())
            .ok()
            .map(|text| text.map(str::to_owned)),
    }
}

fn raw_of(map: &Members<'_>, name: &str) -> Option<String> {
    map.get(name)
        .map(|raw| raw.get().to_owned())
        .filter(|text| text != "null")
}

fn turn_view(text: &str) -> Option<TurnView> {
    let map = members(text)?;
    Some(TurnView {
        id: text_of(&map, "id")?,
        status: text_of(&map, "status")?,
    })
}

fn thread_view(text: &str) -> Option<ThreadView> {
    let map = members(text)?;
    let status = match raw_of(&map, "status") {
        None => None,
        Some(raw) => {
            let status = members(&raw)?;
            let active_flags = match raw_of(&status, "activeFlags") {
                None => None,
                Some(flags) => Some(
                    serde_json::from_str::<Vec<&str>>(&flags)
                        .ok()?
                        .into_iter()
                        .map(str::to_owned)
                        .collect(),
                ),
            };
            Some(StatusView {
                kind: text_of(&status, "type")??,
                active_flags,
            })
        }
    };
    let turns = match raw_of(&map, "turns") {
        None => None,
        Some(raw) => {
            let mut turns = Vec::new();
            for turn in serde_json::from_str::<Vec<&RawValue>>(&raw).ok()? {
                turns.push(turn_view(turn.get())?);
            }
            Some(turns)
        }
    };
    Some(ThreadView {
        id: text_of(&map, "id")??,
        status,
        turns,
    })
}

fn member_id(text: &str, name: &str) -> Option<String> {
    let outer = members(text)?;
    let inner = members(outer.get(name)?.get())?;
    text_of(&inner, "id")?
}

fn envelope(line: &[u8]) -> Option<Envelope> {
    let map = members(std::str::from_utf8(line).ok()?)?;
    Some(Envelope {
        id: raw_of(&map, "id"),
        method: text_of(&map, "method")?,
        result: raw_of(&map, "result"),
        error: raw_of(&map, "error"),
    })
}

fn notification(line: &[u8]) -> Option<NotificationView> {
    let map = members(std::str::from_utf8(line).ok()?)?;
    let params = members(map.get("params")?.get())?;
    let turn = turn_view(params.get("turn")?.get())?;
    Some(NotificationView {
        method: text_of(&map, "method")??,
        thread_id: text_of(&params, "threadId")??,
        turn_id: turn.id,
        turn_status: turn.status,
    })
}

fn response(line: &[u8]) -> Option<ResponseView> {
    let result = envelope(line)?.result?;
    Some(ResponseView {
        thread_id: member_id(&result, "thread"),
        turn_id: member_id(&result, "turn"),
        thread: members(&result)
            .and_then(|map| map.get("thread").and_then(|raw| thread_view(raw.get()))),
    })
}

fn classify_line(line: &[u8]) -> Result<Inbound, TransportError> {
    classify(&envelope(line), &notification(line))
}

fn blocked(error: &io::Error) -> bool {
    error.kind() == io::ErrorKind::WouldBlock
}

fn read_line_until<R: Read>(
    reader: &mut R,
    line: &mut Vec<u8>,
    deadline: Duration,
) -> Result<usize, TransportError> {
    line.clear();
    let until = Instant::now() + deadline;
    let mut byte = [0_u8; 1];
    loop {
        let event = match reader.read(&mut byte) {
            Ok(0) => ReadEvent::End,
            Ok(_) => ReadEvent::Byte(byte[0]),
            Err(error) if blocked(&error) => ReadEvent::Blocked {
                expired: Instant::now() >= until,
            },
            Err(_) => ReadEvent::Failed,
        };
        if let Some(result) = on_read(line, event) {
            return result;
        }
    }
}

fn write_all_until<W: Write>(
    writer: &mut W,
    frame: &[u8],
    deadline: Duration,
) -> Result<WriteReceipt, WriteFailure> {
    let until = Instant::now() + deadline;
    let mut progress = FrameWrite::new(frame.len());
    while progress.unfinished() {
        let event = match writer.write(&frame[progress.written..]) {
            Ok(written) => WriteEvent::Wrote(written),
            Err(error) if blocked(&error) => WriteEvent::Blocked {
                expired: Instant::now() >= until,
            },
            Err(_) => WriteEvent::Failed,
        };
        if let Some(failure) = progress.on_write(event) {
            return Err(failure);
        }
    }
    loop {
        let event = match writer.flush() {
            Ok(()) => FlushEvent::Flushed,
            Err(error) if blocked(&error) => FlushEvent::Blocked {
                expired: Instant::now() >= until,
            },
            Err(_) => FlushEvent::Failed,
        };
        if let Some(result) = progress.on_flush(event) {
            return result;
        }
    }
}

fn write_text<W: Write>(writer: &mut W, text: &str) -> Result<WriteReceipt, WriteFailure> {
    let frame = encode_frame(text)?;
    write_all_until(writer, &frame, IO_DEADLINE)
}

fn initialize<W: Write>(
    state: &mut TransportState,
    writer: &mut W,
) -> Result<(), TransportError> {
    let text = state.begin_initialize()?;
    let write = write_text(writer, &text);
    state.finish_initialize(write)
}

fn request<W: Write>(
    state: &mut TransportState,
    writer: &mut W,
    kind: RequestKind,
    params: &str,
    thread: Option<NativeRef>,
) -> Result<u64, TransportError> {
    let id = state.begin_request()?;
    let write = write_text(writer, &client_request(id, kind, params));
    state.finish_request(id, kind, thread, write)?;
    Ok(id)
}

fn start_thread<W: Write>(
    state: &mut TransportState,
    writer: &mut W,
) -> Result<u64, TransportError> {
    request(state, writer, RequestKind::ThreadStart, "{}", None)
}

fn start_turn<W: Write>(
    state: &mut TransportState,
    writer: &mut W,
    thread: &NativeRef,
    input: &str,
) -> Result<u64, TransportError> {
    let params = turn_params(thread, input);
    request(state, writer, RequestKind::TurnStart, &params, None)
}

fn read_thread<W: Write>(
    state: &mut TransportState,
    writer: &mut W,
    thread: &NativeRef,
) -> Result<u64, TransportError> {
    let params = read_params(thread);
    request(
        state,
        writer,
        RequestKind::ThreadRead,
        &params,
        Some(thread.clone()),
    )
}

fn next_until<R: Read, W: Write>(
    state: &mut TransportState,
    reader: &mut R,
    writer: &mut W,
    deadline: Duration,
) -> Result<Received, TransportError> {
    if let Some(notification) = state.take_queued() {
        return Ok(Received::Notification(notification));
    }
    let mut line = Vec::new();
    loop {
        let read = read_line_until(reader, &mut line, deadline);
        state.note_read(read)?;
        let inbound = match classify_line(&line) {
            Ok(inbound) => inbound,
            Err(error) => {
                state.note_unreadable();
                return Err(error);
            }
        };
        let handled = match state.handle_inbound(inbound, &response(&line))? {
            Handled::Initialized => {
                let write = write_text(writer, &initialized_notice());
                return state.finish_initialized(write);
            }
            Handled::Refuse(text) => {
                let write = write_text(writer, &text);
                state.finish_refused(write)?
            }
            other => other,
        };
        if let Handled::Received(received) = handled {
            return Ok(received);
        }
    }
}

fn next<R: Read, W: Write>(
    state: &mut TransportState,
    reader: &mut R,
    writer: &mut W,
) -> Result<Received, TransportError> {
    next_until(state, reader, writer, IO_DEADLINE)
}

/// A conversation whose handshake is done.
fn ready() -> TransportState {
    let mut state = TransportState::new();
    let mut output = Vec::new();
    initialize(&mut state, &mut output).expect("initialize");
    assert!(matches!(
        next(
            &mut state,
            &mut Cursor::new(b"{\"id\":1,\"result\":{}}\n"),
            &mut output
        ),
        Ok(Received::Initialized)
    ));
    state
}

fn parse_version<R: Read>(reader: &mut R, deadline: Duration) -> Result<(), TransportError> {
    let mut output = Vec::new();
    let mut chunk = [0_u8; 64];
    let until = Instant::now() + deadline;
    loop {
        match reader.read(&mut chunk) {
            Ok(0) => return version_matches(&output),
            Ok(read) => version_chunk(&mut output, &chunk[..read])?,
            Err(error) if blocked(&error) => {
                if Instant::now() >= until {
                    return Err(TransportError::Deadline);
                }
            }
            Err(_) => return Err(TransportError::Preflight),
        }
    }
}

fn json(text: &str) -> Value {
    serde_json::from_str(text).expect("json")
}

fn last_frame(output: &[u8]) -> Value {
    let frame = output.rsplit(|byte| *byte == b'\n').nth(1).expect("frame");
    serde_json::from_slice(frame).expect("json")
}

struct FlushFails(Vec<u8>);

impl Write for FlushFails {
    fn write(&mut self, bytes: &[u8]) -> io::Result<usize> {
        self.0.extend_from_slice(bytes);
        Ok(bytes.len())
    }
    fn flush(&mut self) -> io::Result<()> {
        Err(io::Error::other("accepted then failed"))
    }
}

struct Silent;

impl Read for Silent {
    fn read(&mut self, _bytes: &mut [u8]) -> io::Result<usize> {
        Err(io::Error::from(io::ErrorKind::WouldBlock))
    }
}

struct Delayed {
    waits: usize,
    bytes: Cursor<Vec<u8>>,
}

impl Read for Delayed {
    fn read(&mut self, bytes: &mut [u8]) -> io::Result<usize> {
        if self.waits > 0 {
            self.waits -= 1;
            return Err(io::Error::from(io::ErrorKind::WouldBlock));
        }
        self.bytes.read(bytes)
    }
}

struct BlockedWriter;

impl Write for BlockedWriter {
    fn write(&mut self, _bytes: &[u8]) -> io::Result<usize> {
        Err(io::Error::from(io::ErrorKind::WouldBlock))
    }
    fn flush(&mut self) -> io::Result<()> {
        Err(io::Error::from(io::ErrorKind::WouldBlock))
    }
}

struct FailsImmediately;

impl Write for FailsImmediately {
    fn write(&mut self, _bytes: &[u8]) -> io::Result<usize> {
        Err(io::Error::from(io::ErrorKind::BrokenPipe))
    }
    fn flush(&mut self) -> io::Result<()> {
        Ok(())
    }
}

struct PartialThenFails(bool);

impl Write for PartialThenFails {
    fn write(&mut self, bytes: &[u8]) -> io::Result<usize> {
        if self.0 {
            Err(io::Error::from(io::ErrorKind::BrokenPipe))
        } else {
            self.0 = true;
            Ok(bytes.len().min(1))
        }
    }
    fn flush(&mut self) -> io::Result<()> {
        Ok(())
    }
}

struct WritesZero;

impl Write for WritesZero {
    fn write(&mut self, _bytes: &[u8]) -> io::Result<usize> {
        Ok(0)
    }
    fn flush(&mut self) -> io::Result<()> {
        Ok(())
    }
}

#[test]
fn parse_and_bounds_are_strict() {
    assert!(matches!(
        classify_line(br#"{"id":1,"result":{}}"#),
        Ok(Inbound::Response { id: 1 })
    ));
    assert!(matches!(
        classify_line(br#"{"method":"notice"}"#),
        Ok(Inbound::Notification(_))
    ));
    assert!(matches!(
        classify_line(br#"{"id":"x","method":"call"}"#),
        Ok(Inbound::ServerRequest(_))
    ));
    let mut reader = Cursor::new(vec![b'x'; MAX_LINE + 1]);
    let mut line = Vec::with_capacity(MAX_LINE);
    assert_eq!(
        read_line_until(&mut reader, &mut line, IO_DEADLINE),
        Err(TransportError::Bounds)
    );
    assert_eq!(line.capacity(), MAX_LINE);
}

#[test]
fn correlation_and_server_rejection_are_deterministic() {
    let mut state = TransportState::new();
    let mut output = Vec::new();
    initialize(&mut state, &mut output).expect("initialize");
    assert!(matches!(
        next(
            &mut state,
            &mut Cursor::new(b"{\"id\":1,\"result\":{}}\n"),
            &mut output
        ),
        Ok(Received::Initialized)
    ));
    assert_eq!(
        last_frame(&output),
        json(r#"{"method":"initialized","params":{}}"#)
    );
    assert_eq!(
        next(
            &mut state,
            &mut Cursor::new(b"{\"id\":2,\"result\":{}}\n"),
            &mut output
        )
        .err(),
        Some(TransportError::Correlation)
    );
    assert!(matches!(
        next(
            &mut state,
            &mut Cursor::new(b"{\"id\":\"request\",\"method\":\"call\"}\n"),
            &mut output
        ),
        Ok(Received::ServerRequestRejected)
    ));
    assert_eq!(
        last_frame(&output),
        json(r#"{"id":"request","error":{"code":-32601,"message":"server requests unsupported"}}"#)
    );
}

#[test]
fn accepted_write_failure_is_ambiguous_without_replay() {
    let mut state = TransportState::new();
    let mut writer = FlushFails(Vec::new());
    assert_eq!(
        initialize(&mut state, &mut writer),
        Err(TransportError::Ambiguous)
    );
    assert!(state.is_ambiguous() && !writer.0.is_empty());
    assert_eq!(
        initialize(&mut state, &mut writer),
        Err(TransportError::Ambiguous)
    );
}

#[test]
fn initialize_requires_a_correlated_object_before_notifications() {
    let mut state = TransportState::new();
    let mut output = Vec::new();
    initialize(&mut state, &mut output).expect("initialize");
    let first = output.split(|byte| *byte == b'\n').next().expect("frame");
    assert_eq!(
        serde_json::from_slice::<Value>(first).expect("json"),
        json(&format!(
            "{{\"id\":1,\"method\":\"initialize\",\"params\":{{\"clientInfo\":{{\"name\":\"{CLIENT_NAME}\",\"version\":\"{CLIENT_VERSION}\"}}}}}}"
        ))
    );
    assert_eq!(
        next(
            &mut state,
            &mut Cursor::new(b"{\"method\":\"notice\"}\n"),
            &mut output
        )
        .err(),
        Some(TransportError::Correlation)
    );
    assert_eq!(
        next(
            &mut state,
            &mut Cursor::new(b"{\"id\":2,\"result\":{}}\n"),
            &mut output
        )
        .err(),
        Some(TransportError::Correlation)
    );
    assert_eq!(
        next(&mut state, &mut Cursor::new(b"{\"id\":1}\n"), &mut output).err(),
        Some(TransportError::Malformed)
    );
    assert!(matches!(
        next(
            &mut state,
            &mut Cursor::new(b"{\"id\":1,\"result\":{}}\n"),
            &mut output
        ),
        Ok(Received::Initialized)
    ));
    assert!(matches!(
        next(
            &mut state,
            &mut Cursor::new(b"{\"method\":\"notice\"}\n"),
            &mut output
        ),
        Ok(Received::Notification(Notification::Signal))
    ));
}

#[test]
fn failed_server_request_rejection_latches_ambiguity() {
    let mut state = ready();
    let mut writer = FlushFails(Vec::new());
    assert_eq!(
        next(
            &mut state,
            &mut Cursor::new(b"{\"id\":\"request\",\"method\":\"call\"}\n"),
            &mut writer
        )
        .err(),
        Some(TransportError::Ambiguous)
    );
    assert!(state.is_ambiguous() && !writer.0.is_empty());
}

#[test]
fn silent_or_delayed_io_hits_a_bounded_deadline() {
    let deadline = Duration::from_millis(15);
    let mut line = Vec::new();
    assert_eq!(
        read_line_until(&mut Silent, &mut line, deadline),
        Err(TransportError::Deadline)
    );
    assert_eq!(
        parse_version(&mut Silent, deadline),
        Err(TransportError::Deadline)
    );
    assert_eq!(
        write_all_until(&mut BlockedWriter, b"frame", deadline),
        Err(WriteFailure {
            error: TransportError::Deadline,
            receipt: WriteReceipt::ProvenNotWritten,
        })
    );

    let mut state = TransportState::new();
    let mut output = Vec::new();
    initialize(&mut state, &mut output).expect("initialize");
    assert_eq!(
        next_until(&mut state, &mut Silent, &mut output, deadline).err(),
        Some(TransportError::Ambiguous)
    );
    assert!(state.is_ambiguous());

    let mut delayed = Delayed {
        waits: 1,
        bytes: Cursor::new(b"frame\n".to_vec()),
    };
    assert_eq!(
        read_line_until(&mut delayed, &mut line, deadline),
        Ok(b"frame\n".len())
    );
    assert_eq!(line, b"frame");
}

#[test]
fn pending_response_retains_notifications_and_rejects_escaped_native_ids() {
    let mut state = ready();
    let mut output = Vec::new();
    start_turn(&mut state, &mut output, &native("thread-private"), "test").expect("turn request");
    let frames = concat_frames(&[
        "{\"method\":\"turn/completed\",\"params\":{\"threadId\":\"thread-private\",\"turn\":{\"id\":\"turn-private\",\"status\":\"completed\"}}}",
        "{\"method\":\"turn/started\",\"params\":{\"threadId\":\"thread-private\",\"turn\":{\"id\":\"turn-private\"}}}",
        "{\"id\":2,\"result\":{\"turn\":{\"id\":\"turn-private\"}}}",
    ]);
    assert!(matches!(
        next(&mut state, &mut Cursor::new(frames), &mut output),
        Ok(Received::TurnStarted(turn)) if turn.same(&native("turn-private"))
    ));
    assert!(matches!(
        next(&mut state, &mut Silent, &mut output),
        Ok(Received::Notification(Notification::Terminal { .. }))
    ));
    assert!(matches!(
        next(&mut state, &mut Silent, &mut output),
        Ok(Received::Notification(Notification::TurnStarted { .. }))
    ));

    let mut unknown = ready();
    start_turn(&mut unknown, &mut output, &native("thread-private"), "test")
        .expect("unknown turn request");
    assert_eq!(
        next(
            &mut unknown,
            &mut Cursor::new(b"{\"method\":\"turn/started\",\"params\":{\"threadId\":\"thread-private\",\"turn\":{\"id\":\"turn-private\"}}}\n"),
            &mut output,
        )
        .err(),
        Some(TransportError::Ambiguous)
    );
    assert!(matches!(
        next(
            &mut unknown,
            &mut Cursor::new(b"{\"id\":2,\"result\":{\"turn\":{\"id\":\"turn-private\"}}}\n"),
            &mut output,
        ),
        Ok(Received::TurnStarted(turn)) if turn.same(&native("turn-private"))
    ));
    assert!(matches!(
        next(&mut unknown, &mut Silent, &mut output),
        Ok(Received::Notification(Notification::TurnStarted { .. }))
    ));
    assert!(unknown.take_queued().is_none());

    let mut escaped = ready();
    start_thread(&mut escaped, &mut output).expect("thread request");
    assert_eq!(
        next(
            &mut escaped,
            &mut Cursor::new(
                b"{\"id\":2,\"result\":{\"thread\":{\"id\":\"thread\\u002dprivate\"}}}\n"
            ),
            &mut output,
        )
        .err(),
        Some(TransportError::Malformed)
    );
}

fn concat_frames(frames: &[&str]) -> Vec<u8> {
    let mut bytes = Vec::new();
    for frame in frames {
        bytes.extend_from_slice(frame.as_bytes());
        bytes.push(b'\n');
    }
    bytes
}

#[test]
fn version_must_match_exactly() {
    assert_eq!(
        parse_version(&mut Cursor::new(b"codex-cli 0.152.1\n"), IO_DEADLINE),
        Ok(())
    );
    assert_eq!(
        parse_version(&mut Cursor::new(b"codex-cli 0.152.2\n"), IO_DEADLINE),
        Err(TransportError::Version)
    );
    assert_eq!(
        parse_version(&mut Cursor::new(b"codex-cli 0.152.1"), IO_DEADLINE),
        Err(TransportError::Version)
    );
    assert_eq!(
        parse_version(&mut Cursor::new(b"codex-cli 0.152.1\nextra\n"), IO_DEADLINE),
        Err(TransportError::Version)
    );
    assert_eq!(
        drain_bounded(0, MAX_VERSION + 1, MAX_VERSION),
        Err(TransportError::Bounds)
    );
}

#[test]
fn native_errors_reordering_and_delays_are_typed() {
    let mut state = TransportState::new();
    let mut output = Vec::new();
    initialize(&mut state, &mut output).expect("initialize");
    assert_eq!(
        next(
            &mut state,
            &mut Cursor::new(b"{\"id\":2,\"error\":{\"code\":-32600}}\n"),
            &mut output
        )
        .err(),
        Some(TransportError::Correlation)
    );
    assert_eq!(
        next(
            &mut state,
            &mut Cursor::new(b"{\"id\":1,\"error\":{\"code\":-32600}}\n"),
            &mut output
        )
        .err(),
        Some(TransportError::Native)
    );

    let mut state = TransportState::new();
    initialize(&mut state, &mut output).expect("initialize");
    let mut delayed = Delayed {
        waits: 2,
        bytes: Cursor::new(b"{\"id\":1,\"result\":{}}\n".to_vec()),
    };
    assert!(matches!(
        next_until(
            &mut state,
            &mut delayed,
            &mut output,
            Duration::from_millis(50)
        ),
        Ok(Received::Initialized)
    ));
}

#[test]
fn malformed_correlated_results_retain_no_replay_state() {
    let mut output = Vec::new();
    let mut thread_state = ready();
    start_thread(&mut thread_state, &mut output).expect("thread request");
    assert_eq!(
        next(
            &mut thread_state,
            &mut Cursor::new(b"{\"id\":2,\"result\":{\"thread\":{}}}\n"),
            &mut output
        )
        .err(),
        Some(TransportError::Malformed)
    );
    assert!(thread_state.is_ambiguous() && thread_state.expected().is_some());
    assert_eq!(
        start_thread(&mut thread_state, &mut output),
        Err(TransportError::Ambiguous)
    );

    let mut turn_state = ready();
    start_turn(&mut turn_state, &mut output, &native("thread-private"), "test")
        .expect("turn request");
    let oversized = "x".repeat(MAX_NATIVE_REF + 1);
    let response = format!("{{\"id\":2,\"result\":{{\"turn\":{{\"id\":\"{oversized}\"}}}}}}\n");
    assert_eq!(
        next(&mut turn_state, &mut Cursor::new(response), &mut output).err(),
        Some(TransportError::Bounds)
    );
    assert!(turn_state.is_ambiguous() && turn_state.expected().is_some());
    assert_eq!(
        start_turn(&mut turn_state, &mut output, &native("thread-private"), "test"),
        Err(TransportError::Ambiguous)
    );
}

#[test]
fn requests_require_handshake_single_flight_and_unique_ids() {
    let mut state = TransportState::new();
    let mut output = Vec::new();
    assert_eq!(
        start_thread(&mut state, &mut output),
        Err(TransportError::Preflight)
    );
    assert_eq!(
        start_turn(&mut state, &mut output, &native("thread-private"), "test"),
        Err(TransportError::Preflight)
    );
    initialize(&mut state, &mut output).expect("initialize");
    assert_eq!(
        start_thread(&mut state, &mut output),
        Err(TransportError::Preflight)
    );
    assert_eq!(
        initialize(&mut state, &mut output),
        Err(TransportError::Bounds)
    );
    assert!(matches!(
        next(
            &mut state,
            &mut Cursor::new(b"{\"id\":1,\"result\":{}}\n"),
            &mut output
        ),
        Ok(Received::Initialized)
    ));

    assert_eq!(start_thread(&mut state, &mut output), Ok(2));
    assert_eq!(state.expected(), Some(RequestKind::ThreadStart));
    assert_eq!(
        start_thread(&mut state, &mut output),
        Err(TransportError::Bounds)
    );
    assert!(matches!(
        next(
            &mut state,
            &mut Cursor::new(b"{\"id\":2,\"result\":{\"thread\":{\"id\":\"thread-private\"}}}\n"),
            &mut output
        ),
        Ok(Received::ThreadStarted(thread)) if thread.same(&native("thread-private"))
    ));
    assert_eq!(start_thread(&mut state, &mut output), Ok(3));
    assert_eq!(
        start_thread(&mut state, &mut output),
        Err(TransportError::Bounds)
    );
}

#[test]
fn terminal_and_notification_degradation_are_explicit() {
    assert!(matches!(
        classify_line(
            b"{\"method\":\"turn/completed\",\"params\":{\"threadId\":\"thread-1\",\"turn\":{\"id\":\"turn-1\",\"status\":\"completed\"}}}"
        ),
        Ok(Inbound::Notification(Notification::Terminal {
            class: TurnEnd::Succeeded,
            ..
        }))
    ));
    for (status, expected) in [
        ("interrupted", TurnEnd::Interrupted),
        ("failed", TurnEnd::Failed),
    ] {
        let frame = format!(
            "{{\"method\":\"turn/completed\",\"params\":{{\"threadId\":\"thread-1\",\"turn\":{{\"id\":\"turn-1\",\"status\":\"{status}\"}}}}}}"
        );
        assert!(matches!(
            classify_line(frame.as_bytes()),
            Ok(Inbound::Notification(Notification::Terminal { class, .. })) if class == expected
        ));
    }
    assert!(matches!(
        classify_line(b"{\"method\":\"turn/completed\",\"params\":{\"threadId\":\"thread-1\",\"turn\":{\"id\":\"turn-1\",\"status\":\"inProgress\"}}}"),
        Ok(Inbound::Notification(Notification::DegradedTerminal { .. }))
    ));

    let mut state = ready();
    let mut output = Vec::new();
    for _ in 0..=MAX_QUEUE {
        assert!(matches!(
            next(
                &mut state,
                &mut Cursor::new(b"{\"method\":\"notice\"}\n"),
                &mut output
            ),
            Ok(Received::Notification(Notification::Signal))
        ));
    }
}

fn thread_state(thread: &str) -> Result<ThreadState, TransportError> {
    parse_thread_state(&thread_view(thread), &native("thread-private"))
}

#[test]
fn exact_thread_state_mapping_is_closed_and_correlated() {
    assert!(matches!(
        thread_state(
            r#"{"id": "thread-private", "status": {"type": "idle"},
                "turns": [{"id": "turn-old", "status": "completed"}]}"#
        ),
        Ok(ThreadState::Idle)
    ));
    assert!(matches!(
        thread_state(
            r#"{"id": "thread-private",
                "status": {"type": "active", "activeFlags": ["waitingOnApproval"]},
                "turns": [{"id": "turn-old", "status": "completed"},
                          {"id": "turn-exact", "status": "inProgress"}]}"#
        ),
        Ok(ThreadState::ActiveTurn(_))
    ));
    let first = thread_state(
        r#"{"id": "thread-private",
            "status": {"type": "active", "activeFlags": ["waitingOnApproval"]},
            "turns": [{"id": "turn-exact", "status": "inProgress"}]}"#,
    );
    let second = thread_state(
        r#"{"id": "thread-private",
            "status": {"type": "active", "activeFlags": ["waitingOnUserInput"]},
            "turns": [{"id": "turn-exact", "status": "inProgress"}]}"#,
    );
    let (Ok(ThreadState::ActiveTurn(first)), Ok(ThreadState::ActiveTurn(second))) =
        (first, second)
    else {
        panic!("active prehashes");
    };
    assert_ne!(first.bytes(), second.bytes());
    assert_eq!(
        thread_state(r#"{"id": "thread-unrelated", "status": {"type": "idle"}, "turns": []}"#)
            .err(),
        Some(TransportError::Correlation)
    );

    for thread in [
        r#"{"id": "thread-private"}"#,
        r#"{"id": "thread-private", "status": {"type": "idle"}}"#,
        r#"{"id": "thread-private", "status": {"type": "idle"}, "turns": [{"id": "turn-1", "status": "inProgress"}]}"#,
        r#"{"id": "thread-private", "status": {"type": "idle"}, "turns": [{"id": "turn-1", "status": "future"}]}"#,
        r#"{"id": "thread-private", "status": {"type": "idle"}, "turns": [{"status": "completed"}]}"#,
        r#"{"id": "thread-private", "status": {"type": "future"}, "turns": []}"#,
        r#"{"id": "thread-private", "status": {"type": "notLoaded"}, "turns": []}"#,
        r#"{"id": "thread-private", "status": {"type": "systemError"}, "turns": []}"#,
        r#"{"id": "thread-private", "status": {"type": "active"}, "turns": []}"#,
        r#"{"id": "thread-private", "status": {"type": "active", "activeFlags": ["future"]}, "turns": [{"id": "turn-1", "status": "inProgress"}]}"#,
        r#"{"id": "thread-private", "status": {"type": "active", "activeFlags": []}, "turns": []}"#,
        r#"{"id": "thread-private", "status": {"type": "active", "activeFlags": []}, "turns": [{"status": "completed"}, {"id": "turn-1", "status": "inProgress"}]}"#,
        r#"{"id": "thread-private", "status": {"type": "active", "activeFlags": []}, "turns": [{"id": "turn-1", "status": "future"}]}"#,
        r#"{"id": "thread-private", "status": {"type": "active", "activeFlags": []}, "turns": [{"id": "turn-1", "status": "inProgress"}, {"id": "turn-2", "status": "inProgress"}]}"#,
    ] {
        assert!(matches!(thread_state(thread), Ok(ThreadState::Unproven)));
    }
}

#[test]
fn active_response_requires_explicit_active_flags_array() {
    let answer = |status: &str| {
        let mut state = ready();
        let mut output = Vec::new();
        read_thread(&mut state, &mut output, &native("thread-private")).expect("thread read");
        let frame = format!(
            "{{\"id\":2,\"result\":{{\"thread\":{{\"id\":\"thread-private\",\"status\":{status},\"turns\":[{{\"id\":\"turn-private\",\"status\":\"inProgress\"}}]}}}}}}\n"
        );
        next(&mut state, &mut Cursor::new(frame), &mut output)
    };

    assert!(matches!(
        answer(r#"{"type":"active"}"#),
        Ok(Received::ThreadRead(ThreadState::Unproven))
    ));
    assert!(matches!(
        answer(r#"{"type":"active","activeFlags":[]}"#),
        Ok(Received::ThreadRead(ThreadState::ActiveTurn(_)))
    ));
    assert!(matches!(
        answer(r#"{"type":"active","activeFlags":null}"#),
        Ok(Received::ThreadRead(ThreadState::Unproven))
    ));
    assert_eq!(
        answer(r#"{"type":"active","activeFlags":{}}"#).err(),
        Some(TransportError::Malformed)
    );
}

#[test]
fn all_write_boundaries_preserve_no_replay_disposition() {
    let oversized = format!("{{\"value\":\"{}\"}}", "x".repeat(MAX_FRAME));
    assert_eq!(
        write_text(&mut Vec::new(), &oversized),
        Err(WriteFailure {
            error: TransportError::Bounds,
            receipt: WriteReceipt::ProvenNotWritten,
        })
    );

    let immediate =
        write_all_until(&mut FailsImmediately, b"frame", IO_DEADLINE).expect_err("initial error");
    assert_eq!(immediate.receipt, WriteReceipt::ProvenNotWritten);
    assert!(matches!(
        failed_write_disposition(immediate),
        NativeWriteDisposition::ProvenNotAccepted
    ));

    let initial_zero =
        write_all_until(&mut WritesZero, b"frame", IO_DEADLINE).expect_err("initial zero");
    assert_eq!(initial_zero.receipt, WriteReceipt::ProvenNotWritten);
    assert!(matches!(
        failed_write_disposition(initial_zero),
        NativeWriteDisposition::ProvenNotAccepted
    ));

    let partial = write_all_until(&mut PartialThenFails(false), b"frame", IO_DEADLINE)
        .expect_err("partial write");
    assert_eq!(partial.receipt, WriteReceipt::PossiblyWritten);
    assert!(matches!(
        failed_write_disposition(partial),
        NativeWriteDisposition::Unknown
    ));

    let mut state = TransportState::new();
    assert_eq!(
        initialize(&mut state, &mut FailsImmediately),
        Err(TransportError::Closed)
    );
    assert!(!state.is_ambiguous());

    let mut state = TransportState::new();
    assert_eq!(
        initialize(&mut state, &mut PartialThenFails(false)),
        Err(TransportError::Ambiguous)
    );
    assert!(state.is_ambiguous());

    let mut line = Vec::new();
    assert_eq!(
        read_line_until(&mut Cursor::new(Vec::<u8>::new()), &mut line, IO_DEADLINE),
        Err(TransportError::Closed)
    );
}

#[test]
fn prepared_turn_is_used_up_by_its_dispatch() {
    let mut state = ready();
    let prepared = state
        .prepare_turn(&native("thread-private"), "fixed input")
        .expect("prepare turn");
    assert_eq!(
        json(std::str::from_utf8(state.prepared_frame()).expect("text")),
        json(
            r#"{"id":2,"method":"turn/start","params":{"threadId":"thread-private","input":[{"type":"text","text":"fixed input"}]}}"#
        )
    );
    let mut output = Vec::new();
    let write = write_all_until(&mut output, state.prepared_frame(), IO_DEADLINE);
    assert_eq!(write, Ok(WriteReceipt::Written));
    state.finish_turn(prepared, write);
    assert_eq!(state.expected(), Some(RequestKind::TurnStart));
    assert!(!state.is_ambiguous());
}

#[test]
fn prepared_turn_frame_is_consumed_and_wiped_immediately_after_dispatch() {
    let mut state = ready();
    let prepared = state
        .prepare_turn(&native("thread-private"), "fixed input")
        .expect("prepare turn");
    assert!(!state.prepared_frame().is_empty());
    let mut output = Vec::new();

    let write = write_all_until(&mut output, state.prepared_frame(), IO_DEADLINE);
    assert_eq!(write, Ok(WriteReceipt::Written));
    state.finish_turn(prepared, write);
    assert!(state.prepared_frame().is_empty());
    assert_eq!(state.expected(), Some(RequestKind::TurnStart));
}

#[test]
fn raw_transport_buffers_zeroize_in_place() {
    let mut line = SecretBytes::new(b"private-native-line".to_vec());
    line.erase();
    assert_eq!(line.as_bytes(), [0u8; 19]);

    let mut frame = SecretBytes::new(b"private-native-frame".to_vec());
    frame.erase();
    assert_eq!(frame.as_bytes(), [0u8; 20]);
}

#[test]
fn discarded_turn_leaves_no_frame() {
    let mut state = ready();
    let _prepared = state
        .prepare_turn(&native("thread-private"), "fixed input")
        .expect("prepare turn");
    state.discard_prepared_turn();
    assert!(state.prepared_frame().is_empty());
    assert_eq!(state.expected(), None);
}

#[test]
fn turn_over_the_frame_bound_is_refused() {
    let mut state = ready();
    assert_eq!(
        state
            .prepare_turn(&native("thread-private"), &"x".repeat(MAX_FRAME))
            .err(),
        Some(TransportError::Bounds)
    );
    assert!(state.prepared_frame().is_empty());
    assert_eq!(start_thread(&mut state, &mut Vec::new()), Ok(3));
}

#[test]
fn unsent_turn_leaves_the_conversation_open() {
    let mut state = ready();
    let prepared = state
        .prepare_turn(&native("thread-private"), "fixed input")
        .expect("prepare turn");
    let write = write_all_until(&mut FailsImmediately, state.prepared_frame(), IO_DEADLINE);
    state.finish_turn(prepared, write);
    assert_eq!(state.expected(), None);
    assert!(!state.is_ambiguous());
    assert_eq!(start_thread(&mut state, &mut Vec::new()), Ok(3));
}

#[test]
fn doubtful_turn_blocks_every_later_send() {
    let mut state = ready();
    let prepared = state
        .prepare_turn(&native("thread-private"), "fixed input")
        .expect("prepare turn");
    let write = write_all_until(&mut PartialThenFails(false), state.prepared_frame(), IO_DEADLINE);
    state.finish_turn(prepared, write);
    assert!(state.is_ambiguous());
    assert_eq!(
        start_thread(&mut state, &mut Vec::new()),
        Err(TransportError::Ambiguous)
    );
    assert_eq!(
        state
            .prepare_turn(&native("thread-private"), "fixed input")
            .err(),
        Some(TransportError::Ambiguous)
    );
    assert_eq!(
        next(
            &mut state,
            &mut Cursor::new(b"{\"id\":7,\"method\":\"call\"}\n"),
            &mut Vec::new()
        )
        .err(),
        Some(TransportError::Ambiguous)
    );
}

#[test]
fn request_texts_escape_what_they_carry() {
    let thread = native("thr\"ead");
    assert_eq!(
        json(&resume_params(&thread, "/opt/he\\lper")),
        json(
            r#"{"threadId":"thr\"ead","config":{"mcp_servers":{"gearwit_claimed_batch":{"command":"/opt/he\\lper","args":[]}}}}"#
        )
    );
    assert_eq!(
        json(&read_params(&thread)),
        json(r#"{"threadId":"thr\"ead","includeTurns":true}"#)
    );
    assert_eq!(
        json(&client_request(9, RequestKind::ThreadStart, "{}")),
        json(r#"{"id":9,"method":"thread/start","params":{}}"#)
    );
}

#[test]
fn carried_texts_have_exactly_these_escapes() {
    let carried = "a\"\\/\u{8}\t\n\u{c}\r\u{0}\u{1f}\u{7f}\u{e9}";
    assert_eq!(
        turn_params(&native("t"), carried),
        "{\"threadId\":\"t\",\"input\":[{\"type\":\"text\",\"text\":\"a\\\"\\\\/\\b\\t\\n\\f\\r\\u0000\\u001f\u{7f}\u{e9}\"}]}"
    );
}

#[test]
fn notifications_beyond_the_queue_are_refused() {
    let mut state = ready();
    let mut output = Vec::new();
    start_thread(&mut state, &mut output).expect("thread request");
    let mut frames = Vec::new();
    for _ in 0..=MAX_QUEUE {
        frames.extend_from_slice(b"{\"method\":\"notice\"}\n");
    }
    assert_eq!(
        next(&mut state, &mut Cursor::new(frames), &mut output).err(),
        Some(TransportError::Degraded)
    );
    assert!(state.take_queued().is_none());
    assert!(matches!(
        next(
            &mut state,
            &mut Cursor::new(b"{\"id\":2,\"result\":{\"thread\":{\"id\":\"thread-private\"}}}\n"),
            &mut output
        ),
        Ok(Received::ThreadStarted(_))
    ));
    let mut kept = 0;
    while state.take_queued().is_some() {
        kept += 1;
    }
    assert_eq!(kept, MAX_QUEUE);
}

#[test]
fn bounds_are_counted_exactly() {
    assert_eq!(drain_bounded(1_000, 24, MAX_VERSION), Ok(1_024));
    assert_eq!(
        drain_bounded(1_000, 25, MAX_VERSION),
        Err(TransportError::Bounds)
    );
    assert_eq!(count_diagnostics(0, 10), (10, false));
    assert_eq!(count_diagnostics(MAX_STDERR - 1, 1), (MAX_STDERR, false));
    assert_eq!(count_diagnostics(MAX_STDERR - 1, 2), (MAX_STDERR, true));
    let largest = "x".repeat(MAX_FRAME - 1);
    assert_eq!(
        encode_frame(&largest).expect("largest frame").len(),
        MAX_FRAME
    );
    assert!(encode_frame(&"x".repeat(MAX_FRAME)).is_err());
}

#[test]
fn frames_of_no_known_shape_are_malformed() {
    for line in [
        &b"[]"[..],
        b"{}",
        b"{\"id\":0,\"result\":{}}",
        b"{\"id\":1,\"result\":[]}",
        b"{\"id\":-1,\"result\":{}}",
        b"{\"method\":\"turn/started\",\"params\":{}}",
    ] {
        assert_eq!(classify_line(line).err(), Some(TransportError::Malformed));
    }
    assert_eq!(
        NativeRef::parse_borrowed("").err(),
        Some(TransportError::Bounds)
    );
    assert_eq!(native("thread-private").redacted(), "NativeRef([redacted])");
    assert_eq!(native("thread-private").as_str(), "thread-private");
    assert_eq!(
        TransportError::Bounds.message(),
        "transport bound exceeded"
    );
}
