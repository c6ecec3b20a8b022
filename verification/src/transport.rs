//! The line protocol of a Codex app server: what each frame means and what the
//! client may do next.

use crate::bytes;
use crate::bytes::{copy_bytes, push_bytes, push_field, same_bytes};
use crate::controller::{ActiveObservationPrehash, PRODUCER_DIALECT, PRODUCER_VERSION};
use crate::primitives;
use crate::primitives::{digest, json_u64, json_value_text, utf8_text};
use crate::secret::SecretBytes;
use crate::text;
use crate::text::same_text;
use vstd::prelude::*;
use vstd::string::*;
use vstd::utf8::*;

verus! {

/// Longest version report, in bytes.
pub const MAX_VERSION: usize = 1024;

/// Longest inbound line, in bytes.
pub const MAX_LINE: usize = 1_048_576;

/// Longest outbound frame, in bytes.
pub const MAX_FRAME: usize = 1_048_576;

/// Most bytes read from the server's output in all.
pub const MAX_STDOUT: usize = 1_048_576;

/// Most bytes of diagnostics that are counted.
pub const MAX_STDERR: usize = 16_384;

/// Longest native reference, in bytes.
pub const MAX_NATIVE_REF: usize = 1024;

/// Most notifications kept while a response is outstanding, and most turns in
/// one thread report.
pub const MAX_QUEUE: usize = 64;

#[derive(Clone, Copy, Debug, PartialEq, Eq, Structural)]
pub enum TransportError {
    Bounds,
    Malformed,
    Version,
    Identity,
    Group,
    Correlation,
    Ambiguous,
    Deadline,
    Closed,
    Preflight,
    Cleanup,
    Unsupported,
    Native,
    Degraded,
    InconsistentTerminal,
}

impl TransportError {
    /// What the error says.
    pub open spec fn text(self) -> Seq<char> {
        match self {
            TransportError::Bounds => "transport bound exceeded"@,
            TransportError::Malformed => "malformed transport frame"@,
            TransportError::Version => "unsupported Codex version"@,
            TransportError::Identity => "executable identity could not be proven"@,
            TransportError::Group => "process group could not be proven"@,
            TransportError::Correlation => "response correlation failed"@,
            TransportError::Ambiguous => "outbound frame acceptance is ambiguous"@,
            TransportError::Deadline => "transport deadline expired"@,
            TransportError::Closed => "transport stream is closed"@,
            TransportError::Preflight => "Codex version preflight failed"@,
            TransportError::Cleanup => "process cleanup could not be proven"@,
            TransportError::Unsupported => "Codex transport is unsupported on this platform"@,
            TransportError::Native => "Codex returned a native error"@,
            TransportError::Degraded => "transport notification delivery is degraded"@,
            TransportError::InconsistentTerminal => {
                "Codex returned an inconsistent terminal status"@
            },
        }
    }

    pub fn message(&self) -> (message: &'static str)
        ensures
            message@ == self.text(),
    {
        match self {
            TransportError::Bounds => "transport bound exceeded",
            TransportError::Malformed => "malformed transport frame",
            TransportError::Version => "unsupported Codex version",
            TransportError::Identity => "executable identity could not be proven",
            TransportError::Group => "process group could not be proven",
            TransportError::Correlation => "response correlation failed",
            TransportError::Ambiguous => "outbound frame acceptance is ambiguous",
            TransportError::Deadline => "transport deadline expired",
            TransportError::Closed => "transport stream is closed",
            TransportError::Preflight => "Codex version preflight failed",
            TransportError::Cleanup => "process cleanup could not be proven",
            TransportError::Unsupported => "Codex transport is unsupported on this platform",
            TransportError::Native => "Codex returned a native error",
            TransportError::Degraded => "transport notification delivery is degraded",
            TransportError::InconsistentTerminal => {
                "Codex returned an inconsistent terminal status"
            },
        }
    }
}

/// Text that can be a native reference: one to 1024 bytes.
pub open spec fn native_text(value: Seq<char>) -> bool {
    0 < value.len() && encode_utf8(value).len() <= MAX_NATIVE_REF
}

/// A thread or turn as the server names it. Erased on drop.
pub struct NativeRef {
    plaintext: SecretBytes,
}

impl View for NativeRef {
    type V = Seq<u8>;

    closed spec fn view(&self) -> Seq<u8> {
        self.plaintext@
    }
}

impl Clone for NativeRef {
    fn clone(&self) -> (copy: NativeRef)
        ensures
            copy@ == self@,
    {
        proof {
            use_type_invariant(self);
        }
        NativeRef { plaintext: self.plaintext.clone() }
    }
}

impl NativeRef {
    /// The bytes are UTF-8 of a valid length.
    #[verifier::type_invariant]
    spec fn holds(self) -> bool {
        self.plaintext@ =~= encode_utf8(decode_utf8(self.plaintext@)) && native_text(
            decode_utf8(self.plaintext@),
        ) && valid_utf8(self.plaintext@)
    }

    /// Accepts exactly the native texts.
    pub fn parse_borrowed(value: &str) -> (result: Result<NativeRef, TransportError>)
        ensures
            match result {
                Ok(reference) => native_text(value@) && reference@ == encode_utf8(value@),
                Err(error) => !native_text(value@) && error == TransportError::Bounds,
            },
    {
        if value.is_empty() || value.as_bytes().len() > MAX_NATIVE_REF {
            return Err(TransportError::Bounds);
        }
        let plaintext = SecretBytes::new(copy_bytes(value.as_bytes()));
        proof {
            encode_utf8_decode_utf8(value@);
            encode_utf8_valid_utf8(value@);
        }
        Ok(NativeRef { plaintext })
    }

    /// The reference as text.
    pub fn as_str(&self) -> (value: &str)
        ensures
            encode_utf8(value@) == self@,
            native_text(value@),
    {
        proof {
            use_type_invariant(self);
        }
        match utf8_text(self.plaintext.as_bytes()) {
            Some(value) => {
                proof {
                    encode_utf8_decode_utf8(value@);
                }
                value
            },
            None => "",
        }
    }

    pub fn same(&self, other: &NativeRef) -> (same: bool)
        ensures
            same == (self@ == other@),
    {
        same_bytes(self.plaintext.as_bytes(), other.plaintext.as_bytes())
    }

    /// How the value is shown: its bytes stay out.
    pub fn redacted(&self) -> (text: String)
        ensures
            text@ == "NativeRef([redacted])"@,
    {
        "NativeRef([redacted])".to_owned()
    }
}

/// How a turn ended, as the server reports it.
#[derive(Clone, Copy, Debug, PartialEq, Eq, Structural)]
pub enum TurnEnd {
    Succeeded,
    Interrupted,
    Failed,
}

pub enum Notification {
    Signal,
    TurnStarted { thread: NativeRef, turn: NativeRef },
    Terminal { thread: NativeRef, turn: NativeRef, class: TurnEnd },
    DegradedTerminal { thread: NativeRef, turn: NativeRef },
}

/// What a [`Notification`] says.
pub enum NotificationModel {
    Signal,
    TurnStarted { thread: Seq<u8>, turn: Seq<u8> },
    Terminal { thread: Seq<u8>, turn: Seq<u8>, class: TurnEnd },
    DegradedTerminal { thread: Seq<u8>, turn: Seq<u8> },
}

impl View for Notification {
    type V = NotificationModel;

    open spec fn view(&self) -> NotificationModel {
        match self {
            Notification::Signal => NotificationModel::Signal,
            Notification::TurnStarted { thread, turn } => NotificationModel::TurnStarted {
                thread: thread@,
                turn: turn@,
            },
            Notification::Terminal { thread, turn, class } => NotificationModel::Terminal {
                thread: thread@,
                turn: turn@,
                class: *class,
            },
            Notification::DegradedTerminal { thread, turn } => NotificationModel::DegradedTerminal {
                thread: thread@,
                turn: turn@,
            },
        }
    }
}

/// What the server says of a thread.
pub enum ThreadState {
    Idle,
    ActiveTurn(ActiveObservationPrehash),
    Unproven,
}

/// What a [`ThreadState`] says.
pub enum ThreadStateModel {
    Idle,
    ActiveTurn(Seq<u8>),
    Unproven,
}

impl View for ThreadState {
    type V = ThreadStateModel;

    open spec fn view(&self) -> ThreadStateModel {
        match self {
            ThreadState::Idle => ThreadStateModel::Idle,
            ThreadState::ActiveTurn(prehash) => ThreadStateModel::ActiveTurn(prehash.digest@),
            ThreadState::Unproven => ThreadStateModel::Unproven,
        }
    }
}

/// One thing received from the server.
pub enum Received {
    Initialized,
    ThreadStarted(NativeRef),
    ThreadResumed(ThreadState),
    ThreadRead(ThreadState),
    TurnStarted(NativeRef),
    Notification(Notification),
    ServerRequestRejected,
}

/// What a [`Received`] says.
pub enum ReceivedModel {
    Initialized,
    ThreadStarted(Seq<u8>),
    ThreadResumed(ThreadStateModel),
    ThreadRead(ThreadStateModel),
    TurnStarted(Seq<u8>),
    Notification(NotificationModel),
    ServerRequestRejected,
}

impl View for Received {
    type V = ReceivedModel;

    open spec fn view(&self) -> ReceivedModel {
        match self {
            Received::Initialized => ReceivedModel::Initialized,
            Received::ThreadStarted(thread) => ReceivedModel::ThreadStarted(thread@),
            Received::ThreadResumed(state) => ReceivedModel::ThreadResumed(state@),
            Received::ThreadRead(state) => ReceivedModel::ThreadRead(state@),
            Received::TurnStarted(turn) => ReceivedModel::TurnStarted(turn@),
            Received::Notification(notification) => ReceivedModel::Notification(notification@),
            Received::ServerRequestRejected => ReceivedModel::ServerRequestRejected,
        }
    }
}

/// A classified inbound frame.
pub enum Inbound {
    Response { id: u64 },
    NativeError(u64),
    Notification(Notification),
    /// A request of the server, with the JSON text of its identifier.
    ServerRequest(String),
}

/// The members of an inbound frame that decide what it is, each as JSON text.
/// The method is a plain string.
pub struct Envelope {
    pub id: Option<String>,
    pub method: Option<String>,
    pub result: Option<String>,
    pub error: Option<String>,
}

/// The members of a turn notification.
pub struct NotificationView {
    pub method: String,
    pub thread_id: String,
    pub turn_id: Option<String>,
    pub turn_status: Option<String>,
}

/// One turn in a thread report.
pub struct TurnView {
    pub id: Option<String>,
    pub status: Option<String>,
}

/// The status of a thread report.
pub struct StatusView {
    pub kind: String,
    pub active_flags: Option<Vec<String>>,
}

/// A thread report.
pub struct ThreadView {
    pub id: String,
    pub status: Option<StatusView>,
    pub turns: Option<Vec<TurnView>>,
}

/// White space between JSON tokens.
pub open spec fn json_space(c: char) -> bool {
    c == ' ' || c == '\t' || c == '\n' || c == '\r'
}

/// The text opens an object, behind white space at most.
pub open spec fn opens_object(value: Seq<char>) -> bool {
    exists|i: int|
        0 <= i < value.len() && #[trigger] value[i] == '{' && forall|j: int|
            0 <= j < i ==> json_space(#[trigger] value[j])
}

/// Whether a JSON text is an object.
pub fn raw_object(value: &str) -> (object: bool)
    ensures
        object == opens_object(value@),
{
    let len: usize = value.unicode_len();
    let mut i: usize = 0;
    while i < len
        invariant
            i <= len,
            len == value@.len(),
            forall|j: int| 0 <= j < i ==> json_space(#[trigger] value@[j]),
        decreases len - i,
    {
        let c = value.get_char(i);
        if c == '{' {
            assert(value@[i as int] == '{');
            return true;
        }
        if c != ' ' && c != '\t' && c != '\n' && c != '\r' {
            assert forall|k: int| 0 <= k < value@.len() && #[trigger] value@[k] == '{' implies exists|
                j: int,
            | 0 <= j < k && !json_space(#[trigger] value@[j]) by {
                assert(!json_space(value@[i as int]));
            }
            return false;
        }
        i += 1;
    }
    false
}

/// An optional JSON text that is an object.
pub open spec fn optional_object(value: Option<String>) -> bool {
    value matches Some(value) && opens_object(value@)
}

/// What a frame is. Unreadable members make it malformed.
pub open spec fn classified(
    envelope: Option<Envelope>,
    notification: Option<NotificationView>,
    result: Result<Inbound, TransportError>,
) -> bool {
    match envelope {
        None => result == Err::<Inbound, TransportError>(TransportError::Malformed),
        Some(envelope) => match (envelope.method, envelope.id) {
            (Some(_), Some(id)) => match primitives::json_value(id@) {
                Some(value) => result matches Ok(Inbound::ServerRequest(text)) && text@ == value,
                None => result == Err::<Inbound, TransportError>(TransportError::Malformed),
            },
            (Some(method), None) => match result {
                Ok(Inbound::Notification(found)) => notification_verdict(method@, notification)
                    == Ok::<NotificationModel, TransportError>(found@),
                Ok(_) => false,
                Err(error) => notification_verdict(method@, notification) == Err::<
                    NotificationModel,
                    TransportError,
                >(error),
            },
            (None, id) => {
                let number = match id {
                    Some(id) => primitives::json_number(id@),
                    None => None,
                };
                if !(number matches Some(n) && n > 0) {
                    result == Err::<Inbound, TransportError>(TransportError::Malformed)
                } else if optional_object(envelope.result) {
                    result == Ok::<Inbound, TransportError>(Inbound::Response { id: number->0 })
                } else if optional_object(envelope.error) {
                    result == Ok::<Inbound, TransportError>(Inbound::NativeError(number->0))
                } else {
                    result == Err::<Inbound, TransportError>(TransportError::Malformed)
                }
            },
        },
    }
}

/// Classifies a frame. `envelope` is absent where the line is no JSON object
/// with such members; `notification` is absent where it is no turn notification.
pub fn classify(envelope: &Option<Envelope>, notification: &Option<NotificationView>) -> (result:
    Result<Inbound, TransportError>)
    ensures
        classified(*envelope, *notification, result),
{
    let envelope = match envelope {
        Some(envelope) => envelope,
        None => return Err(TransportError::Malformed),
    };
    if let Some(method) = &envelope.method {
        return match &envelope.id {
            Some(id) => match json_value_text(id.as_str()) {
                Some(text) => Ok(Inbound::ServerRequest(text)),
                None => Err(TransportError::Malformed),
            },
            None => match classify_notification(method.as_str(), notification) {
                Ok(found) => Ok(Inbound::Notification(found)),
                Err(error) => Err(error),
            },
        };
    }
    let id = match &envelope.id {
        Some(id) => match json_u64(id.as_str()) {
            Some(id) => id,
            None => return Err(TransportError::Malformed),
        },
        None => return Err(TransportError::Malformed),
    };
    if id == 0 {
        return Err(TransportError::Malformed);
    }
    if let Some(result) = &envelope.result {
        if raw_object(result.as_str()) {
            return Ok(Inbound::Response { id });
        }
    }
    if let Some(error) = &envelope.error {
        if raw_object(error.as_str()) {
            return Ok(Inbound::NativeError(id));
        }
    }
    Err(TransportError::Malformed)
}

/// How a turn ended, by its status.
pub open spec fn turn_end(status: Option<Seq<char>>) -> Option<TurnEnd> {
    match status {
        Some(status) => if status == "completed"@ {
            Some(TurnEnd::Succeeded)
        } else if status == "interrupted"@ {
            Some(TurnEnd::Interrupted)
        } else if status == "failed"@ {
            Some(TurnEnd::Failed)
        } else {
            None
        },
        None => None,
    }
}

/// What a notification says. Only turn notifications carry anything.
pub open spec fn notification_verdict(
    method: Seq<char>,
    notification: Option<NotificationView>,
) -> Result<NotificationModel, TransportError> {
    if method != "turn/started"@ && method != "turn/completed"@ {
        Ok(NotificationModel::Signal)
    } else {
        match notification {
            None => Err(TransportError::Malformed),
            Some(view) => if !native_text(view.thread_id@) {
                Err(TransportError::Bounds)
            } else {
                match view.turn_id {
                    None => Err(TransportError::Malformed),
                    Some(turn_id) => if !native_text(turn_id@) {
                        Err(TransportError::Bounds)
                    } else {
                        let thread = encode_utf8(view.thread_id@);
                        let turn = encode_utf8(turn_id@);
                        if view.method@ == "turn/started"@ {
                            Ok(NotificationModel::TurnStarted { thread, turn })
                        } else {
                            match turn_end(text::optional_text(view.turn_status)) {
                                Some(class) => Ok(
                                    NotificationModel::Terminal { thread, turn, class },
                                ),
                                None => Ok(NotificationModel::DegradedTerminal { thread, turn }),
                            }
                        }
                    },
                }
            },
        }
    }
}

/// Whether an optional text is the given one.
fn is_text(value: &Option<String>, expected: &str) -> (same: bool)
    ensures
        same == (text::optional_text(*value) == Some(expected@)),
{
    match value {
        Some(value) => same_text(value.as_str(), expected),
        None => false,
    }
}

/// Reads a notification.
pub fn classify_notification(method: &str, notification: &Option<NotificationView>) -> (result:
    Result<Notification, TransportError>)
    ensures
        match result {
            Ok(found) => notification_verdict(method@, *notification) == Ok::<
                NotificationModel,
                TransportError,
            >(found@),
            Err(error) => notification_verdict(method@, *notification) == Err::<
                NotificationModel,
                TransportError,
            >(error),
        },
{
    if !same_text(method, "turn/started") && !same_text(method, "turn/completed") {
        return Ok(Notification::Signal);
    }
    let view = match notification {
        Some(view) => view,
        None => return Err(TransportError::Malformed),
    };
    let thread = match NativeRef::parse_borrowed(view.thread_id.as_str()) {
        Ok(thread) => thread,
        Err(error) => return Err(error),
    };
    let turn = match &view.turn_id {
        Some(turn_id) => match NativeRef::parse_borrowed(turn_id.as_str()) {
            Ok(turn) => turn,
            Err(error) => return Err(error),
        },
        None => return Err(TransportError::Malformed),
    };
    if same_text(view.method.as_str(), "turn/started") {
        return Ok(Notification::TurnStarted { thread, turn });
    }
    let class = if is_text(&view.turn_status, "completed") {
        TurnEnd::Succeeded
    } else if is_text(&view.turn_status, "interrupted") {
        TurnEnd::Interrupted
    } else if is_text(&view.turn_status, "failed") {
        TurnEnd::Failed
    } else {
        return Ok(Notification::DegradedTerminal { thread, turn });
    };
    Ok(Notification::Terminal { thread, turn, class })
}

/// Domain of the digest of an exact active observation.
pub const ACTIVE_DOMAIN: &'static str = "gearwit.codex-exact-active.v1\0";

/// What stands between the turns and the active turn in that digest.
pub const ONE_ACTIVE_TURN: &'static str = "exactly-one-active-turn";

/// The turn has a valid identifier.
pub open spec fn turn_named(turn: TurnView) -> bool {
    turn.id matches Some(id) && native_text(id@)
}

/// The turn is over.
pub open spec fn turn_over(turn: TurnView) -> bool {
    turn_end(text::optional_text(turn.status)) is Some
}

/// The turn is running.
pub open spec fn turn_running(turn: TurnView) -> bool {
    text::optional_text(turn.status) == Some("inProgress"@)
}

/// A report of a thread at rest: not too many turns, all named and over.
pub open spec fn at_rest(turns: Seq<TurnView>) -> bool {
    &&& turns.len() <= MAX_QUEUE
    &&& forall|i: int|
        0 <= i < turns.len() ==> turn_named(#[trigger] turns[i]) && turn_over(turns[i])
}

/// Among named turns exactly the one at `i` is running, and the others are over.
pub open spec fn only_running(turns: Seq<TurnView>, i: int) -> bool {
    &&& turns.len() <= MAX_QUEUE
    &&& 0 <= i < turns.len()
    &&& turn_running(turns[i])
    &&& forall|j: int| 0 <= j < turns.len() ==> turn_named(#[trigger] turns[j])
    &&& forall|j: int| 0 <= j < turns.len() && j != i ==> turn_over(#[trigger] turns[j])
}

/// Every flag says what the running turn waits for.
pub open spec fn flags_known(flags: Seq<String>) -> bool {
    forall|i: int|
        0 <= i < flags.len() ==> (#[trigger] flags[i])@ == "waitingOnApproval"@ || flags[i]@
            == "waitingOnUserInput"@
}

/// The identifier and status of each turn.
pub open spec fn turn_fields(turns: Seq<TurnView>) -> Seq<Seq<u8>>
    decreases turns.len(),
{
    if turns.len() == 0 {
        Seq::empty()
    } else {
        let turn = turns.last();
        turn_fields(turns.drop_last()).push(encode_utf8(turn.id->0@)).push(
            encode_utf8(turn.status->0@),
        )
    }
}

/// Each flag.
pub open spec fn flag_fields(flags: Seq<String>) -> Seq<Seq<u8>> {
    Seq::new(flags.len(), |i: int| encode_utf8(flags[i]@))
}

/// The fields that the digest of an active observation binds.
pub open spec fn active_fields(
    requested: Seq<u8>,
    returned: Seq<u8>,
    kind: Seq<char>,
    flags: Seq<String>,
    turns: Seq<TurnView>,
    running: Seq<char>,
) -> Seq<Seq<u8>> {
    seq![requested, returned, encode_utf8(kind)] + flag_fields(flags) + turn_fields(turns) + seq![
        encode_utf8(ONE_ACTIVE_TURN@),
        encode_utf8(running),
        encode_utf8(PRODUCER_VERSION@),
        encode_utf8(PRODUCER_DIALECT@),
    ]
}

/// The digest of an active observation.
pub open spec fn active_digest(fields: Seq<Seq<u8>>) -> Seq<u8> {
    primitives::blake3_digest(encode_utf8(ACTIVE_DOMAIN@) + bytes::frame(fields))
}

/// What a thread report proves of the requested thread.
pub open spec fn thread_verdict(view: Option<ThreadView>, requested: Seq<u8>) -> Result<
    ThreadStateModel,
    TransportError,
> {
    match view {
        None => Err(TransportError::Malformed),
        Some(view) => if !native_text(view.id@) {
            Err(TransportError::Bounds)
        } else if encode_utf8(view.id@) != requested {
            Err(TransportError::Correlation)
        } else {
            match view.status {
                None => Ok(ThreadStateModel::Unproven),
                Some(status) => if status.kind@ == "idle"@ {
                    if view.turns is Some && at_rest(view.turns->0@) {
                        Ok(ThreadStateModel::Idle)
                    } else {
                        Ok(ThreadStateModel::Unproven)
                    }
                } else if status.kind@ == "active"@ {
                    if status.active_flags is Some && flags_known(status.active_flags->0@)
                        && view.turns is Some && exists|i: int| only_running(view.turns->0@, i) {
                        let turns = view.turns->0@;
                        let i = choose|i: int| only_running(turns, i);
                        Ok(
                            ThreadStateModel::ActiveTurn(
                                active_digest(
                                    active_fields(
                                        requested,
                                        encode_utf8(view.id@),
                                        status.kind@,
                                        status.active_flags->0@,
                                        turns,
                                        turns[i].id->0@,
                                    ),
                                ),
                            ),
                        )
                    } else {
                        Ok(ThreadStateModel::Unproven)
                    }
                } else {
                    Ok(ThreadStateModel::Unproven)
                },
            }
        },
    }
}

/// Whether a turn has a valid identifier.
fn is_named(turn: &TurnView) -> (named: bool)
    ensures
        named == turn_named(*turn),
{
    match &turn.id {
        Some(id) => !id.as_str().is_empty() && id.as_str().as_bytes().len() <= MAX_NATIVE_REF,
        None => false,
    }
}

/// Whether a turn is over.
fn is_over(turn: &TurnView) -> (over: bool)
    ensures
        over == turn_over(*turn),
{
    is_text(&turn.status, "completed") || is_text(&turn.status, "interrupted") || is_text(
        &turn.status,
        "failed",
    )
}

/// The state of a thread that calls itself idle.
pub fn parse_idle_thread(reported: &Option<Vec<TurnView>>) -> (state: ThreadState)
    ensures
        state@ == if reported is Some && at_rest(reported->0@) {
            ThreadStateModel::Idle
        } else {
            ThreadStateModel::Unproven
        },
{
    let turns = match reported {
        Some(turns) => turns,
        None => return ThreadState::Unproven,
    };
    if turns.len() > MAX_QUEUE {
        return ThreadState::Unproven;
    }
    let mut i: usize = 0;
    while i < turns.len()
        invariant
            *reported == Some(*turns),
            i <= turns@.len() <= MAX_QUEUE,
            forall|j: int| 0 <= j < i ==> turn_named(#[trigger] turns@[j]) && turn_over(turns@[j]),
        decreases turns.len() - i,
    {
        if !is_named(&turns[i]) || !is_over(&turns[i]) {
            assert(!(turn_named(turns@[i as int]) && turn_over(turns@[i as int])));
            return ThreadState::Unproven;
        }
        i += 1;
    }
    ThreadState::Idle
}

/// The position of the only running turn of a thread that calls itself active.
pub fn parse_active_thread(reported: &Option<Vec<TurnView>>, flags: &Vec<String>) -> (running:
    Option<usize>)
    ensures
        match running {
            Some(i) => flags_known(flags@) && reported is Some && only_running(reported->0@, i as int),
            None => !(flags_known(flags@) && reported is Some && exists|i: int|
                only_running(reported->0@, i)),
        },
{
    let mut f: usize = 0;
    while f < flags.len()
        invariant
            f <= flags@.len(),
            forall|j: int|
                0 <= j < f ==> (#[trigger] flags@[j])@ == "waitingOnApproval"@ || flags@[j]@
                    == "waitingOnUserInput"@,
        decreases flags.len() - f,
    {
        if !same_text(flags[f].as_str(), "waitingOnApproval") && !same_text(
            flags[f].as_str(),
            "waitingOnUserInput",
        ) {
            return None;
        }
        f += 1;
    }
    let turns = match reported {
        Some(turns) => turns,
        None => return None,
    };
    if turns.len() > MAX_QUEUE {
        return None;
    }
    proof {
        running_is_not_over();
    }
    let mut active: Option<usize> = None;
    let mut i: usize = 0;
    while i < turns.len()
        invariant
            *reported == Some(*turns),
            i <= turns@.len() <= MAX_QUEUE,
            forall|turn: TurnView| #[trigger] turn_running(turn) ==> !turn_over(turn),
            flags_known(flags@),
            forall|j: int| 0 <= j < i ==> turn_named(#[trigger] turns@[j]),
            match active {
                Some(a) => a < i && turn_running(turns@[a as int]) && forall|j: int|
                    0 <= j < i && j != a ==> turn_over(#[trigger] turns@[j]),
                None => forall|j: int| 0 <= j < i ==> turn_over(#[trigger] turns@[j]),
            },
        decreases turns.len() - i,
    {
        if !is_named(&turns[i]) {
            assert(!turn_named(turns@[i as int]));
            return None;
        }
        if !is_over(&turns[i]) {
            let first = active.is_none();
            if !is_text(&turns[i].status, "inProgress") || !first {
                proof {
                    assert forall|k: int| !only_running(turns@, k) by {
                        if only_running(turns@, k) {
                            assert(!turn_over(turns@[i as int]));
                            assert(k == i);
                            if let Some(a) = active {
                                assert(turn_over(turns@[a as int]));
                            }
                        }
                    }
                }
                return None;
            }
            active = Some(i);
        }
        i += 1;
    }
    proof {
        if active is None {
            assert forall|k: int| !only_running(turns@, k) by {
                if only_running(turns@, k) {
                    assert(turn_over(turns@[k]));
                }
            }
        } else {
            assert(only_running(turns@, active->0 as int));
        }
    }
    active
}

/// A running turn is not over.
proof fn running_is_not_over()
    ensures
        forall|turn: TurnView| #[trigger] turn_running(turn) ==> !turn_over(turn),
{
    reveal_strlit("inProgress");
    reveal_strlit("completed");
    reveal_strlit("interrupted");
    reveal_strlit("failed");
    assert("inProgress"@.len() != "completed"@.len());
    assert("inProgress"@.len() != "interrupted"@.len());
    assert("inProgress"@.len() != "failed"@.len());
}

/// Of a running turn there is only one position.
proof fn running_position_unique(turns: Seq<TurnView>, a: int, b: int)
    requires
        only_running(turns, a),
        only_running(turns, b),
    ensures
        a == b,
{
    running_is_not_over();
    if a != b {
        assert(turn_over(turns[a]));
    }
}

/// The digest of an exact active observation.
fn observe_active(
    requested: &NativeRef,
    returned: &NativeRef,
    kind: &str,
    flags: &Vec<String>,
    turns: &Vec<TurnView>,
    running: usize,
) -> (prehash: ActiveObservationPrehash)
    requires
        only_running(turns@, running as int),
    ensures
        prehash.digest@ == active_digest(
            active_fields(
                requested@,
                returned@,
                kind@,
                flags@,
                turns@,
                turns@[running as int].id->0@,
            ),
        ),
{
    let ghost prefix = encode_utf8(ACTIVE_DOMAIN@);
    let mut input: Vec<u8> = Vec::new();
    push_bytes(&mut input, ACTIVE_DOMAIN.as_bytes());
    let ghost mut fields = Seq::<Seq<u8>>::empty();
    assert(input@ =~= prefix + bytes::frame(fields));
    push_field(&mut input, requested.as_str().as_bytes(), Ghost(prefix), Ghost(fields));
    proof {
        fields = fields.push(requested@);
    }
    push_field(&mut input, returned.as_str().as_bytes(), Ghost(prefix), Ghost(fields));
    proof {
        fields = fields.push(returned@);
    }
    push_field(&mut input, kind.as_bytes(), Ghost(prefix), Ghost(fields));
    proof {
        fields = fields.push(encode_utf8(kind@));
    }
    let ghost head = fields;
    assert(head =~= seq![requested@, returned@, encode_utf8(kind@)]);
    let mut f: usize = 0;
    assert(fields =~= head + flag_fields(flags@).take(0));
    while f < flags.len()
        invariant
            f <= flags@.len(),
            input@ == prefix + bytes::frame(fields),
            fields == head + flag_fields(flags@).take(f as int),
        decreases flags.len() - f,
    {
        push_field(&mut input, flags[f].as_str().as_bytes(), Ghost(prefix), Ghost(fields));
        proof {
            fields = fields.push(encode_utf8(flags@[f as int]@));
            assert(fields =~= head + flag_fields(flags@).take(f + 1));
        }
        f += 1;
    }
    proof {
        assert(flag_fields(flags@).take(flags@.len() as int) =~= flag_fields(flags@));
    }
    let ghost flagged = head + flag_fields(flags@);
    let mut i: usize = 0;
    assert(turns@.take(0) =~= Seq::<TurnView>::empty());
    assert(fields =~= flagged + turn_fields(turns@.take(0)));
    while i < turns.len()
        invariant
            i <= turns@.len(),
            only_running(turns@, running as int),
            input@ == prefix + bytes::frame(fields),
            fields == flagged + turn_fields(turns@.take(i as int)),
        decreases turns.len() - i,
    {
        let ghost turn = turns@[i as int];
        proof {
            assert(turn_named(turn));
            assert(turn_over(turn) || turn_running(turn));
        }
        let id = match &turns[i].id {
            Some(id) => id.as_str(),
            None => "",
        };
        push_field(&mut input, id.as_bytes(), Ghost(prefix), Ghost(fields));
        proof {
            fields = fields.push(encode_utf8(id@));
        }
        let status = match &turns[i].status {
            Some(status) => status.as_str(),
            None => "",
        };
        push_field(&mut input, status.as_bytes(), Ghost(prefix), Ghost(fields));
        proof {
            fields = fields.push(encode_utf8(status@));
            assert(turns@.take(i + 1).drop_last() =~= turns@.take(i as int));
            assert(turns@.take(i + 1).last() == turn);
            assert(fields =~= flagged + turn_fields(turns@.take(i + 1)));
        }
        i += 1;
    }
    proof {
        assert(turns@.take(turns@.len() as int) =~= turns@);
        assert(turn_named(turns@[running as int]));
    }
    push_field(&mut input, ONE_ACTIVE_TURN.as_bytes(), Ghost(prefix), Ghost(fields));
    proof {
        fields = fields.push(encode_utf8(ONE_ACTIVE_TURN@));
    }
    let running_id = match &turns[running].id {
        Some(id) => id.as_str(),
        None => "",
    };
    push_field(&mut input, running_id.as_bytes(), Ghost(prefix), Ghost(fields));
    proof {
        fields = fields.push(encode_utf8(running_id@));
    }
    push_field(&mut input, PRODUCER_VERSION.as_bytes(), Ghost(prefix), Ghost(fields));
    proof {
        fields = fields.push(encode_utf8(PRODUCER_VERSION@));
    }
    push_field(&mut input, PRODUCER_DIALECT.as_bytes(), Ghost(prefix), Ghost(fields));
    proof {
        fields = fields.push(encode_utf8(PRODUCER_DIALECT@));
        assert(fields =~= active_fields(
            requested@,
            returned@,
            kind@,
            flags@,
            turns@,
            turns@[running as int].id->0@,
        ));
    }
    ActiveObservationPrehash::new(digest(input.as_slice()))
}

/// Reads a thread report of the requested thread. Whatever is not exactly idle
/// or exactly active proves nothing.
pub fn parse_thread_state(view: &Option<ThreadView>, requested: &NativeRef) -> (result: Result<
    ThreadState,
    TransportError,
>)
    ensures
        match result {
            Ok(state) => thread_verdict(*view, requested@) == Ok::<
                ThreadStateModel,
                TransportError,
            >(state@),
            Err(error) => thread_verdict(*view, requested@) == Err::<
                ThreadStateModel,
                TransportError,
            >(error),
        },
{
    let view = match view {
        Some(view) => view,
        None => return Err(TransportError::Malformed),
    };
    let returned = match NativeRef::parse_borrowed(view.id.as_str()) {
        Ok(returned) => returned,
        Err(error) => return Err(error),
    };
    if !returned.same(requested) {
        return Err(TransportError::Correlation);
    }
    let status = match &view.status {
        Some(status) => status,
        None => return Ok(ThreadState::Unproven),
    };
    if same_text(status.kind.as_str(), "idle") {
        return Ok(parse_idle_thread(&view.turns));
    }
    if !same_text(status.kind.as_str(), "active") {
        return Ok(ThreadState::Unproven);
    }
    let flags = match &status.active_flags {
        Some(flags) => flags,
        None => return Ok(ThreadState::Unproven),
    };
    let running = match parse_active_thread(&view.turns, flags) {
        Some(running) => running,
        None => return Ok(ThreadState::Unproven),
    };
    let turns = match &view.turns {
        Some(turns) => turns,
        None => return Ok(ThreadState::Unproven),
    };
    proof {
        let chosen = choose|i: int| only_running(turns@, i);
        running_position_unique(turns@, running as int, chosen);
    }
    Ok(
        ThreadState::ActiveTurn(
            observe_active(requested, &returned, status.kind.as_str(), flags, turns, running),
        ),
    )
}

} // verus!
