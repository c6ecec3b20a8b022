//! Laws of what local faces show, where local files stand and what a start leaves
//! behind.

use crate::ack_handled;
use crate::ack_handled::AckHandledSpec;
use crate::attach;
use crate::bytes;
use crate::check;
use crate::child;
use crate::evidence;
use crate::evidence::EvidenceClass;
use crate::launch;
use crate::launch::{LaunchPoint, Remains};
use crate::link::LinkFault;
use crate::paths;
use crate::paths::{BindFault, PathKind};
use crate::primitives;
use crate::protocol::{EventModel, HandledModel, LinkModel};
use crate::sanitize;
use crate::text;
use crate::timestamp::Timestamp;
use crate::transport::TransportError;
use crate::who;
use crate::who::{HarnessHint, WhoCard};
use vstd::prelude::*;
use vstd::string::*;
use vstd::utf8::*;

verus! {

/// The number that decimal digits stand for.
pub open spec fn number_of(digits: Seq<char>) -> int
    decreases digits.len(),
{
    if digits.len() == 0 {
        0
    } else {
        number_of(digits.drop_last()) * 10 + (digits.last() as int - '0' as int)
    }
}

/// A number's decimal text stands for that number, without leading zeros.
pub proof fn decimal_stands_for_its_number(value: nat)
    ensures
        number_of(text::decimal(value)) == value,
        text::decimal(value).len() > 0,
        value > 0 ==> text::decimal(value)[0] != '0',
        value == 0 ==> text::decimal(value) =~= seq!['0'],
    decreases value,
{
    if value < 10 {
        let digits = text::decimal(value);
        assert(digits.drop_last() =~= Seq::<char>::empty());
        assert(number_of(digits.drop_last()) == 0);
        assert(digits.last() == text::digit(value));
    } else {
        decimal_stands_for_its_number(value / 10);
        let digits = text::decimal(value);
        assert(digits.drop_last() =~= text::decimal(value / 10));
        assert(digits.last() == text::digit(value % 10));
        assert(digits[0] == text::decimal(value / 10)[0]);
    }
}

/// A signed number shows its sign and its size.
pub proof fn signed_decimal_shows_its_sign(value: int)
    ensures
        value >= 0 ==> text::signed_decimal(value) == text::decimal(value as nat),
        value < 0 ==> text::signed_decimal(value)[0] == '-' && text::signed_decimal(value).skip(1)
            =~= text::decimal((0 - value) as nat),
{
}

/// The number that little-endian bytes stand for.
pub open spec fn number_in(low_first: Seq<u8>) -> int
    decreases low_first.len(),
{
    if low_first.len() == 0 {
        0
    } else {
        low_first[0] as int + 256 * number_in(low_first.drop_first())
    }
}

/// Little-endian bytes stand for the number that they encode.
pub proof fn little_endian_stands_for_its_number(value: int, width: nat)
    requires
        0 <= value < bytes::pow256(width),
    ensures
        number_in(bytes::le_bytes(value, width)) == value,
        bytes::le_bytes(value, width).len() == width,
    decreases width,
{
    bytes::le_bytes_len(value, width);
    if width > 0 {
        let low_first = bytes::le_bytes(value, width);
        assert(low_first.drop_first() =~= bytes::le_bytes(value / 256, (width - 1) as nat));
        little_endian_stands_for_its_number(value / 256, (width - 1) as nat);
        assert(low_first[0] == (value % 256) as u8);
    }
}

/// A fact is shown with its evidence, or as unknown.
pub proof fn fact_is_shown_with_its_evidence(value: Seq<char>)
    ensures
        evidence::fact_text(None) == "unknown"@,
        evidence::fact_text(Some((value, EvidenceClass::ControllerProven))) == value + "  ("@
            + "controller_proven"@ + ")"@,
        evidence::fact_text(Some((value, EvidenceClass::SelfDeclared))) == value + "  ("@
            + "self_declared"@ + ")"@,
        evidence::fact_text(Some((value, EvidenceClass::CensusInferred))) == value + "  ("@
            + "census_inferred"@ + ")"@,
{
}

/// A harness is named by its own token, and no marker names none.
pub proof fn harness_has_its_token()
    ensures
        who::harness_token(HarnessHint::Grok) == Some("grok"@),
        who::harness_token(HarnessHint::Codex) == Some("codex"@),
        who::harness_token(HarnessHint::ClaudeCode) == Some("claudecode"@),
        who::harness_token(HarnessHint::OpenCode) == Some("opencode"@),
        who::harness_token(HarnessHint::Unmarked) is None,
{
}

/// What is not known stands as unknown on its own line of the card.
pub proof fn unknown_fields_are_shown_as_unknown(card: WhoCard)
    ensures
        card.lines().len() == 11,
        card.lines()[0] == "gearwit self who"@,
        card.os is Unknown ==> card.lines()[1] == "os: "@ + "unknown"@,
        card.arch is Unknown ==> card.lines()[2] == "arch: "@ + "unknown"@,
        card.term is Unknown ==> card.lines()[3] == "term: "@ + "unknown"@,
        card.harness is Unknown ==> card.lines()[4] == "harness: "@ + "unknown"@,
        card.controller_attached is Unknown ==> card.lines()[5] == "controller_attached: "@
            + "unknown"@,
        card.wait_armed is Unknown ==> card.lines()[6] == "wait_armed: "@ + "unknown"@,
        card.reachability is Unknown ==> card.lines()[7] == "reachability: "@ + "unknown"@,
        card.wake_plan is Unknown ==> card.lines()[8] == "wake_plan: "@ + "unknown"@,
        card.daemon is Unknown ==> card.lines()[9] == "daemon: "@ + "unknown"@,
{
}

/// A value behind its evidence, as a card shows it.
pub open spec fn backed(value: Seq<char>, evidence: EvidenceClass) -> Seq<char> {
    value + "  ("@ + (match evidence {
        EvidenceClass::ControllerProven => "controller_proven"@,
        EvidenceClass::SelfDeclared => "self_declared"@,
        EvidenceClass::CensusInferred => "census_inferred"@,
    }) + ")"@
}

/// What is known stands on its own line of the card with its evidence: a flag as
/// true or false, and a text that cannot be shown as rejected.
pub proof fn known_fields_are_shown_with_their_evidence(card: WhoCard)
    ensures
        card.controller_attached is Known && card.controller_attached->value ==> card.lines()[5]
            == "controller_attached: "@ + backed("true"@, card.controller_attached->evidence),
        card.controller_attached is Known && !card.controller_attached->value ==> card.lines()[5]
            == "controller_attached: "@ + backed("false"@, card.controller_attached->evidence),
        card.wait_armed is Known && card.wait_armed->value ==> card.lines()[6] == "wait_armed: "@
            + backed("true"@, card.wait_armed->evidence),
        card.wait_armed is Known && !card.wait_armed->value ==> card.lines()[6] == "wait_armed: "@
            + backed("false"@, card.wait_armed->evidence),
        card.os is Known && sanitize::paste_safe(card.os->value@, 128) ==> card.lines()[1]
            == "os: "@ + backed(card.os->value@, card.os->evidence),
        card.arch is Known && sanitize::paste_safe(card.arch->value@, 128) ==> card.lines()[2]
            == "arch: "@ + backed(card.arch->value@, card.arch->evidence),
        card.term is Known && sanitize::paste_safe(card.term->value@, 32) ==> card.lines()[3]
            == "term: "@ + backed(card.term->value@, card.term->evidence),
        card.term is Known && !sanitize::paste_safe(card.term->value@, 32) ==> card.lines()[3]
            == "term: "@ + backed("rejected"@, card.term->evidence),
        card.harness is Known && sanitize::paste_safe(card.harness->value@, 128) ==> card.lines()[4]
            == "harness: "@ + backed(card.harness->value@, card.harness->evidence),
        card.daemon is Known && sanitize::paste_safe(card.daemon->value@, 128) ==> card.lines()[9]
            == "daemon: "@ + backed(card.daemon->value@, card.daemon->evidence),
        sanitize::paste_safe(card.durability@, 128) ==> card.lines()[10] == "durability: "@
            + card.durability@,
{
}

/// Lines stand one after the other, each with its own line end.
pub proof fn lines_are_ended_one_by_one(lines: Seq<Seq<char>>, line: Seq<char>)
    ensures
        who::ended(Seq::empty()) =~= Seq::<char>::empty(),
        who::ended(lines.push(line)) == who::ended(lines) + line + "\n"@,
{
    assert(lines.push(line).drop_last() =~= lines);
}

/// An event body is quoted whole up to its bound and rejected beyond it.
pub proof fn body_is_quoted_up_to_its_bound(raw: Seq<char>, max: usize)
    ensures
        encode_utf8(raw).len() <= max ==> sanitize::pasted_body(raw, max) == raw,
        encode_utf8(raw).len() > max ==> sanitize::pasted_body(raw, max) == "rejected"@,
{
}

/// The last receipt is kept in the directory that was named, or below the home
/// directory where none was.
pub proof fn receipt_is_kept_where_it_was_told(explicit: Seq<char>, home: Option<Seq<char>>)
    ensures
        explicit.len() > 0 ==> check::state_path(Some(explicit), home) == Some(explicit),
        explicit.len() == 0 ==> check::state_path(Some(explicit), home) == check::state_path(
            None,
            home,
        ),
        home is Some ==> check::state_path(None, home) == Some(
            home->0 + "/.local/state/gearwit"@,
        ),
        home is None ==> check::state_path(None, home) is None,
{
}

/// A name stands below its directory behind exactly one separator.
pub proof fn name_stands_below_its_directory(dir: Seq<char>, name: Seq<char>)
    ensures
        dir.len() > 0 && dir[dir.len() - 1] != '/' ==> paths::below(dir, name) == dir + "/"@ + name,
        dir.len() > 0 && dir[dir.len() - 1] == '/' ==> paths::below(dir, name) == dir + name,
        dir.len() == 0 ==> paths::below(dir, name) =~= name,
{
}

/// Only a directory passes for one; a symbolic link is named as such.
pub proof fn only_a_directory_passes(path: Seq<char>, kind: PathKind)
    ensures
        paths::directory_fault(path, kind) is None <==> kind is Directory,
        kind is Symlink ==> paths::directory_fault(path, kind) == Some(BindFault::Symlink(path)),
        !(kind is Symlink) && !(kind is Directory) ==> paths::directory_fault(path, kind) == Some(
            BindFault::NotADirectory(path),
        ),
        BindFault::HomeUnset.text() == "HOME is unset"@,
        BindFault::Symlink(path).text() == "refusing symlink "@ + path,
        BindFault::NotADirectory(path).text() == "not a directory: "@ + path,
        BindFault::NotASocket(path).text() == "not a unix socket: "@ + path,
        BindFault::LiveListener(path).text() == "listener already live at "@ + path,
        BindFault::WrongOwner(path).text() == "path not owned by this user: "@ + path,
        BindFault::Io(path).text() == path,
        BindFault::Transport(path).text() == path,
{
}

/// A start that fails leaves what it had started, and nothing more: nothing before
/// the anchor, the anchor alone while no child is in its group, and the group
/// while one is.
pub proof fn failed_start_leaves_what_it_started(point: LaunchPoint, told: TransportError)
    ensures
        launch::remains_at(point) == Remains::Nothing <==> point is Identify
            || point is SpawnAnchor,
        launch::remains_at(point) == Remains::Anchor <==> point is GroupNumber
            || point is RecheckBefore || point is Spawn || point is Status
            || point is RecheckAfter,
        point is GroupNumber || point is JoinGroup ==> launch::fault_at(point, told) is Group,
        point is RecheckBefore || point is RecheckAfter ==> launch::fault_at(point, told)
            is Identity,
        point is Spawn || point is Streams || point is Reap || point is Status
            ==> launch::fault_at(point, told) is Preflight,
        point is Exited ==> launch::fault_at(point, told) is Closed,
        point is Identify || point is SpawnAnchor || point is NonBlocking || point is Report
            || point is BeforeHandshake || point is Handshake ==> launch::fault_at(point, told)
            == told,
{
}

/// A slot takes a child where it is vacant, keeps the one it has, and is vacant
/// again once that has ended.
pub proof fn slot_holds_one_child<C>(slot: Option<(C, u32)>, child: C, pid: u32)
    ensures
        slot is None ==> child::spawned(slot, child, pid) == (
            Some((child, pid)),
            Ok::<u32, C>(pid),
        ),
        slot is Some ==> child::spawned(slot, child, pid) == (slot, Err::<u32, C>(child)),
        child::waited(slot, true) is None,
        child::waited(slot, false) == slot,
{
}

/// A link error says its reason, and a frame on another channel names it.
pub proof fn link_error_says_its_reason(reason: Seq<char>, channel: u16)
    ensures
        LinkFault::Frame(reason).text() == reason,
        LinkFault::Payload(reason).text() == reason,
        LinkFault::Message(reason).text() == reason,
        LinkFault::Transport(reason).text() == reason,
        LinkFault::WrongChannel(channel).text() == "waiter-link requires COMMAND channel, got "@
            + text::decimal(channel as nat),
{
}

/// Transport errors say what failed.
pub proof fn transport_errors_say_what_failed()
    ensures
        TransportError::Bounds.text() == "transport bound exceeded"@,
        TransportError::Malformed.text() == "malformed transport frame"@,
        TransportError::Version.text() == "unsupported Codex version"@,
        TransportError::Identity.text() == "executable identity could not be proven"@,
        TransportError::Group.text() == "process group could not be proven"@,
        TransportError::Correlation.text() == "response correlation failed"@,
        TransportError::Ambiguous.text() == "outbound frame acceptance is ambiguous"@,
        TransportError::Deadline.text() == "transport deadline expired"@,
        TransportError::Closed.text() == "transport stream is closed"@,
        TransportError::Preflight.text() == "Codex version preflight failed"@,
        TransportError::Cleanup.text() == "process cleanup could not be proven"@,
        TransportError::Unsupported.text() == "Codex transport is unsupported on this platform"@,
        TransportError::Native.text() == "Codex returned a native error"@,
        TransportError::Degraded.text() == "transport notification delivery is degraded"@,
        TransportError::InconsistentTerminal.text()
            == "Codex returned an inconsistent terminal status"@,
{
}

/// The receipt of a delivery of paste-safe names shows them, counts its events and
/// claims no turn.
pub proof fn delivery_receipt_shows_its_batch(delivery: LinkModel)
    requires
        delivery is DeliverEvents,
        sanitize::paste_safe(delivery->DeliverEvents_arm_id, 128),
        sanitize::paste_safe(delivery->DeliverEvents_delivery_id, 128),
        sanitize::paste_safe(delivery->DeliverEvents_newest_event_ref, 128),
        sanitize::paste_safe(delivery->DeliverEvents_signal_id, 128),
    ensures
        attach::receipt_text(delivery) == "{\"arm_id\":"@ + primitives::json_string(
            delivery->DeliverEvents_arm_id,
        ) + ",\"delivery_id\":"@ + primitives::json_string(delivery->DeliverEvents_delivery_id)
            + ",\"event_count\":"@ + text::decimal(delivery->DeliverEvents_events.len())
            + ",\"generation\":"@ + text::decimal(delivery->DeliverEvents_generation as nat)
            + ",\"newest_observed\":"@ + primitives::json_string(
            delivery->DeliverEvents_newest_event_ref,
        ) + ",\"signal_id\":"@ + primitives::json_string(delivery->DeliverEvents_signal_id)
            + ",\"turn_started\":\"unknown\",\"untrusted_provider_data\":["@ + attach::events_text(
            delivery->DeliverEvents_events,
        ) + "],\"wait_outcome\":\"matched\",\"waiter_completed\":true}\n"@,
{
}

/// Events are shown in order with commas between them, each with its own actor,
/// body, reference, instant and provider.
pub proof fn events_are_shown_in_order(events: Seq<EventModel>, event: EventModel)
    requires
        encode_utf8(event.body).len() <= 4096,
    ensures
        attach::events_text(Seq::empty()) =~= Seq::<char>::empty(),
        events.len() > 0 ==> attach::events_text(events.push(event)) == attach::events_text(events)
            + ","@ + attach::event_text(event),
        events.len() == 0 ==> attach::events_text(events.push(event)) == attach::event_text(event),
        attach::event_text(event) == "{\"actor\":"@ + (match event.actor {
            Some(actor) => primitives::json_string(actor),
            None => "null"@,
        }) + ",\"body\":"@ + primitives::json_string(event.body) + ",\"event_ref\":"@
            + primitives::json_string(event.event_ref) + ",\"observed_at\":"@
            + primitives::json_string(event.observed_at) + ",\"provider\":"@
            + primitives::json_string(event.provider) + "}"@,
{
    assert(events.push(event).drop_last() =~= events);
}

/// An acknowledgement asks for exactly what its caller named; what was left open is
/// the minted id and the present instant.
pub proof fn acknowledgement_asks_as_named(
    spec: AckHandledSpec,
    now: Timestamp,
    minted: Seq<char>,
    phase: Seq<char>,
)
    ensures
        ({
            let request = ack_handled::request_of(spec, now, minted);
            &&& request is Request
            &&& request->Request_arm_id == spec.arm_id@
            &&& request->Request_generation == spec.generation
            &&& request->Request_seat_id == spec.seat_id@
            &&& request->Request_signal_id == spec.signal_id@
            &&& request->Request_cursor == spec.cursor@
            &&& spec.request_id is Some ==> request->Request_request_id == spec.request_id->0@
            &&& spec.request_id is None ==> request->Request_request_id == minted
            &&& spec.observed_at is Some ==> request->Request_observed_at == spec.observed_at->0@
            &&& spec.observed_at is None ==> request->Request_observed_at
                == ack_handled::stamp_chars(now)
        }),
        ack_handled::phase_text(phase) == "\"phase\":"@ + primitives::json_string(phase)
            + ",\"rearm_claimed\":false,\"turn_started\":\"unknown\""@,
{
}

/// A framed field stands behind its own length in eight bytes, and fields stand one
/// behind the other.
pub proof fn field_stands_behind_its_length(value: Seq<u8>, fields: Seq<Seq<u8>>)
    requires
        value.len() <= u64::MAX,
    ensures
        bytes::field(value).len() == 8 + value.len(),
        number_in(bytes::field(value).take(8)) == value.len(),
        bytes::field(value).skip(8) =~= value,
        bytes::frame(fields.push(value)) == bytes::frame(fields) + bytes::field(value),
        bytes::frame(Seq::empty()).len() == 0,
{
    assert(bytes::pow256(8) == 0x1_0000_0000_0000_0000int) by {
        reveal_with_fuel(bytes::pow256, 9);
    }
    little_endian_stands_for_its_number(value.len() as int, 8);
    assert(bytes::field(value).take(8) =~= bytes::le_bytes(value.len() as int, 8));
    bytes::frame_push(fields, value);
}

/// A negative number stands for itself in two's complement.
pub proof fn twos_complement_wraps_once(value: i128)
    ensures
        value >= 0 ==> bytes::twos_complement(value) == value,
        value < 0 ==> bytes::twos_complement(value) - value
            == 340_282_366_920_938_463_463_374_607_431_768_211_456int,
{
}

} // verus!
