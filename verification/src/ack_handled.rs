//! `self ack-handled`: one handled-cursor request and its reply.
//!
//! Completing it does not claim `turn_started` or coverage rearm.

use crate::primitives;
use crate::primitives::{format_rfc3339, json_string_text, mint_ulid};
use crate::protocol;
use crate::protocol::{HandledCursor, HandledModel};
use crate::text;
use crate::text::same_text;
use crate::timestamp::Timestamp;
use vstd::prelude::*;
use vstd::string::*;

verus! {

/// Process exit when the daemon accepted the ACK.
pub const EXIT_ACCEPTED: u8 = 0;

/// Process exit when the daemon rejected the ACK.
pub const EXIT_REJECTED: u8 = 1;

/// Process exit on transport, validation, or correlation failure.
pub const EXIT_ERROR: u8 = 2;

/// The start of 1970, as a message shows it.
pub const EPOCH_TEXT: &'static str = "1970-01-01T00:00:00Z";

/// Inputs for one handled-cursor request.
#[derive(Clone, Debug, PartialEq, Eq)]
pub struct AckHandledSpec {
    /// Arm id.
    pub arm_id: String,
    /// Arm generation.
    pub generation: u64,
    /// Seat token.
    pub seat_id: String,
    /// Stable signal id.
    pub signal_id: String,
    /// Prefix endpoint `event_ref`.
    pub cursor: String,
    /// Caller-supplied idempotency key. Minted when absent.
    pub request_id: Option<String>,
    /// Caller-supplied observation time. Set before send when absent.
    pub observed_at: Option<String>,
}

/// One request/reply pair. Never claims rearm or a model turn.
#[derive(Debug, PartialEq, Eq)]
pub struct AckHandledReport {
    /// Request actually sent.
    pub request: HandledCursor,
    /// Correlated reply.
    pub reply: HandledCursor,
    /// Stable process exit.
    pub exit: u8,
}

/// The text of an instant, or that of the epoch where it cannot be shown.
pub open spec fn stamp_chars(now: Timestamp) -> Seq<char> {
    match primitives::rfc3339_text(now.nanos) {
        Some(text) => text,
        None => EPOCH_TEXT@,
    }
}

/// Shows an instant, or the epoch where it cannot be shown.
pub fn stamp(now: Timestamp) -> (text: String)
    ensures
        text@ == stamp_chars(now),
{
    match format_rfc3339(now.nanos) {
        Some(text) => text,
        None => EPOCH_TEXT.to_owned(),
    }
}

/// The members that a printed message gets: its phase, and that it claims
/// neither a rearm nor a turn.
pub open spec fn phase_text(phase: Seq<char>) -> Seq<char> {
    "\"phase\":"@ + primitives::json_string(phase)
        + ",\"rearm_claimed\":false,\"turn_started\":\"unknown\""@
}

/// The members that a printed message gets, as JSON text. No acknowledgement
/// claims a rearm or a turn.
pub fn phase_members(phase: &str) -> (members: String)
    ensures
        members@ == phase_text(phase@),
{
    let mut members = "\"phase\":".to_owned();
    members.append(json_string_text(phase).as_str());
    members.append(",\"rearm_claimed\":false,\"turn_started\":\"unknown\"");
    members
}

/// The request of a spec, where a minted id would be `minted`.
pub open spec fn request_of(spec: AckHandledSpec, now: Timestamp, minted: Seq<char>) -> HandledModel {
    HandledModel::Request {
        request_id: match spec.request_id {
            Some(id) => id@,
            None => minted,
        },
        arm_id: spec.arm_id@,
        generation: spec.generation,
        seat_id: spec.seat_id@,
        signal_id: spec.signal_id@,
        cursor: spec.cursor@,
        observed_at: match spec.observed_at {
            Some(at) => at@,
            None => stamp_chars(now),
        },
    }
}

/// Builds a request, with the id that it gets where the caller gave none.
pub fn build_request_with(spec: &AckHandledSpec, now: Timestamp, minted: String) -> (request:
    HandledCursor)
    ensures
        request@ == request_of(*spec, now, minted@),
{
    HandledCursor::Request {
        request_id: match &spec.request_id {
            Some(id) => id.clone(),
            None => minted,
        },
        arm_id: spec.arm_id.clone(),
        generation: spec.generation,
        seat_id: spec.seat_id.clone(),
        signal_id: spec.signal_id.clone(),
        cursor: spec.cursor.clone(),
        observed_at: match &spec.observed_at {
            Some(at) => at.clone(),
            None => stamp(now),
        },
    }
}

/// Builds a request, with the id that it gets where the caller gave none and the
/// verdicts on whether it is valid and fits a frame. The first error is given
/// back.
pub fn build_request_checked(
    spec: &AckHandledSpec,
    now: Timestamp,
    minted: String,
    valid: Result<(), String>,
    encoded: Result<(), String>,
) -> (result: Result<HandledCursor, String>)
    ensures
        match result {
            Ok(request) => valid is Ok && encoded is Ok && request@ == request_of(
                *spec,
                now,
                minted@,
            ),
            Err(error) => if valid is Err {
                valid == Err::<(), String>(error)
            } else {
                encoded == Err::<(), String>(error)
            },
        },
{
    match valid {
        Ok(()) => {},
        Err(error) => return Err(error),
    }
    match encoded {
        Ok(()) => Ok(build_request_with(spec, now, minted)),
        Err(error) => Err(error),
    }
}

/// Builds a request. An id that the caller did not give is minted. The request is
/// taken to be valid; [`build_request_checked`] takes the verdicts on that.
pub fn build_request(spec: &AckHandledSpec, now: Timestamp) -> (request: HandledCursor)
    ensures
        exists|minted: Seq<char>| #[trigger]
            protocol::minted(minted) && request@ == request_of(*spec, now, minted),
{
    let minted = mint_ulid();
    assert(protocol::minted(minted@));
    build_request_with(spec, now, minted)
}

/// The exit that a reply to a request means, where it answers it.
pub open spec fn correlated(request: HandledModel, reply: HandledModel) -> Result<u8, Seq<char>> {
    match request {
        HandledModel::Request { request_id, arm_id, generation, signal_id, cursor, .. } => {
            match reply {
                HandledModel::Accepted {
                    request_id: reply_id,
                    arm_id: reply_arm,
                    generation: reply_gen,
                    signal_id: reply_signal,
                    cursor: reply_cursor,
                    ..
                } => if reply_id != request_id || reply_arm != arm_id || reply_gen != generation
                    || reply_signal != signal_id || reply_cursor != cursor {
                    Err("accepted reply did not echo the request"@)
                } else {
                    Ok(EXIT_ACCEPTED)
                },
                HandledModel::Rejected { request_id: reply_id, .. } => if reply_id != request_id {
                    Err("rejected reply request_id mismatch"@)
                } else {
                    Ok(EXIT_REJECTED)
                },
                HandledModel::Request { .. } => Err("expected reply"@),
            }
        },
        _ => Err("expected request"@),
    }
}

/// Correlates a reply with the request that was sent.
pub fn correlate(request: &HandledCursor, reply: &HandledCursor) -> (result: Result<u8, String>)
    ensures
        match result {
            Ok(exit) => correlated(request@, reply@) == Ok::<u8, Seq<char>>(exit),
            Err(error) => correlated(request@, reply@) == Err::<u8, Seq<char>>(error@),
        },
{
    let (request_id, arm_id, generation, signal_id, cursor) = match request {
        HandledCursor::Request {
            request_id,
            arm_id,
            generation,
            seat_id: _,
            signal_id,
            cursor,
            observed_at: _,
        } => (request_id, arm_id, *generation, signal_id, cursor),
        _ => return Err("expected request".to_owned()),
    };
    match reply {
        HandledCursor::Accepted {
            request_id: reply_id,
            arm_id: reply_arm,
            generation: reply_gen,
            signal_id: reply_signal,
            cursor: reply_cursor,
            accepted_at: _,
        } => {
            if !same_text(reply_id.as_str(), request_id.as_str()) || !same_text(
                reply_arm.as_str(),
                arm_id.as_str(),
            ) || *reply_gen != generation || !same_text(
                reply_signal.as_str(),
                signal_id.as_str(),
            ) || !same_text(reply_cursor.as_str(), cursor.as_str()) {
                return Err("accepted reply did not echo the request".to_owned());
            }
            Ok(EXIT_ACCEPTED)
        },
        HandledCursor::Rejected { request_id: reply_id, code: _, observed_at: _ } => {
            if !same_text(reply_id.as_str(), request_id.as_str()) {
                return Err("rejected reply request_id mismatch".to_owned());
            }
            Ok(EXIT_REJECTED)
        },
        HandledCursor::Request { .. } => Err("expected reply".to_owned()),
    }
}

/// Reports an exchange whose reply answers its request.
pub fn report_exchange(request: HandledCursor, reply: HandledCursor) -> (result: Result<
    AckHandledReport,
    String,
>)
    ensures
        match result {
            Ok(report) => report.request@ == request@ && report.reply@ == reply@ && correlated(
                request@,
                reply@,
            ) == Ok::<u8, Seq<char>>(report.exit),
            Err(error) => correlated(request@, reply@) == Err::<u8, Seq<char>>(error@),
        },
{
    match correlate(&request, &reply) {
        Ok(exit) => Ok(AckHandledReport { request, reply, exit }),
        Err(error) => Err(error),
    }
}

} // verus!
