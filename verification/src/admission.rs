//! One attached return link per arm and generation.

use crate::primitives::mint_ulid;
use crate::protocol;
use crate::protocol::{format_time, LinkModel, WaiterLink, WaiterLinkError};
use crate::text::same_text;
use crate::timestamp::Timestamp;
use vstd::prelude::*;

verus! {

/// How long a link lives at most: ten minutes, in nanoseconds.
pub const LINK_LEASE: i128 = 600_000_000_000;

/// Most requests whose replies are kept for replay.
pub const HISTORY_CAP: usize = 256;

/// Arm the daemon currently covers.
#[derive(Debug, PartialEq, Eq)]
pub struct KnownArm {
    /// Arm id.
    pub arm_id: String,
    /// Current generation.
    pub generation: u64,
    /// Seat token.
    pub seat_id: String,
    /// Attached route the arm admits.
    pub route: String,
    /// Coverage end.
    pub coverage_until: Timestamp,
}

/// What a [`KnownArm`] says.
pub struct ArmModel {
    pub arm_id: Seq<char>,
    pub generation: u64,
    pub seat_id: Seq<char>,
    pub route: Seq<char>,
    pub coverage_until: Timestamp,
}

impl View for KnownArm {
    type V = ArmModel;

    open spec fn view(&self) -> ArmModel {
        ArmModel {
            arm_id: self.arm_id@,
            generation: self.generation,
            seat_id: self.seat_id@,
            route: self.route@,
            coverage_until: self.coverage_until,
        }
    }
}

impl Clone for KnownArm {
    fn clone(&self) -> (copy: KnownArm)
        ensures
            copy@ == self@,
    {
        KnownArm {
            arm_id: self.arm_id.clone(),
            generation: self.generation,
            seat_id: self.seat_id.clone(),
            route: self.route.clone(),
            coverage_until: self.coverage_until,
        }
    }
}

/// Currently admitted waiter link.
#[derive(Debug, PartialEq, Eq)]
pub struct AdmittedLink {
    /// Matching attach request id.
    pub request_id: String,
    /// Link id.
    pub link_id: String,
    /// Arm id.
    pub arm_id: String,
    /// Generation.
    pub generation: u64,
    /// Waiter id.
    pub waiter_id: String,
    /// Attached route.
    pub route: String,
    /// Lease end.
    pub lease_until: Timestamp,
    /// The request that was admitted.
    pub request: WaiterLink,
    /// The reply to it.
    pub last_accepted: WaiterLink,
}

/// What an [`AdmittedLink`] says.
pub struct AdmittedModel {
    pub request_id: Seq<char>,
    pub link_id: Seq<char>,
    pub arm_id: Seq<char>,
    pub generation: u64,
    pub waiter_id: Seq<char>,
    pub route: Seq<char>,
    pub lease_until: Timestamp,
    pub request: LinkModel,
    pub last_accepted: LinkModel,
}

impl View for AdmittedLink {
    type V = AdmittedModel;

    open spec fn view(&self) -> AdmittedModel {
        AdmittedModel {
            request_id: self.request_id@,
            link_id: self.link_id@,
            arm_id: self.arm_id@,
            generation: self.generation,
            waiter_id: self.waiter_id@,
            route: self.route@,
            lease_until: self.lease_until,
            request: self.request@,
            last_accepted: self.last_accepted@,
        }
    }
}

impl Clone for AdmittedLink {
    fn clone(&self) -> (copy: AdmittedLink)
        ensures
            copy@ == self@,
    {
        AdmittedLink {
            request_id: self.request_id.clone(),
            link_id: self.link_id.clone(),
            arm_id: self.arm_id.clone(),
            generation: self.generation,
            waiter_id: self.waiter_id.clone(),
            route: self.route.clone(),
            lease_until: self.lease_until,
            request: self.request.clone(),
            last_accepted: self.last_accepted.clone(),
        }
    }
}

/// Token that may revoke only the link it admitted.
#[derive(Debug, PartialEq, Eq)]
pub struct LinkSession {
    /// Admitted link id.
    pub link_id: String,
    /// Arm id.
    pub arm_id: String,
    /// Generation.
    pub generation: u64,
}

/// What a [`LinkSession`] says.
pub struct SessionModel {
    pub link_id: Seq<char>,
    pub arm_id: Seq<char>,
    pub generation: u64,
}

impl View for LinkSession {
    type V = SessionModel;

    open spec fn view(&self) -> SessionModel {
        SessionModel {
            link_id: self.link_id@,
            arm_id: self.arm_id@,
            generation: self.generation,
        }
    }
}

impl Clone for LinkSession {
    fn clone(&self) -> (copy: LinkSession)
        ensures
            copy@ == self@,
    {
        LinkSession {
            link_id: self.link_id.clone(),
            arm_id: self.arm_id.clone(),
            generation: self.generation,
        }
    }
}

/// The session of a link.
pub open spec fn session_of(link: AdmittedModel) -> SessionModel {
    SessionModel { link_id: link.link_id, arm_id: link.arm_id, generation: link.generation }
}

impl AdmittedLink {
    pub fn session(&self) -> (session: LinkSession)
        ensures
            session@ == session_of(self@),
    {
        LinkSession {
            link_id: self.link_id.clone(),
            arm_id: self.arm_id.clone(),
            generation: self.generation,
        }
    }
}

/// At most one live link.
#[derive(Debug, PartialEq, Eq)]
pub struct LinkTable {
    current: Option<AdmittedLink>,
}

impl View for LinkTable {
    type V = Option<AdmittedModel>;

    closed spec fn view(&self) -> Option<AdmittedModel> {
        match self.current {
            Some(link) => Some(link@),
            None => None,
        }
    }
}

impl Default for LinkTable {
    fn default() -> (table: LinkTable)
        ensures
            table@ is None,
    {
        LinkTable { current: None }
    }
}

impl LinkTable {
    /// Current link, if any.
    pub fn current(&self) -> (link: Option<&AdmittedLink>)
        ensures
            match link {
                Some(link) => self@ == Some(link@),
                None => self@ is None,
            },
    {
        match &self.current {
            Some(link) => Some(link),
            None => None,
        }
    }

    /// Drop the link (disconnect). Does not advance handled cursor.
    pub fn drop_current(&mut self)
        ensures
            final(self)@ is None,
    {
        self.current = None;
    }
}

/// The session that an attach reply opens, if it opens one.
pub open spec fn session_opened(reply: LinkModel) -> Option<SessionModel> {
    match reply {
        LinkModel::AttachAccepted { link_id, arm_id, generation, .. } => Some(
            SessionModel { link_id, arm_id, generation },
        ),
        _ => None,
    }
}

/// The session that an attach reply opens.
pub fn reply_session(reply: &WaiterLink) -> (session: Option<LinkSession>)
    ensures
        match session {
            Some(session) => session_opened(reply@) == Some(session@),
            None => session_opened(reply@) is None,
        },
{
    match reply {
        WaiterLink::AttachAccepted {
            request_id: _,
            link_id,
            arm_id,
            generation,
            route: _,
            accepted_at: _,
            lease_until: _,
        } => Some(
            LinkSession {
                link_id: link_id.clone(),
                arm_id: arm_id.clone(),
                generation: *generation,
            },
        ),
        _ => None,
    }
}

/// The table after a session is revoked: empty where the session owns the link.
pub open spec fn without_session(
    table: Option<AdmittedModel>,
    session: SessionModel,
) -> Option<AdmittedModel> {
    if table is Some && table->0.link_id == session.link_id {
        None
    } else {
        table
    }
}

/// Revoke `session` only when it still owns the live link.
pub fn drop_session(table: &mut LinkTable, session: &LinkSession)
    ensures
        final(table)@ == without_session(old(table)@, session@),
{
    let owned = match &table.current {
        Some(link) => same_text(link.link_id.as_str(), session.link_id.as_str()),
        None => false,
    };
    if owned {
        table.current = None;
    }
}

/// The table at an instant: empty where the lease has elapsed.
pub open spec fn unexpired(table: Option<AdmittedModel>, now: Timestamp) -> Option<AdmittedModel> {
    if table is Some && now.nanos >= table->0.lease_until.nanos {
        None
    } else {
        table
    }
}

/// Drop a live link whose lease has elapsed.
pub fn drop_expired(table: &mut LinkTable, now: Timestamp)
    ensures
        final(table)@ == unexpired(old(table)@, now),
{
    let expired = match &table.current {
        Some(link) => now.nanos >= link.lease_until.nanos,
        None => false,
    };
    if expired {
        table.current = None;
    }
}

/// What an attach request comes to.
pub enum AttachDecision {
    Accept { link: AdmittedLink, reply: WaiterLink },
    Replay { reply: WaiterLink, session: LinkSession },
    Reject { reply: WaiterLink },
}

/// What an [`AttachDecision`] says.
pub enum DecisionModel {
    Accept { link: AdmittedModel, reply: LinkModel },
    Replay { reply: LinkModel, session: SessionModel },
    Reject { reply: LinkModel },
}

impl View for AttachDecision {
    type V = DecisionModel;

    open spec fn view(&self) -> DecisionModel {
        match self {
            AttachDecision::Accept { link, reply } => DecisionModel::Accept {
                link: link@,
                reply: reply@,
            },
            AttachDecision::Replay { reply, session } => DecisionModel::Replay {
                reply: reply@,
                session: session@,
            },
            AttachDecision::Reject { reply } => DecisionModel::Reject { reply: reply@ },
        }
    }
}

/// What each arm says.
pub open spec fn arm_models(arms: Seq<KnownArm>) -> Seq<ArmModel> {
    Seq::new(arms.len(), |i: int| arms[i]@)
}

/// The arm at `i` is the first one of this name.
pub open spec fn first_arm(arms: Seq<ArmModel>, arm_id: Seq<char>, i: int) -> bool {
    &&& 0 <= i < arms.len()
    &&& arms[i].arm_id == arm_id
    &&& forall|j: int| 0 <= j < i ==> (#[trigger] arms[j]).arm_id != arm_id
}

/// The arm of a name.
pub open spec fn arm_named(arms: Seq<ArmModel>, arm_id: Seq<char>) -> Option<ArmModel> {
    if exists|i: int| first_arm(arms, arm_id, i) {
        Some(arms[choose|i: int| first_arm(arms, arm_id, i)])
    } else {
        None
    }
}

/// A refusal.
pub open spec fn rejection(request_id: Seq<char>, code: Seq<char>, now: Timestamp) -> LinkModel {
    LinkModel::AttachRejected { request_id, code, observed_at: protocol::time_chars(now) }
}

/// The lease of a link that is admitted now: ten minutes, and no longer than
/// the arm's coverage.
pub open spec fn lease_end(now: Timestamp, coverage_until: Timestamp) -> Timestamp {
    if now.nanos + LINK_LEASE <= coverage_until.nanos {
        Timestamp { nanos: (now.nanos + LINK_LEASE) as i128 }
    } else {
        coverage_until
    }
}

/// The acceptance of a request under a link id.
pub open spec fn acceptance(
    request: LinkModel,
    now: Timestamp,
    coverage_until: Timestamp,
    link_id: Seq<char>,
) -> LinkModel {
    LinkModel::AttachAccepted {
        request_id: request->AttachWaiter_request_id,
        link_id,
        arm_id: request->AttachWaiter_arm_id,
        generation: request->AttachWaiter_generation,
        route: request->AttachWaiter_route,
        accepted_at: protocol::time_chars(now),
        lease_until: protocol::time_chars(lease_end(now, coverage_until)),
    }
}

/// What an attach request comes to, where a new link would get `link_id`. The
/// live link's own request id is answered before the arm is looked at.
pub open spec fn attach_verdict(
    table: Option<AdmittedModel>,
    request: LinkModel,
    now: Timestamp,
    arms: Seq<ArmModel>,
    link_id: Seq<char>,
) -> Result<DecisionModel, Seq<char>> {
    match request {
        LinkModel::AttachWaiter {
            request_id,
            waiter_id,
            arm_id,
            generation,
            seat_id,
            route,
            observed_at,
        } => if table matches Some(current) && current.request_id == request_id {
            if table->0.request != request {
                Err("request_id conflict"@)
            } else {
                Ok(
                    DecisionModel::Replay {
                        reply: table->0.last_accepted,
                        session: session_of(table->0),
                    },
                )
            }
        } else {
            match arm_named(arms, arm_id) {
                None => Ok(
                    DecisionModel::Reject { reply: rejection(request_id, "unknown_arm"@, now) },
                ),
                Some(arm) => if arm.generation != generation {
                    Ok(
                        DecisionModel::Reject {
                            reply: rejection(request_id, "stale_generation"@, now),
                        },
                    )
                } else if arm.seat_id != seat_id || arm.route != route {
                    Ok(
                        DecisionModel::Reject {
                            reply: rejection(request_id, "route_mismatch"@, now),
                        },
                    )
                } else if now.nanos >= arm.coverage_until.nanos {
                    Ok(
                        DecisionModel::Reject {
                            reply: rejection(request_id, "coverage_ended"@, now),
                        },
                    )
                } else {
                    match table {
                        Some(_) => Ok(
                            DecisionModel::Reject {
                                reply: rejection(request_id, "already_attached"@, now),
                            },
                        ),
                        None => {
                            let accepted = acceptance(request, now, arm.coverage_until, link_id);
                            Ok(
                                DecisionModel::Accept {
                                    link: AdmittedModel {
                                        request_id,
                                        link_id,
                                        arm_id,
                                        generation,
                                        waiter_id,
                                        route,
                                        lease_until: lease_end(now, arm.coverage_until),
                                        request,
                                        last_accepted: accepted,
                                    },
                                    reply: accepted,
                                },
                            )
                        },
                    }
                },
            }
        },
        _ => Err("expected attach_waiter"@),
    }
}

fn reject_message(request_id: &str, code: &str, now: Timestamp) -> (reply: WaiterLink)
    ensures
        reply@ == rejection(request_id@, code@, now),
{
    WaiterLink::AttachRejected {
        request_id: request_id.to_owned(),
        code: code.to_owned(),
        observed_at: format_time(now),
    }
}

/// Commits an accepted link.
pub fn commit_attach(table: &mut LinkTable, link: AdmittedLink)
    ensures
        final(table)@ == Some(link@),
{
    table.current = Some(link);
}

/// The first arm of a name.
fn find_arm<'a>(arms: &'a [KnownArm], arm_id: &str) -> (found: Option<&'a KnownArm>)
    ensures
        match found {
            Some(arm) => arm_named(arm_models(arms@), arm_id@) == Some(arm@),
            None => arm_named(arm_models(arms@), arm_id@) is None,
        },
{
    let ghost models = arm_models(arms@);
    let mut i: usize = 0;
    while i < arms.len()
        invariant
            i <= arms@.len(),
            models == arm_models(arms@),
            forall|j: int| 0 <= j < i ==> (#[trigger] models[j]).arm_id != arm_id@,
        decreases arms.len() - i,
    {
        assert(models[i as int] == arms@[i as int]@);
        if same_text(arms[i].arm_id.as_str(), arm_id) {
            proof {
                assert(first_arm(models, arm_id@, i as int));
                let chosen = choose|k: int| first_arm(models, arm_id@, k);
                if chosen < i {
                    assert(models[chosen].arm_id != arm_id@);
                } else if chosen > i {
                    assert(models[i as int].arm_id != arm_id@);
                }
            }
            return Some(&arms[i]);
        }
        i += 1;
    }
    None
}

/// Decides on an attach request, with the id that a new link would get.
pub fn decide_attach_with(
    table: &LinkTable,
    request: WaiterLink,
    now: Timestamp,
    arms: &[KnownArm],
    link_id: String,
) -> (result: Result<AttachDecision, WaiterLinkError>)
    requires
        now.in_range(),
    ensures
        match result {
            Ok(decision) => attach_verdict(table@, request@, now, arm_models(arms@), link_id@)
                == Ok::<DecisionModel, Seq<char>>(decision@),
            Err(error) => attach_verdict(table@, request@, now, arm_models(arms@), link_id@)
                == Err::<DecisionModel, Seq<char>>(error@),
        },
{
    let (request_id, waiter_id, arm_id, generation, seat_id, route) = match &request {
        WaiterLink::AttachWaiter {
            request_id,
            waiter_id,
            arm_id,
            generation,
            seat_id,
            route,
            observed_at: _,
        } => (request_id, waiter_id, arm_id, *generation, seat_id, route),
        _ => return Err(WaiterLinkError::Semantic("expected attach_waiter")),
    };
    if let Some(current) = &table.current {
        if same_text(current.request_id.as_str(), request_id.as_str()) {
            if !current.request.same(&request) {
                return Err(WaiterLinkError::Semantic("request_id conflict"));
            }
            return Ok(
                AttachDecision::Replay {
                    reply: current.last_accepted.clone(),
                    session: current.session(),
                },
            );
        }
    }
    let arm = match find_arm(arms, arm_id.as_str()) {
        Some(arm) => arm,
        None => {
            return Ok(
                AttachDecision::Reject {
                    reply: reject_message(request_id.as_str(), "unknown_arm", now),
                },
            );
        },
    };
    if arm.generation != generation {
        return Ok(
            AttachDecision::Reject {
                reply: reject_message(request_id.as_str(), "stale_generation", now),
            },
        );
    }
    if !same_text(arm.seat_id.as_str(), seat_id.as_str()) || !same_text(
        arm.route.as_str(),
        route.as_str(),
    ) {
        return Ok(
            AttachDecision::Reject {
                reply: reject_message(request_id.as_str(), "route_mismatch", now),
            },
        );
    }
    if now.nanos >= arm.coverage_until.nanos {
        return Ok(
            AttachDecision::Reject {
                reply: reject_message(request_id.as_str(), "coverage_ended", now),
            },
        );
    }
    if table.current.is_some() {
        return Ok(
            AttachDecision::Reject {
                reply: reject_message(request_id.as_str(), "already_attached", now),
            },
        );
    }
    let lease_until = now.plus(LINK_LEASE).earlier(arm.coverage_until);
    let accepted = WaiterLink::AttachAccepted {
        request_id: request_id.clone(),
        link_id: link_id.clone(),
        arm_id: arm_id.clone(),
        generation,
        route: route.clone(),
        accepted_at: format_time(now),
        lease_until: format_time(lease_until),
    };
    let link = AdmittedLink {
        request_id: request_id.clone(),
        link_id,
        arm_id: arm_id.clone(),
        generation,
        waiter_id: waiter_id.clone(),
        route: route.clone(),
        lease_until,
        request: request.clone(),
        last_accepted: accepted.clone(),
    };
    Ok(AttachDecision::Accept { link, reply: accepted })
}

/// What a verdict says.
pub open spec fn verdict_model(valid: Result<(), WaiterLinkError>) -> Result<(), Seq<char>> {
    match valid {
        Ok(()) => Ok(()),
        Err(error) => Err(error@),
    }
}

/// What an attach request comes to, with the verdicts on whether the request and
/// a reply that is made for it are valid. A cached acceptance is not judged again.
pub open spec fn checked_verdict(
    verdict: Result<DecisionModel, Seq<char>>,
    valid: Result<(), Seq<char>>,
    reply_valid: Result<(), Seq<char>>,
) -> Result<DecisionModel, Seq<char>> {
    match valid {
        Err(reason) => Err(reason),
        Ok(()) => match verdict {
            Ok(decision) => if !(decision is Replay) && reply_valid is Err {
                Err(reply_valid->Err_0)
            } else {
                Ok(decision)
            },
            Err(reason) => Err(reason),
        },
    }
}

/// Decides on an attach request, with the id that a new link would get and the
/// verdicts on whether the request and a reply that is made for it are valid.
pub fn decide_attach_checked(
    table: &LinkTable,
    request: WaiterLink,
    now: Timestamp,
    arms: &[KnownArm],
    link_id: String,
    valid: Result<(), WaiterLinkError>,
    reply_valid: Result<(), WaiterLinkError>,
) -> (result: Result<AttachDecision, WaiterLinkError>)
    requires
        now.in_range(),
    ensures
        match result {
            Ok(decision) => checked_verdict(
                attach_verdict(table@, request@, now, arm_models(arms@), link_id@),
                verdict_model(valid),
                verdict_model(reply_valid),
            ) == Ok::<DecisionModel, Seq<char>>(decision@),
            Err(error) => checked_verdict(
                attach_verdict(table@, request@, now, arm_models(arms@), link_id@),
                verdict_model(valid),
                verdict_model(reply_valid),
            ) == Err::<DecisionModel, Seq<char>>(error@),
        },
{
    match valid {
        Ok(()) => {},
        Err(error) => return Err(error),
    }
    match decide_attach_with(table, request, now, arms, link_id) {
        Ok(AttachDecision::Replay { reply, session }) => Ok(
            AttachDecision::Replay { reply, session },
        ),
        Ok(decision) => match reply_valid {
            Ok(()) => Ok(decision),
            Err(error) => Err(error),
        },
        Err(error) => Err(error),
    }
}

/// Decides on an attach request. A new link gets a minted id. The messages are
/// taken to be valid; [`decide_attach_checked`] takes the verdicts on that.
pub fn decide_attach(
    table: &LinkTable,
    request: WaiterLink,
    now: Timestamp,
    arms: &[KnownArm],
) -> (result: Result<AttachDecision, WaiterLinkError>)
    requires
        now.in_range(),
    ensures
        exists|link_id: Seq<char>| #[trigger]
            protocol::minted(link_id) && match result {
                Ok(decision) => attach_verdict(table@, request@, now, arm_models(arms@), link_id)
                    == Ok::<DecisionModel, Seq<char>>(decision@),
                Err(error) => attach_verdict(table@, request@, now, arm_models(arms@), link_id)
                    == Err::<DecisionModel, Seq<char>>(error@),
            },
{
    let link_id = mint_ulid();
    assert(protocol::minted(link_id@));
    decide_attach_with(table, request, now, arms, link_id)
}

/// The table and the reply after an attach request.
pub open spec fn admitted(
    table: Option<AdmittedModel>,
    request: LinkModel,
    now: Timestamp,
    arms: Seq<ArmModel>,
    link_id: Seq<char>,
) -> (Option<AdmittedModel>, Result<LinkModel, Seq<char>>) {
    let live = unexpired(table, now);
    match attach_verdict(live, request, now, arms, link_id) {
        Err(reason) => (live, Err(reason)),
        Ok(DecisionModel::Accept { link, reply }) => (Some(link), Ok(reply)),
        Ok(DecisionModel::Replay { reply, .. }) => (live, Ok(reply)),
        Ok(DecisionModel::Reject { reply }) => (live, Ok(reply)),
    }
}

/// Admits or rejects an attach request, with the id that a new link would get.
pub fn admit_attach_with(
    table: &mut LinkTable,
    request: WaiterLink,
    now: Timestamp,
    arms: &[KnownArm],
    link_id: String,
) -> (result: Result<WaiterLink, WaiterLinkError>)
    requires
        now.in_range(),
    ensures
        final(table)@ == admitted(old(table)@, request@, now, arm_models(arms@), link_id@).0,
        match result {
            Ok(reply) => admitted(old(table)@, request@, now, arm_models(arms@), link_id@).1 == Ok::<
                LinkModel,
                Seq<char>,
            >(reply@),
            Err(error) => admitted(old(table)@, request@, now, arm_models(arms@), link_id@).1
                == Err::<LinkModel, Seq<char>>(error@),
        },
{
    drop_expired(table, now);
    match decide_attach_with(table, request, now, arms, link_id) {
        Ok(AttachDecision::Accept { link, reply }) => {
            commit_attach(table, link);
            Ok(reply)
        },
        Ok(AttachDecision::Replay { reply, session: _ }) => Ok(reply),
        Ok(AttachDecision::Reject { reply }) => Ok(reply),
        Err(error) => Err(error),
    }
}

/// The table and the reply after an attach request, with the verdicts on whether
/// the request and a reply that is made for it are valid.
pub open spec fn admitted_checked(
    table: Option<AdmittedModel>,
    request: LinkModel,
    now: Timestamp,
    arms: Seq<ArmModel>,
    link_id: Seq<char>,
    valid: Result<(), Seq<char>>,
    reply_valid: Result<(), Seq<char>>,
) -> (Option<AdmittedModel>, Result<LinkModel, Seq<char>>) {
    let live = unexpired(table, now);
    match checked_verdict(attach_verdict(live, request, now, arms, link_id), valid, reply_valid) {
        Err(reason) => (live, Err(reason)),
        Ok(_) => admitted(table, request, now, arms, link_id),
    }
}

/// Admits or rejects an attach request, with the id that a new link would get and
/// the verdicts on whether the request and a reply that is made for it are valid.
pub fn admit_attach_checked(
    table: &mut LinkTable,
    request: WaiterLink,
    now: Timestamp,
    arms: &[KnownArm],
    link_id: String,
    valid: Result<(), WaiterLinkError>,
    reply_valid: Result<(), WaiterLinkError>,
) -> (result: Result<WaiterLink, WaiterLinkError>)
    requires
        now.in_range(),
    ensures
        ({
            let (after, reply) = admitted_checked(
                old(table)@,
                request@,
                now,
                arm_models(arms@),
                link_id@,
                verdict_model(valid),
                verdict_model(reply_valid),
            );
            &&& final(table)@ == after
            &&& match result {
                Ok(message) => reply == Ok::<LinkModel, Seq<char>>(message@),
                Err(error) => reply == Err::<LinkModel, Seq<char>>(error@),
            }
        }),
{
    drop_expired(table, now);
    match decide_attach_checked(table, request, now, arms, link_id, valid, reply_valid) {
        Ok(AttachDecision::Accept { link, reply }) => {
            commit_attach(table, link);
            Ok(reply)
        },
        Ok(AttachDecision::Replay { reply, session: _ }) => Ok(reply),
        Ok(AttachDecision::Reject { reply }) => Ok(reply),
        Err(error) => Err(error),
    }
}

/// Admits or rejects an attach request. The messages are taken to be valid;
/// [`admit_attach_checked`] takes the verdicts on that.
///
/// A repeated `request_id` with an identical body returns the cached
/// acceptance. The same key with a different body is a hard protocol conflict.
/// A different request while a link is live is `already_attached`.
pub fn admit_attach(
    table: &mut LinkTable,
    request: WaiterLink,
    now: Timestamp,
    arms: &[KnownArm],
) -> (result: Result<WaiterLink, WaiterLinkError>)
    requires
        now.in_range(),
    ensures
        exists|link_id: Seq<char>|
            {
                &&& #[trigger] protocol::minted(link_id)
                &&& final(table)@ == admitted(
                    old(table)@,
                    request@,
                    now,
                    arm_models(arms@),
                    link_id,
                ).0
                &&& match result {
                    Ok(reply) => admitted(
                        old(table)@,
                        request@,
                        now,
                        arm_models(arms@),
                        link_id,
                    ).1 == Ok::<LinkModel, Seq<char>>(reply@),
                    Err(error) => admitted(
                        old(table)@,
                        request@,
                        now,
                        arm_models(arms@),
                        link_id,
                    ).1 == Err::<LinkModel, Seq<char>>(error@),
                }
            },
{
    let link_id = mint_ulid();
    assert(protocol::minted(link_id@));
    admit_attach_with(table, request, now, arms, link_id)
}

/// An accepted request that comes again unchanged while its lease runs gets the
/// same acceptance and changes nothing, whatever became of the arms.
pub proof fn attach_replays(
    table: Option<AdmittedModel>,
    request: LinkModel,
    now: Timestamp,
    later: Timestamp,
    arms: Seq<ArmModel>,
    other_arms: Seq<ArmModel>,
    link_id: Seq<char>,
    other_id: Seq<char>,
)
    requires
        unexpired(table, now) is None,
        request is AttachWaiter,
        attach_verdict(None, request, now, arms, link_id) matches Ok(DecisionModel::Accept { .. }),
        later.nanos < lease_end(
            now,
            arm_named(arms, request->AttachWaiter_arm_id)->0.coverage_until,
        ).nanos,
    ensures
        ({
            let (after, first) = admitted(table, request, now, arms, link_id);
            admitted(after, request, later, other_arms, other_id) == (after, first)
        }),
{
}

/// While a link is live another request never replaces it.
pub proof fn live_link_is_not_replaced(
    table: Option<AdmittedModel>,
    request: LinkModel,
    now: Timestamp,
    arms: Seq<ArmModel>,
    link_id: Seq<char>,
)
    requires
        unexpired(table, now) is Some,
    ensures
        admitted(table, request, now, arms, link_id).0 == table,
{
}

/// A request under another id, for an arm that would admit it, is told that a
/// link is attached while one is live.
pub proof fn another_request_is_turned_away(
    table: Option<AdmittedModel>,
    request: LinkModel,
    now: Timestamp,
    arms: Seq<ArmModel>,
    link_id: Seq<char>,
)
    requires
        unexpired(table, now) is Some,
        request is AttachWaiter,
        table->0.request_id != request->AttachWaiter_request_id,
        attach_verdict(None, request, now, arms, link_id) matches Ok(DecisionModel::Accept { .. }),
    ensures
        admitted(table, request, now, arms, link_id) == (
            table,
            Ok::<LinkModel, Seq<char>>(
                rejection(request->AttachWaiter_request_id, "already_attached"@, now),
            ),
        ),
{
}

/// A request id that comes again with another body while its link is live is a
/// conflict, whatever the body names, and the link stays.
pub proof fn reused_request_is_a_conflict(
    table: Option<AdmittedModel>,
    request: LinkModel,
    now: Timestamp,
    arms: Seq<ArmModel>,
    link_id: Seq<char>,
)
    requires
        unexpired(table, now) is Some,
        request is AttachWaiter,
        table->0.request_id == request->AttachWaiter_request_id,
        table->0.request != request,
    ensures
        admitted(table, request, now, arms, link_id) == (
            table,
            Err::<LinkModel, Seq<char>>("request_id conflict"@),
        ),
{
}

/// A link is leased for ten minutes at most and never beyond its arm's
/// coverage; it has some life left when it is admitted.
pub proof fn lease_is_bounded(now: Timestamp, coverage_until: Timestamp)
    requires
        now.in_range(),
        now.nanos < coverage_until.nanos,
    ensures
        now.nanos < lease_end(now, coverage_until).nanos,
        lease_end(now, coverage_until).nanos <= now.nanos + LINK_LEASE,
        lease_end(now, coverage_until).nanos <= coverage_until.nanos,
{
}

/// A session revokes its own link only: a successor stays.
pub proof fn stale_session_spares_successor(table: Option<AdmittedModel>, session: SessionModel)
    requires
        table is Some,
        table->0.link_id != session.link_id,
    ensures
        without_session(table, session) == table,
{
}

/// The live link's cached acceptance opens the live link's session.
pub open spec fn consistent(table: Option<AdmittedModel>) -> bool {
    table matches Some(link) ==> session_opened(link.last_accepted) == Some(session_of(link))
}

/// Whoever is told that they are attached, newly or again, holds the session of
/// the live link; and the table stays one in which that is so.
pub proof fn accepted_session_is_live(
    table: Option<AdmittedModel>,
    request: LinkModel,
    now: Timestamp,
    arms: Seq<ArmModel>,
    link_id: Seq<char>,
)
    requires
        consistent(table),
    ensures
        ({
            let (after, reply) = admitted(table, request, now, arms, link_id);
            &&& consistent(after)
            &&& reply matches Ok(message) ==> (session_opened(message) matches Some(session)
                ==> after is Some && session_of(after->0) == session)
        }),
{
}

} // verus!
