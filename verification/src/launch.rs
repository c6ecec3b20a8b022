//! Starting an app server: what each failure leaves to clean up, and which
//! error it is.

use crate::transport::TransportError;
use vstd::prelude::*;

verus! {

/// What identifies an executable between one look and the next.
#[derive(Clone, Copy, Debug, PartialEq, Eq, Structural)]
pub struct FileIdentity {
    pub device: u64,
    pub inode: u64,
    pub length: u64,
    pub modified_seconds: i64,
    pub modified_nanoseconds: i64,
}

/// Accepts an executable that is still the one that was qualified.
pub fn same_executable(qualified: FileIdentity, observed: Option<FileIdentity>) -> (result: Result<
    (),
    TransportError,
>)
    ensures
        result == if observed == Some(qualified) {
            Ok::<(), TransportError>(())
        } else {
            Err::<(), TransportError>(TransportError::Identity)
        },
{
    match observed {
        Some(observed) => if observed == qualified {
            Ok(())
        } else {
            Err(TransportError::Identity)
        },
        None => Err(TransportError::Identity),
    }
}

/// Accepts a process that is in the group and has a session. A process group or
/// session that could not be read is absent.
pub fn prove_group_member(observed: Option<u32>, session: Option<u32>, group: u32) -> (result: Result<
    (),
    TransportError,
>)
    ensures
        result == if observed == Some(group) && session is Some && session->0 > 0 {
            Ok::<(), TransportError>(())
        } else {
            Err::<(), TransportError>(TransportError::Group)
        },
{
    match (observed, session) {
        (Some(observed), Some(session)) => if observed == group && session > 0 {
            Ok(())
        } else {
            Err(TransportError::Group)
        },
        _ => Err(TransportError::Group),
    }
}

/// Whether the anchor is still the process that was started: its birth is the
/// one on record, and it leads its own group.
pub fn anchor_stands(birth: Option<u64>, expected: u64, member: bool) -> (stands: bool)
    ensures
        stands == (birth == Some(expected) && member),
{
    match birth {
        Some(birth) => birth == expected && member,
        None => false,
    }
}

/// What is still running and has to end.
#[derive(Clone, Copy, Debug, PartialEq, Eq, Structural)]
pub enum Remains {
    Nothing,
    /// The anchor process alone.
    Anchor,
    /// The anchor's group with the child in it.
    Group,
}

/// A point at which starting a server can fail, in the order of the start.
#[derive(Clone, Copy, Debug, PartialEq, Eq, Structural)]
pub enum LaunchPoint {
    /// The executable could not be identified.
    Identify,
    /// The anchor process could not be started.
    SpawnAnchor,
    /// The group's number does not fit.
    GroupNumber,
    /// The executable changed before it was started.
    RecheckBefore,
    /// The child could not be started.
    Spawn,
    /// The child is not in the group.
    JoinGroup,
    /// A stream of the child is missing.
    Streams,
    /// A stream could not be made non-blocking.
    NonBlocking,
    /// The version report was not accepted.
    Report,
    /// The child did not end.
    Reap,
    /// The child ended with a failure.
    Status,
    /// The executable changed while it ran.
    RecheckAfter,
    /// The step before the handshake failed.
    BeforeHandshake,
    /// The child ended before the handshake.
    Exited,
    /// The handshake could not be sent.
    Handshake,
}

/// What is running when the start fails at a point.
pub open spec fn remains_at(point: LaunchPoint) -> Remains {
    match point {
        LaunchPoint::Identify | LaunchPoint::SpawnAnchor => Remains::Nothing,
        LaunchPoint::GroupNumber
        | LaunchPoint::RecheckBefore
        | LaunchPoint::Spawn
        | LaunchPoint::Status
        | LaunchPoint::RecheckAfter => Remains::Anchor,
        _ => Remains::Group,
    }
}

/// The error of a failure at a point. Points whose steps tell why pass that on.
pub open spec fn fault_at(point: LaunchPoint, told: TransportError) -> TransportError {
    match point {
        LaunchPoint::Identify
        | LaunchPoint::SpawnAnchor
        | LaunchPoint::NonBlocking
        | LaunchPoint::Report
        | LaunchPoint::BeforeHandshake
        | LaunchPoint::Handshake => told,
        LaunchPoint::GroupNumber | LaunchPoint::JoinGroup => TransportError::Group,
        LaunchPoint::RecheckBefore | LaunchPoint::RecheckAfter => TransportError::Identity,
        LaunchPoint::Spawn | LaunchPoint::Streams | LaunchPoint::Reap | LaunchPoint::Status => {
            TransportError::Preflight
        },
        LaunchPoint::Exited => TransportError::Closed,
    }
}

/// What has to be cleaned up after a failure, and its error.
pub fn launch_failure(point: LaunchPoint, told: TransportError) -> (failure: (
    Remains,
    TransportError,
))
    ensures
        failure == (remains_at(point), fault_at(point, told)),
{
    match point {
        LaunchPoint::Identify => (Remains::Nothing, told),
        LaunchPoint::SpawnAnchor => (Remains::Nothing, told),
        LaunchPoint::GroupNumber => (Remains::Anchor, TransportError::Group),
        LaunchPoint::RecheckBefore => (Remains::Anchor, TransportError::Identity),
        LaunchPoint::Spawn => (Remains::Anchor, TransportError::Preflight),
        LaunchPoint::JoinGroup => (Remains::Group, TransportError::Group),
        LaunchPoint::Streams => (Remains::Group, TransportError::Preflight),
        LaunchPoint::NonBlocking => (Remains::Group, told),
        LaunchPoint::Report => (Remains::Group, told),
        LaunchPoint::Reap => (Remains::Group, TransportError::Preflight),
        LaunchPoint::Status => (Remains::Anchor, TransportError::Preflight),
        LaunchPoint::RecheckAfter => (Remains::Anchor, TransportError::Identity),
        LaunchPoint::BeforeHandshake => (Remains::Group, told),
        LaunchPoint::Exited => (Remains::Group, TransportError::Closed),
        LaunchPoint::Handshake => (Remains::Group, told),
    }
}

/// The error that a failed start reports: that its cleanup failed, where it
/// did, and else its own.
pub fn settle_failure(error: TransportError, cleaned: bool) -> (reported: TransportError)
    ensures
        reported == if cleaned {
            error
        } else {
            TransportError::Cleanup
        },
{
    if cleaned {
        error
    } else {
        TransportError::Cleanup
    }
}

/// Cleanup of a group succeeded only where every part of it did.
pub fn cleanup_verdict(terminated: bool, killed: bool, child_gone: bool, anchor_gone: bool) -> (
    result: Result<(), TransportError>)
    ensures
        result == if terminated && killed && child_gone && anchor_gone {
            Ok::<(), TransportError>(())
        } else {
            Err::<(), TransportError>(TransportError::Cleanup)
        },
{
    if terminated && killed && child_gone && anchor_gone {
        Ok(())
    } else {
        Err(TransportError::Cleanup)
    }
}

/// Whether a running server may still be read from: its diagnostics must be
/// within bounds and readable, and its input open.
pub fn receive_allowed(overflow: bool, failed: bool, input_open: bool) -> (result: Result<
    (),
    TransportError,
>)
    ensures
        result == if overflow || failed {
            Err::<(), TransportError>(TransportError::Bounds)
        } else if !input_open {
            Err(TransportError::Closed)
        } else {
            Ok(())
        },
{
    if overflow || failed {
        return Err(TransportError::Bounds);
    }
    if !input_open {
        return Err(TransportError::Closed);
    }
    Ok(())
}

/// A child that was started is never left behind: every failure from its start
/// on, until it has been reaped, ends its group.
pub proof fn started_child_is_never_left(point: LaunchPoint)
    requires
        point is JoinGroup || point is Streams || point is NonBlocking || point is Report
            || point is Reap || point is BeforeHandshake || point is Exited || point is Handshake,
    ensures
        remains_at(point) == Remains::Group,
{
}

} // verus!
