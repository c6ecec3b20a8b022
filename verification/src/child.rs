//! A slot for at most one child process.
//!
//! The slot is the only one that may end its child: what it gives out to be
//! killed and reaped it no longer holds.

use vstd::prelude::*;

verus! {

/// Outcome of killing and reaping the occupied child.
#[derive(Clone, Copy, Debug, PartialEq, Eq, Structural)]
pub struct KillReap {
    /// The kill succeeded; false where the child had ended before.
    pub killed: bool,
    /// The child's status was collected.
    pub reaped: bool,
}

/// What the attempt to kill a child came to.
#[derive(Clone, Copy, Debug, PartialEq, Eq, Structural)]
pub enum KillAttempt {
    Killed,
    /// The child had ended before.
    Gone,
    Failed,
}

/// Which step of ending a child failed.
#[derive(Clone, Copy, Debug, PartialEq, Eq, Structural)]
pub enum EndFault {
    Kill,
    Wait,
}

/// Why a child cannot be started.
pub const OCCUPIED: &'static str = "child slot occupied";

/// Occupies at most one child. A second spawn fails until reap.
pub struct ChildSlot<C> {
    child: Option<(C, u32)>,
}

impl<C> View for ChildSlot<C> {
    type V = Option<(C, u32)>;

    closed spec fn view(&self) -> Option<(C, u32)> {
        self.child
    }
}

/// The slot after a child was started for it, and whether it took the child.
pub open spec fn spawned<C>(slot: Option<(C, u32)>, child: C, pid: u32) -> (
    Option<(C, u32)>,
    Result<u32, C>,
) {
    match slot {
        Some(_) => (slot, Err(child)),
        None => (Some((child, pid)), Ok(pid)),
    }
}

/// The slot after its child was looked at: vacant where the child has ended.
pub open spec fn waited<C>(slot: Option<(C, u32)>, ended: bool) -> Option<(C, u32)> {
    if ended {
        None
    } else {
        slot
    }
}

impl<C> ChildSlot<C> {
    /// Empty slot.
    pub fn new() -> (slot: Self)
        ensures
            slot@ is None,
    {
        ChildSlot { child: None }
    }

    /// Process id of the occupied child.
    pub fn pid(&self) -> (pid: Option<u32>)
        ensures
            pid == match self@ {
                Some((_, pid)) => Some(pid),
                None => None::<u32>,
            },
    {
        match &self.child {
            Some((_, pid)) => Some(*pid),
            None => None,
        }
    }

    /// True when a child is occupied and not yet reaped by this slot.
    pub fn occupied(&self) -> (occupied: bool)
        ensures
            occupied == self@ is Some,
    {
        self.child.is_some()
    }

    /// Whether a child may be started.
    pub fn vacant(&self) -> (result: Result<(), &'static str>)
        ensures
            match result {
                Ok(()) => self@ is None,
                Err(reason) => self@ is Some && reason@ == OCCUPIED@,
            },
    {
        if self.child.is_some() {
            Err(OCCUPIED)
        } else {
            Ok(())
        }
    }

    /// Takes a started child in, or hands it back where another is held.
    pub fn spawn(&mut self, child: C, pid: u32) -> (result: Result<u32, C>)
        ensures
            (final(self)@, result) == spawned(old(self)@, child, pid),
    {
        if self.child.is_some() {
            return Err(child);
        }
        self.child = Some((child, pid));
        Ok(pid)
    }

    /// The occupied child was looked at. The slot stays occupied while it runs.
    pub fn try_wait(&mut self, ended: bool)
        ensures
            final(self)@ == waited(old(self)@, ended),
    {
        if ended {
            self.child = None;
        }
    }

    /// Gives the child out to be killed and reaped.
    pub fn take(&mut self) -> (child: Option<C>)
        ensures
            final(self)@ is None,
            child == match old(self)@ {
                Some((child, _)) => Some(child),
                None => None::<C>,
            },
    {
        match self.child.take() {
            Some((child, _)) => Some(child),
            None => None,
        }
    }

    /// The child held, to be looked at.
    pub fn held(&mut self) -> (child: Option<&mut C>)
        ensures
            match child {
                Some(child) => old(self)@ is Some && *child == (old(self)@->0).0 && final(self)@
                    == Some((*final(child), (old(self)@->0).1)),
                None => old(self)@ is None && final(self)@ is None,
            },
    {
        match &mut self.child {
            Some((child, _)) => Some(child),
            None => None,
        }
    }
}

/// What ending a child came to. Without a child nothing was done; a failed kill
/// is reported before a failed wait, and a child that had ended is reaped
/// without a kill.
pub fn kill_and_reap(ended: Option<(KillAttempt, bool)>) -> (result: Result<KillReap, EndFault>)
    ensures
        result == match ended {
            None => Ok::<KillReap, EndFault>(KillReap { killed: false, reaped: false }),
            Some((kill, reaped)) => if kill == KillAttempt::Failed {
                Err(EndFault::Kill)
            } else if !reaped {
                Err(EndFault::Wait)
            } else {
                Ok(KillReap { killed: kill == KillAttempt::Killed, reaped: true })
            },
        },
{
    match ended {
        None => Ok(KillReap { killed: false, reaped: false }),
        Some((kill, reaped)) => if kill == KillAttempt::Failed {
            Err(EndFault::Kill)
        } else if !reaped {
            Err(EndFault::Wait)
        } else {
            Ok(KillReap { killed: kill == KillAttempt::Killed, reaped: true })
        },
    }
}

/// A slot takes one child at a time: a second is handed back, the first stays,
/// and only after the first has ended is another taken.
pub proof fn second_spawn_waits_for_the_first<C>(first: C, second: C, pid: u32, other: u32)
    ensures
        ({
            let held = spawned(None, first, pid).0;
            &&& spawned(held, second, other) == (held, Err::<u32, C>(second))
            &&& spawned(waited(held, false), second, other) == (held, Err::<u32, C>(second))
            &&& spawned(waited(held, true), second, other) == (
                Some((second, other)),
                Ok::<u32, C>(other),
            )
        }),
{
}

} // verus!
