//! Canonical Gearwit home, private directories, and the waiter-link endpoint.

use vstd::prelude::*;
use vstd::string::*;

verus! {

/// Socket file name under `run/`.
pub const SOCKET_FILE: &'static str = "gearwit.sock";

/// Failure to resolve, create, or bind the local waiter-link endpoint.
#[derive(Clone, Debug, PartialEq, Eq)]
pub enum BindError {
    /// `HOME` is unset; production resolution cannot proceed.
    HomeUnset,
    /// Path exists and is a symlink.
    Symlink(String),
    /// Path exists and is not a directory.
    NotADirectory(String),
    /// Path exists and is not a Unix socket.
    NotASocket(String),
    /// A listener is already accepting on this socket.
    LiveListener(String),
    /// Path is not owned by this process's effective user.
    WrongOwner(String),
    /// Filesystem I/O failed.
    Io(String),
    /// The transport failed.
    Transport(String),
}

/// What a [`BindError`] says.
pub enum BindFault {
    HomeUnset,
    Symlink(Seq<char>),
    NotADirectory(Seq<char>),
    NotASocket(Seq<char>),
    LiveListener(Seq<char>),
    WrongOwner(Seq<char>),
    Io(Seq<char>),
    Transport(Seq<char>),
}

impl View for BindError {
    type V = BindFault;

    open spec fn view(&self) -> BindFault {
        match self {
            BindError::HomeUnset => BindFault::HomeUnset,
            BindError::Symlink(path) => BindFault::Symlink(path@),
            BindError::NotADirectory(path) => BindFault::NotADirectory(path@),
            BindError::NotASocket(path) => BindFault::NotASocket(path@),
            BindError::LiveListener(path) => BindFault::LiveListener(path@),
            BindError::WrongOwner(path) => BindFault::WrongOwner(path@),
            BindError::Io(reason) => BindFault::Io(reason@),
            BindError::Transport(reason) => BindFault::Transport(reason@),
        }
    }
}

impl BindFault {
    /// What the error says.
    pub open spec fn text(self) -> Seq<char> {
        match self {
            BindFault::HomeUnset => "HOME is unset"@,
            BindFault::Symlink(path) => "refusing symlink "@ + path,
            BindFault::NotADirectory(path) => "not a directory: "@ + path,
            BindFault::NotASocket(path) => "not a unix socket: "@ + path,
            BindFault::LiveListener(path) => "listener already live at "@ + path,
            BindFault::WrongOwner(path) => "path not owned by this user: "@ + path,
            BindFault::Io(reason) => reason,
            BindFault::Transport(reason) => reason,
        }
    }
}

impl BindError {
    /// The error as text.
    pub fn message(&self) -> (message: String)
        ensures
            message@ == self@.text(),
    {
        let (prefix, rest) = match self {
            BindError::HomeUnset => return "HOME is unset".to_owned(),
            BindError::Symlink(path) => ("refusing symlink ", path),
            BindError::NotADirectory(path) => ("not a directory: ", path),
            BindError::NotASocket(path) => ("not a unix socket: ", path),
            BindError::LiveListener(path) => ("listener already live at ", path),
            BindError::WrongOwner(path) => ("path not owned by this user: ", path),
            BindError::Io(reason) => return reason.clone(),
            BindError::Transport(reason) => return reason.clone(),
        };
        let mut message = prefix.to_owned();
        message.append(rest.as_str());
        message
    }
}

/// What stands at a path.
#[derive(Clone, Copy, Debug, PartialEq, Eq, Structural)]
pub enum PathKind {
    Absent,
    Symlink,
    Directory,
    Socket,
    Other,
}

/// A relative name below a directory.
pub open spec fn below(dir: Seq<char>, name: Seq<char>) -> Seq<char> {
    if dir.len() == 0 || dir.last() == '/' {
        dir + name
    } else {
        dir + "/"@ + name
    }
}

fn join(dir: &str, name: &str) -> (path: String)
    ensures
        path@ == below(dir@, name@),
{
    let len: usize = dir.unicode_len();
    let mut path = dir.to_owned();
    if len > 0 {
        if dir.get_char(len - 1) != '/' {
            path.append("/");
        }
    }
    path.append(name);
    path
}

/// Production Gearwit home: `$HOME/.lanyte/gearwit`.
pub fn canonical_root(home: Option<&str>) -> (result: Result<String, BindError>)
    ensures
        match result {
            Ok(root) => home is Some && root@ == below(
                below(home->0@, ".lanyte"@),
                "gearwit"@,
            ),
            Err(error) => home is None && error@ == BindFault::HomeUnset,
        },
{
    match home {
        Some(home) => Ok(join(join(home, ".lanyte").as_str(), "gearwit")),
        None => Err(BindError::HomeUnset),
    }
}

/// Resolved Gearwit directories.
#[derive(Clone, Debug, PartialEq, Eq)]
pub struct GearwitPaths {
    pub root: String,
}

impl GearwitPaths {
    /// The directories that have to be private, parents first.
    pub fn private_dirs(&self) -> (dirs: (String, String, String))
        ensures
            dirs.0@ == self.root@,
            dirs.1@ == below(self.root@, "run"@),
            dirs.2@ == below(self.root@, "state"@),
    {
        (
            self.root.clone(),
            join(self.root.as_str(), "run"),
            join(self.root.as_str(), "state"),
        )
    }

    /// Gearwit home root.
    pub fn root(&self) -> (root: &str)
        ensures
            root@ == self.root@,
    {
        self.root.as_str()
    }

    /// Waiter-link socket path.
    pub fn socket_path(&self) -> (path: String)
        ensures
            path@ == below(below(self.root@, "run"@), SOCKET_FILE@),
    {
        join(join(self.root.as_str(), "run").as_str(), SOCKET_FILE)
    }

    /// Private state directory.
    pub fn state_dir(&self) -> (path: String)
        ensures
            path@ == below(self.root@, "state"@),
    {
        join(self.root.as_str(), "state")
    }
}

/// What is wrong with a directory that has to be private, if anything is.
pub open spec fn directory_fault(path: Seq<char>, kind: PathKind) -> Option<BindFault> {
    match kind {
        PathKind::Symlink => Some(BindFault::Symlink(path)),
        PathKind::Directory => None,
        _ => Some(BindFault::NotADirectory(path)),
    }
}

/// Whether a private directory has to be created. A path that stands and is not
/// a directory is refused.
pub fn private_dir_needed(path: &str, kind: PathKind) -> (result: Result<bool, BindError>)
    ensures
        match result {
            Ok(create) => create == (kind == PathKind::Absent) && (create || directory_fault(
                path@,
                kind,
            ) is None),
            Err(error) => kind != PathKind::Absent && directory_fault(path@, kind) == Some(error@),
        },
{
    match kind {
        PathKind::Absent => Ok(true),
        PathKind::Directory => Ok(false),
        PathKind::Symlink => Err(BindError::Symlink(path.to_owned())),
        _ => Err(BindError::NotADirectory(path.to_owned())),
    }
}

/// Accepts a directory that stands and is this user's.
pub fn require_private_dir(path: &str, kind: PathKind, owner: u32, user: u32) -> (result: Result<
    (),
    BindError,
>)
    ensures
        match result {
            Ok(()) => kind == PathKind::Directory && owner == user,
            Err(error) => if directory_fault(path@, kind) is Some {
                error@ == directory_fault(path@, kind)->0
            } else {
                owner != user && error@ == BindFault::WrongOwner(path@)
            },
        },
{
    match kind {
        PathKind::Directory => require_owned(path, owner, user),
        PathKind::Symlink => Err(BindError::Symlink(path.to_owned())),
        _ => Err(BindError::NotADirectory(path.to_owned())),
    }
}

/// Accepts a path that is this user's.
pub fn require_owned(path: &str, owner: u32, user: u32) -> (result: Result<(), BindError>)
    ensures
        match result {
            Ok(()) => owner == user,
            Err(error) => owner != user && error@ == BindFault::WrongOwner(path@),
        },
{
    if owner == user {
        Ok(())
    } else {
        Err(BindError::WrongOwner(path.to_owned()))
    }
}

/// Before a socket is bound: whether a listener has to be looked for first. Only
/// a socket of this user may be replaced.
pub fn socket_needs_probe(path: &str, kind: PathKind, owner: u32, user: u32) -> (result: Result<
    bool,
    BindError,
>)
    ensures
        match result {
            Ok(probe) => probe == (kind == PathKind::Socket) && (kind == PathKind::Absent || (kind
                == PathKind::Socket && owner == user)),
            Err(error) => match kind {
                PathKind::Absent => false,
                PathKind::Symlink => error@ == BindFault::Symlink(path@),
                PathKind::Socket => owner != user && error@ == BindFault::WrongOwner(path@),
                _ => error@ == BindFault::NotASocket(path@),
            },
        },
{
    match kind {
        PathKind::Absent => Ok(false),
        PathKind::Symlink => Err(BindError::Symlink(path.to_owned())),
        PathKind::Socket => match require_owned(path, owner, user) {
            Ok(()) => Ok(true),
            Err(error) => Err(error),
        },
        _ => Err(BindError::NotASocket(path.to_owned())),
    }
}

/// What connecting to a socket came to.
#[derive(Clone, Debug, PartialEq, Eq)]
pub enum ListenerProbe {
    Live,
    Refused,
    Failed(String),
}

/// Only a socket that refuses connections is stale and may be replaced; a live
/// listener is never displaced.
pub fn bind_over(path: &str, probe: &ListenerProbe) -> (result: Result<(), BindError>)
    ensures
        match result {
            Ok(()) => *probe is Refused,
            Err(error) => match probe {
                ListenerProbe::Live => error@ == BindFault::LiveListener(path@),
                ListenerProbe::Refused => false,
                ListenerProbe::Failed(reason) => error@ == BindFault::Transport(reason@),
            },
        },
{
    match probe {
        ListenerProbe::Live => Err(BindError::LiveListener(path.to_owned())),
        ListenerProbe::Refused => Ok(()),
        ListenerProbe::Failed(reason) => Err(BindError::Transport(reason.clone())),
    }
}

} // verus!
