//! Frames of a waiter-link session: which ones are taken, and what a failed
//! session says.

use crate::text;
use crate::text::decimal_text;
use vstd::prelude::*;
use vstd::string::*;

verus! {

/// Largest payload of a frame, in bytes.
pub const MAX_PAYLOAD: usize = 262_144;

/// The channel that carries waiter-link messages.
pub const COMMAND: u16 = 1;

/// Waiter-link session failure.
#[derive(Clone, Debug, PartialEq, Eq)]
pub enum LinkError {
    /// Frame layer failed.
    Frame(String),
    /// Payload failed typed validation.
    Payload(String),
    /// Frame arrived on a channel other than the command channel.
    WrongChannel(u16),
    /// Semantic attach error.
    Message(&'static str),
    /// Stream clone or timeout failed.
    Transport(String),
}

/// What a [`LinkError`] says.
pub enum LinkFault {
    Frame(Seq<char>),
    Payload(Seq<char>),
    WrongChannel(u16),
    Message(Seq<char>),
    Transport(Seq<char>),
}

impl View for LinkError {
    type V = LinkFault;

    open spec fn view(&self) -> LinkFault {
        match self {
            LinkError::Frame(reason) => LinkFault::Frame(reason@),
            LinkError::Payload(reason) => LinkFault::Payload(reason@),
            LinkError::WrongChannel(channel) => LinkFault::WrongChannel(*channel),
            LinkError::Message(reason) => LinkFault::Message(reason@),
            LinkError::Transport(reason) => LinkFault::Transport(reason@),
        }
    }
}

impl LinkFault {
    /// What the error says.
    pub open spec fn text(self) -> Seq<char> {
        match self {
            LinkFault::Frame(reason) => reason,
            LinkFault::Payload(reason) => reason,
            LinkFault::WrongChannel(channel) => "waiter-link requires COMMAND channel, got "@
                + text::decimal(channel as nat),
            LinkFault::Message(reason) => reason,
            LinkFault::Transport(reason) => reason,
        }
    }
}

impl LinkError {
    /// The error as text.
    pub fn message(&self) -> (message: String)
        ensures
            message@ == self@.text(),
    {
        match self {
            LinkError::Frame(reason) => reason.clone(),
            LinkError::Payload(reason) => reason.clone(),
            LinkError::WrongChannel(channel) => {
                let mut message = "waiter-link requires COMMAND channel, got ".to_owned();
                message.append(decimal_text(*channel as u64).as_str());
                message
            },
            LinkError::Message(reason) => (*reason).to_owned(),
            LinkError::Transport(reason) => reason.clone(),
        }
    }
}

/// Takes the header of a frame: its payload must be within bounds, and then it
/// must be on the command channel.
pub fn accept_frame(length: usize, channel: u16) -> (result: Result<(), LinkError>)
    ensures
        match result {
            Ok(()) => length <= MAX_PAYLOAD && channel == COMMAND,
            Err(error) => if length > MAX_PAYLOAD {
                error@ == LinkFault::Frame("payload over the frame bound"@)
            } else {
                channel != COMMAND && error@ == LinkFault::WrongChannel(channel)
            },
        },
{
    if length > MAX_PAYLOAD {
        return Err(LinkError::Frame("payload over the frame bound".to_owned()));
    }
    if channel != COMMAND {
        return Err(LinkError::WrongChannel(channel));
    }
    Ok(())
}

} // verus!
