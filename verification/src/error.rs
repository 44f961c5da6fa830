//! The failures that talking to a robot can end in.

use vstd::prelude::*;

verus! {

/// What went wrong between this crate and a robot.
///
/// A backend reports each failure as one of these kinds and never swallows one. The text that
/// a variant carries is the cause as the transport or the codec worded it.
#[derive(Debug, Clone, PartialEq, Eq)]
#[non_exhaustive]
pub enum Error {
    /// The transport could not be opened: the control daemon is not running, or its socket is
    /// missing. Trying again later may succeed.
    NoLoLAConnection(String),
    /// The transport delivered `received` bytes where a whole frame was due.
    FrameTruncated { received: usize },
    /// A whole frame arrived, but it does not hold the fields that a state frame holds.
    MsgPackDecodeError(String),
    /// A control message could not be turned into its wire form.
    MsgPackEncodeError(String),
    /// A simulation backend could not reach the process that it talks to.
    BackendConnectError(String),
    /// The process that a simulation backend talks to refused a request.
    BackendRequestError(String),
}

impl Error {
    /// What kind of failure this is, in a few words.
    pub fn description(&self) -> (r: &'static str)
        ensures
            r == match self {
                Error::NoLoLAConnection(_) => "Could not connect to LoLA socket",
                Error::FrameTruncated { .. } => "Received fewer bytes than one state frame holds",
                Error::MsgPackDecodeError(_) => "Failed to decode MessagePack message",
                Error::MsgPackEncodeError(_) => "Failed to encode MessagePack message",
                Error::BackendConnectError(_) => "Could not connect to the backend",
                Error::BackendRequestError(_) => "The backend refused a request",
            },
    {
        match self {
            Error::NoLoLAConnection(_) => "Could not connect to LoLA socket",
            Error::FrameTruncated { .. } => "Received fewer bytes than one state frame holds",
            Error::MsgPackDecodeError(_) => "Failed to decode MessagePack message",
            Error::MsgPackEncodeError(_) => "Failed to encode MessagePack message",
            Error::BackendConnectError(_) => "Could not connect to the backend",
            Error::BackendRequestError(_) => "The backend refused a request",
        }
    }

    /// Whether trying the same operation again can succeed: true of a transport that could
    /// not be reached, false of everything that was received or refused.
    pub fn is_recoverable(&self) -> (r: bool)
        ensures
            r == (self is NoLoLAConnection || self is BackendConnectError),
    {
        match self {
            Error::NoLoLAConnection(_) => true,
            Error::BackendConnectError(_) => true,
            _ => false,
        }
    }
}

} // verus!
