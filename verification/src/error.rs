//! The error a caller of the client can observe. Anything that does not
//! threaten the shared connection is absorbed where it happens; what a
//! caller sees is its own call failing, either with the hub's error or
//! because the connection that held the call went away.

use vstd::prelude::*;

verus! {

/// Why a caller's operation failed.
#[derive(Debug, Clone, PartialEq, Eq)]
pub enum Error {
    /// The hub answered the call with failure and this error.
    Service { error: crate::messages::Error },
    /// The connection holding the pending call was torn down before any
    /// answer arrived.
    ConnectionClosed,
    /// The command never reached the hub: the actor is gone, or the
    /// frame kind carries no correlation id.
    NotDispatched,
}

impl Error {
    /// A one-line rendering of the error.
    pub fn to_text(&self) -> (r: String)
        ensures
            match self {
                Error::Service { error } => r@ == "service call failed: E"@ + error.code@ + ": "@
                    + error.message@,
                Error::ConnectionClosed => r@ == "connection closed"@,
                Error::NotDispatched => r@ == "command was not dispatched"@,
            },
    {
        match self {
            Error::Service { error } => {
                let mut s = String::from_str("service call failed: E");
                s.append(error.code.as_str());
                s.append(": ");
                s.append(error.message.as_str());
                s
            },
            Error::ConnectionClosed => String::from_str("connection closed"),
            Error::NotDispatched => String::from_str("command was not dispatched"),
        }
    }
}

} // verus!
