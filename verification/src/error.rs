//! The error taxonomy: every fallible operation of the library reports one
//! of these kinds. Validation failures (`InvalidEnum`, `IncorrectVariant`)
//! come from this layer's own checks; `Transport` and `ProtocolFault`
//! carry what the remote side or the transport reported, as plain strings.
use vstd::prelude::*;
use crate::text;

verus! {

#[derive(Debug, Clone, PartialEq, Eq)]
pub enum Error {
    /// A protocol string did not match any recognized enum token.
    InvalidEnum { got: String, expected: Vec<String> },
    /// A typed read expected one property-value shape but found another.
    IncorrectVariant { wanted: String, actual: String },
    /// A failure surfaced by the transport: connection loss, a malformed
    /// reply, a malformed destination, an unreachable destination.
    Transport { message: String },
    /// An error reply from the remote player itself, under its D-Bus
    /// error name: distinct from `Transport` so that callers can tell
    /// "feature not supported" from a hard failure.
    ProtocolFault { name: String, message: String },
}

/// The D-Bus error name by which a remote player reports that an optional
/// capability is not implemented.
pub open spec fn not_supported_name() -> Seq<char> {
    "org.freedesktop.DBus.Error.NotSupported"@
}

impl Error {
    /// The one error that the optional-property rule translates to
    /// "value absent": a protocol fault under the not-supported name.
    pub open spec fn is_not_supported(&self) -> bool {
        match self {
            Error::ProtocolFault { name, .. } => name@ == not_supported_name(),
            _ => false,
        }
    }

    pub fn not_supported(&self) -> (r: bool)
        ensures
            r == self.is_not_supported(),
    {
        match self {
            Error::ProtocolFault { name, .. } => text::str_eq(
                name.as_str(),
                "org.freedesktop.DBus.Error.NotSupported",
            ),
            _ => false,
        }
    }

    /// Classifies what came back from the remote side: an error reply
    /// that carries a D-Bus error name is a protocol fault; a failure
    /// without one is a transport failure.
    pub fn from_remote(name: Option<String>, message: String) -> (r: Error)
        ensures
            match name {
                Some(n) => r == (Error::ProtocolFault { name: n, message }),
                None => r == (Error::Transport { message }),
            },
    {
        match name {
            Some(n) => Error::ProtocolFault { name: n, message },
            None => Error::Transport { message },
        }
    }
}

} // verus!
