use vstd::prelude::*;
use vstd::string::*;

verus! {

/// Every failure that a session operation reports to its caller.
#[derive(Clone, Debug, PartialEq, Eq)]
pub enum SessionError {
    /// Opening or configuring the connection failed; the text says why.
    ConnectionFailure(String),
    /// A session of this name is already registered.
    DuplicateSession(String),
    /// No session of this name is registered.
    SessionNotFound(String),
    /// Writing, flushing or shutting down the connection failed.
    TransportError(String),
    /// The session directory could not be read.
    DiscoveryError(String),
}

impl SessionError {
    /// The text that the caller is shown for this error.
    pub open spec fn text(&self) -> Seq<char> {
        match self {
            SessionError::DuplicateSession(name) => "Session "@ + name@ + " already exists"@,
            SessionError::SessionNotFound(name) => "Session "@ + name@ + " not found"@,
            SessionError::ConnectionFailure(why) => why@,
            SessionError::TransportError(why) => why@,
            SessionError::DiscoveryError(why) => why@,
        }
    }

    /// The text that the caller is shown for this error.
    pub fn message(&self) -> (r: String)
        ensures
            r@ == self.text(),
    {
        match self {
            SessionError::DuplicateSession(name) => {
                let mut r = String::from_str("Session ");
                r.append(name.as_str());
                r.append(" already exists");
                r
            },
            SessionError::SessionNotFound(name) => {
                let mut r = String::from_str("Session ");
                r.append(name.as_str());
                r.append(" not found");
                r
            },
            SessionError::ConnectionFailure(why) => why.clone(),
            SessionError::TransportError(why) => why.clone(),
            SessionError::DiscoveryError(why) => why.clone(),
        }
    }
}

} // verus!
