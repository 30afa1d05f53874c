use vstd::prelude::*;

verus! {

/// Error value carried across the service boundary: a human-readable
/// description of what went wrong.
#[derive(Debug)]
pub struct CommunicationError {
    description: String,
}

impl View for CommunicationError {
    type V = Seq<char>;

    closed spec fn view(&self) -> Seq<char> {
        self.description@
    }
}

impl CommunicationError {
    /// Wraps a description into an error value.
    pub fn new(description: String) -> (r: Self)
        ensures
            r@ == description@,
    {
        Self { description }
    }

    /// The description this error was created with.
    pub fn description(&self) -> (r: &str)
        ensures
            r@ == self@,
    {
        self.description.as_str()
    }
}

/// Failures the rendezvous coordinator reports to its callers. The record
/// store the coordinator owns lives in memory and every read-modify-write
/// cycle runs atomically under exclusive access, so store unavailability and
/// write contention cannot arise here.
#[derive(Clone, Copy, Debug, PartialEq, Eq, Structural)]
pub enum SignupError {
    /// The threshold supplied to a join was not a positive number of parties.
    InvalidArgument,
    /// The session token was never initialized, so no signup record exists for it.
    SessionNotFound,
}

impl SignupError {
    /// Renders the failure as the error value the transport reports to a client.
    pub fn to_communication_error(&self) -> (r: CommunicationError)
        ensures
            *self is InvalidArgument ==> r@ == "threshold must be a positive number of parties"@,
            *self is SessionNotFound ==> r@ == "session not found"@,
    {
        match self {
            SignupError::InvalidArgument => CommunicationError::new(
                "threshold must be a positive number of parties".to_owned(),
            ),
            SignupError::SessionNotFound => CommunicationError::new("session not found".to_owned()),
        }
    }
}

} // verus!
