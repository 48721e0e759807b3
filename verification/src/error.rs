use vstd::prelude::*;
use vstd::string::StringExecFns;

verus! {

/// The two failure classes of the adapter. Each carries the rendered text of
/// the underlying cause: the one thing the adapter ever reads of a transport
/// or backend failure.
#[derive(Clone, Debug)]
pub enum Error {
    /// Establishing a brand-new connection failed (unreachable address,
    /// authentication failure, protocol negotiation failure).
    Connection(String),
    /// The health probe failed against an existing connection.
    Ping(String),
}

/// The error a pool accepts from a failed recycle. Its reporting channel is
/// string-based, so this is the one boundary where a structured error is
/// deliberately degraded to text.
#[derive(Clone, Debug)]
pub enum RecycleError {
    Message(String),
}

/// Text of an establishment failure with the given cause.
pub open spec fn spec_connection_message(cause: Seq<char>) -> Seq<char> {
    "connection error: "@ + cause
}

/// Text of a probe failure with the given cause.
pub open spec fn spec_ping_message(cause: Seq<char>) -> Seq<char> {
    "ping error: "@ + cause
}

/// Text of an error as it crosses a string-based reporting boundary: the
/// failure class, then the cause.
pub open spec fn spec_error_message(e: Error) -> Seq<char> {
    match e {
        Error::Connection(cause) => spec_connection_message(cause@),
        Error::Ping(cause) => spec_ping_message(cause@),
    }
}

impl Error {
    /// Renders the error as text, naming its failure class before the cause.
    pub fn message(&self) -> (r: String)
        ensures
            r@ == spec_error_message(*self),
    {
        match self {
            Error::Connection(cause) => {
                let mut s: String = "connection error: ".to_owned();
                s.append(cause.as_str());
                s
            },
            Error::Ping(cause) => {
                let mut s: String = "ping error: ".to_owned();
                s.append(cause.as_str());
                s
            },
        }
    }

    /// Degrades the error to the text-based recycle error the pool boundary
    /// accepts; the structure is lost here and nowhere else.
    pub fn to_recycle_error(&self) -> (r: RecycleError)
        ensures
            r matches RecycleError::Message(m) && m@ == spec_error_message(*self),
    {
        RecycleError::Message(self.message())
    }
}

impl RecycleError {
    /// The text carried across the pool boundary.
    pub fn message(&self) -> (r: &str)
        ensures
            *self matches RecycleError::Message(m) && r@ == m@,
    {
        match self {
            RecycleError::Message(m) => m.as_str(),
        }
    }
}

} // verus!
