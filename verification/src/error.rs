//! The error taxonomy: configuration failures, transport/response failures,
//! and aggregated per-run failures.

use vstd::prelude::*;
use vstd::string::*;
use crate::http::ClientError;
use crate::text::{join_strings, join_with};

verus! {

/// What kind of failure an [`Error`] carries.
#[derive(Debug)]
pub enum Kind {
    /// Startup validation failed; the message joins every violation, one
    /// line per violated input.
    Config(String),
    /// A transport or response failure, kept whole as the cause.
    Response(ClientError),
    /// One action's run recorded failures; one message per failed
    /// invocation, in occurrence order.
    Run(Vec<String>),
}

/// An error value surfaced by the harness.
#[derive(Debug)]
pub struct Error {
    pub kind: Kind,
}

/// The message text of an error.
pub open spec fn error_message(e: Error) -> Seq<char> {
    match e.kind {
        Kind::Config(m) => m@,
        Kind::Response(c) => c.message@,
        Kind::Run(msgs) => join_with(msgs.deep_view(), "\n"@),
    }
}

impl Error {
    /// A configuration error with the given aggregate message.
    pub fn config(err: String) -> (e: Error)
        ensures
            e.kind matches Kind::Config(m) && m == err,
    {
        Error { kind: Kind::Config(err) }
    }

    /// A run error carrying the per-invocation failure messages.
    pub fn run(errs: Vec<String>) -> (e: Error)
        ensures
            e.kind matches Kind::Run(m) && m == errs,
    {
        Error { kind: Kind::Run(errs) }
    }

    /// The error's kind.
    pub fn kind(&self) -> (k: &Kind)
        ensures
            k == &self.kind,
    {
        &self.kind
    }

    /// The human-readable message: the aggregate text of a configuration
    /// error, the cause's message of a response error, and the failure
    /// messages of a run error joined line by line.
    pub fn message(&self) -> (m: String)
        ensures
            m@ == error_message(*self),
    {
        match &self.kind {
            Kind::Config(err) => err.clone(),
            Kind::Response(err) => err.message.clone(),
            Kind::Run(errs) => join_strings(errs, "\n"),
        }
    }
}

impl From<ClientError> for Error {
    /// Wraps a transport failure, preserving it as the cause.
    fn from(err: ClientError) -> (e: Error) {
        Error { kind: Kind::Response(err) }
    }
}

impl vstd::std_specs::convert::FromSpecImpl<ClientError> for Error {
    open spec fn obeys_from_spec() -> bool {
        true
    }

    open spec fn from_spec(err: ClientError) -> Error {
        Error { kind: Kind::Response(err) }
    }
}

} // verus!
