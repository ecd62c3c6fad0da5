//! Failure taxonomy and error text.
//!
//! Every failure is terminal for the invocation: it is reported once, on
//! standard error, and the process exits nonzero. A runtime rejection keeps
//! the runtime's own text verbatim and names the attempted operation and its
//! target; a connection failure suggests checking that the runtime is up.

use vstd::prelude::*;
use vstd::string::StringExecFns;
use crate::router::UsageError;
use crate::router::usage_message;
use crate::router::usage_message_spec;

verus! {

/// The runtime API call in which a failure happened.
#[derive(Clone, Copy, PartialEq, Eq, Structural, Debug)]
pub enum Operation {
    ListContainers,
    PullImage,
    CreateContainer,
    StartContainer,
    StopContainer,
    FetchLogs,
    CreateExec,
    StartExec,
}

/// The phrase naming each operation in error text.
pub open spec fn operation_name_spec(op: Operation) -> Seq<char> {
    match op {
        Operation::ListContainers => "list containers"@,
        Operation::PullImage => "pull image"@,
        Operation::CreateContainer => "create container"@,
        Operation::StartContainer => "start container"@,
        Operation::StopContainer => "stop container"@,
        Operation::FetchLogs => "fetch logs for"@,
        Operation::CreateExec => "create exec in"@,
        Operation::StartExec => "start exec"@,
    }
}

pub fn operation_name(op: &Operation) -> (r: String)
    ensures
        r@ == operation_name_spec(*op),
{
    match op {
        Operation::ListContainers => "list containers".to_owned(),
        Operation::PullImage => "pull image".to_owned(),
        Operation::CreateContainer => "create container".to_owned(),
        Operation::StartContainer => "start container".to_owned(),
        Operation::StopContainer => "stop container".to_owned(),
        Operation::FetchLogs => "fetch logs for".to_owned(),
        Operation::CreateExec => "create exec in".to_owned(),
        Operation::StartExec => "start exec".to_owned(),
    }
}

/// Text for a request the runtime rejected: the attempted operation, its
/// target, and the runtime's own error text verbatim.
pub open spec fn api_error_message_spec(op: Operation, target: Seq<char>, detail: Seq<char>) -> Seq<
    char,
> {
    operation_name_spec(op) + " "@ + target + ": "@ + detail
}

pub fn api_error_message(op: &Operation, target: &str, detail: &str) -> (r: String)
    ensures
        r@ == api_error_message_spec(*op, target@, detail@),
{
    operation_name(op).concat(" ").concat(target).concat(": ").concat(detail)
}

/// Text for an unreachable runtime endpoint, with the underlying detail.
pub open spec fn connection_error_message_spec(detail: Seq<char>) -> Seq<char> {
    "cannot reach the container runtime (is it running?): "@ + detail
}

pub fn connection_error_message(detail: &str) -> (r: String)
    ensures
        r@ == connection_error_message_spec(detail@),
{
    "cannot reach the container runtime (is it running?): ".to_owned().concat(detail)
}

/// A terminal failure of one invocation.
pub enum CliError {
    /// Malformed or missing command-line arguments, caught before any
    /// runtime call.
    Usage { error: UsageError },
    /// The runtime's management endpoint could not be reached.
    Connection { detail: String },
    /// The runtime rejected a request.
    Api { op: Operation, target: String, detail: String },
}

/// The single line reported on standard error for a failure.
pub open spec fn cli_error_message_spec(e: CliError) -> Seq<char> {
    match e {
        CliError::Usage { error } => usage_message_spec(error),
        CliError::Connection { detail } => connection_error_message_spec(detail@),
        CliError::Api { op, target, detail } => api_error_message_spec(op, target@, detail@),
    }
}

impl CliError {
    pub fn message(&self) -> (r: String)
        ensures
            r@ == cli_error_message_spec(*self),
    {
        match self {
            CliError::Usage { error } => usage_message(error),
            CliError::Connection { detail } => connection_error_message(detail.as_str()),
            CliError::Api { op, target, detail } => api_error_message(
                op,
                target.as_str(),
                detail.as_str(),
            ),
        }
    }
}

} // verus!
