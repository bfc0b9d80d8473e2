//! The ways in which a protocol request fails.

use crate::status::DynMCPHttpStatus;
use crate::text::joined;
use vstd::prelude::*;

verus! {

/// Why a protocol request was not answered.
#[derive(Debug, PartialEq, Eq)]
pub enum DynExecuteError {
    /// The instance named in the URL is not in the catalog.
    IdsNotFound,
    /// A request other than `initialize` came without a session id.
    MissingMcpSessionId,
    /// The envelope has no `method`.
    MissingMethod,
    /// No handler is registered for the method.
    UnsupportedMethod(String),
    /// The envelope does not have the shape the handler expects.
    InvalidRequest,
    /// The handler failed; the text says why.
    ExecutionError(String),
}

/// What a [`DynExecuteError`] stands for.
pub enum ExecuteFailure {
    IdsNotFound,
    MissingMcpSessionId,
    MissingMethod,
    UnsupportedMethod(Seq<char>),
    InvalidRequest,
    ExecutionError(Seq<char>),
}

impl View for DynExecuteError {
    type V = ExecuteFailure;

    open spec fn view(&self) -> ExecuteFailure {
        match self {
            DynExecuteError::IdsNotFound => ExecuteFailure::IdsNotFound,
            DynExecuteError::MissingMcpSessionId => ExecuteFailure::MissingMcpSessionId,
            DynExecuteError::MissingMethod => ExecuteFailure::MissingMethod,
            DynExecuteError::UnsupportedMethod(m) => ExecuteFailure::UnsupportedMethod(m@),
            DynExecuteError::InvalidRequest => ExecuteFailure::InvalidRequest,
            DynExecuteError::ExecutionError(cause) => ExecuteFailure::ExecutionError(cause@),
        }
    }
}

impl ExecuteFailure {
    /// The status under which the error is reported.
    pub open spec fn status(self) -> DynMCPHttpStatus {
        match self {
            ExecuteFailure::IdsNotFound => DynMCPHttpStatus::NotFound,
            ExecuteFailure::MissingMcpSessionId => DynMCPHttpStatus::NotFound,
            ExecuteFailure::MissingMethod => DynMCPHttpStatus::BadRequest,
            ExecuteFailure::UnsupportedMethod(_) => DynMCPHttpStatus::NotFound,
            ExecuteFailure::InvalidRequest => DynMCPHttpStatus::BadRequest,
            ExecuteFailure::ExecutionError(_) => DynMCPHttpStatus::InternalServerError,
        }
    }

    /// The text with which the error is reported.
    pub open spec fn message(self) -> Seq<char> {
        match self {
            ExecuteFailure::IdsNotFound => "iDS not found"@,
            ExecuteFailure::MissingMcpSessionId => "Missing 'Mcp-Session-Id' field in headers"@,
            ExecuteFailure::MissingMethod => "Missing 'method' field in request"@,
            ExecuteFailure::UnsupportedMethod(m) => "Unsupported method: "@ + m,
            ExecuteFailure::InvalidRequest => "Invalid request format"@,
            ExecuteFailure::ExecutionError(cause) => "Execution error: "@ + cause,
        }
    }
}

impl DynExecuteError {
    pub fn status(&self) -> (r: DynMCPHttpStatus)
        ensures
            r == self@.status(),
    {
        match self {
            DynExecuteError::IdsNotFound => DynMCPHttpStatus::NotFound,
            DynExecuteError::MissingMcpSessionId => DynMCPHttpStatus::NotFound,
            DynExecuteError::MissingMethod => DynMCPHttpStatus::BadRequest,
            DynExecuteError::UnsupportedMethod(_) => DynMCPHttpStatus::NotFound,
            DynExecuteError::InvalidRequest => DynMCPHttpStatus::BadRequest,
            DynExecuteError::ExecutionError(_) => DynMCPHttpStatus::InternalServerError,
        }
    }

    pub fn message(&self) -> (r: String)
        ensures
            r@ == self@.message(),
    {
        match self {
            DynExecuteError::IdsNotFound => "iDS not found".to_string(),
            DynExecuteError::MissingMcpSessionId => "Missing 'Mcp-Session-Id' field in headers".to_string(),
            DynExecuteError::MissingMethod => "Missing 'method' field in request".to_string(),
            DynExecuteError::UnsupportedMethod(m) => joined("Unsupported method: ", m.as_str()),
            DynExecuteError::InvalidRequest => "Invalid request format".to_string(),
            DynExecuteError::ExecutionError(cause) => joined("Execution error: ", cause.as_str()),
        }
    }
}

} // verus!
