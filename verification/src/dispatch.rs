//! The dispatcher: from a JSON-RPC envelope to the handler of its method,
//! and to the answer or to the outbound call that the answer waits for.

use crate::cache::CacheView;
use crate::error::{DynExecuteError, ExecuteFailure};
use crate::handler::{
    initialize_wire, list_tools_wire, InitializeProtocol, ListToolsProtocol,
    NotificationInitializedProtocol, Requestx, Responsex,
};
use crate::json::{opt_text, Json, JsonValue};
use crate::method::{method_named, ProtocolMethod};
use crate::protocol::{
    call_request_shape, empty_request_shape, init_request_shape, notification_shape,
    InitResponse, ListToolsResponse, ToolCallResponse,
};
use crate::status::is_success;
use crate::tool_call::{
    planned_call, CallPlan, CallToolProtocol, HttpOutcome, OutboundCall,
};
use vstd::prelude::*;

verus! {

/// The answer of a handler.
#[derive(Debug)]
pub enum McpResponse {
    Initialize(InitResponse),
    ListTools(ListToolsResponse),
    CallTool(ToolCallResponse),
    /// A notification was accepted: there is no body.
    Accepted,
}

impl McpResponse {
    /// The JSON form of the answer, if it has a body.
    pub open spec fn wire(&self) -> Option<JsonValue> {
        match self {
            McpResponse::Initialize(r) => Some(r.wire()),
            McpResponse::ListTools(r) => Some(r.wire()),
            McpResponse::CallTool(r) => Some(r.wire()),
            McpResponse::Accepted => None,
        }
    }

    /// The answer as a JSON document, if it has a body.
    pub fn to_json(&self) -> (r: Option<Json>)
        ensures
            r is Some <==> self.wire() is Some,
            r matches Some(j) ==> self.wire() == Some(j@),
    {
        match self {
            McpResponse::Initialize(r) => Some(r.to_json()),
            McpResponse::ListTools(r) => Some(r.to_json()),
            McpResponse::CallTool(r) => Some(r.to_json()),
            McpResponse::Accepted => None,
        }
    }
}

/// An answer together with what the handler said besides.
#[derive(Debug)]
pub struct DynExecuteResult {
    pub response: McpResponse,
    pub respx: Responsex,
}

/// A tool call that waits for its outbound request to be made: the id and
/// the version of the request, and the call.
#[derive(Debug)]
pub struct PendingToolCall {
    pub id: u64,
    pub jsonrpc: String,
    pub call: OutboundCall,
}

/// Where a request stands after a step of the dispatcher.
#[derive(Debug)]
pub enum DynStep {
    /// The request is answered.
    Done(DynExecuteResult),
    /// The host is to make the outbound call and to hand its outcome to
    /// [`resume_dyn`].
    Outbound(PendingToolCall),
}

/// What a step of the dispatcher comes to.
pub enum Dispatch {
    Fail(ExecuteFailure),
    Answer {
        body: Option<JsonValue>,
        status: u16,
        method: Option<ProtocolMethod>,
        session: Option<Seq<char>>,
    },
    Call { plan: CallPlan, id: u64, jsonrpc: Seq<char> },
}

/// What the outcome of a step stands for.
pub open spec fn step_view(r: Result<DynStep, DynExecuteError>) -> Dispatch {
    match r {
        Err(e) => Dispatch::Fail(e@),
        Ok(DynStep::Done(res)) => Dispatch::Answer {
            body: res.response.wire(),
            status: res.respx.http_status,
            method: res.respx.protocol_method,
            session: opt_text(res.respx.initialize_session_id),
        },
        Ok(DynStep::Outbound(p)) => Dispatch::Call {
            plan: p.call@,
            id: p.id,
            jsonrpc: p.jsonrpc@,
        },
    }
}

/// What the outcome of a resumed tool call stands for.
pub open spec fn result_view(r: Result<DynExecuteResult, DynExecuteError>) -> Dispatch {
    match r {
        Err(e) => Dispatch::Fail(e@),
        Ok(res) => Dispatch::Answer {
            body: res.response.wire(),
            status: res.respx.http_status,
            method: res.respx.protocol_method,
            session: opt_text(res.respx.initialize_session_id),
        },
    }
}

/// The dispatch of an envelope: without a `method` string it fails with
/// `MissingMethod`; with a method that has no handler, with
/// `UnsupportedMethod`; with an envelope that its handler cannot read, with
/// `InvalidRequest`. Otherwise the handler answers, or, for `tools/call`,
/// plans the outbound call, and a tool call that cannot be planned fails
/// with `ExecutionError`. An answer names the method that was answered.
pub open spec fn dispatched(
    doc: JsonValue,
    cache: CacheView,
    ids_id: Seq<char>,
    new_session: Option<Seq<char>>,
) -> Dispatch {
    match doc.str_member("method"@) {
        None => Dispatch::Fail(ExecuteFailure::MissingMethod),
        Some(name) => match method_named(name) {
            None => Dispatch::Fail(ExecuteFailure::UnsupportedMethod(name)),
            Some(ProtocolMethod::Initialize) => if init_request_shape(doc) {
                Dispatch::Answer {
                    body: Some(
                        initialize_wire(
                            doc.u64_member("id"@)->0,
                            doc.get("params"@)->0.str_member("protocolVersion"@)->0,
                        ),
                    ),
                    status: 200,
                    method: Some(ProtocolMethod::Initialize),
                    session: new_session,
                }
            } else {
                Dispatch::Fail(ExecuteFailure::InvalidRequest)
            },
            Some(ProtocolMethod::ToolsList) => if empty_request_shape(doc) {
                Dispatch::Answer {
                    body: Some(
                        list_tools_wire(doc.u64_member("id"@)->0, cache.list_tds_by_ids_id(ids_id)),
                    ),
                    status: 200,
                    method: Some(ProtocolMethod::ToolsList),
                    session: None,
                }
            } else {
                Dispatch::Fail(ExecuteFailure::InvalidRequest)
            },
            Some(ProtocolMethod::NotificationsInitialized) => if notification_shape(doc) {
                Dispatch::Answer {
                    body: None,
                    status: 202,
                    method: Some(ProtocolMethod::NotificationsInitialized),
                    session: None,
                }
            } else {
                Dispatch::Fail(ExecuteFailure::InvalidRequest)
            },
            Some(ProtocolMethod::ToolsCall) => if call_request_shape(doc) {
                match planned_call(
                    cache,
                    doc.get("params"@)->0.str_member("name"@)->0,
                    doc.get("params"@)->0.map_member("arguments"@)->0,
                ) {
                    Ok(plan) => Dispatch::Call {
                        plan,
                        id: doc.u64_member("id"@)->0,
                        jsonrpc: doc.str_member("jsonrpc"@)->0,
                    },
                    Err(f) => Dispatch::Fail(ExecuteFailure::ExecutionError(f.message())),
                }
            } else {
                Dispatch::Fail(ExecuteFailure::InvalidRequest)
            },
        },
    }
}

/// The JSON form of the answer to a tool call.
pub open spec fn tool_result_wire(id: u64, jsonrpc: Seq<char>, status: u16, body: Seq<char>)
    -> JsonValue {
    crate::protocol::response_wire(
        id,
        jsonrpc,
        JsonValue::Object(
            seq![
                ("isError"@, JsonValue::Bool(!is_success(status))),
                (
                    "content"@,
                    JsonValue::Array(seq![crate::protocol::content_wire("text"@, body)]),
                ),
            ],
        ),
    )
}

/// The end of a tool call: the remote answer, whatever its status, becomes
/// the result; an outbound call that had no answer fails with
/// `ExecutionError`.
pub open spec fn resumed(id: u64, jsonrpc: Seq<char>, outcome: HttpOutcome) -> Dispatch {
    match outcome {
        HttpOutcome::Response { status, body } => Dispatch::Answer {
            body: Some(tool_result_wire(id, jsonrpc, status, body@)),
            status: 200,
            method: Some(ProtocolMethod::ToolsCall),
            session: None,
        },
        HttpOutcome::Failed { message } => Dispatch::Fail(
            ExecuteFailure::ExecutionError(message@),
        ),
    }
}

/// The handler of a method name, if the name has one.
pub fn get_protocol(method: &str) -> (r: Option<ProtocolMethod>)
    ensures
        r == method_named(method@),
{
    match ProtocolMethod::from_str(method) {
        Ok(m) => Some(m),
        Err(_) => None,
    }
}

/// Takes a request one step: to its answer, or to the outbound call that a
/// tool call waits for.
pub fn execute_dyn(jsonrpc_request: &Json, reqx: &Requestx) -> (r: Result<DynStep, DynExecuteError>)
    ensures
        step_view(r) == dispatched(
            jsonrpc_request@,
            reqx.mcp_cache@,
            reqx.ids_id@,
            opt_text(reqx.new_session_id),
        ),
{
    let name = match jsonrpc_request.str_member("method") {
        Some(name) => name,
        None => {
            return Err(DynExecuteError::MissingMethod);
        },
    };
    let method = match get_protocol(name.as_str()) {
        Some(method) => method,
        None => {
            return Err(DynExecuteError::UnsupportedMethod(name));
        },
    };
    match method {
        ProtocolMethod::Initialize => {
            let handler = InitializeProtocol;
            let req = match handler.cast(jsonrpc_request) {
                Some(req) => req,
                None => {
                    return Err(DynExecuteError::InvalidRequest);
                },
            };
            match handler.call(req, reqx) {
                Ok((response, respx)) => Ok(
                    DynStep::Done(
                        DynExecuteResult {
                            response: McpResponse::Initialize(response),
                            respx: Responsex { protocol_method: Some(method), ..respx },
                        },
                    ),
                ),
                Err(cause) => Err(DynExecuteError::ExecutionError(cause)),
            }
        },
        ProtocolMethod::ToolsList => {
            let handler = ListToolsProtocol;
            let req = match handler.cast(jsonrpc_request) {
                Some(req) => req,
                None => {
                    return Err(DynExecuteError::InvalidRequest);
                },
            };
            match handler.call(req, reqx) {
                Ok((response, respx)) => Ok(
                    DynStep::Done(
                        DynExecuteResult {
                            response: McpResponse::ListTools(response),
                            respx: Responsex { protocol_method: Some(method), ..respx },
                        },
                    ),
                ),
                Err(cause) => Err(DynExecuteError::ExecutionError(cause)),
            }
        },
        ProtocolMethod::NotificationsInitialized => {
            let handler = NotificationInitializedProtocol;
            let req = match handler.cast(jsonrpc_request) {
                Some(req) => req,
                None => {
                    return Err(DynExecuteError::InvalidRequest);
                },
            };
            match handler.call(req, reqx) {
                Ok((_, respx)) => Ok(
                    DynStep::Done(
                        DynExecuteResult {
                            response: McpResponse::Accepted,
                            respx: Responsex { protocol_method: Some(method), ..respx },
                        },
                    ),
                ),
                Err(cause) => Err(DynExecuteError::ExecutionError(cause)),
            }
        },
        ProtocolMethod::ToolsCall => {
            let handler = CallToolProtocol;
            let req = match handler.cast(jsonrpc_request) {
                Some(req) => req,
                None => {
                    return Err(DynExecuteError::InvalidRequest);
                },
            };
            match handler.prepare(&req, reqx) {
                Ok(call) => Ok(
                    DynStep::Outbound(PendingToolCall { id: req.id, jsonrpc: req.jsonrpc, call }),
                ),
                Err(e) => Err(DynExecuteError::ExecutionError(e.message())),
            }
        },
    }
}

/// Ends a tool call with the outcome of its outbound request.
pub fn resume_dyn(pending: PendingToolCall, outcome: HttpOutcome) -> (r: Result<
    DynExecuteResult,
    DynExecuteError,
>)
    ensures
        result_view(r) == resumed(pending.id, pending.jsonrpc@, outcome),
{
    let handler = CallToolProtocol;
    match handler.finish(pending.id, pending.jsonrpc, outcome) {
        Ok((response, respx)) => {
            proof {
                assert(response.result.wire() =~= JsonValue::Object(
                    seq![
                        ("isError"@, JsonValue::Bool(response.result.is_error)),
                        (
                            "content"@,
                            JsonValue::Array(
                                seq![
                                    crate::protocol::content_wire(
                                        "text"@,
                                        response.result.content@[0].text@,
                                    ),
                                ],
                            ),
                        ),
                    ],
                )) by {
                    assert(crate::protocol::contents_wire(response.result.content@) =~= seq![
                        crate::protocol::content_wire("text"@, response.result.content@[0].text@),
                    ]);
                }
            }
            Ok(
                DynExecuteResult {
                    response: McpResponse::CallTool(response),
                    respx: Responsex { protocol_method: Some(ProtocolMethod::ToolsCall), ..respx },
                },
            )
        },
        Err(e) => Err(DynExecuteError::ExecutionError(e.message())),
    }
}

} // verus!
