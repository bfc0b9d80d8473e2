//! The transport adapter: from a POST on an instance to the answer, its
//! shape and its headers.

use crate::cache::{CacheView, McpCache};
use crate::dispatch::{
    dispatched, execute_dyn, resume_dyn, resumed, Dispatch, DynExecuteResult, DynStep,
    PendingToolCall,
};
use crate::error::{DynExecuteError, ExecuteFailure};
use crate::handler::Requestx;
use crate::headers::{
    header_value_ok, list_view, valid_header_value, HeaderError, HeaderFailure,
};
use crate::json::{
    json_text, opt_json, opt_text, parse_json, parsed_json, render_json, Json, JsonValue,
};
use crate::method::{lemma_method_name_round_trip, method_named, ProtocolMethod};
use crate::protocol::{call_request_shape, notification_shape};
use crate::rest::{RestAPIError, RestFailure};
use crate::session::StreamableSession;
use crate::tool_call::{CallPlan, HttpOutcome};
use vstd::prelude::*;

verus! {

/// The header that carries the session id, in both directions.
pub const MCP_SESSION_ID: &'static str = "Mcp-Session-Id";

/// The header that tells the protocol revision of the transport.
pub const MCP_PROTOCOL_VERSION: &'static str = "Mcp-Protocol-Version";

/// The protocol revision of the transport.
pub const MCP_PROTOCOL_VERSION_VALUE: &'static str = "2025-06-18";

/// The header that echoes the method that was answered.
pub const DYNMCP_PROTOCOL_METHOD: &'static str = "Dynmcp-Protocol-Method";

/// The header that tells the transport variant of the instance.
pub const DYNMCP_PROTOCOL_TYPE: &'static str = "Dynmcp-Protocol-Type";

/// The transport variant of an instance.
#[derive(Debug, PartialEq, Eq)]
pub enum IdsProtoType {
    StreamableStateless,
    StreamableStateful,
    Other(String),
}

/// What an [`IdsProtoType`] stands for.
pub enum ProtoKind {
    Stateless,
    Stateful,
    Other(Seq<char>),
}

/// The transport variant that a name selects.
pub open spec fn proto_named(s: Seq<char>) -> ProtoKind {
    if s == "streamable-stateless"@ {
        ProtoKind::Stateless
    } else if s == "streamable-stateful"@ {
        ProtoKind::Stateful
    } else {
        ProtoKind::Other(s)
    }
}

impl View for IdsProtoType {
    type V = ProtoKind;

    open spec fn view(&self) -> ProtoKind {
        match self {
            IdsProtoType::StreamableStateless => ProtoKind::Stateless,
            IdsProtoType::StreamableStateful => ProtoKind::Stateful,
            IdsProtoType::Other(s) => ProtoKind::Other(s@),
        }
    }
}

impl IdsProtoType {
    /// The transport variant that `s` selects.
    pub fn from(s: &str) -> (r: IdsProtoType)
        ensures
            r@ == proto_named(s@),
    {
        if *s == *"streamable-stateless" {
            IdsProtoType::StreamableStateless
        } else if *s == *"streamable-stateful" {
            IdsProtoType::StreamableStateful
        } else {
            IdsProtoType::Other(s.to_string())
        }
    }
}

/// What the `metadata` of an instance says.
#[derive(Debug, PartialEq, Eq)]
pub struct IDSMetadata {
    pub proto_type: String,
}

/// The variant name that a metadata document gives: its string member
/// `proto_type`.
pub open spec fn metadata_proto(doc: Option<JsonValue>) -> Option<Seq<char>> {
    match doc {
        Some(d) => d.str_member("proto_type"@),
        None => None,
    }
}

impl IDSMetadata {
    /// Reads the metadata from a document.
    pub fn from_json(doc: Option<Json>) -> (r: Option<IDSMetadata>)
        ensures
            r is Some <==> metadata_proto(opt_json(doc)) is Some,
            r matches Some(m) ==> Some(m.proto_type@) == metadata_proto(opt_json(doc)),
    {
        match doc {
            Some(d) => match d.str_member("proto_type") {
                Some(proto_type) => Some(IDSMetadata { proto_type }),
                None => None,
            },
            None => None,
        }
    }

    /// Reads the metadata from its text.
    pub fn parse(text: &str) -> (r: Option<IDSMetadata>)
        ensures
            r is Some <==> metadata_proto(parsed_json(text@)) is Some,
            r matches Some(m) ==> Some(m.proto_type@) == metadata_proto(parsed_json(text@)),
    {
        IDSMetadata::from_json(parse_json(text))
    }
}

/// An answer with a status and a body, sent as plain JSON.
#[derive(Debug, PartialEq, Eq)]
pub struct JSONRpcResponse {
    pub status: u16,
    pub body: String,
}

/// The status of a plain answer: the one asked for where it is a status
/// code at all, and 200 otherwise.
pub open spec fn reply_status(asked: u16) -> u16 {
    if 100 <= asked < 1000 {
        asked
    } else {
        200
    }
}

impl JSONRpcResponse {
    pub fn new(body: String) -> (r: JSONRpcResponse)
        ensures
            r.status == 200,
            r.body@ == body@,
    {
        JSONRpcResponse { status: 200, body }
    }

    pub fn with_u16_status(u16_status: u16, body: String) -> (r: JSONRpcResponse)
        ensures
            r.status == reply_status(u16_status),
            r.body@ == body@,
    {
        let status = if 100 <= u16_status && u16_status < 1000 {
            u16_status
        } else {
            200
        };
        JSONRpcResponse { status, body }
    }
}

/// How an answer is sent.
#[derive(Debug, Clone, Copy, PartialEq, Eq, Structural)]
pub enum ReplyShape {
    /// As a plain JSON body.
    Json,
    /// As a stream of one server-sent event.
    SseOnce,
}

/// A session that is to be stored.
#[derive(Debug, PartialEq, Eq)]
pub struct SessionWrite {
    pub session_id: String,
    pub session: StreamableSession,
}

/// The answer to a POST.
#[derive(Debug, PartialEq, Eq)]
pub struct PostReply {
    pub shape: ReplyShape,
    pub status: u16,
    pub body: String,
    pub headers: Vec<(String, String)>,
    pub session: Option<SessionWrite>,
}

/// What a [`PostReply`] stands for.
pub struct ReplyView {
    pub shape: ReplyShape,
    pub status: u16,
    pub body: Seq<char>,
    pub headers: Seq<(Seq<char>, Seq<char>)>,
    /// The id and the instance of the session to store.
    pub session: Option<(Seq<char>, Seq<char>)>,
}

impl View for PostReply {
    type V = ReplyView;

    open spec fn view(&self) -> ReplyView {
        ReplyView {
            shape: self.shape,
            status: self.status,
            body: self.body@,
            headers: list_view(self.headers@),
            session: match self.session {
                Some(w) => Some((w.session_id@, w.session.ids_id@)),
                None => None,
            },
        }
    }
}

/// A POST whose tool call waits for its outbound request.
#[derive(Debug)]
pub struct PendingPost {
    pub pending: PendingToolCall,
    pub proto_type: String,
    pub session_id: Option<String>,
    pub ids_id: String,
}

/// Where a POST stands after a step.
#[derive(Debug)]
pub enum PostStep {
    Reply(PostReply),
    /// The host is to make the outbound call and to hand its outcome to
    /// [`mcp_post_resume`].
    Outbound(PendingPost),
}

/// What a step of a POST comes to.
pub enum Posted {
    Fail(RestFailure),
    Reply(ReplyView),
    Outbound {
        plan: CallPlan,
        id: u64,
        jsonrpc: Seq<char>,
        proto_type: Seq<char>,
        session_id: Option<Seq<char>>,
        ids_id: Seq<char>,
    },
}

/// The text that is sent for a body: the JSON text of the body, and
/// nothing where there is no body.
pub open spec fn body_text(body: Option<JsonValue>) -> Seq<char> {
    match body {
        Some(b) => json_text(b),
        None => Seq::empty(),
    }
}

/// The session id of an answer: the one that `initialize` handed out,
/// else the one that the request brought, else the empty text.
pub open spec fn outgoing_session(handed_out: Option<Seq<char>>, brought: Option<Seq<char>>) -> Seq<
    char,
> {
    match handed_out {
        Some(s) => s,
        None => match brought {
            Some(s) => s,
            None => Seq::empty(),
        },
    }
}

/// The failure with which a header whose value is refused is reported.
pub open spec fn bad_header(name: Seq<char>) -> RestFailure {
    RestFailure { error: HeaderFailure::InvalidValue(name).message(), status: 500 }
}

/// The answer to a POST that the dispatcher has answered, on an instance
/// of the variant `proto_type`, for a request that brought the session id
/// `brought`.
///
/// An answer that names no method fails with `MissingMethod`. A variant
/// name that cannot be a header value fails with status 500. A method other
/// than `initialize` without a session id fails with `MissingMcpSessionId`
/// on the stateless variant. An outgoing session id that cannot be a header
/// value fails with status 500. Otherwise the answer is sent as plain JSON
/// with the handler's status on the stateless variant, and as a stream of
/// one event on every other; it carries the four headers; and an
/// `initialize` on the stateful variant stores a session for the instance
/// under the outgoing session id.
pub open spec fn replied(
    body: Option<JsonValue>,
    status: u16,
    method: Option<ProtocolMethod>,
    handed_out: Option<Seq<char>>,
    proto_type: Seq<char>,
    brought: Option<Seq<char>>,
    ids_id: Seq<char>,
) -> Result<ReplyView, RestFailure> {
    match method {
        None => Err(RestFailure::for_json_rpc(ExecuteFailure::MissingMethod)),
        Some(m) => {
            let kind = proto_named(proto_type);
            let session_id = outgoing_session(handed_out, brought);
            if !valid_header_value(proto_type) {
                Err(bad_header("Dynmcp-Protocol-Type"@))
            } else if m != ProtocolMethod::Initialize && brought is None && kind is Stateless {
                Err(RestFailure::for_json_rpc(ExecuteFailure::MissingMcpSessionId))
            } else if !valid_header_value(session_id) {
                Err(bad_header("Mcp-Session-Id"@))
            } else {
                Ok(
                    ReplyView {
                        shape: if kind is Stateless {
                            ReplyShape::Json
                        } else {
                            ReplyShape::SseOnce
                        },
                        status: if kind is Stateless {
                            reply_status(status)
                        } else {
                            200
                        },
                        body: body_text(body),
                        headers: seq![
                            ("Mcp-Protocol-Version"@, "2025-06-18"@),
                            ("Dynmcp-Protocol-Method"@, m.name()),
                            ("Dynmcp-Protocol-Type"@, proto_type),
                            ("Mcp-Session-Id"@, session_id),
                        ],
                        session: if m == ProtocolMethod::Initialize && kind is Stateful {
                            Some((session_id, ids_id))
                        } else {
                            None
                        },
                    },
                )
            }
        },
    }
}

/// What the outcome of an answered POST stands for.
pub open spec fn reply_view(r: Result<PostReply, RestAPIError>) -> Result<ReplyView, RestFailure> {
    match r {
        Ok(reply) => Ok(reply@),
        Err(e) => Err(e@),
    }
}

/// What the outcome of a step of a POST stands for.
pub open spec fn post_view(r: Result<PostStep, RestAPIError>) -> Posted {
    match r {
        Err(e) => Posted::Fail(e@),
        Ok(PostStep::Reply(reply)) => Posted::Reply(reply@),
        Ok(PostStep::Outbound(p)) => Posted::Outbound {
            plan: p.pending.call@,
            id: p.pending.id,
            jsonrpc: p.pending.jsonrpc@,
            proto_type: p.proto_type@,
            session_id: opt_text(p.session_id),
            ids_id: p.ids_id@,
        },
    }
}

/// The failure with which metadata that gives no variant is reported.
pub open spec fn bad_metadata() -> RestFailure {
    RestFailure { error: "Invalid IDS metadata"@, status: 500 }
}

/// A POST on an instance whose metadata document is `metadata`: metadata
/// that gives no variant fails with status 500; a request that the
/// dispatcher fails is reported under the status of its error; a tool call
/// waits for its outbound request; every other request is answered.
pub open spec fn posted_with(
    cache: CacheView,
    ids_id: Seq<char>,
    metadata: Option<JsonValue>,
    doc: JsonValue,
    brought: Option<Seq<char>>,
    new_session: Option<Seq<char>>,
) -> Posted {
    match metadata_proto(metadata) {
        None => Posted::Fail(bad_metadata()),
        Some(proto_type) => match dispatched(doc, cache, ids_id, new_session) {
            Dispatch::Fail(f) => Posted::Fail(RestFailure::for_json_rpc(f)),
            Dispatch::Call { plan, id, jsonrpc } => Posted::Outbound {
                plan,
                id,
                jsonrpc,
                proto_type,
                session_id: brought,
                ids_id,
            },
            Dispatch::Answer { body, status, method, session } => match replied(
                body,
                status,
                method,
                session,
                proto_type,
                brought,
                ids_id,
            ) {
                Ok(reply) => Posted::Reply(reply),
                Err(f) => Posted::Fail(f),
            },
        },
    }
}

/// A POST on the instance `ids_id`: an instance that the catalog does not
/// hold fails with `IdsNotFound`; otherwise the metadata of the instance is
/// read as JSON and the request goes on as [`posted_with`] says.
pub open spec fn posted(
    cache: CacheView,
    ids_id: Seq<char>,
    doc: JsonValue,
    brought: Option<Seq<char>>,
    new_session: Option<Seq<char>>,
) -> Posted {
    match cache.get_ids(ids_id) {
        None => Posted::Fail(RestFailure::for_json_rpc(ExecuteFailure::IdsNotFound)),
        Some(ids) => posted_with(
            cache,
            ids_id,
            parsed_json(ids.metadata),
            doc,
            brought,
            new_session,
        ),
    }
}

/// A POST whose tool call has had its outcome.
pub open spec fn post_resumed(
    id: u64,
    jsonrpc: Seq<char>,
    proto_type: Seq<char>,
    brought: Option<Seq<char>>,
    ids_id: Seq<char>,
    outcome: HttpOutcome,
) -> Result<ReplyView, RestFailure> {
    match resumed(id, jsonrpc, outcome) {
        Dispatch::Answer { body, status, method, session } => replied(
            body,
            status,
            method,
            session,
            proto_type,
            brought,
            ids_id,
        ),
        Dispatch::Fail(f) => Err(RestFailure::for_json_rpc(f)),
        Dispatch::Call { .. } => Err(RestFailure::for_json_rpc(ExecuteFailure::InvalidRequest)),
    }
}

/// Packages the answer of the dispatcher for the client.
pub fn finish_post(
    result: DynExecuteResult,
    proto_type: &str,
    session_id: Option<String>,
    ids_id: &str,
) -> (r: Result<PostReply, RestAPIError>)
    ensures
        reply_view(r) == replied(
            result.response.wire(),
            result.respx.http_status,
            result.respx.protocol_method,
            opt_text(result.respx.initialize_session_id),
            proto_type@,
            opt_text(session_id),
            ids_id@,
        ),
{
    let kind = IdsProtoType::from(proto_type);
    let stateless = match kind {
        IdsProtoType::StreamableStateless => true,
        _ => false,
    };
    let stateful = match kind {
        IdsProtoType::StreamableStateful => true,
        _ => false,
    };
    let method = match result.respx.protocol_method {
        Some(m) => m,
        None => {
            return Err(RestAPIError::for_json_rpc(DynExecuteError::MissingMethod));
        },
    };
    let body = match result.response.to_json() {
        Some(doc) => render_json(&doc),
        None => String::new(),
    };
    let is_init = match method {
        ProtocolMethod::Initialize => true,
        _ => false,
    };
    if !header_value_ok(proto_type) {
        let e = HeaderError::InvalidValue(DYNMCP_PROTOCOL_TYPE.to_string());
        return Err(RestAPIError::internal(e.message()));
    }
    if !is_init && session_id.is_none() && stateless {
        return Err(RestAPIError::for_json_rpc(DynExecuteError::MissingMcpSessionId));
    }
    let resp_session_id = match result.respx.initialize_session_id {
        Some(s) => s,
        None => match session_id {
            Some(s) => s,
            None => String::new(),
        },
    };
    if !header_value_ok(resp_session_id.as_str()) {
        let e = HeaderError::InvalidValue(MCP_SESSION_ID.to_string());
        return Err(RestAPIError::internal(e.message()));
    }
    let mut headers: Vec<(String, String)> = Vec::new();
    headers.push((MCP_PROTOCOL_VERSION.to_string(), MCP_PROTOCOL_VERSION_VALUE.to_string()));
    headers.push((DYNMCP_PROTOCOL_METHOD.to_string(), method.to_string()));
    headers.push((DYNMCP_PROTOCOL_TYPE.to_string(), proto_type.to_string()));
    headers.push((MCP_SESSION_ID.to_string(), resp_session_id.clone()));
    let session = if is_init && stateful {
        Some(
            SessionWrite {
                session_id: resp_session_id,
                session: StreamableSession { ids_id: ids_id.to_string() },
            },
        )
    } else {
        None
    };
    let reply = if stateless {
        let plain = JSONRpcResponse::with_u16_status(result.respx.http_status, body);
        PostReply {
            shape: ReplyShape::Json,
            status: plain.status,
            body: plain.body,
            headers,
            session,
        }
    } else {
        PostReply { shape: ReplyShape::SseOnce, status: 200, body, headers, session }
    };
    proof {
        assert(reply@.headers =~= seq![
            ("Mcp-Protocol-Version"@, "2025-06-18"@),
            ("Dynmcp-Protocol-Method"@, method.name()),
            ("Dynmcp-Protocol-Type"@, proto_type@),
            ("Mcp-Session-Id"@, resp_session_id@),
        ]);
    }
    Ok(reply)
}

/// Takes a POST on an instance whose metadata has been read one step.
pub fn mcp_post_with(
    cache: &McpCache,
    ids_id: &str,
    metadata: Option<Json>,
    jsonrpc_request: &Json,
    session_id: Option<String>,
    new_session_id: Option<String>,
) -> (r: Result<PostStep, RestAPIError>)
    ensures
        post_view(r) == posted_with(
            cache@,
            ids_id@,
            opt_json(metadata),
            jsonrpc_request@,
            opt_text(session_id),
            opt_text(new_session_id),
        ),
{
    let ids_metadata = match IDSMetadata::from_json(metadata) {
        Some(m) => m,
        None => {
            return Err(RestAPIError::internal("Invalid IDS metadata".to_string()));
        },
    };
    let reqx = Requestx { mcp_cache: cache, ids_id, new_session_id };
    match execute_dyn(jsonrpc_request, &reqx) {
        Err(e) => Err(RestAPIError::for_json_rpc(e)),
        Ok(DynStep::Outbound(pending)) => Ok(
            PostStep::Outbound(
                PendingPost {
                    pending,
                    proto_type: ids_metadata.proto_type,
                    session_id,
                    ids_id: ids_id.to_string(),
                },
            ),
        ),
        Ok(DynStep::Done(result)) => match finish_post(
            result,
            ids_metadata.proto_type.as_str(),
            session_id,
            ids_id,
        ) {
            Ok(reply) => Ok(PostStep::Reply(reply)),
            Err(e) => Err(e),
        },
    }
}

/// Takes a POST on the instance `ids_id` one step: to its answer, or to
/// the outbound call that a tool call waits for.
pub fn mcp_post(
    cache: &McpCache,
    ids_id: &str,
    jsonrpc_request: &Json,
    session_id: Option<String>,
    new_session_id: Option<String>,
) -> (r: Result<PostStep, RestAPIError>)
    ensures
        post_view(r) == posted(
            cache@,
            ids_id@,
            jsonrpc_request@,
            opt_text(session_id),
            opt_text(new_session_id),
        ),
{
    let ids = match cache.get_ids(ids_id) {
        Some(ids) => ids,
        None => {
            return Err(RestAPIError::for_json_rpc(DynExecuteError::IdsNotFound));
        },
    };
    let metadata = parse_json(ids.metadata.as_str());
    mcp_post_with(cache, ids_id, metadata, jsonrpc_request, session_id, new_session_id)
}

/// Ends a POST with the outcome of the outbound request of its tool call.
pub fn mcp_post_resume(pending: PendingPost, outcome: HttpOutcome) -> (r: Result<
    PostReply,
    RestAPIError,
>)
    ensures
        reply_view(r) == post_resumed(
            pending.pending.id,
            pending.pending.jsonrpc@,
            pending.proto_type@,
            opt_text(pending.session_id),
            pending.ids_id@,
            outcome,
        ),
{
    match resume_dyn(pending.pending, outcome) {
        Ok(result) => finish_post(
            result,
            pending.proto_type.as_str(),
            pending.session_id,
            pending.ids_id.as_str(),
        ),
        Err(e) => Err(RestAPIError::for_json_rpc(e)),
    }
}

/// The answer to `initialize` depends on the request alone: whatever the
/// catalog, the instance and the session id on offer, the same envelope has
/// the same body, status and method, or fails in the same way.
pub proof fn lemma_initialize_is_idempotent(
    doc: JsonValue,
    cache1: CacheView,
    ids1: Seq<char>,
    session1: Option<Seq<char>>,
    cache2: CacheView,
    ids2: Seq<char>,
    session2: Option<Seq<char>>,
)
    requires
        doc.str_member("method"@) == Some("initialize"@),
    ensures
        match dispatched(doc, cache1, ids1, session1) {
            Dispatch::Answer { body, status, method, session } => dispatched(
                doc,
                cache2,
                ids2,
                session2,
            ) == (Dispatch::Answer { body, status, method, session: session2 }) && session
                == session1,
            other => dispatched(doc, cache2, ids2, session2) == other,
        },
{
}

/// A notification that the client is initialized is answered without a
/// body and with status 202; and where the transport answers it on the
/// stateless variant, the answer it sends has no body and status 202.
pub proof fn lemma_initialized_is_accepted(
    doc: JsonValue,
    cache: CacheView,
    ids_id: Seq<char>,
    new_session: Option<Seq<char>>,
    proto_type: Seq<char>,
    brought: Option<Seq<char>>,
)
    requires
        doc.str_member("method"@) == Some("notifications/initialized"@),
        notification_shape(doc),
    ensures
        dispatched(doc, cache, ids_id, new_session) == (Dispatch::Answer {
            body: None,
            status: 202,
            method: Some(ProtocolMethod::NotificationsInitialized),
            session: None,
        }),
        replied(
            None,
            202,
            Some(ProtocolMethod::NotificationsInitialized),
            None,
            proto_type,
            brought,
            ids_id,
        ) matches Ok(reply) ==> reply.body.len() == 0 && (proto_named(proto_type) is Stateless
            ==> reply.status == 202),
{
    lemma_method_name_round_trip(ProtocolMethod::NotificationsInitialized);
}

/// A request for a method without a handler is reported with status 404
/// and the name of the method.
pub proof fn lemma_unknown_method_is_not_found(
    cache: CacheView,
    ids_id: Seq<char>,
    metadata: Option<JsonValue>,
    doc: JsonValue,
    brought: Option<Seq<char>>,
    new_session: Option<Seq<char>>,
)
    requires
        metadata_proto(metadata) is Some,
        doc.str_member("method"@) is Some,
        method_named(doc.str_member("method"@)->0) is None,
    ensures
        posted_with(cache, ids_id, metadata, doc, brought, new_session) == Posted::Fail(
            RestFailure {
                error: "Unsupported method: "@ + doc.str_member("method"@)->0,
                status: 404,
            },
        ),
{
}

/// A request without a method is reported with status 400.
pub proof fn lemma_missing_method_is_bad_request(
    cache: CacheView,
    ids_id: Seq<char>,
    metadata: Option<JsonValue>,
    doc: JsonValue,
    brought: Option<Seq<char>>,
    new_session: Option<Seq<char>>,
)
    requires
        metadata_proto(metadata) is Some,
        doc.str_member("method"@) is None,
    ensures
        posted_with(cache, ids_id, metadata, doc, brought, new_session) == Posted::Fail(
            RestFailure { error: "Missing 'method' field in request"@, status: 400 },
        ),
{
}

/// A call of a tool that the catalog does not know by name is reported
/// with status 500 and a message that names the tool.
pub proof fn lemma_unknown_tool_is_execution_error(
    cache: CacheView,
    ids_id: Seq<char>,
    metadata: Option<JsonValue>,
    doc: JsonValue,
    brought: Option<Seq<char>>,
    new_session: Option<Seq<char>>,
)
    requires
        metadata_proto(metadata) is Some,
        doc.str_member("method"@) == Some("tools/call"@),
        call_request_shape(doc),
        cache.get_tds_by_name(doc.get("params"@)->0.str_member("name"@)->0) is None,
    ensures
        posted_with(cache, ids_id, metadata, doc, brought, new_session) == Posted::Fail(
            RestFailure {
                error: "Execution error: "@ + ("TDS not found for name: "@ + doc.get(
                    "params"@,
                )->0.str_member("name"@)->0),
                status: 500,
            },
        ),
{
    lemma_method_name_round_trip(ProtocolMethod::ToolsCall);
}

/// On the stateless variant, an answer to a method other than `initialize`
/// for a request that brought no session id is reported with status 404
/// and a message that names the missing header.
pub proof fn lemma_missing_session_is_not_found(
    body: Option<JsonValue>,
    status: u16,
    method: ProtocolMethod,
    handed_out: Option<Seq<char>>,
    ids_id: Seq<char>,
)
    requires
        method != ProtocolMethod::Initialize,
    ensures
        replied(
            body,
            status,
            Some(method),
            handed_out,
            "streamable-stateless"@,
            None,
            ids_id,
        ) == Err::<ReplyView, RestFailure>(
            RestFailure { error: "Missing 'Mcp-Session-Id' field in headers"@, status: 404 },
        ),
{
    reveal_strlit("streamable-stateless");
    assert(valid_header_value("streamable-stateless"@));
}

} // verus!
