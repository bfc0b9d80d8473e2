//! The handlers of `initialize`, `tools/list` and
//! `notifications/initialized`, with what a handler is given besides the
//! request and what it gives back besides the response.

use crate::cache::{tools_view, McpCache};
use crate::json::{object_of, opt_text, Json, JsonValue};
use crate::method::ProtocolMethod;
use crate::protocol::{
    empty_request_read, empty_request_shape, init_request_read, init_request_shape,
    notification_read, notification_shape, response_wire, tool_wire, tools_wire,
    CapabilityResponse, InitRequest, InitResponse, InitResult, ListToolsRequest,
    ListToolsResponse, NotificationsInitializedRequest, RpcResult, ServerInfo, Tool,
    ToolCapability, JSONRPC_VERSION, SERVER_NAME, SERVER_VERSION,
};
use crate::xds::TdsView;
use vstd::prelude::*;

verus! {

/// What a handler gives back besides the response.
#[derive(Debug, PartialEq, Eq)]
pub struct Responsex {
    /// The HTTP status of the answer.
    pub http_status: u16,
    /// The method that was answered.
    pub protocol_method: Option<ProtocolMethod>,
    /// The id of the session that `initialize` opened, if it opened one.
    pub initialize_session_id: Option<String>,
}

impl Responsex {
    pub fn default() -> (r: Responsex)
        ensures
            r.http_status == 200,
            r.protocol_method is None,
            r.initialize_session_id is None,
    {
        Responsex { http_status: 200, protocol_method: None, initialize_session_id: None }
    }

    pub fn accepted() -> (r: Responsex)
        ensures
            r.http_status == 202,
            r.protocol_method is None,
            r.initialize_session_id is None,
    {
        Responsex { http_status: 202, protocol_method: None, initialize_session_id: None }
    }
}

/// What a handler is given besides the request.
pub struct Requestx<'a> {
    /// The catalog.
    pub mcp_cache: &'a McpCache,
    /// The instance named in the URL.
    pub ids_id: &'a str,
    /// A fresh session id that `initialize` may hand out, where the host
    /// offers one.
    pub new_session_id: Option<String>,
}

/// The answer to `initialize`, in its JSON form: the client's protocol
/// version, the gateway's capabilities, and the gateway's name and version.
pub open spec fn initialize_wire(id: u64, version: Seq<char>) -> JsonValue {
    response_wire(
        id,
        "2.0"@,
        JsonValue::Object(
            seq![
                ("protocolVersion"@, JsonValue::Str(version)),
                (
                    "capabilities"@,
                    JsonValue::Object(
                        seq![
                            (
                                "tools"@,
                                JsonValue::Object(seq![("listChanged"@, JsonValue::Bool(false))]),
                            ),
                            ("logging"@, JsonValue::Object(Seq::empty())),
                        ],
                    ),
                ),
                (
                    "serverInfo"@,
                    JsonValue::Object(
                        seq![
                            ("name"@, JsonValue::Str("mcprust"@)),
                            ("version"@, JsonValue::Str("1.0.0"@)),
                        ],
                    ),
                ),
            ],
        ),
    )
}

/// The JSON forms of a list of catalog tools as a client sees them.
pub open spec fn listed_wire(tools: Seq<TdsView>) -> Seq<JsonValue> {
    Seq::new(
        tools.len(),
        |i: int| tool_wire(tools[i].description, tools[i].input_schema, tools[i].name),
    )
}

/// The answer to `tools/list`, in its JSON form.
pub open spec fn list_tools_wire(id: u64, tools: Seq<TdsView>) -> JsonValue {
    response_wire(
        id,
        "2.0"@,
        JsonValue::Object(seq![("tools"@, JsonValue::Array(listed_wire(tools)))]),
    )
}

/// The handler of `initialize`.
#[derive(Debug, Clone, Copy, PartialEq, Eq, Structural)]
pub struct InitializeProtocol;

/// The handler of `tools/list`.
#[derive(Debug, Clone, Copy, PartialEq, Eq, Structural)]
pub struct ListToolsProtocol;

/// The handler of `notifications/initialized`.
#[derive(Debug, Clone, Copy, PartialEq, Eq, Structural)]
pub struct NotificationInitializedProtocol;

impl InitializeProtocol {
    /// Reads the request from its envelope.
    pub fn cast(&self, value: &Json) -> (r: Option<InitRequest>)
        ensures
            r is Some <==> init_request_shape(value@),
            r matches Some(q) ==> init_request_read(q, value@),
    {
        InitRequest::from_json(value)
    }

    /// Answers with the client's protocol version, the capabilities of the
    /// gateway and its name and version. The catalog is neither read nor
    /// changed. The session id that the host offers, if any, is handed out.
    pub fn call(&self, req: InitRequest, reqx: &Requestx) -> (r: Result<
        (InitResponse, Responsex),
        String,
    >)
        ensures
            r matches Ok((resp, respx)) && resp.wire() == initialize_wire(
                req.id,
                req.params.version@,
            ) && respx.http_status == 200 && respx.protocol_method is None && opt_text(
                respx.initialize_session_id,
            ) == opt_text(reqx.new_session_id),
    {
        let response = InitResponse {
            jsonrpc: JSONRPC_VERSION.to_string(),
            id: req.id,
            result: InitResult {
                version: req.params.version,
                capabilities: CapabilityResponse {
                    tools: Some(ToolCapability { list_changed: false }),
                    logging: object_of(Vec::new()),
                },
                server: ServerInfo {
                    name: SERVER_NAME.to_string(),
                    version: SERVER_VERSION.to_string(),
                },
            },
        };
        let session = match &reqx.new_session_id {
            Some(id) => Some(id.clone()),
            None => None,
        };
        let respx = Responsex {
            http_status: 200,
            protocol_method: None,
            initialize_session_id: session,
        };
        proof {
            assert(response.result.capabilities.logging@ == JsonValue::Object(Seq::empty())) by {
                assert(crate::json::members_view(Seq::<(String, Json)>::empty()) =~= Seq::empty());
            }
            assert(response.result.capabilities.wire() =~= JsonValue::Object(
                seq![
                    ("tools"@, JsonValue::Object(seq![("listChanged"@, JsonValue::Bool(false))])),
                    ("logging"@, JsonValue::Object(Seq::empty())),
                ],
            ));
        }
        Ok((response, respx))
    }
}

impl ListToolsProtocol {
    /// Reads the request from its envelope.
    pub fn cast(&self, value: &Json) -> (r: Option<ListToolsRequest>)
        ensures
            r is Some <==> empty_request_shape(value@),
            r matches Some(q) ==> empty_request_read(q, value@),
    {
        ListToolsRequest::from_json(value)
    }

    /// Answers with the tools of the instance, in the order of its
    /// `tool_ids`, without those that the catalog does not hold.
    pub fn call(&self, req: ListToolsRequest, reqx: &Requestx) -> (r: Result<
        (ListToolsResponse, Responsex),
        String,
    >)
        ensures
            r matches Ok((resp, respx)) && resp.wire() == list_tools_wire(
                req.id,
                reqx.mcp_cache@.list_tds_by_ids_id(reqx.ids_id@),
            ) && respx.http_status == 200 && respx.protocol_method is None
                && respx.initialize_session_id is None,
    {
        let found = reqx.mcp_cache.list_tds_by_ids_id(reqx.ids_id);
        let ghost listed = reqx.mcp_cache@.list_tds_by_ids_id(reqx.ids_id@);
        let mut tools: Vec<Tool> = Vec::new();
        let mut i: usize = 0;
        while i < found.len()
            invariant
                i <= found@.len(),
                tools@.len() == i,
                tools_view(found@) == listed,
                forall|j: int| 0 <= j < i ==> tools@[j].wire() == listed_wire(listed)[j],
            decreases found@.len() - i,
        {
            assert(tools_view(found@)[i as int] == found@[i as int]@);
            tools.push(Tool::from(found[i].clone()));
            i += 1;
        }
        assert(tools_wire(tools@) =~= listed_wire(listed));
        let response = ListToolsResponse {
            result: RpcResult { tools },
            jsonrpc: JSONRPC_VERSION.to_string(),
            id: req.id,
        };
        Ok((response, Responsex::default()))
    }
}

impl NotificationInitializedProtocol {
    /// Reads the notification from its envelope.
    pub fn cast(&self, value: &Json) -> (r: Option<NotificationsInitializedRequest>)
        ensures
            r is Some <==> notification_shape(value@),
            r matches Some(q) ==> notification_read(q, value@),
    {
        NotificationsInitializedRequest::from_json(value)
    }

    /// Accepts the notification: there is nothing to answer, and the status
    /// is 202.
    pub fn call(&self, req: NotificationsInitializedRequest, reqx: &Requestx) -> (r: Result<
        ((), Responsex),
        String,
    >)
        ensures
            r matches Ok((_, respx)) && respx.http_status == 202 && respx.protocol_method is None
                && respx.initialize_session_id is None,
    {
        Ok(((), Responsex::accepted()))
    }
}

} // verus!
