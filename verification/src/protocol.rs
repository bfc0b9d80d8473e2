//! The JSON-RPC envelopes of the protocol and their JSON form.

use crate::json::{
    array_of, items_view, members_view, object_of, push_member, Json, JsonValue, Members,
};
use crate::xds::TDS;
use vstd::prelude::*;

verus! {

/// The JSON-RPC version that the gateway speaks.
pub const JSONRPC_VERSION: &'static str = "2.0";

/// The name under which the gateway introduces itself.
pub const SERVER_NAME: &'static str = "mcprust";

/// The version under which the gateway introduces itself.
pub const SERVER_VERSION: &'static str = "1.0.0";

/// The protocol revision that the gateway implements.
pub const PROTOCOL_VERSION: &'static str = "2025-03-26";

/// A request with an id and parameters.
#[derive(Debug)]
pub struct ProtocolRequest<T> {
    pub id: u64,
    pub method: String,
    pub jsonrpc: String,
    pub params: T,
}

/// A notification: a request without an id.
#[derive(Debug)]
pub struct ProtocolNotificationRequest {
    pub method: String,
    pub jsonrpc: String,
}

/// A request with an id and no parameters.
#[derive(Debug)]
pub struct ProtocolEmptyRequest {
    pub id: u64,
    pub method: String,
    pub jsonrpc: String,
}

/// A response to the request with the same id.
#[derive(Debug)]
pub struct ProtocolResponse<T> {
    pub id: u64,
    pub jsonrpc: String,
    pub result: T,
}

/// The parameters of `initialize`.
#[derive(Debug)]
pub struct InitParams {
    pub version: String,
    pub capabilities: CapabilityRequest,
    pub client: ClientInfo,
}

/// The result of `initialize`.
#[derive(Debug)]
pub struct InitResult {
    pub version: String,
    pub capabilities: CapabilityResponse,
    pub server: ServerInfo,
}

/// What the client says it can do.
#[derive(Debug)]
pub struct CapabilityRequest {
    pub resources: Json,
    pub tools: Json,
    pub prompts: Json,
}

/// What the gateway says it can do.
#[derive(Debug)]
pub struct CapabilityResponse {
    pub tools: Option<ToolCapability>,
    pub logging: Json,
}

#[derive(Debug, Clone, Copy, PartialEq, Eq, Structural)]
pub struct ToolCapability {
    pub list_changed: bool,
}

#[derive(Debug)]
pub struct ClientInfo {
    pub name: String,
    pub version: String,
}

#[derive(Debug)]
pub struct ServerInfo {
    pub name: String,
    pub version: String,
}

/// The result of `tools/list`.
#[derive(Debug)]
pub struct RpcResult {
    pub tools: Vec<Tool>,
}

/// A tool as a client sees it.
#[derive(Debug)]
pub struct Tool {
    pub description: String,
    pub input_schema: Vec<(String, Json)>,
    pub name: String,
}

/// The parameters of `tools/call`.
#[derive(Debug)]
pub struct ToolCallParams {
    pub name: String,
    pub arguments: Vec<(String, Json)>,
}

/// The result of `tools/call`.
#[derive(Debug)]
pub struct ToolCallResult {
    pub is_error: bool,
    pub content: Vec<ToolContent>,
}

#[derive(Debug)]
pub struct ToolContent {
    pub content_type: String,
    pub text: String,
}

#[derive(Debug, Clone, Copy, PartialEq, Eq, Structural)]
pub struct EmptyParams;

pub type InitRequest = ProtocolRequest<InitParams>;

pub type InitResponse = ProtocolResponse<InitResult>;

pub type ToolCallRequest = ProtocolRequest<ToolCallParams>;

pub type ToolCallResponse = ProtocolResponse<ToolCallResult>;

pub type NotificationsInitializedRequest = ProtocolNotificationRequest;

pub type ListToolsRequest = ProtocolEmptyRequest;

pub type ListToolsResponse = ProtocolResponse<RpcResult>;

/// The JSON form of a response envelope with the given result.
pub open spec fn response_wire(id: u64, jsonrpc: Seq<char>, result: JsonValue) -> JsonValue {
    JsonValue::Object(
        seq![
            ("id"@, JsonValue::Unsigned(id)),
            ("jsonrpc"@, JsonValue::Str(jsonrpc)),
            ("result"@, result),
        ],
    )
}

/// The JSON form of a tool capability, and `null` where there is none.
pub open spec fn tool_capability_wire(c: Option<ToolCapability>) -> JsonValue {
    match c {
        Some(c) => JsonValue::Object(seq![("listChanged"@, JsonValue::Bool(c.list_changed))]),
        None => JsonValue::Null,
    }
}

/// The JSON form of a tool as a client sees it.
pub open spec fn tool_wire(description: Seq<char>, input_schema: Members, name: Seq<char>)
    -> JsonValue {
    JsonValue::Object(
        seq![
            ("description"@, JsonValue::Str(description)),
            ("inputSchema"@, JsonValue::Object(input_schema)),
            ("name"@, JsonValue::Str(name)),
        ],
    )
}

/// The JSON form of one piece of content.
pub open spec fn content_wire(content_type: Seq<char>, text: Seq<char>) -> JsonValue {
    JsonValue::Object(
        seq![("type"@, JsonValue::Str(content_type)), ("text"@, JsonValue::Str(text))],
    )
}

impl ServerInfo {
    pub open spec fn wire(&self) -> JsonValue {
        JsonValue::Object(
            seq![
                ("name"@, JsonValue::Str(self.name@)),
                ("version"@, JsonValue::Str(self.version@)),
            ],
        )
    }

    pub fn to_json(&self) -> (r: Json)
        ensures
            r@ == self.wire(),
    {
        let mut m: Vec<(String, Json)> = Vec::new();
        push_member(&mut m, "name", Json::string(self.name.as_str()));
        push_member(&mut m, "version", Json::string(self.version.as_str()));
        assert(members_view(m@) =~= seq![
            ("name"@, JsonValue::Str(self.name@)),
            ("version"@, JsonValue::Str(self.version@)),
        ]);
        object_of(m)
    }
}

impl CapabilityResponse {
    pub open spec fn wire(&self) -> JsonValue {
        JsonValue::Object(
            seq![("tools"@, tool_capability_wire(self.tools)), ("logging"@, self.logging@)],
        )
    }

    pub fn to_json(&self) -> (r: Json)
        ensures
            r@ == self.wire(),
    {
        let tools = match self.tools {
            Some(c) => {
                let mut t: Vec<(String, Json)> = Vec::new();
                push_member(&mut t, "listChanged", Json::Bool(c.list_changed));
                assert(members_view(t@) =~= seq![("listChanged"@, JsonValue::Bool(c.list_changed))]);
                object_of(t)
            },
            None => Json::Null,
        };
        let mut m: Vec<(String, Json)> = Vec::new();
        push_member(&mut m, "tools", tools);
        push_member(&mut m, "logging", self.logging.clone());
        assert(members_view(m@) =~= seq![
            ("tools"@, tool_capability_wire(self.tools)),
            ("logging"@, self.logging@),
        ]);
        object_of(m)
    }
}

impl InitResult {
    pub open spec fn wire(&self) -> JsonValue {
        JsonValue::Object(
            seq![
                ("protocolVersion"@, JsonValue::Str(self.version@)),
                ("capabilities"@, self.capabilities.wire()),
                ("serverInfo"@, self.server.wire()),
            ],
        )
    }

    pub fn to_json(&self) -> (r: Json)
        ensures
            r@ == self.wire(),
    {
        let mut m: Vec<(String, Json)> = Vec::new();
        push_member(&mut m, "protocolVersion", Json::string(self.version.as_str()));
        push_member(&mut m, "capabilities", self.capabilities.to_json());
        push_member(&mut m, "serverInfo", self.server.to_json());
        assert(members_view(m@) =~= seq![
            ("protocolVersion"@, JsonValue::Str(self.version@)),
            ("capabilities"@, self.capabilities.wire()),
            ("serverInfo"@, self.server.wire()),
        ]);
        object_of(m)
    }
}

impl Tool {
    pub open spec fn wire(&self) -> JsonValue {
        tool_wire(self.description@, members_view(self.input_schema@), self.name@)
    }

    /// The tool as a client sees it: the name, the description and the input
    /// schema of the catalog record.
    pub fn from(tds: TDS) -> (r: Tool)
        ensures
            r.wire() == tool_wire(tds@.description, tds@.input_schema, tds@.name),
    {
        Tool { description: tds.description, input_schema: tds.input_schema, name: tds.name }
    }

    pub fn to_json(&self) -> (r: Json)
        ensures
            r@ == self.wire(),
    {
        let mut m: Vec<(String, Json)> = Vec::new();
        push_member(&mut m, "description", Json::string(self.description.as_str()));
        push_member(&mut m, "inputSchema", Json::object(&self.input_schema));
        push_member(&mut m, "name", Json::string(self.name.as_str()));
        assert(members_view(m@) =~= seq![
            ("description"@, JsonValue::Str(self.description@)),
            ("inputSchema"@, JsonValue::Object(members_view(self.input_schema@))),
            ("name"@, JsonValue::Str(self.name@)),
        ]);
        object_of(m)
    }
}

/// The JSON forms of a list of tools.
pub open spec fn tools_wire(tools: Seq<Tool>) -> Seq<JsonValue> {
    Seq::new(tools.len(), |i: int| tools[i].wire())
}

impl RpcResult {
    pub open spec fn wire(&self) -> JsonValue {
        JsonValue::Object(seq![("tools"@, JsonValue::Array(tools_wire(self.tools@)))])
    }

    pub fn to_json(&self) -> (r: Json)
        ensures
            r@ == self.wire(),
    {
        let mut items: Vec<Json> = Vec::new();
        let mut i: usize = 0;
        while i < self.tools.len()
            invariant
                i <= self.tools@.len(),
                items@.len() == i,
                forall|j: int| 0 <= j < i ==> items@[j]@ == self.tools@[j].wire(),
            decreases self.tools@.len() - i,
        {
            items.push(self.tools[i].to_json());
            i += 1;
        }
        assert(items_view(items@) =~= tools_wire(self.tools@));
        let mut m: Vec<(String, Json)> = Vec::new();
        push_member(&mut m, "tools", array_of(items));
        assert(members_view(m@) =~= seq![("tools"@, JsonValue::Array(tools_wire(self.tools@)))]);
        object_of(m)
    }
}

impl ToolContent {
    pub open spec fn wire(&self) -> JsonValue {
        content_wire(self.content_type@, self.text@)
    }

    pub fn to_json(&self) -> (r: Json)
        ensures
            r@ == self.wire(),
    {
        let mut m: Vec<(String, Json)> = Vec::new();
        push_member(&mut m, "type", Json::string(self.content_type.as_str()));
        push_member(&mut m, "text", Json::string(self.text.as_str()));
        assert(members_view(m@) =~= seq![
            ("type"@, JsonValue::Str(self.content_type@)),
            ("text"@, JsonValue::Str(self.text@)),
        ]);
        object_of(m)
    }
}

/// The JSON forms of a list of content.
pub open spec fn contents_wire(content: Seq<ToolContent>) -> Seq<JsonValue> {
    Seq::new(content.len(), |i: int| content[i].wire())
}

impl ToolCallResult {
    pub open spec fn wire(&self) -> JsonValue {
        JsonValue::Object(
            seq![
                ("isError"@, JsonValue::Bool(self.is_error)),
                ("content"@, JsonValue::Array(contents_wire(self.content@))),
            ],
        )
    }

    pub fn to_json(&self) -> (r: Json)
        ensures
            r@ == self.wire(),
    {
        let mut items: Vec<Json> = Vec::new();
        let mut i: usize = 0;
        while i < self.content.len()
            invariant
                i <= self.content@.len(),
                items@.len() == i,
                forall|j: int| 0 <= j < i ==> items@[j]@ == self.content@[j].wire(),
            decreases self.content@.len() - i,
        {
            items.push(self.content[i].to_json());
            i += 1;
        }
        assert(items_view(items@) =~= contents_wire(self.content@));
        let mut m: Vec<(String, Json)> = Vec::new();
        push_member(&mut m, "isError", Json::Bool(self.is_error));
        push_member(&mut m, "content", array_of(items));
        assert(members_view(m@) =~= seq![
            ("isError"@, JsonValue::Bool(self.is_error)),
            ("content"@, JsonValue::Array(contents_wire(self.content@))),
        ]);
        object_of(m)
    }
}

/// The response envelope around an encoded result.
pub fn response_to_json(id: u64, jsonrpc: &str, result: Json) -> (r: Json)
    ensures
        r@ == response_wire(id, jsonrpc@, result@),
{
    let mut m: Vec<(String, Json)> = Vec::new();
    push_member(&mut m, "id", Json::Unsigned(id));
    push_member(&mut m, "jsonrpc", Json::string(jsonrpc));
    push_member(&mut m, "result", result);
    assert(members_view(m@) =~= seq![
        ("id"@, JsonValue::Unsigned(id)),
        ("jsonrpc"@, JsonValue::Str(jsonrpc@)),
        ("result"@, result@),
    ]);
    object_of(m)
}

impl ProtocolResponse<InitResult> {
    pub open spec fn wire(&self) -> JsonValue {
        response_wire(self.id, self.jsonrpc@, self.result.wire())
    }

    pub fn to_json(&self) -> (r: Json)
        ensures
            r@ == self.wire(),
    {
        response_to_json(self.id, self.jsonrpc.as_str(), self.result.to_json())
    }
}

impl ProtocolResponse<RpcResult> {
    pub open spec fn wire(&self) -> JsonValue {
        response_wire(self.id, self.jsonrpc@, self.result.wire())
    }

    pub fn to_json(&self) -> (r: Json)
        ensures
            r@ == self.wire(),
    {
        response_to_json(self.id, self.jsonrpc.as_str(), self.result.to_json())
    }
}

impl ProtocolResponse<ToolCallResult> {
    pub open spec fn wire(&self) -> JsonValue {
        response_wire(self.id, self.jsonrpc@, self.result.wire())
    }

    pub fn to_json(&self) -> (r: Json)
        ensures
            r@ == self.wire(),
    {
        response_to_json(self.id, self.jsonrpc.as_str(), self.result.to_json())
    }
}

/// An envelope of a request without parameters has an id, a method and a
/// version.
pub open spec fn empty_request_shape(doc: JsonValue) -> bool {
    &&& doc.u64_member("id"@) is Some
    &&& doc.str_member("method"@) is Some
    &&& doc.str_member("jsonrpc"@) is Some
}

/// An envelope of a notification has a method and a version.
pub open spec fn notification_shape(doc: JsonValue) -> bool {
    &&& doc.str_member("method"@) is Some
    &&& doc.str_member("jsonrpc"@) is Some
}

/// The capabilities of a client name its resources, tools and prompts.
pub open spec fn capabilities_shape(c: JsonValue) -> bool {
    &&& c.get("resources"@) is Some
    &&& c.get("tools"@) is Some
    &&& c.get("prompts"@) is Some
}

/// A client introduces itself with a name and a version.
pub open spec fn client_shape(c: JsonValue) -> bool {
    &&& c.str_member("name"@) is Some
    &&& c.str_member("version"@) is Some
}

/// The parameters of `initialize` give the protocol version, the
/// capabilities and the client.
pub open spec fn init_params_shape(p: JsonValue) -> bool {
    &&& p.str_member("protocolVersion"@) is Some
    &&& p.get("capabilities"@) is Some
    &&& capabilities_shape(p.get("capabilities"@)->0)
    &&& p.get("clientInfo"@) is Some
    &&& client_shape(p.get("clientInfo"@)->0)
}

/// An `initialize` envelope has an id, a method, a version and parameters of
/// the right shape.
pub open spec fn init_request_shape(doc: JsonValue) -> bool {
    &&& empty_request_shape(doc)
    &&& doc.get("params"@) is Some
    &&& init_params_shape(doc.get("params"@)->0)
}

/// The parameters of `tools/call` name the tool and give the arguments as
/// an object.
pub open spec fn call_params_shape(p: JsonValue) -> bool {
    &&& p.str_member("name"@) is Some
    &&& p.map_member("arguments"@) is Some
}

/// A `tools/call` envelope has an id, a method, a version and parameters of
/// the right shape.
pub open spec fn call_request_shape(doc: JsonValue) -> bool {
    &&& empty_request_shape(doc)
    &&& doc.get("params"@) is Some
    &&& call_params_shape(doc.get("params"@)->0)
}

/// `q` holds what the envelope `doc` of a request without parameters says.
pub open spec fn empty_request_read(q: ProtocolEmptyRequest, doc: JsonValue) -> bool {
    &&& q.id == doc.u64_member("id"@)->0
    &&& q.method@ == doc.str_member("method"@)->0
    &&& q.jsonrpc@ == doc.str_member("jsonrpc"@)->0
}

/// `q` holds what the envelope `doc` of a notification says.
pub open spec fn notification_read(q: ProtocolNotificationRequest, doc: JsonValue) -> bool {
    &&& q.method@ == doc.str_member("method"@)->0
    &&& q.jsonrpc@ == doc.str_member("jsonrpc"@)->0
}

/// `p` holds what the parameters `doc` of `initialize` say.
pub open spec fn init_params_read(p: InitParams, doc: JsonValue) -> bool {
    &&& p.version@ == doc.str_member("protocolVersion"@)->0
    &&& p.capabilities.resources@ == doc.get("capabilities"@)->0.get("resources"@)->0
    &&& p.capabilities.tools@ == doc.get("capabilities"@)->0.get("tools"@)->0
    &&& p.capabilities.prompts@ == doc.get("capabilities"@)->0.get("prompts"@)->0
    &&& p.client.name@ == doc.get("clientInfo"@)->0.str_member("name"@)->0
    &&& p.client.version@ == doc.get("clientInfo"@)->0.str_member("version"@)->0
}

/// `q` holds what the `initialize` envelope `doc` says.
pub open spec fn init_request_read(q: InitRequest, doc: JsonValue) -> bool {
    &&& q.id == doc.u64_member("id"@)->0
    &&& q.method@ == doc.str_member("method"@)->0
    &&& q.jsonrpc@ == doc.str_member("jsonrpc"@)->0
    &&& init_params_read(q.params, doc.get("params"@)->0)
}

/// `q` holds what the `tools/call` envelope `doc` says.
pub open spec fn call_request_read(q: ToolCallRequest, doc: JsonValue) -> bool {
    &&& q.id == doc.u64_member("id"@)->0
    &&& q.method@ == doc.str_member("method"@)->0
    &&& q.jsonrpc@ == doc.str_member("jsonrpc"@)->0
    &&& q.params.name@ == doc.get("params"@)->0.str_member("name"@)->0
    &&& members_view(q.params.arguments@) == doc.get("params"@)->0.map_member(
        "arguments"@,
    )->0
}

impl ProtocolEmptyRequest {
    /// Reads the envelope of a request without parameters.
    pub fn from_json(doc: &Json) -> (r: Option<ProtocolEmptyRequest>)
        ensures
            r is Some <==> empty_request_shape(doc@),
            r matches Some(q) ==> empty_request_read(q, doc@),
    {
        let id = doc.u64_member("id")?;
        let method = doc.str_member("method")?;
        let jsonrpc = doc.str_member("jsonrpc")?;
        Some(ProtocolEmptyRequest { id, method, jsonrpc })
    }
}

impl ProtocolNotificationRequest {
    /// Reads the envelope of a notification.
    pub fn from_json(doc: &Json) -> (r: Option<ProtocolNotificationRequest>)
        ensures
            r is Some <==> notification_shape(doc@),
            r matches Some(q) ==> notification_read(q, doc@),
    {
        let method = doc.str_member("method")?;
        let jsonrpc = doc.str_member("jsonrpc")?;
        Some(ProtocolNotificationRequest { method, jsonrpc })
    }
}

impl CapabilityRequest {
    /// Reads the capabilities of a client.
    pub fn from_json(doc: &Json) -> (r: Option<CapabilityRequest>)
        ensures
            r is Some <==> capabilities_shape(doc@),
            r matches Some(c) ==> c.resources@ == doc@.get("resources"@)->0 && c.tools@
                == doc@.get("tools"@)->0 && c.prompts@ == doc@.get("prompts"@)->0,
    {
        let resources = doc.get("resources")?.clone();
        let tools = doc.get("tools")?.clone();
        let prompts = doc.get("prompts")?.clone();
        Some(CapabilityRequest { resources, tools, prompts })
    }
}

impl ClientInfo {
    /// Reads the name and version of a client.
    pub fn from_json(doc: &Json) -> (r: Option<ClientInfo>)
        ensures
            r is Some <==> client_shape(doc@),
            r matches Some(c) ==> c.name@ == doc@.str_member("name"@)->0 && c.version@
                == doc@.str_member("version"@)->0,
    {
        let name = doc.str_member("name")?;
        let version = doc.str_member("version")?;
        Some(ClientInfo { name, version })
    }
}

impl InitParams {
    /// Reads the parameters of `initialize`.
    pub fn from_json(doc: &Json) -> (r: Option<InitParams>)
        ensures
            r is Some <==> init_params_shape(doc@),
            r matches Some(p) ==> init_params_read(p, doc@),
    {
        let version = doc.str_member("protocolVersion")?;
        let capabilities = CapabilityRequest::from_json(doc.get("capabilities")?)?;
        let client = ClientInfo::from_json(doc.get("clientInfo")?)?;
        Some(InitParams { version, capabilities, client })
    }
}

impl ToolCallParams {
    /// Reads the parameters of `tools/call`.
    pub fn from_json(doc: &Json) -> (r: Option<ToolCallParams>)
        ensures
            r is Some <==> call_params_shape(doc@),
            r matches Some(p) ==> p.name@ == doc@.str_member("name"@)->0 && members_view(
                p.arguments@,
            ) == doc@.map_member("arguments"@)->0,
    {
        let name = doc.str_member("name")?;
        let arguments = doc.map_member("arguments")?;
        Some(ToolCallParams { name, arguments })
    }
}

impl ProtocolRequest<InitParams> {
    /// Reads an `initialize` envelope.
    pub fn from_json(doc: &Json) -> (r: Option<InitRequest>)
        ensures
            r is Some <==> init_request_shape(doc@),
            r matches Some(q) ==> init_request_read(q, doc@),
    {
        let id = doc.u64_member("id")?;
        let method = doc.str_member("method")?;
        let jsonrpc = doc.str_member("jsonrpc")?;
        let params = InitParams::from_json(doc.get("params")?)?;
        Some(ProtocolRequest { id, method, jsonrpc, params })
    }
}

impl ProtocolRequest<ToolCallParams> {
    /// Reads a `tools/call` envelope.
    pub fn from_json(doc: &Json) -> (r: Option<ToolCallRequest>)
        ensures
            r is Some <==> call_request_shape(doc@),
            r matches Some(q) ==> call_request_read(q, doc@),
    {
        let id = doc.u64_member("id")?;
        let method = doc.str_member("method")?;
        let jsonrpc = doc.str_member("jsonrpc")?;
        let params = ToolCallParams::from_json(doc.get("params")?)?;
        Some(ProtocolRequest { id, method, jsonrpc, params })
    }
}

} // verus!
