use dynmcp::cache::McpCache;
use dynmcp::datasource::EtcdDataSource;
use dynmcp::dispatch::{DynExecuteResult, McpResponse};
use dynmcp::etcd::{EtcdEventType, EtcdWatchEvent};
use dynmcp::handler::Responsex;
use dynmcp::json::{parse_json, Json};
use dynmcp::method::ProtocolMethod;
use dynmcp::rest::RestAPIError;
use dynmcp::session::StreamableSession;
use dynmcp::tool_call::HttpOutcome;
use dynmcp::transport::{
    finish_post, mcp_post, mcp_post_resume, mcp_post_with, IDSMetadata, IdsProtoType,
    JSONRpcResponse, PostReply, PostStep, ReplyShape, SessionWrite, DYNMCP_PROTOCOL_METHOD,
    DYNMCP_PROTOCOL_TYPE, MCP_PROTOCOL_VERSION, MCP_PROTOCOL_VERSION_VALUE, MCP_SESSION_ID,
};
use dynmcp::xds::{TDSx, IDS, TDS};

const INIT: &str = "{\"jsonrpc\":\"2.0\",\"id\":1,\"method\":\"initialize\",\"params\":{\"protocolVersion\":\"2025-03-26\",\"capabilities\":{\"resources\":{},\"tools\":{},\"prompts\":{}},\"clientInfo\":{\"name\":\"c\",\"version\":\"0\"}}}";
const LIST: &str = "{\"jsonrpc\":\"2.0\",\"id\":2,\"method\":\"tools/list\"}";
const CALL: &str = "{\"jsonrpc\":\"2.0\",\"id\":3,\"method\":\"tools/call\",\"params\":{\"name\":\"echo\",\"arguments\":{\"path\":{\"iid\":\"42\"},\"query\":{\"iid\":\"42\"}}}}";

fn tool(id: &str, name: &str) -> TDS {
    TDS {
        id: id.to_string(),
        name: name.to_string(),
        description: String::new(),
        input_schema: vec![],
        tds_ext_info: TDSx {
            domain: "http://stub".to_string(),
            method: "GET".to_string(),
            path: "/v1/items/{iid}".to_string(),
            required_params: vec![("iid".to_string(), Json::Object(vec![]))],
            ext_info: vec![],
        },
    }
}

fn catalog(metadata: &str) -> McpCache {
    let mut cache = McpCache::new();
    cache.insert_tds("T1".to_string(), tool("T1", "first"));
    cache.insert_tds("T3".to_string(), tool("T3", "echo"));
    cache.insert_ids(
        "IDS_A".to_string(),
        IDS {
            id: "IDS_A".to_string(),
            name: "a".to_string(),
            tool_ids: vec!["T1".to_string(), "T3".to_string(), "Tmissing".to_string()],
            metadata: metadata.to_string(),
        },
    );
    cache
}

fn stateless() -> McpCache {
    catalog("{\"proto_type\":\"streamable-stateless\"}")
}

fn stateful() -> McpCache {
    catalog("{\"proto_type\":\"streamable-stateful\"}")
}

fn post(cache: &McpCache, text: &str, session: Option<&str>) -> Result<PostStep, RestAPIError> {
    mcp_post(cache, "IDS_A", &parse_json(text).unwrap(), session.map(|s| s.to_string()), None)
}

fn reply(step: Result<PostStep, RestAPIError>) -> PostReply {
    match step {
        Ok(PostStep::Reply(r)) => r,
        other => panic!("not answered: {:?}", other),
    }
}

fn header<'a>(reply: &'a PostReply, name: &str) -> Option<&'a str> {
    reply.headers.iter().find(|(k, _)| k == name).map(|(_, v)| v.as_str())
}

#[test]
fn header_names_of_the_transport() {
    assert_eq!(MCP_SESSION_ID, "Mcp-Session-Id");
    assert_eq!(MCP_PROTOCOL_VERSION, "Mcp-Protocol-Version");
    assert_eq!(MCP_PROTOCOL_VERSION_VALUE, "2025-06-18");
    assert_eq!(DYNMCP_PROTOCOL_METHOD, "Dynmcp-Protocol-Method");
    assert_eq!(DYNMCP_PROTOCOL_TYPE, "Dynmcp-Protocol-Type");
}

#[test]
fn proto_type_from_its_name() {
    assert_eq!(IdsProtoType::from("streamable-stateless"), IdsProtoType::StreamableStateless);
    assert_eq!(IdsProtoType::from("streamable-stateful"), IdsProtoType::StreamableStateful);
    assert_eq!(
        IdsProtoType::from("streamable-statefule"),
        IdsProtoType::Other("streamable-statefule".to_string())
    );
    assert_eq!(IdsProtoType::from(""), IdsProtoType::Other(String::new()));
}

#[test]
fn metadata_is_read_from_its_text() {
    assert_eq!(
        IDSMetadata::parse("{\"proto_type\":\"streamable-stateful\",\"x\":1}"),
        Some(IDSMetadata { proto_type: "streamable-stateful".to_string() })
    );
    assert_eq!(IDSMetadata::parse("{\"proto_type\":5}"), None);
    assert_eq!(IDSMetadata::parse("{}"), None);
    assert_eq!(IDSMetadata::parse("not json"), None);
}

#[test]
fn plain_answers_take_a_status_that_is_one() {
    assert_eq!(JSONRpcResponse::new("b".to_string()), JSONRpcResponse { status: 200, body: "b".to_string() });
    assert_eq!(JSONRpcResponse::with_u16_status(202, String::new()).status, 202);
    assert_eq!(JSONRpcResponse::with_u16_status(100, String::new()).status, 100);
    assert_eq!(JSONRpcResponse::with_u16_status(999, String::new()).status, 999);
    assert_eq!(JSONRpcResponse::with_u16_status(99, String::new()).status, 200);
    assert_eq!(JSONRpcResponse::with_u16_status(1000, String::new()).status, 200);
    assert_eq!(JSONRpcResponse::with_u16_status(0, String::new()).status, 200);
}

#[test]
fn initialize_on_a_stateless_instance() {
    let cache = stateless();
    let r = reply(post(&cache, INIT, None));
    assert_eq!(r.shape, ReplyShape::Json);
    assert_eq!(r.status, 200);
    let body = parse_json(&r.body).unwrap();
    let result = body.get("result").unwrap();
    assert_eq!(
        result.get("serverInfo"),
        parse_json("{\"name\":\"mcprust\",\"version\":\"1.0.0\"}").as_ref()
    );
    assert_eq!(result.str_member("protocolVersion"), Some("2025-03-26".to_string()));
    let capabilities = result.get("capabilities").unwrap();
    assert_eq!(capabilities.get("tools").unwrap().get("listChanged"), Some(&Json::Bool(false)));
    assert_eq!(capabilities.get("logging"), Some(&Json::Object(vec![])));
    assert_eq!(header(&r, "Mcp-Protocol-Version"), Some("2025-06-18"));
    assert_eq!(header(&r, "Dynmcp-Protocol-Type"), Some("streamable-stateless"));
    assert_eq!(header(&r, "Dynmcp-Protocol-Method"), Some("initialize"));
    assert_eq!(header(&r, "Mcp-Session-Id"), Some(""));
    assert_eq!(r.session, None);
}

#[test]
fn the_four_headers_come_in_a_fixed_order() {
    let cache = stateless();
    let r = reply(post(&cache, LIST, Some("abc")));
    assert_eq!(
        r.headers,
        vec![
            ("Mcp-Protocol-Version".to_string(), "2025-06-18".to_string()),
            ("Dynmcp-Protocol-Method".to_string(), "tools/list".to_string()),
            ("Dynmcp-Protocol-Type".to_string(), "streamable-stateless".to_string()),
            ("Mcp-Session-Id".to_string(), "abc".to_string()),
        ]
    );
}

#[test]
fn list_tools_through_the_transport() {
    let cache = stateless();
    let r = reply(post(&cache, LIST, Some("s")));
    let body = parse_json(&r.body).unwrap();
    let tools = body.get("result").unwrap().get("tools").unwrap().as_array().unwrap();
    assert_eq!(tools.len(), 2);
    assert_eq!(tools[0].str_member("name"), Some("first".to_string()));
    assert_eq!(tools[1].str_member("name"), Some("echo".to_string()));
}

#[test]
fn call_tool_through_the_transport() {
    let cache = stateless();
    let pending = match post(&cache, CALL, Some("s")) {
        Ok(PostStep::Outbound(p)) => p,
        other => panic!("unexpected {:?}", other),
    };
    assert_eq!(pending.pending.call.url, "http://stub/v1/items/42?iid=42");
    assert_eq!(pending.pending.call.options.method, "GET");
    let r = mcp_post_resume(pending, HttpOutcome::Response { status: 200, body: "ok".to_string() })
        .unwrap();
    assert_eq!(r.shape, ReplyShape::Json);
    assert_eq!(r.status, 200);
    let body = parse_json(&r.body).unwrap();
    assert_eq!(body.u64_member("id"), Some(3));
    assert_eq!(body.str_member("jsonrpc"), Some("2.0".to_string()));
    let result = body.get("result").unwrap();
    assert_eq!(result.get("isError"), Some(&Json::Bool(false)));
    assert_eq!(
        result.get("content"),
        parse_json("[{\"type\":\"text\",\"text\":\"ok\"}]").as_ref()
    );
    assert_eq!(header(&r, "Dynmcp-Protocol-Method"), Some("tools/call"));
    assert_eq!(header(&r, "Mcp-Session-Id"), Some("s"));
}

#[test]
fn a_remote_failure_is_a_result_with_the_error_flag() {
    let cache = stateless();
    let pending = match post(&cache, CALL, Some("s")) {
        Ok(PostStep::Outbound(p)) => p,
        other => panic!("unexpected {:?}", other),
    };
    let r = mcp_post_resume(pending, HttpOutcome::Response { status: 503, body: "down".to_string() })
        .unwrap();
    assert_eq!(r.status, 200);
    let body = parse_json(&r.body).unwrap();
    assert_eq!(body.get("result").unwrap().get("isError"), Some(&Json::Bool(true)));
}

#[test]
fn an_outbound_request_without_answer_is_reported_with_500() {
    let cache = stateless();
    let pending = match post(&cache, CALL, Some("s")) {
        Ok(PostStep::Outbound(p)) => p,
        other => panic!("unexpected {:?}", other),
    };
    let err =
        mcp_post_resume(pending, HttpOutcome::Failed { message: "refused".to_string() }).unwrap_err();
    assert_eq!(err, RestAPIError { error: "Execution error: refused".to_string(), status: 500 });
}

#[test]
fn a_request_without_session_id_on_a_stateless_instance() {
    let cache = stateless();
    let err = post(&cache, LIST, None).unwrap_err();
    assert_eq!(err.status, 404);
    assert_eq!(err.error, "Missing 'Mcp-Session-Id' field in headers");
    assert!(err.error.contains("Mcp-Session-Id"));
}

#[test]
fn a_tool_call_without_session_id_is_refused_after_its_outbound_request() {
    let cache = stateless();
    let pending = match post(&cache, CALL, None) {
        Ok(PostStep::Outbound(p)) => p,
        other => panic!("unexpected {:?}", other),
    };
    let err = mcp_post_resume(pending, HttpOutcome::Response { status: 200, body: "ok".to_string() })
        .unwrap_err();
    assert_eq!(err.status, 404);
}

#[test]
fn a_request_without_session_id_on_another_variant_is_answered() {
    let cache = stateful();
    let r = reply(post(&cache, LIST, None));
    assert_eq!(r.shape, ReplyShape::SseOnce);
    assert_eq!(r.status, 200);
    assert_eq!(header(&r, "Mcp-Session-Id"), Some(""));
}

#[test]
fn an_unknown_instance_is_not_found() {
    let cache = stateless();
    let err = mcp_post(&cache, "nobody", &parse_json(LIST).unwrap(), None, None).unwrap_err();
    assert_eq!(err, RestAPIError { error: "iDS not found".to_string(), status: 404 });
}

#[test]
fn metadata_that_gives_no_variant_is_an_internal_error() {
    for metadata in ["", "{}", "{\"proto_type\": 1}", "[\"streamable-stateless\"]"] {
        let cache = catalog(metadata);
        let err = post(&cache, LIST, Some("s")).unwrap_err();
        assert_eq!(err, RestAPIError { error: "Invalid IDS metadata".to_string(), status: 500 });
    }
}

#[test]
fn an_unknown_method_is_not_found() {
    let cache = stateless();
    let err = post(&cache, "{\"jsonrpc\":\"2.0\",\"id\":1,\"method\":\"nope\"}", Some("s")).unwrap_err();
    assert_eq!(err, RestAPIError { error: "Unsupported method: nope".to_string(), status: 404 });
    assert_eq!(
        err.body(),
        Json::Object(vec![
            ("code".to_string(), Json::Unsigned(404)),
            ("error".to_string(), Json::Str("Unsupported method: nope".to_string())),
        ])
    );
}

#[test]
fn a_missing_method_is_a_bad_request() {
    let cache = stateless();
    let err = post(&cache, "{\"jsonrpc\":\"2.0\",\"id\":1}", Some("s")).unwrap_err();
    assert_eq!(
        err,
        RestAPIError { error: "Missing 'method' field in request".to_string(), status: 400 }
    );
}

#[test]
fn an_unknown_tool_is_an_internal_error() {
    let cache = stateless();
    let err = post(
        &cache,
        "{\"jsonrpc\":\"2.0\",\"id\":1,\"method\":\"tools/call\",\"params\":{\"name\":\"nobody\",\"arguments\":{}}}",
        Some("s"),
    )
    .unwrap_err();
    assert_eq!(err.status, 500);
    assert_eq!(err.error, "Execution error: TDS not found for name: nobody");
}

#[test]
fn initialized_on_a_stateless_instance_is_202_without_body() {
    let cache = stateless();
    let r = reply(post(
        &cache,
        "{\"jsonrpc\":\"2.0\",\"method\":\"notifications/initialized\"}",
        Some("s"),
    ));
    assert_eq!(r.status, 202);
    assert_eq!(r.body, "");
    assert_eq!(r.shape, ReplyShape::Json);
}

#[test]
fn initialize_on_a_stateful_instance_stores_a_session() {
    let cache = stateful();
    let step = mcp_post(
        &cache,
        "IDS_A",
        &parse_json(INIT).unwrap(),
        None,
        Some("fresh".to_string()),
    );
    let r = reply(step);
    assert_eq!(r.shape, ReplyShape::SseOnce);
    assert_eq!(header(&r, "Mcp-Session-Id"), Some("fresh"));
    assert_eq!(
        r.session,
        Some(SessionWrite {
            session_id: "fresh".to_string(),
            session: StreamableSession { ids_id: "IDS_A".to_string() },
        })
    );
}

#[test]
fn the_session_id_handed_out_goes_before_the_one_brought() {
    let cache = stateful();
    let step = mcp_post(
        &cache,
        "IDS_A",
        &parse_json(INIT).unwrap(),
        Some("old".to_string()),
        Some("fresh".to_string()),
    );
    assert_eq!(header(&reply(step), "Mcp-Session-Id"), Some("fresh"));
    let step = mcp_post(&cache, "IDS_A", &parse_json(INIT).unwrap(), Some("old".to_string()), None);
    let r = reply(step);
    assert_eq!(header(&r, "Mcp-Session-Id"), Some("old"));
    assert_eq!(r.session.map(|w| w.session_id), Some("old".to_string()));
}

#[test]
fn initialize_on_a_stateless_instance_stores_no_session() {
    let cache = stateless();
    let step =
        mcp_post(&cache, "IDS_A", &parse_json(INIT).unwrap(), None, Some("fresh".to_string()));
    let r = reply(step);
    assert_eq!(r.session, None);
    assert_eq!(header(&r, "Mcp-Session-Id"), Some("fresh"));
}

#[test]
fn any_other_variant_answers_as_a_stream_of_one_event() {
    let cache = catalog("{\"proto_type\":\"sse\"}");
    let r = reply(post(&cache, LIST, None));
    assert_eq!(r.shape, ReplyShape::SseOnce);
    assert_eq!(header(&r, "Dynmcp-Protocol-Type"), Some("sse"));
    assert!(parse_json(&r.body).is_some());
}

#[test]
fn an_answer_that_names_no_method_is_refused() {
    let result = DynExecuteResult { response: McpResponse::Accepted, respx: Responsex::accepted() };
    let err = finish_post(result, "streamable-stateless", Some("s".to_string()), "IDS_A").unwrap_err();
    assert_eq!(err.status, 400);
    assert_eq!(err.error, "Missing 'method' field in request");
}

#[test]
fn a_status_that_is_none_becomes_200_on_a_plain_answer() {
    let result = DynExecuteResult {
        response: McpResponse::Accepted,
        respx: Responsex {
            http_status: 42,
            protocol_method: Some(ProtocolMethod::ToolsList),
            initialize_session_id: None,
        },
    };
    let r = finish_post(result, "streamable-stateless", Some("s".to_string()), "IDS_A").unwrap();
    assert_eq!(r.status, 200);
}

#[test]
fn the_metadata_document_can_be_handed_in() {
    let cache = catalog("ignored");
    let step = mcp_post_with(
        &cache,
        "IDS_A",
        parse_json("{\"proto_type\":\"streamable-stateless\"}"),
        &parse_json(LIST).unwrap(),
        Some("s".to_string()),
        None,
    );
    assert_eq!(reply(step).shape, ReplyShape::Json);
}

#[test]
fn a_variant_name_that_cannot_be_a_header_is_an_internal_error() {
    let cache = catalog("{\"proto_type\":\"line\\nbreak\"}");
    let err = post(&cache, LIST, Some("s")).unwrap_err();
    assert_eq!(err.status, 500);
    assert_eq!(
        err.error,
        "Failed to create header value for 'Dynmcp-Protocol-Type': failed to parse header value"
    );
}

#[test]
fn a_session_id_that_cannot_be_a_header_is_an_internal_error() {
    let cache = stateful();
    let step = mcp_post(&cache, "IDS_A", &parse_json(INIT).unwrap(), None, Some("a\nb".to_string()));
    let err = step.unwrap_err();
    assert_eq!(err.status, 500);
    assert_eq!(
        err.error,
        "Failed to create header value for 'Mcp-Session-Id': failed to parse header value"
    );
}

#[test]
fn a_tool_written_to_the_store_is_called_without_a_restart() {
    let mut cache = McpCache::new();
    cache.insert_ids(
        "IDS_A".to_string(),
        IDS {
            id: "IDS_A".to_string(),
            name: "a".to_string(),
            tool_ids: vec![],
            metadata: "{\"proto_type\":\"streamable-stateless\"}".to_string(),
        },
    );
    assert_eq!(post(&cache, CALL, Some("s")).unwrap_err().status, 500);
    let written = "{\"id\":\"T3\",\"name\":\"echo\",\"description\":\"\",\"input_schema\":{},\"tds_ext_info\":{\"domain\":\"http://stub\",\"method\":\"GET\",\"path\":\"/v1/items/{iid}\",\"required_params\":{\"iid\":{}},\"ext_info\":{}}}";
    let event = EtcdWatchEvent {
        event_type: EtcdEventType::Put,
        key: "/dynmcp/tds/T3".to_string(),
        value: Some(written.to_string()),
        prev_value: None,
    };
    EtcdDataSource::new().on_tds_event(&mut cache, &event);
    let pending = match post(&cache, CALL, Some("s")) {
        Ok(PostStep::Outbound(p)) => p,
        other => panic!("unexpected {:?}", other),
    };
    let r = mcp_post_resume(pending, HttpOutcome::Response { status: 200, body: "ok".to_string() })
        .unwrap();
    assert_eq!(r.status, 200);
    assert_eq!(
        parse_json(&r.body).unwrap().get("result").unwrap().get("isError"),
        Some(&Json::Bool(false))
    );
}
