use dynmcp::cache::McpCache;
use dynmcp::dispatch::{execute_dyn, get_protocol, resume_dyn, DynStep, McpResponse};
use dynmcp::error::DynExecuteError;
use dynmcp::handler::{
    InitializeProtocol, ListToolsProtocol, NotificationInitializedProtocol, Requestx, Responsex,
};
use dynmcp::json::{parse_json, render_json, Json};
use dynmcp::method::ProtocolMethod;
use dynmcp::protocol::{Tool, JSONRPC_VERSION, PROTOCOL_VERSION, SERVER_NAME, SERVER_VERSION};
use dynmcp::status::DynMCPHttpStatus;
use dynmcp::tool_call::HttpOutcome;
use dynmcp::xds::{TDSx, IDS, TDS};

const INIT: &str = "{\"jsonrpc\":\"2.0\",\"id\":1,\"method\":\"initialize\",\"params\":{\"protocolVersion\":\"2025-03-26\",\"capabilities\":{\"resources\":{},\"tools\":{},\"prompts\":{}},\"clientInfo\":{\"name\":\"c\",\"version\":\"0\"}}}";

fn tool(id: &str, name: &str) -> TDS {
    TDS {
        id: id.to_string(),
        name: name.to_string(),
        description: format!("about {}", name),
        input_schema: vec![("type".to_string(), Json::Str("object".to_string()))],
        tds_ext_info: TDSx {
            domain: "http://stub".to_string(),
            method: "GET".to_string(),
            path: "/v1/items/{iid}".to_string(),
            required_params: vec![("iid".to_string(), Json::Object(vec![]))],
            ext_info: vec![],
        },
    }
}

fn catalog() -> McpCache {
    let mut cache = McpCache::new();
    cache.insert_tds("T1".to_string(), tool("T1", "first"));
    cache.insert_tds("T3".to_string(), tool("T3", "echo"));
    cache.insert_ids(
        "IDS_A".to_string(),
        IDS {
            id: "IDS_A".to_string(),
            name: "a".to_string(),
            tool_ids: vec!["T1".to_string(), "T3".to_string(), "Tmissing".to_string()],
            metadata: "{\"proto_type\":\"streamable-stateless\"}".to_string(),
        },
    );
    cache
}

fn run(cache: &McpCache, text: &str) -> Result<DynStep, DynExecuteError> {
    let reqx = Requestx { mcp_cache: cache, ids_id: "IDS_A", new_session_id: None };
    execute_dyn(&parse_json(text).unwrap(), &reqx)
}

fn body_of(step: Result<DynStep, DynExecuteError>) -> (String, Responsex) {
    match step {
        Ok(DynStep::Done(res)) => {
            (res.response.to_json().map(|j| render_json(&j)).unwrap_or_default(), res.respx)
        }
        other => panic!("not answered: {:?}", other),
    }
}

#[test]
fn constants_of_the_protocol() {
    assert_eq!(JSONRPC_VERSION, "2.0");
    assert_eq!(SERVER_NAME, "mcprust");
    assert_eq!(SERVER_VERSION, "1.0.0");
    assert_eq!(PROTOCOL_VERSION, "2025-03-26");
}

#[test]
fn method_names() {
    assert_eq!(ProtocolMethod::Initialize.as_str(), "initialize");
    assert_eq!(ProtocolMethod::ToolsCall.as_str(), "tools/call");
    assert_eq!(ProtocolMethod::ToolsList.to_string(), "tools/list");
    assert_eq!(ProtocolMethod::NotificationsInitialized.as_str(), "notifications/initialized");
}

#[test]
fn method_from_its_name_and_back() {
    for m in [
        ProtocolMethod::Initialize,
        ProtocolMethod::ToolsCall,
        ProtocolMethod::ToolsList,
        ProtocolMethod::NotificationsInitialized,
    ] {
        assert_eq!(ProtocolMethod::from_str(m.as_str()), Ok(m));
        assert_eq!(get_protocol(m.as_str()), Some(m));
    }
}

#[test]
fn method_from_an_unknown_name() {
    assert_eq!(
        ProtocolMethod::from_str("tools/delete"),
        Err("Invalid ProtocolMethod: tools/delete".to_string())
    );
    assert_eq!(ProtocolMethod::from_str("Initialize").is_err(), true);
    assert_eq!(get_protocol(""), None);
}

#[test]
fn responsex_default_and_accepted() {
    assert_eq!(
        Responsex::default(),
        Responsex { http_status: 200, protocol_method: None, initialize_session_id: None }
    );
    assert_eq!(Responsex::accepted().http_status, 202);
}

#[test]
fn initialize_answers_with_the_version_of_the_client() {
    let cache = catalog();
    let (body, respx) = body_of(run(&cache, INIT));
    assert_eq!(
        body,
        "{\"id\":1,\"jsonrpc\":\"2.0\",\"result\":{\"capabilities\":{\"logging\":{},\"tools\":{\"listChanged\":false}},\"protocolVersion\":\"2025-03-26\",\"serverInfo\":{\"name\":\"mcprust\",\"version\":\"1.0.0\"}}}"
    );
    assert_eq!(respx.http_status, 200);
    assert_eq!(respx.protocol_method, Some(ProtocolMethod::Initialize));
    assert_eq!(respx.initialize_session_id, None);
}

#[test]
fn initialize_keeps_the_order_of_its_members() {
    let cache = catalog();
    let step = run(&cache, INIT);
    match step {
        Ok(DynStep::Done(res)) => match res.response {
            McpResponse::Initialize(r) => {
                let doc = r.to_json();
                let top: Vec<&str> =
                    doc.as_object().unwrap().iter().map(|(k, _)| k.as_str()).collect();
                assert_eq!(top, vec!["id", "jsonrpc", "result"]);
                let result: Vec<&str> = doc
                    .get("result")
                    .unwrap()
                    .as_object()
                    .unwrap()
                    .iter()
                    .map(|(k, _)| k.as_str())
                    .collect();
                assert_eq!(result, vec!["protocolVersion", "capabilities", "serverInfo"]);
            }
            other => panic!("unexpected {:?}", other),
        },
        other => panic!("unexpected {:?}", other),
    }
}

#[test]
fn initialize_gives_the_same_body_whatever_the_catalog_and_the_session() {
    let full = catalog();
    let empty = McpCache::new();
    let doc = parse_json(INIT).unwrap();
    let a = Requestx { mcp_cache: &full, ids_id: "IDS_A", new_session_id: Some("s1".to_string()) };
    let b = Requestx { mcp_cache: &empty, ids_id: "other", new_session_id: Some("s2".to_string()) };
    let (body_a, respx_a) = body_of(execute_dyn(&doc, &a));
    let (body_b, respx_b) = body_of(execute_dyn(&doc, &b));
    assert_eq!(body_a, body_b);
    assert_eq!(respx_a.initialize_session_id, Some("s1".to_string()));
    assert_eq!(respx_b.initialize_session_id, Some("s2".to_string()));
}

#[test]
fn initialize_handler_reads_and_answers() {
    let cache = McpCache::new();
    let reqx = Requestx { mcp_cache: &cache, ids_id: "x", new_session_id: None };
    let req = InitializeProtocol.cast(&parse_json(INIT).unwrap()).unwrap();
    assert_eq!(req.params.client.name, "c");
    assert_eq!(req.params.client.version, "0");
    assert_eq!(req.params.capabilities.tools, Json::Object(vec![]));
    let (resp, _) = InitializeProtocol.call(req, &reqx).unwrap();
    assert_eq!(resp.id, 1);
    assert_eq!(resp.result.version, "2025-03-26");
    assert_eq!(resp.result.server.name, "mcprust");
    assert_eq!(resp.result.capabilities.tools.map(|t| t.list_changed), Some(false));
}

#[test]
fn initialize_with_a_broken_envelope_is_invalid() {
    let cache = catalog();
    for text in [
        "{\"jsonrpc\":\"2.0\",\"id\":1,\"method\":\"initialize\"}",
        "{\"jsonrpc\":\"2.0\",\"id\":\"1\",\"method\":\"initialize\",\"params\":{}}",
        "{\"jsonrpc\":\"2.0\",\"id\":1,\"method\":\"initialize\",\"params\":{\"protocolVersion\":\"v\",\"capabilities\":{\"resources\":{},\"tools\":{}},\"clientInfo\":{\"name\":\"c\",\"version\":\"0\"}}}",
        "{\"jsonrpc\":\"2.0\",\"id\":-1,\"method\":\"initialize\",\"params\":{\"protocolVersion\":\"v\",\"capabilities\":{\"resources\":{},\"tools\":{},\"prompts\":{}},\"clientInfo\":{\"name\":\"c\",\"version\":\"0\"}}}",
    ] {
        assert_eq!(run(&cache, text).unwrap_err(), DynExecuteError::InvalidRequest);
    }
}

#[test]
fn list_tools_follows_the_instance() {
    let cache = catalog();
    let (body, respx) =
        body_of(run(&cache, "{\"jsonrpc\":\"2.0\",\"id\":2,\"method\":\"tools/list\"}"));
    let doc = parse_json(&body).unwrap();
    assert_eq!(doc.u64_member("id"), Some(2));
    assert_eq!(doc.str_member("jsonrpc"), Some("2.0".to_string()));
    let tools = doc.get("result").unwrap().get("tools").unwrap().as_array().unwrap();
    assert_eq!(tools.len(), 2);
    assert_eq!(tools[0].str_member("name"), Some("first".to_string()));
    assert_eq!(tools[1].str_member("name"), Some("echo".to_string()));
    assert_eq!(tools[1].str_member("description"), Some("about echo".to_string()));
    assert_eq!(
        tools[1].object_member("inputSchema"),
        Some(vec![("type".to_string(), Json::Str("object".to_string()))])
    );
    assert_eq!(respx.http_status, 200);
    assert_eq!(respx.protocol_method, Some(ProtocolMethod::ToolsList));
}

#[test]
fn list_tools_of_an_unknown_instance_is_empty() {
    let cache = catalog();
    let reqx = Requestx { mcp_cache: &cache, ids_id: "nobody", new_session_id: None };
    let req = ListToolsProtocol
        .cast(&parse_json("{\"jsonrpc\":\"2.0\",\"id\":2,\"method\":\"tools/list\"}").unwrap())
        .unwrap();
    let (resp, _) = ListToolsProtocol.call(req, &reqx).unwrap();
    assert!(resp.result.tools.is_empty());
    assert_eq!(render_json(&resp.to_json()), "{\"id\":2,\"jsonrpc\":\"2.0\",\"result\":{\"tools\":[]}}");
}

#[test]
fn a_tool_as_a_client_sees_it() {
    let t = Tool::from(tool("T1", "first"));
    assert_eq!(
        render_json(&t.to_json()),
        "{\"description\":\"about first\",\"inputSchema\":{\"type\":\"object\"},\"name\":\"first\"}"
    );
}

#[test]
fn initialized_is_accepted_without_a_body() {
    let cache = catalog();
    let (body, respx) = body_of(run(
        &cache,
        "{\"jsonrpc\":\"2.0\",\"method\":\"notifications/initialized\"}",
    ));
    assert_eq!(body, "");
    assert_eq!(respx.http_status, 202);
    assert_eq!(respx.protocol_method, Some(ProtocolMethod::NotificationsInitialized));
}

#[test]
fn initialized_handler_accepts() {
    let cache = McpCache::new();
    let reqx = Requestx { mcp_cache: &cache, ids_id: "x", new_session_id: None };
    let doc = parse_json("{\"jsonrpc\":\"2.0\",\"method\":\"notifications/initialized\"}").unwrap();
    let req = NotificationInitializedProtocol.cast(&doc).unwrap();
    let (_, respx) = NotificationInitializedProtocol.call(req, &reqx).unwrap();
    assert_eq!(respx, Responsex::accepted());
    assert!(NotificationInitializedProtocol.cast(&parse_json("{\"method\":\"x\"}").unwrap()).is_none());
}

#[test]
fn a_request_without_method_is_refused() {
    let cache = catalog();
    for text in ["{\"jsonrpc\":\"2.0\",\"id\":1}", "{\"method\": 5}", "[]", "\"initialize\""] {
        let err = run(&cache, text).unwrap_err();
        assert_eq!(err, DynExecuteError::MissingMethod);
        assert_eq!(err.status().as_u16(), 400);
        assert_eq!(err.message(), "Missing 'method' field in request");
    }
}

#[test]
fn a_request_for_an_unknown_method_is_refused() {
    let cache = catalog();
    let err = run(&cache, "{\"jsonrpc\":\"2.0\",\"id\":1,\"method\":\"tools/delete\"}").unwrap_err();
    assert_eq!(err, DynExecuteError::UnsupportedMethod("tools/delete".to_string()));
    assert_eq!(err.status().as_u16(), 404);
    assert_eq!(err.message(), "Unsupported method: tools/delete");
}

#[test]
fn a_call_of_an_unknown_tool_is_an_execution_error() {
    let cache = catalog();
    let err = run(
        &cache,
        "{\"jsonrpc\":\"2.0\",\"id\":1,\"method\":\"tools/call\",\"params\":{\"name\":\"nobody\",\"arguments\":{}}}",
    )
    .unwrap_err();
    assert_eq!(err, DynExecuteError::ExecutionError("TDS not found for name: nobody".to_string()));
    assert_eq!(err.status().as_u16(), 500);
    assert_eq!(err.message(), "Execution error: TDS not found for name: nobody");
}

#[test]
fn a_call_waits_for_its_outbound_request_and_is_resumed() {
    let cache = catalog();
    let step = run(
        &cache,
        "{\"jsonrpc\":\"2.0\",\"id\":5,\"method\":\"tools/call\",\"params\":{\"name\":\"echo\",\"arguments\":{\"path\":{\"iid\":\"42\"},\"query\":{\"iid\":\"42\"}}}}",
    );
    let pending = match step {
        Ok(DynStep::Outbound(p)) => p,
        other => panic!("unexpected {:?}", other),
    };
    assert_eq!(pending.call.url, "http://stub/v1/items/42?iid=42");
    assert_eq!(pending.call.options.method, "GET");
    assert_eq!(pending.call.options.headers, None);
    assert_eq!(pending.call.options.body, None);
    let res =
        resume_dyn(pending, HttpOutcome::Response { status: 200, body: "ok".to_string() }).unwrap();
    assert_eq!(res.respx.http_status, 200);
    assert_eq!(res.respx.protocol_method, Some(ProtocolMethod::ToolsCall));
    assert_eq!(
        render_json(&res.response.to_json().unwrap()),
        "{\"id\":5,\"jsonrpc\":\"2.0\",\"result\":{\"content\":[{\"text\":\"ok\",\"type\":\"text\"}],\"isError\":false}}"
    );
}

#[test]
fn a_call_whose_outbound_request_fails_is_an_execution_error() {
    let cache = catalog();
    let step = run(
        &cache,
        "{\"jsonrpc\":\"2.0\",\"id\":5,\"method\":\"tools/call\",\"params\":{\"name\":\"echo\",\"arguments\":{\"path\":{\"iid\":\"42\"},\"query\":{\"iid\":\"42\"}}}}",
    );
    let pending = match step {
        Ok(DynStep::Outbound(p)) => p,
        other => panic!("unexpected {:?}", other),
    };
    let err = resume_dyn(pending, HttpOutcome::Failed { message: "timeout".to_string() }).unwrap_err();
    assert_eq!(err, DynExecuteError::ExecutionError("timeout".to_string()));
}

#[test]
fn every_error_has_its_status_and_message() {
    let cases = [
        (DynExecuteError::IdsNotFound, DynMCPHttpStatus::NotFound, "iDS not found"),
        (
            DynExecuteError::MissingMcpSessionId,
            DynMCPHttpStatus::NotFound,
            "Missing 'Mcp-Session-Id' field in headers",
        ),
        (
            DynExecuteError::MissingMethod,
            DynMCPHttpStatus::BadRequest,
            "Missing 'method' field in request",
        ),
        (
            DynExecuteError::UnsupportedMethod("m".to_string()),
            DynMCPHttpStatus::NotFound,
            "Unsupported method: m",
        ),
        (DynExecuteError::InvalidRequest, DynMCPHttpStatus::BadRequest, "Invalid request format"),
        (
            DynExecuteError::ExecutionError("boom".to_string()),
            DynMCPHttpStatus::InternalServerError,
            "Execution error: boom",
        ),
    ];
    for (err, status, message) in cases {
        assert_eq!(err.status(), status);
        assert_eq!(err.message(), message);
    }
}

#[test]
fn statuses_have_their_codes_and_lines() {
    let cases = [
        (DynMCPHttpStatus::Success, 200, "200 OK"),
        (DynMCPHttpStatus::BadRequest, 400, "400 Bad Request"),
        (DynMCPHttpStatus::Unauthorized, 401, "401 Unauthorized"),
        (DynMCPHttpStatus::NotFound, 404, "404 Not Found"),
        (DynMCPHttpStatus::InternalServerError, 500, "500 Internal Server Error"),
    ];
    for (status, code, line) in cases {
        assert_eq!(status.as_u16(), code);
        assert_eq!(status.as_str(), line);
    }
}
