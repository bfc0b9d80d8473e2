use dynmcp::admin::{
    handle_del_ids, handle_del_tds, handle_get_ids, handle_get_tds, handle_put_ids,
    handle_put_tds, ids_cmd_of, read_ids_cmd, read_tds_cmd, IDSCmd, IntoIDS, IntoTDS, TDSCmd,
};
use dynmcp::config::{
    AppConfig, AppSection, ConfigError, DataSourceFactory, DataSourcePlan, DataSourceSection,
    DynMcpArgs, EtcdConfig, LogSection, MySQLConfig,
};
use dynmcp::datasource::{get_all_ids, get_all_tds, StoreError};
use dynmcp::etcd::{
    bytes_eq, EtcdClientManager, EtcdClientProvider, EtcdError, EtcdEventType, EtcdWatchEvent,
    WatchBackoff, INITIAL_DELAY_SECS, MAX_DELAY_SECS, POOL_MAX_SIZE,
};
use dynmcp::headers::{is_visible_ascii, HeaderBuilder, HeaderError, HeaderExtractor};
use dynmcp::json::{parse_json, Json};
use dynmcp::rest::{
    healthz, ApiKey, JsonResponse, RestAPIError, RestAPIResponse, ValidatedJson, API_KEY_HEADER,
};
use dynmcp::session::{InnerSession, StreamableSession};
use dynmcp::sse::{
    get_broadcast_capacity, heartbeat, mcp_get, once_sse, BroadcastMsg, Received, SseEvent,
    SseStep, DEFAULT_BACKLOG, HEARTBEAT_SECS,
};
use dynmcp::status::status_is_success;
use dynmcp::xds::{read_texts, TDSx, ValidationError, IDS, TDS};

const T3: &str = "{\"id\":\"T3\",\"name\":\"echo\",\"description\":\"d\",\"input_schema\":{},\"tds_ext_info\":{\"domain\":\"http://stub\",\"method\":\"GET\",\"path\":\"/p\",\"required_params\":{},\"ext_info\":{\"k\":1}}}";

fn t3() -> TDS {
    TDS {
        id: "T3".to_string(),
        name: "echo".to_string(),
        description: "d".to_string(),
        input_schema: vec![],
        tds_ext_info: TDSx {
            domain: "http://stub".to_string(),
            method: "GET".to_string(),
            path: "/p".to_string(),
            required_params: vec![],
            ext_info: vec![("k".to_string(), Json::Unsigned(1))],
        },
    }
}

fn ids(id: &str, name: &str, tool_ids: &[&str]) -> IDS {
    IDS {
        id: id.to_string(),
        name: name.to_string(),
        tool_ids: tool_ids.iter().map(|s| s.to_string()).collect(),
        metadata: "{}".to_string(),
    }
}

fn config(data_source: &str, etcd: bool, mysql: bool) -> AppConfig {
    AppConfig {
        app: AppSection {
            host: "0.0.0.0".to_string(),
            port: 9999,
            data_source: data_source.to_string(),
            api_key: "k".to_string(),
        },
        log: LogSection {
            log_level: "info".to_string(),
            log_dir: "logs".to_string(),
            log_name: "app".to_string(),
        },
        data_source: DataSourceSection {
            mysql: if mysql { Some(MySQLConfig { url: "mysql://db".to_string() }) } else { None },
            etcd: if etcd {
                Some(EtcdConfig {
                    endpoints: vec!["http://localhost:2379".to_string()],
                    username: "u".to_string(),
                    password: "p".to_string(),
                })
            } else {
                None
            },
        },
    }
}

#[test]
fn success_is_the_2xx_range() {
    for code in [200u16, 201, 299] {
        assert!(status_is_success(code));
    }
    for code in [0u16, 199, 300, 404, 500, u16::MAX] {
        assert!(!status_is_success(code));
    }
}

#[test]
fn tools_are_validated() {
    assert_eq!(t3().validate(), Ok(()));
    let mut t = t3();
    t.name = String::new();
    assert_eq!(t.validate(), Err(ValidationError::TdsNameEmpty));
    t.id = String::new();
    assert_eq!(t.validate(), Err(ValidationError::TdsIdEmpty));
}

#[test]
fn instances_are_validated() {
    assert_eq!(ids("I", "n", &["T"]).validate(), Ok(()));
    assert_eq!(ids("", "", &[]).validate(), Err(ValidationError::IdsIdEmpty));
    assert_eq!(ids("I", "", &[]).validate(), Err(ValidationError::IdsNameEmpty));
    assert_eq!(ids("I", "n", &[]).validate(), Err(ValidationError::IdsToolIdsEmpty));
}

#[test]
fn refusals_have_their_messages() {
    assert_eq!(ValidationError::TdsIdEmpty.message(), "TDS validation failed: id is empty");
    assert_eq!(ValidationError::TdsNameEmpty.message(), "TDS validation failed: name is empty");
    assert_eq!(ValidationError::IdsIdEmpty.message(), "IDS validation failed: id is empty");
    assert_eq!(ValidationError::IdsNameEmpty.message(), "IDS name cannot be empty");
    assert_eq!(
        ValidationError::IdsToolIdsEmpty.message(),
        "IDS tool_ids must contain at least 1 element"
    );
}

#[test]
fn a_tool_is_read_from_its_document() {
    assert_eq!(TDS::from_json(&parse_json(T3).unwrap()), Some(t3()));
    assert_eq!(TDS::from_json(&parse_json("{}").unwrap()), None);
    assert_eq!(TDS::from_json(&parse_json("[]").unwrap()), None);
    let without_ext = T3.replace("\"ext_info\":{\"k\":1}", "\"ext_info\":[]");
    assert_eq!(TDS::from_json(&parse_json(&without_ext).unwrap()), None);
}

#[test]
fn further_members_of_a_document_are_passed_over() {
    let more = T3.replacen("{", "{\"extra\":true,", 1);
    assert_eq!(TDS::from_json(&parse_json(&more).unwrap()), Some(t3()));
}

#[test]
fn a_tool_survives_the_round_through_its_document() {
    assert_eq!(TDS::from_json(&t3().to_json()), Some(t3()));
    assert_eq!(TDSx::from_json(&t3().tds_ext_info.to_json()), Some(t3().tds_ext_info));
}

#[test]
fn an_instance_survives_the_round_through_its_document() {
    let i = ids("I", "n", &["T1", "T2"]);
    assert_eq!(IDS::from_json(&i.to_json()), Some(i));
    let none = ids("I", "n", &[]);
    assert_eq!(IDS::from_json(&none.to_json()), Some(none));
}

#[test]
fn an_instance_wants_its_tool_ids_to_be_strings() {
    let doc = parse_json("{\"id\":\"I\",\"name\":\"n\",\"tool_ids\":[\"T1\",2],\"metadata\":\"{}\"}");
    assert_eq!(IDS::from_json(&doc.unwrap()), None);
    let doc = parse_json("{\"id\":\"I\",\"name\":\"n\",\"tool_ids\":\"T1\",\"metadata\":\"{}\"}");
    assert_eq!(IDS::from_json(&doc.unwrap()), None);
    let doc = parse_json("{\"id\":\"I\",\"name\":\"n\",\"tool_ids\":[\"T1\"]}");
    assert_eq!(IDS::from_json(&doc.unwrap()), None);
    let doc = parse_json("{\"l\":[\"a\",\"b\"]}").unwrap();
    assert_eq!(read_texts(&doc, "l"), Some(vec!["a".to_string(), "b".to_string()]));
    assert_eq!(read_texts(&doc, "m"), None);
}

#[test]
fn admin_put_of_a_tool() {
    let body = "{\"name\":\"echo\",\"description\":\"d\",\"input_schema\":{},\"tds_ext_info\":{\"domain\":\"http://stub\",\"method\":\"GET\",\"path\":\"/p\",\"required_params\":{},\"ext_info\":{\"k\":1}}}";
    let cmd = read_tds_cmd(body).unwrap();
    assert_eq!(handle_put_tds("T3".to_string(), cmd), Ok(t3()));
    let cmd = read_tds_cmd(body).unwrap();
    assert_eq!(
        handle_put_tds(String::new(), cmd),
        Err(RestAPIError { error: "TDS validation failed: id is empty".to_string(), status: 400 })
    );
    let cmd = read_tds_cmd(&body.replace("\"echo\"", "\"\"")).unwrap();
    assert_eq!(handle_put_tds("T3".to_string(), cmd).unwrap_err().status, 400);
}

#[test]
fn admin_put_of_an_instance() {
    let cmd = read_ids_cmd("{\"name\":\"n\",\"tool_ids\":[\"T1\"],\"metadata\":\"{}\"}").unwrap();
    assert_eq!(handle_put_ids("I".to_string(), cmd), Ok(ids("I", "n", &["T1"])));
    let cmd = read_ids_cmd("{\"name\":\"n\",\"tool_ids\":[],\"metadata\":\"{}\"}").unwrap();
    assert_eq!(
        handle_put_ids("I".to_string(), cmd),
        Err(RestAPIError {
            error: "IDS tool_ids must contain at least 1 element".to_string(),
            status: 400,
        })
    );
    let cmd = read_ids_cmd("{\"name\":\"\",\"tool_ids\":[\"T\"],\"metadata\":\"{}\"}").unwrap();
    assert_eq!(handle_put_ids("I".to_string(), cmd).unwrap_err().error, "IDS name cannot be empty");
}

#[test]
fn an_admin_body_that_cannot_be_read_is_a_bad_request() {
    for body in ["", "{", "{}", "{\"name\":\"n\"}", "[]"] {
        let err = read_ids_cmd(body).unwrap_err();
        assert_eq!(err.status, 400);
        assert_eq!(err.error, "Failed to parse the request body as JSON");
        assert_eq!(read_tds_cmd(body).unwrap_err().status, 400);
    }
    assert_eq!(ids_cmd_of(None).unwrap_err().status, 400);
}

#[test]
fn commands_take_the_id_from_the_url() {
    let cmd = IDSCmd { name: "n".to_string(), tool_ids: vec!["T".to_string()], metadata: "{}".to_string() };
    assert_eq!(cmd.into_ids("I".to_string()), ids("I", "n", &["T"]));
    let t = t3();
    let cmd = TDSCmd {
        name: t.name.clone(),
        description: t.description.clone(),
        input_schema: t.input_schema.clone(),
        tds_ext_info: t.tds_ext_info.clone(),
    };
    assert_eq!(cmd.into_tds("T3".to_string()), t);
    assert_eq!(ValidatedJson(5).0, 5);
}

#[test]
fn admin_put_then_get_gives_the_record_back() {
    let stored = dynmcp::json::render_json(&t3().to_json());
    let resp = handle_get_tds("T3", Some(stored)).unwrap();
    assert_eq!(resp.code, 200);
    assert_eq!(resp.message, "success");
    assert_eq!(resp.data.as_ref().and_then(TDS::from_json), Some(t3()));
    let i = ids("I", "n", &["T1"]);
    let stored = dynmcp::json::render_json(&i.to_json());
    let resp = handle_get_ids("I", Some(stored)).unwrap();
    assert_eq!(resp.data.as_ref().and_then(IDS::from_json), Some(i));
}

#[test]
fn admin_get_of_nothing_is_an_internal_error() {
    assert_eq!(
        handle_get_tds("T9", None),
        Err(RestAPIError { error: "Key `T9` not found".to_string(), status: 500 })
    );
    assert_eq!(handle_get_ids("I9", Some("{}".to_string())).unwrap_err().status, 500);
}

#[test]
fn admin_delete_says_what_happened() {
    assert_eq!(
        handle_del_tds("T3", true).data,
        Some(Json::Str("TDS `T3` delete result: true".to_string()))
    );
    assert_eq!(
        handle_del_ids("I", false).data,
        Some(Json::Str("IDS `I` delete result: false".to_string()))
    );
}

#[test]
fn all_records_of_a_scan() {
    let values = vec![T3.to_string(), T3.replace("T3", "T4")];
    let list = get_all_tds(&values).unwrap();
    assert_eq!(list.iter().map(|t| t.id.as_str()).collect::<Vec<_>>(), vec!["T3", "T4"]);
    assert_eq!(get_all_tds(&vec![]), Ok(vec![]));
    assert_eq!(get_all_tds(&vec![T3.to_string(), "{}".to_string()]), Err(StoreError::Unreadable));
    assert_eq!(get_all_ids(&vec![T3.to_string()]), Err(StoreError::Unreadable));
    let i = dynmcp::json::render_json(&ids("I", "n", &["T"]).to_json());
    assert_eq!(get_all_ids(&vec![i]), Ok(vec![ids("I", "n", &["T"])]));
}

#[test]
fn the_health_answer() {
    let r = healthz();
    assert_eq!(r.code, 200);
    assert_eq!(dynmcp::json::render_json(&r.body()), "{\"code\":200,\"data\":\"OK\",\"message\":\"success\"}");
}

#[test]
fn rest_answers_and_errors() {
    let e = RestAPIResponse::error("boom");
    assert_eq!((e.code, e.message.as_str(), e.data.clone()), (500, "boom", None));
    assert_eq!(e.body().get("data"), Some(&Json::Null));
    assert_eq!(RestAPIError::internal("x".to_string()).status, 500);
    assert_eq!(RestAPIError::bad_request("x".to_string()).status, 400);
    assert_eq!(RestAPIError::unauthorized("x".to_string()).status, 401);
    assert_eq!(RestAPIError::not_found("x".to_string()).status, 404);
    assert_eq!(
        dynmcp::json::render_json(&RestAPIError::unauthorized("no".to_string()).body()),
        "{\"code\":401,\"error\":\"no\"}"
    );
    assert_eq!(JsonResponse, JsonResponse);
}

#[test]
fn the_admin_key_is_checked() {
    assert_eq!(API_KEY_HEADER, "x-api-key");
    assert_eq!(ApiKey::check("secret", Some("secret")), Ok(ApiKey("secret".to_string())));
    for presented in [None, Some(""), Some("Secret"), Some("secret ")] {
        assert_eq!(
            ApiKey::check("secret", presented),
            Err(RestAPIError { error: "Invalid or missing API key".to_string(), status: 401 })
        );
    }
}

#[test]
fn the_driver_is_chosen_by_name() {
    assert_eq!(DataSourceFactory::from_str("etcd"), Ok(DataSourceFactory::Etcd));
    assert_eq!(DataSourceFactory::from_str("ETCD"), Ok(DataSourceFactory::Etcd));
    assert_eq!(DataSourceFactory::from_str("MySql"), Ok(DataSourceFactory::Mysql));
    let err = DataSourceFactory::from_str("Redis").unwrap_err();
    assert_eq!(err, ConfigError::UnknownDataSource("Redis".to_string()));
    assert_eq!(err.message(), "Unknown data source type: Redis");
    assert_eq!(DataSourceFactory::from_lowercase("etcd", "x"), Ok(DataSourceFactory::Etcd));
    assert_eq!(
        DataSourceFactory::from_lowercase("ETCD", "given"),
        Err(ConfigError::UnknownDataSource("given".to_string()))
    );
}

#[test]
fn the_driver_is_built_from_the_configuration() {
    assert_eq!(
        DataSourceFactory::build(&config("Etcd", true, true)),
        Ok(DataSourcePlan::Etcd {
            endpoints: vec!["http://localhost:2379".to_string()],
            username: "u".to_string(),
            password: "p".to_string(),
        })
    );
    assert_eq!(
        DataSourceFactory::build(&config("mysql", true, true)),
        Ok(DataSourcePlan::Mysql { url: "mysql://db".to_string() })
    );
    let err = DataSourceFactory::build(&config("etcd", false, true)).unwrap_err();
    assert_eq!(err, ConfigError::EtcdConfigMissing);
    assert_eq!(err.message(), "Etcd config not found");
    let err = DataSourceFactory::build(&config("mysql", true, false)).unwrap_err();
    assert_eq!(err, ConfigError::MysqlConfigMissing);
    assert_eq!(err.message(), "MySQL config not found");
    assert_eq!(
        DataSourceFactory::build(&config("kv", true, true)),
        Err(ConfigError::UnknownDataSource("kv".to_string()))
    );
}

#[test]
fn the_command_line_settings() {
    let args = DynMcpArgs::defaults();
    assert_eq!(args.addr, "0.0.0.0:9999");
    assert_eq!(args.etcd_endpoints, vec!["http://localhost:2379".to_string()]);
    assert_eq!(args.etcd_username, "");
    assert_eq!(args.etcd_password, "");
    assert_eq!(args.mysql_url, "");
    assert_eq!(DataSourceFactory::from_str(&args.data_source), Ok(DataSourceFactory::Mysql));
}

#[test]
fn the_pauses_of_a_watch() {
    assert_eq!((INITIAL_DELAY_SECS, MAX_DELAY_SECS, POOL_MAX_SIZE), (1, 30, 8));
    let mut backoff = WatchBackoff::new();
    let pauses: Vec<u64> = (0..8).map(|_| backoff.on_failure()).collect();
    assert_eq!(pauses, vec![1, 2, 4, 8, 16, 30, 30, 30]);
    backoff.on_connected();
    assert_eq!(backoff.on_failure(), 1);
    assert_eq!(backoff.on_failure(), 2);
}

#[test]
fn the_pairs_under_a_prefix() {
    let provider = EtcdClientProvider::new(vec![], String::new(), String::new());
    let kvs = vec![
        (b"/p/".to_vec(), b"self".to_vec()),
        (b"/p/a".to_vec(), b"1".to_vec()),
        ("/p/é".as_bytes().to_vec(), "ü".as_bytes().to_vec()),
    ];
    assert_eq!(
        provider.get_prefix("/p/", &kvs),
        Ok(vec![("/p/a".to_string(), "1".to_string()), ("/p/é".to_string(), "ü".to_string())])
    );
    assert_eq!(provider.get_prefix("/p/", &vec![]), Ok(vec![]));
}

#[test]
fn bytes_that_are_no_text_fail_the_read() {
    let provider = EtcdClientProvider::new(vec![], String::new(), String::new());
    let bad_value = vec![(b"/p/a".to_vec(), vec![0xff, 0xfe])];
    assert_eq!(provider.get_prefix("/p/", &bad_value), Err(EtcdError::Decode));
    let bad_key = vec![(vec![0xc3, 0x28], b"1".to_vec())];
    assert_eq!(provider.get_prefix("/p/", &bad_key), Err(EtcdError::Decode));
    let bad_value_of_prefix = vec![(b"/p/".to_vec(), vec![0xff])];
    assert_eq!(provider.get_prefix("/p/", &bad_value_of_prefix), Ok(vec![]));
    assert_eq!(provider.get("/p/a", &bad_value), Err(EtcdError::Decode));
    assert_eq!(EtcdError::Decode.message(), "Data decoding error: invalid utf-8");
    assert_eq!(EtcdError::Connection("c".to_string()).message(), "ETCD connection error: c");
    assert_eq!(EtcdError::Reconnect("r".to_string()).message(), "Reconnection failed: r");
}

#[test]
fn the_value_of_one_key() {
    let provider = EtcdClientProvider::new(vec![], String::new(), String::new());
    let kvs = vec![(b"/a".to_vec(), b"1".to_vec()), (b"/b".to_vec(), b"2".to_vec())];
    assert_eq!(provider.get("/b", &kvs), Ok(Some("2".to_string())));
    assert_eq!(provider.get("/c", &kvs), Ok(None));
    assert!(bytes_eq(&b"ab".to_vec(), b"ab"));
    assert!(!bytes_eq(&b"ab".to_vec(), b"ac"));
    assert!(!bytes_eq(&b"ab".to_vec(), b"abc"));
    assert!(provider.delete(1));
    assert!(!provider.delete(0));
    assert_eq!(provider.watch().on_failure(), 1);
}

#[test]
fn a_connection_logs_in_only_with_name_and_password() {
    let manager = |u: &str, p: &str| EtcdClientManager {
        endpoints: vec![],
        username: u.to_string(),
        password: p.to_string(),
    };
    assert!(manager("u", "p").with_user());
    assert!(!manager("u", "").with_user());
    assert!(!manager("", "p").with_user());
    assert!(!manager("", "").with_user());
}

#[test]
fn a_change_without_a_pair_is_no_event() {
    assert_eq!(EtcdWatchEvent::from_parts(EtcdEventType::Put, None, None, None), None);
    assert_eq!(
        EtcdWatchEvent::from_parts(
            EtcdEventType::Delete,
            Some("k".to_string()),
            Some(String::new()),
            Some("old".to_string())
        ),
        Some(EtcdWatchEvent {
            event_type: EtcdEventType::Delete,
            key: "k".to_string(),
            value: Some(String::new()),
            prev_value: Some("old".to_string()),
        })
    );
}

#[test]
fn a_write_keeps_the_moment_of_creation() {
    let session = StreamableSession { ids_id: "IDS_A".to_string() };
    let first = InnerSession::put(None, &session, 10, 100);
    assert_eq!(first, InnerSession { session: session.clone(), created_at: 10, last_active: 10 });
    let second = InnerSession::put(Some(&first), &session, 25, 100);
    assert_eq!(second, InnerSession { session: session.clone(), created_at: 10, last_active: 25 });
}

#[test]
fn a_write_over_an_expired_row_starts_anew() {
    let session = StreamableSession { ids_id: "IDS_A".to_string() };
    let first = InnerSession::put(None, &session, 10, 100);
    let second = InnerSession::put(Some(&first), &session, 110, 100);
    assert_eq!(second, InnerSession { session, created_at: 110, last_active: 110 });
}

#[test]
fn a_read_refreshes_the_moment_of_activity() {
    let row = InnerSession {
        session: StreamableSession { ids_id: "IDS_A".to_string() },
        created_at: 10,
        last_active: 12,
    };
    let read = InnerSession::get_inner(Some(&row), 40, 100).unwrap();
    assert_eq!(read.session.ids_id, "IDS_A");
    assert_eq!((read.created_at, read.last_active), (10, 40));
    assert_eq!(
        InnerSession::get(Some(&row), 40, 100),
        Some(StreamableSession { ids_id: "IDS_A".to_string() })
    );
    assert_eq!(InnerSession::get_inner(None, 40, 100), None);
}

#[test]
fn a_row_not_touched_for_the_time_to_live_is_absent() {
    let session = StreamableSession { ids_id: "IDS_A".to_string() };
    let row = InnerSession::put(None, &session, 1_000, 500);
    assert!(row.is_live(1_000, 500));
    assert!(row.is_live(1_499, 500));
    assert!(!row.is_live(1_500, 500));
    assert!(InnerSession::get(Some(&row), 1_499, 500).is_some());
    assert_eq!(InnerSession::get(Some(&row), 1_500, 500), None);
    assert_eq!(InnerSession::get_inner(Some(&row), u64::MAX, 500), None);
    let touched = InnerSession::get_inner(Some(&row), 1_400, 500).unwrap();
    assert!(InnerSession::get(Some(&touched), 1_899, 500).is_some());
    assert_eq!(InnerSession::get(Some(&touched), 1_900, 500), None);
    assert!(!row.is_live(1_000, 0));
}

#[test]
fn a_notification_for_the_instance_is_sent() {
    let msg = BroadcastMsg { ids_id: "IDS_A".to_string(), message: "hello".to_string() };
    assert_eq!(
        mcp_get("IDS_A", Received::Message(msg)),
        SseStep::Send(SseEvent { event: None, data: "hello".to_string() })
    );
}

#[test]
fn a_notification_for_another_instance_is_passed_over() {
    let msg = BroadcastMsg { ids_id: "IDS_B".to_string(), message: "hello".to_string() };
    assert_eq!(mcp_get("IDS_A", Received::Message(msg)), SseStep::Skip);
}

#[test]
fn a_lagging_subscriber_reports_the_loss_and_goes_on() {
    assert_eq!(mcp_get("IDS_A", Received::Lagged(17)), SseStep::ReportLag { missed: 17 });
    let msg = BroadcastMsg { ids_id: "IDS_A".to_string(), message: "next".to_string() };
    assert_eq!(
        mcp_get("IDS_A", Received::Message(msg)),
        SseStep::Send(SseEvent { event: None, data: "next".to_string() })
    );
}

#[test]
fn a_tick_of_the_timer_sends_the_heartbeat() {
    assert_eq!(
        mcp_get("IDS_A", Received::Tick),
        SseStep::Send(SseEvent { event: Some("ping".to_string()), data: "keep-alive".to_string() })
    );
    let msg = BroadcastMsg { ids_id: "IDS_A".to_string(), message: "hello".to_string() };
    assert_eq!(
        mcp_get("IDS_A", Received::Message(msg)),
        SseStep::Send(SseEvent { event: None, data: "hello".to_string() })
    );
    assert_eq!(mcp_get("IDS_A", Received::Tick), SseStep::Send(heartbeat()));
}

#[test]
fn the_heartbeat_and_the_single_event() {
    assert_eq!(
        heartbeat(),
        SseEvent { event: Some("ping".to_string()), data: "keep-alive".to_string() }
    );
    assert_eq!(once_sse("{}".to_string()), SseEvent { event: None, data: "{}".to_string() });
    assert_eq!((DEFAULT_BACKLOG, HEARTBEAT_SECS), (1024, 10));
    assert_eq!(get_broadcast_capacity(None), 1024);
    assert_eq!(get_broadcast_capacity(Some(8)), 8);
}

#[test]
fn header_values_hold_no_control_characters() {
    for ok in ["", "abc", "a b\tc", "~!@#", "é", "\u{80}"] {
        let mut b = HeaderBuilder::new(vec![]);
        assert_eq!(b.set_str("x", ok), Ok(()));
        assert_eq!(b.headers, vec![("x".to_string(), ok.to_string())]);
    }
    for bad in ["a\nb", "\r", "\u{1f}", "\u{7f}", "\u{0}"] {
        let mut b = HeaderBuilder::new(vec![]);
        assert_eq!(b.set_str("x", bad), Err(HeaderError::InvalidValue("x".to_string())));
    }
}

#[test]
fn headers_are_set_in_lower_case_and_replace_their_like() {
    let mut b = HeaderBuilder::new(vec![]);
    assert_eq!(b.set_str("Mcp-Session-Id", "a"), Ok(()));
    assert_eq!(b.set_str("X-Other", "o"), Ok(()));
    assert_eq!(b.set_str("mcp-session-id", "b"), Ok(()));
    assert_eq!(
        b.headers,
        vec![
            ("x-other".to_string(), "o".to_string()),
            ("mcp-session-id".to_string(), "b".to_string()),
        ]
    );
}

#[test]
fn header_names_are_tokens_of_bounded_length() {
    for ok in ["a", "X-Y_z.0", "!#$%&'*+-.^_`|~", "Content-Type"] {
        let mut b = HeaderBuilder::new(vec![]);
        assert_eq!(b.set_str(ok, "v"), Ok(()));
        assert_eq!(b.headers, vec![(ok.to_ascii_lowercase(), "v".to_string())]);
    }
    for bad in ["", "a b", "a:b", "a/b", "(a)", "a\"b", "é", "a\u{0}", "a@b", "[a]", "{a}"] {
        let mut b = HeaderBuilder::new(vec![]);
        assert_eq!(b.set_str(bad, "v"), Err(HeaderError::InvalidName(bad.to_string())));
    }
    let longest = "a".repeat(65535);
    let mut b = HeaderBuilder::new(vec![]);
    assert_eq!(b.set_str(&longest, "v"), Ok(()));
    let too_long = "a".repeat(65536);
    assert_eq!(b.set_str(&too_long, "v"), Err(HeaderError::InvalidName(too_long.clone())));
    let long_with_capitals = "Ab".repeat(40);
    assert_eq!(b.set_str(&long_with_capitals, "v"), Ok(()));
    assert_eq!(b.headers.last().unwrap().0, "ab".repeat(40));
}

#[test]
fn headers_that_are_refused_change_nothing() {
    let mut b = HeaderBuilder::new(vec![("a".to_string(), "1".to_string())]);
    let err = b.set_str("bad name", "v").unwrap_err();
    assert_eq!(err, HeaderError::InvalidName("bad name".to_string()));
    assert_eq!(err.message(), "Invalid header name 'bad name': invalid HTTP header name");
    let err = b.set_str("A", "line\nbreak").unwrap_err();
    assert_eq!(err, HeaderError::InvalidValue("A".to_string()));
    assert_eq!(err.message(), "Failed to create header value for 'A': failed to parse header value");
    assert_eq!(b.headers, vec![("a".to_string(), "1".to_string())]);
}

#[test]
fn optional_and_multiple_headers() {
    let mut b = HeaderBuilder::new(vec![]);
    assert_eq!(b.set_optional("A", None), Ok(()));
    assert!(b.headers.is_empty());
    assert_eq!(b.set_optional("A", Some("1")), Ok(()));
    let more = vec![
        ("B".to_string(), "2".to_string()),
        ("a".to_string(), "3".to_string()),
        ("bad name".to_string(), "4".to_string()),
        ("C".to_string(), "5".to_string()),
    ];
    assert_eq!(b.set_multiple(&more), Err(HeaderError::InvalidName("bad name".to_string())));
    assert_eq!(
        b.headers,
        vec![("b".to_string(), "2".to_string()), ("a".to_string(), "3".to_string())]
    );
}

#[test]
fn headers_are_read_whatever_the_case_of_the_name() {
    let list = vec![
        ("mcp-session-id".to_string(), "abc123".to_string()),
        ("x-debug".to_string(), "true".to_string()),
        ("x-off".to_string(), "false".to_string()),
        ("x-config".to_string(), "{\"timeout\": 5}".to_string()),
        ("x-debug".to_string(), "false".to_string()),
    ];
    let h = HeaderExtractor::new(&list);
    assert_eq!(h.get_str("Mcp-Session-Id"), Some("abc123".to_string()));
    assert_eq!(h.get_str("missing"), None);
    assert_eq!(h.get_str("bad name"), None);
    assert_eq!(h.get_bool("X-Debug"), Some(true));
    assert_eq!(h.get_bool("x-off"), Some(false));
    assert_eq!(h.get_bool("mcp-session-id"), None);
    assert_eq!(h.get_json("X-Config").and_then(|j| j.u64_member("timeout")), Some(5));
    assert_eq!(h.get_json("x-debug"), Some(Json::Bool(true)));
    assert_eq!(h.get_json("mcp-session-id"), None);
    assert_eq!(h.get_number("x-debug"), None);
    let timeouts = vec![("timeout".to_string(), "30".to_string())];
    assert_eq!(HeaderExtractor::new(&timeouts).get_number("Timeout"), Some(30));
}

#[test]
fn a_header_whose_first_value_is_not_visible_ascii_is_not_read() {
    let list = vec![
        ("x-a".to_string(), "caf\u{e9}".to_string()),
        ("x-a".to_string(), "plain".to_string()),
        ("x-b".to_string(), "tab\tand blank".to_string()),
    ];
    let h = HeaderExtractor::new(&list);
    assert_eq!(h.get_str("x-a"), None);
    assert_eq!(h.get_str("x-b"), Some("tab\tand blank".to_string()));
    assert!(is_visible_ascii("~ !"));
    assert!(!is_visible_ascii("\u{7f}"));
    assert!(!is_visible_ascii("\n"));
}
