use unity_mcp::ipc::Endpoint;
use unity_mcp::mcp::assets::{
    bridge_status_out, bundle_options, import_assets_output, move_asset_output, timeout_or,
    variants_for, ImportReply, DEFAULT_TIMEOUT_SECS,
};
use unity_mcp::mcp::bridge::{
    endpoint_display, next_connector_backoff, not_connected_message, BridgeConnector, BridgeState,
};
use unity_mcp::mcp::diagnostics::{
    calculate_summary, diagnostics_location, diagnostics_response, filter_diagnostics,
    CompileDiagnostics, Diagnostic, DiagnosticPosition, DiagnosticRange, DiagnosticSummary,
    DiagnosticsLocation, UnityGetCompileDiagnosticsRequest,
};
use unity_mcp::mcp::events::{log_throttle_key, process_log_event, LogEvent, LogLevel, LogThrottle};
use unity_mcp::mcp::operations::{OperationEvent, OperationKind, OperationTable};
use unity_mcp::mcp::test_runs::{
    apply_test_filters, completion_step, default_include_passed, default_max_items, default_mode,
    default_timeout_sec, generate_run_id, path_is_within, request_file_name, results_file_name,
    results_size_check, run_id_from, test_request_for, CompletionStep, StatusFile,
    UnityRunTestsRequest,
};
use unity_mcp::mcp::tools::{open_scenes_output, prefab_create_output};
use unity_mcp::features::FeatureSet;
use unity_mcp::mcp::stdio::{dispatch, tool_failure, ServerStep};
use unity_mcp::mcp::stdio::{hello_tool, ServerConfig, ToolRegistry};
use unity_mcp::mcp::stdio::{client_reply_outcome, ReplyKind, RequestIds};

#[test]
fn not_connected_message_lists_what_is_known() {
    let mut s = BridgeState::default();
    assert_eq!(
        not_connected_message(&s),
        "Unity Bridge not connected yet. Waiting for Unity Editor to start."
    );
    s.last_error = Some("connect timeout".to_string());
    s.next_retry_ms = Some(400);
    assert_eq!(
        not_connected_message(&s),
        "Unity Bridge not connected yet. Waiting for Unity Editor to start. last_error=connect timeout next_retry_ms=400"
    );
}

#[test]
fn endpoints_are_shown_with_their_scheme() {
    assert_eq!(endpoint_display(&Endpoint::Tcp("127.0.0.1:7777".to_string())), "tcp://127.0.0.1:7777");
    assert_eq!(endpoint_display(&Endpoint::Unix("/tmp/u.sock".to_string())), "unix:///tmp/u.sock");
    assert_eq!(endpoint_display(&Endpoint::Pipe("p".to_string())), "pipe://p");
}

#[test]
fn connector_backs_off_within_bounds() {
    assert_eq!(next_connector_backoff(200, 0), 400);
    assert_eq!(next_connector_backoff(200, 7), 400 + 7 % 51);
    assert_eq!(next_connector_backoff(4000, 0), 5000);
    let mut b = 200u64;
    for r in [u64::MAX, 12345, 999, 0, 77777] {
        b = next_connector_backoff(b, r);
        assert!((400..6668).contains(&b));
    }
}

#[test]
fn connector_records_attempts_and_failures() {
    let mut c = BridgeConnector::new();
    let mut s = BridgeState::default();
    c.begin_attempt(&mut s, "tcp://h:1".to_string());
    assert_eq!(s.attempt, 1);
    assert!(!s.connected);
    let wait = c.on_failure(&mut s, "closed".to_string(), 0);
    assert_eq!(wait, 200);
    assert_eq!(s.next_retry_ms, Some(200));
    assert_eq!(s.last_error.as_deref(), Some("closed"));
    c.begin_attempt(&mut s, "tcp://h:1".to_string());
    assert_eq!(s.attempt, 2);
    assert_eq!(s.next_retry_ms, None);
    assert_eq!(c.on_failure(&mut s, "closed".to_string(), 0), 400);
    c.on_connected(&mut s, "tcp://h:1".to_string());
    assert!(s.connected);
    assert_eq!(s.last_error, None);
}

fn log(level: LogLevel, code: i32, category: &str) -> LogEvent {
    LogEvent {
        level,
        level_code: code,
        category: category.to_string(),
        message: "m".to_string(),
        stack_trace: String::new(),
    }
}

#[test]
fn info_logs_are_throttled_per_key() {
    let mut t = LogThrottle::new();
    let interval = 500_000_000;
    assert!(process_log_event(&log(LogLevel::Info, 2, "Build"), &mut t, 1_000, interval));
    assert!(!process_log_event(&log(LogLevel::Info, 2, "Build"), &mut t, 400_000_000, interval));
    assert!(process_log_event(&log(LogLevel::Info, 2, "Net"), &mut t, 400_000_000, interval));
    assert!(process_log_event(&log(LogLevel::Debug, 3, "Build"), &mut t, 400_000_000, interval));
    assert!(process_log_event(&log(LogLevel::Info, 2, "Build"), &mut t, 600_000_000, interval));
    assert!(process_log_event(&log(LogLevel::Error, 0, "Build"), &mut t, 600_000_001, interval));
    assert!(process_log_event(&log(LogLevel::Warn, 1, "Build"), &mut t, 600_000_001, interval));
}

#[test]
fn throttle_key_joins_category_and_level() {
    assert_eq!(log_throttle_key("Build", 2), "Build:2");
    assert_eq!(log_throttle_key("x", -1), "x:-1");
}

fn op(id: &str, kind: OperationKind) -> OperationEvent {
    OperationEvent {
        op_id: id.to_string(),
        kind,
        progress: 10,
        code: 0,
        message: "msg".to_string(),
        payload_json: "{}".to_string(),
    }
}

#[test]
fn operations_are_recorded_and_old_completions_dropped() {
    let mut t = OperationTable::new();
    t.process_operation_event(op("a", OperationKind::Start), 1_000);
    let a = t.get_operation("a").unwrap();
    assert_eq!(a.kind, "Start");
    assert_eq!(a.last_updated, 1_000);
    t.process_operation_event(op("a", OperationKind::Complete), 2_000);
    assert_eq!(t.get_operation("a").unwrap().kind, "Complete");
    t.process_operation_event(op("b", OperationKind::Progress), 3_000);
    assert_eq!(t.get_operations().len(), 2);
    let later = 2_000 + 300_000_000_000 + 1;
    t.process_operation_event(op("c", OperationKind::Start), later);
    assert!(t.get_operation("a").is_none());
    assert!(t.get_operation("b").is_some());
    assert!(t.get_operation("c").is_some());
}

#[test]
fn tests_test_default_values() {
    let req = UnityRunTestsRequest {
        mode: default_mode(),
        test_filter: None,
        categories: None,
        timeout_sec: default_timeout_sec(),
        max_items: default_max_items(),
        include_passed: default_include_passed(),
    };
    assert_eq!(req.mode, "edit");
    assert_eq!(req.timeout_sec, 180);
    assert_eq!(req.max_items, 2000);
    assert!(req.include_passed);
}

#[test]
fn apply_test_filters_keeps_order_and_limit() {
    let statuses: Vec<String> = vec!["passed".to_string(), "failed".to_string(), "passed".to_string()];
    let filtered = apply_test_filters(&statuses, 1000, false);
    assert_eq!(filtered, vec![1]);
    assert_eq!(apply_test_filters(&statuses, 1000, true), vec![0, 1, 2]);
    assert_eq!(apply_test_filters(&statuses, 2, true), vec![0, 1]);
}

#[test]
fn run_ids_have_time_and_short_uuid() {
    assert_eq!(
        run_id_from("2025-08-30T12:00:00Z", "0123abcd-aaaa-bbbb-cccc-dddddddddddd"),
        "2025-08-30T12:00:00Z-0123abcd"
    );
    let id = generate_run_id();
    assert!(id.len() >= 29);
    let tail = &id[id.len() - 9..];
    assert!(tail.starts_with('-'));
    assert!(tail[1..].chars().all(|c| c.is_ascii_hexdigit() && !c.is_ascii_uppercase()));
    assert_eq!(&id[id.len() - 10..id.len() - 9], "Z");
}

#[test]
fn file_names_of_a_run() {
    assert_eq!(request_file_name("r1"), "runTests-r1.json");
    assert_eq!(results_file_name(&Some("r1".to_string())), "run-r1.json");
    assert_eq!(results_file_name(&None), "latest.json");
}

#[test]
fn test_request_fills_missing_parts() {
    let r = test_request_for("id".to_string(), "play".to_string(), None, None, 10, 20, false);
    assert_eq!(r.test_filter, "");
    assert!(r.categories.is_empty());
    assert_eq!(r.timeout_sec, 10);
}

fn status(s: &str, id: &str) -> Option<StatusFile> {
    Some(StatusFile { status: s.to_string(), run_id: id.to_string(), timestamp: String::new() })
}

#[test]
fn waiting_for_a_run() {
    assert_eq!(completion_step(0, 1, &None, &None, "r"), CompletionStep::Wait);
    assert_eq!(completion_step(1_000_000_001, 1, &None, &None, "r"), CompletionStep::TimedOut);
    assert_eq!(completion_step(1_000_000_000, 1, &None, &None, "r"), CompletionStep::Wait);
    assert_eq!(completion_step(5, 1, &status("finished", "r"), &None, "r"), CompletionStep::ReadResults);
    assert_eq!(completion_step(5, 1, &status("running", "r"), &status("finished", "r"), "r"), CompletionStep::ReadResults);
    assert_eq!(completion_step(5, 1, &None, &status("finished", "other"), "r"), CompletionStep::Wait);
}

#[test]
fn results_file_size_limit() {
    assert!(results_size_check(2 * 1024 * 1024).is_ok());
    let e = results_size_check(3 * 1024 * 1024).unwrap_err();
    assert!(e.contains("too large"));
    assert_eq!(e, "Test results file too large (3145728 bytes). Use filters to reduce the result set.");
}

#[test]
fn paths_within_the_bridge() {
    let base: Vec<String> = vec!["home".into(), "bridge".into()];
    assert!(path_is_within(&vec!["home".into(), "bridge".into(), "x.json".into()], &base));
    assert!(!path_is_within(&vec!["home".into(), "bridgeX".into()], &base));
    assert!(!path_is_within(&vec!["home".into()], &base));
}

fn diag(sev: &str, assembly_name: &str) -> Diagnostic {
    Diagnostic {
        file_uri: "file:///test/Foo.cs".to_string(),
        range: DiagnosticRange {
            start: DiagnosticPosition { line: 10, character: 5 },
            end: DiagnosticPosition { line: 10, character: 5 },
        },
        severity: sev.to_string(),
        message: "m".to_string(),
        code: Some("CS0103".to_string()),
        assembly: assembly_name.to_string(),
        source: "Unity".to_string(),
        fingerprint: "abc".to_string(),
        first_seen: None,
        last_seen: None,
    }
}

#[test]
fn diagnostics_test_default_values() {
    let req = UnityGetCompileDiagnosticsRequest {
        max_items: unity_mcp::mcp::diagnostics::default_max_items(),
        severity: unity_mcp::mcp::diagnostics::default_severity(),
        changed_only: false,
        assembly: None,
    };
    assert_eq!(req.max_items, 500);
    assert_eq!(req.severity, "all");
    assert!(!req.changed_only);
    assert!(req.assembly.is_none());
}

#[test]
fn calculate_summary_counts_and_assemblies() {
    let ds = vec![diag("error", "Assembly-CSharp"), diag("warning", "Assembly-CSharp"), diag("error", "Assembly-CSharp")];
    let summary = calculate_summary(&ds);
    assert_eq!(summary.errors, 2);
    assert_eq!(summary.warnings, 1);
    assert_eq!(summary.infos, 0);
    assert_eq!(summary.assemblies, vec!["Assembly-CSharp".to_string()]);
}

#[test]
fn diagnostics_are_filtered_and_summarised() {
    let ds = vec![diag("error", "A"), diag("warning", "B"), diag("error", "B"), diag("info", "A")];
    assert_eq!(filter_diagnostics(&ds, "all", &None, 10).len(), 4);
    assert_eq!(filter_diagnostics(&ds, "error", &None, 10).len(), 2);
    assert_eq!(filter_diagnostics(&ds, "all", &Some("B".to_string()), 10).len(), 2);
    assert_eq!(filter_diagnostics(&ds, "all", &None, 1).len(), 1);
    let all = CompileDiagnostics {
        compile_id: "c1".to_string(),
        summary: DiagnosticSummary { errors: 0, warnings: 0, infos: 0, assemblies: vec![] },
        diagnostics: ds,
        truncated: false,
    };
    let r = diagnostics_response(all, 500, "error", &None);
    assert_eq!(r.compile_id, "c1");
    assert_eq!(r.diagnostics.len(), 2);
    assert!(r.truncated);
    assert_eq!(r.summary.errors, 2);
    assert_eq!(r.summary.assemblies, vec!["A".to_string(), "B".to_string()]);
}

#[test]
fn diagnostics_location_choice() {
    match diagnostics_location(None, false) {
        DiagnosticsLocation::UnderProject(p) => assert_eq!(p, vec!["Temp", "AI", "latest.json"]),
        _ => panic!("expected a project path"),
    }
    match diagnostics_location(Some("/abs/d.json".to_string()), true) {
        DiagnosticsLocation::Absolute(p) => assert_eq!(p, "/abs/d.json"),
        _ => panic!("expected an absolute path"),
    }
}

#[test]
fn asset_outputs_leave_out_empty_texts() {
    let out = import_assets_output(vec![
        ImportReply { path: "Assets/a".into(), guid: "".into(), ok: false, message: "bad".into() },
        ImportReply { path: "Assets/b".into(), guid: "g".into(), ok: true, message: "".into() },
    ]);
    assert_eq!(out.results[0].guid, None);
    assert_eq!(out.results[0].message.as_deref(), Some("bad"));
    assert_eq!(out.results[1].guid.as_deref(), Some("g"));
    assert_eq!(out.results[1].message, None);
    let m = move_asset_output(true, String::new(), "n".into());
    assert_eq!(m.message, None);
    assert_eq!(m.new_guid.as_deref(), Some("n"));
    assert_eq!(timeout_or(None, DEFAULT_TIMEOUT_SECS), 30);
    assert_eq!(timeout_or(Some(5), DEFAULT_TIMEOUT_SECS), 5);
    let p = prefab_create_output(true, "".into(), "".into());
    assert_eq!(p.guid, None);
    let s = open_scenes_output(vec!["a".into()], "".into());
    assert_eq!(s.active_scene, None);
}

#[test]
fn build_options_defaults() {
    let v = variants_for(None);
    assert!(!v.development && v.il2cpp && v.strip_symbols);
    let v = variants_for(Some(true));
    assert!(v.development && !v.il2cpp && !v.strip_symbols);
    let b = bundle_options(None, None, None);
    assert!(b.deterministic && !b.chunk_based && !b.force_rebuild);
}

#[test]
fn status_shows_features_only_when_connected() {
    let mut state = BridgeState::default();
    let features = FeatureSet::supported_by_client();
    let out = bridge_status_out(state.clone(), Some(&features));
    assert!(out.negotiated_features.is_none());
    state.connected = true;
    let out = bridge_status_out(state, Some(&features));
    assert_eq!(out.negotiated_features.unwrap().len(), 5);
}

#[test]
fn stdio_server_dispatches_methods() {
    assert_eq!(dispatch("initialize"), ServerStep::Initialize);
    assert_eq!(dispatch("tool_call"), ServerStep::ToolCall);
    assert_eq!(dispatch("shutdown"), ServerStep::Shutdown);
    assert_eq!(
        dispatch("bogus"),
        ServerStep::Error { code: -32601, message: "Method not found: bogus".to_string() }
    );
    assert_eq!(
        tool_failure("boom"),
        ServerStep::Error { code: -32000, message: "Tool execution failed: boom".to_string() }
    );
}

#[test]
fn stdio_server_registers_known_tools_only() {
    let config = ServerConfig::new().with_name("mcp-server").with_version("1.0.0").with_tool("hello".to_string());
    assert_eq!(config.name, "mcp-server");
    let mut reg = ToolRegistry::new(config);
    assert_eq!(
        reg.register_tool_handler("bye").unwrap_err(),
        "Tool 'bye' not found in server configuration"
    );
    assert!(reg.register_tool_handler("hello").is_ok());
    assert_eq!(reg.tool_call_target(true, Some("hello")).unwrap(), "hello");
    assert_eq!(reg.tool_call_target(false, Some("hello")).unwrap_err(), "Missing parameters in tool call request");
    assert_eq!(reg.tool_call_target(true, None).unwrap_err(), "Missing tool name in parameters");
    assert_eq!(reg.tool_call_target(true, Some("x")).unwrap_err(), "No handler registered for tool 'x'");
    assert_eq!(hello_tool(Some("Ann")).unwrap(), "Hello, Ann!");
    assert_eq!(hello_tool(None).unwrap_err(), "Missing name parameter");
}

#[test]
fn stdio_client_ids_and_replies() {
    let mut ids = RequestIds::new();
    assert_eq!(ids.next_request_id(), 1);
    assert_eq!(ids.next_request_id(), 2);
    assert!(client_reply_outcome("Shutdown", ReplyKind::Response, "").is_ok());
    assert_eq!(client_reply_outcome("Tool call", ReplyKind::Error, "E").unwrap_err(), "Tool call failed: E");
    assert_eq!(client_reply_outcome("Initialization", ReplyKind::Other, "").unwrap_err(), "Unexpected response type");
}
