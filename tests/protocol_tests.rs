use mcp_context_server::config::{ServerConfig, DEFAULT_TOOL_TIMEOUT_SECS};
use mcp_context_server::error::{McpErrorCode, McpErrorResponse};
use mcp_context_server::inspect::{
    inspect_cache_result, inspect_report, read_manifest, InspectReport, ManifestFile,
    ManifestSummary, SizeProbe,
};
use mcp_context_server::json::{decimal_text, signed_decimal_text};
use mcp_context_server::listing::{list_cache_entries, listing_json, EntryProbe, ManifestProbe};
use mcp_context_server::paths::{check_cache_name, is_within_root, resolve_cache_path, PathProbe};
use mcp_context_server::request::RpcId;
use mcp_context_server::resolve::{check_budget, resolve_result, SelectionOutcome};
use mcp_context_server::response::{JsonRpcError, JsonRpcResponse, ToolResult};
use mcp_context_server::server::{tool_reply, McpServer, Step, ToolWork, MAX_MESSAGE_BYTES};
use mcp_context_server::text::trim;

fn server() -> McpServer {
    McpServer::new(ServerConfig {
        cache_root: "/srv/caches".to_string(),
        tool_timeout: DEFAULT_TOOL_TIMEOUT_SECS,
    })
}

fn ready_server() -> McpServer {
    let mut s = server();
    let step = s.handle_line(b"{\"jsonrpc\":\"2.0\",\"id\":0,\"method\":\"initialize\",\"params\":{}}\n");
    assert!(matches!(step, Step::Reply(_)));
    assert!(s.is_initialized());
    s
}

fn reply(step: Step) -> String {
    match step {
        Step::Reply(line) => line,
        other => panic!("expected a reply, got {other:?}"),
    }
}

fn reply_json(step: Step) -> serde_json::Value {
    let line = reply(step);
    assert!(line.ends_with('\n'));
    assert_eq!(line.matches('\n').count(), 1);
    serde_json::from_str(line.trim_end()).unwrap()
}

fn tool_text(response: &serde_json::Value) -> serde_json::Value {
    let text = response["result"]["content"][0]["text"].as_str().unwrap();
    serde_json::from_str(text).unwrap()
}

#[test]
fn ping_reply_is_exact() {
    let mut s = ready_server();
    let line = reply(s.handle_line(b"{\"jsonrpc\":\"2.0\",\"id\":1,\"method\":\"ping\"}\n"));
    assert_eq!(line, "{\"jsonrpc\":\"2.0\",\"id\":1,\"result\":{}}\n");
}

#[test]
fn string_id_is_echoed() {
    let mut s = ready_server();
    let line = reply(s.handle_line(b"{\"jsonrpc\":\"2.0\",\"id\":\"a\\\"b\",\"method\":\"ping\"}"));
    assert_eq!(line, "{\"jsonrpc\":\"2.0\",\"id\":\"a\\\"b\",\"result\":{}}\n");
}

#[test]
fn initialize_announces_server() {
    let mut s = server();
    let v = reply_json(s.handle_line(b"{\"jsonrpc\":\"2.0\",\"id\":7,\"method\":\"initialize\"}"));
    assert_eq!(v["id"], 7);
    assert_eq!(v["result"]["protocolVersion"], "2024-11-05");
    assert_eq!(v["result"]["serverInfo"]["name"], "mcp-context-server");
    assert!(v["result"]["capabilities"]["tools"].is_object());
    assert!(s.is_initialized());
}

#[test]
fn requests_before_initialize_are_refused() {
    let mut s = server();
    let v = reply_json(s.handle_line(b"{\"jsonrpc\":\"2.0\",\"id\":1,\"method\":\"tools/list\"}"));
    assert_eq!(v["error"]["code"], -32600);
    assert_eq!(v["error"]["message"], "Server not initialized");
    assert_eq!(v["id"], 1);
    assert!(!s.is_initialized());
}

#[test]
fn notifications_before_initialize_are_dropped() {
    let mut s = server();
    let step = s.handle_line(b"{\"jsonrpc\":\"2.0\",\"method\":\"notifications/initialized\"}");
    assert!(matches!(step, Step::Skip));
    let step = s.handle_line(b"{\"jsonrpc\":\"2.0\",\"method\":\"ping\"}");
    assert!(matches!(step, Step::Skip));
    assert!(!s.is_initialized());
}

#[test]
fn initialized_notification_after_handshake_is_silent() {
    let mut s = ready_server();
    let step = s.handle_line(b"{\"jsonrpc\":\"2.0\",\"method\":\"notifications/initialized\"}");
    assert!(matches!(step, Step::Skip));
    assert!(s.is_initialized());
    let v = reply_json(s.handle_line(b"{\"jsonrpc\":\"2.0\",\"id\":2,\"method\":\"ping\"}"));
    assert!(v["result"].is_object());
}

#[test]
fn unknown_method_is_method_not_found() {
    let mut s = ready_server();
    let v = reply_json(s.handle_line(b"{\"jsonrpc\":\"2.0\",\"id\":5,\"method\":\"tools/frobnicate\"}"));
    assert_eq!(v["error"]["code"], -32601);
    assert_eq!(v["error"]["message"], "Method not found: tools/frobnicate");
    assert!(v.get("result").is_none());
}

#[test]
fn notifications_draw_no_protocol_errors() {
    let mut s = ready_server();
    assert!(matches!(s.handle_line(b"{\"jsonrpc\":\"2.0\",\"method\":\"tools/frobnicate\"}"), Step::Skip));
    assert!(matches!(s.handle_line(b"{\"jsonrpc\":\"1.0\",\"method\":\"ping\"}"), Step::Skip));
    assert!(matches!(s.handle_line(b"{\"jsonrpc\":\"2.0\",\"method\":\"tools/call\"}"), Step::Skip));
    let line = reply(s.handle_line(b"{\"jsonrpc\":\"2.0\",\"method\":\"ping\"}"));
    assert_eq!(line, "{\"jsonrpc\":\"2.0\",\"result\":{}}\n");
}

#[test]
fn oversized_frame_is_parse_error() {
    let mut s = ready_server();
    let mut frame = vec![b' '; MAX_MESSAGE_BYTES];
    frame.push(b'\n');
    let line = reply(s.handle_line(&frame));
    assert_eq!(line, "{\"jsonrpc\":\"2.0\",\"error\":{\"code\":-32700,\"message\":\"Parse error\"}}\n");
}

#[test]
fn invalid_utf8_is_parse_error() {
    let mut s = ready_server();
    let v = reply_json(s.handle_line(&[b'{', 0xff, 0xfe, b'}', b'\n']));
    assert_eq!(v["error"]["code"], -32700);
    assert!(v.get("id").is_none());
}

#[test]
fn blank_frames_are_skipped() {
    let mut s = ready_server();
    assert!(matches!(s.handle_line(b"   \t\r\n"), Step::Skip));
    assert!(matches!(s.handle_line(b"\n"), Step::Skip));
}

#[test]
fn malformed_json_and_envelopes_are_parse_errors() {
    let mut s = ready_server();
    for frame in [&b"{not json\n"[..], b"[1,2]\n", b"{\"jsonrpc\":\"2.0\",\"id\":1}\n", b"{\"jsonrpc\":\"2.0\",\"id\":1.5,\"method\":\"ping\"}\n"] {
        let v = reply_json(s.handle_line(frame));
        assert_eq!(v["error"]["code"], -32700);
    }
}

#[test]
fn wrong_version_is_invalid_request() {
    let mut s = ready_server();
    let v = reply_json(s.handle_line(b"{\"jsonrpc\":\"1.0\",\"id\":9,\"method\":\"ping\"}"));
    assert_eq!(v["error"]["code"], -32600);
    assert_eq!(v["error"]["message"], "Invalid Request");
    assert_eq!(v["id"], 9);
}

#[test]
fn tools_call_without_params_is_invalid_params() {
    let mut s = ready_server();
    let v = reply_json(s.handle_line(b"{\"jsonrpc\":\"2.0\",\"id\":3,\"method\":\"tools/call\"}"));
    assert_eq!(v["error"]["code"], -32602);
    let v = reply_json(s.handle_line(b"{\"jsonrpc\":\"2.0\",\"id\":3,\"method\":\"tools/call\",\"params\":{\"arguments\":{}}}"));
    assert_eq!(v["error"]["code"], -32602);
    assert_eq!(v["error"]["message"], "Invalid tools/call params: missing field `name`");
}

#[test]
fn unknown_tool_is_tool_error() {
    let mut s = ready_server();
    let v = reply_json(s.handle_line(b"{\"jsonrpc\":\"2.0\",\"id\":4,\"method\":\"tools/call\",\"params\":{\"name\":\"context.nope\"}}"));
    assert_eq!(v["result"]["isError"], true);
    assert_eq!(v["result"]["content"][0]["text"], "Unknown tool: context.nope");
    assert_eq!(v["result"]["content"][0]["type"], "text");
}

#[test]
fn bad_tool_arguments_are_tool_errors() {
    let mut s = ready_server();
    let v = reply_json(s.handle_line(b"{\"jsonrpc\":\"2.0\",\"id\":4,\"method\":\"tools/call\",\"params\":{\"name\":\"context.resolve\",\"arguments\":{\"cache\":\"c\",\"query\":\"q\",\"budget\":\"ten\"}}}"));
    assert_eq!(v["result"]["isError"], true);
    assert_eq!(
        v["result"]["content"][0]["text"],
        "Invalid arguments for context.resolve: invalid type for field `budget`"
    );
    let v = reply_json(s.handle_line(b"{\"jsonrpc\":\"2.0\",\"id\":4,\"method\":\"tools/call\",\"params\":{\"name\":\"context.inspect_cache\",\"arguments\":{\"name\":\"c\"}}}"));
    assert_eq!(
        v["result"]["content"][0]["text"],
        "Invalid arguments for context.inspect_cache: missing field `cache`"
    );
    let v = reply_json(s.handle_line(b"{\"jsonrpc\":\"2.0\",\"id\":4,\"method\":\"tools/call\",\"params\":{\"name\":\"context.resolve\",\"arguments\":[1]}}"));
    assert_eq!(
        v["result"]["content"][0]["text"],
        "Invalid arguments for context.resolve: expected an object"
    );
    let v = reply_json(s.handle_line(b"{\"jsonrpc\":\"2.0\",\"id\":4,\"method\":\"tools/call\",\"params\":{\"name\":\"context.inspect_cache\"}}"));
    assert_eq!(v["result"]["content"][0]["text"], "Missing arguments for context.inspect_cache");
}

#[test]
fn negative_budget_is_refused_before_any_work() {
    let mut s = ready_server();
    let step = s.handle_line(b"{\"jsonrpc\":\"2.0\",\"id\":6,\"method\":\"tools/call\",\"params\":{\"name\":\"context.resolve\",\"arguments\":{\"cache\":\"missing-dir\",\"query\":\"q\",\"budget\":-1}}}");
    let v = reply_json(step);
    assert_eq!(v["result"]["isError"], true);
    let err = tool_text(&v);
    assert_eq!(err["error"]["code"], "invalid_budget");
    assert_eq!(err["error"]["message"], "Budget is invalid");
}

#[test]
fn resolve_of_missing_dir_is_cache_missing() {
    let mut s = ready_server();
    let step = s.handle_line(b"{\"jsonrpc\":\"2.0\",\"id\":8,\"method\":\"tools/call\",\"params\":{\"name\":\"context.resolve\",\"arguments\":{\"cache\":\"missing-dir\",\"query\":\"deployment\",\"budget\":4000}}}");
    let call = match step {
        Step::Call(call) => call,
        other => panic!("expected a tool call, got {other:?}"),
    };
    match &call.work {
        ToolWork::Resolve { cache, query, budget } => {
            assert_eq!(cache, "missing-dir");
            assert_eq!(query, "deployment");
            assert_eq!(*budget, 4000);
        }
        other => panic!("unexpected work {other:?}"),
    }
    let probe = PathProbe { candidate: None, root: Some(b"/srv/caches".to_vec()), is_dir: false };
    let result = match resolve_cache_path("missing-dir", probe) {
        Err(e) => ToolResult::from_mcp(e),
        Ok(_) => panic!("a missing directory must not resolve"),
    };
    let line = tool_reply(call.id, &result);
    let v: serde_json::Value = serde_json::from_str(line.trim_end()).unwrap();
    assert_eq!(v["id"], 8);
    assert_eq!(v["result"]["isError"], true);
    assert_eq!(tool_text(&v)["error"]["code"], "cache_missing");
}

#[test]
fn traversal_names_are_refused_by_every_tool() {
    let names = ["..", "a/../b", "/etc", "\\share", "x..y"];
    for name in names {
        for tool in ["context.resolve", "context.inspect_cache"] {
            let mut s = ready_server();
            let cache = serde_json::to_string(name).unwrap();
            let args = format!("{{\"cache\":{cache},\"query\":\"q\",\"budget\":1}}");
            let params = format!("{{\"name\":\"{tool}\",\"arguments\":{args}}}");
            let frame = format!("{{\"jsonrpc\":\"2.0\",\"id\":1,\"method\":\"tools/call\",\"params\":{params}}}");
            let v = reply_json(s.handle_line(frame.as_bytes()));
            assert_eq!(v["result"]["isError"], true, "{tool} {name}");
            assert_eq!(tool_text(&v)["error"]["code"], "cache_missing");
        }
        assert!(check_cache_name(name).is_err());
    }
    assert!(check_cache_name("cache.v1").is_ok());
    assert!(check_cache_name("").is_ok());
}

#[test]
fn containment_respects_component_boundaries() {
    assert!(is_within_root(&b"/srv/caches/a".to_vec(), &b"/srv/caches".to_vec()));
    assert!(is_within_root(&b"/srv/caches".to_vec(), &b"/srv/caches".to_vec()));
    assert!(!is_within_root(&b"/srv/cachesx/a".to_vec(), &b"/srv/caches".to_vec()));
    assert!(!is_within_root(&b"/srv".to_vec(), &b"/srv/caches".to_vec()));
    assert!(is_within_root(&b"/anything".to_vec(), &b"/".to_vec()));
}

#[test]
fn path_resolution_failures() {
    let escaped = PathProbe { candidate: Some(b"/elsewhere".to_vec()), root: Some(b"/srv/caches".to_vec()), is_dir: true };
    let e = resolve_cache_path("link", escaped).unwrap_err();
    assert_eq!(e.error.code, McpErrorCode::CacheMissing);
    let not_dir = PathProbe { candidate: Some(b"/srv/caches/f".to_vec()), root: Some(b"/srv/caches".to_vec()), is_dir: false };
    assert_eq!(resolve_cache_path("f", not_dir).unwrap_err().error.code, McpErrorCode::CacheMissing);
    let no_root = PathProbe { candidate: Some(b"/srv/caches/c".to_vec()), root: None, is_dir: true };
    let e = resolve_cache_path("c", no_root).unwrap_err();
    assert_eq!(e.error.code, McpErrorCode::IoError);
    assert_eq!(e.error.message, "I/O error occurred");
    let ok = PathProbe { candidate: Some(b"/srv/caches/c".to_vec()), root: Some(b"/srv/caches".to_vec()), is_dir: true };
    assert_eq!(resolve_cache_path("c", ok).unwrap(), b"/srv/caches/c".to_vec());
    let odd = PathProbe { candidate: Some(vec![b'/', b'r', 0xff, b'/', b'c']), root: Some(vec![b'/', b'r', 0xff]), is_dir: true };
    assert_eq!(resolve_cache_path("c", odd).unwrap(), vec![b'/', b'r', 0xff, b'/', b'c']);
}

#[test]
fn listing_sorts_by_bytes_and_skips_non_directories() {
    let listing = vec![
        EntryProbe::Dir { name: "z".into(), manifest: ManifestProbe::Missing },
        EntryProbe::Dir { name: "é".into(), manifest: ManifestProbe::RegularFile },
        EntryProbe::NotDir,
        EntryProbe::Dir { name: "B".into(), manifest: ManifestProbe::Other },
        EntryProbe::Dir { name: "a".into(), manifest: ManifestProbe::RegularFile },
        EntryProbe::Dir { name: "ab".into(), manifest: ManifestProbe::RegularFile },
    ];
    let entries = list_cache_entries(true, Some(listing)).unwrap();
    let names: Vec<&str> = entries.iter().map(|e| e.path.as_str()).collect();
    assert_eq!(names, vec!["B", "a", "ab", "z", "é"]);
    assert!(!entries[0].has_manifest, "a manifest that is no regular file counts as absent");
    assert_eq!(
        listing_json(&entries),
        "{\"caches\":[{\"path\":\"B\",\"has_manifest\":false},{\"path\":\"a\",\"has_manifest\":true},{\"path\":\"ab\",\"has_manifest\":true},{\"path\":\"z\",\"has_manifest\":false},{\"path\":\"é\",\"has_manifest\":true}]}"
    );
}

#[test]
fn listing_failures() {
    let e = list_cache_entries(true, None).unwrap_err();
    assert_eq!(e.error.code, McpErrorCode::IoError);
    let e = list_cache_entries(true, Some(vec![EntryProbe::NotDir, EntryProbe::Failed])).unwrap_err();
    assert_eq!(e.error.code, McpErrorCode::IoError);
    let probe = EntryProbe::Dir { name: "c".into(), manifest: ManifestProbe::Failed };
    assert_eq!(list_cache_entries(true, Some(vec![probe])).unwrap_err().error.code, McpErrorCode::IoError);
    assert_eq!(list_cache_entries(false, Some(vec![])).unwrap_err().error.code, McpErrorCode::CacheMissing);
}

#[test]
fn inspect_report_text_is_exact() {
    let manifest = b"{\"cache_version\":\"sha256:abc\",\"document_count\":2}".to_vec();
    let summary = read_manifest(ManifestFile::Bytes(manifest)).unwrap();
    let entries = vec![
        SizeProbe::Regular(500),
        SizeProbe::Symlink,
        SizeProbe::Other,
        SizeProbe::Regular(12),
    ];
    let result = inspect_cache_result(Ok(summary), Some(entries));
    assert!(!result.is_error);
    assert_eq!(
        result.content[0].text,
        "{\"cache_version\":\"sha256:abc\",\"document_count\":2,\"total_bytes\":512,\"valid\":true}"
    );
}

#[test]
fn inspect_degrades_to_invalid() {
    let zeroed = "{\"cache_version\":\"\",\"document_count\":0,\"total_bytes\":0,\"valid\":false}";
    let cases: Vec<ManifestFile> = vec![
        ManifestFile::Missing,
        ManifestFile::Bytes(b"{\"cache_version\":\"v1\"}".to_vec()),
        ManifestFile::Bytes(b"{\"cache_version\":7,\"document_count\":1}".to_vec()),
        ManifestFile::Bytes(b"{\"cache_version\":\"v1\",\"document_count\":-1}".to_vec()),
        ManifestFile::Bytes(vec![0xff, 0x00]),
        ManifestFile::Bytes(b"[]".to_vec()),
    ];
    for file in cases {
        let result = inspect_cache_result(read_manifest(file), Some(vec![SizeProbe::Regular(1)]));
        assert!(!result.is_error);
        assert_eq!(result.content[0].text, zeroed);
    }
    let summary = ManifestSummary { cache_version: "v".into(), document_count: 3 };
    let kept = "{\"cache_version\":\"v\",\"document_count\":3,\"total_bytes\":0,\"valid\":false}";
    let report = inspect_report(Some(summary.clone()), None);
    assert_eq!(report.to_json(), kept);
    let report = inspect_report(Some(summary.clone()), Some(vec![SizeProbe::Regular(u64::MAX), SizeProbe::Regular(1)]));
    assert_eq!(report.to_json(), kept);
    let report = inspect_report(Some(summary), Some(vec![SizeProbe::Regular(5), SizeProbe::Failed]));
    assert_eq!(report.to_json(), kept);
}

#[test]
fn unopenable_manifest_is_io_error() {
    let e = read_manifest(ManifestFile::Unreadable).unwrap_err();
    assert_eq!(e.error.code, McpErrorCode::IoError);
    let result = inspect_cache_result(Err(e), Some(Vec::new()));
    assert!(result.is_error);
    assert_eq!(result.content[0].text, "{\"error\":{\"code\":\"io_error\",\"message\":\"I/O error occurred\"}}\n");
}

#[test]
fn report_json_renders_fields() {
    let r = InspectReport { cache_version: "v\"1".into(), document_count: 10, total_bytes: 0, valid: true };
    assert_eq!(r.to_json(), "{\"cache_version\":\"v\\\"1\",\"document_count\":10,\"total_bytes\":0,\"valid\":true}");
}

#[test]
fn budget_checks() {
    assert_eq!(check_budget(0).unwrap(), 0);
    assert_eq!(check_budget(i64::MAX).unwrap(), i64::MAX as u64);
    let e = check_budget(-1).unwrap_err();
    assert_eq!(e.error.code, McpErrorCode::InvalidBudget);
}

#[test]
fn resolve_outcomes_map_to_errors() {
    let result = resolve_result(SelectionOutcome::Selected("{\"documents\":[]}".into()));
    assert!(!result.is_error);
    assert_eq!(result.content[0].text, "{\"documents\":[]}\n");
    let cases = [
        (SelectionOutcome::ManifestMissing, "cache_invalid"),
        (SelectionOutcome::ManifestUnreadable, "io_error"),
        (SelectionOutcome::ManifestInvalid, "cache_invalid"),
        (SelectionOutcome::SelectionFailed, "internal_error"),
        (SelectionOutcome::TimedOut, "internal_error"),
        (SelectionOutcome::WorkerFailed, "internal_error"),
    ];
    for (outcome, code) in cases {
        let result = resolve_result(outcome);
        assert!(result.is_error);
        let v: serde_json::Value = serde_json::from_str(&result.content[0].text).unwrap();
        assert_eq!(v["error"]["code"], code);
    }
}

#[test]
fn error_codes_and_messages() {
    let all = [
        (McpErrorCode::CacheMissing, "cache_missing", "Cache does not exist", -32602),
        (McpErrorCode::CacheInvalid, "cache_invalid", "Cache exists but is invalid", -32602),
        (McpErrorCode::InvalidQuery, "invalid_query", "Query is invalid", -32602),
        (McpErrorCode::InvalidBudget, "invalid_budget", "Budget is invalid", -32602),
        (McpErrorCode::IoError, "io_error", "I/O error occurred", -32603),
        (McpErrorCode::InternalError, "internal_error", "Internal error", -32603),
    ];
    for (code, name, message, rpc) in all {
        assert_eq!(code.json_rpc_code(), rpc);
        assert_eq!(code.as_str(), name);
        let e = McpErrorResponse::canonical(code);
        assert_eq!(e.error.message, message);
        assert_eq!(e.to_json(), format!("{{\"error\":{{\"code\":\"{name}\",\"message\":\"{message}\"}}}}"));
    }
}

#[test]
fn domain_error_as_protocol_error() {
    let e = JsonRpcError::from_mcp(McpErrorResponse::canonical(McpErrorCode::CacheInvalid));
    assert_eq!(e.code, -32602);
    assert_eq!(e.message, "Cache exists but is invalid");
    assert_eq!(e.data.as_deref(), Some("{\"error\":{\"code\":\"cache_invalid\",\"message\":\"Cache exists but is invalid\"}}"));
    let line = JsonRpcResponse::error(Some(RpcId::Number(-4)), e).to_line();
    assert_eq!(
        line,
        "{\"jsonrpc\":\"2.0\",\"id\":-4,\"error\":{\"code\":-32602,\"message\":\"Cache exists but is invalid\",\"data\":{\"error\":{\"code\":\"cache_invalid\",\"message\":\"Cache exists but is invalid\"}}}}\n"
    );
}

#[test]
fn domain_error_as_tool_result() {
    let msg = "quote \" and \\ and \n newline";
    let r = ToolResult::from_mcp(McpErrorResponse::new(McpErrorCode::InvalidQuery, msg));
    assert!(r.is_error);
    assert!(r.content[0].text.ends_with('\n'));
    let v: serde_json::Value = serde_json::from_str(&r.content[0].text).unwrap();
    assert_eq!(v["error"]["message"], msg);
    assert_eq!(
        r.to_json(),
        format!("{{\"content\":[{{\"text\":{},\"type\":\"text\"}}],\"isError\":true}}", serde_json::to_string(&r.content[0].text).unwrap())
    );
    let ok = ToolResult::text("x".to_string());
    assert_eq!(ok.to_json(), "{\"content\":[{\"text\":\"x\",\"type\":\"text\"}]}");
}

#[test]
fn decimal_rendering() {
    assert_eq!(decimal_text(0), "0");
    assert_eq!(decimal_text(512), "512");
    assert_eq!(decimal_text(u64::MAX), "18446744073709551615");
    assert_eq!(signed_decimal_text(-32700), "-32700");
    assert_eq!(signed_decimal_text(i64::MIN), "-9223372036854775808");
}

#[test]
fn trimming_white_space() {
    assert_eq!(trim("\u{a0} \t{}\r\n"), "{}");
    assert_eq!(trim("   "), "");
    assert_eq!(trim("a b"), "a b");
}
