use cc_switch::dispatch::{dispatch, dispatch_inner, typed_members, ArgValue, Body, ParamKind, Route, BODY_LIMIT};
use cc_switch::json::{JsonNumber, JsonValue};
use cc_switch::reply::{error_body, json_ok, json_val, text_reply, ContentKind, Reply};
use cc_switch::table::lookup_command_params;

fn s(text: &str) -> JsonValue {
    JsonValue::Str(text.to_string())
}

fn obj(members: Vec<(&str, JsonValue)>) -> Option<JsonValue> {
    Some(JsonValue::Object(
        members.into_iter().map(|(k, v)| (k.to_string(), v)).collect(),
    ))
}

fn answer(route: Route) -> Reply {
    match route {
        Route::Answer(r) => r,
        Route::Run(c) => panic!("expected an answer, got a run of {}", c.command),
    }
}

#[test]
fn unknown_command_is_answered_404() {
    let r = answer(dispatch_inner("no_such_command", &None, &vec![]));
    assert_eq!(r.status, 404);
    assert_eq!(r.body, "{\"error\":\"Unknown command: no_such_command\"}");
    assert!(r.content == ContentKind::Json);
}

#[test]
fn missing_argument_is_answered_400() {
    let r = answer(dispatch_inner("get_providers", &obj(vec![]), &vec![]));
    assert_eq!(r.status, 400);
    assert_eq!(r.body, "{\"error\":\"Missing required string field: app\"}");
}

#[test]
fn first_failing_argument_is_reported() {
    let args = obj(vec![("newName", s("x"))]);
    let r = answer(dispatch_inner("rename_db_backup", &args, &vec![]));
    assert_eq!(
        r.body,
        "{\"error\":\"Missing required string field: oldFilename\"}"
    );
}

#[test]
fn known_command_runs_with_its_arguments() {
    let args = obj(vec![("app", s("codex")), ("id", s("p1"))]);
    match dispatch_inner("switch_provider", &args, &vec![]) {
        Route::Run(call) => {
            assert_eq!(call.command, "switch_provider");
            assert_eq!(call.params.len(), 2);
            assert_eq!(call.params[0].key, "app");
            assert_eq!(call.params[1].key, "id");
            assert!(matches!(&call.args[0], ArgValue::Str(a) if a == "codex"));
            assert!(matches!(&call.args[1], ArgValue::Str(a) if a == "p1"));
        }
        Route::Answer(_) => panic!("switch_provider should run"),
    }
}

#[test]
fn optional_arguments_fill_in_as_absent() {
    let args = obj(vec![("providerId", s("p")), ("app", s("codex")), ("scriptCode", s("x"))]);
    match dispatch_inner("testUsageScript", &args, &vec![]) {
        Route::Run(call) => {
            assert_eq!(call.args.len(), 9);
            assert!(matches!(call.args[3], ArgValue::OptU64(None)));
            assert!(matches!(call.args[4], ArgValue::OptStr(None)));
        }
        Route::Answer(_) => panic!("testUsageScript should run"),
    }
}

#[test]
fn typed_argument_rejected_by_its_decoder_is_reported() {
    let args = obj(vec![("app", s("codex")), ("provider", s("not an object"))]);
    let rejections = vec![("provider".to_string(), "invalid type: string".to_string())];
    let r = answer(dispatch_inner("add_provider", &args, &rejections));
    assert_eq!(r.status, 400);
    assert_eq!(r.body, "{\"error\":\"Invalid provider: invalid type: string\"}");
}

#[test]
fn rejected_typed_argument_wins_over_a_later_missing_one() {
    let args = obj(vec![("filters", s("bad"))]);
    let rejections = vec![("filters".to_string(), "expected a map".to_string())];
    let r = answer(dispatch_inner("get_request_logs", &args, &rejections));
    assert_eq!(r.body, "{\"error\":\"Invalid filters: expected a map\"}");
    let r2 = answer(dispatch_inner("get_request_logs", &args, &vec![]));
    assert_eq!(r2.body, "{\"error\":\"Missing required integer field: page\"}");
}

#[test]
fn optional_typed_argument_is_dropped_when_rejected() {
    let args = obj(vec![("wslShellByTool", s("x"))]);
    let rejections = vec![("wslShellByTool".to_string(), "bad".to_string())];
    match dispatch_inner("get_tool_versions", &args, &rejections) {
        Route::Run(call) => assert!(matches!(call.args[1], ArgValue::OptTyped(false))),
        Route::Answer(_) => panic!("get_tool_versions should run"),
    }
    match dispatch_inner("get_tool_versions", &args, &vec![]) {
        Route::Run(call) => assert!(matches!(call.args[1], ArgValue::OptTyped(true))),
        Route::Answer(_) => panic!("get_tool_versions should run"),
    }
}

#[test]
fn tray_menu_is_answered_true() {
    let r = answer(dispatch_inner("update_tray_menu", &None, &vec![]));
    assert_eq!(r.status, 200);
    assert_eq!(r.body, "true");
}

#[test]
fn unreadable_body_is_answered_400_text() {
    let r = answer(dispatch("get_settings", &Body::Unreadable, &vec![]));
    assert_eq!(r.status, 400);
    assert_eq!(r.body, "Failed to read body");
    assert!(r.content == ContentKind::Text);
}

#[test]
fn body_that_is_not_json_gives_no_arguments() {
    match dispatch("get_settings", &Body::Read(None), &vec![]) {
        Route::Run(call) => assert!(call.args.is_empty()),
        Route::Answer(_) => panic!("get_settings needs no argument"),
    }
    let r = answer(dispatch("delete_db_backup", &Body::Read(None), &vec![]));
    assert_eq!(r.body, "{\"error\":\"Missing required string field: filename\"}");
}

#[test]
fn table_lists_argument_kinds_in_order() {
    let ps = lookup_command_params("get_request_logs").unwrap();
    let kinds: Vec<ParamKind> = ps.iter().map(|p| p.kind).collect();
    assert!(kinds == vec![ParamKind::ReqTyped, ParamKind::ReqU32, ParamKind::ReqU32]);
    let keys: Vec<&str> = ps.iter().map(|p| p.key).collect();
    assert_eq!(keys, vec!["filters", "page", "pageSize"]);
    assert!(lookup_command_params("get_usage_summary").unwrap()[0].kind == ParamKind::OptI64);
    assert!(lookup_command_params("search_skills_sh").unwrap()[1].kind == ParamKind::ReqUsize);
    assert!(lookup_command_params("update_tray_menu").is_none());
    assert!(lookup_command_params("").is_none());
}

#[test]
fn usage_summary_reads_integer_dates() {
    let args = obj(vec![
        ("startDate", JsonValue::Number(JsonNumber::NegInt(-5))),
        ("appType", s("codex")),
    ]);
    match dispatch_inner("get_usage_summary", &args, &vec![]) {
        Route::Run(call) => {
            assert!(matches!(call.args[0], ArgValue::OptI64(Some(-5))));
            assert!(matches!(call.args[1], ArgValue::OptI64(None)));
            assert!(matches!(&call.args[2], ArgValue::OptStr(Some(a)) if a == "codex"));
        }
        Route::Answer(_) => panic!("get_usage_summary should run"),
    }
}

#[test]
fn error_bodies_escape_the_message() {
    assert_eq!(error_body("a\"b\\c\n"), "{\"error\":\"a\\\"b\\\\c\\n\"}");
    assert_eq!(error_body("\u{1}"), "{\"error\":\"\\u0001\"}");
    assert_eq!(error_body("配置"), "{\"error\":\"配置\"}");
}

#[test]
fn command_failure_is_never_answered_200() {
    let r = json_ok(Err(text_reply("boom".to_string())));
    assert_eq!(r.status, 500);
    assert_eq!(r.body, "boom");
    assert!(r.content == ContentKind::Text);
    let kept = json_ok(Err(Reply { status: 404, body: "x".to_string(), content: ContentKind::Json }));
    assert_eq!(kept.status, 404);
    let ok = json_ok(Ok("[1,2]".to_string()));
    assert_eq!(ok.status, 200);
    assert_eq!(ok.body, "[1,2]");
    assert_eq!(json_val("null".to_string()).status, 200);
}

#[test]
fn decoders_are_asked_about_present_typed_members_only() {
    let ps = lookup_command_params("add_provider").unwrap();
    let with = obj(vec![("app", s("codex")), ("provider", s("x")), ("addToLive", JsonValue::Bool(true))]);
    assert_eq!(typed_members(&ps, &with), vec!["provider"]);
    assert!(typed_members(&ps, &obj(vec![("app", s("codex"))])).is_empty());
    let tools = lookup_command_params("get_tool_versions").unwrap();
    let both = obj(vec![("tools", s("x")), ("wslShellByTool", s("y"))]);
    assert_eq!(typed_members(&tools, &both), vec!["wslShellByTool"]);
    assert_eq!(BODY_LIMIT, 1048576);
}

#[test]
fn members_a_command_does_not_read_are_ignored() {
    let plain = obj(vec![("app", s("codex")), ("id", s("p1"))]);
    let extra = obj(vec![("zzz", JsonValue::Null), ("id", s("p1")), ("app", s("codex")), ("x", s("y"))]);
    for args in [plain, extra] {
        match dispatch_inner("delete_provider", &args, &vec![]) {
            Route::Run(call) => {
                assert!(matches!(&call.args[0], ArgValue::Str(a) if a == "codex"));
                assert!(matches!(&call.args[1], ArgValue::Str(a) if a == "p1"));
            }
            Route::Answer(_) => panic!("delete_provider should run"),
        }
    }
    assert_eq!(error_body("plain text"), "{\"error\":\"plain text\"}");
}

#[test]
fn dialogs_are_answered_500_by_dispatch() {
    for command in ["open_file_dialog", "open_zip_file_dialog"] {
        for body in [Body::Read(obj(vec![])), Body::Read(None)] {
            let r = answer(dispatch(command, &body, &vec![]));
            assert_eq!(r.status, 500);
            assert_eq!(r.body, "Server mode: file dialog is not available");
            assert!(r.content == ContentKind::Text);
        }
    }
    let r = answer(dispatch("save_file_dialog", &Body::Read(obj(vec![("defaultName", s("a.sql"))])), &vec![]));
    assert_eq!(r.status, 500);
    assert_eq!(r.body, "Server mode: file dialog is not available");
    assert!(r.content == ContentKind::Text);
    let r = answer(dispatch("save_file_dialog", &Body::Read(obj(vec![])), &vec![]));
    assert_eq!(r.status, 400);
    assert_eq!(r.body, "{\"error\":\"Missing required string field: defaultName\"}");
}
