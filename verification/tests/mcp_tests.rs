use torii::ai::create_task_tool;
use torii::mcp::{
    ai_error, ai_not_configured, default_limit, ingest_item, invalid_params, parse_gate, route,
    storage_error, tool_descriptors, tool_method_name, tool_names, IngestParams, InputType, Method,
};
use torii::{IntakeError, RawItemKind, RawItemStatus};

#[test]
fn create_task_tool_shape() {
    let t = create_task_tool();
    assert_eq!(t.name, "create_task");
    assert_eq!(t.required[0], "title");
    let names: Vec<&str> = t.parameters.iter().map(|p| p.name).collect();
    assert_eq!(names, ["title", "description", "priority", "status"]);
    assert_eq!(t.parameters[2].choices, ["p0", "p1", "p2", "p3"]);
    assert_eq!(t.parameters[3].choices, ["inbox", "todo", "in_progress", "done"]);
}

#[test]
fn tools_catalogue_matches_methods() {
    let names = tool_names();
    assert_eq!(names.len(), 3);
    let mut methods: Vec<Method> = names
        .iter()
        .map(|n| Method::from_name(&tool_method_name(n)).expect("tool must be dispatchable"))
        .collect();
    for m in [Method::IngestRaw, Method::ListRaw, Method::Parse] {
        let pos = methods.iter().position(|x| *x == m).expect("method must be advertised");
        methods.remove(pos);
    }
    assert!(methods.is_empty());
}

#[test]
fn tools_list_names_are_all_dispatchable() {
    for name in tool_names() {
        let method = tool_method_name(name);
        assert!(route(&method).is_ok(), "{method} must be real");
    }
}

#[test]
fn tool_method_name_replaces_first_underscore_only() {
    assert_eq!(tool_method_name("torii_ingest_raw"), "torii.ingest_raw");
    assert_eq!(tool_method_name("plain"), "plain");
    assert_eq!(tool_method_name("_x_y"), ".x_y");
}

#[test]
fn list_raw_and_unknown_method_rejected() {
    assert_eq!(route("torii.list_raw").unwrap(), Method::ListRaw);
    let e = route("torii.nope").unwrap_err();
    assert_eq!(e.status, 400);
    assert_eq!(e.error, "unknown_method");
    assert_eq!(e.detail, "torii.nope");
}

#[test]
fn method_names_route_back() {
    for m in [Method::IngestRaw, Method::ListRaw, Method::Parse] {
        assert_eq!(route(m.name()).unwrap(), m);
    }
}

#[test]
fn ingest_raw_builds_typed_raw_item() {
    let p = IngestParams {
        source: "webhook://gh/push".to_string(),
        kind: RawItemKind::from_wire("event"),
        body: "cache eviction regressed read latency".to_string(),
        link: Some("goal://g_1".to_string()),
    };
    let item = ingest_item(&p).build();
    assert_eq!(item.kind.as_str(), "event");
    assert_eq!(item.status.as_str(), "raw");
    assert_eq!(item.status, RawItemStatus::Raw);
    assert_eq!(item.source, "webhook://gh/push");
    assert_eq!(item.link.as_ref().unwrap().target, "goal://g_1");
    assert!(item.id.to_string().starts_with("ri_"));
}

#[test]
fn ingest_without_link_has_none() {
    let p = IngestParams {
        source: "test".to_string(),
        kind: RawItemKind::Text,
        body: "persist me".to_string(),
        link: None,
    };
    assert!(ingest_item(&p).link.is_none());
}

#[test]
fn parse_without_provider_is_honest_503() {
    let r = ai_not_configured();
    assert_eq!(r.status, 503);
    assert_eq!(r.error, "ai_not_configured");
}

#[test]
fn parse_provider_failure_is_502() {
    let r = ai_error(&IntakeError::ai("boom"));
    assert_eq!(r.status, 502);
    assert_eq!(r.error, "ai_upstream");
    assert_eq!(r.detail, "ai: boom");
    let r = ai_error(&IntakeError::serde("eof"));
    assert_eq!(r.status, 502);
}

#[test]
fn validation_failure_is_400() {
    let r = ai_error(&IntakeError::validation("create_task: missing required field 'title'"));
    assert_eq!(r.status, 400);
    assert_eq!(r.error, "validation");
    assert_eq!(r.detail, "create_task: missing required field 'title'");
}

#[test]
fn bad_params_and_storage_replies() {
    let r = invalid_params("missing field `kind`");
    assert_eq!((r.status, r.error.as_str()), (400, "invalid_params"));
    let r = storage_error("pool closed");
    assert_eq!((r.status, r.error.as_str(), r.detail.as_str()), (500, "storage_error", "pool closed"));
    assert_eq!(default_limit(), 100);
}

#[test]
fn tool_descriptors_describe_each_method() {
    let tools = tool_descriptors();
    let names: Vec<&str> = tools.iter().map(|t| t.name).collect();
    assert_eq!(names, tool_names());
    let ingest = &tools[0];
    let inputs: Vec<&str> = ingest.inputs.iter().map(|i| i.name).collect();
    assert_eq!(inputs, ["source", "kind", "body", "link"]);
    assert_eq!(ingest.required, ["source", "kind", "body"]);
    let limit = &tools[1].inputs[0];
    assert_eq!((limit.name, limit.kind, limit.minimum), ("limit", InputType::Integer, Some(1)));
    assert!(tools[1].required.is_empty());
    assert_eq!(tools[2].required, ["input"]);
    for t in &tools {
        for r in &t.required {
            assert!(t.inputs.iter().any(|i| i.name == *r));
        }
    }
}

#[test]
fn parse_gate_checks_params_then_provider() {
    assert!(parse_gate(Ok(()), true).is_ok());
    let e = parse_gate(Ok(()), false).unwrap_err();
    assert_eq!((e.status, e.error.as_str()), (503, "ai_not_configured"));
    let e = parse_gate(Err("missing field `input`"), true).unwrap_err();
    assert_eq!((e.status, e.error.as_str(), e.detail.as_str()), (400, "invalid_params", "missing field `input`"));
    let e = parse_gate(Err("missing field `input`"), false).unwrap_err();
    assert_eq!((e.status, e.error.as_str()), (400, "invalid_params"));
}
