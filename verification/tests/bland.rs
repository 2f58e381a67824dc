use std::collections::HashSet;

use switchboard_plugins::args::{ArgEntry, Args, RawValue};
use switchboard_plugins::bland::tools::tool_definitions;
use switchboard_plugins::bland::{
    compact_spec_map, configure, dispatch, finish_request, health_check, path_escape,
    prepare_request, query_escape, with_config, Config,
};
use switchboard_plugins::json::JsonKind;
use switchboard_plugins::request::{ApiRequest, Field, HttpBody, Method};

fn text(key: &str, v: &str) -> ArgEntry {
    ArgEntry {
        key: key.to_string(),
        text: v.to_string(),
        int: None,
        flag: None,
        raw: RawValue::Str(v.to_string()),
        number: if v.is_empty() {
            None
        } else {
            Some(v.parse::<f64>().map(|x| x.to_string()).map_err(|e| e.to_string()))
        },
    }
}

fn num(key: &str, n: i64) -> ArgEntry {
    ArgEntry {
        key: key.to_string(),
        text: String::new(),
        int: Some(n),
        flag: None,
        raw: RawValue::Json(JsonKind::Number, n.to_string()),
        number: Some(Ok(n.to_string())),
    }
}

fn flag(key: &str, b: bool) -> ArgEntry {
    ArgEntry {
        key: key.to_string(),
        text: String::new(),
        int: None,
        flag: Some(b),
        raw: RawValue::Json(JsonKind::Bool, b.to_string()),
        number: None,
    }
}

fn args(entries: Vec<ArgEntry>) -> Args {
    Args { entries }
}

fn member<'a>(f: &'a Field, key: &str) -> Option<&'a Field> {
    match f {
        Field::Object(ms) => ms.iter().rev().find(|(k, _)| k == key).map(|(_, v)| v),
        _ => None,
    }
}

fn header<'a>(h: &'a [(String, String)], name: &str) -> Option<&'a str> {
    h.iter().rev().find(|(k, _)| k == name).map(|(_, v)| v.as_str())
}

fn creds(pairs: &[(&str, &str)]) -> Vec<u8> {
    let m: std::collections::BTreeMap<&str, &str> = pairs.iter().cloned().collect();
    serde_json::to_vec(&m).unwrap()
}

#[test]
fn tool_definitions_have_required_metadata() {
    let defs = tool_definitions();
    assert_eq!(defs.len(), 30);

    let mut seen = HashSet::new();
    for def in defs {
        assert!(def.name.starts_with("bland_"));
        assert!(!def.description.is_empty());
        assert!(seen.insert(def.name));
    }
}

#[test]
fn entry_point_tools_have_start_here_guidance() {
    for def in tool_definitions() {
        if matches!(
            def.name.as_str(),
            "bland_list_calls"
                | "bland_list_voices"
                | "bland_list_pathways"
                | "bland_list_numbers"
                | "bland_list_knowledge_bases"
        ) {
            assert!(def.description.contains("Start here"), "{}", def.name);
        }
    }
}

#[test]
fn compact_specs_reference_known_tools() {
    let defs = tool_definitions().into_iter().map(|def| def.name).collect::<HashSet<_>>();
    for (name, _) in compact_spec_map() {
        assert!(defs.contains(&name), "{name}");
    }
}

#[test]
fn unknown_tool_returns_error_result() {
    let result = dispatch("bland_missing_tool", &Args::new());
    assert!(result.is_err());
    assert!(result.unwrap_err().contains("unknown tool"));
}

#[test]
fn escapes_path_and_query_components() {
    assert_eq!(path_escape("+1555 123/abc"), "%2B1555%20123%2Fabc");
    assert_eq!(query_escape("created_at desc"), "created_at%20desc");
}

#[test]
fn bland_dispatch_routes_every_listed_tool() {
    for def in tool_definitions() {
        if let Err(e) = dispatch(&def.name, &Args::new()) {
            assert!(!e.contains("unknown tool"), "{}", def.name);
        }
    }
}

#[test]
fn bland_list_calls_clamps_the_limit_and_escapes_the_query() {
    let a = args(vec![num("limit", 500), flag("ascending", true), text("sort_by", "created_at desc")]);
    let q = dispatch("bland_list_calls", &a).unwrap();
    assert_eq!(q.method, Method::Get);
    assert_eq!(q.path, "/calls?limit=100&ascending=true&sort_by=created_at%20desc");
    assert!(q.body.is_none());

    let q = dispatch("bland_list_calls", &Args::new()).unwrap();
    assert_eq!(q.path, "/calls?limit=20");
    let q = dispatch("bland_list_calls", &args(vec![num("limit", -3)])).unwrap();
    assert_eq!(q.path, "/calls?limit=1");
}

#[test]
fn bland_get_call_requires_and_escapes_the_id() {
    assert_eq!(dispatch("bland_get_call", &Args::new()), Err("call_id is required".to_string()));
    let q = dispatch("bland_get_call", &args(vec![text("call_id", "a/b c")])).unwrap();
    assert_eq!(q, ApiRequest { method: Method::Get, path: "/calls/a%2Fb%20c".to_string(), body: None });
}

#[test]
fn bland_send_call_needs_a_task_or_a_pathway() {
    let a = args(vec![text("phone_number", "+15551234567")]);
    assert_eq!(dispatch("bland_send_call", &a), Err("task or pathway_id is required".to_string()));
    assert_eq!(
        dispatch("bland_send_call", &args(vec![text("task", "hi")])),
        Err("phone_number is required".to_string())
    );
}

#[test]
fn bland_send_call_builds_its_body() {
    let a = args(vec![
        text("phone_number", "+15551234567"),
        text("task", "Say hello"),
        num("max_duration", 12),
        flag("record", true),
        text("temperature", "0.5"),
        text("metadata", "{\"b\": 2, \"a\": 1}"),
    ]);
    let q = dispatch("bland_send_call", &a).unwrap();
    assert_eq!(q.method, Method::Post);
    assert_eq!(q.path, "/calls");
    let body = q.body.unwrap();
    assert_eq!(member(&body, "phone_number"), Some(&Field::Str("+15551234567".to_string())));
    assert_eq!(member(&body, "task"), Some(&Field::Str("Say hello".to_string())));
    assert_eq!(member(&body, "pathway_id"), None);
    assert_eq!(member(&body, "max_duration"), Some(&Field::Int(12)));
    assert_eq!(member(&body, "record"), Some(&Field::Bool(true)));
    assert_eq!(member(&body, "temperature"), Some(&Field::Json("0.5".to_string())));
    assert_eq!(member(&body, "metadata"), Some(&Field::Json("{\"a\":1,\"b\":2}".to_string())));
}

#[test]
fn bland_send_call_reports_bad_numbers_and_json() {
    let base = || vec![text("phone_number", "+1"), text("task", "t")];
    let mut e = base();
    e.push(text("temperature", "warm"));
    let r = dispatch("bland_send_call", &args(e)).unwrap_err();
    assert!(r.starts_with("temperature must be a number: "), "{r}");

    let mut e = base();
    e.push(text("tools", "[1,"));
    let r = dispatch("bland_send_call", &args(e)).unwrap_err();
    assert!(r.starts_with("tools must be valid JSON: "), "{r}");
}

#[test]
fn bland_analyze_call_requires_a_question_array() {
    let base = || vec![text("call_id", "c1"), text("goal", "g")];
    assert_eq!(dispatch("bland_analyze_call", &args(base())), Err("questions is required".to_string()));
    let mut e = base();
    e.push(text("questions", "{\"q\": 1}"));
    assert_eq!(dispatch("bland_analyze_call", &args(e)), Err("questions must be a JSON array".to_string()));
    let mut e = base();
    e.push(text("questions", "[[\"Who?\", \"string\"]]"));
    let q = dispatch("bland_analyze_call", &args(e)).unwrap();
    assert_eq!(q.path, "/calls/c1/analyze");
    let body = q.body.unwrap();
    assert_eq!(member(&body, "goal"), Some(&Field::Str("g".to_string())));
    assert_eq!(member(&body, "questions"), Some(&Field::Json("[[\"Who?\",\"string\"]]".to_string())));
}

#[test]
fn bland_finish_request_reports_replies() {
    assert_eq!(finish_request(500, "boom"), Err("bland API error (500): boom".to_string()));
    assert_eq!(finish_request(204, "ignored"), Ok("{\"status\":\"success\"}".to_string()));
    assert_eq!(finish_request(200, ""), Ok("{\"status\":\"success\"}".to_string()));
    assert_eq!(finish_request(200, " {\"b\": [1, 2], \"a\": null} "), Ok("{\"a\":null,\"b\":[1,2]}".to_string()));
    let e = finish_request(200, "not json").unwrap_err();
    assert!(e.starts_with("bland: decode response: "), "{e}");
}

#[test]
fn bland_configure_checks_the_credentials() {
    let e = configure(b"{").unwrap_err();
    assert!(e.starts_with("bland: invalid credentials JSON: EOF"), "{e}");
    let e = configure(b"{\"api_key\": 5}").unwrap_err();
    assert!(e.starts_with("bland: invalid credentials JSON: "), "{e}");
    assert_eq!(configure(&creds(&[("org_id", "o")])), Err("bland: api_key is required".to_string()));
    assert_eq!(
        configure(&creds(&[("api_key", "k"), ("org_id", "o")])),
        Ok(Config { api_key: "k".to_string(), org_id: "o".to_string() })
    );
    assert_eq!(
        configure(&creds(&[("api_key", "k")])),
        Ok(Config { api_key: "k".to_string(), org_id: String::new() })
    );
}

#[test]
fn bland_with_config_needs_configure() {
    assert_eq!(with_config(&None), Err("bland: not configured".to_string()));
    let c = Some(Config { api_key: "k".to_string(), org_id: String::new() });
    assert_eq!(with_config(&c).unwrap().api_key, "k");
}

#[test]
fn bland_prepare_request_sets_the_headers() {
    let c = Config { api_key: "key".to_string(), org_id: "org".to_string() };
    let q = ApiRequest { method: Method::Post, path: "/calls".to_string(), body: Some(Field::Object(vec![])) };
    let h = prepare_request(&c, q);
    assert_eq!(h.url, "https://api.bland.ai/v1/calls");
    assert_eq!(h.method, Method::Post);
    assert_eq!(header(&h.headers, "Authorization"), Some("key"));
    assert_eq!(header(&h.headers, "Accept"), Some("application/json"));
    assert_eq!(header(&h.headers, "x-bland-org-id"), Some("org"));
    assert_eq!(header(&h.headers, "Content-Type"), Some("application/json"));
    assert_eq!(h.body, HttpBody::Json(Field::Object(vec![])));

    let c = Config { api_key: "key".to_string(), org_id: String::new() };
    let h = prepare_request(&c, health_check());
    assert_eq!(h.url, "https://api.bland.ai/v1/voices");
    assert_eq!(h.method, Method::Get);
    assert_eq!(header(&h.headers, "x-bland-org-id"), None);
    assert_eq!(header(&h.headers, "Content-Type"), None);
    assert_eq!(h.body, HttpBody::Empty);
}

#[test]
fn bland_compact_specs_keep_call_fields() {
    let specs = compact_spec_map();
    let calls = specs.iter().find(|(n, _)| n == "bland_list_calls").unwrap();
    assert_eq!(calls.1[0], "count");
    assert!(calls.1.contains(&"calls[].call_id".to_string()));
}

#[test]
fn bland_empty_json_arguments_count_as_not_given() {
    let base = || vec![text("org_id", "o1"), text("action", "add"), text("target", "t@x.io")];
    let mut e = base();
    e.push(text("permissions", ""));
    assert_eq!(
        dispatch("bland_update_org_member_permissions", &args(e)),
        Err("permissions is required".to_string())
    );
    let mut e = base();
    e.push(text("permissions", "[\"admin\"]"));
    let q = dispatch("bland_update_org_member_permissions", &args(e)).unwrap();
    assert_eq!(q.path, "/orgs/o1/members/permissions");
    assert_eq!(member(&q.body.unwrap(), "permissions"), Some(&Field::Json("[\"admin\"]".to_string())));

    assert_eq!(
        dispatch("bland_update_org_properties", &args(vec![text("org_id", "o1"), text("preferences", "")])),
        Err("at least one update field is required".to_string())
    );
    let q = dispatch(
        "bland_update_org_properties",
        &args(vec![text("org_id", "o1"), flag("use_bland_url", true)]),
    )
    .unwrap();
    let body = q.body.unwrap();
    let updates = member(&body, "updates").unwrap();
    assert_eq!(
        member(updates, "preferences"),
        Some(&Field::Object(vec![("use_bland_url".to_string(), Field::Bool(true))]))
    );
}
