use std::collections::HashSet;

use switchboard_plugins::args::{ArgEntry, Args, RawValue};
use switchboard_plugins::json::JsonKind;
use switchboard_plugins::looker::handlers::{
    clamp_limit, search_result, sql_run_request, sql_run_step, DEFAULT_ROW_LIMIT, MAX_ROW_LIMIT,
};
use switchboard_plugins::looker::tools::tool_definitions;
use switchboard_plugins::looker::{
    compact_spec_map, dispatch, form_encode, health_check, now_secs, path_escape, query_escape,
    with_config, Call, Config, Plan, Session, Step, DEFAULT_TOKEN_TTL_SECS,
};
use switchboard_plugins::request::{ApiRequest, Field, HttpBody, HttpCall, Method};
use switchboard_plugins::text::split_csv;

fn text(key: &str, v: &str) -> ArgEntry {
    ArgEntry {
        key: key.to_string(),
        text: v.to_string(),
        int: None,
        flag: None,
        raw: RawValue::Str(v.to_string()),
        number: None,
    }
}

fn num(key: &str, n: i64) -> ArgEntry {
    ArgEntry {
        key: key.to_string(),
        text: String::new(),
        int: Some(n),
        flag: None,
        raw: RawValue::Json(JsonKind::Number, n.to_string()),
        number: Some(Ok(n.to_string())),
    }
}

fn flag(key: &str, b: bool) -> ArgEntry {
    ArgEntry {
        key: key.to_string(),
        text: String::new(),
        int: None,
        flag: Some(b),
        raw: RawValue::Json(JsonKind::Bool, b.to_string()),
        number: None,
    }
}

fn args(entries: Vec<ArgEntry>) -> Args {
    Args { entries }
}

fn member<'a>(f: &'a Field, key: &str) -> Option<&'a Field> {
    match f {
        Field::Object(ms) => ms.iter().rev().find(|(k, _)| k == key).map(|(_, v)| v),
        _ => None,
    }
}

fn header<'a>(h: &'a [(String, String)], name: &str) -> Option<&'a str> {
    h.iter().rev().find(|(k, _)| k == name).map(|(_, v)| v.as_str())
}

fn call_of(p: Result<Plan, String>) -> ApiRequest {
    match p {
        Ok(Plan::Call(q)) => q,
        other => panic!("not a single request: {other:?}"),
    }
}

fn configured() -> Session {
    let mut s = Session::new();
    let input = creds(&[
        ("base_url", "https://acme.looker.com:19999/"),
        ("client_id", "id 1"),
        ("client_secret", "s+2"),
    ]);
    assert_eq!(s.configure(&input), Ok(()));
    s
}

fn creds(pairs: &[(&str, &str)]) -> Vec<u8> {
    let m: std::collections::BTreeMap<&str, &str> = pairs.iter().cloned().collect();
    serde_json::to_vec(&m).unwrap()
}

fn sent(step: Step) -> HttpCall {
    match step {
        Step::Send(h) => h,
        other => panic!("expected a request to send: {other:?}"),
    }
}

fn login(step: Step) -> HttpCall {
    match step {
        Step::Login(h) => h,
        other => panic!("expected a login: {other:?}"),
    }
}

#[test]
fn looker_tool_definitions_have_required_metadata() {
    let defs = tool_definitions();
    assert_eq!(defs.len(), 23);
    let mut seen = HashSet::new();
    for def in defs {
        assert!(def.name.starts_with("looker_"));
        assert!(!def.description.is_empty());
        assert!(seen.insert(def.name));
    }
}

#[test]
fn looker_entry_points_say_start_here() {
    for def in tool_definitions() {
        if def.name == "looker_search_content" {
            assert!(def.description.contains("Start here"));
        }
    }
}

#[test]
fn looker_compact_specs_reference_known_tools() {
    let defs = tool_definitions().into_iter().map(|def| def.name).collect::<HashSet<_>>();
    for (name, _) in compact_spec_map() {
        assert!(defs.contains(&name), "{name}");
        assert!(!name.starts_with("looker_run_"), "{name}");
    }
}

#[test]
fn looker_dispatch_routes_every_tool_and_rejects_others() {
    for def in tool_definitions() {
        if let Err(e) = dispatch(&def.name, &Args::new()) {
            assert!(!e.contains("unknown tool"), "{}", def.name);
        }
    }
    assert_eq!(dispatch("looker_nope", &Args::new()), Err("unknown tool: looker_nope".to_string()));
}

#[test]
fn looker_clamp_limit_applies_default_and_cap() {
    assert_eq!(clamp_limit(0), DEFAULT_ROW_LIMIT);
    assert_eq!(clamp_limit(-7), 100);
    assert_eq!(clamp_limit(1), 1);
    assert_eq!(clamp_limit(4999), 4999);
    assert_eq!(clamp_limit(5000), 5000);
    assert_eq!(clamp_limit(5001), MAX_ROW_LIMIT);
    assert_eq!(clamp_limit(i64::MAX), 5000);
    assert_eq!(clamp_limit(clamp_limit(123456)), clamp_limit(123456));
}

#[test]
fn looker_split_csv_trims_and_drops_empty_items() {
    assert_eq!(split_csv(" a, b ,,c,"), vec!["a".to_string(), "b".to_string(), "c".to_string()]);
    assert!(split_csv("").is_empty());
    assert!(split_csv(" , ").is_empty());
}

#[test]
fn looker_escapes() {
    assert_eq!(path_escape("a/b c"), "a%2Fb%20c");
    assert_eq!(query_escape("x=1&y"), "x%3D1%26y");
    assert_eq!(form_encode("s+2 ~"), "s%2B2%20~");
}

#[test]
fn looker_search_content_picks_the_requested_kinds() {
    assert_eq!(dispatch("looker_search_content", &Args::new()), Err("terms is required".to_string()));
    let a = args(vec![text("terms", "sales q1"), text("types", " Dashboard , FOLDER,bogus")]);
    match dispatch("looker_search_content", &a) {
        Ok(Plan::Search(v)) => assert_eq!(
            v,
            vec![
                ("dashboards".to_string(), "/dashboards/search?title=sales%20q1&limit=25&offset=0".to_string()),
                ("folders".to_string(), "/folders/search?name=sales%20q1&limit=25&offset=0".to_string()),
            ]
        ),
        other => panic!("{other:?}"),
    }
    let a = args(vec![text("terms", "x"), num("limit", 5), num("offset", 10)]);
    match dispatch("looker_search_content", &a) {
        Ok(Plan::Search(v)) => {
            assert_eq!(v.len(), 3);
            assert_eq!(v[1], ("looks".to_string(), "/looks/search?title=x&limit=5&offset=10".to_string()));
        },
        other => panic!("{other:?}"),
    }
}

#[test]
fn looker_search_result_merges_replies() {
    let r = search_result(vec![("dashboards".to_string(), "[1]".to_string()), ("looks".to_string(), "[]".to_string())]);
    assert_eq!(member(&r, "dashboards"), Some(&Field::Json("[1]".to_string())));
    assert_eq!(member(&r, "looks"), Some(&Field::Json("[]".to_string())));
    assert_eq!(member(&r, "folders"), None);
}

#[test]
fn looker_run_look_builds_its_query() {
    let a = args(vec![
        text("look_id", "42"),
        num("limit", 99999),
        flag("apply_formatting", true),
        flag("apply_vis", true),
        flag("cache", false),
    ]);
    let q = call_of(dispatch("looker_run_look", &a));
    assert_eq!(q.path, "/looks/42/run/json?limit=5000&apply_formatting=true&apply_vis=true&cache=false");
    let q = call_of(dispatch("looker_run_query", &args(vec![text("query_id", "7"), flag("apply_vis", true)])));
    assert_eq!(q.path, "/queries/7/run/json?limit=100");
    let q = call_of(dispatch("looker_run_look", &args(vec![text("look_id", "1"), flag("cache", true)])));
    assert_eq!(q.path, "/looks/1/run/json?limit=100");
}

#[test]
fn looker_inline_queries_carry_a_capped_limit() {
    let a = args(vec![
        text("model", "m"),
        text("view", "v"),
        text("fields", "a.x, a.y"),
        text("filters", "{\"a.x\": \"1\"}"),
        num("limit", 123456),
    ]);
    let q = call_of(dispatch("looker_run_inline_query", &a));
    assert_eq!(q.method, Method::Post);
    assert_eq!(q.path, "/queries/run/json");
    let body = q.body.unwrap();
    assert_eq!(member(&body, "limit"), Some(&Field::Str("5000".to_string())));
    assert_eq!(member(&body, "fields"), Some(&Field::List(vec!["a.x".to_string(), "a.y".to_string()])));
    assert_eq!(member(&body, "filters"), Some(&Field::Json("{\"a.x\":\"1\"}".to_string())));

    let a = args(vec![text("model", "m"), text("view", "v"), text("fields", "f")]);
    let q = call_of(dispatch("looker_create_query", &a));
    assert_eq!(q.path, "/queries");
    assert_eq!(member(&q.body.unwrap(), "limit"), Some(&Field::Str("500".to_string())));

    let mut e = vec![text("model", "m"), text("view", "v"), text("fields", "f")];
    e.push(text("filters", "[1]"));
    assert_eq!(dispatch("looker_run_inline_query", &args(e)), Err("filters must be a JSON object".to_string()));
    assert_eq!(
        dispatch("looker_run_inline_query", &args(vec![text("model", "m")])),
        Err("model, view, and fields are required".to_string())
    );
}

#[test]
fn looker_sql_runner_registers_then_runs() {
    let a = args(vec![text("connection_name", "db"), text("sql", "select 1")]);
    match dispatch("looker_run_sql_query", &a) {
        Ok(Plan::SqlRunner(q)) => {
            assert_eq!(q.method, Method::Post);
            assert_eq!(q.path, "/sql_queries");
            let body = q.body.unwrap();
            assert_eq!(member(&body, "sql"), Some(&Field::Str("select 1".to_string())));
        },
        other => panic!("{other:?}"),
    }
    assert_eq!(
        sql_run_request(Some("ab/c".to_string())),
        Ok(ApiRequest { method: Method::Get, path: "/sql_queries/ab%2Fc/run/json".to_string(), body: None })
    );
    assert_eq!(sql_run_request(Some(String::new())), Err("sql_query: missing slug in response".to_string()));
    assert_eq!(sql_run_request(None), Err("sql_query: missing slug in response".to_string()));
}

#[test]
fn looker_configure_normalizes_the_base_url() {
    let s = configured();
    let c = s.config.as_ref().unwrap();
    assert_eq!(c.base_url, "https://acme.looker.com:19999/api/4.0");

    let mut s = Session::new();
    let input = creds(&[("base_url", "https://x/api/3.1//"), ("client_id", "i"), ("client_secret", "s")]);
    assert_eq!(s.configure(&input), Ok(()));
    assert_eq!(s.config.as_ref().unwrap().base_url, "https://x/api/3.1");

    let mut s = Session::new();
    assert!(s.configure(b"").unwrap_err().starts_with("looker: invalid credentials JSON: EOF"));
    assert_eq!(s.configure(b"{}"), Err("looker: client_id is required".to_string()));
    assert_eq!(
        s.configure(&creds(&[("client_id", "i")])),
        Err("looker: client_secret is required".to_string())
    );
    assert!(s.configure(&creds(&[("client_id", "i"), ("client_secret", "s"), ("base_url", "///")]))
    .unwrap_err()
    .starts_with("looker: base_url is required"));
    assert!(s.config.is_none());
    assert_eq!(with_config(&s.config), Err("looker: not configured".to_string()));
}

#[test]
fn looker_session_logs_in_caches_the_token_and_retries_once() {
    let mut s = configured();
    let q = health_check();
    assert_eq!(q, ApiRequest { method: Method::Get, path: "/user".to_string(), body: None });

    let (mut call, step) = s.begin(q, 1000);
    assert!(!call.retried);
    let l = login(step);
    assert_eq!(l.url, "https://acme.looker.com:19999/api/4.0/login");
    assert_eq!(l.method, Method::Post);
    assert_eq!(header(&l.headers, "Content-Type"), Some("application/x-www-form-urlencoded"));
    assert_eq!(l.body, HttpBody::Form("client_id=id%201&client_secret=s%2B2".to_string()));

    let h = sent(s.on_login(&call, 200, "{}", Ok(("tok".to_string(), 0)), 1000));
    assert_eq!(s.token.as_ref().unwrap().expires_at, 1000 + DEFAULT_TOKEN_TTL_SECS);
    assert_eq!(h.url, "https://acme.looker.com:19999/api/4.0/user");
    assert_eq!(header(&h.headers, "Authorization"), Some("token tok"));
    assert_eq!(header(&h.headers, "Content-Type"), None);

    let done = s.on_reply(&mut call, 200, "{\"id\": 5}", 1001);
    assert_eq!(done, Step::Done(Ok("{\"id\":5}".to_string())));

    // A fresh token is reused; one within the safety window is not.
    let (_, step) = s.begin(health_check(), 1000 + 900 - 31);
    assert_eq!(header(&sent(step).headers, "Authorization"), Some("token tok"));
    let (_, step) = s.begin(health_check(), 1000 + 900 - 30);
    login(step);

    // A first 401 drops the token and logs in again; a second one ends the call.
    let (mut call, step) = s.begin(health_check(), 1100);
    sent(step);
    let again = s.on_reply(&mut call, 401, "expired", 1100);
    login(again);
    assert!(call.retried);
    assert!(s.token.is_none());
    sent(s.on_login(&call, 200, "{}", Ok(("tok2".to_string(), 60)), 1100));
    assert_eq!(s.token.as_ref().unwrap().expires_at, 1160);
    let done = s.on_reply(&mut call, 401, "still", 1101);
    assert_eq!(done, Step::Done(Err("looker API error (401): still".to_string())));
}

#[test]
fn looker_login_failures_end_the_call() {
    let mut s = configured();
    let (call, _) = s.begin(health_check(), 0);
    assert_eq!(
        s.on_login(&call, 403, "denied", Err("unused".to_string()), 0),
        Step::Done(Err("looker login failed (403): denied".to_string()))
    );
    assert_eq!(
        s.on_login(&call, 200, "x", Err("expected value".to_string()), 0),
        Step::Done(Err("looker login: decode response: expected value".to_string()))
    );
    assert_eq!(
        s.on_login(&call, 200, "{}", Ok((String::new(), 10)), 0),
        Step::Done(Err("looker login: empty access_token".to_string()))
    );
    assert!(s.token.is_none());
    let _ = Call { request: health_check(), retried: false };
}

#[test]
fn looker_unconfigured_session_reports_it() {
    let s = Session::new();
    let (_, step) = s.begin(health_check(), 0);
    assert_eq!(step, Step::Done(Err("looker: not configured".to_string())));
    let _ = Config { base_url: String::new(), client_id: String::new(), client_secret: String::new() };
}

#[test]
fn looker_clock_reads_after_the_epoch() {
    assert!(now_secs() > 1_600_000_000);
}

#[test]
fn looker_sql_runner_reads_the_slug_of_the_reply() {
    assert_eq!(
        sql_run_step("{\"slug\": \"a b\", \"id\": 3}"),
        Ok(ApiRequest { method: Method::Get, path: "/sql_queries/a%20b/run/json".to_string(), body: None })
    );
    let missing = Err("sql_query: missing slug in response".to_string());
    assert_eq!(sql_run_step("{\"slug\": 7}"), missing);
    assert_eq!(sql_run_step("{\"id\": 3}"), missing);
    assert_eq!(sql_run_step("[\"slug\"]"), missing);
    assert_eq!(sql_run_step("{\"slug\": \"\"}"), missing);
    assert_eq!(sql_run_step("not json"), missing);
}
