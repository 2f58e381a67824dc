use std::collections::HashSet;

use switchboard_plugins::args::{ArgEntry, Args, RawValue};
use switchboard_plugins::clerk::tools::tool_definitions;
use switchboard_plugins::clerk::{
    compact_spec_map, configure, dispatch, encode_component, finish_request, health_check,
    path_escape, prepare_request, query_escape, with_config, Config,
};
use switchboard_plugins::json::JsonKind;
use switchboard_plugins::request::{append_query, ApiRequest, Field, HttpBody, Method};

fn text(key: &str, v: &str) -> ArgEntry {
    ArgEntry {
        key: key.to_string(),
        text: v.to_string(),
        int: None,
        flag: None,
        raw: RawValue::Str(v.to_string()),
        number: None,
    }
}

fn num(key: &str, n: i64) -> ArgEntry {
    ArgEntry {
        key: key.to_string(),
        text: String::new(),
        int: Some(n),
        flag: None,
        raw: RawValue::Json(JsonKind::Number, n.to_string()),
        number: Some(Ok(n.to_string())),
    }
}

fn flag(key: &str, b: bool) -> ArgEntry {
    ArgEntry {
        key: key.to_string(),
        text: String::new(),
        int: None,
        flag: Some(b),
        raw: RawValue::Json(JsonKind::Bool, b.to_string()),
        number: None,
    }
}

fn json(key: &str, kind: JsonKind, t: &str) -> ArgEntry {
    ArgEntry {
        key: key.to_string(),
        text: String::new(),
        int: None,
        flag: None,
        raw: RawValue::Json(kind, t.to_string()),
        number: None,
    }
}

fn args(entries: Vec<ArgEntry>) -> Args {
    Args { entries }
}

fn member<'a>(f: &'a Field, key: &str) -> Option<&'a Field> {
    match f {
        Field::Object(ms) => ms.iter().rev().find(|(k, _)| k == key).map(|(_, v)| v),
        _ => None,
    }
}

fn header<'a>(h: &'a [(String, String)], name: &str) -> Option<&'a str> {
    h.iter().rev().find(|(k, _)| k == name).map(|(_, v)| v.as_str())
}

fn creds(pairs: &[(&str, &str)]) -> Vec<u8> {
    let m: std::collections::BTreeMap<&str, &str> = pairs.iter().cloned().collect();
    serde_json::to_vec(&m).unwrap()
}

fn strings(v: &[&str]) -> Vec<String> {
    v.iter().map(|s| s.to_string()).collect()
}

#[test]
fn lib_tool_definitions_have_required_metadata() {
    let defs = tool_definitions();
    assert_eq!(defs.len(), 34);

    let mut seen = HashSet::new();
    for def in defs {
        assert!(def.name.starts_with("clerk_"));
        assert!(!def.description.is_empty());
        assert!(seen.insert(def.name));
    }
}

#[test]
fn lib_entry_point_tools_have_start_here_guidance() {
    for def in tool_definitions() {
        if matches!(
            def.name.as_str(),
            "clerk_list_users"
                | "clerk_list_sessions"
                | "clerk_list_organizations"
                | "clerk_list_invitations"
                | "clerk_list_allowlist_identifiers"
                | "clerk_list_blocklist_identifiers"
        ) {
            assert!(def.description.contains("Start here"), "{}", def.name);
        }
    }
}

#[test]
fn lib_compact_specs_reference_known_tools() {
    let defs = tool_definitions().into_iter().map(|def| def.name).collect::<HashSet<_>>();
    for (name, _) in compact_spec_map() {
        assert!(defs.contains(&name), "{name}");
    }
}

#[test]
fn lib_unknown_tool_returns_error_result() {
    let result = dispatch("clerk_missing_tool", &Args::new());
    assert!(result.is_err());
    assert!(result.unwrap_err().contains("unknown tool"));
}

#[test]
fn dispatch_covers_every_tool() {
    for def in tool_definitions() {
        let result = dispatch(&def.name, &Args::new());
        if let Err(e) = result {
            assert!(!e.contains("unknown tool"), "tool {} is not in dispatch", def.name);
        }
    }
}

#[test]
fn lib_escapes_path_and_query_components() {
    assert_eq!(path_escape("user_2abc/def+ghi"), "user_2abc%2Fdef%2Bghi");
    assert_eq!(query_escape("dale@example.com"), "dale%40example.com");
}

#[test]
fn clerk_escape_keeps_unreserved_and_encodes_utf8() {
    assert_eq!(encode_component("Az09-_.~"), "Az09-_.~");
    assert_eq!(encode_component("é"), "%C3%A9");
    assert_eq!(encode_component(""), "");
}

#[test]
fn clerk_append_query_escapes_keys_and_values() {
    let empty: Vec<(String, String)> = vec![];
    assert_eq!(append_query("/users", &empty), "/users");
    let ps = vec![("a b".to_string(), "x&y".to_string()), ("c".to_string(), "".to_string())];
    assert_eq!(append_query("/users", &ps), "/users?a%20b=x%26y&c=");
}

#[test]
fn clerk_list_users_builds_its_query() {
    let q = dispatch("clerk_list_users", &Args::new()).unwrap();
    assert_eq!(q, ApiRequest { method: Method::Get, path: "/users?limit=10&offset=0".to_string(), body: None });

    let a = args(vec![
        num("limit", 900),
        num("offset", -4),
        text("email_address", " a@x.io, ,b@x.io "),
        flag("banned", false),
        num("last_active_at_since", 17),
    ]);
    let q = dispatch("clerk_list_users", &a).unwrap();
    assert_eq!(
        q.path,
        "/users?limit=500&offset=0&email_address=a%40x.io&email_address=b%40x.io&banned=false&last_active_at_since=17"
    );
}

#[test]
fn clerk_user_actions_post_an_empty_object() {
    let q = dispatch("clerk_ban_user", &args(vec![text("user_id", "u 1")])).unwrap();
    assert_eq!(q.method, Method::Post);
    assert_eq!(q.path, "/users/u%201/ban");
    assert_eq!(q.body, Some(Field::Object(vec![])));
    assert_eq!(dispatch("clerk_lock_user", &Args::new()), Err("user_id is required".to_string()));
}

#[test]
fn clerk_create_user_reads_lists() {
    let a = args(vec![
        text("email_address", " a@x.io , b@x.io"),
        text("phone_number", "[\"+1\", \"+2\"]"),
        json("web3_wallet", JsonKind::Array, "[\"0xabc\"]"),
        text("first_name", "Ada"),
        flag("skip_password_checks", true),
    ]);
    let q = dispatch("clerk_create_user", &a).unwrap();
    assert_eq!(q.method, Method::Post);
    assert_eq!(q.path, "/users");
    let body = q.body.unwrap();
    assert_eq!(member(&body, "email_address"), Some(&Field::List(strings(&["a@x.io", "b@x.io"]))));
    assert_eq!(member(&body, "phone_number"), Some(&Field::Json("[\"+1\",\"+2\"]".to_string())));
    assert_eq!(member(&body, "web3_wallet"), Some(&Field::Json("[\"0xabc\"]".to_string())));
    assert_eq!(member(&body, "first_name"), Some(&Field::Str("Ada".to_string())));
    assert_eq!(member(&body, "skip_password_checks"), Some(&Field::Bool(true)));
    assert_eq!(member(&body, "username"), None);
}

#[test]
fn clerk_create_user_rejects_bad_lists_and_metadata() {
    let q = dispatch("clerk_create_user", &args(vec![text("email_address", "{\"a\": 1}")])).unwrap();
    assert_eq!(member(&q.body.unwrap(), "email_address"), Some(&Field::List(strings(&["{\"a\": 1}"]))));
    let r = dispatch("clerk_create_user", &args(vec![text("email_address", "[\"a\"")])).unwrap_err();
    assert!(r.starts_with("email_address must be a JSON array: "), "{r}");
    let r = dispatch("clerk_create_user", &args(vec![text("phone_number", "[{\"a\": 1}]")]));
    assert!(r.is_ok());
    let r = dispatch("clerk_create_user", &args(vec![text("web3_wallet", "[1")])).unwrap_err();
    assert!(r.starts_with("web3_wallet must be a JSON array: "), "{r}");
    let r = dispatch("clerk_create_user", &args(vec![text("public_metadata", "{")])).unwrap_err();
    assert!(r.starts_with("public_metadata must be valid JSON: "), "{r}");
}

#[test]
fn clerk_finish_request_reports_replies() {
    assert_eq!(finish_request(404, "{\"errors\":[]}"), Err("clerk API error (404): {\"errors\":[]}".to_string()));
    assert_eq!(finish_request(204, ""), Ok("{\"status\":\"success\"}".to_string()));
    assert_eq!(finish_request(200, "[1, 2]"), Ok("[1,2]".to_string()));
    let e = finish_request(200, "<html>").unwrap_err();
    assert!(e.starts_with("clerk: decode response: "), "{e}");
}

#[test]
fn clerk_configure_and_prepare_request() {
    let e = configure(b"[1]").unwrap_err();
    assert!(e.starts_with("clerk: invalid credentials JSON: "), "{e}");
    assert_eq!(configure(b"{}"), Err("clerk: secret_key is required".to_string()));
    let c = configure(&creds(&[("secret_key", "sk_test")])).unwrap();
    assert_eq!(c, Config { secret_key: "sk_test".to_string() });
    assert_eq!(with_config(&None), Err("clerk: not configured".to_string()));

    let h = prepare_request(&c, health_check());
    assert_eq!(h.method, Method::Get);
    assert_eq!(h.url, "https://api.clerk.com/v1/jwks");
    assert_eq!(header(&h.headers, "Authorization"), Some("Bearer sk_test"));
    assert_eq!(header(&h.headers, "Accept"), Some("application/json"));
    assert_eq!(header(&h.headers, "Content-Type"), None);
    assert_eq!(h.body, HttpBody::Empty);
}
