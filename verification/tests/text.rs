use switchboard_plugins::args::{arg_int, arg_str, required, ArgEntry, Args, RawValue};
use switchboard_plugins::encoding::encode_component;
use switchboard_plugins::json::JsonKind;
use switchboard_plugins::request::reply;
use switchboard_plugins::request::{clamp_i64, lookup, unknown_tool_error, Field};
use switchboard_plugins::text::{
    bool_to_string, contains_str, i64_to_string, split_csv, str_eq, trim_end_matches, trimmed,
    u64_to_string,
};
use switchboard_plugins::tool_def::tool;

fn decode(s: &str) -> Option<Vec<u8>> {
    let b = s.as_bytes();
    let mut out = Vec::new();
    let mut i = 0;
    while i < b.len() {
        if b[i] == b'%' {
            let h = std::str::from_utf8(b.get(i + 1..i + 3)?).ok()?;
            out.push(u8::from_str_radix(h, 16).ok()?);
            i += 3;
        } else {
            out.push(b[i]);
            i += 1;
        }
    }
    Some(out)
}

#[test]
fn escaping_round_trips_and_keeps_unreserved_text() {
    for s in ["", "abc-_.~XYZ019", "a b/c?d=e&f", "naïve ☃", "100%", "%2F"] {
        let e = encode_component(s);
        assert_eq!(decode(&e).unwrap(), s.as_bytes(), "{s}");
        assert!(e.chars().all(|c| c.is_ascii_alphanumeric() || "-_.~%ABCDEF".contains(c)), "{e}");
    }
    assert_eq!(encode_component("abc-_.~XYZ019"), "abc-_.~XYZ019");
    assert_eq!(encode_component("%2F"), "%252F");
    assert_ne!(encode_component("a/b"), encode_component("a%2Fb"));
    assert_eq!(encode_component("é"), "%C3%A9");
}

#[test]
fn decimal_and_bool_texts() {
    assert_eq!(i64_to_string(0), "0");
    assert_eq!(i64_to_string(-42), "-42");
    assert_eq!(i64_to_string(i64::MIN), i64::MIN.to_string());
    assert_eq!(i64_to_string(i64::MAX), i64::MAX.to_string());
    assert_eq!(u64_to_string(u64::MAX), u64::MAX.to_string());
    assert_eq!(bool_to_string(true), "true");
    assert_eq!(bool_to_string(false), "false");
}

#[test]
fn string_helpers() {
    assert!(str_eq("abc", "abc"));
    assert!(!str_eq("abc", "abd"));
    assert!(!str_eq("ab", "abc"));
    assert!(contains_str("https://x/api/4.0", "/api/"));
    assert!(!contains_str("https://x/ap", "/api/"));
    assert!(contains_str("x", ""));
    assert_eq!(trim_end_matches("a///", '/'), "a");
    assert_eq!(trim_end_matches("///", '/'), "");
    assert_eq!(trimmed("\u{3000} a b \t\n"), "a b");
    assert_eq!(split_csv("x,,y , "), vec!["x".to_string(), "y".to_string()]);
}

#[test]
fn clamping() {
    assert_eq!(clamp_i64(5, 1, 100), 5);
    assert_eq!(clamp_i64(0, 1, 100), 1);
    assert_eq!(clamp_i64(101, 1, 100), 100);
}

#[test]
fn replies_are_read_as_json() {
    assert_eq!(reply("svc", 200, " { \"b\" : 1 , \"a\" : [true, null] } "), Ok("{\"a\":[true,null],\"b\":1}".to_string()));
    assert_eq!(reply("svc", 201, "\"s\""), Ok("\"s\"".to_string()));
    assert_eq!(reply("svc", 200, "12"), Ok("12".to_string()));
    assert_eq!(reply("svc", 200, "null"), Ok("null".to_string()));
    assert_eq!(reply("svc", 200, ""), Ok("{\"status\":\"success\"}".to_string()));
    assert!(reply("svc", 200, "{").unwrap_err().starts_with("svc: decode response: "));
    assert_eq!(reply("svc", 400, "{"), Err("svc API error (400): {".to_string()));
    assert_eq!(reply("svc", -1, "[ ]"), Ok("[]".to_string()));
}

#[test]
fn arguments_and_lookup() {
    let a = Args {
        entries: vec![
            ArgEntry {
                key: "k".to_string(),
                text: "v".to_string(),
                int: None,
                flag: None,
                raw: RawValue::Str("v".to_string()),
                number: None,
            },
            ArgEntry {
                key: "n".to_string(),
                text: String::new(),
                int: Some(3),
                flag: None,
                raw: RawValue::Json(JsonKind::Number, "3".to_string()),
                number: Some(Ok("3".to_string())),
            },
        ],
    };
    assert_eq!(arg_str(&a, "k"), "v");
    assert_eq!(arg_str(&a, "missing"), "");
    assert_eq!(arg_int(&a, "n"), Some(3));
    assert_eq!(arg_int(&a, "k"), None);
    assert_eq!(required(&a, "k"), Ok("v".to_string()));
    assert_eq!(required(&a, "n"), Err("n is required".to_string()));
    assert_eq!(unknown_tool_error("t"), "unknown tool: t");

    let pairs = vec![("a".to_string(), "1".to_string()), ("b".to_string(), "2".to_string()), ("a".to_string(), "3".to_string())];
    assert_eq!(lookup(&pairs, "a"), Some("3".to_string()));
    assert_eq!(lookup(&pairs, "c"), None);
}

#[test]
fn tool_descriptions_keep_their_parameters() {
    let t = tool("x_tool", "Does x", &[("a", "first"), ("b", "second")], &["a"]);
    assert_eq!(t.name, "x_tool");
    assert_eq!(t.parameters, vec![("a".to_string(), "first".to_string()), ("b".to_string(), "second".to_string())]);
    assert_eq!(t.required, vec!["a".to_string()]);
    let _ = Field::Null;
}
