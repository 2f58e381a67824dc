use std::collections::HashSet;

use switchboard_plugins::args::{ArgEntry, Args, RawValue};
use switchboard_plugins::figma_bridge::handlers::Command;
use switchboard_plugins::figma_bridge::tools::tool_definitions;
use switchboard_plugins::figma_bridge::{
    bridge_reply, bridge_url, configure, dispatch, finish_command, health_check, healthy,
    command_call, prepare_command, with_config, Config,
};
use switchboard_plugins::json::JsonKind;
use switchboard_plugins::request::{Field, HttpBody, Method};

fn text(key: &str, v: &str) -> ArgEntry {
    ArgEntry {
        key: key.to_string(),
        text: v.to_string(),
        int: None,
        flag: None,
        raw: RawValue::Str(v.to_string()),
        number: None,
    }
}

fn num(key: &str, n: i64) -> ArgEntry {
    ArgEntry {
        key: key.to_string(),
        text: String::new(),
        int: Some(n),
        flag: None,
        raw: RawValue::Json(JsonKind::Number, n.to_string()),
        number: Some(Ok(n.to_string())),
    }
}

fn args(entries: Vec<ArgEntry>) -> Args {
    Args { entries }
}

fn member<'a>(f: &'a Field, key: &str) -> Option<&'a Field> {
    match f {
        Field::Object(ms) => ms.iter().rev().find(|(k, _)| k == key).map(|(_, v)| v),
        _ => None,
    }
}

fn creds(pairs: &[(&str, &str)]) -> Vec<u8> {
    let m: std::collections::BTreeMap<&str, &str> = pairs.iter().cloned().collect();
    serde_json::to_vec(&m).unwrap()
}

fn s(v: &str) -> Field {
    Field::Str(v.to_string())
}

#[test]
fn figma_tool_definitions_have_required_metadata() {
    let defs = tool_definitions();
    assert_eq!(defs.len(), 15);
    let mut seen = HashSet::new();
    for def in defs {
        assert!(def.name.starts_with("figma_bridge_"));
        assert!(!def.description.is_empty());
        assert!(seen.insert(def.name));
    }
}

#[test]
fn figma_dispatch_routes_every_tool_and_rejects_others() {
    for def in tool_definitions() {
        if let Err(e) = dispatch(&def.name, &Args::new()) {
            assert!(!e.contains("unknown tool"), "{}", def.name);
        }
    }
    assert_eq!(dispatch("figma_bridge_nope", &Args::new()), Err("unknown tool: figma_bridge_nope".to_string()));
}

#[test]
fn figma_status_checks_the_connection() {
    let c = dispatch("figma_bridge_status", &Args::new()).unwrap();
    assert_eq!(c, Command { command: "status".to_string(), params: Field::Null, connection_check: true });
    assert_eq!(c, health_check());
    assert_eq!(
        finish_command(&c, Err("connection refused".to_string())),
        Err("Bridge not connected: connection refused. Ensure the Figma Desktop Bridge plugin is running.".to_string())
    );
    assert_eq!(
        finish_command(&c, Ok((503, "down".to_string()))),
        Err("Bridge not connected: Figma Bridge error (503): down. Ensure the Figma Desktop Bridge plugin is running."
            .to_string())
    );
    assert_eq!(finish_command(&c, Ok((200, "{\"ok\":true}".to_string()))), Ok("{\"ok\":true}".to_string()));
}

#[test]
fn figma_bridge_replies_pass_through() {
    let c = dispatch("figma_bridge_get_selection", &Args::new()).unwrap();
    assert_eq!(c.command, "getSelection");
    assert!(!c.connection_check);
    assert_eq!(finish_command(&c, Err("timeout".to_string())), Err("timeout".to_string()));
    assert_eq!(finish_command(&c, Ok((400, "bad".to_string()))), Err("Figma Bridge error (400): bad".to_string()));
    assert_eq!(finish_command(&c, Ok((399, " raw ".to_string()))), Ok(" raw ".to_string()));
    assert_eq!(bridge_reply(Ok((200, "x".to_string()))), Ok("x".to_string()));
    assert_eq!(healthy(Ok((200, String::new()))), 1);
    assert_eq!(healthy(Ok((500, String::new()))), 0);
    assert_eq!(healthy(Err("down".to_string())), 0);
}

#[test]
fn figma_create_frame_uses_defaults() {
    assert_eq!(dispatch("figma_bridge_create_frame", &Args::new()), Err("name is required".to_string()));
    let c = dispatch("figma_bridge_create_frame", &args(vec![text("name", "Card"), num("width", 320)])).unwrap();
    assert_eq!(c.command, "createFrame");
    assert_eq!(member(&c.params, "name"), Some(&s("Card")));
    assert_eq!(member(&c.params, "x"), Some(&Field::Int(0)));
    assert_eq!(member(&c.params, "y"), Some(&Field::Int(0)));
    assert_eq!(member(&c.params, "width"), Some(&Field::Int(320)));
    assert_eq!(member(&c.params, "height"), Some(&Field::Int(300)));
}

#[test]
fn figma_create_text_and_rectangle() {
    assert_eq!(dispatch("figma_bridge_create_text", &Args::new()), Err("text is required".to_string()));
    let c = dispatch("figma_bridge_create_text", &args(vec![text("text", "Hi")])).unwrap();
    assert_eq!(member(&c.params, "parentId"), Some(&s("")));
    assert_eq!(member(&c.params, "fontSize"), Some(&Field::Int(16)));

    let c = dispatch("figma_bridge_create_rectangle", &Args::new()).unwrap();
    assert_eq!(c.command, "createRectangle");
    assert_eq!(member(&c.params, "name"), Some(&s("")));
    assert_eq!(member(&c.params, "width"), Some(&Field::Int(100)));
    assert_eq!(member(&c.params, "height"), Some(&Field::Int(100)));
    assert_eq!(member(&c.params, "fillColor"), Some(&s("")));
}

#[test]
fn figma_set_node_property_reads_json_or_keeps_text() {
    assert_eq!(
        dispatch("figma_bridge_set_node_property", &args(vec![text("node_id", "1:2")])),
        Err("node_id and property are required".to_string())
    );
    let base = |v: &str| args(vec![text("node_id", "1:2"), text("property", "opacity"), text("value", v)]);
    let c = dispatch("figma_bridge_set_node_property", &base(" 0.5 ")).unwrap();
    assert_eq!(member(&c.params, "value"), Some(&Field::Json("0.5".to_string())));
    let c = dispatch("figma_bridge_set_node_property", &base("Hello")).unwrap();
    assert_eq!(member(&c.params, "value"), Some(&s("Hello")));
    let c = dispatch("figma_bridge_set_node_property", &base("")).unwrap();
    assert_eq!(member(&c.params, "value"), Some(&s("")));
}

#[test]
fn figma_node_commands_need_a_node() {
    for (tool, cmd) in [("figma_bridge_delete_node", "deleteNode"), ("figma_bridge_clone_node", "cloneNode")] {
        assert_eq!(dispatch(tool, &Args::new()), Err("node_id is required".to_string()));
        let c = dispatch(tool, &args(vec![text("node_id", "3:4")])).unwrap();
        assert_eq!(c, Command {
            command: cmd.to_string(),
            params: Field::Object(vec![("nodeId".to_string(), s("3:4"))]),
            connection_check: false,
        });
    }
    assert_eq!(dispatch("figma_bridge_create_instance", &Args::new()), Err("component_id is required".to_string()));
    assert_eq!(dispatch("figma_bridge_create_component", &Args::new()), Err("name is required".to_string()));
    assert_eq!(dispatch("figma_bridge_execute", &Args::new()), Err("code is required".to_string()));
    assert_eq!(
        dispatch("figma_bridge_set_auto_layout", &args(vec![text("node_id", "1")])),
        Err("node_id and direction are required".to_string())
    );
}

#[test]
fn figma_paints_must_be_json() {
    assert_eq!(
        dispatch("figma_bridge_set_fills", &args(vec![text("node_id", "1")])),
        Err("node_id and fills are required".to_string())
    );
    let e = dispatch("figma_bridge_set_fills", &args(vec![text("node_id", "1"), text("fills", "[{")])).unwrap_err();
    assert!(e.starts_with("invalid JSON for fills: "), "{e}");
    let c = dispatch("figma_bridge_set_fills", &args(vec![text("node_id", "1"), text("fills", "[ {\"type\": \"SOLID\"} ]")]))
        .unwrap();
    assert_eq!(member(&c.params, "fills"), Some(&Field::Json("[{\"type\":\"SOLID\"}]".to_string())));

    let c = dispatch("figma_bridge_set_strokes", &args(vec![text("node_id", "1"), text("strokes", "[]")])).unwrap();
    assert_eq!(member(&c.params, "strokeWeight"), Some(&Field::Null));
    let c = dispatch(
        "figma_bridge_set_strokes",
        &args(vec![text("node_id", "1"), text("strokes", "[]"), num("stroke_weight", 2)]),
    )
    .unwrap();
    assert_eq!(member(&c.params, "strokeWeight"), Some(&Field::Int(2)));
    let e = dispatch("figma_bridge_set_strokes", &args(vec![text("node_id", "1"), text("strokes", "nope")])).unwrap_err();
    assert!(e.starts_with("invalid JSON for strokes: "), "{e}");
}

#[test]
fn figma_configure_trims_the_bridge_url() {
    let default = || Ok(Config { bridge_url: "http://127.0.0.1:9223".to_string() });
    assert_eq!(configure(b"{}"), default());
    assert_eq!(configure(&creds(&[("bridge_url", "")])), default());
    assert_eq!(configure(&creds(&[("bridge_url", "///")])), default());
    assert_eq!(
        configure(&creds(&[("bridge_url", "http://localhost:9000//")])),
        Ok(Config { bridge_url: "http://localhost:9000".to_string() })
    );
    let e = configure(b"not json").unwrap_err();
    assert!(e.starts_with("invalid credentials JSON: "), "{e}");
    let c = Some(Config { bridge_url: "http://b".to_string() });
    assert_eq!(bridge_url(with_config(&c).unwrap()), "http://b");
}

#[test]
fn figma_unconfigured_bridge_reports_not_connected() {
    assert_eq!(with_config(&None), Err("not configured".to_string()));
    let status = health_check();
    let reply = command_call(&None, &status).map(|_| (200, String::new()));
    assert_eq!(reply, Err("not configured".to_string()));
    assert_eq!(
        finish_command(&status, reply.clone()),
        Err("Bridge not connected: not configured. Ensure the Figma Desktop Bridge plugin is running.".to_string())
    );
    assert_eq!(healthy(reply), 0);
    let c = Some(Config { bridge_url: "http://b".to_string() });
    assert_eq!(command_call(&c, &status).unwrap().url, "http://b/api/command");
}

#[test]
fn figma_prepare_command_posts_to_the_bridge() {
    let config = Config { bridge_url: "http://127.0.0.1:9223".to_string() };
    let c = dispatch("figma_bridge_execute", &args(vec![text("code", "figma.currentPage.name")])).unwrap();
    let h = prepare_command(&config, &c);
    assert_eq!(h.method, Method::Post);
    assert_eq!(h.url, "http://127.0.0.1:9223/api/command");
    assert_eq!(h.headers, vec![("Content-Type".to_string(), "application/json".to_string())]);
    match h.body {
        HttpBody::Json(body) => {
            assert_eq!(member(&body, "command"), Some(&s("execute")));
            let params = member(&body, "params").unwrap();
            assert_eq!(member(params, "code"), Some(&s("figma.currentPage.name")));
        },
        other => panic!("{other:?}"),
    }
}
