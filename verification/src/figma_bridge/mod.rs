//! Figma Desktop Bridge: frames, text, shapes, components, auto layout and
//! paints, through a companion plugin that runs in Figma Desktop and takes
//! commands over HTTP.
//!
//! A tool call goes through [`dispatch`], which turns the arguments into a
//! [`Command`] or an error; [`prepare_command`] makes the HTTP request that
//! the host sends to the bridge; [`finish_command`] turns the reply into the
//! tool's result.
pub mod handlers;
pub mod tools;

use vstd::prelude::*;

use crate::args::{ArgEntryV, Args};
use crate::request::{
    add_header, credential, fields_view, pairs_map, pairs_view, put, unknown_tool,
    unknown_tool_error, Field, FieldV, HttpBody, HttpBodyV, HttpCall, HttpCallV, Method,
};
use crate::text::{i64_to_string, int_decimal, owned, push_str, str_eq, trim_end_char, trim_end_matches};
use handlers::{command_view, Command, CommandV};

use crate::json::{read_credentials, serde_json_credentials};
use crate::request::map_credential;

verus! {

/// Where the bridge listens when the credentials name no address.
pub open spec fn default_bridge_url() -> Seq<char> {
    "http://127.0.0.1:9223"@
}

/// The plugin's configuration.
#[derive(Debug, PartialEq)]
pub struct Config {
    /// The bridge's base URL, without a trailing `/`.
    pub bridge_url: String,
}

/// What `configure` makes of the credentials JSON object: the bridge's
/// address without trailing slashes, or the default one when none is given or
/// nothing is left of it; or the message it reports.
pub open spec fn configure_outcome(creds: Result<Map<Seq<char>, Seq<char>>, Seq<char>>) -> Result<Seq<char>, Seq<char>> {
    match creds {
        Err(e) => Err("invalid credentials JSON: "@ + e),
        Ok(c) => {
            let u = trim_end_char(map_credential(c, "bridge_url"@), '/');
            if u.len() > 0 {
                Ok(u)
            } else {
                Ok(default_bridge_url())
            }
        },
    }
}

/// `configure`, on the credentials input as the host hands it.
pub fn configure(input: &[u8]) -> (r: Result<Config, String>)
    ensures
        configure_outcome(serde_json_credentials(input@)) == match r {
            Ok(c) => Ok(c.bridge_url@),
            Err(e) => Err(e@),
        },
{
    let creds = match read_credentials(input) {
        Ok(c) => c,
        Err(e) => {
            let mut m = owned("invalid credentials JSON: ");
            push_str(&mut m, e.as_str());
            return Err(m);
        },
    };
    let given = trim_end_matches(credential(&creds, "bridge_url").as_str(), '/');
    let url = if given.as_str().is_empty() {
        owned("http://127.0.0.1:9223")
    } else {
        given
    };
    Ok(Config { bridge_url: url })
}

/// The error for a command sent before `configure` succeeded.
pub open spec fn not_configured() -> Seq<char> {
    "not configured"@
}

/// `with_config`: the configuration, or an error before `configure`
/// succeeded.
pub fn with_config(config: &Option<Config>) -> (r: Result<&Config, String>)
    ensures
        match config {
            Some(c) => r == Ok::<&Config, String>(c),
            None => r matches Err(e) && e@ == not_configured(),
        },
{
    match config {
        Some(c) => Ok(c),
        None => Err(owned("not configured")),
    }
}

/// `bridge_url`: the bridge's base URL.
pub fn bridge_url(config: &Config) -> (r: String)
    ensures
        r@ == config.bridge_url@,
{
    config.bridge_url.clone()
}

/// The HTTP request that sends a command to the bridge: a JSON object with
/// the command and its parameters, posted to `/api/command`.
pub open spec fn bridge_call(bridge_url: Seq<char>, c: CommandV) -> HttpCallV {
    HttpCallV {
        method: Method::Post,
        url: bridge_url + "/api/command"@,
        headers: Map::empty().insert("Content-Type"@, "application/json"@),
        body: HttpBodyV::Json(
            FieldV::Object(Map::empty().insert("command"@, FieldV::Str(c.command)).insert("params"@, c.params)),
        ),
    }
}

/// The request half of a command.
pub fn prepare_command(config: &Config, c: &Command) -> (r: HttpCall)
    ensures
        r.view() == bridge_call(config.bridge_url@, c.view()),
{
    let mut headers: Vec<(String, String)> = Vec::new();
    proof {
        assert(pairs_map(pairs_view(headers@)) =~= Map::empty());
    }
    add_header(&mut headers, "Content-Type", owned("application/json"));
    let mut body: Vec<(String, Field)> = Vec::new();
    proof {
        assert(fields_view(body@) =~= Map::empty());
    }
    put(&mut body, "command", Field::Str(c.command.clone()));
    put(&mut body, "params", c.params.duplicate());
    let mut url = bridge_url(config);
    push_str(&mut url, "/api/command");
    HttpCall { method: Method::Post, url, headers, body: HttpBody::Json(Field::Object(body)) }
}

/// The request for a command under the plugin's configuration, or the error
/// before `configure` succeeded.
pub fn command_call(config: &Option<Config>, c: &Command) -> (r: Result<HttpCall, String>)
    ensures
        match config {
            Some(cfg) => r matches Ok(h) && h.view() == bridge_call(cfg.bridge_url@, c.view()),
            None => r matches Err(e) && e@ == not_configured(),
        },
{
    match with_config(config) {
        Ok(cfg) => Ok(prepare_command(cfg, c)),
        Err(e) => Err(e),
    }
}

/// What the bridge's reply comes to: an error for status 400 and above,
/// otherwise the body as it came; a failure to reach it is its own error.
pub open spec fn bridge_outcome(reply: Result<(i32, Seq<char>), Seq<char>>) -> Result<Seq<char>, Seq<char>> {
    match reply {
        Err(e) => Err(e),
        Ok((status, body)) => if status >= 400 {
            Err("Figma Bridge error ("@ + int_decimal(status as int) + "): "@ + body)
        } else {
            Ok(body)
        },
    }
}

/// What a tool reports for the bridge's reply to its command: the status
/// check explains a failure as a bridge that is not running.
pub open spec fn command_outcome(c: CommandV, reply: Result<(i32, Seq<char>), Seq<char>>) -> Result<Seq<char>, Seq<char>> {
    match bridge_outcome(reply) {
        Ok(b) => Ok(b),
        Err(e) => if c.connection_check {
            Err("Bridge not connected: "@ + e + ". Ensure the Figma Desktop Bridge plugin is running."@)
        } else {
            Err(e)
        },
    }
}

/// A bridge reply with status 400 or more is an error naming the status and
/// the body, and any other reply is its body as it came; a failure to reach
/// the bridge is reported as it is, except by the status check, which
/// explains it as a bridge that is not running.
pub proof fn lemma_bridge_replies(c: CommandV, reply: Result<(i32, Seq<char>), Seq<char>>)
    ensures
        reply matches Ok((status, body)) ==> (status >= 400 ==> bridge_outcome(reply) == Err::<Seq<char>, Seq<char>>(
            "Figma Bridge error ("@ + int_decimal(status as int) + "): "@ + body,
        )),
        reply matches Ok((status, body)) ==> (status < 400 ==> bridge_outcome(reply) == Ok::<Seq<char>, Seq<char>>(body)
            && command_outcome(c, reply) == Ok::<Seq<char>, Seq<char>>(body)),
        reply matches Err(e) ==> bridge_outcome(reply) == Err::<Seq<char>, Seq<char>>(e),
        bridge_outcome(reply) matches Err(e) ==> command_outcome(c, reply) == Err::<Seq<char>, Seq<char>>(
            if c.connection_check {
                "Bridge not connected: "@ + e + ". Ensure the Figma Desktop Bridge plugin is running."@
            } else {
                e
            },
        ),
{
}

/// The view of a reply: its status and body, or the error met sending the
/// request.
pub open spec fn reply_view(reply: Result<(i32, String), String>) -> Result<(i32, Seq<char>), Seq<char>> {
    match reply {
        Ok((s, b)) => Ok((s, b@)),
        Err(e) => Err(e@),
    }
}

/// The reply half of `bridge_request`.
pub fn bridge_reply(reply: Result<(i32, String), String>) -> (r: Result<String, String>)
    ensures
        crate::request::outcome_view(r) == bridge_outcome(reply_view(reply)),
{
    match reply {
        Err(e) => Err(e),
        Ok((status, body)) => {
            if status >= 400 {
                let mut m = owned("Figma Bridge error (");
                push_str(&mut m, i64_to_string(status as i64).as_str());
                push_str(&mut m, "): ");
                push_str(&mut m, body.as_str());
                Err(m)
            } else {
                Ok(body)
            }
        },
    }
}

/// The reply half of a command: what the tool reports.
pub fn finish_command(c: &Command, reply: Result<(i32, String), String>) -> (r: Result<String, String>)
    ensures
        crate::request::outcome_view(r) == command_outcome(c.view(), reply_view(reply)),
{
    match bridge_reply(reply) {
        Ok(b) => Ok(b),
        Err(e) => {
            if c.connection_check {
                let mut m = owned("Bridge not connected: ");
                push_str(&mut m, e.as_str());
                push_str(&mut m, ". Ensure the Figma Desktop Bridge plugin is running.");
                Err(m)
            } else {
                Err(e)
            }
        },
    }
}

/// `healthy`: the command that probes the bridge.
pub fn health_check() -> (r: Command)
    ensures
        r.view() == (CommandV { command: "status"@, params: FieldV::Null, connection_check: true }),
{
    Command { command: owned("status"), params: Field::Null, connection_check: true }
}

/// `healthy`: 1 when the bridge answered the probe, 0 otherwise.
pub fn healthy(reply: Result<(i32, String), String>) -> (r: i32)
    ensures
        r == (if bridge_outcome(reply_view(reply)) is Ok { 1i32 } else { 0i32 }),
{
    match bridge_reply(reply) {
        Ok(_) => 1,
        Err(_) => 0,
    }
}

/// The plan of the tool named `name`, if the plugin has one by that name.
pub open spec fn handler_plan(name: Seq<char>, a: Seq<ArgEntryV>) -> Option<Result<CommandV, Seq<char>>> {
    if name == "figma_bridge_status"@ {
        Some(handlers::handle_status_plan(a))
    } else if name == "figma_bridge_get_selection"@ {
        Some(handlers::handle_get_selection_plan(a))
    } else if name == "figma_bridge_get_page_nodes"@ {
        Some(handlers::handle_get_page_nodes_plan(a))
    } else if name == "figma_bridge_create_frame"@ {
        Some(handlers::handle_create_frame_plan(a))
    } else if name == "figma_bridge_create_text"@ {
        Some(handlers::handle_create_text_plan(a))
    } else if name == "figma_bridge_create_rectangle"@ {
        Some(handlers::handle_create_rectangle_plan(a))
    } else if name == "figma_bridge_set_node_property"@ {
        Some(handlers::handle_set_node_property_plan(a))
    } else if name == "figma_bridge_delete_node"@ {
        Some(handlers::handle_delete_node_plan(a))
    } else if name == "figma_bridge_clone_node"@ {
        Some(handlers::handle_clone_node_plan(a))
    } else if name == "figma_bridge_create_component"@ {
        Some(handlers::handle_create_component_plan(a))
    } else if name == "figma_bridge_create_instance"@ {
        Some(handlers::handle_create_instance_plan(a))
    } else if name == "figma_bridge_set_auto_layout"@ {
        Some(handlers::handle_set_auto_layout_plan(a))
    } else if name == "figma_bridge_set_fills"@ {
        Some(handlers::handle_set_fills_plan(a))
    } else if name == "figma_bridge_set_strokes"@ {
        Some(handlers::handle_set_strokes_plan(a))
    } else if name == "figma_bridge_execute"@ {
        Some(handlers::handle_execute_plan(a))
    } else {
        None
    }
}

/// Routes a tool call to its tool, or reports an unknown tool.
pub fn dispatch(tool_name: &str, args: &Args) -> (r: Result<Command, String>)
    ensures
        handlers::command_view(r) == match handler_plan(tool_name@, args.view()) {
            Some(p) => p,
            None => Err(unknown_tool(tool_name@)),
        },
{
    if str_eq(tool_name, "figma_bridge_status") {
        return handlers::handle_status(args);
    }
    if str_eq(tool_name, "figma_bridge_get_selection") {
        return handlers::handle_get_selection(args);
    }
    if str_eq(tool_name, "figma_bridge_get_page_nodes") {
        return handlers::handle_get_page_nodes(args);
    }
    if str_eq(tool_name, "figma_bridge_create_frame") {
        return handlers::handle_create_frame(args);
    }
    if str_eq(tool_name, "figma_bridge_create_text") {
        return handlers::handle_create_text(args);
    }
    if str_eq(tool_name, "figma_bridge_create_rectangle") {
        return handlers::handle_create_rectangle(args);
    }
    if str_eq(tool_name, "figma_bridge_set_node_property") {
        return handlers::handle_set_node_property(args);
    }
    if str_eq(tool_name, "figma_bridge_delete_node") {
        return handlers::handle_delete_node(args);
    }
    if str_eq(tool_name, "figma_bridge_clone_node") {
        return handlers::handle_clone_node(args);
    }
    if str_eq(tool_name, "figma_bridge_create_component") {
        return handlers::handle_create_component(args);
    }
    if str_eq(tool_name, "figma_bridge_create_instance") {
        return handlers::handle_create_instance(args);
    }
    if str_eq(tool_name, "figma_bridge_set_auto_layout") {
        return handlers::handle_set_auto_layout(args);
    }
    if str_eq(tool_name, "figma_bridge_set_fills") {
        return handlers::handle_set_fills(args);
    }
    if str_eq(tool_name, "figma_bridge_set_strokes") {
        return handlers::handle_set_strokes(args);
    }
    if str_eq(tool_name, "figma_bridge_execute") {
        return handlers::handle_execute(args);
    }
    Err(unknown_tool_error(tool_name))
}

/// A name that no listed tool has is reported as an unknown tool.
pub proof fn lemma_unlisted_tool_unknown(name: Seq<char>, a: Seq<ArgEntryV>)
    requires
        forall|i: int| 0 <= i < tools::tool_table().len() ==> #[trigger] tools::tool_table()[i].name != name,
    ensures
        handler_plan(name, a) is None,
{
    assert(tools::tool_table()[0].name == "figma_bridge_status"@);
    assert(tools::tool_table()[1].name == "figma_bridge_get_selection"@);
    assert(tools::tool_table()[2].name == "figma_bridge_get_page_nodes"@);
    assert(tools::tool_table()[3].name == "figma_bridge_create_frame"@);
    assert(tools::tool_table()[4].name == "figma_bridge_create_text"@);
    assert(tools::tool_table()[5].name == "figma_bridge_create_rectangle"@);
    assert(tools::tool_table()[6].name == "figma_bridge_set_node_property"@);
    assert(tools::tool_table()[7].name == "figma_bridge_delete_node"@);
    assert(tools::tool_table()[8].name == "figma_bridge_clone_node"@);
    assert(tools::tool_table()[9].name == "figma_bridge_create_component"@);
    assert(tools::tool_table()[10].name == "figma_bridge_create_instance"@);
    assert(tools::tool_table()[11].name == "figma_bridge_set_auto_layout"@);
    assert(tools::tool_table()[12].name == "figma_bridge_set_fills"@);
    assert(tools::tool_table()[13].name == "figma_bridge_set_strokes"@);
    assert(tools::tool_table()[14].name == "figma_bridge_execute"@);
}

/// Each tool name is routed to its own tool: the tool named `figma_bridge_x` runs
/// the tool `x`, and no other.
pub proof fn lemma_dispatch_routes_by_name(a: Seq<ArgEntryV>)
    ensures
        handler_plan("figma_bridge_status"@, a) == Some(handlers::handle_status_plan(a)),
        handler_plan("figma_bridge_get_selection"@, a) == Some(handlers::handle_get_selection_plan(a)),
        handler_plan("figma_bridge_get_page_nodes"@, a) == Some(handlers::handle_get_page_nodes_plan(a)),
        handler_plan("figma_bridge_create_frame"@, a) == Some(handlers::handle_create_frame_plan(a)),
        handler_plan("figma_bridge_create_text"@, a) == Some(handlers::handle_create_text_plan(a)),
        handler_plan("figma_bridge_create_rectangle"@, a) == Some(handlers::handle_create_rectangle_plan(a)),
        handler_plan("figma_bridge_set_node_property"@, a) == Some(handlers::handle_set_node_property_plan(a)),
        handler_plan("figma_bridge_delete_node"@, a) == Some(handlers::handle_delete_node_plan(a)),
        handler_plan("figma_bridge_clone_node"@, a) == Some(handlers::handle_clone_node_plan(a)),
        handler_plan("figma_bridge_create_component"@, a) == Some(handlers::handle_create_component_plan(a)),
        handler_plan("figma_bridge_create_instance"@, a) == Some(handlers::handle_create_instance_plan(a)),
        handler_plan("figma_bridge_set_auto_layout"@, a) == Some(handlers::handle_set_auto_layout_plan(a)),
        handler_plan("figma_bridge_set_fills"@, a) == Some(handlers::handle_set_fills_plan(a)),
        handler_plan("figma_bridge_set_strokes"@, a) == Some(handlers::handle_set_strokes_plan(a)),
        handler_plan("figma_bridge_execute"@, a) == Some(handlers::handle_execute_plan(a)),
{
    reveal_strlit("figma_bridge_status");
    assert("figma_bridge_status"@.len() == 19);
    reveal_strlit("figma_bridge_get_selection");
    assert("figma_bridge_get_selection"@.len() == 26);
    reveal_strlit("figma_bridge_get_page_nodes");
    assert("figma_bridge_get_page_nodes"@.len() == 27);
    reveal_strlit("figma_bridge_create_frame");
    assert("figma_bridge_create_frame"@.len() == 25);
    reveal_strlit("figma_bridge_create_text");
    assert("figma_bridge_create_text"@.len() == 24);
    assert("figma_bridge_create_text"@[13] == 'c');
    reveal_strlit("figma_bridge_create_rectangle");
    assert("figma_bridge_create_rectangle"@.len() == 29);
    assert("figma_bridge_create_rectangle"@[20] == 'r');
    reveal_strlit("figma_bridge_set_node_property");
    assert("figma_bridge_set_node_property"@.len() == 30);
    reveal_strlit("figma_bridge_delete_node");
    assert("figma_bridge_delete_node"@.len() == 24);
    assert("figma_bridge_delete_node"@[13] == 'd');
    reveal_strlit("figma_bridge_clone_node");
    assert("figma_bridge_clone_node"@.len() == 23);
    reveal_strlit("figma_bridge_create_component");
    assert("figma_bridge_create_component"@.len() == 29);
    assert("figma_bridge_create_component"@[20] == 'c');
    reveal_strlit("figma_bridge_create_instance");
    assert("figma_bridge_create_instance"@.len() == 28);
    assert("figma_bridge_create_instance"@[13] == 'c');
    reveal_strlit("figma_bridge_set_auto_layout");
    assert("figma_bridge_set_auto_layout"@.len() == 28);
    assert("figma_bridge_set_auto_layout"@[13] == 's');
    reveal_strlit("figma_bridge_set_fills");
    assert("figma_bridge_set_fills"@.len() == 22);
    reveal_strlit("figma_bridge_set_strokes");
    assert("figma_bridge_set_strokes"@.len() == 24);
    assert("figma_bridge_set_strokes"@[13] == 's');
    reveal_strlit("figma_bridge_execute");
    assert("figma_bridge_execute"@.len() == 20);
}

/// Every tool that the plugin lists is routed to a tool, not reported as
/// unknown.
pub proof fn lemma_dispatch_covers_every_tool(a: Seq<ArgEntryV>)
    ensures
        forall|i: int|
            0 <= i < tools::tool_table().len() ==> handler_plan(
                #[trigger] tools::tool_table()[i].name,
                a,
            ) is Some,
{
    assert forall|i: int| 0 <= i < tools::tool_table().len() implies handler_plan(
        #[trigger] tools::tool_table()[i].name,
        a,
    ) is Some by {
        if i == 0 {
            assert(tools::tool_table()[i].name == "figma_bridge_status"@);
        } else if i == 1 {
            assert(tools::tool_table()[i].name == "figma_bridge_get_selection"@);
        } else if i == 2 {
            assert(tools::tool_table()[i].name == "figma_bridge_get_page_nodes"@);
        } else if i == 3 {
            assert(tools::tool_table()[i].name == "figma_bridge_create_frame"@);
        } else if i == 4 {
            assert(tools::tool_table()[i].name == "figma_bridge_create_text"@);
        } else if i == 5 {
            assert(tools::tool_table()[i].name == "figma_bridge_create_rectangle"@);
        } else if i == 6 {
            assert(tools::tool_table()[i].name == "figma_bridge_set_node_property"@);
        } else if i == 7 {
            assert(tools::tool_table()[i].name == "figma_bridge_delete_node"@);
        } else if i == 8 {
            assert(tools::tool_table()[i].name == "figma_bridge_clone_node"@);
        } else if i == 9 {
            assert(tools::tool_table()[i].name == "figma_bridge_create_component"@);
        } else if i == 10 {
            assert(tools::tool_table()[i].name == "figma_bridge_create_instance"@);
        } else if i == 11 {
            assert(tools::tool_table()[i].name == "figma_bridge_set_auto_layout"@);
        } else if i == 12 {
            assert(tools::tool_table()[i].name == "figma_bridge_set_fills"@);
        } else if i == 13 {
            assert(tools::tool_table()[i].name == "figma_bridge_set_strokes"@);
        } else if i == 14 {
            assert(tools::tool_table()[i].name == "figma_bridge_execute"@);
        }
    }
}

} // verus!
