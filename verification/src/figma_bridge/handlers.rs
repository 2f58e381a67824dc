//! The Figma Desktop Bridge tools: each turns its arguments into the command
//! it sends to the bridge, or into the error it reports without sending one.
use vstd::prelude::*;

use crate::args::{arg_int, arg_str, int_arg, required, required_arg, str_arg, ArgEntryV, Args};
use crate::json::{read_json, serde_json_read};
use crate::request::{fields_view, put, Field, FieldV};
use crate::text::{owned, push_str};

verus! {

/// A command for the bridge plugin, with its parameters.
#[derive(Debug, PartialEq)]
pub struct Command {
    pub command: String,
    pub params: Field,
    /// Whether a failure means that the bridge is not running: the status
    /// check reports it so.
    pub connection_check: bool,
}

pub struct CommandV {
    pub command: Seq<char>,
    pub params: FieldV,
    pub connection_check: bool,
}

impl Command {
    pub open spec fn view(&self) -> CommandV {
        CommandV { command: self.command@, params: self.params.view(), connection_check: self.connection_check }
    }
}

/// The view of a tool's outcome: its command, or the error it reports.
pub open spec fn command_view(r: Result<Command, String>) -> Result<CommandV, Seq<char>> {
    match r {
        Ok(c) => Ok(c.view()),
        Err(e) => Err(e@),
    }
}

/// A command whose parameters are an object.
pub open spec fn cmd(name: Seq<char>, params: Map<Seq<char>, FieldV>) -> CommandV {
    CommandV { command: name, params: FieldV::Object(params), connection_check: false }
}

fn command_with(name: &str, params: Vec<(String, Field)>) -> (r: Command)
    ensures
        r.view() == cmd(name@, fields_view(params@)),
{
    Command { command: owned(name), params: Field::Object(params), connection_check: false }
}

/// The integer argument `k`, or `default`.
pub open spec fn int_or(a: Seq<ArgEntryV>, k: Seq<char>, default: int) -> int {
    match int_arg(a, k) {
        Some(n) => n as int,
        None => default,
    }
}

/// Sets `key` to the integer argument `arg`, or `default`.
fn put_int_or(args: &Args, params: &mut Vec<(String, Field)>, key: &str, arg: &str, default: i64)
    ensures
        fields_view(final(params)@) == fields_view(old(params)@).insert(
            key@,
            FieldV::Int(int_or(args.view(), arg@, default as int)),
        ),
{
    let n = match arg_int(args, arg) {
        Some(n) => n,
        None => default,
    };
    put(params, key, Field::Int(n));
}

/// Sets `key` to the string argument `arg`, empty when absent.
fn put_text(args: &Args, params: &mut Vec<(String, Field)>, key: &str, arg: &str)
    ensures
        fields_view(final(params)@) == fields_view(old(params)@).insert(
            key@,
            FieldV::Str(str_arg(args.view(), arg@)),
        ),
{
    put(params, key, Field::Str(arg_str(args, arg)));
}

// ── Connection and selection ───────────────────────────────────────────────

/// `status`, checking the connection.
pub open spec fn handle_status_plan(a: Seq<ArgEntryV>) -> Result<CommandV, Seq<char>> {
    Ok(CommandV { command: "status"@, params: FieldV::Null, connection_check: true })
}

pub fn handle_status(_args: &Args) -> (r: Result<Command, String>)
    ensures
        command_view(r) == handle_status_plan(_args.view()),
{
    Ok(Command { command: owned("status"), params: Field::Null, connection_check: true })
}

/// `getSelection`.
pub open spec fn handle_get_selection_plan(a: Seq<ArgEntryV>) -> Result<CommandV, Seq<char>> {
    Ok(CommandV { command: "getSelection"@, params: FieldV::Null, connection_check: false })
}

pub fn handle_get_selection(_args: &Args) -> (r: Result<Command, String>)
    ensures
        command_view(r) == handle_get_selection_plan(_args.view()),
{
    Ok(Command { command: owned("getSelection"), params: Field::Null, connection_check: false })
}

/// `getPageNodes`.
pub open spec fn handle_get_page_nodes_plan(a: Seq<ArgEntryV>) -> Result<CommandV, Seq<char>> {
    Ok(CommandV { command: "getPageNodes"@, params: FieldV::Null, connection_check: false })
}

pub fn handle_get_page_nodes(_args: &Args) -> (r: Result<Command, String>)
    ensures
        command_view(r) == handle_get_page_nodes_plan(_args.view()),
{
    Ok(Command { command: owned("getPageNodes"), params: Field::Null, connection_check: false })
}

// ── Nodes ──────────────────────────────────────────────────────────────────

/// `createFrame`: the name is required; position 0,0 and size 400x300 by
/// default.
pub open spec fn handle_create_frame_plan(a: Seq<ArgEntryV>) -> Result<CommandV, Seq<char>> {
    match required_arg(a, "name"@) {
        Err(e) => Err(e),
        Ok(name) => Ok(
            cmd(
                "createFrame"@,
                Map::empty().insert("name"@, FieldV::Str(name)).insert("x"@, FieldV::Int(int_or(a, "x"@, 0))).insert(
                    "y"@,
                    FieldV::Int(int_or(a, "y"@, 0)),
                ).insert("width"@, FieldV::Int(int_or(a, "width"@, 400))).insert(
                    "height"@,
                    FieldV::Int(int_or(a, "height"@, 300)),
                ),
            ),
        ),
    }
}

pub fn handle_create_frame(args: &Args) -> (r: Result<Command, String>)
    ensures
        command_view(r) == handle_create_frame_plan(args.view()),
{
    let name = match required(args, "name") {
        Ok(v) => v,
        Err(e) => return Err(e),
    };
    let mut p: Vec<(String, Field)> = Vec::new();
    put(&mut p, "name", Field::Str(name));
    put_int_or(args, &mut p, "x", "x", 0);
    put_int_or(args, &mut p, "y", "y", 0);
    put_int_or(args, &mut p, "width", "width", 400);
    put_int_or(args, &mut p, "height", "height", 300);
    Ok(command_with("createFrame", p))
}

/// `createText`: the text is required; the parent as given, position 0,0 and
/// font size 16 by default.
pub open spec fn handle_create_text_plan(a: Seq<ArgEntryV>) -> Result<CommandV, Seq<char>> {
    match required_arg(a, "text"@) {
        Err(e) => Err(e),
        Ok(text) => Ok(
            cmd(
                "createText"@,
                Map::empty().insert("text"@, FieldV::Str(text)).insert(
                    "parentId"@,
                    FieldV::Str(str_arg(a, "parent_id"@)),
                ).insert("x"@, FieldV::Int(int_or(a, "x"@, 0))).insert("y"@, FieldV::Int(int_or(a, "y"@, 0))).insert(
                    "fontSize"@,
                    FieldV::Int(int_or(a, "font_size"@, 16)),
                ),
            ),
        ),
    }
}

pub fn handle_create_text(args: &Args) -> (r: Result<Command, String>)
    ensures
        command_view(r) == handle_create_text_plan(args.view()),
{
    let text = match required(args, "text") {
        Ok(v) => v,
        Err(e) => return Err(e),
    };
    let mut p: Vec<(String, Field)> = Vec::new();
    put(&mut p, "text", Field::Str(text));
    put_text(args, &mut p, "parentId", "parent_id");
    put_int_or(args, &mut p, "x", "x", 0);
    put_int_or(args, &mut p, "y", "y", 0);
    put_int_or(args, &mut p, "fontSize", "font_size", 16);
    Ok(command_with("createText", p))
}

/// `createRectangle`: name, parent and fill as given; position 0,0 and size
/// 100x100 by default.
pub open spec fn handle_create_rectangle_plan(a: Seq<ArgEntryV>) -> Result<CommandV, Seq<char>> {
    Ok(
        cmd(
            "createRectangle"@,
            Map::empty().insert("name"@, FieldV::Str(str_arg(a, "name"@))).insert(
                "parentId"@,
                FieldV::Str(str_arg(a, "parent_id"@)),
            ).insert("x"@, FieldV::Int(int_or(a, "x"@, 0))).insert("y"@, FieldV::Int(int_or(a, "y"@, 0))).insert(
                "width"@,
                FieldV::Int(int_or(a, "width"@, 100)),
            ).insert("height"@, FieldV::Int(int_or(a, "height"@, 100))).insert(
                "fillColor"@,
                FieldV::Str(str_arg(a, "fill_color"@)),
            ),
        ),
    )
}

pub fn handle_create_rectangle(args: &Args) -> (r: Result<Command, String>)
    ensures
        command_view(r) == handle_create_rectangle_plan(args.view()),
{
    let mut p: Vec<(String, Field)> = Vec::new();
    put_text(args, &mut p, "name", "name");
    put_text(args, &mut p, "parentId", "parent_id");
    put_int_or(args, &mut p, "x", "x", 0);
    put_int_or(args, &mut p, "y", "y", 0);
    put_int_or(args, &mut p, "width", "width", 100);
    put_int_or(args, &mut p, "height", "height", 100);
    put_text(args, &mut p, "fillColor", "fill_color");
    Ok(command_with("createRectangle", p))
}

/// The new value of a property: the JSON it reads as, or else the text
/// itself.
pub open spec fn property_value(v: Seq<char>) -> FieldV {
    match serde_json_read(v) {
        Ok((_, t)) => FieldV::Json(t),
        Err(_) => FieldV::Str(v),
    }
}

/// `setNodeProperty`: the node and the property are required.
pub open spec fn handle_set_node_property_plan(a: Seq<ArgEntryV>) -> Result<CommandV, Seq<char>> {
    let node = str_arg(a, "node_id"@);
    let property = str_arg(a, "property"@);
    if node.len() == 0 || property.len() == 0 {
        Err("node_id and property are required"@)
    } else {
        Ok(
            cmd(
                "setNodeProperty"@,
                Map::empty().insert("nodeId"@, FieldV::Str(node)).insert("property"@, FieldV::Str(property)).insert(
                    "value"@,
                    property_value(str_arg(a, "value"@)),
                ),
            ),
        )
    }
}

pub fn handle_set_node_property(args: &Args) -> (r: Result<Command, String>)
    ensures
        command_view(r) == handle_set_node_property_plan(args.view()),
{
    let node_id = arg_str(args, "node_id");
    let property = arg_str(args, "property");
    let value = arg_str(args, "value");
    if node_id.as_str().is_empty() || property.as_str().is_empty() {
        return Err(owned("node_id and property are required"));
    }
    let parsed = match read_json(value.as_str()) {
        Ok(j) => Field::Json(j.text),
        Err(_) => Field::Str(value),
    };
    let mut p: Vec<(String, Field)> = Vec::new();
    put(&mut p, "nodeId", Field::Str(node_id));
    put(&mut p, "property", Field::Str(property));
    put(&mut p, "value", parsed);
    Ok(command_with("setNodeProperty", p))
}

/// A command about one node, which is required.
pub open spec fn node_plan(a: Seq<ArgEntryV>, name: Seq<char>) -> Result<CommandV, Seq<char>> {
    match required_arg(a, "node_id"@) {
        Err(e) => Err(e),
        Ok(node) => Ok(cmd(name, Map::empty().insert("nodeId"@, FieldV::Str(node)))),
    }
}

fn node_command(args: &Args, name: &str) -> (r: Result<Command, String>)
    ensures
        command_view(r) == node_plan(args.view(), name@),
{
    let node_id = match required(args, "node_id") {
        Ok(v) => v,
        Err(e) => return Err(e),
    };
    let mut p: Vec<(String, Field)> = Vec::new();
    put(&mut p, "nodeId", Field::Str(node_id));
    Ok(command_with(name, p))
}

/// `deleteNode`.
pub open spec fn handle_delete_node_plan(a: Seq<ArgEntryV>) -> Result<CommandV, Seq<char>> {
    node_plan(a, "deleteNode"@)
}

pub fn handle_delete_node(args: &Args) -> (r: Result<Command, String>)
    ensures
        command_view(r) == handle_delete_node_plan(args.view()),
{
    node_command(args, "deleteNode")
}

/// `cloneNode`.
pub open spec fn handle_clone_node_plan(a: Seq<ArgEntryV>) -> Result<CommandV, Seq<char>> {
    node_plan(a, "cloneNode"@)
}

pub fn handle_clone_node(args: &Args) -> (r: Result<Command, String>)
    ensures
        command_view(r) == handle_clone_node_plan(args.view()),
{
    node_command(args, "cloneNode")
}

// ── Components ─────────────────────────────────────────────────────────────

/// `createComponent`: the name is required; the node as given and size
/// 100x100 by default.
pub open spec fn handle_create_component_plan(a: Seq<ArgEntryV>) -> Result<CommandV, Seq<char>> {
    match required_arg(a, "name"@) {
        Err(e) => Err(e),
        Ok(name) => Ok(
            cmd(
                "createComponent"@,
                Map::empty().insert("nodeId"@, FieldV::Str(str_arg(a, "node_id"@))).insert(
                    "name"@,
                    FieldV::Str(name),
                ).insert("width"@, FieldV::Int(int_or(a, "width"@, 100))).insert(
                    "height"@,
                    FieldV::Int(int_or(a, "height"@, 100)),
                ),
            ),
        ),
    }
}

pub fn handle_create_component(args: &Args) -> (r: Result<Command, String>)
    ensures
        command_view(r) == handle_create_component_plan(args.view()),
{
    let name = match required(args, "name") {
        Ok(v) => v,
        Err(e) => return Err(e),
    };
    let mut p: Vec<(String, Field)> = Vec::new();
    put_text(args, &mut p, "nodeId", "node_id");
    put(&mut p, "name", Field::Str(name));
    put_int_or(args, &mut p, "width", "width", 100);
    put_int_or(args, &mut p, "height", "height", 100);
    Ok(command_with("createComponent", p))
}

/// `createInstance`: the component is required; position 0,0 by default.
pub open spec fn handle_create_instance_plan(a: Seq<ArgEntryV>) -> Result<CommandV, Seq<char>> {
    match required_arg(a, "component_id"@) {
        Err(e) => Err(e),
        Ok(c) => Ok(
            cmd(
                "createInstance"@,
                Map::empty().insert("componentId"@, FieldV::Str(c)).insert("x"@, FieldV::Int(int_or(a, "x"@, 0))).insert(
                    "y"@,
                    FieldV::Int(int_or(a, "y"@, 0)),
                ),
            ),
        ),
    }
}

pub fn handle_create_instance(args: &Args) -> (r: Result<Command, String>)
    ensures
        command_view(r) == handle_create_instance_plan(args.view()),
{
    let component_id = match required(args, "component_id") {
        Ok(v) => v,
        Err(e) => return Err(e),
    };
    let mut p: Vec<(String, Field)> = Vec::new();
    put(&mut p, "componentId", Field::Str(component_id));
    put_int_or(args, &mut p, "x", "x", 0);
    put_int_or(args, &mut p, "y", "y", 0);
    Ok(command_with("createInstance", p))
}

// ── Layout and paints ──────────────────────────────────────────────────────

/// `setAutoLayout`: the node and direction are required; spacing 0 by
/// default, padding and alignment as given.
pub open spec fn handle_set_auto_layout_plan(a: Seq<ArgEntryV>) -> Result<CommandV, Seq<char>> {
    let node = str_arg(a, "node_id"@);
    let direction = str_arg(a, "direction"@);
    if node.len() == 0 || direction.len() == 0 {
        Err("node_id and direction are required"@)
    } else {
        Ok(
            cmd(
                "setAutoLayout"@,
                Map::empty().insert("nodeId"@, FieldV::Str(node)).insert("direction"@, FieldV::Str(direction)).insert(
                    "spacing"@,
                    FieldV::Int(int_or(a, "spacing"@, 0)),
                ).insert("padding"@, FieldV::Str(str_arg(a, "padding"@))).insert(
                    "align"@,
                    FieldV::Str(str_arg(a, "align"@)),
                ),
            ),
        )
    }
}

pub fn handle_set_auto_layout(args: &Args) -> (r: Result<Command, String>)
    ensures
        command_view(r) == handle_set_auto_layout_plan(args.view()),
{
    let node_id = arg_str(args, "node_id");
    let direction = arg_str(args, "direction");
    if node_id.as_str().is_empty() || direction.as_str().is_empty() {
        return Err(owned("node_id and direction are required"));
    }
    let mut p: Vec<(String, Field)> = Vec::new();
    put(&mut p, "nodeId", Field::Str(node_id));
    put(&mut p, "direction", Field::Str(direction));
    put_int_or(args, &mut p, "spacing", "spacing", 0);
    put_text(args, &mut p, "padding", "padding");
    put_text(args, &mut p, "align", "align");
    Ok(command_with("setAutoLayout", p))
}

/// A paint command: the node and the paints, as JSON text, are required.
pub open spec fn paints_plan(a: Seq<ArgEntryV>, name: Seq<char>, key: Seq<char>) -> Result<Map<Seq<char>, FieldV>, Seq<char>> {
    let node = str_arg(a, "node_id"@);
    let paints = str_arg(a, key);
    if node.len() == 0 || paints.len() == 0 {
        Err("node_id and "@ + key + " are required"@)
    } else {
        match serde_json_read(paints) {
            Err(e) => Err("invalid JSON for "@ + key + ": "@ + e),
            Ok((_, t)) => Ok(Map::empty().insert("nodeId"@, FieldV::Str(node)).insert(key, FieldV::Json(t))),
        }
    }
}

fn paints_params(args: &Args, key: &str) -> (r: Result<Vec<(String, Field)>, String>)
    ensures
        paints_plan(args.view(), ""@, key@) == match r {
            Ok(p) => Ok(fields_view(p@)),
            Err(e) => Err(e@),
        },
{
    let node_id = arg_str(args, "node_id");
    let paints = arg_str(args, key);
    if node_id.as_str().is_empty() || paints.as_str().is_empty() {
        let mut m = owned("node_id and ");
        push_str(&mut m, key);
        push_str(&mut m, " are required");
        return Err(m);
    }
    let parsed = match read_json(paints.as_str()) {
        Ok(j) => j.text,
        Err(e) => {
            let mut m = owned("invalid JSON for ");
            push_str(&mut m, key);
            push_str(&mut m, ": ");
            push_str(&mut m, e.as_str());
            return Err(m);
        },
    };
    let mut p: Vec<(String, Field)> = Vec::new();
    put(&mut p, "nodeId", Field::Str(node_id));
    put(&mut p, key, Field::Json(parsed));
    Ok(p)
}

/// `setFills`.
pub open spec fn handle_set_fills_plan(a: Seq<ArgEntryV>) -> Result<CommandV, Seq<char>> {
    match paints_plan(a, ""@, "fills"@) {
        Err(e) => Err(e),
        Ok(m) => Ok(cmd("setFills"@, m)),
    }
}

pub fn handle_set_fills(args: &Args) -> (r: Result<Command, String>)
    ensures
        command_view(r) == handle_set_fills_plan(args.view()),
{
    match paints_params(args, "fills") {
        Ok(p) => Ok(command_with("setFills", p)),
        Err(e) => Err(e),
    }
}

/// The stroke weight: the integer argument, or null.
pub open spec fn stroke_weight(a: Seq<ArgEntryV>) -> FieldV {
    match int_arg(a, "stroke_weight"@) {
        Some(n) => FieldV::Int(n as int),
        None => FieldV::Null,
    }
}

/// `setStrokes`, with the stroke weight.
pub open spec fn handle_set_strokes_plan(a: Seq<ArgEntryV>) -> Result<CommandV, Seq<char>> {
    match paints_plan(a, ""@, "strokes"@) {
        Err(e) => Err(e),
        Ok(m) => Ok(cmd("setStrokes"@, m.insert("strokeWeight"@, stroke_weight(a)))),
    }
}

pub fn handle_set_strokes(args: &Args) -> (r: Result<Command, String>)
    ensures
        command_view(r) == handle_set_strokes_plan(args.view()),
{
    let mut p = match paints_params(args, "strokes") {
        Ok(p) => p,
        Err(e) => return Err(e),
    };
    let weight = match arg_int(args, "stroke_weight") {
        Some(n) => Field::Int(n),
        None => Field::Null,
    };
    put(&mut p, "strokeWeight", weight);
    Ok(command_with("setStrokes", p))
}

/// `execute`: the code is required.
pub open spec fn handle_execute_plan(a: Seq<ArgEntryV>) -> Result<CommandV, Seq<char>> {
    match required_arg(a, "code"@) {
        Err(e) => Err(e),
        Ok(code) => Ok(cmd("execute"@, Map::empty().insert("code"@, FieldV::Str(code)))),
    }
}

pub fn handle_execute(args: &Args) -> (r: Result<Command, String>)
    ensures
        command_view(r) == handle_execute_plan(args.view()),
{
    let code = match required(args, "code") {
        Ok(v) => v,
        Err(e) => return Err(e),
    };
    let mut p: Vec<(String, Field)> = Vec::new();
    put(&mut p, "code", Field::Str(code));
    Ok(command_with("execute", p))
}


/// `createFrame` needs a name, and is sent with that name and the frame's
/// position and size: each the integer argument of the same name when one is
/// given, and otherwise 0, 0, 400 and 300.
pub proof fn lemma_create_frame_params(a: Seq<ArgEntryV>)
    ensures
        handle_create_frame_plan(a) is Ok <==> str_arg(a, "name"@).len() > 0,
        handle_create_frame_plan(a) matches Ok(c) ==> {
            &&& c.command == "createFrame"@
            &&& !c.connection_check
            &&& c.params matches FieldV::Object(m)
            &&& m.dom() == set!["name"@, "x"@, "y"@, "width"@, "height"@]
            &&& m["name"@] == FieldV::Str(str_arg(a, "name"@))
            &&& int_arg(a, "x"@) matches Some(n) ==> m["x"@] == FieldV::Int(n as int)
            &&& int_arg(a, "x"@) is None ==> m["x"@] == FieldV::Int(0)
            &&& int_arg(a, "y"@) matches Some(n) ==> m["y"@] == FieldV::Int(n as int)
            &&& int_arg(a, "y"@) is None ==> m["y"@] == FieldV::Int(0)
            &&& int_arg(a, "width"@) matches Some(n) ==> m["width"@] == FieldV::Int(n as int)
            &&& int_arg(a, "width"@) is None ==> m["width"@] == FieldV::Int(400)
            &&& int_arg(a, "height"@) matches Some(n) ==> m["height"@] == FieldV::Int(n as int)
            &&& int_arg(a, "height"@) is None ==> m["height"@] == FieldV::Int(300)
        },
{
    reveal_strlit("name");
    assert("name"@.len() == 4);
    reveal_strlit("x");
    assert("x"@.len() == 1);
    assert("x"@[0] == 'x');
    reveal_strlit("y");
    assert("y"@.len() == 1);
    assert("y"@[0] == 'y');
    reveal_strlit("width");
    assert("width"@.len() == 5);
    reveal_strlit("height");
    assert("height"@.len() == 6);
}


/// `createText`: a text node needs its text, and is placed in the parent given at the position given (0, 0 by default) with the font size given (16 by default).
pub proof fn lemma_create_text_params(a: Seq<ArgEntryV>)
    ensures
        handle_create_text_plan(a) is Ok <==> str_arg(a, "text"@).len() > 0,
        handle_create_text_plan(a) matches Ok(c) ==> {
            &&& c.command == "createText"@
            &&& !c.connection_check
            &&& c.params matches FieldV::Object(m)
            &&& m.dom() == set!["text"@, "parentId"@, "x"@, "y"@, "fontSize"@]
            &&& m["text"@] == FieldV::Str(str_arg(a, "text"@))
            &&& m["parentId"@] == FieldV::Str(str_arg(a, "parent_id"@))
            &&& (int_arg(a, "x"@) matches Some(n) ==> m["x"@] == FieldV::Int(n as int))
            &&& (int_arg(a, "x"@) is None ==> m["x"@] == FieldV::Int(0))
            &&& (int_arg(a, "y"@) matches Some(n) ==> m["y"@] == FieldV::Int(n as int))
            &&& (int_arg(a, "y"@) is None ==> m["y"@] == FieldV::Int(0))
            &&& (int_arg(a, "font_size"@) matches Some(n) ==> m["fontSize"@] == FieldV::Int(n as int))
            &&& (int_arg(a, "font_size"@) is None ==> m["fontSize"@] == FieldV::Int(16))
        },
{
    reveal_strlit("text");
    assert("text"@.len() == 4);
    reveal_strlit("parentId");
    assert("parentId"@.len() == 8);
    assert("parentId"@[0] == 'p');
    reveal_strlit("x");
    assert("x"@.len() == 1);
    assert("x"@[0] == 'x');
    reveal_strlit("y");
    assert("y"@.len() == 1);
    assert("y"@[0] == 'y');
    reveal_strlit("fontSize");
    assert("fontSize"@.len() == 8);
    assert("fontSize"@[0] == 'f');
}

/// `createRectangle`: a rectangle takes the name, parent and fill given, at the position given (0, 0 by default) and of the size given (100 by 100 by default).
pub proof fn lemma_create_rectangle_params(a: Seq<ArgEntryV>)
    ensures
        handle_create_rectangle_plan(a) is Ok <==> true,
        handle_create_rectangle_plan(a) matches Ok(c) ==> {
            &&& c.command == "createRectangle"@
            &&& !c.connection_check
            &&& c.params matches FieldV::Object(m)
            &&& m.dom() == set!["name"@, "parentId"@, "x"@, "y"@, "width"@, "height"@, "fillColor"@]
            &&& m["name"@] == FieldV::Str(str_arg(a, "name"@))
            &&& m["parentId"@] == FieldV::Str(str_arg(a, "parent_id"@))
            &&& (int_arg(a, "x"@) matches Some(n) ==> m["x"@] == FieldV::Int(n as int))
            &&& (int_arg(a, "x"@) is None ==> m["x"@] == FieldV::Int(0))
            &&& (int_arg(a, "y"@) matches Some(n) ==> m["y"@] == FieldV::Int(n as int))
            &&& (int_arg(a, "y"@) is None ==> m["y"@] == FieldV::Int(0))
            &&& (int_arg(a, "width"@) matches Some(n) ==> m["width"@] == FieldV::Int(n as int))
            &&& (int_arg(a, "width"@) is None ==> m["width"@] == FieldV::Int(100))
            &&& (int_arg(a, "height"@) matches Some(n) ==> m["height"@] == FieldV::Int(n as int))
            &&& (int_arg(a, "height"@) is None ==> m["height"@] == FieldV::Int(100))
            &&& m["fillColor"@] == FieldV::Str(str_arg(a, "fill_color"@))
        },
{
    reveal_strlit("name");
    assert("name"@.len() == 4);
    reveal_strlit("parentId");
    assert("parentId"@.len() == 8);
    reveal_strlit("x");
    assert("x"@.len() == 1);
    assert("x"@[0] == 'x');
    reveal_strlit("y");
    assert("y"@.len() == 1);
    assert("y"@[0] == 'y');
    reveal_strlit("width");
    assert("width"@.len() == 5);
    reveal_strlit("height");
    assert("height"@.len() == 6);
    reveal_strlit("fillColor");
    assert("fillColor"@.len() == 9);
}

/// `setNodeProperty`: setting a property needs the node and the property, and sends the value read as JSON, or as the text itself when it is not JSON.
pub proof fn lemma_set_node_property_params(a: Seq<ArgEntryV>)
    ensures
        handle_set_node_property_plan(a) is Ok <==> str_arg(a, "node_id"@).len() > 0 && str_arg(a, "property"@).len() > 0,
        handle_set_node_property_plan(a) matches Ok(c) ==> {
            &&& c.command == "setNodeProperty"@
            &&& !c.connection_check
            &&& c.params matches FieldV::Object(m)
            &&& m.dom() == set!["nodeId"@, "property"@, "value"@]
            &&& m["nodeId"@] == FieldV::Str(str_arg(a, "node_id"@))
            &&& m["property"@] == FieldV::Str(str_arg(a, "property"@))
            &&& (serde_json_read(str_arg(a, "value"@)) matches Ok((_, t)) ==> m["value"@] == FieldV::Json(t))
            &&& (serde_json_read(str_arg(a, "value"@)) is Err ==> m["value"@] == FieldV::Str(str_arg(a, "value"@)))
        },
{
    reveal_strlit("nodeId");
    assert("nodeId"@.len() == 6);
    reveal_strlit("property");
    assert("property"@.len() == 8);
    reveal_strlit("value");
    assert("value"@.len() == 5);
}

/// `deleteNode`: deleting a node needs the node, and names it.
pub proof fn lemma_delete_node_params(a: Seq<ArgEntryV>)
    ensures
        handle_delete_node_plan(a) is Ok <==> str_arg(a, "node_id"@).len() > 0,
        handle_delete_node_plan(a) matches Ok(c) ==> {
            &&& c.command == "deleteNode"@
            &&& !c.connection_check
            &&& c.params matches FieldV::Object(m)
            &&& m.dom() == set!["nodeId"@]
            &&& m["nodeId"@] == FieldV::Str(str_arg(a, "node_id"@))
        },
{

}

/// `cloneNode`: cloning a node needs the node, and names it.
pub proof fn lemma_clone_node_params(a: Seq<ArgEntryV>)
    ensures
        handle_clone_node_plan(a) is Ok <==> str_arg(a, "node_id"@).len() > 0,
        handle_clone_node_plan(a) matches Ok(c) ==> {
            &&& c.command == "cloneNode"@
            &&& !c.connection_check
            &&& c.params matches FieldV::Object(m)
            &&& m.dom() == set!["nodeId"@]
            &&& m["nodeId"@] == FieldV::Str(str_arg(a, "node_id"@))
        },
{

}

/// `createComponent`: a component needs a name, and is made from the node given with the size given (100 by 100 by default).
pub proof fn lemma_create_component_params(a: Seq<ArgEntryV>)
    ensures
        handle_create_component_plan(a) is Ok <==> str_arg(a, "name"@).len() > 0,
        handle_create_component_plan(a) matches Ok(c) ==> {
            &&& c.command == "createComponent"@
            &&& !c.connection_check
            &&& c.params matches FieldV::Object(m)
            &&& m.dom() == set!["nodeId"@, "name"@, "width"@, "height"@]
            &&& m["nodeId"@] == FieldV::Str(str_arg(a, "node_id"@))
            &&& m["name"@] == FieldV::Str(str_arg(a, "name"@))
            &&& (int_arg(a, "width"@) matches Some(n) ==> m["width"@] == FieldV::Int(n as int))
            &&& (int_arg(a, "width"@) is None ==> m["width"@] == FieldV::Int(100))
            &&& (int_arg(a, "height"@) matches Some(n) ==> m["height"@] == FieldV::Int(n as int))
            &&& (int_arg(a, "height"@) is None ==> m["height"@] == FieldV::Int(100))
        },
{
    reveal_strlit("nodeId");
    assert("nodeId"@.len() == 6);
    assert("nodeId"@[0] == 'n');
    reveal_strlit("name");
    assert("name"@.len() == 4);
    reveal_strlit("width");
    assert("width"@.len() == 5);
    reveal_strlit("height");
    assert("height"@.len() == 6);
    assert("height"@[0] == 'h');
}

/// `createInstance`: an instance needs its component, and is placed at the position given (0, 0 by default).
pub proof fn lemma_create_instance_params(a: Seq<ArgEntryV>)
    ensures
        handle_create_instance_plan(a) is Ok <==> str_arg(a, "component_id"@).len() > 0,
        handle_create_instance_plan(a) matches Ok(c) ==> {
            &&& c.command == "createInstance"@
            &&& !c.connection_check
            &&& c.params matches FieldV::Object(m)
            &&& m.dom() == set!["componentId"@, "x"@, "y"@]
            &&& m["componentId"@] == FieldV::Str(str_arg(a, "component_id"@))
            &&& (int_arg(a, "x"@) matches Some(n) ==> m["x"@] == FieldV::Int(n as int))
            &&& (int_arg(a, "x"@) is None ==> m["x"@] == FieldV::Int(0))
            &&& (int_arg(a, "y"@) matches Some(n) ==> m["y"@] == FieldV::Int(n as int))
            &&& (int_arg(a, "y"@) is None ==> m["y"@] == FieldV::Int(0))
        },
{
    reveal_strlit("componentId");
    assert("componentId"@.len() == 11);
    reveal_strlit("x");
    assert("x"@.len() == 1);
    assert("x"@[0] == 'x');
    reveal_strlit("y");
    assert("y"@.len() == 1);
    assert("y"@[0] == 'y');
}

/// `setAutoLayout`: auto layout needs the node and the direction, and sends the spacing given (0 by default) and the padding and alignment given.
pub proof fn lemma_set_auto_layout_params(a: Seq<ArgEntryV>)
    ensures
        handle_set_auto_layout_plan(a) is Ok <==> str_arg(a, "node_id"@).len() > 0 && str_arg(a, "direction"@).len() > 0,
        handle_set_auto_layout_plan(a) matches Ok(c) ==> {
            &&& c.command == "setAutoLayout"@
            &&& !c.connection_check
            &&& c.params matches FieldV::Object(m)
            &&& m.dom() == set!["nodeId"@, "direction"@, "spacing"@, "padding"@, "align"@]
            &&& m["nodeId"@] == FieldV::Str(str_arg(a, "node_id"@))
            &&& m["direction"@] == FieldV::Str(str_arg(a, "direction"@))
            &&& (int_arg(a, "spacing"@) matches Some(n) ==> m["spacing"@] == FieldV::Int(n as int))
            &&& (int_arg(a, "spacing"@) is None ==> m["spacing"@] == FieldV::Int(0))
            &&& m["padding"@] == FieldV::Str(str_arg(a, "padding"@))
            &&& m["align"@] == FieldV::Str(str_arg(a, "align"@))
        },
{
    reveal_strlit("nodeId");
    assert("nodeId"@.len() == 6);
    reveal_strlit("direction");
    assert("direction"@.len() == 9);
    reveal_strlit("spacing");
    assert("spacing"@.len() == 7);
    assert("spacing"@[0] == 's');
    reveal_strlit("padding");
    assert("padding"@.len() == 7);
    assert("padding"@[0] == 'p');
    reveal_strlit("align");
    assert("align"@.len() == 5);
}

/// `setFills`: setting fills needs the node and the fills, which are sent as the JSON they read as.
pub proof fn lemma_set_fills_params(a: Seq<ArgEntryV>)
    ensures
        handle_set_fills_plan(a) is Ok <==> str_arg(a, "node_id"@).len() > 0 && str_arg(a, "fills"@).len() > 0 && serde_json_read(str_arg(a, "fills"@)) is Ok,
        handle_set_fills_plan(a) matches Ok(c) ==> {
            &&& c.command == "setFills"@
            &&& !c.connection_check
            &&& c.params matches FieldV::Object(m)
            &&& m.dom() == set!["nodeId"@, "fills"@]
            &&& m["nodeId"@] == FieldV::Str(str_arg(a, "node_id"@))
            &&& (serde_json_read(str_arg(a, "fills"@)) matches Ok((_, t)) && m["fills"@] == FieldV::Json(t))
        },
{
    reveal_strlit("nodeId");
    assert("nodeId"@.len() == 6);
    reveal_strlit("fills");
    assert("fills"@.len() == 5);
}

/// `setStrokes`: setting strokes needs the node and the strokes, which are sent as the JSON they read as, with the stroke weight given or null.
pub proof fn lemma_set_strokes_params(a: Seq<ArgEntryV>)
    ensures
        handle_set_strokes_plan(a) is Ok <==> str_arg(a, "node_id"@).len() > 0 && str_arg(a, "strokes"@).len() > 0 && serde_json_read(str_arg(a, "strokes"@)) is Ok,
        handle_set_strokes_plan(a) matches Ok(c) ==> {
            &&& c.command == "setStrokes"@
            &&& !c.connection_check
            &&& c.params matches FieldV::Object(m)
            &&& m.dom() == set!["nodeId"@, "strokes"@, "strokeWeight"@]
            &&& m["nodeId"@] == FieldV::Str(str_arg(a, "node_id"@))
            &&& (serde_json_read(str_arg(a, "strokes"@)) matches Ok((_, t)) && m["strokes"@] == FieldV::Json(t))
            &&& (int_arg(a, "stroke_weight"@) matches Some(n) ==> m["strokeWeight"@] == FieldV::Int(n as int))
            &&& (int_arg(a, "stroke_weight"@) is None ==> m["strokeWeight"@] == FieldV::Null)
        },
{
    reveal_strlit("nodeId");
    assert("nodeId"@.len() == 6);
    reveal_strlit("strokes");
    assert("strokes"@.len() == 7);
    reveal_strlit("strokeWeight");
    assert("strokeWeight"@.len() == 12);
}

/// `execute`: running code needs the code, and sends it.
pub proof fn lemma_execute_params(a: Seq<ArgEntryV>)
    ensures
        handle_execute_plan(a) is Ok <==> str_arg(a, "code"@).len() > 0,
        handle_execute_plan(a) matches Ok(c) ==> {
            &&& c.command == "execute"@
            &&& !c.connection_check
            &&& c.params matches FieldV::Object(m)
            &&& m.dom() == set!["code"@]
            &&& m["code"@] == FieldV::Str(str_arg(a, "code"@))
        },
{

}

/// The status check sends `status` with no parameters and explains a failure
/// as a bridge that is not running; reading the selection and the page's
/// nodes send `getSelection` and `getPageNodes` with no parameters.
pub proof fn lemma_parameterless_commands(a: Seq<ArgEntryV>)
    ensures
        handle_status_plan(a) == Ok::<CommandV, Seq<char>>(
            CommandV { command: "status"@, params: FieldV::Null, connection_check: true },
        ),
        handle_get_selection_plan(a) == Ok::<CommandV, Seq<char>>(
            CommandV { command: "getSelection"@, params: FieldV::Null, connection_check: false },
        ),
        handle_get_page_nodes_plan(a) == Ok::<CommandV, Seq<char>>(
            CommandV { command: "getPageNodes"@, params: FieldV::Null, connection_check: false },
        ),
{
}

} // verus!
