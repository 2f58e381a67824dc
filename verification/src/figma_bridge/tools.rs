//! The tools that the Figma Desktop Bridge plugin offers.
use vstd::prelude::*;

use crate::request::keys_view;
use crate::tool_def::{keys_distinct, pair_keys, tool_names, str_pairs_view, tool, tools_view, ToolDef, ToolV};

verus! {

/// `figma_bridge_status`.
pub open spec fn status_tool() -> ToolV {
    ToolV {
        name: "figma_bridge_status"@,
        description: "Check the connection status to the Figma Desktop Bridge plugin. Start here to verify the bridge is running."@,
        parameters: seq![],
        required: seq![],
    }
}

/// `figma_bridge_get_selection`.
pub open spec fn get_selection_tool() -> ToolV {
    ToolV {
        name: "figma_bridge_get_selection"@,
        description: "Get the currently selected nodes in Figma Desktop (IDs, names, types, properties)"@,
        parameters: seq![],
        required: seq![],
    }
}

/// `figma_bridge_get_page_nodes`.
pub open spec fn get_page_nodes_tool() -> ToolV {
    ToolV {
        name: "figma_bridge_get_page_nodes"@,
        description: "Get all top-level nodes on the current page"@,
        parameters: seq![],
        required: seq![],
    }
}

/// `figma_bridge_create_frame`.
pub open spec fn create_frame_tool() -> ToolV {
    ToolV {
        name: "figma_bridge_create_frame"@,
        description: "Create a new frame on the current page"@,
        parameters: seq![
            ("name"@, "Frame name"@),
            ("x"@, "X position (default 0)"@),
            ("y"@, "Y position (default 0)"@),
            ("width"@, "Width in pixels (default 400)"@),
            ("height"@, "Height in pixels (default 300)"@),
        ],
        required: seq!["name"@],
    }
}

/// `figma_bridge_create_text`.
pub open spec fn create_text_tool() -> ToolV {
    ToolV {
        name: "figma_bridge_create_text"@,
        description: "Create a text node on the current page or inside a specified parent"@,
        parameters: seq![
            ("text"@, "Text content"@),
            ("parent_id"@, "Parent node ID (optional, defaults to current page)"@),
            ("x"@, "X position (default 0)"@),
            ("y"@, "Y position (default 0)"@),
            ("font_size"@, "Font size in pixels (default 16)"@),
        ],
        required: seq!["text"@],
    }
}

/// `figma_bridge_create_rectangle`.
pub open spec fn create_rectangle_tool() -> ToolV {
    ToolV {
        name: "figma_bridge_create_rectangle"@,
        description: "Create a rectangle node"@,
        parameters: seq![
            ("name"@, "Node name (default 'Rectangle')"@),
            ("parent_id"@, "Parent node ID (optional)"@),
            ("x"@, "X position (default 0)"@),
            ("y"@, "Y position (default 0)"@),
            ("width"@, "Width (default 100)"@),
            ("height"@, "Height (default 100)"@),
            ("fill_color"@, "Fill color as hex (e.g. #FF5733)"@),
        ],
        required: seq![],
    }
}

/// `figma_bridge_set_node_property`.
pub open spec fn set_node_property_tool() -> ToolV {
    ToolV {
        name: "figma_bridge_set_node_property"@,
        description: "Set a property on an existing node (position, size, name, opacity, fills, etc.)"@,
        parameters: seq![
            ("node_id"@, "Target node ID"@),
            ("property"@, "Property name (e.g. name, x, y, width, height, opacity, visible)"@),
            ("value"@, "New value (JSON for complex types, string/number for simple)"@),
        ],
        required: seq!["node_id"@, "property"@, "value"@],
    }
}

/// `figma_bridge_delete_node`.
pub open spec fn delete_node_tool() -> ToolV {
    ToolV {
        name: "figma_bridge_delete_node"@,
        description: "Delete a node by ID"@,
        parameters: seq![
            ("node_id"@, "Node ID to delete"@),
        ],
        required: seq!["node_id"@],
    }
}

/// `figma_bridge_clone_node`.
pub open spec fn clone_node_tool() -> ToolV {
    ToolV {
        name: "figma_bridge_clone_node"@,
        description: "Clone/duplicate a node by ID"@,
        parameters: seq![
            ("node_id"@, "Node ID to clone"@),
        ],
        required: seq!["node_id"@],
    }
}

/// `figma_bridge_create_component`.
pub open spec fn create_component_tool() -> ToolV {
    ToolV {
        name: "figma_bridge_create_component"@,
        description: "Convert a frame/group into a component, or create a new component"@,
        parameters: seq![
            ("node_id"@, "Existing node ID to convert (optional)"@),
            ("name"@, "Component name"@),
            ("width"@, "Width if creating new (default 100)"@),
            ("height"@, "Height if creating new (default 100)"@),
        ],
        required: seq!["name"@],
    }
}

/// `figma_bridge_create_instance`.
pub open spec fn create_instance_tool() -> ToolV {
    ToolV {
        name: "figma_bridge_create_instance"@,
        description: "Create an instance of a local component by its ID"@,
        parameters: seq![
            ("component_id"@, "Component node ID"@),
            ("x"@, "X position (default 0)"@),
            ("y"@, "Y position (default 0)"@),
        ],
        required: seq!["component_id"@],
    }
}

/// `figma_bridge_set_auto_layout`.
pub open spec fn set_auto_layout_tool() -> ToolV {
    ToolV {
        name: "figma_bridge_set_auto_layout"@,
        description: "Apply or modify auto layout on a frame"@,
        parameters: seq![
            ("node_id"@, "Frame node ID"@),
            ("direction"@, "HORIZONTAL or VERTICAL"@),
            ("spacing"@, "Item spacing in pixels"@),
            ("padding"@, "Padding (single number for all sides, or JSON object with top/right/bottom/left)"@),
            ("align"@, "Primary axis alignment: MIN, CENTER, MAX, SPACE_BETWEEN"@),
        ],
        required: seq!["node_id"@, "direction"@],
    }
}

/// `figma_bridge_set_fills`.
pub open spec fn set_fills_tool() -> ToolV {
    ToolV {
        name: "figma_bridge_set_fills"@,
        description: "Set fill colors on a node"@,
        parameters: seq![
            ("node_id"@, "Target node ID"@),
            ("fills"@, "JSON array of fill paints (e.g. [{\"type\":\"SOLID\",\"color\":{\"r\":1,\"g\":0,\"b\":0}}])"@),
        ],
        required: seq!["node_id"@, "fills"@],
    }
}

/// `figma_bridge_set_strokes`.
pub open spec fn set_strokes_tool() -> ToolV {
    ToolV {
        name: "figma_bridge_set_strokes"@,
        description: "Set stroke colors on a node"@,
        parameters: seq![
            ("node_id"@, "Target node ID"@),
            ("strokes"@, "JSON array of stroke paints"@),
            ("stroke_weight"@, "Stroke weight in pixels (optional)"@),
        ],
        required: seq!["node_id"@, "strokes"@],
    }
}

/// `figma_bridge_execute`.
pub open spec fn execute_tool() -> ToolV {
    ToolV {
        name: "figma_bridge_execute"@,
        description: "Execute arbitrary Figma Plugin API JavaScript code in the desktop app context. Use for advanced operations not covered by other tools."@,
        parameters: seq![
            ("code"@, "JavaScript code to execute (has access to the `figma` global object)"@),
        ],
        required: seq!["code"@],
    }
}

/// The tools, in the order they are listed to the host.
pub open spec fn tool_table() -> Seq<ToolV> {
    seq![
        status_tool(),
        get_selection_tool(),
        get_page_nodes_tool(),
        create_frame_tool(),
        create_text_tool(),
        create_rectangle_tool(),
        set_node_property_tool(),
        delete_node_tool(),
        clone_node_tool(),
        create_component_tool(),
        create_instance_tool(),
        set_auto_layout_tool(),
        set_fills_tool(),
        set_strokes_tool(),
        execute_tool(),
    ]
}

/// `tool_definitions`: the descriptions of the tools.
pub fn tool_definitions() -> (r: Vec<ToolDef>)
    ensures
        tools_view(r@) == tool_table(),
{
    let mut defs: Vec<ToolDef> = Vec::new();
    // figma_bridge_status
    let ps: [(&str, &str); 0] = [];
    let rs: [&str; 0] = [];
    let t = tool("figma_bridge_status", "Check the connection status to the Figma Desktop Bridge plugin. Start here to verify the bridge is running.", &ps, &rs);
    assert(str_pairs_view(ps@) =~= status_tool().parameters);
    assert(keys_view(rs@) =~= status_tool().required);
    defs.push(t);
    // figma_bridge_get_selection
    let ps: [(&str, &str); 0] = [];
    let rs: [&str; 0] = [];
    let t = tool("figma_bridge_get_selection", "Get the currently selected nodes in Figma Desktop (IDs, names, types, properties)", &ps, &rs);
    assert(str_pairs_view(ps@) =~= get_selection_tool().parameters);
    assert(keys_view(rs@) =~= get_selection_tool().required);
    defs.push(t);
    // figma_bridge_get_page_nodes
    let ps: [(&str, &str); 0] = [];
    let rs: [&str; 0] = [];
    let t = tool("figma_bridge_get_page_nodes", "Get all top-level nodes on the current page", &ps, &rs);
    assert(str_pairs_view(ps@) =~= get_page_nodes_tool().parameters);
    assert(keys_view(rs@) =~= get_page_nodes_tool().required);
    defs.push(t);
    // figma_bridge_create_frame
    let ps: [(&str, &str); 5] = [
        ("name", "Frame name"),
        ("x", "X position (default 0)"),
        ("y", "Y position (default 0)"),
        ("width", "Width in pixels (default 400)"),
        ("height", "Height in pixels (default 300)"),
    ];
    let rs: [&str; 1] = ["name"];
    let t = tool("figma_bridge_create_frame", "Create a new frame on the current page", &ps, &rs);
    assert(str_pairs_view(ps@) =~= create_frame_tool().parameters);
    assert(keys_view(rs@) =~= create_frame_tool().required);
    defs.push(t);
    // figma_bridge_create_text
    let ps: [(&str, &str); 5] = [
        ("text", "Text content"),
        ("parent_id", "Parent node ID (optional, defaults to current page)"),
        ("x", "X position (default 0)"),
        ("y", "Y position (default 0)"),
        ("font_size", "Font size in pixels (default 16)"),
    ];
    let rs: [&str; 1] = ["text"];
    let t = tool("figma_bridge_create_text", "Create a text node on the current page or inside a specified parent", &ps, &rs);
    assert(str_pairs_view(ps@) =~= create_text_tool().parameters);
    assert(keys_view(rs@) =~= create_text_tool().required);
    defs.push(t);
    // figma_bridge_create_rectangle
    let ps: [(&str, &str); 7] = [
        ("name", "Node name (default 'Rectangle')"),
        ("parent_id", "Parent node ID (optional)"),
        ("x", "X position (default 0)"),
        ("y", "Y position (default 0)"),
        ("width", "Width (default 100)"),
        ("height", "Height (default 100)"),
        ("fill_color", "Fill color as hex (e.g. #FF5733)"),
    ];
    let rs: [&str; 0] = [];
    let t = tool("figma_bridge_create_rectangle", "Create a rectangle node", &ps, &rs);
    assert(str_pairs_view(ps@) =~= create_rectangle_tool().parameters);
    assert(keys_view(rs@) =~= create_rectangle_tool().required);
    defs.push(t);
    // figma_bridge_set_node_property
    let ps: [(&str, &str); 3] = [
        ("node_id", "Target node ID"),
        ("property", "Property name (e.g. name, x, y, width, height, opacity, visible)"),
        ("value", "New value (JSON for complex types, string/number for simple)"),
    ];
    let rs: [&str; 3] = ["node_id", "property", "value"];
    let t = tool("figma_bridge_set_node_property", "Set a property on an existing node (position, size, name, opacity, fills, etc.)", &ps, &rs);
    assert(str_pairs_view(ps@) =~= set_node_property_tool().parameters);
    assert(keys_view(rs@) =~= set_node_property_tool().required);
    defs.push(t);
    // figma_bridge_delete_node
    let ps: [(&str, &str); 1] = [
        ("node_id", "Node ID to delete"),
    ];
    let rs: [&str; 1] = ["node_id"];
    let t = tool("figma_bridge_delete_node", "Delete a node by ID", &ps, &rs);
    assert(str_pairs_view(ps@) =~= delete_node_tool().parameters);
    assert(keys_view(rs@) =~= delete_node_tool().required);
    defs.push(t);
    // figma_bridge_clone_node
    let ps: [(&str, &str); 1] = [
        ("node_id", "Node ID to clone"),
    ];
    let rs: [&str; 1] = ["node_id"];
    let t = tool("figma_bridge_clone_node", "Clone/duplicate a node by ID", &ps, &rs);
    assert(str_pairs_view(ps@) =~= clone_node_tool().parameters);
    assert(keys_view(rs@) =~= clone_node_tool().required);
    defs.push(t);
    // figma_bridge_create_component
    let ps: [(&str, &str); 4] = [
        ("node_id", "Existing node ID to convert (optional)"),
        ("name", "Component name"),
        ("width", "Width if creating new (default 100)"),
        ("height", "Height if creating new (default 100)"),
    ];
    let rs: [&str; 1] = ["name"];
    let t = tool("figma_bridge_create_component", "Convert a frame/group into a component, or create a new component", &ps, &rs);
    assert(str_pairs_view(ps@) =~= create_component_tool().parameters);
    assert(keys_view(rs@) =~= create_component_tool().required);
    defs.push(t);
    // figma_bridge_create_instance
    let ps: [(&str, &str); 3] = [
        ("component_id", "Component node ID"),
        ("x", "X position (default 0)"),
        ("y", "Y position (default 0)"),
    ];
    let rs: [&str; 1] = ["component_id"];
    let t = tool("figma_bridge_create_instance", "Create an instance of a local component by its ID", &ps, &rs);
    assert(str_pairs_view(ps@) =~= create_instance_tool().parameters);
    assert(keys_view(rs@) =~= create_instance_tool().required);
    defs.push(t);
    // figma_bridge_set_auto_layout
    let ps: [(&str, &str); 5] = [
        ("node_id", "Frame node ID"),
        ("direction", "HORIZONTAL or VERTICAL"),
        ("spacing", "Item spacing in pixels"),
        ("padding", "Padding (single number for all sides, or JSON object with top/right/bottom/left)"),
        ("align", "Primary axis alignment: MIN, CENTER, MAX, SPACE_BETWEEN"),
    ];
    let rs: [&str; 2] = ["node_id", "direction"];
    let t = tool("figma_bridge_set_auto_layout", "Apply or modify auto layout on a frame", &ps, &rs);
    assert(str_pairs_view(ps@) =~= set_auto_layout_tool().parameters);
    assert(keys_view(rs@) =~= set_auto_layout_tool().required);
    defs.push(t);
    // figma_bridge_set_fills
    let ps: [(&str, &str); 2] = [
        ("node_id", "Target node ID"),
        ("fills", "JSON array of fill paints (e.g. [{\"type\":\"SOLID\",\"color\":{\"r\":1,\"g\":0,\"b\":0}}])"),
    ];
    let rs: [&str; 2] = ["node_id", "fills"];
    let t = tool("figma_bridge_set_fills", "Set fill colors on a node", &ps, &rs);
    assert(str_pairs_view(ps@) =~= set_fills_tool().parameters);
    assert(keys_view(rs@) =~= set_fills_tool().required);
    defs.push(t);
    // figma_bridge_set_strokes
    let ps: [(&str, &str); 3] = [
        ("node_id", "Target node ID"),
        ("strokes", "JSON array of stroke paints"),
        ("stroke_weight", "Stroke weight in pixels (optional)"),
    ];
    let rs: [&str; 2] = ["node_id", "strokes"];
    let t = tool("figma_bridge_set_strokes", "Set stroke colors on a node", &ps, &rs);
    assert(str_pairs_view(ps@) =~= set_strokes_tool().parameters);
    assert(keys_view(rs@) =~= set_strokes_tool().required);
    defs.push(t);
    // figma_bridge_execute
    let ps: [(&str, &str); 1] = [
        ("code", "JavaScript code to execute (has access to the `figma` global object)"),
    ];
    let rs: [&str; 1] = ["code"];
    let t = tool("figma_bridge_execute", "Execute arbitrary Figma Plugin API JavaScript code in the desktop app context. Use for advanced operations not covered by other tools.", &ps, &rs);
    assert(str_pairs_view(ps@) =~= execute_tool().parameters);
    assert(keys_view(rs@) =~= execute_tool().required);
    defs.push(t);
    assert(tools_view(defs@) =~= tool_table());
    defs
}

/// No two tools have the same name.
pub proof fn lemma_tool_names_distinct()
    ensures
        keys_distinct(tool_names(tool_table())),
{
    reveal_strlit("figma_bridge_status");
    assert("figma_bridge_status"@.len() == 19);
    reveal_strlit("figma_bridge_get_selection");
    assert("figma_bridge_get_selection"@.len() == 26);
    reveal_strlit("figma_bridge_get_page_nodes");
    assert("figma_bridge_get_page_nodes"@.len() == 27);
    reveal_strlit("figma_bridge_create_frame");
    assert("figma_bridge_create_frame"@.len() == 25);
    reveal_strlit("figma_bridge_create_text");
    assert("figma_bridge_create_text"@.len() == 24);
    assert("figma_bridge_create_text"@[13] == 'c');
    reveal_strlit("figma_bridge_create_rectangle");
    assert("figma_bridge_create_rectangle"@.len() == 29);
    assert("figma_bridge_create_rectangle"@[20] == 'r');
    reveal_strlit("figma_bridge_set_node_property");
    assert("figma_bridge_set_node_property"@.len() == 30);
    reveal_strlit("figma_bridge_delete_node");
    assert("figma_bridge_delete_node"@.len() == 24);
    assert("figma_bridge_delete_node"@[13] == 'd');
    reveal_strlit("figma_bridge_clone_node");
    assert("figma_bridge_clone_node"@.len() == 23);
    reveal_strlit("figma_bridge_create_component");
    assert("figma_bridge_create_component"@.len() == 29);
    assert("figma_bridge_create_component"@[20] == 'c');
    reveal_strlit("figma_bridge_create_instance");
    assert("figma_bridge_create_instance"@.len() == 28);
    assert("figma_bridge_create_instance"@[13] == 'c');
    reveal_strlit("figma_bridge_set_auto_layout");
    assert("figma_bridge_set_auto_layout"@.len() == 28);
    assert("figma_bridge_set_auto_layout"@[13] == 's');
    reveal_strlit("figma_bridge_set_fills");
    assert("figma_bridge_set_fills"@.len() == 22);
    reveal_strlit("figma_bridge_set_strokes");
    assert("figma_bridge_set_strokes"@.len() == 24);
    assert("figma_bridge_set_strokes"@[13] == 's');
    reveal_strlit("figma_bridge_execute");
    assert("figma_bridge_execute"@.len() == 20);
    assert(tool_names(tool_table()) =~= seq!["figma_bridge_status"@, "figma_bridge_get_selection"@, "figma_bridge_get_page_nodes"@, "figma_bridge_create_frame"@, "figma_bridge_create_text"@, "figma_bridge_create_rectangle"@, "figma_bridge_set_node_property"@, "figma_bridge_delete_node"@, "figma_bridge_clone_node"@, "figma_bridge_create_component"@, "figma_bridge_create_instance"@, "figma_bridge_set_auto_layout"@, "figma_bridge_set_fills"@, "figma_bridge_set_strokes"@, "figma_bridge_execute"@]);
}

/// No tool lists a parameter twice.
pub proof fn lemma_parameters_distinct()
    ensures
        forall|t: int| 0 <= t < tool_table().len() ==> keys_distinct(pair_keys(#[trigger] tool_table()[t].parameters)),
{
    assert(keys_distinct(pair_keys(status_tool().parameters)));
    assert(keys_distinct(pair_keys(get_selection_tool().parameters)));
    assert(keys_distinct(pair_keys(get_page_nodes_tool().parameters)));
    assert(keys_distinct(pair_keys(create_frame_tool().parameters))) by {
        reveal_strlit("name");
        assert("name"@.len() == 4);
        reveal_strlit("x");
        assert("x"@.len() == 1);
        assert("x"@[0] == 'x');
        reveal_strlit("y");
        assert("y"@.len() == 1);
        assert("y"@[0] == 'y');
        reveal_strlit("width");
        assert("width"@.len() == 5);
        reveal_strlit("height");
        assert("height"@.len() == 6);
        assert(pair_keys(create_frame_tool().parameters) =~= seq!["name"@, "x"@, "y"@, "width"@, "height"@]);
    }
    assert(keys_distinct(pair_keys(create_text_tool().parameters))) by {
        reveal_strlit("text");
        assert("text"@.len() == 4);
        reveal_strlit("parent_id");
        assert("parent_id"@.len() == 9);
        assert("parent_id"@[0] == 'p');
        reveal_strlit("x");
        assert("x"@.len() == 1);
        assert("x"@[0] == 'x');
        reveal_strlit("y");
        assert("y"@.len() == 1);
        assert("y"@[0] == 'y');
        reveal_strlit("font_size");
        assert("font_size"@.len() == 9);
        assert("font_size"@[0] == 'f');
        assert(pair_keys(create_text_tool().parameters) =~= seq!["text"@, "parent_id"@, "x"@, "y"@, "font_size"@]);
    }
    assert(keys_distinct(pair_keys(create_rectangle_tool().parameters))) by {
        reveal_strlit("name");
        assert("name"@.len() == 4);
        reveal_strlit("parent_id");
        assert("parent_id"@.len() == 9);
        reveal_strlit("x");
        assert("x"@.len() == 1);
        assert("x"@[0] == 'x');
        reveal_strlit("y");
        assert("y"@.len() == 1);
        assert("y"@[0] == 'y');
        reveal_strlit("width");
        assert("width"@.len() == 5);
        reveal_strlit("height");
        assert("height"@.len() == 6);
        reveal_strlit("fill_color");
        assert("fill_color"@.len() == 10);
        assert(pair_keys(create_rectangle_tool().parameters) =~= seq!["name"@, "parent_id"@, "x"@, "y"@, "width"@, "height"@, "fill_color"@]);
    }
    assert(keys_distinct(pair_keys(set_node_property_tool().parameters))) by {
        reveal_strlit("node_id");
        assert("node_id"@.len() == 7);
        reveal_strlit("property");
        assert("property"@.len() == 8);
        reveal_strlit("value");
        assert("value"@.len() == 5);
        assert(pair_keys(set_node_property_tool().parameters) =~= seq!["node_id"@, "property"@, "value"@]);
    }
    assert(keys_distinct(pair_keys(delete_node_tool().parameters)));
    assert(keys_distinct(pair_keys(clone_node_tool().parameters)));
    assert(keys_distinct(pair_keys(create_component_tool().parameters))) by {
        reveal_strlit("node_id");
        assert("node_id"@.len() == 7);
        reveal_strlit("name");
        assert("name"@.len() == 4);
        reveal_strlit("width");
        assert("width"@.len() == 5);
        reveal_strlit("height");
        assert("height"@.len() == 6);
        assert(pair_keys(create_component_tool().parameters) =~= seq!["node_id"@, "name"@, "width"@, "height"@]);
    }
    assert(keys_distinct(pair_keys(create_instance_tool().parameters))) by {
        reveal_strlit("component_id");
        assert("component_id"@.len() == 12);
        reveal_strlit("x");
        assert("x"@.len() == 1);
        assert("x"@[0] == 'x');
        reveal_strlit("y");
        assert("y"@.len() == 1);
        assert("y"@[0] == 'y');
        assert(pair_keys(create_instance_tool().parameters) =~= seq!["component_id"@, "x"@, "y"@]);
    }
    assert(keys_distinct(pair_keys(set_auto_layout_tool().parameters))) by {
        reveal_strlit("node_id");
        assert("node_id"@.len() == 7);
        assert("node_id"@[0] == 'n');
        reveal_strlit("direction");
        assert("direction"@.len() == 9);
        reveal_strlit("spacing");
        assert("spacing"@.len() == 7);
        assert("spacing"@[0] == 's');
        reveal_strlit("padding");
        assert("padding"@.len() == 7);
        assert("padding"@[0] == 'p');
        reveal_strlit("align");
        assert("align"@.len() == 5);
        assert(pair_keys(set_auto_layout_tool().parameters) =~= seq!["node_id"@, "direction"@, "spacing"@, "padding"@, "align"@]);
    }
    assert(keys_distinct(pair_keys(set_fills_tool().parameters))) by {
        reveal_strlit("node_id");
        assert("node_id"@.len() == 7);
        reveal_strlit("fills");
        assert("fills"@.len() == 5);
        assert(pair_keys(set_fills_tool().parameters) =~= seq!["node_id"@, "fills"@]);
    }
    assert(keys_distinct(pair_keys(set_strokes_tool().parameters))) by {
        reveal_strlit("node_id");
        assert("node_id"@.len() == 7);
        assert("node_id"@[0] == 'n');
        reveal_strlit("strokes");
        assert("strokes"@.len() == 7);
        assert("strokes"@[0] == 's');
        reveal_strlit("stroke_weight");
        assert("stroke_weight"@.len() == 13);
        assert(pair_keys(set_strokes_tool().parameters) =~= seq!["node_id"@, "strokes"@, "stroke_weight"@]);
    }
    assert(keys_distinct(pair_keys(execute_tool().parameters)));
    assert forall|t: int| 0 <= t < tool_table().len() implies keys_distinct(pair_keys(#[trigger] tool_table()[t].parameters)) by {
        if t == 0 {
            assert(tool_table()[t] == status_tool());
        } else if t == 1 {
            assert(tool_table()[t] == get_selection_tool());
        } else if t == 2 {
            assert(tool_table()[t] == get_page_nodes_tool());
        } else if t == 3 {
            assert(tool_table()[t] == create_frame_tool());
        } else if t == 4 {
            assert(tool_table()[t] == create_text_tool());
        } else if t == 5 {
            assert(tool_table()[t] == create_rectangle_tool());
        } else if t == 6 {
            assert(tool_table()[t] == set_node_property_tool());
        } else if t == 7 {
            assert(tool_table()[t] == delete_node_tool());
        } else if t == 8 {
            assert(tool_table()[t] == clone_node_tool());
        } else if t == 9 {
            assert(tool_table()[t] == create_component_tool());
        } else if t == 10 {
            assert(tool_table()[t] == create_instance_tool());
        } else if t == 11 {
            assert(tool_table()[t] == set_auto_layout_tool());
        } else if t == 12 {
            assert(tool_table()[t] == set_fills_tool());
        } else if t == 13 {
            assert(tool_table()[t] == set_strokes_tool());
        } else if t == 14 {
            assert(tool_table()[t] == execute_tool());
        }
    }
}

} // verus!
