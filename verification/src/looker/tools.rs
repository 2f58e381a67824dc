//! The tools that the Looker plugin offers.
use vstd::prelude::*;

use crate::request::keys_view;
use crate::tool_def::{keys_distinct, pair_keys, tool_names, str_pairs_view, tool, tools_view, ToolDef, ToolV};

verus! {

/// `looker_search_content`.
pub open spec fn search_content_tool() -> ToolV {
    ToolV {
        name: "looker_search_content"@,
        description: "Search Looker dashboards, Looks (saved reports), and folders by title or description. Start here for BI, business intelligence, analytics, reports, visualizations, and finding existing data assets in Looker."@,
        parameters: seq![
            ("terms"@, "Search terms (matches title/description)"@),
            ("types"@, "Comma-separated content types to include: dashboard, look, folder (default: all)"@),
            ("limit"@, "Maximum results to return (default: 25)"@),
            ("offset"@, "Pagination offset (default: 0)"@),
        ],
        required: seq!["terms"@],
    }
}

/// `looker_list_folders`.
pub open spec fn list_folders_tool() -> ToolV {
    ToolV {
        name: "looker_list_folders"@,
        description: "List Looker folders (spaces) used to organize dashboards and Looks. Use for navigating BI content organization."@,
        parameters: seq![
            ("fields"@, "Optional comma-separated field selection"@),
        ],
        required: seq![],
    }
}

/// `looker_get_folder`.
pub open spec fn get_folder_tool() -> ToolV {
    ToolV {
        name: "looker_get_folder"@,
        description: "Get a Looker folder's metadata and child content (dashboards, Looks). Use after list_folders or search_content."@,
        parameters: seq![
            ("folder_id"@, "Folder ID"@),
        ],
        required: seq!["folder_id"@],
    }
}

/// `looker_list_looks`.
pub open spec fn list_looks_tool() -> ToolV {
    ToolV {
        name: "looker_list_looks"@,
        description: "List Looks — saved Looker reports and queries used for BI and analytics dashboards. Use to discover existing saved analytics queries before creating new ones."@,
        parameters: seq![
            ("limit"@, "Maximum Looks to return (default: 25)"@),
            ("offset"@, "Pagination offset (default: 0)"@),
            ("fields"@, "Optional comma-separated field selection"@),
        ],
        required: seq![],
    }
}

/// `looker_get_look`.
pub open spec fn get_look_tool() -> ToolV {
    ToolV {
        name: "looker_get_look"@,
        description: "Get a Look's metadata, owner, folder, and underlying query reference. Use after list_looks to inspect a saved BI report."@,
        parameters: seq![
            ("look_id"@, "Look ID"@),
        ],
        required: seq!["look_id"@],
    }
}

/// `looker_run_look`.
pub open spec fn run_look_tool() -> ToolV {
    ToolV {
        name: "looker_run_look"@,
        description: "Run a saved Look and return its data rows as JSON. Use for fetching saved BI report results and analytics data. Row count is capped (default 100, max 5000) — pass `limit` to adjust."@,
        parameters: seq![
            ("look_id"@, "Look ID"@),
            ("limit"@, "Row limit (default: 100, max: 5000)"@),
            ("apply_formatting"@, "Apply Looker value formatting (default: false)"@),
            ("apply_vis"@, "Apply visualization options (default: false)"@),
            ("cache"@, "Use cache (default: true)"@),
        ],
        required: seq!["look_id"@],
    }
}

/// `looker_list_dashboards`.
pub open spec fn list_dashboards_tool() -> ToolV {
    ToolV {
        name: "looker_list_dashboards"@,
        description: "List Looker dashboards — interactive BI reports and analytics visualizations. Use for discovering existing dashboards before exploring data."@,
        parameters: seq![
            ("limit"@, "Maximum dashboards to return (default: 25)"@),
            ("offset"@, "Pagination offset (default: 0)"@),
            ("fields"@, "Optional comma-separated field selection"@),
        ],
        required: seq![],
    }
}

/// `looker_get_dashboard`.
pub open spec fn get_dashboard_tool() -> ToolV {
    ToolV {
        name: "looker_get_dashboard"@,
        description: "Get a dashboard's metadata, tiles, and filter definitions. Use after list_dashboards or search_content to inspect dashboard contents."@,
        parameters: seq![
            ("dashboard_id"@, "Dashboard ID (numeric for user dashboards, slug-like for LookML)"@),
        ],
        required: seq!["dashboard_id"@],
    }
}

/// `looker_run_inline_query`.
pub open spec fn run_inline_query_tool() -> ToolV {
    ToolV {
        name: "looker_run_inline_query"@,
        description: "Run an ad-hoc Looker analytics query against a LookML model/explore and return rows as JSON. This is the main BI tool — compose model + view + fields + filters + sorts to explore data. Use list_models and get_model_explore first to discover available fields. Row count is capped (default 100, max 5000)."@,
        parameters: seq![
            ("model"@, "LookML model name (from list_models)"@),
            ("view"@, "LookML explore/view name (from get_model_explore)"@),
            ("fields"@, "Comma-separated field names (e.g., 'users.id,users.email,orders.count')"@),
            ("filters"@, "JSON object of filter expressions, e.g., {\"orders.created_date\":\"7 days\"}"@),
            ("sorts"@, "Comma-separated sort expressions (e.g., 'orders.count desc')"@),
            ("limit"@, "Row limit (default: 100, max: 5000)"@),
            ("pivots"@, "Optional comma-separated pivot field names"@),
        ],
        required: seq!["model"@, "view"@, "fields"@],
    }
}

/// `looker_run_query`.
pub open spec fn run_query_tool() -> ToolV {
    ToolV {
        name: "looker_run_query"@,
        description: "Run a previously-saved Looker query by ID and return rows as JSON. Use when chaining off get_look (look.query_id) or after create_query."@,
        parameters: seq![
            ("query_id"@, "Query ID"@),
            ("limit"@, "Row limit override (default: 100, max: 5000)"@),
            ("apply_formatting"@, "Apply Looker value formatting (default: false)"@),
            ("cache"@, "Use cache (default: true)"@),
        ],
        required: seq!["query_id"@],
    }
}

/// `looker_get_query`.
pub open spec fn get_query_tool() -> ToolV {
    ToolV {
        name: "looker_get_query"@,
        description: "Get the definition of a saved query (model, view, fields, filters, sorts). Use to inspect a Look's query before re-running it."@,
        parameters: seq![
            ("query_id"@, "Query ID"@),
        ],
        required: seq!["query_id"@],
    }
}

/// `looker_create_query`.
pub open spec fn create_query_tool() -> ToolV {
    ToolV {
        name: "looker_create_query"@,
        description: "Create a saved Looker query definition (does not run it). Returns the query_id. Use with run_query when you want to reuse the same query multiple times."@,
        parameters: seq![
            ("model"@, "LookML model name"@),
            ("view"@, "LookML explore/view name"@),
            ("fields"@, "Comma-separated field names"@),
            ("filters"@, "JSON object of filter expressions"@),
            ("sorts"@, "Comma-separated sort expressions"@),
            ("limit"@, "Saved row limit (default: 500)"@),
            ("pivots"@, "Optional comma-separated pivot field names"@),
        ],
        required: seq!["model"@, "view"@, "fields"@],
    }
}

/// `looker_run_sql_query`.
pub open spec fn run_sql_query_tool() -> ToolV {
    ToolV {
        name: "looker_run_sql_query"@,
        description: "Run a raw SQL query through Looker's SQL Runner against a configured connection. Use for ad-hoc SQL analytics, BI exploration, and bypassing the LookML semantic layer when needed."@,
        parameters: seq![
            ("connection_name"@, "Looker connection name (from list_connections)"@),
            ("sql"@, "SQL query string"@),
        ],
        required: seq!["connection_name"@, "sql"@],
    }
}

/// `looker_list_models`.
pub open spec fn list_models_tool() -> ToolV {
    ToolV {
        name: "looker_list_models"@,
        description: "List all LookML models available in Looker. LookML is Looker's semantic data modeling layer. Use before run_inline_query to discover models and their explores."@,
        parameters: seq![],
        required: seq![],
    }
}

/// `looker_get_model`.
pub open spec fn get_model_tool() -> ToolV {
    ToolV {
        name: "looker_get_model"@,
        description: "Get a LookML model's metadata and list of explores. Use after list_models to find explore (view) names for run_inline_query."@,
        parameters: seq![
            ("model_name"@, "LookML model name"@),
        ],
        required: seq!["model_name"@],
    }
}

/// `looker_get_model_explore`.
pub open spec fn get_model_explore_tool() -> ToolV {
    ToolV {
        name: "looker_get_model_explore"@,
        description: "Get a LookML explore's full field metadata (dimensions, measures, filters). Use to discover field names for run_inline_query."@,
        parameters: seq![
            ("model_name"@, "LookML model name"@),
            ("explore_name"@, "Explore (view) name"@),
        ],
        required: seq!["model_name"@, "explore_name"@],
    }
}

/// `looker_list_connections`.
pub open spec fn list_connections_tool() -> ToolV {
    ToolV {
        name: "looker_list_connections"@,
        description: "List database connections configured in Looker. Use to find connection_name for run_sql_query."@,
        parameters: seq![],
        required: seq![],
    }
}

/// `looker_get_connection`.
pub open spec fn get_connection_tool() -> ToolV {
    ToolV {
        name: "looker_get_connection"@,
        description: "Get details of a Looker database connection (host, dialect, schema)."@,
        parameters: seq![
            ("connection_name"@, "Connection name"@),
        ],
        required: seq!["connection_name"@],
    }
}

/// `looker_get_me`.
pub open spec fn get_me_tool() -> ToolV {
    ToolV {
        name: "looker_get_me"@,
        description: "Get the current authenticated Looker user. Use to verify credentials and discover your user_id."@,
        parameters: seq![],
        required: seq![],
    }
}

/// `looker_list_users`.
pub open spec fn list_users_tool() -> ToolV {
    ToolV {
        name: "looker_list_users"@,
        description: "List Looker users. Use for admin tasks like finding owners of Looks and dashboards."@,
        parameters: seq![
            ("limit"@, "Maximum users (default: 25)"@),
            ("offset"@, "Pagination offset (default: 0)"@),
        ],
        required: seq![],
    }
}

/// `looker_get_user`.
pub open spec fn get_user_tool() -> ToolV {
    ToolV {
        name: "looker_get_user"@,
        description: "Get a Looker user's profile, roles, and email."@,
        parameters: seq![
            ("user_id"@, "User ID"@),
        ],
        required: seq!["user_id"@],
    }
}

/// `looker_list_scheduled_plans`.
pub open spec fn list_scheduled_plans_tool() -> ToolV {
    ToolV {
        name: "looker_list_scheduled_plans"@,
        description: "List Looker scheduled plans (recurring email/Slack deliveries of dashboards and Looks)."@,
        parameters: seq![
            ("user_id"@, "Optional: filter to plans owned by this user"@),
            ("all"@, "Set 'true' to list across all users (requires admin)"@),
        ],
        required: seq![],
    }
}

/// `looker_get_scheduled_plan`.
pub open spec fn get_scheduled_plan_tool() -> ToolV {
    ToolV {
        name: "looker_get_scheduled_plan"@,
        description: "Get a scheduled plan's details (recipients, frequency, content)."@,
        parameters: seq![
            ("scheduled_plan_id"@, "Scheduled plan ID"@),
        ],
        required: seq!["scheduled_plan_id"@],
    }
}

/// The tools, in the order they are listed to the host.
pub open spec fn tool_table() -> Seq<ToolV> {
    seq![
        search_content_tool(),
        list_folders_tool(),
        get_folder_tool(),
        list_looks_tool(),
        get_look_tool(),
        run_look_tool(),
        list_dashboards_tool(),
        get_dashboard_tool(),
        run_inline_query_tool(),
        run_query_tool(),
        get_query_tool(),
        create_query_tool(),
        run_sql_query_tool(),
        list_models_tool(),
        get_model_tool(),
        get_model_explore_tool(),
        list_connections_tool(),
        get_connection_tool(),
        get_me_tool(),
        list_users_tool(),
        get_user_tool(),
        list_scheduled_plans_tool(),
        get_scheduled_plan_tool(),
    ]
}

/// `tool_definitions`: the descriptions of the tools.
pub fn tool_definitions() -> (r: Vec<ToolDef>)
    ensures
        tools_view(r@) == tool_table(),
{
    let mut defs: Vec<ToolDef> = Vec::new();
    // looker_search_content
    let ps: [(&str, &str); 4] = [
        ("terms", "Search terms (matches title/description)"),
        ("types", "Comma-separated content types to include: dashboard, look, folder (default: all)"),
        ("limit", "Maximum results to return (default: 25)"),
        ("offset", "Pagination offset (default: 0)"),
    ];
    let rs: [&str; 1] = ["terms"];
    let t = tool("looker_search_content", "Search Looker dashboards, Looks (saved reports), and folders by title or description. Start here for BI, business intelligence, analytics, reports, visualizations, and finding existing data assets in Looker.", &ps, &rs);
    assert(str_pairs_view(ps@) =~= search_content_tool().parameters);
    assert(keys_view(rs@) =~= search_content_tool().required);
    defs.push(t);
    // looker_list_folders
    let ps: [(&str, &str); 1] = [
        ("fields", "Optional comma-separated field selection"),
    ];
    let rs: [&str; 0] = [];
    let t = tool("looker_list_folders", "List Looker folders (spaces) used to organize dashboards and Looks. Use for navigating BI content organization.", &ps, &rs);
    assert(str_pairs_view(ps@) =~= list_folders_tool().parameters);
    assert(keys_view(rs@) =~= list_folders_tool().required);
    defs.push(t);
    // looker_get_folder
    let ps: [(&str, &str); 1] = [
        ("folder_id", "Folder ID"),
    ];
    let rs: [&str; 1] = ["folder_id"];
    let t = tool("looker_get_folder", "Get a Looker folder's metadata and child content (dashboards, Looks). Use after list_folders or search_content.", &ps, &rs);
    assert(str_pairs_view(ps@) =~= get_folder_tool().parameters);
    assert(keys_view(rs@) =~= get_folder_tool().required);
    defs.push(t);
    // looker_list_looks
    let ps: [(&str, &str); 3] = [
        ("limit", "Maximum Looks to return (default: 25)"),
        ("offset", "Pagination offset (default: 0)"),
        ("fields", "Optional comma-separated field selection"),
    ];
    let rs: [&str; 0] = [];
    let t = tool("looker_list_looks", "List Looks — saved Looker reports and queries used for BI and analytics dashboards. Use to discover existing saved analytics queries before creating new ones.", &ps, &rs);
    assert(str_pairs_view(ps@) =~= list_looks_tool().parameters);
    assert(keys_view(rs@) =~= list_looks_tool().required);
    defs.push(t);
    // looker_get_look
    let ps: [(&str, &str); 1] = [
        ("look_id", "Look ID"),
    ];
    let rs: [&str; 1] = ["look_id"];
    let t = tool("looker_get_look", "Get a Look's metadata, owner, folder, and underlying query reference. Use after list_looks to inspect a saved BI report.", &ps, &rs);
    assert(str_pairs_view(ps@) =~= get_look_tool().parameters);
    assert(keys_view(rs@) =~= get_look_tool().required);
    defs.push(t);
    // looker_run_look
    let ps: [(&str, &str); 5] = [
        ("look_id", "Look ID"),
        ("limit", "Row limit (default: 100, max: 5000)"),
        ("apply_formatting", "Apply Looker value formatting (default: false)"),
        ("apply_vis", "Apply visualization options (default: false)"),
        ("cache", "Use cache (default: true)"),
    ];
    let rs: [&str; 1] = ["look_id"];
    let t = tool("looker_run_look", "Run a saved Look and return its data rows as JSON. Use for fetching saved BI report results and analytics data. Row count is capped (default 100, max 5000) — pass `limit` to adjust.", &ps, &rs);
    assert(str_pairs_view(ps@) =~= run_look_tool().parameters);
    assert(keys_view(rs@) =~= run_look_tool().required);
    defs.push(t);
    // looker_list_dashboards
    let ps: [(&str, &str); 3] = [
        ("limit", "Maximum dashboards to return (default: 25)"),
        ("offset", "Pagination offset (default: 0)"),
        ("fields", "Optional comma-separated field selection"),
    ];
    let rs: [&str; 0] = [];
    let t = tool("looker_list_dashboards", "List Looker dashboards — interactive BI reports and analytics visualizations. Use for discovering existing dashboards before exploring data.", &ps, &rs);
    assert(str_pairs_view(ps@) =~= list_dashboards_tool().parameters);
    assert(keys_view(rs@) =~= list_dashboards_tool().required);
    defs.push(t);
    // looker_get_dashboard
    let ps: [(&str, &str); 1] = [
        ("dashboard_id", "Dashboard ID (numeric for user dashboards, slug-like for LookML)"),
    ];
    let rs: [&str; 1] = ["dashboard_id"];
    let t = tool("looker_get_dashboard", "Get a dashboard's metadata, tiles, and filter definitions. Use after list_dashboards or search_content to inspect dashboard contents.", &ps, &rs);
    assert(str_pairs_view(ps@) =~= get_dashboard_tool().parameters);
    assert(keys_view(rs@) =~= get_dashboard_tool().required);
    defs.push(t);
    // looker_run_inline_query
    let ps: [(&str, &str); 7] = [
        ("model", "LookML model name (from list_models)"),
        ("view", "LookML explore/view name (from get_model_explore)"),
        ("fields", "Comma-separated field names (e.g., 'users.id,users.email,orders.count')"),
        ("filters", "JSON object of filter expressions, e.g., {\"orders.created_date\":\"7 days\"}"),
        ("sorts", "Comma-separated sort expressions (e.g., 'orders.count desc')"),
        ("limit", "Row limit (default: 100, max: 5000)"),
        ("pivots", "Optional comma-separated pivot field names"),
    ];
    let rs: [&str; 3] = ["model", "view", "fields"];
    let t = tool("looker_run_inline_query", "Run an ad-hoc Looker analytics query against a LookML model/explore and return rows as JSON. This is the main BI tool — compose model + view + fields + filters + sorts to explore data. Use list_models and get_model_explore first to discover available fields. Row count is capped (default 100, max 5000).", &ps, &rs);
    assert(str_pairs_view(ps@) =~= run_inline_query_tool().parameters);
    assert(keys_view(rs@) =~= run_inline_query_tool().required);
    defs.push(t);
    // looker_run_query
    let ps: [(&str, &str); 4] = [
        ("query_id", "Query ID"),
        ("limit", "Row limit override (default: 100, max: 5000)"),
        ("apply_formatting", "Apply Looker value formatting (default: false)"),
        ("cache", "Use cache (default: true)"),
    ];
    let rs: [&str; 1] = ["query_id"];
    let t = tool("looker_run_query", "Run a previously-saved Looker query by ID and return rows as JSON. Use when chaining off get_look (look.query_id) or after create_query.", &ps, &rs);
    assert(str_pairs_view(ps@) =~= run_query_tool().parameters);
    assert(keys_view(rs@) =~= run_query_tool().required);
    defs.push(t);
    // looker_get_query
    let ps: [(&str, &str); 1] = [
        ("query_id", "Query ID"),
    ];
    let rs: [&str; 1] = ["query_id"];
    let t = tool("looker_get_query", "Get the definition of a saved query (model, view, fields, filters, sorts). Use to inspect a Look's query before re-running it.", &ps, &rs);
    assert(str_pairs_view(ps@) =~= get_query_tool().parameters);
    assert(keys_view(rs@) =~= get_query_tool().required);
    defs.push(t);
    // looker_create_query
    let ps: [(&str, &str); 7] = [
        ("model", "LookML model name"),
        ("view", "LookML explore/view name"),
        ("fields", "Comma-separated field names"),
        ("filters", "JSON object of filter expressions"),
        ("sorts", "Comma-separated sort expressions"),
        ("limit", "Saved row limit (default: 500)"),
        ("pivots", "Optional comma-separated pivot field names"),
    ];
    let rs: [&str; 3] = ["model", "view", "fields"];
    let t = tool("looker_create_query", "Create a saved Looker query definition (does not run it). Returns the query_id. Use with run_query when you want to reuse the same query multiple times.", &ps, &rs);
    assert(str_pairs_view(ps@) =~= create_query_tool().parameters);
    assert(keys_view(rs@) =~= create_query_tool().required);
    defs.push(t);
    // looker_run_sql_query
    let ps: [(&str, &str); 2] = [
        ("connection_name", "Looker connection name (from list_connections)"),
        ("sql", "SQL query string"),
    ];
    let rs: [&str; 2] = ["connection_name", "sql"];
    let t = tool("looker_run_sql_query", "Run a raw SQL query through Looker's SQL Runner against a configured connection. Use for ad-hoc SQL analytics, BI exploration, and bypassing the LookML semantic layer when needed.", &ps, &rs);
    assert(str_pairs_view(ps@) =~= run_sql_query_tool().parameters);
    assert(keys_view(rs@) =~= run_sql_query_tool().required);
    defs.push(t);
    // looker_list_models
    let ps: [(&str, &str); 0] = [];
    let rs: [&str; 0] = [];
    let t = tool("looker_list_models", "List all LookML models available in Looker. LookML is Looker's semantic data modeling layer. Use before run_inline_query to discover models and their explores.", &ps, &rs);
    assert(str_pairs_view(ps@) =~= list_models_tool().parameters);
    assert(keys_view(rs@) =~= list_models_tool().required);
    defs.push(t);
    // looker_get_model
    let ps: [(&str, &str); 1] = [
        ("model_name", "LookML model name"),
    ];
    let rs: [&str; 1] = ["model_name"];
    let t = tool("looker_get_model", "Get a LookML model's metadata and list of explores. Use after list_models to find explore (view) names for run_inline_query.", &ps, &rs);
    assert(str_pairs_view(ps@) =~= get_model_tool().parameters);
    assert(keys_view(rs@) =~= get_model_tool().required);
    defs.push(t);
    // looker_get_model_explore
    let ps: [(&str, &str); 2] = [
        ("model_name", "LookML model name"),
        ("explore_name", "Explore (view) name"),
    ];
    let rs: [&str; 2] = ["model_name", "explore_name"];
    let t = tool("looker_get_model_explore", "Get a LookML explore's full field metadata (dimensions, measures, filters). Use to discover field names for run_inline_query.", &ps, &rs);
    assert(str_pairs_view(ps@) =~= get_model_explore_tool().parameters);
    assert(keys_view(rs@) =~= get_model_explore_tool().required);
    defs.push(t);
    // looker_list_connections
    let ps: [(&str, &str); 0] = [];
    let rs: [&str; 0] = [];
    let t = tool("looker_list_connections", "List database connections configured in Looker. Use to find connection_name for run_sql_query.", &ps, &rs);
    assert(str_pairs_view(ps@) =~= list_connections_tool().parameters);
    assert(keys_view(rs@) =~= list_connections_tool().required);
    defs.push(t);
    // looker_get_connection
    let ps: [(&str, &str); 1] = [
        ("connection_name", "Connection name"),
    ];
    let rs: [&str; 1] = ["connection_name"];
    let t = tool("looker_get_connection", "Get details of a Looker database connection (host, dialect, schema).", &ps, &rs);
    assert(str_pairs_view(ps@) =~= get_connection_tool().parameters);
    assert(keys_view(rs@) =~= get_connection_tool().required);
    defs.push(t);
    // looker_get_me
    let ps: [(&str, &str); 0] = [];
    let rs: [&str; 0] = [];
    let t = tool("looker_get_me", "Get the current authenticated Looker user. Use to verify credentials and discover your user_id.", &ps, &rs);
    assert(str_pairs_view(ps@) =~= get_me_tool().parameters);
    assert(keys_view(rs@) =~= get_me_tool().required);
    defs.push(t);
    // looker_list_users
    let ps: [(&str, &str); 2] = [
        ("limit", "Maximum users (default: 25)"),
        ("offset", "Pagination offset (default: 0)"),
    ];
    let rs: [&str; 0] = [];
    let t = tool("looker_list_users", "List Looker users. Use for admin tasks like finding owners of Looks and dashboards.", &ps, &rs);
    assert(str_pairs_view(ps@) =~= list_users_tool().parameters);
    assert(keys_view(rs@) =~= list_users_tool().required);
    defs.push(t);
    // looker_get_user
    let ps: [(&str, &str); 1] = [
        ("user_id", "User ID"),
    ];
    let rs: [&str; 1] = ["user_id"];
    let t = tool("looker_get_user", "Get a Looker user's profile, roles, and email.", &ps, &rs);
    assert(str_pairs_view(ps@) =~= get_user_tool().parameters);
    assert(keys_view(rs@) =~= get_user_tool().required);
    defs.push(t);
    // looker_list_scheduled_plans
    let ps: [(&str, &str); 2] = [
        ("user_id", "Optional: filter to plans owned by this user"),
        ("all", "Set 'true' to list across all users (requires admin)"),
    ];
    let rs: [&str; 0] = [];
    let t = tool("looker_list_scheduled_plans", "List Looker scheduled plans (recurring email/Slack deliveries of dashboards and Looks).", &ps, &rs);
    assert(str_pairs_view(ps@) =~= list_scheduled_plans_tool().parameters);
    assert(keys_view(rs@) =~= list_scheduled_plans_tool().required);
    defs.push(t);
    // looker_get_scheduled_plan
    let ps: [(&str, &str); 1] = [
        ("scheduled_plan_id", "Scheduled plan ID"),
    ];
    let rs: [&str; 1] = ["scheduled_plan_id"];
    let t = tool("looker_get_scheduled_plan", "Get a scheduled plan's details (recipients, frequency, content).", &ps, &rs);
    assert(str_pairs_view(ps@) =~= get_scheduled_plan_tool().parameters);
    assert(keys_view(rs@) =~= get_scheduled_plan_tool().required);
    defs.push(t);
    assert(tools_view(defs@) =~= tool_table());
    defs
}

/// No two tools have the same name.
pub proof fn lemma_tool_names_distinct()
    ensures
        keys_distinct(tool_names(tool_table())),
{
    reveal_strlit("looker_search_content");
    assert("looker_search_content"@.len() == 21);
    assert("looker_search_content"@[7] == 's');
    reveal_strlit("looker_list_folders");
    assert("looker_list_folders"@.len() == 19);
    assert("looker_list_folders"@[7] == 'l');
    reveal_strlit("looker_get_folder");
    assert("looker_get_folder"@.len() == 17);
    assert("looker_get_folder"@[7] == 'g');
    reveal_strlit("looker_list_looks");
    assert("looker_list_looks"@.len() == 17);
    assert("looker_list_looks"@[7] == 'l');
    assert("looker_list_looks"@[12] == 'l');
    reveal_strlit("looker_get_look");
    assert("looker_get_look"@.len() == 15);
    assert("looker_get_look"@[7] == 'g');
    assert("looker_get_look"@[11] == 'l');
    reveal_strlit("looker_run_look");
    assert("looker_run_look"@.len() == 15);
    assert("looker_run_look"@[7] == 'r');
    reveal_strlit("looker_list_dashboards");
    assert("looker_list_dashboards"@.len() == 22);
    reveal_strlit("looker_get_dashboard");
    assert("looker_get_dashboard"@.len() == 20);
    assert("looker_get_dashboard"@[7] == 'g');
    reveal_strlit("looker_run_inline_query");
    assert("looker_run_inline_query"@.len() == 23);
    assert("looker_run_inline_query"@[7] == 'r');
    reveal_strlit("looker_run_query");
    assert("looker_run_query"@.len() == 16);
    assert("looker_run_query"@[7] == 'r');
    reveal_strlit("looker_get_query");
    assert("looker_get_query"@.len() == 16);
    assert("looker_get_query"@[7] == 'g');
    assert("looker_get_query"@[11] == 'q');
    reveal_strlit("looker_create_query");
    assert("looker_create_query"@.len() == 19);
    assert("looker_create_query"@[7] == 'c');
    reveal_strlit("looker_run_sql_query");
    assert("looker_run_sql_query"@.len() == 20);
    assert("looker_run_sql_query"@[7] == 'r');
    reveal_strlit("looker_list_models");
    assert("looker_list_models"@.len() == 18);
    reveal_strlit("looker_get_model");
    assert("looker_get_model"@.len() == 16);
    assert("looker_get_model"@[7] == 'g');
    assert("looker_get_model"@[11] == 'm');
    reveal_strlit("looker_get_model_explore");
    assert("looker_get_model_explore"@.len() == 24);
    reveal_strlit("looker_list_connections");
    assert("looker_list_connections"@.len() == 23);
    assert("looker_list_connections"@[7] == 'l');
    reveal_strlit("looker_get_connection");
    assert("looker_get_connection"@.len() == 21);
    assert("looker_get_connection"@[7] == 'g');
    reveal_strlit("looker_get_me");
    assert("looker_get_me"@.len() == 13);
    reveal_strlit("looker_list_users");
    assert("looker_list_users"@.len() == 17);
    assert("looker_list_users"@[7] == 'l');
    assert("looker_list_users"@[12] == 'u');
    reveal_strlit("looker_get_user");
    assert("looker_get_user"@.len() == 15);
    assert("looker_get_user"@[7] == 'g');
    assert("looker_get_user"@[11] == 'u');
    reveal_strlit("looker_list_scheduled_plans");
    assert("looker_list_scheduled_plans"@.len() == 27);
    reveal_strlit("looker_get_scheduled_plan");
    assert("looker_get_scheduled_plan"@.len() == 25);
    assert(tool_names(tool_table()) =~= seq!["looker_search_content"@, "looker_list_folders"@, "looker_get_folder"@, "looker_list_looks"@, "looker_get_look"@, "looker_run_look"@, "looker_list_dashboards"@, "looker_get_dashboard"@, "looker_run_inline_query"@, "looker_run_query"@, "looker_get_query"@, "looker_create_query"@, "looker_run_sql_query"@, "looker_list_models"@, "looker_get_model"@, "looker_get_model_explore"@, "looker_list_connections"@, "looker_get_connection"@, "looker_get_me"@, "looker_list_users"@, "looker_get_user"@, "looker_list_scheduled_plans"@, "looker_get_scheduled_plan"@]);
}

/// No tool lists a parameter twice.
pub proof fn lemma_parameters_distinct()
    ensures
        forall|t: int| 0 <= t < tool_table().len() ==> keys_distinct(pair_keys(#[trigger] tool_table()[t].parameters)),
{
    assert(keys_distinct(pair_keys(search_content_tool().parameters))) by {
        reveal_strlit("terms");
        assert("terms"@.len() == 5);
        assert("terms"@[0] == 't');
        assert("terms"@[1] == 'e');
        reveal_strlit("types");
        assert("types"@.len() == 5);
        assert("types"@[0] == 't');
        assert("types"@[1] == 'y');
        reveal_strlit("limit");
        assert("limit"@.len() == 5);
        assert("limit"@[0] == 'l');
        reveal_strlit("offset");
        assert("offset"@.len() == 6);
        assert(pair_keys(search_content_tool().parameters) =~= seq!["terms"@, "types"@, "limit"@, "offset"@]);
    }
    assert(keys_distinct(pair_keys(list_folders_tool().parameters)));
    assert(keys_distinct(pair_keys(get_folder_tool().parameters)));
    assert(keys_distinct(pair_keys(list_looks_tool().parameters))) by {
        reveal_strlit("limit");
        assert("limit"@.len() == 5);
        reveal_strlit("offset");
        assert("offset"@.len() == 6);
        assert("offset"@[0] == 'o');
        reveal_strlit("fields");
        assert("fields"@.len() == 6);
        assert("fields"@[0] == 'f');
        assert(pair_keys(list_looks_tool().parameters) =~= seq!["limit"@, "offset"@, "fields"@]);
    }
    assert(keys_distinct(pair_keys(get_look_tool().parameters)));
    assert(keys_distinct(pair_keys(run_look_tool().parameters))) by {
        reveal_strlit("look_id");
        assert("look_id"@.len() == 7);
        reveal_strlit("limit");
        assert("limit"@.len() == 5);
        assert("limit"@[0] == 'l');
        reveal_strlit("apply_formatting");
        assert("apply_formatting"@.len() == 16);
        reveal_strlit("apply_vis");
        assert("apply_vis"@.len() == 9);
        reveal_strlit("cache");
        assert("cache"@.len() == 5);
        assert("cache"@[0] == 'c');
        assert(pair_keys(run_look_tool().parameters) =~= seq!["look_id"@, "limit"@, "apply_formatting"@, "apply_vis"@, "cache"@]);
    }
    assert(keys_distinct(pair_keys(list_dashboards_tool().parameters))) by {
        reveal_strlit("limit");
        assert("limit"@.len() == 5);
        reveal_strlit("offset");
        assert("offset"@.len() == 6);
        assert("offset"@[0] == 'o');
        reveal_strlit("fields");
        assert("fields"@.len() == 6);
        assert("fields"@[0] == 'f');
        assert(pair_keys(list_dashboards_tool().parameters) =~= seq!["limit"@, "offset"@, "fields"@]);
    }
    assert(keys_distinct(pair_keys(get_dashboard_tool().parameters)));
    assert(keys_distinct(pair_keys(run_inline_query_tool().parameters))) by {
        reveal_strlit("model");
        assert("model"@.len() == 5);
        assert("model"@[0] == 'm');
        reveal_strlit("view");
        assert("view"@.len() == 4);
        reveal_strlit("fields");
        assert("fields"@.len() == 6);
        assert("fields"@[0] == 'f');
        reveal_strlit("filters");
        assert("filters"@.len() == 7);
        reveal_strlit("sorts");
        assert("sorts"@.len() == 5);
        assert("sorts"@[0] == 's');
        reveal_strlit("limit");
        assert("limit"@.len() == 5);
        assert("limit"@[0] == 'l');
        reveal_strlit("pivots");
        assert("pivots"@.len() == 6);
        assert("pivots"@[0] == 'p');
        assert(pair_keys(run_inline_query_tool().parameters) =~= seq!["model"@, "view"@, "fields"@, "filters"@, "sorts"@, "limit"@, "pivots"@]);
    }
    assert(keys_distinct(pair_keys(run_query_tool().parameters))) by {
        reveal_strlit("query_id");
        assert("query_id"@.len() == 8);
        reveal_strlit("limit");
        assert("limit"@.len() == 5);
        assert("limit"@[0] == 'l');
        reveal_strlit("apply_formatting");
        assert("apply_formatting"@.len() == 16);
        reveal_strlit("cache");
        assert("cache"@.len() == 5);
        assert("cache"@[0] == 'c');
        assert(pair_keys(run_query_tool().parameters) =~= seq!["query_id"@, "limit"@, "apply_formatting"@, "cache"@]);
    }
    assert(keys_distinct(pair_keys(get_query_tool().parameters)));
    assert(keys_distinct(pair_keys(create_query_tool().parameters))) by {
        reveal_strlit("model");
        assert("model"@.len() == 5);
        assert("model"@[0] == 'm');
        reveal_strlit("view");
        assert("view"@.len() == 4);
        reveal_strlit("fields");
        assert("fields"@.len() == 6);
        assert("fields"@[0] == 'f');
        reveal_strlit("filters");
        assert("filters"@.len() == 7);
        reveal_strlit("sorts");
        assert("sorts"@.len() == 5);
        assert("sorts"@[0] == 's');
        reveal_strlit("limit");
        assert("limit"@.len() == 5);
        assert("limit"@[0] == 'l');
        reveal_strlit("pivots");
        assert("pivots"@.len() == 6);
        assert("pivots"@[0] == 'p');
        assert(pair_keys(create_query_tool().parameters) =~= seq!["model"@, "view"@, "fields"@, "filters"@, "sorts"@, "limit"@, "pivots"@]);
    }
    assert(keys_distinct(pair_keys(run_sql_query_tool().parameters))) by {
        reveal_strlit("connection_name");
        assert("connection_name"@.len() == 15);
        reveal_strlit("sql");
        assert("sql"@.len() == 3);
        assert(pair_keys(run_sql_query_tool().parameters) =~= seq!["connection_name"@, "sql"@]);
    }
    assert(keys_distinct(pair_keys(list_models_tool().parameters)));
    assert(keys_distinct(pair_keys(get_model_tool().parameters)));
    assert(keys_distinct(pair_keys(get_model_explore_tool().parameters))) by {
        reveal_strlit("model_name");
        assert("model_name"@.len() == 10);
        reveal_strlit("explore_name");
        assert("explore_name"@.len() == 12);
        assert(pair_keys(get_model_explore_tool().parameters) =~= seq!["model_name"@, "explore_name"@]);
    }
    assert(keys_distinct(pair_keys(list_connections_tool().parameters)));
    assert(keys_distinct(pair_keys(get_connection_tool().parameters)));
    assert(keys_distinct(pair_keys(get_me_tool().parameters)));
    assert(keys_distinct(pair_keys(list_users_tool().parameters))) by {
        reveal_strlit("limit");
        assert("limit"@.len() == 5);
        reveal_strlit("offset");
        assert("offset"@.len() == 6);
        assert(pair_keys(list_users_tool().parameters) =~= seq!["limit"@, "offset"@]);
    }
    assert(keys_distinct(pair_keys(get_user_tool().parameters)));
    assert(keys_distinct(pair_keys(list_scheduled_plans_tool().parameters))) by {
        reveal_strlit("user_id");
        assert("user_id"@.len() == 7);
        reveal_strlit("all");
        assert("all"@.len() == 3);
        assert(pair_keys(list_scheduled_plans_tool().parameters) =~= seq!["user_id"@, "all"@]);
    }
    assert(keys_distinct(pair_keys(get_scheduled_plan_tool().parameters)));
    assert forall|t: int| 0 <= t < tool_table().len() implies keys_distinct(pair_keys(#[trigger] tool_table()[t].parameters)) by {
        if t == 0 {
            assert(tool_table()[t] == search_content_tool());
        } else if t == 1 {
            assert(tool_table()[t] == list_folders_tool());
        } else if t == 2 {
            assert(tool_table()[t] == get_folder_tool());
        } else if t == 3 {
            assert(tool_table()[t] == list_looks_tool());
        } else if t == 4 {
            assert(tool_table()[t] == get_look_tool());
        } else if t == 5 {
            assert(tool_table()[t] == run_look_tool());
        } else if t == 6 {
            assert(tool_table()[t] == list_dashboards_tool());
        } else if t == 7 {
            assert(tool_table()[t] == get_dashboard_tool());
        } else if t == 8 {
            assert(tool_table()[t] == run_inline_query_tool());
        } else if t == 9 {
            assert(tool_table()[t] == run_query_tool());
        } else if t == 10 {
            assert(tool_table()[t] == get_query_tool());
        } else if t == 11 {
            assert(tool_table()[t] == create_query_tool());
        } else if t == 12 {
            assert(tool_table()[t] == run_sql_query_tool());
        } else if t == 13 {
            assert(tool_table()[t] == list_models_tool());
        } else if t == 14 {
            assert(tool_table()[t] == get_model_tool());
        } else if t == 15 {
            assert(tool_table()[t] == get_model_explore_tool());
        } else if t == 16 {
            assert(tool_table()[t] == list_connections_tool());
        } else if t == 17 {
            assert(tool_table()[t] == get_connection_tool());
        } else if t == 18 {
            assert(tool_table()[t] == get_me_tool());
        } else if t == 19 {
            assert(tool_table()[t] == list_users_tool());
        } else if t == 20 {
            assert(tool_table()[t] == get_user_tool());
        } else if t == 21 {
            assert(tool_table()[t] == list_scheduled_plans_tool());
        } else if t == 22 {
            assert(tool_table()[t] == get_scheduled_plan_tool());
        }
    }
}

} // verus!
