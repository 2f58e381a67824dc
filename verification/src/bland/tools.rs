//! The tools that the Bland.ai plugin offers.
use vstd::prelude::*;

use crate::request::keys_view;
use crate::tool_def::{keys_distinct, pair_keys, tool_names, str_pairs_view, tool, tools_view, ToolDef, ToolV};

verus! {

/// `bland_list_calls`.
pub open spec fn list_calls_tool() -> ToolV {
    ToolV {
        name: "bland_list_calls"@,
        description: "List Bland.ai voice AI phone calls with status, phone numbers, duration, completion, errors, and transcript availability. Start here for call history, call logs, outbound calls, inbound calls, conversations, and voice agent debugging."@,
        parameters: seq![
            ("limit"@, "Maximum calls to return (default 20, max 100)"@),
            ("from"@, "Pagination start index (inclusive)"@),
            ("to"@, "Pagination end index (exclusive)"@),
            ("ascending"@, "Sort ascending instead of descending (true/false)"@),
            ("sort_by"@, "Sort field: created_at or updated_at (default created_at)"@),
            ("start_date"@, "Filter calls created on or after this ISO date/time"@),
            ("end_date"@, "Filter calls created on or before this ISO date/time"@),
            ("batch_id"@, "Filter by Bland batch ID"@),
            ("answered_by"@, "Filter by answered_by result"@),
            ("inbound"@, "Filter inbound calls (true/false)"@),
            ("completed"@, "Filter completed calls (true/false)"@),
            ("from_number"@, "Filter by originating phone number"@),
            ("to_number"@, "Filter by destination phone number"@),
            ("duration_gt"@, "Filter calls longer than this duration in seconds"@),
            ("duration_lt"@, "Filter calls shorter than this duration in seconds"@),
        ],
        required: seq![],
    }
}

/// `bland_list_active_calls`.
pub open spec fn list_active_calls_tool() -> ToolV {
    ToolV {
        name: "bland_list_active_calls"@,
        description: "List currently active live Bland.ai calls. Use for monitoring in-progress phone conversations before stopping or inspecting them."@,
        parameters: seq![],
        required: seq![],
    }
}

/// `bland_get_call`.
pub open spec fn get_call_tool() -> ToolV {
    ToolV {
        name: "bland_get_call"@,
        description: "Get details for a specific Bland.ai call, including status, summary, transcript, corrected transcript fields, analysis, variables, metadata, and conversation timing. Use after list_calls when debugging a call or reading a transcript."@,
        parameters: seq![
            ("call_id"@, "Bland call_id returned by list_calls or send_call"@),
        ],
        required: seq!["call_id"@],
    }
}

/// `bland_send_call`.
pub open spec fn send_call_tool() -> ToolV {
    ToolV {
        name: "bland_send_call"@,
        description: "Send or schedule an outbound Bland.ai AI phone call. Creates a voice agent call using either a task prompt or pathway_id, with optional voice, first sentence, metadata, webhook, transfer number, and dynamic variables."@,
        parameters: seq![
            ("phone_number"@, "Destination phone number in E.164 format (for example +15551234567)"@),
            ("task"@, "Plain-language voice agent task/instructions. Required unless pathway_id is provided"@),
            ("pathway_id"@, "Existing Bland pathway ID. Required unless task is provided"@),
            ("voice"@, "Voice ID or voice name"@),
            ("first_sentence"@, "Opening sentence the AI should say"@),
            ("model"@, "Bland model name"@),
            ("language"@, "Language code (for example en-US)"@),
            ("from"@, "Bland phone number to call from"@),
            ("webhook"@, "Webhook URL for call events/results"@),
            ("metadata"@, "JSON object string attached to the call"@),
            ("dynamic_data"@, "JSON object string for pathway/task variables"@),
            ("tools"@, "JSON array string of Bland tool definitions"@),
            ("transfer_phone_number"@, "Phone number to transfer to"@),
            ("timezone"@, "Timezone for scheduling and context"@),
            ("max_duration"@, "Maximum call duration in minutes"@),
            ("wait_for_greeting"@, "Wait for recipient greeting before speaking (true/false)"@),
            ("record"@, "Whether to record the call (true/false)"@),
            ("temperature"@, "Model temperature"@),
            ("interruption_threshold"@, "Interruption sensitivity threshold"@),
            ("background_track"@, "Background audio track name"@),
        ],
        required: seq!["phone_number"@],
    }
}

/// `bland_stop_call`.
pub open spec fn stop_call_tool() -> ToolV {
    ToolV {
        name: "bland_stop_call"@,
        description: "Stop an active Bland.ai phone call. Use after list_active_calls or get_call when a live voice conversation should be ended."@,
        parameters: seq![
            ("call_id"@, "Bland call_id for the active call to stop"@),
        ],
        required: seq!["call_id"@],
    }
}

/// `bland_analyze_call`.
pub open spec fn analyze_call_tool() -> ToolV {
    ToolV {
        name: "bland_analyze_call"@,
        description: "Analyze a completed Bland.ai call transcript with AI using a goal and structured questions. Use after get_call to extract outcomes, classifications, lead qualification, sentiment, or custom fields."@,
        parameters: seq![
            ("call_id"@, "Bland call_id to analyze"@),
            ("goal"@, "Analysis goal or rubric"@),
            ("questions"@, "JSON array of question objects or strings to answer from the call"@),
        ],
        required: seq!["call_id"@, "goal"@, "questions"@],
    }
}

/// `bland_list_voices`.
pub open spec fn list_voices_tool() -> ToolV {
    ToolV {
        name: "bland_list_voices"@,
        description: "List Bland.ai voices for text-to-speech and phone calls, including voice IDs, names, descriptions, tags, public/private status, and ratings. Start here for choosing a call voice."@,
        parameters: seq![],
        required: seq![],
    }
}

/// `bland_get_voice`.
pub open spec fn get_voice_tool() -> ToolV {
    ToolV {
        name: "bland_get_voice"@,
        description: "Get details for a specific Bland.ai voice. Use after list_voices to inspect a voice before using it in send_call."@,
        parameters: seq![
            ("voice_id"@, "Bland voice ID"@),
        ],
        required: seq!["voice_id"@],
    }
}

/// `bland_list_pathways`.
pub open spec fn list_pathways_tool() -> ToolV {
    ToolV {
        name: "bland_list_pathways"@,
        description: "List Bland.ai conversational pathways and voice agent flows. Start here for discovering pathway IDs to use when sending calls."@,
        parameters: seq![],
        required: seq![],
    }
}

/// `bland_get_pathway`.
pub open spec fn get_pathway_tool() -> ToolV {
    ToolV {
        name: "bland_get_pathway"@,
        description: "Get a Bland.ai pathway's full configuration. Use after list_pathways to inspect a conversational flow before sending calls with pathway_id."@,
        parameters: seq![
            ("pathway_id"@, "Bland pathway ID"@),
        ],
        required: seq!["pathway_id"@],
    }
}

/// `bland_list_numbers`.
pub open spec fn list_numbers_tool() -> ToolV {
    ToolV {
        name: "bland_list_numbers"@,
        description: "List Bland.ai inbound phone numbers configured on the account. Start here for phone number inventory, inbound agents, and call routing setup."@,
        parameters: seq![
            ("encrypted_key"@, "Optional encrypted key filter used by Bland for number lookup"@),
        ],
        required: seq![],
    }
}

/// `bland_get_number`.
pub open spec fn get_number_tool() -> ToolV {
    ToolV {
        name: "bland_get_number"@,
        description: "Get details for a specific Bland.ai inbound phone number, including inbound agent and routing configuration. Use after list_numbers."@,
        parameters: seq![
            ("phone_number"@, "Inbound phone number to inspect, usually in E.164 format"@),
        ],
        required: seq!["phone_number"@],
    }
}

/// `bland_list_knowledge_bases`.
pub open spec fn list_knowledge_bases_tool() -> ToolV {
    ToolV {
        name: "bland_list_knowledge_bases"@,
        description: "List Bland.ai knowledge bases used by voice agents and pathways. Start here for discovering retrieval sources available to calls."@,
        parameters: seq![
            ("page"@, "Page number (default 1)"@),
            ("limit"@, "Maximum knowledge bases per page (default 20)"@),
        ],
        required: seq![],
    }
}

/// `bland_get_knowledge_base`.
pub open spec fn get_knowledge_base_tool() -> ToolV {
    ToolV {
        name: "bland_get_knowledge_base"@,
        description: "Get a Bland.ai knowledge base's details and documents. Use after list_knowledge_bases to inspect retrieval content available to voice agents."@,
        parameters: seq![
            ("knowledge_base_id"@, "Bland knowledge base ID"@),
        ],
        required: seq!["knowledge_base_id"@],
    }
}

/// `bland_get_me`.
pub open spec fn get_me_tool() -> ToolV {
    ToolV {
        name: "bland_get_me"@,
        description: "Get the current Bland.ai account details, billing balance, and total call count. Start here for account management and credential verification."@,
        parameters: seq![],
        required: seq![],
    }
}

/// `bland_create_org`.
pub open spec fn create_org_tool() -> ToolV {
    ToolV {
        name: "bland_create_org"@,
        description: "Create a new Bland.ai organization/workspace. Use for account and org management setup."@,
        parameters: seq![
            ("name"@, "Organization display name"@),
        ],
        required: seq!["name"@],
    }
}

/// `bland_get_org`.
pub open spec fn get_org_tool() -> ToolV {
    ToolV {
        name: "bland_get_org"@,
        description: "Get a Bland.ai organization's details, slug, plan, preferences, entitlements, rate limit, suspension, and deletion status. Use after list_my_org_memberships."@,
        parameters: seq![
            ("org_id"@, "Bland organization ID"@),
        ],
        required: seq!["org_id"@],
    }
}

/// `bland_delete_org`.
pub open spec fn delete_org_tool() -> ToolV {
    ToolV {
        name: "bland_delete_org"@,
        description: "Delete a Bland.ai organization. Requires delete_confirm with the organization slug for safety."@,
        parameters: seq![
            ("org_id"@, "Bland organization ID"@),
            ("delete_confirm"@, "Organization slug confirmation required by Bland"@),
        ],
        required: seq!["org_id"@, "delete_confirm"@],
    }
}

/// `bland_update_org_properties`.
pub open spec fn update_org_properties_tool() -> ToolV {
    ToolV {
        name: "bland_update_org_properties"@,
        description: "Update Bland.ai organization properties such as display name and preferences including use_bland_url and recording retention lifespan. Use after get_org."@,
        parameters: seq![
            ("org_id"@, "Bland organization ID"@),
            ("org_display_name"@, "New organization display name (1-30 characters)"@),
            ("use_bland_url"@, "Whether to use Bland-hosted URLs (true/false)"@),
            ("recording_lifespan_days"@, "Recording retention in days (1-1825, or -1 to disable)"@),
            ("preferences"@, "JSON object string for advanced preferences override"@),
        ],
        required: seq!["org_id"@],
    }
}

/// `bland_list_org_members`.
pub open spec fn list_org_members_tool() -> ToolV {
    ToolV {
        name: "bland_list_org_members"@,
        description: "List Bland.ai organization members with emails, phone numbers, permissions, owner/admin/operator/viewer roles, join dates, and org metadata. Start here for org user management."@,
        parameters: seq![
            ("org_id"@, "Bland organization ID"@),
        ],
        required: seq!["org_id"@],
    }
}

/// `bland_update_org_members`.
pub open spec fn update_org_members_tool() -> ToolV {
    ToolV {
        name: "bland_update_org_members"@,
        description: "Add or remove Bland.ai organization members and invites. Use for org member management after list_org_members."@,
        parameters: seq![
            ("org_id"@, "Bland organization ID"@),
            ("action"@, "Member action: add or remove"@),
            ("target"@, "Target user ID"@),
            ("permissions"@, "JSON array of permissions for add: owner, admin, operator, viewer"@),
            ("is_invite"@, "Whether removal applies to an invite (true/false)"@),
        ],
        required: seq!["org_id"@, "action"@, "target"@],
    }
}

/// `bland_update_org_member_permissions`.
pub open spec fn update_org_member_permissions_tool() -> ToolV {
    ToolV {
        name: "bland_update_org_member_permissions"@,
        description: "Update Bland.ai organization member permissions and roles. Supports add, remove, reset, or set permissions: owner, admin, operator, viewer. Use after list_org_members."@,
        parameters: seq![
            ("org_id"@, "Bland organization ID"@),
            ("action"@, "Permission action: add, remove, reset, or set"@),
            ("target"@, "Target user ID"@),
            ("permissions"@, "JSON array of permissions: owner, admin, operator, viewer"@),
        ],
        required: seq!["org_id"@, "action"@, "target"@, "permissions"@],
    }
}

/// `bland_list_my_org_memberships`.
pub open spec fn list_my_org_memberships_tool() -> ToolV {
    ToolV {
        name: "bland_list_my_org_memberships"@,
        description: "List Bland.ai organizations the current user belongs to, including org IDs, slugs, display names, permissions, owner status, and join dates. Start here to discover org_id values for management tools."@,
        parameters: seq![],
        required: seq![],
    }
}

/// `bland_leave_org`.
pub open spec fn leave_org_tool() -> ToolV {
    ToolV {
        name: "bland_leave_org"@,
        description: "Leave a Bland.ai organization as the current user. Use after list_my_org_memberships."@,
        parameters: seq![
            ("org_id"@, "Bland organization ID to leave"@),
        ],
        required: seq!["org_id"@],
    }
}

/// `bland_get_org_billing`.
pub open spec fn get_org_billing_tool() -> ToolV {
    ToolV {
        name: "bland_get_org_billing"@,
        description: "Get Bland.ai organization billing information including current balance, refill amount, and refill threshold. Start here for org billing management."@,
        parameters: seq![
            ("org_id"@, "Bland organization ID"@),
        ],
        required: seq!["org_id"@],
    }
}

/// `bland_get_org_billing_refill`.
pub open spec fn get_org_billing_refill_tool() -> ToolV {
    ToolV {
        name: "bland_get_org_billing_refill"@,
        description: "Get Bland.ai organization billing refill threshold information. Use after get_org_billing."@,
        parameters: seq![
            ("org_id"@, "Bland organization ID"@),
        ],
        required: seq!["org_id"@],
    }
}

/// `bland_get_org_current_version`.
pub open spec fn get_org_current_version_tool() -> ToolV {
    ToolV {
        name: "bland_get_org_current_version"@,
        description: "Get the current Bland.ai service version for an organization. Supports api_server and ws_server services."@,
        parameters: seq![
            ("org_id"@, "Bland organization ID"@),
            ("service"@, "Service name: api_server (default) or ws_server"@),
        ],
        required: seq!["org_id"@],
    }
}

/// `bland_list_org_versions`.
pub open spec fn list_org_versions_tool() -> ToolV {
    ToolV {
        name: "bland_list_org_versions"@,
        description: "List available Bland.ai service versions for an organization, including support status and recommended upgrades. Supports api_server and ws_server services."@,
        parameters: seq![
            ("org_id"@, "Bland organization ID"@),
            ("service"@, "Service name: api_server (default) or ws_server"@),
        ],
        required: seq!["org_id"@],
    }
}

/// `bland_update_org_version`.
pub open spec fn update_org_version_tool() -> ToolV {
    ToolV {
        name: "bland_update_org_version"@,
        description: "Update a Bland.ai organization's service version. Supports api_server and ws_server services. Use after list_org_versions."@,
        parameters: seq![
            ("org_id"@, "Bland organization ID"@),
            ("service"@, "Service name: api_server (default) or ws_server"@),
            ("version"@, "Version identifier to switch to"@),
        ],
        required: seq!["org_id"@, "version"@],
    }
}

/// `bland_list_audit_logs`.
pub open spec fn list_audit_logs_tool() -> ToolV {
    ToolV {
        name: "bland_list_audit_logs"@,
        description: "List Bland.ai audit logs for enterprise org compliance, security, admin activity, pathway changes, knowledge base updates, and SSO events. Start here for compliance and audit investigations."@,
        parameters: seq![
            ("event_type"@, "Optional exact event type filter"@),
            ("actor_id"@, "Optional user ID filter"@),
            ("created_after"@, "Optional ISO 8601 lower bound"@),
            ("created_before"@, "Optional ISO 8601 upper bound"@),
            ("page"@, "Page number (default 1)"@),
            ("page_size"@, "Page size (default 50, max 100)"@),
        ],
        required: seq![],
    }
}

/// The tools, in the order they are listed to the host.
pub open spec fn tool_table() -> Seq<ToolV> {
    seq![
        list_calls_tool(),
        list_active_calls_tool(),
        get_call_tool(),
        send_call_tool(),
        stop_call_tool(),
        analyze_call_tool(),
        list_voices_tool(),
        get_voice_tool(),
        list_pathways_tool(),
        get_pathway_tool(),
        list_numbers_tool(),
        get_number_tool(),
        list_knowledge_bases_tool(),
        get_knowledge_base_tool(),
        get_me_tool(),
        create_org_tool(),
        get_org_tool(),
        delete_org_tool(),
        update_org_properties_tool(),
        list_org_members_tool(),
        update_org_members_tool(),
        update_org_member_permissions_tool(),
        list_my_org_memberships_tool(),
        leave_org_tool(),
        get_org_billing_tool(),
        get_org_billing_refill_tool(),
        get_org_current_version_tool(),
        list_org_versions_tool(),
        update_org_version_tool(),
        list_audit_logs_tool(),
    ]
}

/// `tool_definitions`: the descriptions of the tools.
pub fn tool_definitions() -> (r: Vec<ToolDef>)
    ensures
        tools_view(r@) == tool_table(),
{
    let mut defs: Vec<ToolDef> = Vec::new();
    // bland_list_calls
    let ps: [(&str, &str); 15] = [
        ("limit", "Maximum calls to return (default 20, max 100)"),
        ("from", "Pagination start index (inclusive)"),
        ("to", "Pagination end index (exclusive)"),
        ("ascending", "Sort ascending instead of descending (true/false)"),
        ("sort_by", "Sort field: created_at or updated_at (default created_at)"),
        ("start_date", "Filter calls created on or after this ISO date/time"),
        ("end_date", "Filter calls created on or before this ISO date/time"),
        ("batch_id", "Filter by Bland batch ID"),
        ("answered_by", "Filter by answered_by result"),
        ("inbound", "Filter inbound calls (true/false)"),
        ("completed", "Filter completed calls (true/false)"),
        ("from_number", "Filter by originating phone number"),
        ("to_number", "Filter by destination phone number"),
        ("duration_gt", "Filter calls longer than this duration in seconds"),
        ("duration_lt", "Filter calls shorter than this duration in seconds"),
    ];
    let rs: [&str; 0] = [];
    let t = tool("bland_list_calls", "List Bland.ai voice AI phone calls with status, phone numbers, duration, completion, errors, and transcript availability. Start here for call history, call logs, outbound calls, inbound calls, conversations, and voice agent debugging.", &ps, &rs);
    assert(str_pairs_view(ps@) =~= list_calls_tool().parameters);
    assert(keys_view(rs@) =~= list_calls_tool().required);
    defs.push(t);
    // bland_list_active_calls
    let ps: [(&str, &str); 0] = [];
    let rs: [&str; 0] = [];
    let t = tool("bland_list_active_calls", "List currently active live Bland.ai calls. Use for monitoring in-progress phone conversations before stopping or inspecting them.", &ps, &rs);
    assert(str_pairs_view(ps@) =~= list_active_calls_tool().parameters);
    assert(keys_view(rs@) =~= list_active_calls_tool().required);
    defs.push(t);
    // bland_get_call
    let ps: [(&str, &str); 1] = [
        ("call_id", "Bland call_id returned by list_calls or send_call"),
    ];
    let rs: [&str; 1] = ["call_id"];
    let t = tool("bland_get_call", "Get details for a specific Bland.ai call, including status, summary, transcript, corrected transcript fields, analysis, variables, metadata, and conversation timing. Use after list_calls when debugging a call or reading a transcript.", &ps, &rs);
    assert(str_pairs_view(ps@) =~= get_call_tool().parameters);
    assert(keys_view(rs@) =~= get_call_tool().required);
    defs.push(t);
    // bland_send_call
    let ps: [(&str, &str); 20] = [
        ("phone_number", "Destination phone number in E.164 format (for example +15551234567)"),
        ("task", "Plain-language voice agent task/instructions. Required unless pathway_id is provided"),
        ("pathway_id", "Existing Bland pathway ID. Required unless task is provided"),
        ("voice", "Voice ID or voice name"),
        ("first_sentence", "Opening sentence the AI should say"),
        ("model", "Bland model name"),
        ("language", "Language code (for example en-US)"),
        ("from", "Bland phone number to call from"),
        ("webhook", "Webhook URL for call events/results"),
        ("metadata", "JSON object string attached to the call"),
        ("dynamic_data", "JSON object string for pathway/task variables"),
        ("tools", "JSON array string of Bland tool definitions"),
        ("transfer_phone_number", "Phone number to transfer to"),
        ("timezone", "Timezone for scheduling and context"),
        ("max_duration", "Maximum call duration in minutes"),
        ("wait_for_greeting", "Wait for recipient greeting before speaking (true/false)"),
        ("record", "Whether to record the call (true/false)"),
        ("temperature", "Model temperature"),
        ("interruption_threshold", "Interruption sensitivity threshold"),
        ("background_track", "Background audio track name"),
    ];
    let rs: [&str; 1] = ["phone_number"];
    let t = tool("bland_send_call", "Send or schedule an outbound Bland.ai AI phone call. Creates a voice agent call using either a task prompt or pathway_id, with optional voice, first sentence, metadata, webhook, transfer number, and dynamic variables.", &ps, &rs);
    assert(str_pairs_view(ps@) =~= send_call_tool().parameters);
    assert(keys_view(rs@) =~= send_call_tool().required);
    defs.push(t);
    // bland_stop_call
    let ps: [(&str, &str); 1] = [
        ("call_id", "Bland call_id for the active call to stop"),
    ];
    let rs: [&str; 1] = ["call_id"];
    let t = tool("bland_stop_call", "Stop an active Bland.ai phone call. Use after list_active_calls or get_call when a live voice conversation should be ended.", &ps, &rs);
    assert(str_pairs_view(ps@) =~= stop_call_tool().parameters);
    assert(keys_view(rs@) =~= stop_call_tool().required);
    defs.push(t);
    // bland_analyze_call
    let ps: [(&str, &str); 3] = [
        ("call_id", "Bland call_id to analyze"),
        ("goal", "Analysis goal or rubric"),
        ("questions", "JSON array of question objects or strings to answer from the call"),
    ];
    let rs: [&str; 3] = ["call_id", "goal", "questions"];
    let t = tool("bland_analyze_call", "Analyze a completed Bland.ai call transcript with AI using a goal and structured questions. Use after get_call to extract outcomes, classifications, lead qualification, sentiment, or custom fields.", &ps, &rs);
    assert(str_pairs_view(ps@) =~= analyze_call_tool().parameters);
    assert(keys_view(rs@) =~= analyze_call_tool().required);
    defs.push(t);
    // bland_list_voices
    let ps: [(&str, &str); 0] = [];
    let rs: [&str; 0] = [];
    let t = tool("bland_list_voices", "List Bland.ai voices for text-to-speech and phone calls, including voice IDs, names, descriptions, tags, public/private status, and ratings. Start here for choosing a call voice.", &ps, &rs);
    assert(str_pairs_view(ps@) =~= list_voices_tool().parameters);
    assert(keys_view(rs@) =~= list_voices_tool().required);
    defs.push(t);
    // bland_get_voice
    let ps: [(&str, &str); 1] = [
        ("voice_id", "Bland voice ID"),
    ];
    let rs: [&str; 1] = ["voice_id"];
    let t = tool("bland_get_voice", "Get details for a specific Bland.ai voice. Use after list_voices to inspect a voice before using it in send_call.", &ps, &rs);
    assert(str_pairs_view(ps@) =~= get_voice_tool().parameters);
    assert(keys_view(rs@) =~= get_voice_tool().required);
    defs.push(t);
    // bland_list_pathways
    let ps: [(&str, &str); 0] = [];
    let rs: [&str; 0] = [];
    let t = tool("bland_list_pathways", "List Bland.ai conversational pathways and voice agent flows. Start here for discovering pathway IDs to use when sending calls.", &ps, &rs);
    assert(str_pairs_view(ps@) =~= list_pathways_tool().parameters);
    assert(keys_view(rs@) =~= list_pathways_tool().required);
    defs.push(t);
    // bland_get_pathway
    let ps: [(&str, &str); 1] = [
        ("pathway_id", "Bland pathway ID"),
    ];
    let rs: [&str; 1] = ["pathway_id"];
    let t = tool("bland_get_pathway", "Get a Bland.ai pathway's full configuration. Use after list_pathways to inspect a conversational flow before sending calls with pathway_id.", &ps, &rs);
    assert(str_pairs_view(ps@) =~= get_pathway_tool().parameters);
    assert(keys_view(rs@) =~= get_pathway_tool().required);
    defs.push(t);
    // bland_list_numbers
    let ps: [(&str, &str); 1] = [
        ("encrypted_key", "Optional encrypted key filter used by Bland for number lookup"),
    ];
    let rs: [&str; 0] = [];
    let t = tool("bland_list_numbers", "List Bland.ai inbound phone numbers configured on the account. Start here for phone number inventory, inbound agents, and call routing setup.", &ps, &rs);
    assert(str_pairs_view(ps@) =~= list_numbers_tool().parameters);
    assert(keys_view(rs@) =~= list_numbers_tool().required);
    defs.push(t);
    // bland_get_number
    let ps: [(&str, &str); 1] = [
        ("phone_number", "Inbound phone number to inspect, usually in E.164 format"),
    ];
    let rs: [&str; 1] = ["phone_number"];
    let t = tool("bland_get_number", "Get details for a specific Bland.ai inbound phone number, including inbound agent and routing configuration. Use after list_numbers.", &ps, &rs);
    assert(str_pairs_view(ps@) =~= get_number_tool().parameters);
    assert(keys_view(rs@) =~= get_number_tool().required);
    defs.push(t);
    // bland_list_knowledge_bases
    let ps: [(&str, &str); 2] = [
        ("page", "Page number (default 1)"),
        ("limit", "Maximum knowledge bases per page (default 20)"),
    ];
    let rs: [&str; 0] = [];
    let t = tool("bland_list_knowledge_bases", "List Bland.ai knowledge bases used by voice agents and pathways. Start here for discovering retrieval sources available to calls.", &ps, &rs);
    assert(str_pairs_view(ps@) =~= list_knowledge_bases_tool().parameters);
    assert(keys_view(rs@) =~= list_knowledge_bases_tool().required);
    defs.push(t);
    // bland_get_knowledge_base
    let ps: [(&str, &str); 1] = [
        ("knowledge_base_id", "Bland knowledge base ID"),
    ];
    let rs: [&str; 1] = ["knowledge_base_id"];
    let t = tool("bland_get_knowledge_base", "Get a Bland.ai knowledge base's details and documents. Use after list_knowledge_bases to inspect retrieval content available to voice agents.", &ps, &rs);
    assert(str_pairs_view(ps@) =~= get_knowledge_base_tool().parameters);
    assert(keys_view(rs@) =~= get_knowledge_base_tool().required);
    defs.push(t);
    // bland_get_me
    let ps: [(&str, &str); 0] = [];
    let rs: [&str; 0] = [];
    let t = tool("bland_get_me", "Get the current Bland.ai account details, billing balance, and total call count. Start here for account management and credential verification.", &ps, &rs);
    assert(str_pairs_view(ps@) =~= get_me_tool().parameters);
    assert(keys_view(rs@) =~= get_me_tool().required);
    defs.push(t);
    // bland_create_org
    let ps: [(&str, &str); 1] = [
        ("name", "Organization display name"),
    ];
    let rs: [&str; 1] = ["name"];
    let t = tool("bland_create_org", "Create a new Bland.ai organization/workspace. Use for account and org management setup.", &ps, &rs);
    assert(str_pairs_view(ps@) =~= create_org_tool().parameters);
    assert(keys_view(rs@) =~= create_org_tool().required);
    defs.push(t);
    // bland_get_org
    let ps: [(&str, &str); 1] = [
        ("org_id", "Bland organization ID"),
    ];
    let rs: [&str; 1] = ["org_id"];
    let t = tool("bland_get_org", "Get a Bland.ai organization's details, slug, plan, preferences, entitlements, rate limit, suspension, and deletion status. Use after list_my_org_memberships.", &ps, &rs);
    assert(str_pairs_view(ps@) =~= get_org_tool().parameters);
    assert(keys_view(rs@) =~= get_org_tool().required);
    defs.push(t);
    // bland_delete_org
    let ps: [(&str, &str); 2] = [
        ("org_id", "Bland organization ID"),
        ("delete_confirm", "Organization slug confirmation required by Bland"),
    ];
    let rs: [&str; 2] = ["org_id", "delete_confirm"];
    let t = tool("bland_delete_org", "Delete a Bland.ai organization. Requires delete_confirm with the organization slug for safety.", &ps, &rs);
    assert(str_pairs_view(ps@) =~= delete_org_tool().parameters);
    assert(keys_view(rs@) =~= delete_org_tool().required);
    defs.push(t);
    // bland_update_org_properties
    let ps: [(&str, &str); 5] = [
        ("org_id", "Bland organization ID"),
        ("org_display_name", "New organization display name (1-30 characters)"),
        ("use_bland_url", "Whether to use Bland-hosted URLs (true/false)"),
        ("recording_lifespan_days", "Recording retention in days (1-1825, or -1 to disable)"),
        ("preferences", "JSON object string for advanced preferences override"),
    ];
    let rs: [&str; 1] = ["org_id"];
    let t = tool("bland_update_org_properties", "Update Bland.ai organization properties such as display name and preferences including use_bland_url and recording retention lifespan. Use after get_org.", &ps, &rs);
    assert(str_pairs_view(ps@) =~= update_org_properties_tool().parameters);
    assert(keys_view(rs@) =~= update_org_properties_tool().required);
    defs.push(t);
    // bland_list_org_members
    let ps: [(&str, &str); 1] = [
        ("org_id", "Bland organization ID"),
    ];
    let rs: [&str; 1] = ["org_id"];
    let t = tool("bland_list_org_members", "List Bland.ai organization members with emails, phone numbers, permissions, owner/admin/operator/viewer roles, join dates, and org metadata. Start here for org user management.", &ps, &rs);
    assert(str_pairs_view(ps@) =~= list_org_members_tool().parameters);
    assert(keys_view(rs@) =~= list_org_members_tool().required);
    defs.push(t);
    // bland_update_org_members
    let ps: [(&str, &str); 5] = [
        ("org_id", "Bland organization ID"),
        ("action", "Member action: add or remove"),
        ("target", "Target user ID"),
        ("permissions", "JSON array of permissions for add: owner, admin, operator, viewer"),
        ("is_invite", "Whether removal applies to an invite (true/false)"),
    ];
    let rs: [&str; 3] = ["org_id", "action", "target"];
    let t = tool("bland_update_org_members", "Add or remove Bland.ai organization members and invites. Use for org member management after list_org_members.", &ps, &rs);
    assert(str_pairs_view(ps@) =~= update_org_members_tool().parameters);
    assert(keys_view(rs@) =~= update_org_members_tool().required);
    defs.push(t);
    // bland_update_org_member_permissions
    let ps: [(&str, &str); 4] = [
        ("org_id", "Bland organization ID"),
        ("action", "Permission action: add, remove, reset, or set"),
        ("target", "Target user ID"),
        ("permissions", "JSON array of permissions: owner, admin, operator, viewer"),
    ];
    let rs: [&str; 4] = ["org_id", "action", "target", "permissions"];
    let t = tool("bland_update_org_member_permissions", "Update Bland.ai organization member permissions and roles. Supports add, remove, reset, or set permissions: owner, admin, operator, viewer. Use after list_org_members.", &ps, &rs);
    assert(str_pairs_view(ps@) =~= update_org_member_permissions_tool().parameters);
    assert(keys_view(rs@) =~= update_org_member_permissions_tool().required);
    defs.push(t);
    // bland_list_my_org_memberships
    let ps: [(&str, &str); 0] = [];
    let rs: [&str; 0] = [];
    let t = tool("bland_list_my_org_memberships", "List Bland.ai organizations the current user belongs to, including org IDs, slugs, display names, permissions, owner status, and join dates. Start here to discover org_id values for management tools.", &ps, &rs);
    assert(str_pairs_view(ps@) =~= list_my_org_memberships_tool().parameters);
    assert(keys_view(rs@) =~= list_my_org_memberships_tool().required);
    defs.push(t);
    // bland_leave_org
    let ps: [(&str, &str); 1] = [
        ("org_id", "Bland organization ID to leave"),
    ];
    let rs: [&str; 1] = ["org_id"];
    let t = tool("bland_leave_org", "Leave a Bland.ai organization as the current user. Use after list_my_org_memberships.", &ps, &rs);
    assert(str_pairs_view(ps@) =~= leave_org_tool().parameters);
    assert(keys_view(rs@) =~= leave_org_tool().required);
    defs.push(t);
    // bland_get_org_billing
    let ps: [(&str, &str); 1] = [
        ("org_id", "Bland organization ID"),
    ];
    let rs: [&str; 1] = ["org_id"];
    let t = tool("bland_get_org_billing", "Get Bland.ai organization billing information including current balance, refill amount, and refill threshold. Start here for org billing management.", &ps, &rs);
    assert(str_pairs_view(ps@) =~= get_org_billing_tool().parameters);
    assert(keys_view(rs@) =~= get_org_billing_tool().required);
    defs.push(t);
    // bland_get_org_billing_refill
    let ps: [(&str, &str); 1] = [
        ("org_id", "Bland organization ID"),
    ];
    let rs: [&str; 1] = ["org_id"];
    let t = tool("bland_get_org_billing_refill", "Get Bland.ai organization billing refill threshold information. Use after get_org_billing.", &ps, &rs);
    assert(str_pairs_view(ps@) =~= get_org_billing_refill_tool().parameters);
    assert(keys_view(rs@) =~= get_org_billing_refill_tool().required);
    defs.push(t);
    // bland_get_org_current_version
    let ps: [(&str, &str); 2] = [
        ("org_id", "Bland organization ID"),
        ("service", "Service name: api_server (default) or ws_server"),
    ];
    let rs: [&str; 1] = ["org_id"];
    let t = tool("bland_get_org_current_version", "Get the current Bland.ai service version for an organization. Supports api_server and ws_server services.", &ps, &rs);
    assert(str_pairs_view(ps@) =~= get_org_current_version_tool().parameters);
    assert(keys_view(rs@) =~= get_org_current_version_tool().required);
    defs.push(t);
    // bland_list_org_versions
    let ps: [(&str, &str); 2] = [
        ("org_id", "Bland organization ID"),
        ("service", "Service name: api_server (default) or ws_server"),
    ];
    let rs: [&str; 1] = ["org_id"];
    let t = tool("bland_list_org_versions", "List available Bland.ai service versions for an organization, including support status and recommended upgrades. Supports api_server and ws_server services.", &ps, &rs);
    assert(str_pairs_view(ps@) =~= list_org_versions_tool().parameters);
    assert(keys_view(rs@) =~= list_org_versions_tool().required);
    defs.push(t);
    // bland_update_org_version
    let ps: [(&str, &str); 3] = [
        ("org_id", "Bland organization ID"),
        ("service", "Service name: api_server (default) or ws_server"),
        ("version", "Version identifier to switch to"),
    ];
    let rs: [&str; 2] = ["org_id", "version"];
    let t = tool("bland_update_org_version", "Update a Bland.ai organization's service version. Supports api_server and ws_server services. Use after list_org_versions.", &ps, &rs);
    assert(str_pairs_view(ps@) =~= update_org_version_tool().parameters);
    assert(keys_view(rs@) =~= update_org_version_tool().required);
    defs.push(t);
    // bland_list_audit_logs
    let ps: [(&str, &str); 6] = [
        ("event_type", "Optional exact event type filter"),
        ("actor_id", "Optional user ID filter"),
        ("created_after", "Optional ISO 8601 lower bound"),
        ("created_before", "Optional ISO 8601 upper bound"),
        ("page", "Page number (default 1)"),
        ("page_size", "Page size (default 50, max 100)"),
    ];
    let rs: [&str; 0] = [];
    let t = tool("bland_list_audit_logs", "List Bland.ai audit logs for enterprise org compliance, security, admin activity, pathway changes, knowledge base updates, and SSO events. Start here for compliance and audit investigations.", &ps, &rs);
    assert(str_pairs_view(ps@) =~= list_audit_logs_tool().parameters);
    assert(keys_view(rs@) =~= list_audit_logs_tool().required);
    defs.push(t);
    assert(tools_view(defs@) =~= tool_table());
    defs
}

/// No two tools have the same name.
pub proof fn lemma_tool_names_distinct()
    ensures
        keys_distinct(tool_names(tool_table())),
{
    reveal_strlit("bland_list_calls");
    assert("bland_list_calls"@.len() == 16);
    assert("bland_list_calls"@[6] == 'l');
    reveal_strlit("bland_list_active_calls");
    assert("bland_list_active_calls"@.len() == 23);
    assert("bland_list_active_calls"@[11] == 'a');
    reveal_strlit("bland_get_call");
    assert("bland_get_call"@.len() == 14);
    reveal_strlit("bland_send_call");
    assert("bland_send_call"@.len() == 15);
    assert("bland_send_call"@[6] == 's');
    assert("bland_send_call"@[7] == 'e');
    reveal_strlit("bland_stop_call");
    assert("bland_stop_call"@.len() == 15);
    assert("bland_stop_call"@[6] == 's');
    assert("bland_stop_call"@[7] == 't');
    reveal_strlit("bland_analyze_call");
    assert("bland_analyze_call"@.len() == 18);
    assert("bland_analyze_call"@[6] == 'a');
    reveal_strlit("bland_list_voices");
    assert("bland_list_voices"@.len() == 17);
    assert("bland_list_voices"@[6] == 'l');
    reveal_strlit("bland_get_voice");
    assert("bland_get_voice"@.len() == 15);
    assert("bland_get_voice"@[6] == 'g');
    reveal_strlit("bland_list_pathways");
    assert("bland_list_pathways"@.len() == 19);
    reveal_strlit("bland_get_pathway");
    assert("bland_get_pathway"@.len() == 17);
    assert("bland_get_pathway"@[6] == 'g');
    reveal_strlit("bland_list_numbers");
    assert("bland_list_numbers"@.len() == 18);
    assert("bland_list_numbers"@[6] == 'l');
    reveal_strlit("bland_get_number");
    assert("bland_get_number"@.len() == 16);
    assert("bland_get_number"@[6] == 'g');
    reveal_strlit("bland_list_knowledge_bases");
    assert("bland_list_knowledge_bases"@.len() == 26);
    reveal_strlit("bland_get_knowledge_base");
    assert("bland_get_knowledge_base"@.len() == 24);
    assert("bland_get_knowledge_base"@[6] == 'g');
    reveal_strlit("bland_get_me");
    assert("bland_get_me"@.len() == 12);
    reveal_strlit("bland_create_org");
    assert("bland_create_org"@.len() == 16);
    assert("bland_create_org"@[6] == 'c');
    reveal_strlit("bland_get_org");
    assert("bland_get_org"@.len() == 13);
    reveal_strlit("bland_delete_org");
    assert("bland_delete_org"@.len() == 16);
    assert("bland_delete_org"@[6] == 'd');
    reveal_strlit("bland_update_org_properties");
    assert("bland_update_org_properties"@.len() == 27);
    reveal_strlit("bland_list_org_members");
    assert("bland_list_org_members"@.len() == 22);
    reveal_strlit("bland_update_org_members");
    assert("bland_update_org_members"@.len() == 24);
    assert("bland_update_org_members"@[6] == 'u');
    assert("bland_update_org_members"@[17] == 'm');
    reveal_strlit("bland_update_org_member_permissions");
    assert("bland_update_org_member_permissions"@.len() == 35);
    reveal_strlit("bland_list_my_org_memberships");
    assert("bland_list_my_org_memberships"@.len() == 29);
    assert("bland_list_my_org_memberships"@[6] == 'l');
    reveal_strlit("bland_leave_org");
    assert("bland_leave_org"@.len() == 15);
    assert("bland_leave_org"@[6] == 'l');
    reveal_strlit("bland_get_org_billing");
    assert("bland_get_org_billing"@.len() == 21);
    assert("bland_get_org_billing"@[6] == 'g');
    reveal_strlit("bland_get_org_billing_refill");
    assert("bland_get_org_billing_refill"@.len() == 28);
    reveal_strlit("bland_get_org_current_version");
    assert("bland_get_org_current_version"@.len() == 29);
    assert("bland_get_org_current_version"@[6] == 'g');
    reveal_strlit("bland_list_org_versions");
    assert("bland_list_org_versions"@.len() == 23);
    assert("bland_list_org_versions"@[11] == 'o');
    reveal_strlit("bland_update_org_version");
    assert("bland_update_org_version"@.len() == 24);
    assert("bland_update_org_version"@[6] == 'u');
    assert("bland_update_org_version"@[17] == 'v');
    reveal_strlit("bland_list_audit_logs");
    assert("bland_list_audit_logs"@.len() == 21);
    assert("bland_list_audit_logs"@[6] == 'l');
    assert(tool_names(tool_table()) =~= seq!["bland_list_calls"@, "bland_list_active_calls"@, "bland_get_call"@, "bland_send_call"@, "bland_stop_call"@, "bland_analyze_call"@, "bland_list_voices"@, "bland_get_voice"@, "bland_list_pathways"@, "bland_get_pathway"@, "bland_list_numbers"@, "bland_get_number"@, "bland_list_knowledge_bases"@, "bland_get_knowledge_base"@, "bland_get_me"@, "bland_create_org"@, "bland_get_org"@, "bland_delete_org"@, "bland_update_org_properties"@, "bland_list_org_members"@, "bland_update_org_members"@, "bland_update_org_member_permissions"@, "bland_list_my_org_memberships"@, "bland_leave_org"@, "bland_get_org_billing"@, "bland_get_org_billing_refill"@, "bland_get_org_current_version"@, "bland_list_org_versions"@, "bland_update_org_version"@, "bland_list_audit_logs"@]);
}

/// No tool lists a parameter twice.
pub proof fn lemma_parameters_distinct()
    ensures
        forall|t: int| 0 <= t < tool_table().len() ==> keys_distinct(pair_keys(#[trigger] tool_table()[t].parameters)),
{
    assert(keys_distinct(pair_keys(list_calls_tool().parameters))) by {
        reveal_strlit("limit");
        assert("limit"@.len() == 5);
        reveal_strlit("from");
        assert("from"@.len() == 4);
        reveal_strlit("to");
        assert("to"@.len() == 2);
        reveal_strlit("ascending");
        assert("ascending"@.len() == 9);
        assert("ascending"@[0] == 'a');
        reveal_strlit("sort_by");
        assert("sort_by"@.len() == 7);
        assert("sort_by"@[0] == 's');
        reveal_strlit("start_date");
        assert("start_date"@.len() == 10);
        reveal_strlit("end_date");
        assert("end_date"@.len() == 8);
        assert("end_date"@[0] == 'e');
        reveal_strlit("batch_id");
        assert("batch_id"@.len() == 8);
        assert("batch_id"@[0] == 'b');
        reveal_strlit("answered_by");
        assert("answered_by"@.len() == 11);
        assert("answered_by"@[0] == 'a');
        reveal_strlit("inbound");
        assert("inbound"@.len() == 7);
        assert("inbound"@[0] == 'i');
        reveal_strlit("completed");
        assert("completed"@.len() == 9);
        assert("completed"@[0] == 'c');
        reveal_strlit("from_number");
        assert("from_number"@.len() == 11);
        assert("from_number"@[0] == 'f');
        reveal_strlit("to_number");
        assert("to_number"@.len() == 9);
        assert("to_number"@[0] == 't');
        reveal_strlit("duration_gt");
        assert("duration_gt"@.len() == 11);
        assert("duration_gt"@[0] == 'd');
        assert("duration_gt"@[9] == 'g');
        reveal_strlit("duration_lt");
        assert("duration_lt"@.len() == 11);
        assert("duration_lt"@[0] == 'd');
        assert("duration_lt"@[9] == 'l');
        assert(pair_keys(list_calls_tool().parameters) =~= seq!["limit"@, "from"@, "to"@, "ascending"@, "sort_by"@, "start_date"@, "end_date"@, "batch_id"@, "answered_by"@, "inbound"@, "completed"@, "from_number"@, "to_number"@, "duration_gt"@, "duration_lt"@]);
    }
    assert(keys_distinct(pair_keys(list_active_calls_tool().parameters)));
    assert(keys_distinct(pair_keys(get_call_tool().parameters)));
    assert(keys_distinct(pair_keys(send_call_tool().parameters))) by {
        reveal_strlit("phone_number");
        assert("phone_number"@.len() == 12);
        assert("phone_number"@[0] == 'p');
        reveal_strlit("task");
        assert("task"@.len() == 4);
        assert("task"@[0] == 't');
        reveal_strlit("pathway_id");
        assert("pathway_id"@.len() == 10);
        reveal_strlit("voice");
        assert("voice"@.len() == 5);
        assert("voice"@[0] == 'v');
        reveal_strlit("first_sentence");
        assert("first_sentence"@.len() == 14);
        reveal_strlit("model");
        assert("model"@.len() == 5);
        assert("model"@[0] == 'm');
        reveal_strlit("language");
        assert("language"@.len() == 8);
        assert("language"@[0] == 'l');
        reveal_strlit("from");
        assert("from"@.len() == 4);
        assert("from"@[0] == 'f');
        reveal_strlit("webhook");
        assert("webhook"@.len() == 7);
        reveal_strlit("metadata");
        assert("metadata"@.len() == 8);
        assert("metadata"@[0] == 'm');
        reveal_strlit("dynamic_data");
        assert("dynamic_data"@.len() == 12);
        assert("dynamic_data"@[0] == 'd');
        reveal_strlit("tools");
        assert("tools"@.len() == 5);
        assert("tools"@[0] == 't');
        reveal_strlit("transfer_phone_number");
        assert("transfer_phone_number"@.len() == 21);
        reveal_strlit("timezone");
        assert("timezone"@.len() == 8);
        assert("timezone"@[0] == 't');
        reveal_strlit("max_duration");
        assert("max_duration"@.len() == 12);
        assert("max_duration"@[0] == 'm');
        reveal_strlit("wait_for_greeting");
        assert("wait_for_greeting"@.len() == 17);
        reveal_strlit("record");
        assert("record"@.len() == 6);
        reveal_strlit("temperature");
        assert("temperature"@.len() == 11);
        reveal_strlit("interruption_threshold");
        assert("interruption_threshold"@.len() == 22);
        reveal_strlit("background_track");
        assert("background_track"@.len() == 16);
        assert(pair_keys(send_call_tool().parameters) =~= seq!["phone_number"@, "task"@, "pathway_id"@, "voice"@, "first_sentence"@, "model"@, "language"@, "from"@, "webhook"@, "metadata"@, "dynamic_data"@, "tools"@, "transfer_phone_number"@, "timezone"@, "max_duration"@, "wait_for_greeting"@, "record"@, "temperature"@, "interruption_threshold"@, "background_track"@]);
    }
    assert(keys_distinct(pair_keys(stop_call_tool().parameters)));
    assert(keys_distinct(pair_keys(analyze_call_tool().parameters))) by {
        reveal_strlit("call_id");
        assert("call_id"@.len() == 7);
        reveal_strlit("goal");
        assert("goal"@.len() == 4);
        reveal_strlit("questions");
        assert("questions"@.len() == 9);
        assert(pair_keys(analyze_call_tool().parameters) =~= seq!["call_id"@, "goal"@, "questions"@]);
    }
    assert(keys_distinct(pair_keys(list_voices_tool().parameters)));
    assert(keys_distinct(pair_keys(get_voice_tool().parameters)));
    assert(keys_distinct(pair_keys(list_pathways_tool().parameters)));
    assert(keys_distinct(pair_keys(get_pathway_tool().parameters)));
    assert(keys_distinct(pair_keys(list_numbers_tool().parameters)));
    assert(keys_distinct(pair_keys(get_number_tool().parameters)));
    assert(keys_distinct(pair_keys(list_knowledge_bases_tool().parameters))) by {
        reveal_strlit("page");
        assert("page"@.len() == 4);
        reveal_strlit("limit");
        assert("limit"@.len() == 5);
        assert(pair_keys(list_knowledge_bases_tool().parameters) =~= seq!["page"@, "limit"@]);
    }
    assert(keys_distinct(pair_keys(get_knowledge_base_tool().parameters)));
    assert(keys_distinct(pair_keys(get_me_tool().parameters)));
    assert(keys_distinct(pair_keys(create_org_tool().parameters)));
    assert(keys_distinct(pair_keys(get_org_tool().parameters)));
    assert(keys_distinct(pair_keys(delete_org_tool().parameters))) by {
        reveal_strlit("org_id");
        assert("org_id"@.len() == 6);
        reveal_strlit("delete_confirm");
        assert("delete_confirm"@.len() == 14);
        assert(pair_keys(delete_org_tool().parameters) =~= seq!["org_id"@, "delete_confirm"@]);
    }
    assert(keys_distinct(pair_keys(update_org_properties_tool().parameters))) by {
        reveal_strlit("org_id");
        assert("org_id"@.len() == 6);
        reveal_strlit("org_display_name");
        assert("org_display_name"@.len() == 16);
        reveal_strlit("use_bland_url");
        assert("use_bland_url"@.len() == 13);
        reveal_strlit("recording_lifespan_days");
        assert("recording_lifespan_days"@.len() == 23);
        reveal_strlit("preferences");
        assert("preferences"@.len() == 11);
        assert(pair_keys(update_org_properties_tool().parameters) =~= seq!["org_id"@, "org_display_name"@, "use_bland_url"@, "recording_lifespan_days"@, "preferences"@]);
    }
    assert(keys_distinct(pair_keys(list_org_members_tool().parameters)));
    assert(keys_distinct(pair_keys(update_org_members_tool().parameters))) by {
        reveal_strlit("org_id");
        assert("org_id"@.len() == 6);
        assert("org_id"@[0] == 'o');
        reveal_strlit("action");
        assert("action"@.len() == 6);
        assert("action"@[0] == 'a');
        reveal_strlit("target");
        assert("target"@.len() == 6);
        assert("target"@[0] == 't');
        reveal_strlit("permissions");
        assert("permissions"@.len() == 11);
        reveal_strlit("is_invite");
        assert("is_invite"@.len() == 9);
        assert(pair_keys(update_org_members_tool().parameters) =~= seq!["org_id"@, "action"@, "target"@, "permissions"@, "is_invite"@]);
    }
    assert(keys_distinct(pair_keys(update_org_member_permissions_tool().parameters))) by {
        reveal_strlit("org_id");
        assert("org_id"@.len() == 6);
        assert("org_id"@[0] == 'o');
        reveal_strlit("action");
        assert("action"@.len() == 6);
        assert("action"@[0] == 'a');
        reveal_strlit("target");
        assert("target"@.len() == 6);
        assert("target"@[0] == 't');
        reveal_strlit("permissions");
        assert("permissions"@.len() == 11);
        assert(pair_keys(update_org_member_permissions_tool().parameters) =~= seq!["org_id"@, "action"@, "target"@, "permissions"@]);
    }
    assert(keys_distinct(pair_keys(list_my_org_memberships_tool().parameters)));
    assert(keys_distinct(pair_keys(leave_org_tool().parameters)));
    assert(keys_distinct(pair_keys(get_org_billing_tool().parameters)));
    assert(keys_distinct(pair_keys(get_org_billing_refill_tool().parameters)));
    assert(keys_distinct(pair_keys(get_org_current_version_tool().parameters))) by {
        reveal_strlit("org_id");
        assert("org_id"@.len() == 6);
        reveal_strlit("service");
        assert("service"@.len() == 7);
        assert(pair_keys(get_org_current_version_tool().parameters) =~= seq!["org_id"@, "service"@]);
    }
    assert(keys_distinct(pair_keys(list_org_versions_tool().parameters))) by {
        reveal_strlit("org_id");
        assert("org_id"@.len() == 6);
        reveal_strlit("service");
        assert("service"@.len() == 7);
        assert(pair_keys(list_org_versions_tool().parameters) =~= seq!["org_id"@, "service"@]);
    }
    assert(keys_distinct(pair_keys(update_org_version_tool().parameters))) by {
        reveal_strlit("org_id");
        assert("org_id"@.len() == 6);
        reveal_strlit("service");
        assert("service"@.len() == 7);
        assert("service"@[0] == 's');
        reveal_strlit("version");
        assert("version"@.len() == 7);
        assert("version"@[0] == 'v');
        assert(pair_keys(update_org_version_tool().parameters) =~= seq!["org_id"@, "service"@, "version"@]);
    }
    assert(keys_distinct(pair_keys(list_audit_logs_tool().parameters))) by {
        reveal_strlit("event_type");
        assert("event_type"@.len() == 10);
        reveal_strlit("actor_id");
        assert("actor_id"@.len() == 8);
        reveal_strlit("created_after");
        assert("created_after"@.len() == 13);
        reveal_strlit("created_before");
        assert("created_before"@.len() == 14);
        reveal_strlit("page");
        assert("page"@.len() == 4);
        reveal_strlit("page_size");
        assert("page_size"@.len() == 9);
        assert(pair_keys(list_audit_logs_tool().parameters) =~= seq!["event_type"@, "actor_id"@, "created_after"@, "created_before"@, "page"@, "page_size"@]);
    }
    assert forall|t: int| 0 <= t < tool_table().len() implies keys_distinct(pair_keys(#[trigger] tool_table()[t].parameters)) by {
        if t == 0 {
            assert(tool_table()[t] == list_calls_tool());
        } else if t == 1 {
            assert(tool_table()[t] == list_active_calls_tool());
        } else if t == 2 {
            assert(tool_table()[t] == get_call_tool());
        } else if t == 3 {
            assert(tool_table()[t] == send_call_tool());
        } else if t == 4 {
            assert(tool_table()[t] == stop_call_tool());
        } else if t == 5 {
            assert(tool_table()[t] == analyze_call_tool());
        } else if t == 6 {
            assert(tool_table()[t] == list_voices_tool());
        } else if t == 7 {
            assert(tool_table()[t] == get_voice_tool());
        } else if t == 8 {
            assert(tool_table()[t] == list_pathways_tool());
        } else if t == 9 {
            assert(tool_table()[t] == get_pathway_tool());
        } else if t == 10 {
            assert(tool_table()[t] == list_numbers_tool());
        } else if t == 11 {
            assert(tool_table()[t] == get_number_tool());
        } else if t == 12 {
            assert(tool_table()[t] == list_knowledge_bases_tool());
        } else if t == 13 {
            assert(tool_table()[t] == get_knowledge_base_tool());
        } else if t == 14 {
            assert(tool_table()[t] == get_me_tool());
        } else if t == 15 {
            assert(tool_table()[t] == create_org_tool());
        } else if t == 16 {
            assert(tool_table()[t] == get_org_tool());
        } else if t == 17 {
            assert(tool_table()[t] == delete_org_tool());
        } else if t == 18 {
            assert(tool_table()[t] == update_org_properties_tool());
        } else if t == 19 {
            assert(tool_table()[t] == list_org_members_tool());
        } else if t == 20 {
            assert(tool_table()[t] == update_org_members_tool());
        } else if t == 21 {
            assert(tool_table()[t] == update_org_member_permissions_tool());
        } else if t == 22 {
            assert(tool_table()[t] == list_my_org_memberships_tool());
        } else if t == 23 {
            assert(tool_table()[t] == leave_org_tool());
        } else if t == 24 {
            assert(tool_table()[t] == get_org_billing_tool());
        } else if t == 25 {
            assert(tool_table()[t] == get_org_billing_refill_tool());
        } else if t == 26 {
            assert(tool_table()[t] == get_org_current_version_tool());
        } else if t == 27 {
            assert(tool_table()[t] == list_org_versions_tool());
        } else if t == 28 {
            assert(tool_table()[t] == update_org_version_tool());
        } else if t == 29 {
            assert(tool_table()[t] == list_audit_logs_tool());
        }
    }
}

} // verus!
