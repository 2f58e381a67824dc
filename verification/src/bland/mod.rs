//! Bland.ai voice AI: calls, voices, pathways, numbers, knowledge bases,
//! organizations, billing, service versions and audit logs.
//!
//! A tool call goes through [`dispatch`], which turns the arguments into an
//! [`ApiRequest`] or an error; [`prepare_request`] makes the HTTP request
//! that the host sends; [`finish_request`] turns the reply into the tool's
//! result.
pub mod handlers;
pub mod tools;

use vstd::prelude::*;

use crate::args::{ArgEntryV, Args};
use crate::encoding::escaped;
use crate::request::{
    add_header, bare, credential, plan_view, reply,
    reply_outcome, tagged, tagged_message, unknown_tool, unknown_tool_error, ApiRequest,
    HttpCall, HttpCallV, json_body, json_http_body, Method, RequestV,
};
use crate::text::{owned, push_str, str_eq};
use crate::tool_def::{keys_distinct, spec_tools, compact_entry, specs_view, tool_names};
use crate::request::keys_view;

use crate::json::{read_credentials, serde_json_credentials};
use crate::request::{map_credential, HttpBodyV};

verus! {

/// The base URL of the Bland.ai API.
pub open spec fn api_base() -> Seq<char> {
    "https://api.bland.ai/v1"@
}

/// The plugin's credentials.
#[derive(Debug, PartialEq)]
pub struct Config {
    pub api_key: String,
    /// Sent as `x-bland-org-id` when not empty.
    pub org_id: String,
}

/// What `configure` makes of the credentials JSON object, or the message it
/// reports.
pub open spec fn configure_outcome(creds: Result<Map<Seq<char>, Seq<char>>, Seq<char>>) -> Result<(Seq<char>, Seq<char>), Seq<char>> {
    match creds {
        Err(e) => Err(tagged("bland"@, "invalid credentials JSON: "@ + e)),
        Ok(c) => if map_credential(c, "api_key"@).len() == 0 {
            Err("bland: api_key is required"@)
        } else {
            Ok((map_credential(c, "api_key"@), map_credential(c, "org_id"@)))
        },
    }
}

/// `configure`: the API key is required, the organization is optional.
/// `input` is the credentials JSON object as the host hands it.
pub fn configure(input: &[u8]) -> (r: Result<Config, String>)
    ensures
        configure_outcome(serde_json_credentials(input@)) == match r {
            Ok(c) => Ok((c.api_key@, c.org_id@)),
            Err(e) => Err(e@),
        },
{
    let creds = match read_credentials(input) {
        Ok(c) => c,
        Err(e) => {
            let mut m = owned("invalid credentials JSON: ");
            push_str(&mut m, e.as_str());
            return Err(tagged_message("bland", m.as_str()));
        },
    };
    let api_key = credential(&creds, "api_key");
    if api_key.as_str().is_empty() {
        return Err(owned("bland: api_key is required"));
    }
    Ok(Config { api_key, org_id: credential(&creds, "org_id") })
}

/// `with_config`: the configuration, or an error before `configure` succeeded.
pub fn with_config(config: &Option<Config>) -> (r: Result<&Config, String>)
    ensures
        match config {
            Some(c) => r == Ok::<&Config, String>(c),
            None => r matches Err(e) && e@ == "bland: not configured"@,
        },
{
    match config {
        Some(c) => Ok(c),
        None => Err(owned("bland: not configured")),
    }
}

/// The HTTP request for an API request: the API key as `Authorization`,
/// JSON accepted, the organization when set, and a JSON content type when
/// there is a body.
pub open spec fn http_request_of(api_key: Seq<char>, org_id: Seq<char>, q: RequestV) -> HttpCallV {
    let h = Map::empty().insert("Authorization"@, api_key).insert("Accept"@, "application/json"@);
    let h = if org_id.len() > 0 {
        h.insert("x-bland-org-id"@, org_id)
    } else {
        h
    };
    let h = if q.body is Some {
        h.insert("Content-Type"@, "application/json"@)
    } else {
        h
    };
    HttpCallV { method: q.method, url: api_base() + q.path, headers: h, body: json_body(q.body) }
}

/// The request half of `do_request`.
pub fn prepare_request(config: &Config, q: ApiRequest) -> (r: HttpCall)
    ensures
        r.view() == http_request_of(config.api_key@, config.org_id@, q.view()),
{
    let mut headers: Vec<(String, String)> = Vec::new();
    add_header(&mut headers, "Authorization", config.api_key.clone());
    add_header(&mut headers, "Accept", owned("application/json"));
    if !config.org_id.as_str().is_empty() {
        add_header(&mut headers, "x-bland-org-id", config.org_id.clone());
    }
    if q.body.is_some() {
        add_header(&mut headers, "Content-Type", owned("application/json"));
    }
    let mut url = owned("https://api.bland.ai/v1");
    push_str(&mut url, q.path.as_str());
    HttpCall { method: q.method, url, headers, body: json_http_body(q.body) }
}

/// The reply half of `do_request`: what the tool reports for the status and
/// body of the reply.
pub fn finish_request(status: i32, body: &str) -> (r: Result<String, String>)
    ensures
        crate::request::outcome_view(r) == reply_outcome("bland"@, status, body@),
{
    reply("bland", status, body)
}

/// `encode_component`: percent-encoding of a path segment or query value.
pub fn encode_component(s: &str) -> (r: String)
    ensures
        r@ == escaped(s@),
{
    crate::encoding::encode_component(s)
}

/// `path_escape`.
pub fn path_escape(s: &str) -> (r: String)
    ensures
        r@ == escaped(s@),
{
    encode_component(s)
}

/// `query_escape`.
pub fn query_escape(s: &str) -> (r: String)
    ensures
        r@ == escaped(s@),
{
    encode_component(s)
}

/// The request that checks the plugin's health.
pub open spec fn health_probe() -> RequestV {
    bare(Method::Get, "/voices"@)
}

/// `healthy`: the request to make; the plugin is healthy when it succeeds.
pub fn health_check() -> (r: ApiRequest)
    ensures
        r.view() == health_probe(),
{
    crate::request::request(Method::Get, owned("/voices"))
}

/// A request goes to the API base joined with its path, with its own method
/// and its body as JSON (none when it has none), the API key as
/// `Authorization`, JSON accepted, the organization as `x-bland-org-id`
/// exactly when one is configured, and a JSON content type exactly when there
/// is a body.
pub proof fn lemma_http_request_carries_the_request(api_key: Seq<char>, org_id: Seq<char>, q: RequestV)
    ensures
        http_request_of(api_key, org_id, q).method == q.method,
        http_request_of(api_key, org_id, q).url == "https://api.bland.ai/v1"@ + q.path,
        q.body matches Some(b) ==> http_request_of(api_key, org_id, q).body == HttpBodyV::Json(b),
        q.body is None ==> http_request_of(api_key, org_id, q).body == HttpBodyV::Empty,
        http_request_of(api_key, org_id, q).headers["Authorization"@] == api_key,
        http_request_of(api_key, org_id, q).headers["Accept"@] == "application/json"@,
        http_request_of(api_key, org_id, q).headers.contains_key("x-bland-org-id"@) <==> org_id.len() > 0,
        org_id.len() > 0 ==> http_request_of(api_key, org_id, q).headers["x-bland-org-id"@] == org_id,
        http_request_of(api_key, org_id, q).headers.contains_key("Content-Type"@) <==> q.body is Some,
        q.body is Some ==> http_request_of(api_key, org_id, q).headers["Content-Type"@] == "application/json"@,
{
    reveal_strlit("Authorization");
    assert("Authorization"@.len() == 13);
    reveal_strlit("Accept");
    assert("Accept"@.len() == 6);
    reveal_strlit("x-bland-org-id");
    assert("x-bland-org-id"@.len() == 14);
    reveal_strlit("Content-Type");
    assert("Content-Type"@.len() == 12);
}

/// The credentials need an API key; the organization is optional. A
/// credentials input that is not a JSON object of strings is reported.
pub proof fn lemma_configure_credentials(creds: Result<Map<Seq<char>, Seq<char>>, Seq<char>>)
    ensures
        creds matches Err(e) ==> configure_outcome(creds) == Err::<(Seq<char>, Seq<char>), Seq<char>>(
            "bland: invalid credentials JSON: "@ + e,
        ),
        creds matches Ok(c) ==> (configure_outcome(creds) is Ok <==> c.contains_key("api_key"@) && c["api_key"@].len() > 0),
        creds matches Ok(c) ==> (configure_outcome(creds) matches Ok((k, o)) ==> k == c["api_key"@] && o == (if c.contains_key(
            "org_id"@,
        ) {
            c["org_id"@]
        } else {
            Seq::empty()
        })),
{
    if creds is Err {
        let e = creds->Err_0;
        assert(tagged("bland"@, "invalid credentials JSON: "@ + e) =~= "bland: invalid credentials JSON: "@ + e) by {
            reveal_strlit("bland");
            reveal_strlit(": ");
            reveal_strlit("bland: ");
            reveal_strlit("invalid credentials JSON: ");
            reveal_strlit("bland: invalid credentials JSON: ");
            assert("bland: invalid credentials JSON: "@ =~= "bland"@ + ": "@ + "invalid credentials JSON: "@);
        }
    }
}

/// The plan of the tool named `name`, if the plugin has one by that name.
pub open spec fn handler_plan(name: Seq<char>, a: Seq<ArgEntryV>) -> Option<Result<RequestV, Seq<char>>> {
    if name == "bland_list_calls"@ {
        Some(handlers::list_calls_plan(a))
    } else if name == "bland_list_active_calls"@ {
        Some(handlers::list_active_calls_plan(a))
    } else if name == "bland_get_call"@ {
        Some(handlers::get_call_plan(a))
    } else if name == "bland_send_call"@ {
        Some(handlers::send_call_plan(a))
    } else if name == "bland_stop_call"@ {
        Some(handlers::stop_call_plan(a))
    } else if name == "bland_analyze_call"@ {
        Some(handlers::analyze_call_plan(a))
    } else if name == "bland_list_voices"@ {
        Some(handlers::list_voices_plan(a))
    } else if name == "bland_get_voice"@ {
        Some(handlers::get_voice_plan(a))
    } else if name == "bland_list_pathways"@ {
        Some(handlers::list_pathways_plan(a))
    } else if name == "bland_get_pathway"@ {
        Some(handlers::get_pathway_plan(a))
    } else if name == "bland_list_numbers"@ {
        Some(handlers::list_numbers_plan(a))
    } else if name == "bland_get_number"@ {
        Some(handlers::get_number_plan(a))
    } else if name == "bland_list_knowledge_bases"@ {
        Some(handlers::list_knowledge_bases_plan(a))
    } else if name == "bland_get_knowledge_base"@ {
        Some(handlers::get_knowledge_base_plan(a))
    } else if name == "bland_get_me"@ {
        Some(handlers::get_me_plan(a))
    } else if name == "bland_create_org"@ {
        Some(handlers::create_org_plan(a))
    } else if name == "bland_get_org"@ {
        Some(handlers::get_org_plan(a))
    } else if name == "bland_delete_org"@ {
        Some(handlers::delete_org_plan(a))
    } else if name == "bland_update_org_properties"@ {
        Some(handlers::update_org_properties_plan(a))
    } else if name == "bland_list_org_members"@ {
        Some(handlers::list_org_members_plan(a))
    } else if name == "bland_update_org_members"@ {
        Some(handlers::update_org_members_plan(a))
    } else if name == "bland_update_org_member_permissions"@ {
        Some(handlers::update_org_member_permissions_plan(a))
    } else if name == "bland_list_my_org_memberships"@ {
        Some(handlers::list_my_org_memberships_plan(a))
    } else if name == "bland_leave_org"@ {
        Some(handlers::leave_org_plan(a))
    } else if name == "bland_get_org_billing"@ {
        Some(handlers::get_org_billing_plan(a))
    } else if name == "bland_get_org_billing_refill"@ {
        Some(handlers::get_org_billing_refill_plan(a))
    } else if name == "bland_get_org_current_version"@ {
        Some(handlers::get_org_current_version_plan(a))
    } else if name == "bland_list_org_versions"@ {
        Some(handlers::list_org_versions_plan(a))
    } else if name == "bland_update_org_version"@ {
        Some(handlers::update_org_version_plan(a))
    } else if name == "bland_list_audit_logs"@ {
        Some(handlers::list_audit_logs_plan(a))
    } else {
        None
    }
}

/// Routes a tool call to its tool, or reports an unknown tool.
pub fn dispatch(tool_name: &str, args: &Args) -> (r: Result<ApiRequest, String>)
    ensures
        plan_view(r) == match handler_plan(tool_name@, args.view()) {
            Some(p) => p,
            None => Err(unknown_tool(tool_name@)),
        },
{
    if str_eq(tool_name, "bland_list_calls") {
        return handlers::list_calls(args);
    }
    if str_eq(tool_name, "bland_list_active_calls") {
        return handlers::list_active_calls(args);
    }
    if str_eq(tool_name, "bland_get_call") {
        return handlers::get_call(args);
    }
    if str_eq(tool_name, "bland_send_call") {
        return handlers::send_call(args);
    }
    if str_eq(tool_name, "bland_stop_call") {
        return handlers::stop_call(args);
    }
    if str_eq(tool_name, "bland_analyze_call") {
        return handlers::analyze_call(args);
    }
    if str_eq(tool_name, "bland_list_voices") {
        return handlers::list_voices(args);
    }
    if str_eq(tool_name, "bland_get_voice") {
        return handlers::get_voice(args);
    }
    if str_eq(tool_name, "bland_list_pathways") {
        return handlers::list_pathways(args);
    }
    if str_eq(tool_name, "bland_get_pathway") {
        return handlers::get_pathway(args);
    }
    if str_eq(tool_name, "bland_list_numbers") {
        return handlers::list_numbers(args);
    }
    if str_eq(tool_name, "bland_get_number") {
        return handlers::get_number(args);
    }
    if str_eq(tool_name, "bland_list_knowledge_bases") {
        return handlers::list_knowledge_bases(args);
    }
    if str_eq(tool_name, "bland_get_knowledge_base") {
        return handlers::get_knowledge_base(args);
    }
    if str_eq(tool_name, "bland_get_me") {
        return handlers::get_me(args);
    }
    if str_eq(tool_name, "bland_create_org") {
        return handlers::create_org(args);
    }
    if str_eq(tool_name, "bland_get_org") {
        return handlers::get_org(args);
    }
    if str_eq(tool_name, "bland_delete_org") {
        return handlers::delete_org(args);
    }
    if str_eq(tool_name, "bland_update_org_properties") {
        return handlers::update_org_properties(args);
    }
    if str_eq(tool_name, "bland_list_org_members") {
        return handlers::list_org_members(args);
    }
    if str_eq(tool_name, "bland_update_org_members") {
        return handlers::update_org_members(args);
    }
    if str_eq(tool_name, "bland_update_org_member_permissions") {
        return handlers::update_org_member_permissions(args);
    }
    if str_eq(tool_name, "bland_list_my_org_memberships") {
        return handlers::list_my_org_memberships(args);
    }
    if str_eq(tool_name, "bland_leave_org") {
        return handlers::leave_org(args);
    }
    if str_eq(tool_name, "bland_get_org_billing") {
        return handlers::get_org_billing(args);
    }
    if str_eq(tool_name, "bland_get_org_billing_refill") {
        return handlers::get_org_billing_refill(args);
    }
    if str_eq(tool_name, "bland_get_org_current_version") {
        return handlers::get_org_current_version(args);
    }
    if str_eq(tool_name, "bland_list_org_versions") {
        return handlers::list_org_versions(args);
    }
    if str_eq(tool_name, "bland_update_org_version") {
        return handlers::update_org_version(args);
    }
    if str_eq(tool_name, "bland_list_audit_logs") {
        return handlers::list_audit_logs(args);
    }
    Err(unknown_tool_error(tool_name))
}

/// A name that no listed tool has is reported as an unknown tool.
pub proof fn lemma_unlisted_tool_unknown(name: Seq<char>, a: Seq<ArgEntryV>)
    requires
        forall|i: int| 0 <= i < tools::tool_table().len() ==> #[trigger] tools::tool_table()[i].name != name,
    ensures
        handler_plan(name, a) is None,
{
    assert(tools::tool_table()[0].name == "bland_list_calls"@);
    assert(tools::tool_table()[1].name == "bland_list_active_calls"@);
    assert(tools::tool_table()[2].name == "bland_get_call"@);
    assert(tools::tool_table()[3].name == "bland_send_call"@);
    assert(tools::tool_table()[4].name == "bland_stop_call"@);
    assert(tools::tool_table()[5].name == "bland_analyze_call"@);
    assert(tools::tool_table()[6].name == "bland_list_voices"@);
    assert(tools::tool_table()[7].name == "bland_get_voice"@);
    assert(tools::tool_table()[8].name == "bland_list_pathways"@);
    assert(tools::tool_table()[9].name == "bland_get_pathway"@);
    assert(tools::tool_table()[10].name == "bland_list_numbers"@);
    assert(tools::tool_table()[11].name == "bland_get_number"@);
    assert(tools::tool_table()[12].name == "bland_list_knowledge_bases"@);
    assert(tools::tool_table()[13].name == "bland_get_knowledge_base"@);
    assert(tools::tool_table()[14].name == "bland_get_me"@);
    assert(tools::tool_table()[15].name == "bland_create_org"@);
    assert(tools::tool_table()[16].name == "bland_get_org"@);
    assert(tools::tool_table()[17].name == "bland_delete_org"@);
    assert(tools::tool_table()[18].name == "bland_update_org_properties"@);
    assert(tools::tool_table()[19].name == "bland_list_org_members"@);
    assert(tools::tool_table()[20].name == "bland_update_org_members"@);
    assert(tools::tool_table()[21].name == "bland_update_org_member_permissions"@);
    assert(tools::tool_table()[22].name == "bland_list_my_org_memberships"@);
    assert(tools::tool_table()[23].name == "bland_leave_org"@);
    assert(tools::tool_table()[24].name == "bland_get_org_billing"@);
    assert(tools::tool_table()[25].name == "bland_get_org_billing_refill"@);
    assert(tools::tool_table()[26].name == "bland_get_org_current_version"@);
    assert(tools::tool_table()[27].name == "bland_list_org_versions"@);
    assert(tools::tool_table()[28].name == "bland_update_org_version"@);
    assert(tools::tool_table()[29].name == "bland_list_audit_logs"@);
}

/// Each tool name is routed to its own tool: the tool named `bland_x` runs
/// the tool `x`, and no other.
pub proof fn lemma_dispatch_routes_by_name(a: Seq<ArgEntryV>)
    ensures
        handler_plan("bland_list_calls"@, a) == Some(handlers::list_calls_plan(a)),
        handler_plan("bland_list_active_calls"@, a) == Some(handlers::list_active_calls_plan(a)),
        handler_plan("bland_get_call"@, a) == Some(handlers::get_call_plan(a)),
        handler_plan("bland_send_call"@, a) == Some(handlers::send_call_plan(a)),
        handler_plan("bland_stop_call"@, a) == Some(handlers::stop_call_plan(a)),
        handler_plan("bland_analyze_call"@, a) == Some(handlers::analyze_call_plan(a)),
        handler_plan("bland_list_voices"@, a) == Some(handlers::list_voices_plan(a)),
        handler_plan("bland_get_voice"@, a) == Some(handlers::get_voice_plan(a)),
        handler_plan("bland_list_pathways"@, a) == Some(handlers::list_pathways_plan(a)),
        handler_plan("bland_get_pathway"@, a) == Some(handlers::get_pathway_plan(a)),
        handler_plan("bland_list_numbers"@, a) == Some(handlers::list_numbers_plan(a)),
        handler_plan("bland_get_number"@, a) == Some(handlers::get_number_plan(a)),
        handler_plan("bland_list_knowledge_bases"@, a) == Some(handlers::list_knowledge_bases_plan(a)),
        handler_plan("bland_get_knowledge_base"@, a) == Some(handlers::get_knowledge_base_plan(a)),
        handler_plan("bland_get_me"@, a) == Some(handlers::get_me_plan(a)),
        handler_plan("bland_create_org"@, a) == Some(handlers::create_org_plan(a)),
        handler_plan("bland_get_org"@, a) == Some(handlers::get_org_plan(a)),
        handler_plan("bland_delete_org"@, a) == Some(handlers::delete_org_plan(a)),
        handler_plan("bland_update_org_properties"@, a) == Some(handlers::update_org_properties_plan(a)),
        handler_plan("bland_list_org_members"@, a) == Some(handlers::list_org_members_plan(a)),
        handler_plan("bland_update_org_members"@, a) == Some(handlers::update_org_members_plan(a)),
        handler_plan("bland_update_org_member_permissions"@, a) == Some(handlers::update_org_member_permissions_plan(a)),
        handler_plan("bland_list_my_org_memberships"@, a) == Some(handlers::list_my_org_memberships_plan(a)),
        handler_plan("bland_leave_org"@, a) == Some(handlers::leave_org_plan(a)),
        handler_plan("bland_get_org_billing"@, a) == Some(handlers::get_org_billing_plan(a)),
        handler_plan("bland_get_org_billing_refill"@, a) == Some(handlers::get_org_billing_refill_plan(a)),
        handler_plan("bland_get_org_current_version"@, a) == Some(handlers::get_org_current_version_plan(a)),
        handler_plan("bland_list_org_versions"@, a) == Some(handlers::list_org_versions_plan(a)),
        handler_plan("bland_update_org_version"@, a) == Some(handlers::update_org_version_plan(a)),
        handler_plan("bland_list_audit_logs"@, a) == Some(handlers::list_audit_logs_plan(a)),
{
    reveal_strlit("bland_list_calls");
    assert("bland_list_calls"@.len() == 16);
    assert("bland_list_calls"@[6] == 'l');
    reveal_strlit("bland_list_active_calls");
    assert("bland_list_active_calls"@.len() == 23);
    assert("bland_list_active_calls"@[11] == 'a');
    reveal_strlit("bland_get_call");
    assert("bland_get_call"@.len() == 14);
    reveal_strlit("bland_send_call");
    assert("bland_send_call"@.len() == 15);
    assert("bland_send_call"@[6] == 's');
    assert("bland_send_call"@[7] == 'e');
    reveal_strlit("bland_stop_call");
    assert("bland_stop_call"@.len() == 15);
    assert("bland_stop_call"@[6] == 's');
    assert("bland_stop_call"@[7] == 't');
    reveal_strlit("bland_analyze_call");
    assert("bland_analyze_call"@.len() == 18);
    assert("bland_analyze_call"@[6] == 'a');
    reveal_strlit("bland_list_voices");
    assert("bland_list_voices"@.len() == 17);
    assert("bland_list_voices"@[6] == 'l');
    reveal_strlit("bland_get_voice");
    assert("bland_get_voice"@.len() == 15);
    assert("bland_get_voice"@[6] == 'g');
    reveal_strlit("bland_list_pathways");
    assert("bland_list_pathways"@.len() == 19);
    reveal_strlit("bland_get_pathway");
    assert("bland_get_pathway"@.len() == 17);
    assert("bland_get_pathway"@[6] == 'g');
    reveal_strlit("bland_list_numbers");
    assert("bland_list_numbers"@.len() == 18);
    assert("bland_list_numbers"@[6] == 'l');
    reveal_strlit("bland_get_number");
    assert("bland_get_number"@.len() == 16);
    assert("bland_get_number"@[6] == 'g');
    reveal_strlit("bland_list_knowledge_bases");
    assert("bland_list_knowledge_bases"@.len() == 26);
    reveal_strlit("bland_get_knowledge_base");
    assert("bland_get_knowledge_base"@.len() == 24);
    assert("bland_get_knowledge_base"@[6] == 'g');
    reveal_strlit("bland_get_me");
    assert("bland_get_me"@.len() == 12);
    reveal_strlit("bland_create_org");
    assert("bland_create_org"@.len() == 16);
    assert("bland_create_org"@[6] == 'c');
    reveal_strlit("bland_get_org");
    assert("bland_get_org"@.len() == 13);
    reveal_strlit("bland_delete_org");
    assert("bland_delete_org"@.len() == 16);
    assert("bland_delete_org"@[6] == 'd');
    reveal_strlit("bland_update_org_properties");
    assert("bland_update_org_properties"@.len() == 27);
    reveal_strlit("bland_list_org_members");
    assert("bland_list_org_members"@.len() == 22);
    reveal_strlit("bland_update_org_members");
    assert("bland_update_org_members"@.len() == 24);
    assert("bland_update_org_members"@[6] == 'u');
    assert("bland_update_org_members"@[17] == 'm');
    reveal_strlit("bland_update_org_member_permissions");
    assert("bland_update_org_member_permissions"@.len() == 35);
    reveal_strlit("bland_list_my_org_memberships");
    assert("bland_list_my_org_memberships"@.len() == 29);
    assert("bland_list_my_org_memberships"@[6] == 'l');
    reveal_strlit("bland_leave_org");
    assert("bland_leave_org"@.len() == 15);
    assert("bland_leave_org"@[6] == 'l');
    reveal_strlit("bland_get_org_billing");
    assert("bland_get_org_billing"@.len() == 21);
    assert("bland_get_org_billing"@[6] == 'g');
    reveal_strlit("bland_get_org_billing_refill");
    assert("bland_get_org_billing_refill"@.len() == 28);
    reveal_strlit("bland_get_org_current_version");
    assert("bland_get_org_current_version"@.len() == 29);
    assert("bland_get_org_current_version"@[6] == 'g');
    reveal_strlit("bland_list_org_versions");
    assert("bland_list_org_versions"@.len() == 23);
    assert("bland_list_org_versions"@[11] == 'o');
    reveal_strlit("bland_update_org_version");
    assert("bland_update_org_version"@.len() == 24);
    assert("bland_update_org_version"@[6] == 'u');
    assert("bland_update_org_version"@[17] == 'v');
    reveal_strlit("bland_list_audit_logs");
    assert("bland_list_audit_logs"@.len() == 21);
    assert("bland_list_audit_logs"@[6] == 'l');
}

/// Every tool that the plugin lists is routed to a tool, not reported as
/// unknown.
pub proof fn lemma_dispatch_covers_every_tool(a: Seq<ArgEntryV>)
    ensures
        forall|i: int|
            0 <= i < tools::tool_table().len() ==> handler_plan(
                #[trigger] tools::tool_table()[i].name,
                a,
            ) is Some,
{
    assert forall|i: int| 0 <= i < tools::tool_table().len() implies handler_plan(
        #[trigger] tools::tool_table()[i].name,
        a,
    ) is Some by {
        if i == 0 {
            assert(tools::tool_table()[i].name == "bland_list_calls"@);
        } else if i == 1 {
            assert(tools::tool_table()[i].name == "bland_list_active_calls"@);
        } else if i == 2 {
            assert(tools::tool_table()[i].name == "bland_get_call"@);
        } else if i == 3 {
            assert(tools::tool_table()[i].name == "bland_send_call"@);
        } else if i == 4 {
            assert(tools::tool_table()[i].name == "bland_stop_call"@);
        } else if i == 5 {
            assert(tools::tool_table()[i].name == "bland_analyze_call"@);
        } else if i == 6 {
            assert(tools::tool_table()[i].name == "bland_list_voices"@);
        } else if i == 7 {
            assert(tools::tool_table()[i].name == "bland_get_voice"@);
        } else if i == 8 {
            assert(tools::tool_table()[i].name == "bland_list_pathways"@);
        } else if i == 9 {
            assert(tools::tool_table()[i].name == "bland_get_pathway"@);
        } else if i == 10 {
            assert(tools::tool_table()[i].name == "bland_list_numbers"@);
        } else if i == 11 {
            assert(tools::tool_table()[i].name == "bland_get_number"@);
        } else if i == 12 {
            assert(tools::tool_table()[i].name == "bland_list_knowledge_bases"@);
        } else if i == 13 {
            assert(tools::tool_table()[i].name == "bland_get_knowledge_base"@);
        } else if i == 14 {
            assert(tools::tool_table()[i].name == "bland_get_me"@);
        } else if i == 15 {
            assert(tools::tool_table()[i].name == "bland_create_org"@);
        } else if i == 16 {
            assert(tools::tool_table()[i].name == "bland_get_org"@);
        } else if i == 17 {
            assert(tools::tool_table()[i].name == "bland_delete_org"@);
        } else if i == 18 {
            assert(tools::tool_table()[i].name == "bland_update_org_properties"@);
        } else if i == 19 {
            assert(tools::tool_table()[i].name == "bland_list_org_members"@);
        } else if i == 20 {
            assert(tools::tool_table()[i].name == "bland_update_org_members"@);
        } else if i == 21 {
            assert(tools::tool_table()[i].name == "bland_update_org_member_permissions"@);
        } else if i == 22 {
            assert(tools::tool_table()[i].name == "bland_list_my_org_memberships"@);
        } else if i == 23 {
            assert(tools::tool_table()[i].name == "bland_leave_org"@);
        } else if i == 24 {
            assert(tools::tool_table()[i].name == "bland_get_org_billing"@);
        } else if i == 25 {
            assert(tools::tool_table()[i].name == "bland_get_org_billing_refill"@);
        } else if i == 26 {
            assert(tools::tool_table()[i].name == "bland_get_org_current_version"@);
        } else if i == 27 {
            assert(tools::tool_table()[i].name == "bland_list_org_versions"@);
        } else if i == 28 {
            assert(tools::tool_table()[i].name == "bland_update_org_version"@);
        } else if i == 29 {
            assert(tools::tool_table()[i].name == "bland_list_audit_logs"@);
        }
    }
}

/// The compaction specs: for each tool whose replies may be shortened, the
/// field paths worth keeping.
pub open spec fn compact_table() -> Seq<(Seq<char>, Seq<Seq<char>>)> {
    seq![
        (
            "bland_list_calls"@,
            seq![
                "count"@,
                "total_count"@,
                "calls[].call_id"@,
                "calls[].created_at"@,
                "calls[].to"@,
                "calls[].from"@,
                "calls[].call_length"@,
                "calls[].completed"@,
                "calls[].queue_status"@,
                "calls[].status"@,
                "calls[].error_message"@,
                "calls[].answered_by"@,
                "calls[].inbound"@,
                "calls[].batch_id"@,
            ],
        ),
        (
            "bland_list_active_calls"@,
            seq![
                "calls[].call_id"@,
                "calls[].phone_number"@,
                "calls[].to"@,
                "calls[].from"@,
                "calls[].status"@,
                "calls[].created_at"@,
                "calls[].started_at"@,
            ],
        ),
        (
            "bland_get_call"@,
            seq![
                "call_id"@,
                "created_at"@,
                "to"@,
                "from"@,
                "call_length"@,
                "status"@,
                "completed"@,
                "answered_by"@,
                "summary"@,
                "concatenated_transcript"@,
                "transcripts[].created_at"@,
                "transcripts[].user"@,
                "transcripts[].text"@,
                "analysis"@,
                "variables"@,
                "metadata"@,
            ],
        ),
        (
            "bland_list_voices"@,
            seq![
                "voices[].id"@,
                "voices[].name"@,
                "voices[].description"@,
                "voices[].public"@,
                "voices[].tags"@,
                "voices[].total_ratings"@,
                "voices[].average_rating"@,
            ],
        ),
        (
            "bland_get_voice"@,
            seq![
                "id"@,
                "name"@,
                "description"@,
                "public"@,
                "tags"@,
                "total_ratings"@,
                "average_rating"@,
                "language"@,
            ],
        ),
        (
            "bland_list_pathways"@,
            seq![
                "pathways[].id"@,
                "pathways[].pathway_id"@,
                "pathways[].name"@,
                "pathways[].description"@,
                "pathways[].created_at"@,
                "pathways[].updated_at"@,
            ],
        ),
        (
            "bland_get_pathway"@,
            seq![
                "id"@,
                "pathway_id"@,
                "name"@,
                "description"@,
                "created_at"@,
                "updated_at"@,
                "nodes"@,
                "edges"@,
            ],
        ),
        (
            "bland_list_numbers"@,
            seq![
                "numbers[].phone_number"@,
                "numbers[].label"@,
                "numbers[].inbound_agent"@,
                "numbers[].created_at"@,
            ],
        ),
        (
            "bland_get_number"@,
            seq![
                "phone_number"@,
                "label"@,
                "inbound_agent"@,
                "webhook"@,
                "created_at"@,
            ],
        ),
        (
            "bland_list_knowledge_bases"@,
            seq![
                "knowledge_bases[].id"@,
                "knowledge_bases[].name"@,
                "knowledge_bases[].description"@,
                "knowledge_bases[].created_at"@,
                "knowledge_bases[].updated_at"@,
                "knowledge_bases[].status"@,
            ],
        ),
        (
            "bland_get_knowledge_base"@,
            seq![
                "id"@,
                "name"@,
                "description"@,
                "created_at"@,
                "updated_at"@,
                "status"@,
                "documents"@,
            ],
        ),
        (
            "bland_get_me"@,
            seq![
                "status"@,
                "billing.current_balance"@,
                "billing.refill_to"@,
                "total_calls"@,
            ],
        ),
        (
            "bland_get_org"@,
            seq![
                "data.id"@,
                "data.org_slug"@,
                "data.org_display_name"@,
                "data.org_plan"@,
                "data.org_creation_date"@,
                "data.kyc_level"@,
                "data.is_deleted"@,
                "data.is_stripe_overdue"@,
                "data.is_suspended"@,
                "data.org_rate_limit"@,
                "data.org_type"@,
                "data.entitlements"@,
                "data.preferences"@,
            ],
        ),
        (
            "bland_list_org_members"@,
            seq![
                "data[].org_id"@,
                "data[].user_id"@,
                "data[].permissions"@,
                "data[].is_owner"@,
                "data[].is_org_creator"@,
                "data[].joined_at"@,
                "data[].first_name"@,
                "data[].last_name"@,
                "data[].member_email"@,
                "data[].member_phone_number"@,
            ],
        ),
        (
            "bland_update_org_member_permissions"@,
            seq![
                "data.newPermissions"@,
                "errors"@,
            ],
        ),
        (
            "bland_list_my_org_memberships"@,
            seq![
                "data[].org_id"@,
                "data[].org_slug"@,
                "data[].org_display_name"@,
                "data[].permissions"@,
                "data[].is_owner"@,
                "data[].is_org_creator"@,
                "data[].joined_at"@,
            ],
        ),
        (
            "bland_get_org_billing"@,
            seq![
                "data.current_balance"@,
                "data.refill_amount"@,
                "data.refill_at"@,
                "errors"@,
            ],
        ),
        (
            "bland_get_org_billing_refill"@,
            seq![
                "data"@,
                "errors"@,
            ],
        ),
        (
            "bland_get_org_current_version"@,
            seq![
                "data.version"@,
                "errors"@,
            ],
        ),
        (
            "bland_list_org_versions"@,
            seq![
                "data.versions[].id"@,
                "data.versions[].friendly_name"@,
                "data.versions[].created_at"@,
                "data.versions[].git_sha"@,
                "data.versions[].tags"@,
                "data.versions[].currently_supported"@,
                "data.versions[].recommended_upgrade_to"@,
                "data.versions[].service"@,
                "data.versions[].placement_group"@,
            ],
        ),
        (
            "bland_list_audit_logs"@,
            seq![
                "data.events[].id"@,
                "data.events[].org_id"@,
                "data.events[].actor_id"@,
                "data.events[].event_type"@,
                "data.events[].resource_type"@,
                "data.events[].resource_id"@,
                "data.events[].metadata"@,
                "data.events[].created_at"@,
                "data.total"@,
                "data.total_pages"@,
                "data.current_page"@,
                "data.page_size"@,
            ],
        ),
    ]
}

/// `compact_spec_map`: the compaction specs, tool by tool.
pub fn compact_spec_map() -> (r: Vec<(String, Vec<String>)>)
    ensures
        specs_view(r@) == compact_table(),
{
    let mut s: Vec<(String, Vec<String>)> = Vec::new();
    let fs: [&str; 14] = [
        "count",
        "total_count",
        "calls[].call_id",
        "calls[].created_at",
        "calls[].to",
        "calls[].from",
        "calls[].call_length",
        "calls[].completed",
        "calls[].queue_status",
        "calls[].status",
        "calls[].error_message",
        "calls[].answered_by",
        "calls[].inbound",
        "calls[].batch_id",
    ];
    let e = compact_entry("bland_list_calls", &fs);
    assert(keys_view(fs@) =~= compact_table()[0].1);
    s.push(e);
    let fs: [&str; 7] = [
        "calls[].call_id",
        "calls[].phone_number",
        "calls[].to",
        "calls[].from",
        "calls[].status",
        "calls[].created_at",
        "calls[].started_at",
    ];
    let e = compact_entry("bland_list_active_calls", &fs);
    assert(keys_view(fs@) =~= compact_table()[1].1);
    s.push(e);
    let fs: [&str; 16] = [
        "call_id",
        "created_at",
        "to",
        "from",
        "call_length",
        "status",
        "completed",
        "answered_by",
        "summary",
        "concatenated_transcript",
        "transcripts[].created_at",
        "transcripts[].user",
        "transcripts[].text",
        "analysis",
        "variables",
        "metadata",
    ];
    let e = compact_entry("bland_get_call", &fs);
    assert(keys_view(fs@) =~= compact_table()[2].1);
    s.push(e);
    let fs: [&str; 7] = [
        "voices[].id",
        "voices[].name",
        "voices[].description",
        "voices[].public",
        "voices[].tags",
        "voices[].total_ratings",
        "voices[].average_rating",
    ];
    let e = compact_entry("bland_list_voices", &fs);
    assert(keys_view(fs@) =~= compact_table()[3].1);
    s.push(e);
    let fs: [&str; 8] = [
        "id",
        "name",
        "description",
        "public",
        "tags",
        "total_ratings",
        "average_rating",
        "language",
    ];
    let e = compact_entry("bland_get_voice", &fs);
    assert(keys_view(fs@) =~= compact_table()[4].1);
    s.push(e);
    let fs: [&str; 6] = [
        "pathways[].id",
        "pathways[].pathway_id",
        "pathways[].name",
        "pathways[].description",
        "pathways[].created_at",
        "pathways[].updated_at",
    ];
    let e = compact_entry("bland_list_pathways", &fs);
    assert(keys_view(fs@) =~= compact_table()[5].1);
    s.push(e);
    let fs: [&str; 8] = [
        "id",
        "pathway_id",
        "name",
        "description",
        "created_at",
        "updated_at",
        "nodes",
        "edges",
    ];
    let e = compact_entry("bland_get_pathway", &fs);
    assert(keys_view(fs@) =~= compact_table()[6].1);
    s.push(e);
    let fs: [&str; 4] = [
        "numbers[].phone_number",
        "numbers[].label",
        "numbers[].inbound_agent",
        "numbers[].created_at",
    ];
    let e = compact_entry("bland_list_numbers", &fs);
    assert(keys_view(fs@) =~= compact_table()[7].1);
    s.push(e);
    let fs: [&str; 5] = [
        "phone_number",
        "label",
        "inbound_agent",
        "webhook",
        "created_at",
    ];
    let e = compact_entry("bland_get_number", &fs);
    assert(keys_view(fs@) =~= compact_table()[8].1);
    s.push(e);
    let fs: [&str; 6] = [
        "knowledge_bases[].id",
        "knowledge_bases[].name",
        "knowledge_bases[].description",
        "knowledge_bases[].created_at",
        "knowledge_bases[].updated_at",
        "knowledge_bases[].status",
    ];
    let e = compact_entry("bland_list_knowledge_bases", &fs);
    assert(keys_view(fs@) =~= compact_table()[9].1);
    s.push(e);
    let fs: [&str; 7] = [
        "id",
        "name",
        "description",
        "created_at",
        "updated_at",
        "status",
        "documents",
    ];
    let e = compact_entry("bland_get_knowledge_base", &fs);
    assert(keys_view(fs@) =~= compact_table()[10].1);
    s.push(e);
    let fs: [&str; 4] = [
        "status",
        "billing.current_balance",
        "billing.refill_to",
        "total_calls",
    ];
    let e = compact_entry("bland_get_me", &fs);
    assert(keys_view(fs@) =~= compact_table()[11].1);
    s.push(e);
    let fs: [&str; 13] = [
        "data.id",
        "data.org_slug",
        "data.org_display_name",
        "data.org_plan",
        "data.org_creation_date",
        "data.kyc_level",
        "data.is_deleted",
        "data.is_stripe_overdue",
        "data.is_suspended",
        "data.org_rate_limit",
        "data.org_type",
        "data.entitlements",
        "data.preferences",
    ];
    let e = compact_entry("bland_get_org", &fs);
    assert(keys_view(fs@) =~= compact_table()[12].1);
    s.push(e);
    let fs: [&str; 10] = [
        "data[].org_id",
        "data[].user_id",
        "data[].permissions",
        "data[].is_owner",
        "data[].is_org_creator",
        "data[].joined_at",
        "data[].first_name",
        "data[].last_name",
        "data[].member_email",
        "data[].member_phone_number",
    ];
    let e = compact_entry("bland_list_org_members", &fs);
    assert(keys_view(fs@) =~= compact_table()[13].1);
    s.push(e);
    let fs: [&str; 2] = [
        "data.newPermissions",
        "errors",
    ];
    let e = compact_entry("bland_update_org_member_permissions", &fs);
    assert(keys_view(fs@) =~= compact_table()[14].1);
    s.push(e);
    let fs: [&str; 7] = [
        "data[].org_id",
        "data[].org_slug",
        "data[].org_display_name",
        "data[].permissions",
        "data[].is_owner",
        "data[].is_org_creator",
        "data[].joined_at",
    ];
    let e = compact_entry("bland_list_my_org_memberships", &fs);
    assert(keys_view(fs@) =~= compact_table()[15].1);
    s.push(e);
    let fs: [&str; 4] = [
        "data.current_balance",
        "data.refill_amount",
        "data.refill_at",
        "errors",
    ];
    let e = compact_entry("bland_get_org_billing", &fs);
    assert(keys_view(fs@) =~= compact_table()[16].1);
    s.push(e);
    let fs: [&str; 2] = [
        "data",
        "errors",
    ];
    let e = compact_entry("bland_get_org_billing_refill", &fs);
    assert(keys_view(fs@) =~= compact_table()[17].1);
    s.push(e);
    let fs: [&str; 2] = [
        "data.version",
        "errors",
    ];
    let e = compact_entry("bland_get_org_current_version", &fs);
    assert(keys_view(fs@) =~= compact_table()[18].1);
    s.push(e);
    let fs: [&str; 9] = [
        "data.versions[].id",
        "data.versions[].friendly_name",
        "data.versions[].created_at",
        "data.versions[].git_sha",
        "data.versions[].tags",
        "data.versions[].currently_supported",
        "data.versions[].recommended_upgrade_to",
        "data.versions[].service",
        "data.versions[].placement_group",
    ];
    let e = compact_entry("bland_list_org_versions", &fs);
    assert(keys_view(fs@) =~= compact_table()[19].1);
    s.push(e);
    let fs: [&str; 12] = [
        "data.events[].id",
        "data.events[].org_id",
        "data.events[].actor_id",
        "data.events[].event_type",
        "data.events[].resource_type",
        "data.events[].resource_id",
        "data.events[].metadata",
        "data.events[].created_at",
        "data.total",
        "data.total_pages",
        "data.current_page",
        "data.page_size",
    ];
    let e = compact_entry("bland_list_audit_logs", &fs);
    assert(keys_view(fs@) =~= compact_table()[20].1);
    s.push(e);
    assert(specs_view(s@) =~= compact_table());
    s
}

/// Every compaction spec is for a tool that the plugin offers.
pub proof fn lemma_compact_specs_name_tools()
    ensures
        forall|i: int|
            0 <= i < compact_table().len() ==> tool_names(tools::tool_table()).contains(
                #[trigger] compact_table()[i].0,
            ),
{
    let names = tool_names(tools::tool_table());
    assert(names[0] == compact_table()[0].0);
    assert(names[1] == compact_table()[1].0);
    assert(names[2] == compact_table()[2].0);
    assert(names[6] == compact_table()[3].0);
    assert(names[7] == compact_table()[4].0);
    assert(names[8] == compact_table()[5].0);
    assert(names[9] == compact_table()[6].0);
    assert(names[10] == compact_table()[7].0);
    assert(names[11] == compact_table()[8].0);
    assert(names[12] == compact_table()[9].0);
    assert(names[13] == compact_table()[10].0);
    assert(names[14] == compact_table()[11].0);
    assert(names[16] == compact_table()[12].0);
    assert(names[19] == compact_table()[13].0);
    assert(names[21] == compact_table()[14].0);
    assert(names[22] == compact_table()[15].0);
    assert(names[24] == compact_table()[16].0);
    assert(names[25] == compact_table()[17].0);
    assert(names[26] == compact_table()[18].0);
    assert(names[27] == compact_table()[19].0);
    assert(names[29] == compact_table()[20].0);
}

/// No tool has two compaction specs.
pub proof fn lemma_compact_specs_distinct()
    ensures
        keys_distinct(spec_tools(compact_table())),
{
    reveal_strlit("bland_list_calls");
    assert("bland_list_calls"@.len() == 16);
    assert("bland_list_calls"@[6] == 'l');
    reveal_strlit("bland_list_active_calls");
    assert("bland_list_active_calls"@.len() == 23);
    assert("bland_list_active_calls"@[11] == 'a');
    reveal_strlit("bland_get_call");
    assert("bland_get_call"@.len() == 14);
    reveal_strlit("bland_list_voices");
    assert("bland_list_voices"@.len() == 17);
    assert("bland_list_voices"@[6] == 'l');
    reveal_strlit("bland_get_voice");
    assert("bland_get_voice"@.len() == 15);
    reveal_strlit("bland_list_pathways");
    assert("bland_list_pathways"@.len() == 19);
    reveal_strlit("bland_get_pathway");
    assert("bland_get_pathway"@.len() == 17);
    assert("bland_get_pathway"@[6] == 'g');
    reveal_strlit("bland_list_numbers");
    assert("bland_list_numbers"@.len() == 18);
    reveal_strlit("bland_get_number");
    assert("bland_get_number"@.len() == 16);
    assert("bland_get_number"@[6] == 'g');
    reveal_strlit("bland_list_knowledge_bases");
    assert("bland_list_knowledge_bases"@.len() == 26);
    reveal_strlit("bland_get_knowledge_base");
    assert("bland_get_knowledge_base"@.len() == 24);
    reveal_strlit("bland_get_me");
    assert("bland_get_me"@.len() == 12);
    reveal_strlit("bland_get_org");
    assert("bland_get_org"@.len() == 13);
    reveal_strlit("bland_list_org_members");
    assert("bland_list_org_members"@.len() == 22);
    reveal_strlit("bland_update_org_member_permissions");
    assert("bland_update_org_member_permissions"@.len() == 35);
    reveal_strlit("bland_list_my_org_memberships");
    assert("bland_list_my_org_memberships"@.len() == 29);
    assert("bland_list_my_org_memberships"@[6] == 'l');
    reveal_strlit("bland_get_org_billing");
    assert("bland_get_org_billing"@.len() == 21);
    assert("bland_get_org_billing"@[6] == 'g');
    reveal_strlit("bland_get_org_billing_refill");
    assert("bland_get_org_billing_refill"@.len() == 28);
    reveal_strlit("bland_get_org_current_version");
    assert("bland_get_org_current_version"@.len() == 29);
    assert("bland_get_org_current_version"@[6] == 'g');
    reveal_strlit("bland_list_org_versions");
    assert("bland_list_org_versions"@.len() == 23);
    assert("bland_list_org_versions"@[11] == 'o');
    reveal_strlit("bland_list_audit_logs");
    assert("bland_list_audit_logs"@.len() == 21);
    assert("bland_list_audit_logs"@[6] == 'l');
    assert(spec_tools(compact_table()) =~= seq!["bland_list_calls"@, "bland_list_active_calls"@, "bland_get_call"@, "bland_list_voices"@, "bland_get_voice"@, "bland_list_pathways"@, "bland_get_pathway"@, "bland_list_numbers"@, "bland_get_number"@, "bland_list_knowledge_bases"@, "bland_get_knowledge_base"@, "bland_get_me"@, "bland_get_org"@, "bland_list_org_members"@, "bland_update_org_member_permissions"@, "bland_list_my_org_memberships"@, "bland_get_org_billing"@, "bland_get_org_billing_refill"@, "bland_get_org_current_version"@, "bland_list_org_versions"@, "bland_list_audit_logs"@]);
}

} // verus!
