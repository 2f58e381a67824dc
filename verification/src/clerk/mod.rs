//! Clerk authentication and identity management: users, sessions,
//! organizations, memberships, invitations, and allow and block lists.
//!
//! A tool call goes through [`dispatch`], which turns the arguments into an
//! [`ApiRequest`] or an error; [`prepare_request`] makes the HTTP request
//! that the host sends; [`finish_request`] turns the reply into the tool's
//! result.
pub mod handlers;
pub mod tools;

use vstd::prelude::*;

use crate::args::{ArgEntryV, Args};
use crate::encoding::escaped;
use crate::request::{
    add_header, bare, credential, plan_view, reply,
    reply_outcome, tagged, tagged_message, unknown_tool, unknown_tool_error, ApiRequest,
    HttpCall, HttpCallV, json_body, json_http_body, Method, RequestV,
};
use crate::text::{owned, push_str, str_eq};
use crate::tool_def::{keys_distinct, spec_tools, compact_entry, specs_view, tool_names};
use crate::request::keys_view;

use crate::json::{read_credentials, serde_json_credentials};
use crate::request::{map_credential, HttpBodyV};

verus! {

/// The base URL of the Clerk Backend API.
pub open spec fn api_base() -> Seq<char> {
    "https://api.clerk.com/v1"@
}

/// The plugin's credentials.
#[derive(Debug, PartialEq)]
pub struct Config {
    /// Sent as a bearer token.
    pub secret_key: String,
}

/// What `configure` makes of the credentials JSON object, or the message it
/// reports.
pub open spec fn configure_outcome(creds: Result<Map<Seq<char>, Seq<char>>, Seq<char>>) -> Result<Seq<char>, Seq<char>> {
    match creds {
        Err(e) => Err(tagged("clerk"@, "invalid credentials JSON: "@ + e)),
        Ok(c) => if map_credential(c, "secret_key"@).len() == 0 {
            Err("clerk: secret_key is required"@)
        } else {
            Ok(map_credential(c, "secret_key"@))
        },
    }
}

/// `configure`: the secret key is required. `input` is the credentials
/// JSON object as the host hands it.
pub fn configure(input: &[u8]) -> (r: Result<Config, String>)
    ensures
        configure_outcome(serde_json_credentials(input@)) == match r {
            Ok(c) => Ok(c.secret_key@),
            Err(e) => Err(e@),
        },
{
    let creds = match read_credentials(input) {
        Ok(c) => c,
        Err(e) => {
            let mut m = owned("invalid credentials JSON: ");
            push_str(&mut m, e.as_str());
            return Err(tagged_message("clerk", m.as_str()));
        },
    };
    let secret_key = credential(&creds, "secret_key");
    if secret_key.as_str().is_empty() {
        return Err(owned("clerk: secret_key is required"));
    }
    Ok(Config { secret_key })
}

/// `with_config`: the configuration, or an error before `configure` succeeded.
pub fn with_config(config: &Option<Config>) -> (r: Result<&Config, String>)
    ensures
        match config {
            Some(c) => r == Ok::<&Config, String>(c),
            None => r matches Err(e) && e@ == "clerk: not configured"@,
        },
{
    match config {
        Some(c) => Ok(c),
        None => Err(owned("clerk: not configured")),
    }
}

/// The HTTP request for an API request: the secret key as a bearer token,
/// JSON accepted, and a JSON content type when there is a body.
pub open spec fn http_request_of(secret_key: Seq<char>, q: RequestV) -> HttpCallV {
    let h = Map::empty().insert("Authorization"@, "Bearer "@ + secret_key).insert(
        "Accept"@,
        "application/json"@,
    );
    let h = if q.body is Some {
        h.insert("Content-Type"@, "application/json"@)
    } else {
        h
    };
    HttpCallV { method: q.method, url: api_base() + q.path, headers: h, body: json_body(q.body) }
}

/// The request half of `do_request`.
pub fn prepare_request(config: &Config, q: ApiRequest) -> (r: HttpCall)
    ensures
        r.view() == http_request_of(config.secret_key@, q.view()),
{
    let mut headers: Vec<(String, String)> = Vec::new();
    let mut auth = owned("Bearer ");
    push_str(&mut auth, config.secret_key.as_str());
    add_header(&mut headers, "Authorization", auth);
    add_header(&mut headers, "Accept", owned("application/json"));
    if q.body.is_some() {
        add_header(&mut headers, "Content-Type", owned("application/json"));
    }
    let mut url = owned("https://api.clerk.com/v1");
    push_str(&mut url, q.path.as_str());
    HttpCall { method: q.method, url, headers, body: json_http_body(q.body) }
}

/// The reply half of `do_request`: what the tool reports for the status and
/// body of the reply.
pub fn finish_request(status: i32, body: &str) -> (r: Result<String, String>)
    ensures
        crate::request::outcome_view(r) == reply_outcome("clerk"@, status, body@),
{
    reply("clerk", status, body)
}

/// `encode_component`: percent-encoding of a path segment or query value.
pub fn encode_component(s: &str) -> (r: String)
    ensures
        r@ == escaped(s@),
{
    crate::encoding::encode_component(s)
}

/// `path_escape`.
pub fn path_escape(s: &str) -> (r: String)
    ensures
        r@ == escaped(s@),
{
    encode_component(s)
}

/// `query_escape`.
pub fn query_escape(s: &str) -> (r: String)
    ensures
        r@ == escaped(s@),
{
    encode_component(s)
}

/// The request that checks the plugin's health: the JSON Web Key Set, the
/// cheapest authenticated read.
pub open spec fn health_probe() -> RequestV {
    bare(Method::Get, "/jwks"@)
}

/// `healthy`: the request to make; the plugin is healthy when it succeeds.
pub fn health_check() -> (r: ApiRequest)
    ensures
        r.view() == health_probe(),
{
    crate::request::request(Method::Get, owned("/jwks"))
}

/// A request goes to the API base joined with its path, with its own method
/// and its body as JSON (none when it has none), the secret key as a bearer
/// token, JSON accepted, and a JSON content type exactly when there is a
/// body.
pub proof fn lemma_http_request_carries_the_request(secret_key: Seq<char>, q: RequestV)
    ensures
        http_request_of(secret_key, q).method == q.method,
        http_request_of(secret_key, q).url == "https://api.clerk.com/v1"@ + q.path,
        q.body matches Some(b) ==> http_request_of(secret_key, q).body == HttpBodyV::Json(b),
        q.body is None ==> http_request_of(secret_key, q).body == HttpBodyV::Empty,
        http_request_of(secret_key, q).headers["Authorization"@] == "Bearer "@ + secret_key,
        http_request_of(secret_key, q).headers["Accept"@] == "application/json"@,
        http_request_of(secret_key, q).headers.contains_key("Content-Type"@) <==> q.body is Some,
        q.body is Some ==> http_request_of(secret_key, q).headers["Content-Type"@] == "application/json"@,
{
    reveal_strlit("Authorization");
    assert("Authorization"@.len() == 13);
    reveal_strlit("Accept");
    assert("Accept"@.len() == 6);
    reveal_strlit("Content-Type");
    assert("Content-Type"@.len() == 12);
}

/// The credentials need a secret key, which is what the plugin keeps.
pub proof fn lemma_configure_credentials(creds: Result<Map<Seq<char>, Seq<char>>, Seq<char>>)
    ensures
        creds is Err ==> configure_outcome(creds) is Err,
        creds matches Ok(c) ==> (configure_outcome(creds) is Ok <==> c.contains_key("secret_key"@) && c["secret_key"@].len() > 0),
        creds matches Ok(c) ==> (configure_outcome(creds) matches Ok(k) ==> k == c["secret_key"@]),
{
}

/// The plan of the tool named `name`, if the plugin has one by that name.
pub open spec fn handler_plan(name: Seq<char>, a: Seq<ArgEntryV>) -> Option<Result<RequestV, Seq<char>>> {
    if name == "clerk_list_users"@ {
        Some(handlers::list_users_plan(a))
    } else if name == "clerk_get_user"@ {
        Some(handlers::get_user_plan(a))
    } else if name == "clerk_create_user"@ {
        Some(handlers::create_user_plan(a))
    } else if name == "clerk_update_user"@ {
        Some(handlers::update_user_plan(a))
    } else if name == "clerk_delete_user"@ {
        Some(handlers::delete_user_plan(a))
    } else if name == "clerk_ban_user"@ {
        Some(handlers::ban_user_plan(a))
    } else if name == "clerk_unban_user"@ {
        Some(handlers::unban_user_plan(a))
    } else if name == "clerk_lock_user"@ {
        Some(handlers::lock_user_plan(a))
    } else if name == "clerk_unlock_user"@ {
        Some(handlers::unlock_user_plan(a))
    } else if name == "clerk_list_user_organization_memberships"@ {
        Some(handlers::list_user_organization_memberships_plan(a))
    } else if name == "clerk_list_sessions"@ {
        Some(handlers::list_sessions_plan(a))
    } else if name == "clerk_get_session"@ {
        Some(handlers::get_session_plan(a))
    } else if name == "clerk_revoke_session"@ {
        Some(handlers::revoke_session_plan(a))
    } else if name == "clerk_list_organizations"@ {
        Some(handlers::list_organizations_plan(a))
    } else if name == "clerk_get_organization"@ {
        Some(handlers::get_organization_plan(a))
    } else if name == "clerk_create_organization"@ {
        Some(handlers::create_organization_plan(a))
    } else if name == "clerk_update_organization"@ {
        Some(handlers::update_organization_plan(a))
    } else if name == "clerk_delete_organization"@ {
        Some(handlers::delete_organization_plan(a))
    } else if name == "clerk_list_organization_memberships"@ {
        Some(handlers::list_organization_memberships_plan(a))
    } else if name == "clerk_create_organization_membership"@ {
        Some(handlers::create_organization_membership_plan(a))
    } else if name == "clerk_update_organization_membership"@ {
        Some(handlers::update_organization_membership_plan(a))
    } else if name == "clerk_delete_organization_membership"@ {
        Some(handlers::delete_organization_membership_plan(a))
    } else if name == "clerk_list_organization_invitations"@ {
        Some(handlers::list_organization_invitations_plan(a))
    } else if name == "clerk_create_organization_invitation"@ {
        Some(handlers::create_organization_invitation_plan(a))
    } else if name == "clerk_revoke_organization_invitation"@ {
        Some(handlers::revoke_organization_invitation_plan(a))
    } else if name == "clerk_list_invitations"@ {
        Some(handlers::list_invitations_plan(a))
    } else if name == "clerk_create_invitation"@ {
        Some(handlers::create_invitation_plan(a))
    } else if name == "clerk_revoke_invitation"@ {
        Some(handlers::revoke_invitation_plan(a))
    } else if name == "clerk_list_allowlist_identifiers"@ {
        Some(handlers::list_allowlist_identifiers_plan(a))
    } else if name == "clerk_create_allowlist_identifier"@ {
        Some(handlers::create_allowlist_identifier_plan(a))
    } else if name == "clerk_delete_allowlist_identifier"@ {
        Some(handlers::delete_allowlist_identifier_plan(a))
    } else if name == "clerk_list_blocklist_identifiers"@ {
        Some(handlers::list_blocklist_identifiers_plan(a))
    } else if name == "clerk_create_blocklist_identifier"@ {
        Some(handlers::create_blocklist_identifier_plan(a))
    } else if name == "clerk_delete_blocklist_identifier"@ {
        Some(handlers::delete_blocklist_identifier_plan(a))
    } else {
        None
    }
}

/// Routes a tool call to its tool, or reports an unknown tool.
pub fn dispatch(tool_name: &str, args: &Args) -> (r: Result<ApiRequest, String>)
    ensures
        plan_view(r) == match handler_plan(tool_name@, args.view()) {
            Some(p) => p,
            None => Err(unknown_tool(tool_name@)),
        },
{
    if str_eq(tool_name, "clerk_list_users") {
        return handlers::list_users(args);
    }
    if str_eq(tool_name, "clerk_get_user") {
        return handlers::get_user(args);
    }
    if str_eq(tool_name, "clerk_create_user") {
        return handlers::create_user(args);
    }
    if str_eq(tool_name, "clerk_update_user") {
        return handlers::update_user(args);
    }
    if str_eq(tool_name, "clerk_delete_user") {
        return handlers::delete_user(args);
    }
    if str_eq(tool_name, "clerk_ban_user") {
        return handlers::ban_user(args);
    }
    if str_eq(tool_name, "clerk_unban_user") {
        return handlers::unban_user(args);
    }
    if str_eq(tool_name, "clerk_lock_user") {
        return handlers::lock_user(args);
    }
    if str_eq(tool_name, "clerk_unlock_user") {
        return handlers::unlock_user(args);
    }
    if str_eq(tool_name, "clerk_list_user_organization_memberships") {
        return handlers::list_user_organization_memberships(args);
    }
    if str_eq(tool_name, "clerk_list_sessions") {
        return handlers::list_sessions(args);
    }
    if str_eq(tool_name, "clerk_get_session") {
        return handlers::get_session(args);
    }
    if str_eq(tool_name, "clerk_revoke_session") {
        return handlers::revoke_session(args);
    }
    if str_eq(tool_name, "clerk_list_organizations") {
        return handlers::list_organizations(args);
    }
    if str_eq(tool_name, "clerk_get_organization") {
        return handlers::get_organization(args);
    }
    if str_eq(tool_name, "clerk_create_organization") {
        return handlers::create_organization(args);
    }
    if str_eq(tool_name, "clerk_update_organization") {
        return handlers::update_organization(args);
    }
    if str_eq(tool_name, "clerk_delete_organization") {
        return handlers::delete_organization(args);
    }
    if str_eq(tool_name, "clerk_list_organization_memberships") {
        return handlers::list_organization_memberships(args);
    }
    if str_eq(tool_name, "clerk_create_organization_membership") {
        return handlers::create_organization_membership(args);
    }
    if str_eq(tool_name, "clerk_update_organization_membership") {
        return handlers::update_organization_membership(args);
    }
    if str_eq(tool_name, "clerk_delete_organization_membership") {
        return handlers::delete_organization_membership(args);
    }
    if str_eq(tool_name, "clerk_list_organization_invitations") {
        return handlers::list_organization_invitations(args);
    }
    if str_eq(tool_name, "clerk_create_organization_invitation") {
        return handlers::create_organization_invitation(args);
    }
    if str_eq(tool_name, "clerk_revoke_organization_invitation") {
        return handlers::revoke_organization_invitation(args);
    }
    if str_eq(tool_name, "clerk_list_invitations") {
        return handlers::list_invitations(args);
    }
    if str_eq(tool_name, "clerk_create_invitation") {
        return handlers::create_invitation(args);
    }
    if str_eq(tool_name, "clerk_revoke_invitation") {
        return handlers::revoke_invitation(args);
    }
    if str_eq(tool_name, "clerk_list_allowlist_identifiers") {
        return handlers::list_allowlist_identifiers(args);
    }
    if str_eq(tool_name, "clerk_create_allowlist_identifier") {
        return handlers::create_allowlist_identifier(args);
    }
    if str_eq(tool_name, "clerk_delete_allowlist_identifier") {
        return handlers::delete_allowlist_identifier(args);
    }
    if str_eq(tool_name, "clerk_list_blocklist_identifiers") {
        return handlers::list_blocklist_identifiers(args);
    }
    if str_eq(tool_name, "clerk_create_blocklist_identifier") {
        return handlers::create_blocklist_identifier(args);
    }
    if str_eq(tool_name, "clerk_delete_blocklist_identifier") {
        return handlers::delete_blocklist_identifier(args);
    }
    Err(unknown_tool_error(tool_name))
}

/// A name that no listed tool has is reported as an unknown tool.
pub proof fn lemma_unlisted_tool_unknown(name: Seq<char>, a: Seq<ArgEntryV>)
    requires
        forall|i: int| 0 <= i < tools::tool_table().len() ==> #[trigger] tools::tool_table()[i].name != name,
    ensures
        handler_plan(name, a) is None,
{
    assert(tools::tool_table()[0].name == "clerk_list_users"@);
    assert(tools::tool_table()[1].name == "clerk_get_user"@);
    assert(tools::tool_table()[2].name == "clerk_create_user"@);
    assert(tools::tool_table()[3].name == "clerk_update_user"@);
    assert(tools::tool_table()[4].name == "clerk_delete_user"@);
    assert(tools::tool_table()[5].name == "clerk_ban_user"@);
    assert(tools::tool_table()[6].name == "clerk_unban_user"@);
    assert(tools::tool_table()[7].name == "clerk_lock_user"@);
    assert(tools::tool_table()[8].name == "clerk_unlock_user"@);
    assert(tools::tool_table()[9].name == "clerk_list_user_organization_memberships"@);
    assert(tools::tool_table()[10].name == "clerk_list_sessions"@);
    assert(tools::tool_table()[11].name == "clerk_get_session"@);
    assert(tools::tool_table()[12].name == "clerk_revoke_session"@);
    assert(tools::tool_table()[13].name == "clerk_list_organizations"@);
    assert(tools::tool_table()[14].name == "clerk_get_organization"@);
    assert(tools::tool_table()[15].name == "clerk_create_organization"@);
    assert(tools::tool_table()[16].name == "clerk_update_organization"@);
    assert(tools::tool_table()[17].name == "clerk_delete_organization"@);
    assert(tools::tool_table()[18].name == "clerk_list_organization_memberships"@);
    assert(tools::tool_table()[19].name == "clerk_create_organization_membership"@);
    assert(tools::tool_table()[20].name == "clerk_update_organization_membership"@);
    assert(tools::tool_table()[21].name == "clerk_delete_organization_membership"@);
    assert(tools::tool_table()[22].name == "clerk_list_organization_invitations"@);
    assert(tools::tool_table()[23].name == "clerk_create_organization_invitation"@);
    assert(tools::tool_table()[24].name == "clerk_revoke_organization_invitation"@);
    assert(tools::tool_table()[25].name == "clerk_list_invitations"@);
    assert(tools::tool_table()[26].name == "clerk_create_invitation"@);
    assert(tools::tool_table()[27].name == "clerk_revoke_invitation"@);
    assert(tools::tool_table()[28].name == "clerk_list_allowlist_identifiers"@);
    assert(tools::tool_table()[29].name == "clerk_create_allowlist_identifier"@);
    assert(tools::tool_table()[30].name == "clerk_delete_allowlist_identifier"@);
    assert(tools::tool_table()[31].name == "clerk_list_blocklist_identifiers"@);
    assert(tools::tool_table()[32].name == "clerk_create_blocklist_identifier"@);
    assert(tools::tool_table()[33].name == "clerk_delete_blocklist_identifier"@);
}

/// Each tool name is routed to its own tool: the tool named `clerk_x` runs
/// the tool `x`, and no other.
pub proof fn lemma_dispatch_routes_by_name(a: Seq<ArgEntryV>)
    ensures
        handler_plan("clerk_list_users"@, a) == Some(handlers::list_users_plan(a)),
        handler_plan("clerk_get_user"@, a) == Some(handlers::get_user_plan(a)),
        handler_plan("clerk_create_user"@, a) == Some(handlers::create_user_plan(a)),
        handler_plan("clerk_update_user"@, a) == Some(handlers::update_user_plan(a)),
        handler_plan("clerk_delete_user"@, a) == Some(handlers::delete_user_plan(a)),
        handler_plan("clerk_ban_user"@, a) == Some(handlers::ban_user_plan(a)),
        handler_plan("clerk_unban_user"@, a) == Some(handlers::unban_user_plan(a)),
        handler_plan("clerk_lock_user"@, a) == Some(handlers::lock_user_plan(a)),
        handler_plan("clerk_unlock_user"@, a) == Some(handlers::unlock_user_plan(a)),
        handler_plan("clerk_list_user_organization_memberships"@, a) == Some(handlers::list_user_organization_memberships_plan(a)),
        handler_plan("clerk_list_sessions"@, a) == Some(handlers::list_sessions_plan(a)),
        handler_plan("clerk_get_session"@, a) == Some(handlers::get_session_plan(a)),
        handler_plan("clerk_revoke_session"@, a) == Some(handlers::revoke_session_plan(a)),
        handler_plan("clerk_list_organizations"@, a) == Some(handlers::list_organizations_plan(a)),
        handler_plan("clerk_get_organization"@, a) == Some(handlers::get_organization_plan(a)),
        handler_plan("clerk_create_organization"@, a) == Some(handlers::create_organization_plan(a)),
        handler_plan("clerk_update_organization"@, a) == Some(handlers::update_organization_plan(a)),
        handler_plan("clerk_delete_organization"@, a) == Some(handlers::delete_organization_plan(a)),
        handler_plan("clerk_list_organization_memberships"@, a) == Some(handlers::list_organization_memberships_plan(a)),
        handler_plan("clerk_create_organization_membership"@, a) == Some(handlers::create_organization_membership_plan(a)),
        handler_plan("clerk_update_organization_membership"@, a) == Some(handlers::update_organization_membership_plan(a)),
        handler_plan("clerk_delete_organization_membership"@, a) == Some(handlers::delete_organization_membership_plan(a)),
        handler_plan("clerk_list_organization_invitations"@, a) == Some(handlers::list_organization_invitations_plan(a)),
        handler_plan("clerk_create_organization_invitation"@, a) == Some(handlers::create_organization_invitation_plan(a)),
        handler_plan("clerk_revoke_organization_invitation"@, a) == Some(handlers::revoke_organization_invitation_plan(a)),
        handler_plan("clerk_list_invitations"@, a) == Some(handlers::list_invitations_plan(a)),
        handler_plan("clerk_create_invitation"@, a) == Some(handlers::create_invitation_plan(a)),
        handler_plan("clerk_revoke_invitation"@, a) == Some(handlers::revoke_invitation_plan(a)),
        handler_plan("clerk_list_allowlist_identifiers"@, a) == Some(handlers::list_allowlist_identifiers_plan(a)),
        handler_plan("clerk_create_allowlist_identifier"@, a) == Some(handlers::create_allowlist_identifier_plan(a)),
        handler_plan("clerk_delete_allowlist_identifier"@, a) == Some(handlers::delete_allowlist_identifier_plan(a)),
        handler_plan("clerk_list_blocklist_identifiers"@, a) == Some(handlers::list_blocklist_identifiers_plan(a)),
        handler_plan("clerk_create_blocklist_identifier"@, a) == Some(handlers::create_blocklist_identifier_plan(a)),
        handler_plan("clerk_delete_blocklist_identifier"@, a) == Some(handlers::delete_blocklist_identifier_plan(a)),
{
    reveal_strlit("clerk_list_users");
    assert("clerk_list_users"@.len() == 16);
    assert("clerk_list_users"@[6] == 'l');
    reveal_strlit("clerk_get_user");
    assert("clerk_get_user"@.len() == 14);
    assert("clerk_get_user"@[6] == 'g');
    reveal_strlit("clerk_create_user");
    assert("clerk_create_user"@.len() == 17);
    assert("clerk_create_user"@[6] == 'c');
    reveal_strlit("clerk_update_user");
    assert("clerk_update_user"@.len() == 17);
    assert("clerk_update_user"@[6] == 'u');
    assert("clerk_update_user"@[7] == 'p');
    reveal_strlit("clerk_delete_user");
    assert("clerk_delete_user"@.len() == 17);
    assert("clerk_delete_user"@[6] == 'd');
    reveal_strlit("clerk_ban_user");
    assert("clerk_ban_user"@.len() == 14);
    assert("clerk_ban_user"@[6] == 'b');
    reveal_strlit("clerk_unban_user");
    assert("clerk_unban_user"@.len() == 16);
    assert("clerk_unban_user"@[6] == 'u');
    reveal_strlit("clerk_lock_user");
    assert("clerk_lock_user"@.len() == 15);
    reveal_strlit("clerk_unlock_user");
    assert("clerk_unlock_user"@.len() == 17);
    assert("clerk_unlock_user"@[6] == 'u');
    assert("clerk_unlock_user"@[7] == 'n');
    reveal_strlit("clerk_list_user_organization_memberships");
    assert("clerk_list_user_organization_memberships"@.len() == 40);
    reveal_strlit("clerk_list_sessions");
    assert("clerk_list_sessions"@.len() == 19);
    reveal_strlit("clerk_get_session");
    assert("clerk_get_session"@.len() == 17);
    assert("clerk_get_session"@[6] == 'g');
    reveal_strlit("clerk_revoke_session");
    assert("clerk_revoke_session"@.len() == 20);
    reveal_strlit("clerk_list_organizations");
    assert("clerk_list_organizations"@.len() == 24);
    reveal_strlit("clerk_get_organization");
    assert("clerk_get_organization"@.len() == 22);
    assert("clerk_get_organization"@[6] == 'g');
    reveal_strlit("clerk_create_organization");
    assert("clerk_create_organization"@.len() == 25);
    assert("clerk_create_organization"@[6] == 'c');
    reveal_strlit("clerk_update_organization");
    assert("clerk_update_organization"@.len() == 25);
    assert("clerk_update_organization"@[6] == 'u');
    reveal_strlit("clerk_delete_organization");
    assert("clerk_delete_organization"@.len() == 25);
    assert("clerk_delete_organization"@[6] == 'd');
    reveal_strlit("clerk_list_organization_memberships");
    assert("clerk_list_organization_memberships"@.len() == 35);
    assert("clerk_list_organization_memberships"@[24] == 'm');
    reveal_strlit("clerk_create_organization_membership");
    assert("clerk_create_organization_membership"@.len() == 36);
    assert("clerk_create_organization_membership"@[6] == 'c');
    assert("clerk_create_organization_membership"@[26] == 'm');
    reveal_strlit("clerk_update_organization_membership");
    assert("clerk_update_organization_membership"@.len() == 36);
    assert("clerk_update_organization_membership"@[6] == 'u');
    reveal_strlit("clerk_delete_organization_membership");
    assert("clerk_delete_organization_membership"@.len() == 36);
    assert("clerk_delete_organization_membership"@[6] == 'd');
    reveal_strlit("clerk_list_organization_invitations");
    assert("clerk_list_organization_invitations"@.len() == 35);
    assert("clerk_list_organization_invitations"@[24] == 'i');
    reveal_strlit("clerk_create_organization_invitation");
    assert("clerk_create_organization_invitation"@.len() == 36);
    assert("clerk_create_organization_invitation"@[6] == 'c');
    assert("clerk_create_organization_invitation"@[26] == 'i');
    reveal_strlit("clerk_revoke_organization_invitation");
    assert("clerk_revoke_organization_invitation"@.len() == 36);
    assert("clerk_revoke_organization_invitation"@[6] == 'r');
    reveal_strlit("clerk_list_invitations");
    assert("clerk_list_invitations"@.len() == 22);
    assert("clerk_list_invitations"@[6] == 'l');
    reveal_strlit("clerk_create_invitation");
    assert("clerk_create_invitation"@.len() == 23);
    assert("clerk_create_invitation"@[6] == 'c');
    reveal_strlit("clerk_revoke_invitation");
    assert("clerk_revoke_invitation"@.len() == 23);
    assert("clerk_revoke_invitation"@[6] == 'r');
    reveal_strlit("clerk_list_allowlist_identifiers");
    assert("clerk_list_allowlist_identifiers"@.len() == 32);
    assert("clerk_list_allowlist_identifiers"@[11] == 'a');
    reveal_strlit("clerk_create_allowlist_identifier");
    assert("clerk_create_allowlist_identifier"@.len() == 33);
    assert("clerk_create_allowlist_identifier"@[6] == 'c');
    assert("clerk_create_allowlist_identifier"@[13] == 'a');
    reveal_strlit("clerk_delete_allowlist_identifier");
    assert("clerk_delete_allowlist_identifier"@.len() == 33);
    assert("clerk_delete_allowlist_identifier"@[6] == 'd');
    assert("clerk_delete_allowlist_identifier"@[13] == 'a');
    reveal_strlit("clerk_list_blocklist_identifiers");
    assert("clerk_list_blocklist_identifiers"@.len() == 32);
    assert("clerk_list_blocklist_identifiers"@[11] == 'b');
    reveal_strlit("clerk_create_blocklist_identifier");
    assert("clerk_create_blocklist_identifier"@.len() == 33);
    assert("clerk_create_blocklist_identifier"@[6] == 'c');
    assert("clerk_create_blocklist_identifier"@[13] == 'b');
    reveal_strlit("clerk_delete_blocklist_identifier");
    assert("clerk_delete_blocklist_identifier"@.len() == 33);
    assert("clerk_delete_blocklist_identifier"@[6] == 'd');
    assert("clerk_delete_blocklist_identifier"@[13] == 'b');
}

/// Every tool that the plugin lists is routed to a tool, not reported as
/// unknown.
pub proof fn lemma_dispatch_covers_every_tool(a: Seq<ArgEntryV>)
    ensures
        forall|i: int|
            0 <= i < tools::tool_table().len() ==> handler_plan(
                #[trigger] tools::tool_table()[i].name,
                a,
            ) is Some,
{
    assert forall|i: int| 0 <= i < tools::tool_table().len() implies handler_plan(
        #[trigger] tools::tool_table()[i].name,
        a,
    ) is Some by {
        if i == 0 {
            assert(tools::tool_table()[i].name == "clerk_list_users"@);
        } else if i == 1 {
            assert(tools::tool_table()[i].name == "clerk_get_user"@);
        } else if i == 2 {
            assert(tools::tool_table()[i].name == "clerk_create_user"@);
        } else if i == 3 {
            assert(tools::tool_table()[i].name == "clerk_update_user"@);
        } else if i == 4 {
            assert(tools::tool_table()[i].name == "clerk_delete_user"@);
        } else if i == 5 {
            assert(tools::tool_table()[i].name == "clerk_ban_user"@);
        } else if i == 6 {
            assert(tools::tool_table()[i].name == "clerk_unban_user"@);
        } else if i == 7 {
            assert(tools::tool_table()[i].name == "clerk_lock_user"@);
        } else if i == 8 {
            assert(tools::tool_table()[i].name == "clerk_unlock_user"@);
        } else if i == 9 {
            assert(tools::tool_table()[i].name == "clerk_list_user_organization_memberships"@);
        } else if i == 10 {
            assert(tools::tool_table()[i].name == "clerk_list_sessions"@);
        } else if i == 11 {
            assert(tools::tool_table()[i].name == "clerk_get_session"@);
        } else if i == 12 {
            assert(tools::tool_table()[i].name == "clerk_revoke_session"@);
        } else if i == 13 {
            assert(tools::tool_table()[i].name == "clerk_list_organizations"@);
        } else if i == 14 {
            assert(tools::tool_table()[i].name == "clerk_get_organization"@);
        } else if i == 15 {
            assert(tools::tool_table()[i].name == "clerk_create_organization"@);
        } else if i == 16 {
            assert(tools::tool_table()[i].name == "clerk_update_organization"@);
        } else if i == 17 {
            assert(tools::tool_table()[i].name == "clerk_delete_organization"@);
        } else if i == 18 {
            assert(tools::tool_table()[i].name == "clerk_list_organization_memberships"@);
        } else if i == 19 {
            assert(tools::tool_table()[i].name == "clerk_create_organization_membership"@);
        } else if i == 20 {
            assert(tools::tool_table()[i].name == "clerk_update_organization_membership"@);
        } else if i == 21 {
            assert(tools::tool_table()[i].name == "clerk_delete_organization_membership"@);
        } else if i == 22 {
            assert(tools::tool_table()[i].name == "clerk_list_organization_invitations"@);
        } else if i == 23 {
            assert(tools::tool_table()[i].name == "clerk_create_organization_invitation"@);
        } else if i == 24 {
            assert(tools::tool_table()[i].name == "clerk_revoke_organization_invitation"@);
        } else if i == 25 {
            assert(tools::tool_table()[i].name == "clerk_list_invitations"@);
        } else if i == 26 {
            assert(tools::tool_table()[i].name == "clerk_create_invitation"@);
        } else if i == 27 {
            assert(tools::tool_table()[i].name == "clerk_revoke_invitation"@);
        } else if i == 28 {
            assert(tools::tool_table()[i].name == "clerk_list_allowlist_identifiers"@);
        } else if i == 29 {
            assert(tools::tool_table()[i].name == "clerk_create_allowlist_identifier"@);
        } else if i == 30 {
            assert(tools::tool_table()[i].name == "clerk_delete_allowlist_identifier"@);
        } else if i == 31 {
            assert(tools::tool_table()[i].name == "clerk_list_blocklist_identifiers"@);
        } else if i == 32 {
            assert(tools::tool_table()[i].name == "clerk_create_blocklist_identifier"@);
        } else if i == 33 {
            assert(tools::tool_table()[i].name == "clerk_delete_blocklist_identifier"@);
        }
    }
}

/// The compaction specs: for each tool whose replies may be shortened, the
/// field paths worth keeping.
pub open spec fn compact_table() -> Seq<(Seq<char>, Seq<Seq<char>>)> {
    seq![
        (
            "clerk_list_users"@,
            seq![
                "total_count"@,
                "data[].id"@,
                "data[].username"@,
                "data[].first_name"@,
                "data[].last_name"@,
                "data[].primary_email_address_id"@,
                "data[].primary_phone_number_id"@,
                "data[].email_addresses[].id"@,
                "data[].email_addresses[].email_address"@,
                "data[].email_addresses[].verification.status"@,
                "data[].phone_numbers[].id"@,
                "data[].phone_numbers[].phone_number"@,
                "data[].banned"@,
                "data[].locked"@,
                "data[].created_at"@,
                "data[].updated_at"@,
                "data[].last_sign_in_at"@,
                "data[].last_active_at"@,
                "[].id"@,
                "[].username"@,
                "[].first_name"@,
                "[].last_name"@,
                "[].primary_email_address_id"@,
                "[].email_addresses[].email_address"@,
                "[].phone_numbers[].phone_number"@,
                "[].banned"@,
                "[].locked"@,
                "[].created_at"@,
                "[].last_sign_in_at"@,
                "[].last_active_at"@,
            ],
        ),
        (
            "clerk_list_user_organization_memberships"@,
            seq![
                "total_count"@,
                "data[].id"@,
                "data[].role"@,
                "data[].role_name"@,
                "data[].created_at"@,
                "data[].organization.id"@,
                "data[].organization.name"@,
                "data[].organization.slug"@,
                "data[].organization.members_count"@,
            ],
        ),
        (
            "clerk_list_sessions"@,
            seq![
                "[].id"@,
                "[].user_id"@,
                "[].client_id"@,
                "[].status"@,
                "[].last_active_at"@,
                "[].expire_at"@,
                "[].abandon_at"@,
                "[].created_at"@,
                "[].latest_activity.country"@,
                "[].latest_activity.city"@,
                "[].latest_activity.is_mobile"@,
                "[].latest_activity.browser_name"@,
                "[].latest_activity.device_type"@,
            ],
        ),
        (
            "clerk_list_organizations"@,
            seq![
                "total_count"@,
                "data[].id"@,
                "data[].name"@,
                "data[].slug"@,
                "data[].members_count"@,
                "data[].max_allowed_memberships"@,
                "data[].created_by"@,
                "data[].created_at"@,
                "data[].updated_at"@,
            ],
        ),
        (
            "clerk_list_organization_memberships"@,
            seq![
                "total_count"@,
                "data[].id"@,
                "data[].role"@,
                "data[].role_name"@,
                "data[].created_at"@,
                "data[].public_user_data.user_id"@,
                "data[].public_user_data.identifier"@,
                "data[].public_user_data.first_name"@,
                "data[].public_user_data.last_name"@,
                "data[].organization.id"@,
                "data[].organization.slug"@,
            ],
        ),
        (
            "clerk_list_organization_invitations"@,
            seq![
                "total_count"@,
                "data[].id"@,
                "data[].email_address"@,
                "data[].role"@,
                "data[].role_name"@,
                "data[].status"@,
                "data[].organization_id"@,
                "data[].created_at"@,
                "data[].updated_at"@,
            ],
        ),
        (
            "clerk_list_invitations"@,
            seq![
                "[].id"@,
                "[].email_address"@,
                "[].status"@,
                "[].revoked"@,
                "[].created_at"@,
                "[].updated_at"@,
                "[].expires_at"@,
                "[].url"@,
            ],
        ),
        (
            "clerk_list_allowlist_identifiers"@,
            seq![
                "[].id"@,
                "[].identifier"@,
                "[].identifier_type"@,
                "[].instance_id"@,
                "[].created_at"@,
                "[].updated_at"@,
            ],
        ),
        (
            "clerk_list_blocklist_identifiers"@,
            seq![
                "[].id"@,
                "[].identifier"@,
                "[].identifier_type"@,
                "[].instance_id"@,
                "[].created_at"@,
                "[].updated_at"@,
            ],
        ),
    ]
}

/// `compact_spec_map`: the compaction specs, tool by tool.
pub fn compact_spec_map() -> (r: Vec<(String, Vec<String>)>)
    ensures
        specs_view(r@) == compact_table(),
{
    let mut s: Vec<(String, Vec<String>)> = Vec::new();
    let fs: [&str; 30] = [
        "total_count",
        "data[].id",
        "data[].username",
        "data[].first_name",
        "data[].last_name",
        "data[].primary_email_address_id",
        "data[].primary_phone_number_id",
        "data[].email_addresses[].id",
        "data[].email_addresses[].email_address",
        "data[].email_addresses[].verification.status",
        "data[].phone_numbers[].id",
        "data[].phone_numbers[].phone_number",
        "data[].banned",
        "data[].locked",
        "data[].created_at",
        "data[].updated_at",
        "data[].last_sign_in_at",
        "data[].last_active_at",
        "[].id",
        "[].username",
        "[].first_name",
        "[].last_name",
        "[].primary_email_address_id",
        "[].email_addresses[].email_address",
        "[].phone_numbers[].phone_number",
        "[].banned",
        "[].locked",
        "[].created_at",
        "[].last_sign_in_at",
        "[].last_active_at",
    ];
    let e = compact_entry("clerk_list_users", &fs);
    assert(keys_view(fs@) =~= compact_table()[0].1);
    s.push(e);
    let fs: [&str; 9] = [
        "total_count",
        "data[].id",
        "data[].role",
        "data[].role_name",
        "data[].created_at",
        "data[].organization.id",
        "data[].organization.name",
        "data[].organization.slug",
        "data[].organization.members_count",
    ];
    let e = compact_entry("clerk_list_user_organization_memberships", &fs);
    assert(keys_view(fs@) =~= compact_table()[1].1);
    s.push(e);
    let fs: [&str; 13] = [
        "[].id",
        "[].user_id",
        "[].client_id",
        "[].status",
        "[].last_active_at",
        "[].expire_at",
        "[].abandon_at",
        "[].created_at",
        "[].latest_activity.country",
        "[].latest_activity.city",
        "[].latest_activity.is_mobile",
        "[].latest_activity.browser_name",
        "[].latest_activity.device_type",
    ];
    let e = compact_entry("clerk_list_sessions", &fs);
    assert(keys_view(fs@) =~= compact_table()[2].1);
    s.push(e);
    let fs: [&str; 9] = [
        "total_count",
        "data[].id",
        "data[].name",
        "data[].slug",
        "data[].members_count",
        "data[].max_allowed_memberships",
        "data[].created_by",
        "data[].created_at",
        "data[].updated_at",
    ];
    let e = compact_entry("clerk_list_organizations", &fs);
    assert(keys_view(fs@) =~= compact_table()[3].1);
    s.push(e);
    let fs: [&str; 11] = [
        "total_count",
        "data[].id",
        "data[].role",
        "data[].role_name",
        "data[].created_at",
        "data[].public_user_data.user_id",
        "data[].public_user_data.identifier",
        "data[].public_user_data.first_name",
        "data[].public_user_data.last_name",
        "data[].organization.id",
        "data[].organization.slug",
    ];
    let e = compact_entry("clerk_list_organization_memberships", &fs);
    assert(keys_view(fs@) =~= compact_table()[4].1);
    s.push(e);
    let fs: [&str; 9] = [
        "total_count",
        "data[].id",
        "data[].email_address",
        "data[].role",
        "data[].role_name",
        "data[].status",
        "data[].organization_id",
        "data[].created_at",
        "data[].updated_at",
    ];
    let e = compact_entry("clerk_list_organization_invitations", &fs);
    assert(keys_view(fs@) =~= compact_table()[5].1);
    s.push(e);
    let fs: [&str; 8] = [
        "[].id",
        "[].email_address",
        "[].status",
        "[].revoked",
        "[].created_at",
        "[].updated_at",
        "[].expires_at",
        "[].url",
    ];
    let e = compact_entry("clerk_list_invitations", &fs);
    assert(keys_view(fs@) =~= compact_table()[6].1);
    s.push(e);
    let fs: [&str; 6] = [
        "[].id",
        "[].identifier",
        "[].identifier_type",
        "[].instance_id",
        "[].created_at",
        "[].updated_at",
    ];
    let e = compact_entry("clerk_list_allowlist_identifiers", &fs);
    assert(keys_view(fs@) =~= compact_table()[7].1);
    s.push(e);
    let fs: [&str; 6] = [
        "[].id",
        "[].identifier",
        "[].identifier_type",
        "[].instance_id",
        "[].created_at",
        "[].updated_at",
    ];
    let e = compact_entry("clerk_list_blocklist_identifiers", &fs);
    assert(keys_view(fs@) =~= compact_table()[8].1);
    s.push(e);
    assert(specs_view(s@) =~= compact_table());
    s
}

/// Every compaction spec is for a tool that the plugin offers.
pub proof fn lemma_compact_specs_name_tools()
    ensures
        forall|i: int|
            0 <= i < compact_table().len() ==> tool_names(tools::tool_table()).contains(
                #[trigger] compact_table()[i].0,
            ),
{
    let names = tool_names(tools::tool_table());
    assert(names[0] == compact_table()[0].0);
    assert(names[9] == compact_table()[1].0);
    assert(names[10] == compact_table()[2].0);
    assert(names[13] == compact_table()[3].0);
    assert(names[18] == compact_table()[4].0);
    assert(names[22] == compact_table()[5].0);
    assert(names[25] == compact_table()[6].0);
    assert(names[28] == compact_table()[7].0);
    assert(names[31] == compact_table()[8].0);
}

/// No tool has two compaction specs.
pub proof fn lemma_compact_specs_distinct()
    ensures
        keys_distinct(spec_tools(compact_table())),
{
    reveal_strlit("clerk_list_users");
    assert("clerk_list_users"@.len() == 16);
    reveal_strlit("clerk_list_user_organization_memberships");
    assert("clerk_list_user_organization_memberships"@.len() == 40);
    reveal_strlit("clerk_list_sessions");
    assert("clerk_list_sessions"@.len() == 19);
    reveal_strlit("clerk_list_organizations");
    assert("clerk_list_organizations"@.len() == 24);
    reveal_strlit("clerk_list_organization_memberships");
    assert("clerk_list_organization_memberships"@.len() == 35);
    assert("clerk_list_organization_memberships"@[24] == 'm');
    reveal_strlit("clerk_list_organization_invitations");
    assert("clerk_list_organization_invitations"@.len() == 35);
    assert("clerk_list_organization_invitations"@[24] == 'i');
    reveal_strlit("clerk_list_invitations");
    assert("clerk_list_invitations"@.len() == 22);
    reveal_strlit("clerk_list_allowlist_identifiers");
    assert("clerk_list_allowlist_identifiers"@.len() == 32);
    assert("clerk_list_allowlist_identifiers"@[11] == 'a');
    reveal_strlit("clerk_list_blocklist_identifiers");
    assert("clerk_list_blocklist_identifiers"@.len() == 32);
    assert("clerk_list_blocklist_identifiers"@[11] == 'b');
    assert(spec_tools(compact_table()) =~= seq!["clerk_list_users"@, "clerk_list_user_organization_memberships"@, "clerk_list_sessions"@, "clerk_list_organizations"@, "clerk_list_organization_memberships"@, "clerk_list_organization_invitations"@, "clerk_list_invitations"@, "clerk_list_allowlist_identifiers"@, "clerk_list_blocklist_identifiers"@]);
}

} // verus!
