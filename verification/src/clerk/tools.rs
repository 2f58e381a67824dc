//! The tools that the Clerk plugin offers.
use vstd::prelude::*;

use crate::request::keys_view;
use crate::tool_def::{keys_distinct, pair_keys, tool_names, str_pairs_view, tool, tools_view, ToolDef, ToolV};

verus! {

/// `clerk_list_users`.
pub open spec fn list_users_tool() -> ToolV {
    ToolV {
        name: "clerk_list_users"@,
        description: "Search and list Clerk users by email, phone, username, name, or user ID. Start here for Clerk user management, identity lookup, account audit, finding signed-up users, B2C auth debugging, login history, or banned/locked account review. Covers users, accounts, identities, members, customers."@,
        parameters: seq![
            ("limit"@, "Maximum users to return (default 10, max 500)"@),
            ("offset"@, "Pagination offset (default 0)"@),
            ("order_by"@, "Sort field with optional direction, e.g. -created_at, +last_active_at, +last_sign_in_at, +email_address, +username (default -created_at)"@),
            ("query"@, "Free-text query matched against email, phone, username, first/last name, user ID"@),
            ("email_address"@, "Comma-separated email addresses to filter by (exact match)"@),
            ("phone_number"@, "Comma-separated phone numbers to filter by (exact match)"@),
            ("username"@, "Comma-separated usernames to filter by (exact match)"@),
            ("user_id"@, "Comma-separated user IDs to filter by"@),
            ("external_id"@, "Comma-separated external IDs to filter by"@),
            ("organization_id"@, "Comma-separated org IDs — return users who belong to any of these organizations"@),
            ("banned"@, "Filter to banned users only (true/false)"@),
            ("locked"@, "Filter to locked users only (true/false)"@),
            ("last_active_at_since"@, "Unix epoch ms — return users active since this time"@),
        ],
        required: seq![],
    }
}

/// `clerk_get_user`.
pub open spec fn get_user_tool() -> ToolV {
    ToolV {
        name: "clerk_get_user"@,
        description: "Get a Clerk user's full profile, including email addresses, phone numbers, external auth accounts, public/private metadata, and timestamps. Use after list_users when inspecting a specific account."@,
        parameters: seq![
            ("user_id"@, "Clerk user ID (e.g. user_2abc...)"@),
        ],
        required: seq!["user_id"@],
    }
}

/// `clerk_create_user`.
pub open spec fn create_user_tool() -> ToolV {
    ToolV {
        name: "clerk_create_user"@,
        description: "Create a new Clerk user with email, phone, username, password, name, or external ID. Optionally attach public/private/unsafe metadata."@,
        parameters: seq![
            ("email_address"@, "JSON array string of email addresses, e.g. [\"a@b.com\"]"@),
            ("phone_number"@, "JSON array string of phone numbers in E.164 format"@),
            ("web3_wallet"@, "JSON array string of Web3 wallet addresses"@),
            ("username"@, "Username for the user"@),
            ("password"@, "Plain-text password (Clerk will hash)"@),
            ("password_digest"@, "Pre-hashed password digest"@),
            ("password_hasher"@, "Hash algorithm for password_digest (e.g. bcrypt, argon2i)"@),
            ("first_name"@, "User's first name"@),
            ("last_name"@, "User's last name"@),
            ("external_id"@, "External system ID for this user"@),
            ("skip_password_checks"@, "Skip password complexity checks (true/false)"@),
            ("skip_password_requirement"@, "Allow user creation without a password (true/false)"@),
            ("public_metadata"@, "JSON object string of public metadata"@),
            ("private_metadata"@, "JSON object string of private metadata"@),
            ("unsafe_metadata"@, "JSON object string of unsafe metadata"@),
            ("created_at"@, "Backfill created_at timestamp (RFC3339 or Unix seconds)"@),
        ],
        required: seq![],
    }
}

/// `clerk_update_user`.
pub open spec fn update_user_tool() -> ToolV {
    ToolV {
        name: "clerk_update_user"@,
        description: "Update a Clerk user's profile, primary identifier, metadata, password, or activity flags. Use after list_users or get_user."@,
        parameters: seq![
            ("user_id"@, "Clerk user ID"@),
            ("first_name"@, "Update first name"@),
            ("last_name"@, "Update last name"@),
            ("username"@, "Update username"@),
            ("primary_email_address_id"@, "ID of the email_address record to mark primary"@),
            ("primary_phone_number_id"@, "ID of the phone_number record to mark primary"@),
            ("primary_web3_wallet_id"@, "ID of the web3 wallet to mark primary"@),
            ("profile_image_id"@, "Image ID to use as the profile picture"@),
            ("password"@, "New password (Clerk will hash)"@),
            ("password_digest"@, "Pre-hashed password digest"@),
            ("password_hasher"@, "Hash algorithm for password_digest"@),
            ("sign_out_of_other_sessions"@, "Sign user out of other active sessions after password change (true/false)"@),
            ("external_id"@, "External system ID"@),
            ("public_metadata"@, "JSON object string of public metadata (replaces existing)"@),
            ("private_metadata"@, "JSON object string of private metadata (replaces existing)"@),
            ("unsafe_metadata"@, "JSON object string of unsafe metadata (replaces existing)"@),
        ],
        required: seq!["user_id"@],
    }
}

/// `clerk_delete_user`.
pub open spec fn delete_user_tool() -> ToolV {
    ToolV {
        name: "clerk_delete_user"@,
        description: "Permanently delete a Clerk user. Use after list_users or get_user when removing an account."@,
        parameters: seq![
            ("user_id"@, "Clerk user ID to delete"@),
        ],
        required: seq!["user_id"@],
    }
}

/// `clerk_ban_user`.
pub open spec fn ban_user_tool() -> ToolV {
    ToolV {
        name: "clerk_ban_user"@,
        description: "Ban a Clerk user, preventing all future sign-ins. Reversible via unban_user."@,
        parameters: seq![
            ("user_id"@, "Clerk user ID to ban"@),
        ],
        required: seq!["user_id"@],
    }
}

/// `clerk_unban_user`.
pub open spec fn unban_user_tool() -> ToolV {
    ToolV {
        name: "clerk_unban_user"@,
        description: "Lift a ban on a Clerk user, restoring their ability to sign in."@,
        parameters: seq![
            ("user_id"@, "Clerk user ID to unban"@),
        ],
        required: seq!["user_id"@],
    }
}

/// `clerk_lock_user`.
pub open spec fn lock_user_tool() -> ToolV {
    ToolV {
        name: "clerk_lock_user"@,
        description: "Lock a Clerk user out of new sign-ins (without banning). Useful for temporary holds during fraud review."@,
        parameters: seq![
            ("user_id"@, "Clerk user ID to lock"@),
        ],
        required: seq!["user_id"@],
    }
}

/// `clerk_unlock_user`.
pub open spec fn unlock_user_tool() -> ToolV {
    ToolV {
        name: "clerk_unlock_user"@,
        description: "Unlock a previously locked Clerk user, restoring sign-in."@,
        parameters: seq![
            ("user_id"@, "Clerk user ID to unlock"@),
        ],
        required: seq!["user_id"@],
    }
}

/// `clerk_list_user_organization_memberships`.
pub open spec fn list_user_organization_memberships_tool() -> ToolV {
    ToolV {
        name: "clerk_list_user_organization_memberships"@,
        description: "List all Clerk organizations a user belongs to, with their role and organization metadata. Use after list_users to map a user to their tenants/workspaces."@,
        parameters: seq![
            ("user_id"@, "Clerk user ID"@),
            ("limit"@, "Maximum memberships to return (default 10, max 100)"@),
            ("offset"@, "Pagination offset"@),
        ],
        required: seq!["user_id"@],
    }
}

/// `clerk_list_sessions`.
pub open spec fn list_sessions_tool() -> ToolV {
    ToolV {
        name: "clerk_list_sessions"@,
        description: "List Clerk authentication sessions (active sign-ins). Start here for session debugging, auditing who is signed in, revoking suspicious logins, and seeing which clients/devices a user is using."@,
        parameters: seq![
            ("client_id"@, "Filter sessions for a specific client/device"@),
            ("user_id"@, "Filter sessions for a specific Clerk user"@),
            ("status"@, "Filter by session status: abandoned, active, ended, expired, removed, replaced, revoked"@),
        ],
        required: seq![],
    }
}

/// `clerk_get_session`.
pub open spec fn get_session_tool() -> ToolV {
    ToolV {
        name: "clerk_get_session"@,
        description: "Get a Clerk session by ID, including user, client, status, expiry, and latest activity (browser, device, location). Use after list_sessions when debugging a specific sign-in."@,
        parameters: seq![
            ("session_id"@, "Clerk session ID (e.g. sess_2abc...)"@),
        ],
        required: seq!["session_id"@],
    }
}

/// `clerk_revoke_session`.
pub open spec fn revoke_session_tool() -> ToolV {
    ToolV {
        name: "clerk_revoke_session"@,
        description: "Revoke a Clerk session, signing the user out of that client/device. Use after list_sessions or get_session for security incident response."@,
        parameters: seq![
            ("session_id"@, "Clerk session ID to revoke"@),
        ],
        required: seq!["session_id"@],
    }
}

/// `clerk_list_organizations`.
pub open spec fn list_organizations_tool() -> ToolV {
    ToolV {
        name: "clerk_list_organizations"@,
        description: "List or search Clerk organizations (tenants, workspaces, teams, accounts). Start here for B2B tenant management, customer audit, finding which organizations exist, or onboarding/billing reviews."@,
        parameters: seq![
            ("limit"@, "Maximum organizations to return (default 10, max 500)"@),
            ("offset"@, "Pagination offset (default 0)"@),
            ("include_members_count"@, "Include each organization's member count (true/false)"@),
            ("order_by"@, "Sort field with optional direction, e.g. -created_at, +name, +members_count (default -created_at)"@),
            ("query"@, "Free-text query matched against organization name, slug, or ID"@),
            ("user_id"@, "Comma-separated user IDs — return organizations that any of these users belong to"@),
        ],
        required: seq![],
    }
}

/// `clerk_get_organization`.
pub open spec fn get_organization_tool() -> ToolV {
    ToolV {
        name: "clerk_get_organization"@,
        description: "Get a Clerk organization by ID or slug, including members count, max allowed memberships, creator, metadata, and timestamps. Use after list_organizations."@,
        parameters: seq![
            ("organization_id"@, "Organization ID (e.g. org_2abc...) or slug"@),
            ("include_members_count"@, "Include the organization's member count (true/false)"@),
        ],
        required: seq!["organization_id"@],
    }
}

/// `clerk_create_organization`.
pub open spec fn create_organization_tool() -> ToolV {
    ToolV {
        name: "clerk_create_organization"@,
        description: "Create a new Clerk organization (tenant, workspace, team) with a name, optional slug, creator user, and metadata."@,
        parameters: seq![
            ("name"@, "Organization display name"@),
            ("created_by"@, "Clerk user ID who will be the initial owner"@),
            ("slug"@, "URL-safe slug (auto-generated if omitted)"@),
            ("max_allowed_memberships"@, "Cap on total members (0 or omit for unlimited)"@),
            ("public_metadata"@, "JSON object string of public metadata"@),
            ("private_metadata"@, "JSON object string of private metadata"@),
        ],
        required: seq!["name"@, "created_by"@],
    }
}

/// `clerk_update_organization`.
pub open spec fn update_organization_tool() -> ToolV {
    ToolV {
        name: "clerk_update_organization"@,
        description: "Update a Clerk organization's name, slug, member cap, or metadata. Use after list_organizations or get_organization."@,
        parameters: seq![
            ("organization_id"@, "Organization ID or slug"@),
            ("name"@, "New organization name"@),
            ("slug"@, "New URL-safe slug"@),
            ("max_allowed_memberships"@, "New cap on total members (0 for unlimited)"@),
            ("admin_delete_enabled"@, "Allow admins to delete the organization (true/false)"@),
            ("public_metadata"@, "JSON object string of public metadata (replaces existing)"@),
            ("private_metadata"@, "JSON object string of private metadata (replaces existing)"@),
        ],
        required: seq!["organization_id"@],
    }
}

/// `clerk_delete_organization`.
pub open spec fn delete_organization_tool() -> ToolV {
    ToolV {
        name: "clerk_delete_organization"@,
        description: "Permanently delete a Clerk organization. Removes all memberships and invitations."@,
        parameters: seq![
            ("organization_id"@, "Organization ID or slug to delete"@),
        ],
        required: seq!["organization_id"@],
    }
}

/// `clerk_list_organization_memberships`.
pub open spec fn list_organization_memberships_tool() -> ToolV {
    ToolV {
        name: "clerk_list_organization_memberships"@,
        description: "List members of a Clerk organization with their role and user data. Use after list_organizations to see who belongs to a tenant/workspace/team."@,
        parameters: seq![
            ("organization_id"@, "Organization ID or slug"@),
            ("limit"@, "Maximum memberships to return (default 10, max 500)"@),
            ("offset"@, "Pagination offset"@),
            ("order_by"@, "Sort field, e.g. -created_at, +last_active_at, +first_name"@),
        ],
        required: seq!["organization_id"@],
    }
}

/// `clerk_create_organization_membership`.
pub open spec fn create_organization_membership_tool() -> ToolV {
    ToolV {
        name: "clerk_create_organization_membership"@,
        description: "Add an existing Clerk user to an organization with a role. Use to invite/onboard team members programmatically when they already have an account."@,
        parameters: seq![
            ("organization_id"@, "Organization ID or slug"@),
            ("user_id"@, "Clerk user ID to add"@),
            ("role"@, "Role for the new member (e.g. admin, basic_member, or a custom role key)"@),
        ],
        required: seq!["organization_id"@, "user_id"@, "role"@],
    }
}

/// `clerk_update_organization_membership`.
pub open spec fn update_organization_membership_tool() -> ToolV {
    ToolV {
        name: "clerk_update_organization_membership"@,
        description: "Change a Clerk organization member's role (e.g. promote to admin)."@,
        parameters: seq![
            ("organization_id"@, "Organization ID or slug"@),
            ("user_id"@, "Clerk user ID of the member"@),
            ("role"@, "New role key"@),
        ],
        required: seq!["organization_id"@, "user_id"@, "role"@],
    }
}

/// `clerk_delete_organization_membership`.
pub open spec fn delete_organization_membership_tool() -> ToolV {
    ToolV {
        name: "clerk_delete_organization_membership"@,
        description: "Remove a user from a Clerk organization. Use after list_organization_memberships."@,
        parameters: seq![
            ("organization_id"@, "Organization ID or slug"@),
            ("user_id"@, "Clerk user ID of the member to remove"@),
        ],
        required: seq!["organization_id"@, "user_id"@],
    }
}

/// `clerk_list_organization_invitations`.
pub open spec fn list_organization_invitations_tool() -> ToolV {
    ToolV {
        name: "clerk_list_organization_invitations"@,
        description: "List pending, accepted, or revoked invitations to a Clerk organization. Use to audit outstanding invites before resending or revoking."@,
        parameters: seq![
            ("organization_id"@, "Organization ID or slug"@),
            ("limit"@, "Maximum invitations to return (default 10, max 500)"@),
            ("offset"@, "Pagination offset"@),
            ("status"@, "Comma-separated statuses to filter: pending, accepted, revoked"@),
        ],
        required: seq!["organization_id"@],
    }
}

/// `clerk_create_organization_invitation`.
pub open spec fn create_organization_invitation_tool() -> ToolV {
    ToolV {
        name: "clerk_create_organization_invitation"@,
        description: "Invite a user by email to join a Clerk organization with a role. Sends an email and creates a pending invitation."@,
        parameters: seq![
            ("organization_id"@, "Organization ID or slug"@),
            ("email_address"@, "Recipient email address"@),
            ("role"@, "Role to grant on acceptance (e.g. admin, basic_member, or a custom role key)"@),
            ("inviter_user_id"@, "Clerk user ID of the inviter (shown in the invitation email)"@),
            ("redirect_url"@, "URL to send the recipient to after accepting"@),
            ("public_metadata"@, "JSON object string of public metadata"@),
            ("private_metadata"@, "JSON object string of private metadata"@),
        ],
        required: seq!["organization_id"@, "email_address"@, "role"@],
    }
}

/// `clerk_revoke_organization_invitation`.
pub open spec fn revoke_organization_invitation_tool() -> ToolV {
    ToolV {
        name: "clerk_revoke_organization_invitation"@,
        description: "Revoke a pending Clerk organization invitation. Use after list_organization_invitations."@,
        parameters: seq![
            ("organization_id"@, "Organization ID or slug"@),
            ("invitation_id"@, "Invitation ID to revoke"@),
            ("requesting_user_id"@, "Clerk user ID performing the revoke (for audit)"@),
        ],
        required: seq!["organization_id"@, "invitation_id"@],
    }
}

/// `clerk_list_invitations`.
pub open spec fn list_invitations_tool() -> ToolV {
    ToolV {
        name: "clerk_list_invitations"@,
        description: "List Clerk instance-level invitations (not tied to an organization). Start here for auditing outstanding sign-up invites sent to email addresses."@,
        parameters: seq![
            ("limit"@, "Maximum invitations to return (default 10, max 500)"@),
            ("offset"@, "Pagination offset"@),
            ("status"@, "Filter by status: pending, accepted, revoked"@),
            ("query"@, "Free-text query matched against the invitation email address"@),
            ("order_by"@, "Sort field, e.g. -created_at, -updated_at"@),
        ],
        required: seq![],
    }
}

/// `clerk_create_invitation`.
pub open spec fn create_invitation_tool() -> ToolV {
    ToolV {
        name: "clerk_create_invitation"@,
        description: "Send a Clerk instance-level invitation to an email address. The recipient gets a sign-up link."@,
        parameters: seq![
            ("email_address"@, "Recipient email address"@),
            ("redirect_url"@, "URL to send the recipient to after accepting"@),
            ("notify"@, "Send the invitation email (true/false, default true)"@),
            ("ignore_existing"@, "Don't error if an invitation already exists for this email (true/false)"@),
            ("expires_in_days"@, "Invitation lifetime in days"@),
            ("template_slug"@, "Specific invitation email template slug to use"@),
            ("public_metadata"@, "JSON object string of public metadata"@),
        ],
        required: seq!["email_address"@],
    }
}

/// `clerk_revoke_invitation`.
pub open spec fn revoke_invitation_tool() -> ToolV {
    ToolV {
        name: "clerk_revoke_invitation"@,
        description: "Revoke a pending Clerk instance-level invitation. Use after list_invitations."@,
        parameters: seq![
            ("invitation_id"@, "Invitation ID to revoke"@),
        ],
        required: seq!["invitation_id"@],
    }
}

/// `clerk_list_allowlist_identifiers`.
pub open spec fn list_allowlist_identifiers_tool() -> ToolV {
    ToolV {
        name: "clerk_list_allowlist_identifiers"@,
        description: "List identifiers (emails, phones, domains) on the Clerk sign-up allow list. Start here when auditing who is allowed to register for the application."@,
        parameters: seq![],
        required: seq![],
    }
}

/// `clerk_create_allowlist_identifier`.
pub open spec fn create_allowlist_identifier_tool() -> ToolV {
    ToolV {
        name: "clerk_create_allowlist_identifier"@,
        description: "Add an email address, phone number, or domain (e.g. @example.com) to the Clerk sign-up allow list."@,
        parameters: seq![
            ("identifier"@, "Email address, E.164 phone number, or @domain to allow"@),
            ("notify"@, "Send a notification to the identifier when added (true/false)"@),
        ],
        required: seq!["identifier"@],
    }
}

/// `clerk_delete_allowlist_identifier`.
pub open spec fn delete_allowlist_identifier_tool() -> ToolV {
    ToolV {
        name: "clerk_delete_allowlist_identifier"@,
        description: "Remove an identifier from the Clerk sign-up allow list."@,
        parameters: seq![
            ("identifier_id"@, "Allowlist identifier ID returned by list_allowlist_identifiers"@),
        ],
        required: seq!["identifier_id"@],
    }
}

/// `clerk_list_blocklist_identifiers`.
pub open spec fn list_blocklist_identifiers_tool() -> ToolV {
    ToolV {
        name: "clerk_list_blocklist_identifiers"@,
        description: "List identifiers (emails, phones, domains) on the Clerk sign-up block list. Start here when auditing which addresses are blocked from registering."@,
        parameters: seq![],
        required: seq![],
    }
}

/// `clerk_create_blocklist_identifier`.
pub open spec fn create_blocklist_identifier_tool() -> ToolV {
    ToolV {
        name: "clerk_create_blocklist_identifier"@,
        description: "Add an email address, phone number, or domain (e.g. @example.com) to the Clerk sign-up block list."@,
        parameters: seq![
            ("identifier"@, "Email address, E.164 phone number, or @domain to block"@),
        ],
        required: seq!["identifier"@],
    }
}

/// `clerk_delete_blocklist_identifier`.
pub open spec fn delete_blocklist_identifier_tool() -> ToolV {
    ToolV {
        name: "clerk_delete_blocklist_identifier"@,
        description: "Remove an identifier from the Clerk sign-up block list."@,
        parameters: seq![
            ("identifier_id"@, "Blocklist identifier ID returned by list_blocklist_identifiers"@),
        ],
        required: seq!["identifier_id"@],
    }
}

/// The tools, in the order they are listed to the host.
pub open spec fn tool_table() -> Seq<ToolV> {
    seq![
        list_users_tool(),
        get_user_tool(),
        create_user_tool(),
        update_user_tool(),
        delete_user_tool(),
        ban_user_tool(),
        unban_user_tool(),
        lock_user_tool(),
        unlock_user_tool(),
        list_user_organization_memberships_tool(),
        list_sessions_tool(),
        get_session_tool(),
        revoke_session_tool(),
        list_organizations_tool(),
        get_organization_tool(),
        create_organization_tool(),
        update_organization_tool(),
        delete_organization_tool(),
        list_organization_memberships_tool(),
        create_organization_membership_tool(),
        update_organization_membership_tool(),
        delete_organization_membership_tool(),
        list_organization_invitations_tool(),
        create_organization_invitation_tool(),
        revoke_organization_invitation_tool(),
        list_invitations_tool(),
        create_invitation_tool(),
        revoke_invitation_tool(),
        list_allowlist_identifiers_tool(),
        create_allowlist_identifier_tool(),
        delete_allowlist_identifier_tool(),
        list_blocklist_identifiers_tool(),
        create_blocklist_identifier_tool(),
        delete_blocklist_identifier_tool(),
    ]
}

/// `tool_definitions`: the descriptions of the tools.
pub fn tool_definitions() -> (r: Vec<ToolDef>)
    ensures
        tools_view(r@) == tool_table(),
{
    let mut defs: Vec<ToolDef> = Vec::new();
    // clerk_list_users
    let ps: [(&str, &str); 13] = [
        ("limit", "Maximum users to return (default 10, max 500)"),
        ("offset", "Pagination offset (default 0)"),
        ("order_by", "Sort field with optional direction, e.g. -created_at, +last_active_at, +last_sign_in_at, +email_address, +username (default -created_at)"),
        ("query", "Free-text query matched against email, phone, username, first/last name, user ID"),
        ("email_address", "Comma-separated email addresses to filter by (exact match)"),
        ("phone_number", "Comma-separated phone numbers to filter by (exact match)"),
        ("username", "Comma-separated usernames to filter by (exact match)"),
        ("user_id", "Comma-separated user IDs to filter by"),
        ("external_id", "Comma-separated external IDs to filter by"),
        ("organization_id", "Comma-separated org IDs — return users who belong to any of these organizations"),
        ("banned", "Filter to banned users only (true/false)"),
        ("locked", "Filter to locked users only (true/false)"),
        ("last_active_at_since", "Unix epoch ms — return users active since this time"),
    ];
    let rs: [&str; 0] = [];
    let t = tool("clerk_list_users", "Search and list Clerk users by email, phone, username, name, or user ID. Start here for Clerk user management, identity lookup, account audit, finding signed-up users, B2C auth debugging, login history, or banned/locked account review. Covers users, accounts, identities, members, customers.", &ps, &rs);
    assert(str_pairs_view(ps@) =~= list_users_tool().parameters);
    assert(keys_view(rs@) =~= list_users_tool().required);
    defs.push(t);
    // clerk_get_user
    let ps: [(&str, &str); 1] = [
        ("user_id", "Clerk user ID (e.g. user_2abc...)"),
    ];
    let rs: [&str; 1] = ["user_id"];
    let t = tool("clerk_get_user", "Get a Clerk user's full profile, including email addresses, phone numbers, external auth accounts, public/private metadata, and timestamps. Use after list_users when inspecting a specific account.", &ps, &rs);
    assert(str_pairs_view(ps@) =~= get_user_tool().parameters);
    assert(keys_view(rs@) =~= get_user_tool().required);
    defs.push(t);
    // clerk_create_user
    let ps: [(&str, &str); 16] = [
        ("email_address", "JSON array string of email addresses, e.g. [\"a@b.com\"]"),
        ("phone_number", "JSON array string of phone numbers in E.164 format"),
        ("web3_wallet", "JSON array string of Web3 wallet addresses"),
        ("username", "Username for the user"),
        ("password", "Plain-text password (Clerk will hash)"),
        ("password_digest", "Pre-hashed password digest"),
        ("password_hasher", "Hash algorithm for password_digest (e.g. bcrypt, argon2i)"),
        ("first_name", "User's first name"),
        ("last_name", "User's last name"),
        ("external_id", "External system ID for this user"),
        ("skip_password_checks", "Skip password complexity checks (true/false)"),
        ("skip_password_requirement", "Allow user creation without a password (true/false)"),
        ("public_metadata", "JSON object string of public metadata"),
        ("private_metadata", "JSON object string of private metadata"),
        ("unsafe_metadata", "JSON object string of unsafe metadata"),
        ("created_at", "Backfill created_at timestamp (RFC3339 or Unix seconds)"),
    ];
    let rs: [&str; 0] = [];
    let t = tool("clerk_create_user", "Create a new Clerk user with email, phone, username, password, name, or external ID. Optionally attach public/private/unsafe metadata.", &ps, &rs);
    assert(str_pairs_view(ps@) =~= create_user_tool().parameters);
    assert(keys_view(rs@) =~= create_user_tool().required);
    defs.push(t);
    // clerk_update_user
    let ps: [(&str, &str); 16] = [
        ("user_id", "Clerk user ID"),
        ("first_name", "Update first name"),
        ("last_name", "Update last name"),
        ("username", "Update username"),
        ("primary_email_address_id", "ID of the email_address record to mark primary"),
        ("primary_phone_number_id", "ID of the phone_number record to mark primary"),
        ("primary_web3_wallet_id", "ID of the web3 wallet to mark primary"),
        ("profile_image_id", "Image ID to use as the profile picture"),
        ("password", "New password (Clerk will hash)"),
        ("password_digest", "Pre-hashed password digest"),
        ("password_hasher", "Hash algorithm for password_digest"),
        ("sign_out_of_other_sessions", "Sign user out of other active sessions after password change (true/false)"),
        ("external_id", "External system ID"),
        ("public_metadata", "JSON object string of public metadata (replaces existing)"),
        ("private_metadata", "JSON object string of private metadata (replaces existing)"),
        ("unsafe_metadata", "JSON object string of unsafe metadata (replaces existing)"),
    ];
    let rs: [&str; 1] = ["user_id"];
    let t = tool("clerk_update_user", "Update a Clerk user's profile, primary identifier, metadata, password, or activity flags. Use after list_users or get_user.", &ps, &rs);
    assert(str_pairs_view(ps@) =~= update_user_tool().parameters);
    assert(keys_view(rs@) =~= update_user_tool().required);
    defs.push(t);
    // clerk_delete_user
    let ps: [(&str, &str); 1] = [
        ("user_id", "Clerk user ID to delete"),
    ];
    let rs: [&str; 1] = ["user_id"];
    let t = tool("clerk_delete_user", "Permanently delete a Clerk user. Use after list_users or get_user when removing an account.", &ps, &rs);
    assert(str_pairs_view(ps@) =~= delete_user_tool().parameters);
    assert(keys_view(rs@) =~= delete_user_tool().required);
    defs.push(t);
    // clerk_ban_user
    let ps: [(&str, &str); 1] = [
        ("user_id", "Clerk user ID to ban"),
    ];
    let rs: [&str; 1] = ["user_id"];
    let t = tool("clerk_ban_user", "Ban a Clerk user, preventing all future sign-ins. Reversible via unban_user.", &ps, &rs);
    assert(str_pairs_view(ps@) =~= ban_user_tool().parameters);
    assert(keys_view(rs@) =~= ban_user_tool().required);
    defs.push(t);
    // clerk_unban_user
    let ps: [(&str, &str); 1] = [
        ("user_id", "Clerk user ID to unban"),
    ];
    let rs: [&str; 1] = ["user_id"];
    let t = tool("clerk_unban_user", "Lift a ban on a Clerk user, restoring their ability to sign in.", &ps, &rs);
    assert(str_pairs_view(ps@) =~= unban_user_tool().parameters);
    assert(keys_view(rs@) =~= unban_user_tool().required);
    defs.push(t);
    // clerk_lock_user
    let ps: [(&str, &str); 1] = [
        ("user_id", "Clerk user ID to lock"),
    ];
    let rs: [&str; 1] = ["user_id"];
    let t = tool("clerk_lock_user", "Lock a Clerk user out of new sign-ins (without banning). Useful for temporary holds during fraud review.", &ps, &rs);
    assert(str_pairs_view(ps@) =~= lock_user_tool().parameters);
    assert(keys_view(rs@) =~= lock_user_tool().required);
    defs.push(t);
    // clerk_unlock_user
    let ps: [(&str, &str); 1] = [
        ("user_id", "Clerk user ID to unlock"),
    ];
    let rs: [&str; 1] = ["user_id"];
    let t = tool("clerk_unlock_user", "Unlock a previously locked Clerk user, restoring sign-in.", &ps, &rs);
    assert(str_pairs_view(ps@) =~= unlock_user_tool().parameters);
    assert(keys_view(rs@) =~= unlock_user_tool().required);
    defs.push(t);
    // clerk_list_user_organization_memberships
    let ps: [(&str, &str); 3] = [
        ("user_id", "Clerk user ID"),
        ("limit", "Maximum memberships to return (default 10, max 100)"),
        ("offset", "Pagination offset"),
    ];
    let rs: [&str; 1] = ["user_id"];
    let t = tool("clerk_list_user_organization_memberships", "List all Clerk organizations a user belongs to, with their role and organization metadata. Use after list_users to map a user to their tenants/workspaces.", &ps, &rs);
    assert(str_pairs_view(ps@) =~= list_user_organization_memberships_tool().parameters);
    assert(keys_view(rs@) =~= list_user_organization_memberships_tool().required);
    defs.push(t);
    // clerk_list_sessions
    let ps: [(&str, &str); 3] = [
        ("client_id", "Filter sessions for a specific client/device"),
        ("user_id", "Filter sessions for a specific Clerk user"),
        ("status", "Filter by session status: abandoned, active, ended, expired, removed, replaced, revoked"),
    ];
    let rs: [&str; 0] = [];
    let t = tool("clerk_list_sessions", "List Clerk authentication sessions (active sign-ins). Start here for session debugging, auditing who is signed in, revoking suspicious logins, and seeing which clients/devices a user is using.", &ps, &rs);
    assert(str_pairs_view(ps@) =~= list_sessions_tool().parameters);
    assert(keys_view(rs@) =~= list_sessions_tool().required);
    defs.push(t);
    // clerk_get_session
    let ps: [(&str, &str); 1] = [
        ("session_id", "Clerk session ID (e.g. sess_2abc...)"),
    ];
    let rs: [&str; 1] = ["session_id"];
    let t = tool("clerk_get_session", "Get a Clerk session by ID, including user, client, status, expiry, and latest activity (browser, device, location). Use after list_sessions when debugging a specific sign-in.", &ps, &rs);
    assert(str_pairs_view(ps@) =~= get_session_tool().parameters);
    assert(keys_view(rs@) =~= get_session_tool().required);
    defs.push(t);
    // clerk_revoke_session
    let ps: [(&str, &str); 1] = [
        ("session_id", "Clerk session ID to revoke"),
    ];
    let rs: [&str; 1] = ["session_id"];
    let t = tool("clerk_revoke_session", "Revoke a Clerk session, signing the user out of that client/device. Use after list_sessions or get_session for security incident response.", &ps, &rs);
    assert(str_pairs_view(ps@) =~= revoke_session_tool().parameters);
    assert(keys_view(rs@) =~= revoke_session_tool().required);
    defs.push(t);
    // clerk_list_organizations
    let ps: [(&str, &str); 6] = [
        ("limit", "Maximum organizations to return (default 10, max 500)"),
        ("offset", "Pagination offset (default 0)"),
        ("include_members_count", "Include each organization's member count (true/false)"),
        ("order_by", "Sort field with optional direction, e.g. -created_at, +name, +members_count (default -created_at)"),
        ("query", "Free-text query matched against organization name, slug, or ID"),
        ("user_id", "Comma-separated user IDs — return organizations that any of these users belong to"),
    ];
    let rs: [&str; 0] = [];
    let t = tool("clerk_list_organizations", "List or search Clerk organizations (tenants, workspaces, teams, accounts). Start here for B2B tenant management, customer audit, finding which organizations exist, or onboarding/billing reviews.", &ps, &rs);
    assert(str_pairs_view(ps@) =~= list_organizations_tool().parameters);
    assert(keys_view(rs@) =~= list_organizations_tool().required);
    defs.push(t);
    // clerk_get_organization
    let ps: [(&str, &str); 2] = [
        ("organization_id", "Organization ID (e.g. org_2abc...) or slug"),
        ("include_members_count", "Include the organization's member count (true/false)"),
    ];
    let rs: [&str; 1] = ["organization_id"];
    let t = tool("clerk_get_organization", "Get a Clerk organization by ID or slug, including members count, max allowed memberships, creator, metadata, and timestamps. Use after list_organizations.", &ps, &rs);
    assert(str_pairs_view(ps@) =~= get_organization_tool().parameters);
    assert(keys_view(rs@) =~= get_organization_tool().required);
    defs.push(t);
    // clerk_create_organization
    let ps: [(&str, &str); 6] = [
        ("name", "Organization display name"),
        ("created_by", "Clerk user ID who will be the initial owner"),
        ("slug", "URL-safe slug (auto-generated if omitted)"),
        ("max_allowed_memberships", "Cap on total members (0 or omit for unlimited)"),
        ("public_metadata", "JSON object string of public metadata"),
        ("private_metadata", "JSON object string of private metadata"),
    ];
    let rs: [&str; 2] = ["name", "created_by"];
    let t = tool("clerk_create_organization", "Create a new Clerk organization (tenant, workspace, team) with a name, optional slug, creator user, and metadata.", &ps, &rs);
    assert(str_pairs_view(ps@) =~= create_organization_tool().parameters);
    assert(keys_view(rs@) =~= create_organization_tool().required);
    defs.push(t);
    // clerk_update_organization
    let ps: [(&str, &str); 7] = [
        ("organization_id", "Organization ID or slug"),
        ("name", "New organization name"),
        ("slug", "New URL-safe slug"),
        ("max_allowed_memberships", "New cap on total members (0 for unlimited)"),
        ("admin_delete_enabled", "Allow admins to delete the organization (true/false)"),
        ("public_metadata", "JSON object string of public metadata (replaces existing)"),
        ("private_metadata", "JSON object string of private metadata (replaces existing)"),
    ];
    let rs: [&str; 1] = ["organization_id"];
    let t = tool("clerk_update_organization", "Update a Clerk organization's name, slug, member cap, or metadata. Use after list_organizations or get_organization.", &ps, &rs);
    assert(str_pairs_view(ps@) =~= update_organization_tool().parameters);
    assert(keys_view(rs@) =~= update_organization_tool().required);
    defs.push(t);
    // clerk_delete_organization
    let ps: [(&str, &str); 1] = [
        ("organization_id", "Organization ID or slug to delete"),
    ];
    let rs: [&str; 1] = ["organization_id"];
    let t = tool("clerk_delete_organization", "Permanently delete a Clerk organization. Removes all memberships and invitations.", &ps, &rs);
    assert(str_pairs_view(ps@) =~= delete_organization_tool().parameters);
    assert(keys_view(rs@) =~= delete_organization_tool().required);
    defs.push(t);
    // clerk_list_organization_memberships
    let ps: [(&str, &str); 4] = [
        ("organization_id", "Organization ID or slug"),
        ("limit", "Maximum memberships to return (default 10, max 500)"),
        ("offset", "Pagination offset"),
        ("order_by", "Sort field, e.g. -created_at, +last_active_at, +first_name"),
    ];
    let rs: [&str; 1] = ["organization_id"];
    let t = tool("clerk_list_organization_memberships", "List members of a Clerk organization with their role and user data. Use after list_organizations to see who belongs to a tenant/workspace/team.", &ps, &rs);
    assert(str_pairs_view(ps@) =~= list_organization_memberships_tool().parameters);
    assert(keys_view(rs@) =~= list_organization_memberships_tool().required);
    defs.push(t);
    // clerk_create_organization_membership
    let ps: [(&str, &str); 3] = [
        ("organization_id", "Organization ID or slug"),
        ("user_id", "Clerk user ID to add"),
        ("role", "Role for the new member (e.g. admin, basic_member, or a custom role key)"),
    ];
    let rs: [&str; 3] = ["organization_id", "user_id", "role"];
    let t = tool("clerk_create_organization_membership", "Add an existing Clerk user to an organization with a role. Use to invite/onboard team members programmatically when they already have an account.", &ps, &rs);
    assert(str_pairs_view(ps@) =~= create_organization_membership_tool().parameters);
    assert(keys_view(rs@) =~= create_organization_membership_tool().required);
    defs.push(t);
    // clerk_update_organization_membership
    let ps: [(&str, &str); 3] = [
        ("organization_id", "Organization ID or slug"),
        ("user_id", "Clerk user ID of the member"),
        ("role", "New role key"),
    ];
    let rs: [&str; 3] = ["organization_id", "user_id", "role"];
    let t = tool("clerk_update_organization_membership", "Change a Clerk organization member's role (e.g. promote to admin).", &ps, &rs);
    assert(str_pairs_view(ps@) =~= update_organization_membership_tool().parameters);
    assert(keys_view(rs@) =~= update_organization_membership_tool().required);
    defs.push(t);
    // clerk_delete_organization_membership
    let ps: [(&str, &str); 2] = [
        ("organization_id", "Organization ID or slug"),
        ("user_id", "Clerk user ID of the member to remove"),
    ];
    let rs: [&str; 2] = ["organization_id", "user_id"];
    let t = tool("clerk_delete_organization_membership", "Remove a user from a Clerk organization. Use after list_organization_memberships.", &ps, &rs);
    assert(str_pairs_view(ps@) =~= delete_organization_membership_tool().parameters);
    assert(keys_view(rs@) =~= delete_organization_membership_tool().required);
    defs.push(t);
    // clerk_list_organization_invitations
    let ps: [(&str, &str); 4] = [
        ("organization_id", "Organization ID or slug"),
        ("limit", "Maximum invitations to return (default 10, max 500)"),
        ("offset", "Pagination offset"),
        ("status", "Comma-separated statuses to filter: pending, accepted, revoked"),
    ];
    let rs: [&str; 1] = ["organization_id"];
    let t = tool("clerk_list_organization_invitations", "List pending, accepted, or revoked invitations to a Clerk organization. Use to audit outstanding invites before resending or revoking.", &ps, &rs);
    assert(str_pairs_view(ps@) =~= list_organization_invitations_tool().parameters);
    assert(keys_view(rs@) =~= list_organization_invitations_tool().required);
    defs.push(t);
    // clerk_create_organization_invitation
    let ps: [(&str, &str); 7] = [
        ("organization_id", "Organization ID or slug"),
        ("email_address", "Recipient email address"),
        ("role", "Role to grant on acceptance (e.g. admin, basic_member, or a custom role key)"),
        ("inviter_user_id", "Clerk user ID of the inviter (shown in the invitation email)"),
        ("redirect_url", "URL to send the recipient to after accepting"),
        ("public_metadata", "JSON object string of public metadata"),
        ("private_metadata", "JSON object string of private metadata"),
    ];
    let rs: [&str; 3] = ["organization_id", "email_address", "role"];
    let t = tool("clerk_create_organization_invitation", "Invite a user by email to join a Clerk organization with a role. Sends an email and creates a pending invitation.", &ps, &rs);
    assert(str_pairs_view(ps@) =~= create_organization_invitation_tool().parameters);
    assert(keys_view(rs@) =~= create_organization_invitation_tool().required);
    defs.push(t);
    // clerk_revoke_organization_invitation
    let ps: [(&str, &str); 3] = [
        ("organization_id", "Organization ID or slug"),
        ("invitation_id", "Invitation ID to revoke"),
        ("requesting_user_id", "Clerk user ID performing the revoke (for audit)"),
    ];
    let rs: [&str; 2] = ["organization_id", "invitation_id"];
    let t = tool("clerk_revoke_organization_invitation", "Revoke a pending Clerk organization invitation. Use after list_organization_invitations.", &ps, &rs);
    assert(str_pairs_view(ps@) =~= revoke_organization_invitation_tool().parameters);
    assert(keys_view(rs@) =~= revoke_organization_invitation_tool().required);
    defs.push(t);
    // clerk_list_invitations
    let ps: [(&str, &str); 5] = [
        ("limit", "Maximum invitations to return (default 10, max 500)"),
        ("offset", "Pagination offset"),
        ("status", "Filter by status: pending, accepted, revoked"),
        ("query", "Free-text query matched against the invitation email address"),
        ("order_by", "Sort field, e.g. -created_at, -updated_at"),
    ];
    let rs: [&str; 0] = [];
    let t = tool("clerk_list_invitations", "List Clerk instance-level invitations (not tied to an organization). Start here for auditing outstanding sign-up invites sent to email addresses.", &ps, &rs);
    assert(str_pairs_view(ps@) =~= list_invitations_tool().parameters);
    assert(keys_view(rs@) =~= list_invitations_tool().required);
    defs.push(t);
    // clerk_create_invitation
    let ps: [(&str, &str); 7] = [
        ("email_address", "Recipient email address"),
        ("redirect_url", "URL to send the recipient to after accepting"),
        ("notify", "Send the invitation email (true/false, default true)"),
        ("ignore_existing", "Don't error if an invitation already exists for this email (true/false)"),
        ("expires_in_days", "Invitation lifetime in days"),
        ("template_slug", "Specific invitation email template slug to use"),
        ("public_metadata", "JSON object string of public metadata"),
    ];
    let rs: [&str; 1] = ["email_address"];
    let t = tool("clerk_create_invitation", "Send a Clerk instance-level invitation to an email address. The recipient gets a sign-up link.", &ps, &rs);
    assert(str_pairs_view(ps@) =~= create_invitation_tool().parameters);
    assert(keys_view(rs@) =~= create_invitation_tool().required);
    defs.push(t);
    // clerk_revoke_invitation
    let ps: [(&str, &str); 1] = [
        ("invitation_id", "Invitation ID to revoke"),
    ];
    let rs: [&str; 1] = ["invitation_id"];
    let t = tool("clerk_revoke_invitation", "Revoke a pending Clerk instance-level invitation. Use after list_invitations.", &ps, &rs);
    assert(str_pairs_view(ps@) =~= revoke_invitation_tool().parameters);
    assert(keys_view(rs@) =~= revoke_invitation_tool().required);
    defs.push(t);
    // clerk_list_allowlist_identifiers
    let ps: [(&str, &str); 0] = [];
    let rs: [&str; 0] = [];
    let t = tool("clerk_list_allowlist_identifiers", "List identifiers (emails, phones, domains) on the Clerk sign-up allow list. Start here when auditing who is allowed to register for the application.", &ps, &rs);
    assert(str_pairs_view(ps@) =~= list_allowlist_identifiers_tool().parameters);
    assert(keys_view(rs@) =~= list_allowlist_identifiers_tool().required);
    defs.push(t);
    // clerk_create_allowlist_identifier
    let ps: [(&str, &str); 2] = [
        ("identifier", "Email address, E.164 phone number, or @domain to allow"),
        ("notify", "Send a notification to the identifier when added (true/false)"),
    ];
    let rs: [&str; 1] = ["identifier"];
    let t = tool("clerk_create_allowlist_identifier", "Add an email address, phone number, or domain (e.g. @example.com) to the Clerk sign-up allow list.", &ps, &rs);
    assert(str_pairs_view(ps@) =~= create_allowlist_identifier_tool().parameters);
    assert(keys_view(rs@) =~= create_allowlist_identifier_tool().required);
    defs.push(t);
    // clerk_delete_allowlist_identifier
    let ps: [(&str, &str); 1] = [
        ("identifier_id", "Allowlist identifier ID returned by list_allowlist_identifiers"),
    ];
    let rs: [&str; 1] = ["identifier_id"];
    let t = tool("clerk_delete_allowlist_identifier", "Remove an identifier from the Clerk sign-up allow list.", &ps, &rs);
    assert(str_pairs_view(ps@) =~= delete_allowlist_identifier_tool().parameters);
    assert(keys_view(rs@) =~= delete_allowlist_identifier_tool().required);
    defs.push(t);
    // clerk_list_blocklist_identifiers
    let ps: [(&str, &str); 0] = [];
    let rs: [&str; 0] = [];
    let t = tool("clerk_list_blocklist_identifiers", "List identifiers (emails, phones, domains) on the Clerk sign-up block list. Start here when auditing which addresses are blocked from registering.", &ps, &rs);
    assert(str_pairs_view(ps@) =~= list_blocklist_identifiers_tool().parameters);
    assert(keys_view(rs@) =~= list_blocklist_identifiers_tool().required);
    defs.push(t);
    // clerk_create_blocklist_identifier
    let ps: [(&str, &str); 1] = [
        ("identifier", "Email address, E.164 phone number, or @domain to block"),
    ];
    let rs: [&str; 1] = ["identifier"];
    let t = tool("clerk_create_blocklist_identifier", "Add an email address, phone number, or domain (e.g. @example.com) to the Clerk sign-up block list.", &ps, &rs);
    assert(str_pairs_view(ps@) =~= create_blocklist_identifier_tool().parameters);
    assert(keys_view(rs@) =~= create_blocklist_identifier_tool().required);
    defs.push(t);
    // clerk_delete_blocklist_identifier
    let ps: [(&str, &str); 1] = [
        ("identifier_id", "Blocklist identifier ID returned by list_blocklist_identifiers"),
    ];
    let rs: [&str; 1] = ["identifier_id"];
    let t = tool("clerk_delete_blocklist_identifier", "Remove an identifier from the Clerk sign-up block list.", &ps, &rs);
    assert(str_pairs_view(ps@) =~= delete_blocklist_identifier_tool().parameters);
    assert(keys_view(rs@) =~= delete_blocklist_identifier_tool().required);
    defs.push(t);
    assert(tools_view(defs@) =~= tool_table());
    defs
}

/// No two tools have the same name.
pub proof fn lemma_tool_names_distinct()
    ensures
        keys_distinct(tool_names(tool_table())),
{
    reveal_strlit("clerk_list_users");
    assert("clerk_list_users"@.len() == 16);
    assert("clerk_list_users"@[6] == 'l');
    reveal_strlit("clerk_get_user");
    assert("clerk_get_user"@.len() == 14);
    assert("clerk_get_user"@[6] == 'g');
    reveal_strlit("clerk_create_user");
    assert("clerk_create_user"@.len() == 17);
    assert("clerk_create_user"@[6] == 'c');
    reveal_strlit("clerk_update_user");
    assert("clerk_update_user"@.len() == 17);
    assert("clerk_update_user"@[6] == 'u');
    assert("clerk_update_user"@[7] == 'p');
    reveal_strlit("clerk_delete_user");
    assert("clerk_delete_user"@.len() == 17);
    assert("clerk_delete_user"@[6] == 'd');
    reveal_strlit("clerk_ban_user");
    assert("clerk_ban_user"@.len() == 14);
    assert("clerk_ban_user"@[6] == 'b');
    reveal_strlit("clerk_unban_user");
    assert("clerk_unban_user"@.len() == 16);
    assert("clerk_unban_user"@[6] == 'u');
    reveal_strlit("clerk_lock_user");
    assert("clerk_lock_user"@.len() == 15);
    reveal_strlit("clerk_unlock_user");
    assert("clerk_unlock_user"@.len() == 17);
    assert("clerk_unlock_user"@[6] == 'u');
    assert("clerk_unlock_user"@[7] == 'n');
    reveal_strlit("clerk_list_user_organization_memberships");
    assert("clerk_list_user_organization_memberships"@.len() == 40);
    reveal_strlit("clerk_list_sessions");
    assert("clerk_list_sessions"@.len() == 19);
    reveal_strlit("clerk_get_session");
    assert("clerk_get_session"@.len() == 17);
    assert("clerk_get_session"@[6] == 'g');
    reveal_strlit("clerk_revoke_session");
    assert("clerk_revoke_session"@.len() == 20);
    reveal_strlit("clerk_list_organizations");
    assert("clerk_list_organizations"@.len() == 24);
    reveal_strlit("clerk_get_organization");
    assert("clerk_get_organization"@.len() == 22);
    assert("clerk_get_organization"@[6] == 'g');
    reveal_strlit("clerk_create_organization");
    assert("clerk_create_organization"@.len() == 25);
    assert("clerk_create_organization"@[6] == 'c');
    reveal_strlit("clerk_update_organization");
    assert("clerk_update_organization"@.len() == 25);
    assert("clerk_update_organization"@[6] == 'u');
    reveal_strlit("clerk_delete_organization");
    assert("clerk_delete_organization"@.len() == 25);
    assert("clerk_delete_organization"@[6] == 'd');
    reveal_strlit("clerk_list_organization_memberships");
    assert("clerk_list_organization_memberships"@.len() == 35);
    assert("clerk_list_organization_memberships"@[24] == 'm');
    reveal_strlit("clerk_create_organization_membership");
    assert("clerk_create_organization_membership"@.len() == 36);
    assert("clerk_create_organization_membership"@[6] == 'c');
    assert("clerk_create_organization_membership"@[26] == 'm');
    reveal_strlit("clerk_update_organization_membership");
    assert("clerk_update_organization_membership"@.len() == 36);
    assert("clerk_update_organization_membership"@[6] == 'u');
    reveal_strlit("clerk_delete_organization_membership");
    assert("clerk_delete_organization_membership"@.len() == 36);
    assert("clerk_delete_organization_membership"@[6] == 'd');
    reveal_strlit("clerk_list_organization_invitations");
    assert("clerk_list_organization_invitations"@.len() == 35);
    assert("clerk_list_organization_invitations"@[24] == 'i');
    reveal_strlit("clerk_create_organization_invitation");
    assert("clerk_create_organization_invitation"@.len() == 36);
    assert("clerk_create_organization_invitation"@[6] == 'c');
    assert("clerk_create_organization_invitation"@[26] == 'i');
    reveal_strlit("clerk_revoke_organization_invitation");
    assert("clerk_revoke_organization_invitation"@.len() == 36);
    assert("clerk_revoke_organization_invitation"@[6] == 'r');
    reveal_strlit("clerk_list_invitations");
    assert("clerk_list_invitations"@.len() == 22);
    assert("clerk_list_invitations"@[6] == 'l');
    reveal_strlit("clerk_create_invitation");
    assert("clerk_create_invitation"@.len() == 23);
    assert("clerk_create_invitation"@[6] == 'c');
    reveal_strlit("clerk_revoke_invitation");
    assert("clerk_revoke_invitation"@.len() == 23);
    assert("clerk_revoke_invitation"@[6] == 'r');
    reveal_strlit("clerk_list_allowlist_identifiers");
    assert("clerk_list_allowlist_identifiers"@.len() == 32);
    assert("clerk_list_allowlist_identifiers"@[11] == 'a');
    reveal_strlit("clerk_create_allowlist_identifier");
    assert("clerk_create_allowlist_identifier"@.len() == 33);
    assert("clerk_create_allowlist_identifier"@[6] == 'c');
    assert("clerk_create_allowlist_identifier"@[13] == 'a');
    reveal_strlit("clerk_delete_allowlist_identifier");
    assert("clerk_delete_allowlist_identifier"@.len() == 33);
    assert("clerk_delete_allowlist_identifier"@[6] == 'd');
    assert("clerk_delete_allowlist_identifier"@[13] == 'a');
    reveal_strlit("clerk_list_blocklist_identifiers");
    assert("clerk_list_blocklist_identifiers"@.len() == 32);
    assert("clerk_list_blocklist_identifiers"@[11] == 'b');
    reveal_strlit("clerk_create_blocklist_identifier");
    assert("clerk_create_blocklist_identifier"@.len() == 33);
    assert("clerk_create_blocklist_identifier"@[6] == 'c');
    assert("clerk_create_blocklist_identifier"@[13] == 'b');
    reveal_strlit("clerk_delete_blocklist_identifier");
    assert("clerk_delete_blocklist_identifier"@.len() == 33);
    assert("clerk_delete_blocklist_identifier"@[6] == 'd');
    assert("clerk_delete_blocklist_identifier"@[13] == 'b');
    assert(tool_names(tool_table()) =~= seq!["clerk_list_users"@, "clerk_get_user"@, "clerk_create_user"@, "clerk_update_user"@, "clerk_delete_user"@, "clerk_ban_user"@, "clerk_unban_user"@, "clerk_lock_user"@, "clerk_unlock_user"@, "clerk_list_user_organization_memberships"@, "clerk_list_sessions"@, "clerk_get_session"@, "clerk_revoke_session"@, "clerk_list_organizations"@, "clerk_get_organization"@, "clerk_create_organization"@, "clerk_update_organization"@, "clerk_delete_organization"@, "clerk_list_organization_memberships"@, "clerk_create_organization_membership"@, "clerk_update_organization_membership"@, "clerk_delete_organization_membership"@, "clerk_list_organization_invitations"@, "clerk_create_organization_invitation"@, "clerk_revoke_organization_invitation"@, "clerk_list_invitations"@, "clerk_create_invitation"@, "clerk_revoke_invitation"@, "clerk_list_allowlist_identifiers"@, "clerk_create_allowlist_identifier"@, "clerk_delete_allowlist_identifier"@, "clerk_list_blocklist_identifiers"@, "clerk_create_blocklist_identifier"@, "clerk_delete_blocklist_identifier"@]);
}

/// No tool lists a parameter twice.
pub proof fn lemma_parameters_distinct()
    ensures
        forall|t: int| 0 <= t < tool_table().len() ==> keys_distinct(pair_keys(#[trigger] tool_table()[t].parameters)),
{
    assert(keys_distinct(pair_keys(list_users_tool().parameters))) by {
        reveal_strlit("limit");
        assert("limit"@.len() == 5);
        assert("limit"@[0] == 'l');
        reveal_strlit("offset");
        assert("offset"@.len() == 6);
        assert("offset"@[0] == 'o');
        reveal_strlit("order_by");
        assert("order_by"@.len() == 8);
        assert("order_by"@[0] == 'o');
        reveal_strlit("query");
        assert("query"@.len() == 5);
        assert("query"@[0] == 'q');
        reveal_strlit("email_address");
        assert("email_address"@.len() == 13);
        reveal_strlit("phone_number");
        assert("phone_number"@.len() == 12);
        reveal_strlit("username");
        assert("username"@.len() == 8);
        assert("username"@[0] == 'u');
        reveal_strlit("user_id");
        assert("user_id"@.len() == 7);
        reveal_strlit("external_id");
        assert("external_id"@.len() == 11);
        reveal_strlit("organization_id");
        assert("organization_id"@.len() == 15);
        reveal_strlit("banned");
        assert("banned"@.len() == 6);
        assert("banned"@[0] == 'b');
        reveal_strlit("locked");
        assert("locked"@.len() == 6);
        assert("locked"@[0] == 'l');
        reveal_strlit("last_active_at_since");
        assert("last_active_at_since"@.len() == 20);
        assert(pair_keys(list_users_tool().parameters) =~= seq!["limit"@, "offset"@, "order_by"@, "query"@, "email_address"@, "phone_number"@, "username"@, "user_id"@, "external_id"@, "organization_id"@, "banned"@, "locked"@, "last_active_at_since"@]);
    }
    assert(keys_distinct(pair_keys(get_user_tool().parameters)));
    assert(keys_distinct(pair_keys(create_user_tool().parameters))) by {
        reveal_strlit("email_address");
        assert("email_address"@.len() == 13);
        reveal_strlit("phone_number");
        assert("phone_number"@.len() == 12);
        reveal_strlit("web3_wallet");
        assert("web3_wallet"@.len() == 11);
        assert("web3_wallet"@[0] == 'w');
        reveal_strlit("username");
        assert("username"@.len() == 8);
        assert("username"@[0] == 'u');
        reveal_strlit("password");
        assert("password"@.len() == 8);
        assert("password"@[0] == 'p');
        reveal_strlit("password_digest");
        assert("password_digest"@.len() == 15);
        assert("password_digest"@[0] == 'p');
        assert("password_digest"@[1] == 'a');
        assert("password_digest"@[9] == 'd');
        reveal_strlit("password_hasher");
        assert("password_hasher"@.len() == 15);
        assert("password_hasher"@[0] == 'p');
        assert("password_hasher"@[1] == 'a');
        assert("password_hasher"@[9] == 'h');
        reveal_strlit("first_name");
        assert("first_name"@.len() == 10);
        assert("first_name"@[0] == 'f');
        reveal_strlit("last_name");
        assert("last_name"@.len() == 9);
        reveal_strlit("external_id");
        assert("external_id"@.len() == 11);
        assert("external_id"@[0] == 'e');
        reveal_strlit("skip_password_checks");
        assert("skip_password_checks"@.len() == 20);
        reveal_strlit("skip_password_requirement");
        assert("skip_password_requirement"@.len() == 25);
        reveal_strlit("public_metadata");
        assert("public_metadata"@.len() == 15);
        assert("public_metadata"@[0] == 'p');
        assert("public_metadata"@[1] == 'u');
        reveal_strlit("private_metadata");
        assert("private_metadata"@.len() == 16);
        reveal_strlit("unsafe_metadata");
        assert("unsafe_metadata"@.len() == 15);
        assert("unsafe_metadata"@[0] == 'u');
        reveal_strlit("created_at");
        assert("created_at"@.len() == 10);
        assert("created_at"@[0] == 'c');
        assert(pair_keys(create_user_tool().parameters) =~= seq!["email_address"@, "phone_number"@, "web3_wallet"@, "username"@, "password"@, "password_digest"@, "password_hasher"@, "first_name"@, "last_name"@, "external_id"@, "skip_password_checks"@, "skip_password_requirement"@, "public_metadata"@, "private_metadata"@, "unsafe_metadata"@, "created_at"@]);
    }
    assert(keys_distinct(pair_keys(update_user_tool().parameters))) by {
        reveal_strlit("user_id");
        assert("user_id"@.len() == 7);
        reveal_strlit("first_name");
        assert("first_name"@.len() == 10);
        reveal_strlit("last_name");
        assert("last_name"@.len() == 9);
        reveal_strlit("username");
        assert("username"@.len() == 8);
        assert("username"@[0] == 'u');
        reveal_strlit("primary_email_address_id");
        assert("primary_email_address_id"@.len() == 24);
        reveal_strlit("primary_phone_number_id");
        assert("primary_phone_number_id"@.len() == 23);
        reveal_strlit("primary_web3_wallet_id");
        assert("primary_web3_wallet_id"@.len() == 22);
        reveal_strlit("profile_image_id");
        assert("profile_image_id"@.len() == 16);
        assert("profile_image_id"@[2] == 'o');
        reveal_strlit("password");
        assert("password"@.len() == 8);
        assert("password"@[0] == 'p');
        reveal_strlit("password_digest");
        assert("password_digest"@.len() == 15);
        assert("password_digest"@[0] == 'p');
        assert("password_digest"@[1] == 'a');
        assert("password_digest"@[9] == 'd');
        reveal_strlit("password_hasher");
        assert("password_hasher"@.len() == 15);
        assert("password_hasher"@[0] == 'p');
        assert("password_hasher"@[1] == 'a');
        assert("password_hasher"@[9] == 'h');
        reveal_strlit("sign_out_of_other_sessions");
        assert("sign_out_of_other_sessions"@.len() == 26);
        reveal_strlit("external_id");
        assert("external_id"@.len() == 11);
        reveal_strlit("public_metadata");
        assert("public_metadata"@.len() == 15);
        assert("public_metadata"@[0] == 'p');
        assert("public_metadata"@[1] == 'u');
        reveal_strlit("private_metadata");
        assert("private_metadata"@.len() == 16);
        assert("private_metadata"@[2] == 'i');
        reveal_strlit("unsafe_metadata");
        assert("unsafe_metadata"@.len() == 15);
        assert("unsafe_metadata"@[0] == 'u');
        assert(pair_keys(update_user_tool().parameters) =~= seq!["user_id"@, "first_name"@, "last_name"@, "username"@, "primary_email_address_id"@, "primary_phone_number_id"@, "primary_web3_wallet_id"@, "profile_image_id"@, "password"@, "password_digest"@, "password_hasher"@, "sign_out_of_other_sessions"@, "external_id"@, "public_metadata"@, "private_metadata"@, "unsafe_metadata"@]);
    }
    assert(keys_distinct(pair_keys(delete_user_tool().parameters)));
    assert(keys_distinct(pair_keys(ban_user_tool().parameters)));
    assert(keys_distinct(pair_keys(unban_user_tool().parameters)));
    assert(keys_distinct(pair_keys(lock_user_tool().parameters)));
    assert(keys_distinct(pair_keys(unlock_user_tool().parameters)));
    assert(keys_distinct(pair_keys(list_user_organization_memberships_tool().parameters))) by {
        reveal_strlit("user_id");
        assert("user_id"@.len() == 7);
        reveal_strlit("limit");
        assert("limit"@.len() == 5);
        reveal_strlit("offset");
        assert("offset"@.len() == 6);
        assert(pair_keys(list_user_organization_memberships_tool().parameters) =~= seq!["user_id"@, "limit"@, "offset"@]);
    }
    assert(keys_distinct(pair_keys(list_sessions_tool().parameters))) by {
        reveal_strlit("client_id");
        assert("client_id"@.len() == 9);
        reveal_strlit("user_id");
        assert("user_id"@.len() == 7);
        reveal_strlit("status");
        assert("status"@.len() == 6);
        assert(pair_keys(list_sessions_tool().parameters) =~= seq!["client_id"@, "user_id"@, "status"@]);
    }
    assert(keys_distinct(pair_keys(get_session_tool().parameters)));
    assert(keys_distinct(pair_keys(revoke_session_tool().parameters)));
    assert(keys_distinct(pair_keys(list_organizations_tool().parameters))) by {
        reveal_strlit("limit");
        assert("limit"@.len() == 5);
        assert("limit"@[0] == 'l');
        reveal_strlit("offset");
        assert("offset"@.len() == 6);
        reveal_strlit("include_members_count");
        assert("include_members_count"@.len() == 21);
        reveal_strlit("order_by");
        assert("order_by"@.len() == 8);
        reveal_strlit("query");
        assert("query"@.len() == 5);
        assert("query"@[0] == 'q');
        reveal_strlit("user_id");
        assert("user_id"@.len() == 7);
        assert(pair_keys(list_organizations_tool().parameters) =~= seq!["limit"@, "offset"@, "include_members_count"@, "order_by"@, "query"@, "user_id"@]);
    }
    assert(keys_distinct(pair_keys(get_organization_tool().parameters))) by {
        reveal_strlit("organization_id");
        assert("organization_id"@.len() == 15);
        reveal_strlit("include_members_count");
        assert("include_members_count"@.len() == 21);
        assert(pair_keys(get_organization_tool().parameters) =~= seq!["organization_id"@, "include_members_count"@]);
    }
    assert(keys_distinct(pair_keys(create_organization_tool().parameters))) by {
        reveal_strlit("name");
        assert("name"@.len() == 4);
        assert("name"@[0] == 'n');
        reveal_strlit("created_by");
        assert("created_by"@.len() == 10);
        reveal_strlit("slug");
        assert("slug"@.len() == 4);
        assert("slug"@[0] == 's');
        reveal_strlit("max_allowed_memberships");
        assert("max_allowed_memberships"@.len() == 23);
        reveal_strlit("public_metadata");
        assert("public_metadata"@.len() == 15);
        reveal_strlit("private_metadata");
        assert("private_metadata"@.len() == 16);
        assert(pair_keys(create_organization_tool().parameters) =~= seq!["name"@, "created_by"@, "slug"@, "max_allowed_memberships"@, "public_metadata"@, "private_metadata"@]);
    }
    assert(keys_distinct(pair_keys(update_organization_tool().parameters))) by {
        reveal_strlit("organization_id");
        assert("organization_id"@.len() == 15);
        assert("organization_id"@[0] == 'o');
        reveal_strlit("name");
        assert("name"@.len() == 4);
        assert("name"@[0] == 'n');
        reveal_strlit("slug");
        assert("slug"@.len() == 4);
        assert("slug"@[0] == 's');
        reveal_strlit("max_allowed_memberships");
        assert("max_allowed_memberships"@.len() == 23);
        reveal_strlit("admin_delete_enabled");
        assert("admin_delete_enabled"@.len() == 20);
        reveal_strlit("public_metadata");
        assert("public_metadata"@.len() == 15);
        assert("public_metadata"@[0] == 'p');
        reveal_strlit("private_metadata");
        assert("private_metadata"@.len() == 16);
        assert(pair_keys(update_organization_tool().parameters) =~= seq!["organization_id"@, "name"@, "slug"@, "max_allowed_memberships"@, "admin_delete_enabled"@, "public_metadata"@, "private_metadata"@]);
    }
    assert(keys_distinct(pair_keys(delete_organization_tool().parameters)));
    assert(keys_distinct(pair_keys(list_organization_memberships_tool().parameters))) by {
        reveal_strlit("organization_id");
        assert("organization_id"@.len() == 15);
        reveal_strlit("limit");
        assert("limit"@.len() == 5);
        reveal_strlit("offset");
        assert("offset"@.len() == 6);
        reveal_strlit("order_by");
        assert("order_by"@.len() == 8);
        assert(pair_keys(list_organization_memberships_tool().parameters) =~= seq!["organization_id"@, "limit"@, "offset"@, "order_by"@]);
    }
    assert(keys_distinct(pair_keys(create_organization_membership_tool().parameters))) by {
        reveal_strlit("organization_id");
        assert("organization_id"@.len() == 15);
        reveal_strlit("user_id");
        assert("user_id"@.len() == 7);
        reveal_strlit("role");
        assert("role"@.len() == 4);
        assert(pair_keys(create_organization_membership_tool().parameters) =~= seq!["organization_id"@, "user_id"@, "role"@]);
    }
    assert(keys_distinct(pair_keys(update_organization_membership_tool().parameters))) by {
        reveal_strlit("organization_id");
        assert("organization_id"@.len() == 15);
        reveal_strlit("user_id");
        assert("user_id"@.len() == 7);
        reveal_strlit("role");
        assert("role"@.len() == 4);
        assert(pair_keys(update_organization_membership_tool().parameters) =~= seq!["organization_id"@, "user_id"@, "role"@]);
    }
    assert(keys_distinct(pair_keys(delete_organization_membership_tool().parameters))) by {
        reveal_strlit("organization_id");
        assert("organization_id"@.len() == 15);
        reveal_strlit("user_id");
        assert("user_id"@.len() == 7);
        assert(pair_keys(delete_organization_membership_tool().parameters) =~= seq!["organization_id"@, "user_id"@]);
    }
    assert(keys_distinct(pair_keys(list_organization_invitations_tool().parameters))) by {
        reveal_strlit("organization_id");
        assert("organization_id"@.len() == 15);
        reveal_strlit("limit");
        assert("limit"@.len() == 5);
        reveal_strlit("offset");
        assert("offset"@.len() == 6);
        assert("offset"@[0] == 'o');
        reveal_strlit("status");
        assert("status"@.len() == 6);
        assert("status"@[0] == 's');
        assert(pair_keys(list_organization_invitations_tool().parameters) =~= seq!["organization_id"@, "limit"@, "offset"@, "status"@]);
    }
    assert(keys_distinct(pair_keys(create_organization_invitation_tool().parameters))) by {
        reveal_strlit("organization_id");
        assert("organization_id"@.len() == 15);
        assert("organization_id"@[0] == 'o');
        reveal_strlit("email_address");
        assert("email_address"@.len() == 13);
        reveal_strlit("role");
        assert("role"@.len() == 4);
        reveal_strlit("inviter_user_id");
        assert("inviter_user_id"@.len() == 15);
        assert("inviter_user_id"@[0] == 'i');
        reveal_strlit("redirect_url");
        assert("redirect_url"@.len() == 12);
        reveal_strlit("public_metadata");
        assert("public_metadata"@.len() == 15);
        assert("public_metadata"@[0] == 'p');
        reveal_strlit("private_metadata");
        assert("private_metadata"@.len() == 16);
        assert(pair_keys(create_organization_invitation_tool().parameters) =~= seq!["organization_id"@, "email_address"@, "role"@, "inviter_user_id"@, "redirect_url"@, "public_metadata"@, "private_metadata"@]);
    }
    assert(keys_distinct(pair_keys(revoke_organization_invitation_tool().parameters))) by {
        reveal_strlit("organization_id");
        assert("organization_id"@.len() == 15);
        reveal_strlit("invitation_id");
        assert("invitation_id"@.len() == 13);
        reveal_strlit("requesting_user_id");
        assert("requesting_user_id"@.len() == 18);
        assert(pair_keys(revoke_organization_invitation_tool().parameters) =~= seq!["organization_id"@, "invitation_id"@, "requesting_user_id"@]);
    }
    assert(keys_distinct(pair_keys(list_invitations_tool().parameters))) by {
        reveal_strlit("limit");
        assert("limit"@.len() == 5);
        assert("limit"@[0] == 'l');
        reveal_strlit("offset");
        assert("offset"@.len() == 6);
        assert("offset"@[0] == 'o');
        reveal_strlit("status");
        assert("status"@.len() == 6);
        assert("status"@[0] == 's');
        reveal_strlit("query");
        assert("query"@.len() == 5);
        assert("query"@[0] == 'q');
        reveal_strlit("order_by");
        assert("order_by"@.len() == 8);
        assert(pair_keys(list_invitations_tool().parameters) =~= seq!["limit"@, "offset"@, "status"@, "query"@, "order_by"@]);
    }
    assert(keys_distinct(pair_keys(create_invitation_tool().parameters))) by {
        reveal_strlit("email_address");
        assert("email_address"@.len() == 13);
        assert("email_address"@[0] == 'e');
        reveal_strlit("redirect_url");
        assert("redirect_url"@.len() == 12);
        reveal_strlit("notify");
        assert("notify"@.len() == 6);
        reveal_strlit("ignore_existing");
        assert("ignore_existing"@.len() == 15);
        assert("ignore_existing"@[0] == 'i');
        reveal_strlit("expires_in_days");
        assert("expires_in_days"@.len() == 15);
        assert("expires_in_days"@[0] == 'e');
        reveal_strlit("template_slug");
        assert("template_slug"@.len() == 13);
        assert("template_slug"@[0] == 't');
        reveal_strlit("public_metadata");
        assert("public_metadata"@.len() == 15);
        assert("public_metadata"@[0] == 'p');
        assert(pair_keys(create_invitation_tool().parameters) =~= seq!["email_address"@, "redirect_url"@, "notify"@, "ignore_existing"@, "expires_in_days"@, "template_slug"@, "public_metadata"@]);
    }
    assert(keys_distinct(pair_keys(revoke_invitation_tool().parameters)));
    assert(keys_distinct(pair_keys(list_allowlist_identifiers_tool().parameters)));
    assert(keys_distinct(pair_keys(create_allowlist_identifier_tool().parameters))) by {
        reveal_strlit("identifier");
        assert("identifier"@.len() == 10);
        reveal_strlit("notify");
        assert("notify"@.len() == 6);
        assert(pair_keys(create_allowlist_identifier_tool().parameters) =~= seq!["identifier"@, "notify"@]);
    }
    assert(keys_distinct(pair_keys(delete_allowlist_identifier_tool().parameters)));
    assert(keys_distinct(pair_keys(list_blocklist_identifiers_tool().parameters)));
    assert(keys_distinct(pair_keys(create_blocklist_identifier_tool().parameters)));
    assert(keys_distinct(pair_keys(delete_blocklist_identifier_tool().parameters)));
    assert forall|t: int| 0 <= t < tool_table().len() implies keys_distinct(pair_keys(#[trigger] tool_table()[t].parameters)) by {
        if t == 0 {
            assert(tool_table()[t] == list_users_tool());
        } else if t == 1 {
            assert(tool_table()[t] == get_user_tool());
        } else if t == 2 {
            assert(tool_table()[t] == create_user_tool());
        } else if t == 3 {
            assert(tool_table()[t] == update_user_tool());
        } else if t == 4 {
            assert(tool_table()[t] == delete_user_tool());
        } else if t == 5 {
            assert(tool_table()[t] == ban_user_tool());
        } else if t == 6 {
            assert(tool_table()[t] == unban_user_tool());
        } else if t == 7 {
            assert(tool_table()[t] == lock_user_tool());
        } else if t == 8 {
            assert(tool_table()[t] == unlock_user_tool());
        } else if t == 9 {
            assert(tool_table()[t] == list_user_organization_memberships_tool());
        } else if t == 10 {
            assert(tool_table()[t] == list_sessions_tool());
        } else if t == 11 {
            assert(tool_table()[t] == get_session_tool());
        } else if t == 12 {
            assert(tool_table()[t] == revoke_session_tool());
        } else if t == 13 {
            assert(tool_table()[t] == list_organizations_tool());
        } else if t == 14 {
            assert(tool_table()[t] == get_organization_tool());
        } else if t == 15 {
            assert(tool_table()[t] == create_organization_tool());
        } else if t == 16 {
            assert(tool_table()[t] == update_organization_tool());
        } else if t == 17 {
            assert(tool_table()[t] == delete_organization_tool());
        } else if t == 18 {
            assert(tool_table()[t] == list_organization_memberships_tool());
        } else if t == 19 {
            assert(tool_table()[t] == create_organization_membership_tool());
        } else if t == 20 {
            assert(tool_table()[t] == update_organization_membership_tool());
        } else if t == 21 {
            assert(tool_table()[t] == delete_organization_membership_tool());
        } else if t == 22 {
            assert(tool_table()[t] == list_organization_invitations_tool());
        } else if t == 23 {
            assert(tool_table()[t] == create_organization_invitation_tool());
        } else if t == 24 {
            assert(tool_table()[t] == revoke_organization_invitation_tool());
        } else if t == 25 {
            assert(tool_table()[t] == list_invitations_tool());
        } else if t == 26 {
            assert(tool_table()[t] == create_invitation_tool());
        } else if t == 27 {
            assert(tool_table()[t] == revoke_invitation_tool());
        } else if t == 28 {
            assert(tool_table()[t] == list_allowlist_identifiers_tool());
        } else if t == 29 {
            assert(tool_table()[t] == create_allowlist_identifier_tool());
        } else if t == 30 {
            assert(tool_table()[t] == delete_allowlist_identifier_tool());
        } else if t == 31 {
            assert(tool_table()[t] == list_blocklist_identifiers_tool());
        } else if t == 32 {
            assert(tool_table()[t] == create_blocklist_identifier_tool());
        } else if t == 33 {
            assert(tool_table()[t] == delete_blocklist_identifier_tool());
        }
    }
}

} // verus!
