//! The Clerk tools: each turns its arguments into the Backend API request it
//! makes, or into the error it reports without making one.
use vstd::prelude::*;

use crate::args::{arg_raw, arg_str, bool_arg, int_arg, raw_arg, required, required_arg, str_arg, ArgEntryV, Args, RawV, RawValue};
use crate::encoding::escaped;
use crate::json::{read_json, serde_json_read, JsonKind};
use crate::request::{
    add_bool_param, add_int_param, add_repeated_param, add_str_param, append_query, bare,
    bool_field, bool_param, clamped_pair, clamped_param, fields_view, id2_plan, id2_request,
    id_empty_body_plan, id_empty_body_request, id_plan, id_request, int_field, int_param,
    keys_view, pairs_view, path_around, path_two, plan_view, put, put_bool_arg, put_bool_args,
    copies_flag, copies_int, copies_text, put_bools, put_int_arg, put_opt, put_str_arg, put_str_args, put_strs, repeated_param,
    request, request_with, str_field, str_param, with_body, with_query, ApiRequest, Field, FieldV,
    Method, RequestV,
};
use crate::text::{bool_text, int_decimal, chars_of, csv_items, owned, push_str, split_csv, trim, trimmed};

verus! {

// ── Helpers ────────────────────────────────────────────────────────────────

/// A JSON argument: a non-empty string is read as JSON text; any other value
/// but null or the empty string is taken as it is.
pub open spec fn json_field(a: Seq<ArgEntryV>, k: Seq<char>) -> Result<Option<FieldV>, Seq<char>> {
    match raw_arg(a, k) {
        Some(RawV::Str(s)) => if s.len() > 0 {
            match serde_json_read(s) {
                Ok((_, t)) => Ok(Some(FieldV::Json(t))),
                Err(e) => Err(k + " must be valid JSON: "@ + e),
            }
        } else {
            Ok(None)
        },
        Some(RawV::Json(_, t)) => Ok(Some(FieldV::Json(t))),
        _ => Ok(None),
    }
}

/// `m` with `k` set from its JSON argument.
pub open spec fn put_json(m: Map<Seq<char>, FieldV>, a: Seq<ArgEntryV>, k: Seq<char>) -> Result<Map<Seq<char>, FieldV>, Seq<char>> {
    match json_field(a, k) {
        Err(e) => Err(e),
        Ok(v) => Ok(put_opt(m, k, v)),
    }
}

/// `m` with each key of `ks` set from its JSON argument, stopping at the
/// first that is not valid JSON.
pub open spec fn put_jsons(m: Map<Seq<char>, FieldV>, a: Seq<ArgEntryV>, ks: Seq<Seq<char>>) -> Result<Map<Seq<char>, FieldV>, Seq<char>>
    decreases ks.len(),
{
    if ks.len() == 0 {
        Ok(m)
    } else {
        match put_jsons(m, a, ks.drop_last()) {
            Err(e) => Err(e),
            Ok(m2) => put_json(m2, a, ks.last()),
        }
    }
}

/// `insert_json_body`.
fn insert_json_body(args: &Args, body: &mut Vec<(String, Field)>, key: &str) -> (r: Result<(), String>)
    ensures
        match (r, put_json(fields_view(old(body)@), args.view(), key@)) {
            (Ok(_), Ok(m)) => fields_view(final(body)@) == m,
            (Err(e), Err(msg)) => e@ == msg,
            _ => false,
        },
{
    match arg_raw(args, key) {
        Some(RawValue::Str(s)) => {
            if !s.as_str().is_empty() {
                match read_json(s.as_str()) {
                    Ok(j) => {
                        put(body, key, Field::Json(j.text));
                        Ok(())
                    },
                    Err(e) => {
                        let mut m = owned(key);
                        push_str(&mut m, " must be valid JSON: ");
                        push_str(&mut m, e.as_str());
                        Err(m)
                    },
                }
            } else {
                Ok(())
            }
        },
        Some(RawValue::Json(_, t)) => {
            put(body, key, Field::Json(t.clone()));
            Ok(())
        },
        _ => Ok(()),
    }
}

proof fn lemma_put_jsons_stops(m: Map<Seq<char>, FieldV>, a: Seq<ArgEntryV>, ks: Seq<Seq<char>>, i: int)
    requires
        0 <= i < ks.len(),
        put_jsons(m, a, ks.take(i + 1)) is Err,
    ensures
        put_jsons(m, a, ks) == put_jsons(m, a, ks.take(i + 1)),
    decreases ks.len() - i,
{
    if i + 1 < ks.len() {
        assert(ks.drop_last().take(i + 1) == ks.take(i + 1));
        lemma_put_jsons_stops(m, a, ks.drop_last(), i);
    } else {
        assert(ks.take(i + 1) == ks);
    }
}

/// `insert_json_body` for each key, in order.
fn insert_json_bodies(args: &Args, body: &mut Vec<(String, Field)>, keys: &[&str]) -> (r: Result<(), String>)
    ensures
        match (r, put_jsons(fields_view(old(body)@), args.view(), keys_view(keys@))) {
            (Ok(_), Ok(m)) => fields_view(final(body)@) == m,
            (Err(e), Err(msg)) => e@ == msg,
            _ => false,
        },
{
    let ghost start = fields_view(body@);
    let ghost ks = keys_view(keys@);
    let mut i: usize = 0;
    while i < keys.len()
        invariant
            0 <= i <= keys@.len(),
            ks == keys_view(keys@),
            start == fields_view(old(body)@),
            put_jsons(start, args.view(), ks.take(i as int)) == Ok::<Map<Seq<char>, FieldV>, Seq<char>>(
                fields_view(body@),
            ),
        decreases keys@.len() - i,
    {
        assert(ks.take(i + 1).drop_last() == ks.take(i as int));
        assert(ks.take(i + 1).last() == keys@[i as int]@);
        let ghost before = fields_view(body@);
        match insert_json_body(args, body, keys[i]) {
            Ok(_) => {},
            Err(e) => {
                proof {
                    assert(put_jsons(start, args.view(), ks.take(i + 1)) == put_json(before, args.view(), ks[i as int]));
                    lemma_put_jsons_stops(start, args.view(), ks, i as int);
                }
                return Err(e);
            },
        }
        i = i + 1;
    }
    assert(ks.take(keys@.len() as int) == ks);
    Ok(())
}

/// A list argument: an array is taken as it is; a non-empty string is
/// trimmed, then read as a JSON array when it starts with `[`, and as a
/// comma-separated list otherwise.
pub open spec fn list_field(a: Seq<ArgEntryV>, k: Seq<char>) -> Result<Option<FieldV>, Seq<char>> {
    match raw_arg(a, k) {
        Some(RawV::Json(JsonKind::Array, t)) => Ok(Some(FieldV::Json(t))),
        Some(RawV::Str(s)) => if s.len() > 0 {
            let t = trim(s);
            if t.len() > 0 && t[0] == '[' {
                match serde_json_read(t) {
                    Ok((kind, j)) => if kind == JsonKind::Array {
                        Ok(Some(FieldV::Json(j)))
                    } else {
                        Err(k + " must be a JSON array"@)
                    },
                    Err(e) => Err(k + " must be a JSON array: "@ + e),
                }
            } else {
                Ok(Some(FieldV::List(csv_items(t))))
            }
        } else {
            Ok(None)
        },
        _ => Ok(None),
    }
}

/// `m` with each key of `ks` set from its list argument, stopping at the
/// first error.
pub open spec fn put_lists(m: Map<Seq<char>, FieldV>, a: Seq<ArgEntryV>, ks: Seq<Seq<char>>) -> Result<Map<Seq<char>, FieldV>, Seq<char>>
    decreases ks.len(),
{
    if ks.len() == 0 {
        Ok(m)
    } else {
        match put_lists(m, a, ks.drop_last()) {
            Err(e) => Err(e),
            Ok(m2) => match list_field(a, ks.last()) {
                Err(e) => Err(e),
                Ok(v) => Ok(put_opt(m2, ks.last(), v)),
            },
        }
    }
}

/// `insert_string_array_body`.
fn insert_string_array_body(args: &Args, body: &mut Vec<(String, Field)>, key: &str) -> (r: Result<(), String>)
    ensures
        match (r, list_field(args.view(), key@)) {
            (Ok(_), Ok(v)) => fields_view(final(body)@) == put_opt(fields_view(old(body)@), key@, v),
            (Err(e), Err(msg)) => e@ == msg,
            _ => false,
        },
{
    match arg_raw(args, key) {
        Some(RawValue::Json(JsonKind::Array, t)) => {
            put(body, key, Field::Json(t.clone()));
            Ok(())
        },
        Some(RawValue::Str(s)) => {
            if s.as_str().is_empty() {
                return Ok(());
            }
            let t = trimmed(s.as_str());
            let cs = chars_of(t.as_str());
            if cs.len() > 0 && cs[0] == '[' {
                match read_json(t.as_str()) {
                    Ok(j) => {
                        if j.kind != JsonKind::Array {
                            let mut m = owned(key);
                            push_str(&mut m, " must be a JSON array");
                            return Err(m);
                        }
                        put(body, key, Field::Json(j.text));
                        Ok(())
                    },
                    Err(e) => {
                        let mut m = owned(key);
                        push_str(&mut m, " must be a JSON array: ");
                        push_str(&mut m, e.as_str());
                        Err(m)
                    },
                }
            } else {
                put(body, key, Field::List(split_csv(t.as_str())));
                Ok(())
            }
        },
        _ => Ok(()),
    }
}

proof fn lemma_put_lists_stops(m: Map<Seq<char>, FieldV>, a: Seq<ArgEntryV>, ks: Seq<Seq<char>>, i: int)
    requires
        0 <= i < ks.len(),
        put_lists(m, a, ks.take(i + 1)) is Err,
    ensures
        put_lists(m, a, ks) == put_lists(m, a, ks.take(i + 1)),
    decreases ks.len() - i,
{
    if i + 1 < ks.len() {
        assert(ks.drop_last().take(i + 1) == ks.take(i + 1));
        lemma_put_lists_stops(m, a, ks.drop_last(), i);
    } else {
        assert(ks.take(i + 1) == ks);
    }
}

/// `insert_string_array_body` for each key, in order.
fn insert_string_array_bodies(args: &Args, body: &mut Vec<(String, Field)>, keys: &[&str]) -> (r: Result<(), String>)
    ensures
        match (r, put_lists(fields_view(old(body)@), args.view(), keys_view(keys@))) {
            (Ok(_), Ok(m)) => fields_view(final(body)@) == m,
            (Err(e), Err(msg)) => e@ == msg,
            _ => false,
        },
{
    let ghost start = fields_view(body@);
    let ghost ks = keys_view(keys@);
    let mut i: usize = 0;
    while i < keys.len()
        invariant
            0 <= i <= keys@.len(),
            ks == keys_view(keys@),
            start == fields_view(old(body)@),
            put_lists(start, args.view(), ks.take(i as int)) == Ok::<Map<Seq<char>, FieldV>, Seq<char>>(
                fields_view(body@),
            ),
        decreases keys@.len() - i,
    {
        assert(ks.take(i + 1).drop_last() == ks.take(i as int));
        assert(ks.take(i + 1).last() == keys@[i as int]@);
        match insert_string_array_body(args, body, keys[i]) {
            Ok(_) => {},
            Err(e) => {
                proof {
                    lemma_put_lists_stops(start, args.view(), ks, i as int);
                }
                return Err(e);
            },
        }
        i = i + 1;
    }
    assert(ks.take(keys@.len() as int) == ks);
    Ok(())
}

/// The `limit` (default 10, kept within `1..=max`) and `offset` (default 0,
/// at least 0) of a paged list.
pub open spec fn page_params(a: Seq<ArgEntryV>, max: int) -> Seq<(Seq<char>, Seq<char>)> {
    seq![clamped_param(a, "limit"@, 10, 1, max), clamped_param(a, "offset"@, 0, 0, i64::MAX as int)]
}

fn page_pairs(args: &Args, max: i64) -> (r: Vec<(String, String)>)
    requires
        1 <= max,
    ensures
        pairs_view(r@) == page_params(args.view(), max as int),
{
    let mut params: Vec<(String, String)> = Vec::new();
    params.push(clamped_pair(args, "limit", 10, 1, max));
    params.push(clamped_pair(args, "offset", 0, 0, i64::MAX));
    assert(pairs_view(params@) =~= page_params(args.view(), max as int));
    params
}

/// The metadata keys of users.
pub open spec fn metadata_keys() -> Seq<Seq<char>> {
    seq!["public_metadata"@, "private_metadata"@, "unsafe_metadata"@]
}

/// The metadata keys of organizations and invitations.
pub open spec fn org_metadata_keys() -> Seq<Seq<char>> {
    seq!["public_metadata"@, "private_metadata"@]
}

// ── Users ──────────────────────────────────────────────────────────────────

pub open spec fn list_users_params(a: Seq<ArgEntryV>) -> Seq<(Seq<char>, Seq<char>)> {
    page_params(a, 500) + str_param(a, "order_by"@, "order_by"@) + str_param(a, "query"@, "query"@)
        + repeated_param(a, "email_address"@, "email_address"@) + repeated_param(
        a,
        "phone_number"@,
        "phone_number"@,
    ) + repeated_param(a, "username"@, "username"@) + repeated_param(a, "user_id"@, "user_id"@)
        + repeated_param(a, "external_id"@, "external_id"@) + repeated_param(
        a,
        "organization_id"@,
        "organization_id"@,
    ) + bool_param(a, "banned"@, "banned"@) + bool_param(a, "locked"@, "locked"@) + int_param(
        a,
        "last_active_at_since"@,
        "last_active_at_since"@,
    )
}

/// `GET /users` with the page and the filters that are given; list filters
/// are repeated once per comma-separated item.
pub open spec fn list_users_plan(a: Seq<ArgEntryV>) -> Result<RequestV, Seq<char>> {
    Ok(bare(Method::Get, with_query("/users"@, list_users_params(a))))
}

pub fn list_users(args: &Args) -> (r: Result<ApiRequest, String>)
    ensures
        plan_view(r) == list_users_plan(args.view()),
{
    let mut params = page_pairs(args, 500);
    add_str_param(args, &mut params, "order_by", "order_by");
    add_str_param(args, &mut params, "query", "query");
    add_repeated_param(args, &mut params, "email_address", "email_address");
    add_repeated_param(args, &mut params, "phone_number", "phone_number");
    add_repeated_param(args, &mut params, "username", "username");
    add_repeated_param(args, &mut params, "user_id", "user_id");
    add_repeated_param(args, &mut params, "external_id", "external_id");
    add_repeated_param(args, &mut params, "organization_id", "organization_id");
    add_bool_param(args, &mut params, "banned", "banned");
    add_bool_param(args, &mut params, "locked", "locked");
    add_int_param(args, &mut params, "last_active_at_since", "last_active_at_since");
    assert(pairs_view(params@) =~= list_users_params(args.view()));
    Ok(request(Method::Get, append_query("/users", &params)))
}

/// `GET /users/{user_id}`.
pub open spec fn get_user_plan(a: Seq<ArgEntryV>) -> Result<RequestV, Seq<char>> {
    id_plan(a, "user_id"@, Method::Get, "/users/"@, ""@)
}

pub fn get_user(args: &Args) -> (r: Result<ApiRequest, String>)
    ensures
        plan_view(r) == get_user_plan(args.view()),
{
    id_request(args, "user_id", Method::Get, "/users/", "")
}

pub open spec fn create_user_str_keys() -> Seq<Seq<char>> {
    seq![
        "username"@,
        "password"@,
        "password_digest"@,
        "password_hasher"@,
        "first_name"@,
        "last_name"@,
        "external_id"@,
        "created_at"@,
    ]
}

pub open spec fn create_user_bool_keys() -> Seq<Seq<char>> {
    seq!["skip_password_checks"@, "skip_password_requirement"@]
}

pub open spec fn create_user_list_keys() -> Seq<Seq<char>> {
    seq!["email_address"@, "phone_number"@, "web3_wallet"@]
}

/// `POST /users`: the identifier lists, the profile strings, the password
/// flags and the metadata that are given.
pub open spec fn create_user_plan(a: Seq<ArgEntryV>) -> Result<RequestV, Seq<char>> {
    match put_lists(Map::empty(), a, create_user_list_keys()) {
        Err(e) => Err(e),
        Ok(m) => {
            let m = put_bools(put_strs(m, a, create_user_str_keys()), a, create_user_bool_keys());
            match put_jsons(m, a, metadata_keys()) {
                Err(e) => Err(e),
                Ok(m) => Ok(with_body(Method::Post, "/users"@, m)),
            }
        },
    }
}

pub fn create_user(args: &Args) -> (r: Result<ApiRequest, String>)
    ensures
        plan_view(r) == create_user_plan(args.view()),
{
    let mut body: Vec<(String, Field)> = Vec::new();
    let list_keys = ["email_address", "phone_number", "web3_wallet"];
    assert(keys_view(list_keys@) =~= create_user_list_keys());
    if let Err(e) = insert_string_array_bodies(args, &mut body, &list_keys) {
        return Err(e);
    }
    let str_keys = [
        "username",
        "password",
        "password_digest",
        "password_hasher",
        "first_name",
        "last_name",
        "external_id",
        "created_at",
    ];
    assert(keys_view(str_keys@) =~= create_user_str_keys());
    put_str_args(args, &mut body, &str_keys);
    let bool_keys = ["skip_password_checks", "skip_password_requirement"];
    assert(keys_view(bool_keys@) =~= create_user_bool_keys());
    put_bool_args(args, &mut body, &bool_keys);
    let json_keys = ["public_metadata", "private_metadata", "unsafe_metadata"];
    assert(keys_view(json_keys@) =~= metadata_keys());
    if let Err(e) = insert_json_bodies(args, &mut body, &json_keys) {
        return Err(e);
    }
    Ok(request_with(Method::Post, owned("/users"), body))
}

pub open spec fn update_user_str_keys() -> Seq<Seq<char>> {
    seq![
        "first_name"@,
        "last_name"@,
        "username"@,
        "primary_email_address_id"@,
        "primary_phone_number_id"@,
        "primary_web3_wallet_id"@,
        "profile_image_id"@,
        "password"@,
        "password_digest"@,
        "password_hasher"@,
        "external_id"@,
    ]
}

/// `PATCH /users/{user_id}` with the profile strings, the sign-out flag and
/// the metadata that are given.
pub open spec fn update_user_plan(a: Seq<ArgEntryV>) -> Result<RequestV, Seq<char>> {
    match required_arg(a, "user_id"@) {
        Err(e) => Err(e),
        Ok(id) => {
            let m = put_strs(Map::empty(), a, update_user_str_keys());
            let m = put_opt(m, "sign_out_of_other_sessions"@, bool_field(a, "sign_out_of_other_sessions"@));
            match put_jsons(m, a, metadata_keys()) {
                Err(e) => Err(e),
                Ok(m) => Ok(with_body(Method::Patch, "/users/"@ + escaped(id), m)),
            }
        },
    }
}

pub fn update_user(args: &Args) -> (r: Result<ApiRequest, String>)
    ensures
        plan_view(r) == update_user_plan(args.view()),
{
    let id = match required(args, "user_id") {
        Ok(v) => v,
        Err(e) => return Err(e),
    };
    let mut body: Vec<(String, Field)> = Vec::new();
    let str_keys = [
        "first_name",
        "last_name",
        "username",
        "primary_email_address_id",
        "primary_phone_number_id",
        "primary_web3_wallet_id",
        "profile_image_id",
        "password",
        "password_digest",
        "password_hasher",
        "external_id",
    ];
    assert(keys_view(str_keys@) =~= update_user_str_keys());
    put_str_args(args, &mut body, &str_keys);
    put_bool_arg(args, &mut body, "sign_out_of_other_sessions");
    let json_keys = ["public_metadata", "private_metadata", "unsafe_metadata"];
    assert(keys_view(json_keys@) =~= metadata_keys());
    if let Err(e) = insert_json_bodies(args, &mut body, &json_keys) {
        return Err(e);
    }
    Ok(request_with(Method::Patch, crate::request::path_with("/users/", id.as_str()), body))
}

/// `DELETE /users/{user_id}`.
pub open spec fn delete_user_plan(a: Seq<ArgEntryV>) -> Result<RequestV, Seq<char>> {
    id_plan(a, "user_id"@, Method::Delete, "/users/"@, ""@)
}

pub fn delete_user(args: &Args) -> (r: Result<ApiRequest, String>)
    ensures
        plan_view(r) == delete_user_plan(args.view()),
{
    id_request(args, "user_id", Method::Delete, "/users/", "")
}

/// `POST /users/{user_id}/ban` with an empty object.
pub open spec fn ban_user_plan(a: Seq<ArgEntryV>) -> Result<RequestV, Seq<char>> {
    id_empty_body_plan(a, "user_id"@, Method::Post, "/users/"@, "/ban"@)
}

pub fn ban_user(args: &Args) -> (r: Result<ApiRequest, String>)
    ensures
        plan_view(r) == ban_user_plan(args.view()),
{
    id_empty_body_request(args, "user_id", Method::Post, "/users/", "/ban")
}

/// `POST /users/{user_id}/unban` with an empty object.
pub open spec fn unban_user_plan(a: Seq<ArgEntryV>) -> Result<RequestV, Seq<char>> {
    id_empty_body_plan(a, "user_id"@, Method::Post, "/users/"@, "/unban"@)
}

pub fn unban_user(args: &Args) -> (r: Result<ApiRequest, String>)
    ensures
        plan_view(r) == unban_user_plan(args.view()),
{
    id_empty_body_request(args, "user_id", Method::Post, "/users/", "/unban")
}

/// `POST /users/{user_id}/lock` with an empty object.
pub open spec fn lock_user_plan(a: Seq<ArgEntryV>) -> Result<RequestV, Seq<char>> {
    id_empty_body_plan(a, "user_id"@, Method::Post, "/users/"@, "/lock"@)
}

pub fn lock_user(args: &Args) -> (r: Result<ApiRequest, String>)
    ensures
        plan_view(r) == lock_user_plan(args.view()),
{
    id_empty_body_request(args, "user_id", Method::Post, "/users/", "/lock")
}

/// `POST /users/{user_id}/unlock` with an empty object.
pub open spec fn unlock_user_plan(a: Seq<ArgEntryV>) -> Result<RequestV, Seq<char>> {
    id_empty_body_plan(a, "user_id"@, Method::Post, "/users/"@, "/unlock"@)
}

pub fn unlock_user(args: &Args) -> (r: Result<ApiRequest, String>)
    ensures
        plan_view(r) == unlock_user_plan(args.view()),
{
    id_empty_body_request(args, "user_id", Method::Post, "/users/", "/unlock")
}

/// `GET /users/{user_id}/organization_memberships` with the page (limit at
/// most 100).
pub open spec fn list_user_organization_memberships_plan(a: Seq<ArgEntryV>) -> Result<RequestV, Seq<char>> {
    match required_arg(a, "user_id"@) {
        Err(e) => Err(e),
        Ok(id) => Ok(
            bare(
                Method::Get,
                with_query("/users/"@ + escaped(id) + "/organization_memberships"@, page_params(a, 100)),
            ),
        ),
    }
}

pub fn list_user_organization_memberships(args: &Args) -> (r: Result<ApiRequest, String>)
    ensures
        plan_view(r) == list_user_organization_memberships_plan(args.view()),
{
    let id = match required(args, "user_id") {
        Ok(v) => v,
        Err(e) => return Err(e),
    };
    let params = page_pairs(args, 100);
    let path = path_around("/users/", id.as_str(), "/organization_memberships");
    Ok(request(Method::Get, append_query(path.as_str(), &params)))
}

// ── Sessions ───────────────────────────────────────────────────────────────

pub open spec fn list_sessions_params(a: Seq<ArgEntryV>) -> Seq<(Seq<char>, Seq<char>)> {
    str_param(a, "client_id"@, "client_id"@) + str_param(a, "user_id"@, "user_id"@) + str_param(
        a,
        "status"@,
        "status"@,
    )
}

/// `GET /sessions`, filtered by client, user and status; a client or a user
/// is required.
pub open spec fn list_sessions_plan(a: Seq<ArgEntryV>) -> Result<RequestV, Seq<char>> {
    if str_arg(a, "client_id"@).len() == 0 && str_arg(a, "user_id"@).len() == 0 {
        Err("user_id or client_id is required"@)
    } else {
        Ok(bare(Method::Get, with_query("/sessions"@, list_sessions_params(a))))
    }
}

pub fn list_sessions(args: &Args) -> (r: Result<ApiRequest, String>)
    ensures
        plan_view(r) == list_sessions_plan(args.view()),
{
    let mut params: Vec<(String, String)> = Vec::new();
    add_str_param(args, &mut params, "client_id", "client_id");
    add_str_param(args, &mut params, "user_id", "user_id");
    add_str_param(args, &mut params, "status", "status");
    let has_filter = !arg_str(args, "client_id").as_str().is_empty() || !arg_str(args, "user_id").as_str().is_empty();
    if !has_filter {
        return Err(owned("user_id or client_id is required"));
    }
    assert(pairs_view(params@) =~= list_sessions_params(args.view()));
    Ok(request(Method::Get, append_query("/sessions", &params)))
}

/// `GET /sessions/{session_id}`.
pub open spec fn get_session_plan(a: Seq<ArgEntryV>) -> Result<RequestV, Seq<char>> {
    id_plan(a, "session_id"@, Method::Get, "/sessions/"@, ""@)
}

pub fn get_session(args: &Args) -> (r: Result<ApiRequest, String>)
    ensures
        plan_view(r) == get_session_plan(args.view()),
{
    id_request(args, "session_id", Method::Get, "/sessions/", "")
}

/// `POST /sessions/{session_id}/revoke` with an empty object.
pub open spec fn revoke_session_plan(a: Seq<ArgEntryV>) -> Result<RequestV, Seq<char>> {
    id_empty_body_plan(a, "session_id"@, Method::Post, "/sessions/"@, "/revoke"@)
}

pub fn revoke_session(args: &Args) -> (r: Result<ApiRequest, String>)
    ensures
        plan_view(r) == revoke_session_plan(args.view()),
{
    id_empty_body_request(args, "session_id", Method::Post, "/sessions/", "/revoke")
}

// ── Organizations ──────────────────────────────────────────────────────────

pub open spec fn list_organizations_params(a: Seq<ArgEntryV>) -> Seq<(Seq<char>, Seq<char>)> {
    page_params(a, 500) + bool_param(a, "include_members_count"@, "include_members_count"@)
        + str_param(a, "order_by"@, "order_by"@) + str_param(a, "query"@, "query"@)
        + repeated_param(a, "user_id"@, "user_id"@)
}

/// `GET /organizations` with the page and the filters that are given.
pub open spec fn list_organizations_plan(a: Seq<ArgEntryV>) -> Result<RequestV, Seq<char>> {
    Ok(bare(Method::Get, with_query("/organizations"@, list_organizations_params(a))))
}

pub fn list_organizations(args: &Args) -> (r: Result<ApiRequest, String>)
    ensures
        plan_view(r) == list_organizations_plan(args.view()),
{
    let mut params = page_pairs(args, 500);
    add_bool_param(args, &mut params, "include_members_count", "include_members_count");
    add_str_param(args, &mut params, "order_by", "order_by");
    add_str_param(args, &mut params, "query", "query");
    add_repeated_param(args, &mut params, "user_id", "user_id");
    assert(pairs_view(params@) =~= list_organizations_params(args.view()));
    Ok(request(Method::Get, append_query("/organizations", &params)))
}

/// `GET /organizations/{organization_id}`, asking for the member count when
/// told to.
pub open spec fn get_organization_plan(a: Seq<ArgEntryV>) -> Result<RequestV, Seq<char>> {
    match required_arg(a, "organization_id"@) {
        Err(e) => Err(e),
        Ok(id) => Ok(
            bare(
                Method::Get,
                with_query(
                    "/organizations/"@ + escaped(id),
                    bool_param(a, "include_members_count"@, "include_members_count"@),
                ),
            ),
        ),
    }
}

pub fn get_organization(args: &Args) -> (r: Result<ApiRequest, String>)
    ensures
        plan_view(r) == get_organization_plan(args.view()),
{
    let id = match required(args, "organization_id") {
        Ok(v) => v,
        Err(e) => return Err(e),
    };
    let mut params: Vec<(String, String)> = Vec::new();
    add_bool_param(args, &mut params, "include_members_count", "include_members_count");
    assert(pairs_view(params@) =~= bool_param(args.view(), "include_members_count"@, "include_members_count"@));
    let path = crate::request::path_with("/organizations/", id.as_str());
    Ok(request(Method::Get, append_query(path.as_str(), &params)))
}

/// `POST /organizations`: the name and creator are required; the slug, the
/// membership limit and the metadata are copied when given.
pub open spec fn create_organization_plan(a: Seq<ArgEntryV>) -> Result<RequestV, Seq<char>> {
    match required_arg(a, "name"@) {
        Err(e) => Err(e),
        Ok(name) => match required_arg(a, "created_by"@) {
            Err(e) => Err(e),
            Ok(by) => {
                let m = Map::empty().insert("name"@, FieldV::Str(name)).insert("created_by"@, FieldV::Str(by));
                let m = put_opt(m, "slug"@, str_field(a, "slug"@));
                let m = put_opt(m, "max_allowed_memberships"@, int_field(a, "max_allowed_memberships"@));
                match put_jsons(m, a, org_metadata_keys()) {
                    Err(e) => Err(e),
                    Ok(m) => Ok(with_body(Method::Post, "/organizations"@, m)),
                }
            },
        },
    }
}

pub fn create_organization(args: &Args) -> (r: Result<ApiRequest, String>)
    ensures
        plan_view(r) == create_organization_plan(args.view()),
{
    let name = match required(args, "name") {
        Ok(v) => v,
        Err(e) => return Err(e),
    };
    let created_by = match required(args, "created_by") {
        Ok(v) => v,
        Err(e) => return Err(e),
    };
    let mut body: Vec<(String, Field)> = Vec::new();
    put(&mut body, "name", Field::Str(name));
    put(&mut body, "created_by", Field::Str(created_by));
    put_str_arg(args, &mut body, "slug");
    put_int_arg(args, &mut body, "max_allowed_memberships");
    let json_keys = ["public_metadata", "private_metadata"];
    assert(keys_view(json_keys@) =~= org_metadata_keys());
    if let Err(e) = insert_json_bodies(args, &mut body, &json_keys) {
        return Err(e);
    }
    Ok(request_with(Method::Post, owned("/organizations"), body))
}

/// `PATCH /organizations/{organization_id}` with the name, slug, membership
/// limit, deletion flag and metadata that are given.
pub open spec fn update_organization_plan(a: Seq<ArgEntryV>) -> Result<RequestV, Seq<char>> {
    match required_arg(a, "organization_id"@) {
        Err(e) => Err(e),
        Ok(id) => {
            let m = put_opt(Map::empty(), "name"@, str_field(a, "name"@));
            let m = put_opt(m, "slug"@, str_field(a, "slug"@));
            let m = put_opt(m, "max_allowed_memberships"@, int_field(a, "max_allowed_memberships"@));
            let m = put_opt(m, "admin_delete_enabled"@, bool_field(a, "admin_delete_enabled"@));
            match put_jsons(m, a, org_metadata_keys()) {
                Err(e) => Err(e),
                Ok(m) => Ok(with_body(Method::Patch, "/organizations/"@ + escaped(id), m)),
            }
        },
    }
}

pub fn update_organization(args: &Args) -> (r: Result<ApiRequest, String>)
    ensures
        plan_view(r) == update_organization_plan(args.view()),
{
    let id = match required(args, "organization_id") {
        Ok(v) => v,
        Err(e) => return Err(e),
    };
    let mut body: Vec<(String, Field)> = Vec::new();
    put_str_arg(args, &mut body, "name");
    put_str_arg(args, &mut body, "slug");
    put_int_arg(args, &mut body, "max_allowed_memberships");
    put_bool_arg(args, &mut body, "admin_delete_enabled");
    let json_keys = ["public_metadata", "private_metadata"];
    assert(keys_view(json_keys@) =~= org_metadata_keys());
    if let Err(e) = insert_json_bodies(args, &mut body, &json_keys) {
        return Err(e);
    }
    Ok(request_with(Method::Patch, crate::request::path_with("/organizations/", id.as_str()), body))
}

/// `DELETE /organizations/{organization_id}`.
pub open spec fn delete_organization_plan(a: Seq<ArgEntryV>) -> Result<RequestV, Seq<char>> {
    id_plan(a, "organization_id"@, Method::Delete, "/organizations/"@, ""@)
}

pub fn delete_organization(args: &Args) -> (r: Result<ApiRequest, String>)
    ensures
        plan_view(r) == delete_organization_plan(args.view()),
{
    id_request(args, "organization_id", Method::Delete, "/organizations/", "")
}

/// `GET /organizations/{organization_id}/memberships` with the page and the
/// order when given.
pub open spec fn list_organization_memberships_plan(a: Seq<ArgEntryV>) -> Result<RequestV, Seq<char>> {
    match required_arg(a, "organization_id"@) {
        Err(e) => Err(e),
        Ok(id) => Ok(
            bare(
                Method::Get,
                with_query(
                    "/organizations/"@ + escaped(id) + "/memberships"@,
                    page_params(a, 500) + str_param(a, "order_by"@, "order_by"@),
                ),
            ),
        ),
    }
}

pub fn list_organization_memberships(args: &Args) -> (r: Result<ApiRequest, String>)
    ensures
        plan_view(r) == list_organization_memberships_plan(args.view()),
{
    let id = match required(args, "organization_id") {
        Ok(v) => v,
        Err(e) => return Err(e),
    };
    let mut params = page_pairs(args, 500);
    add_str_param(args, &mut params, "order_by", "order_by");
    let path = path_around("/organizations/", id.as_str(), "/memberships");
    Ok(request(Method::Get, append_query(path.as_str(), &params)))
}

/// `POST /organizations/{organization_id}/memberships` with the required
/// user and role.
pub open spec fn create_organization_membership_plan(a: Seq<ArgEntryV>) -> Result<RequestV, Seq<char>> {
    match required_arg(a, "organization_id"@) {
        Err(e) => Err(e),
        Ok(org) => match required_arg(a, "user_id"@) {
            Err(e) => Err(e),
            Ok(user) => match required_arg(a, "role"@) {
                Err(e) => Err(e),
                Ok(role) => Ok(
                    with_body(
                        Method::Post,
                        "/organizations/"@ + escaped(org) + "/memberships"@,
                        Map::empty().insert("user_id"@, FieldV::Str(user)).insert("role"@, FieldV::Str(role)),
                    ),
                ),
            },
        },
    }
}

pub fn create_organization_membership(args: &Args) -> (r: Result<ApiRequest, String>)
    ensures
        plan_view(r) == create_organization_membership_plan(args.view()),
{
    let org_id = match required(args, "organization_id") {
        Ok(v) => v,
        Err(e) => return Err(e),
    };
    let user_id = match required(args, "user_id") {
        Ok(v) => v,
        Err(e) => return Err(e),
    };
    let role = match required(args, "role") {
        Ok(v) => v,
        Err(e) => return Err(e),
    };
    let mut body: Vec<(String, Field)> = Vec::new();
    put(&mut body, "user_id", Field::Str(user_id));
    put(&mut body, "role", Field::Str(role));
    Ok(request_with(Method::Post, path_around("/organizations/", org_id.as_str(), "/memberships"), body))
}

/// `PATCH /organizations/{organization_id}/memberships/{user_id}` with the
/// required role.
pub open spec fn update_organization_membership_plan(a: Seq<ArgEntryV>) -> Result<RequestV, Seq<char>> {
    match required_arg(a, "organization_id"@) {
        Err(e) => Err(e),
        Ok(org) => match required_arg(a, "user_id"@) {
            Err(e) => Err(e),
            Ok(user) => match required_arg(a, "role"@) {
                Err(e) => Err(e),
                Ok(role) => Ok(
                    with_body(
                        Method::Patch,
                        "/organizations/"@ + escaped(org) + "/memberships/"@ + escaped(user) + ""@,
                        Map::empty().insert("role"@, FieldV::Str(role)),
                    ),
                ),
            },
        },
    }
}

pub fn update_organization_membership(args: &Args) -> (r: Result<ApiRequest, String>)
    ensures
        plan_view(r) == update_organization_membership_plan(args.view()),
{
    let org_id = match required(args, "organization_id") {
        Ok(v) => v,
        Err(e) => return Err(e),
    };
    let user_id = match required(args, "user_id") {
        Ok(v) => v,
        Err(e) => return Err(e),
    };
    let role = match required(args, "role") {
        Ok(v) => v,
        Err(e) => return Err(e),
    };
    let mut body: Vec<(String, Field)> = Vec::new();
    put(&mut body, "role", Field::Str(role));
    let path = path_two("/organizations/", org_id.as_str(), "/memberships/", user_id.as_str(), "");
    Ok(request_with(Method::Patch, path, body))
}

/// `DELETE /organizations/{organization_id}/memberships/{user_id}`.
pub open spec fn delete_organization_membership_plan(a: Seq<ArgEntryV>) -> Result<RequestV, Seq<char>> {
    id2_plan(a, "organization_id"@, "user_id"@, Method::Delete, "/organizations/"@, "/memberships/"@, ""@)
}

pub fn delete_organization_membership(args: &Args) -> (r: Result<ApiRequest, String>)
    ensures
        plan_view(r) == delete_organization_membership_plan(args.view()),
{
    id2_request(args, "organization_id", "user_id", Method::Delete, "/organizations/", "/memberships/", "")
}

/// `GET /organizations/{organization_id}/invitations` with the page and one
/// `status` per comma-separated status.
pub open spec fn list_organization_invitations_plan(a: Seq<ArgEntryV>) -> Result<RequestV, Seq<char>> {
    match required_arg(a, "organization_id"@) {
        Err(e) => Err(e),
        Ok(id) => Ok(
            bare(
                Method::Get,
                with_query(
                    "/organizations/"@ + escaped(id) + "/invitations"@,
                    page_params(a, 500) + repeated_param(a, "status"@, "status"@),
                ),
            ),
        ),
    }
}

pub fn list_organization_invitations(args: &Args) -> (r: Result<ApiRequest, String>)
    ensures
        plan_view(r) == list_organization_invitations_plan(args.view()),
{
    let id = match required(args, "organization_id") {
        Ok(v) => v,
        Err(e) => return Err(e),
    };
    let mut params = page_pairs(args, 500);
    add_repeated_param(args, &mut params, "status", "status");
    let path = path_around("/organizations/", id.as_str(), "/invitations");
    Ok(request(Method::Get, append_query(path.as_str(), &params)))
}

/// `POST /organizations/{organization_id}/invitations`: the address and role
/// are required; the inviter, redirect and metadata are copied when given.
pub open spec fn create_organization_invitation_plan(a: Seq<ArgEntryV>) -> Result<RequestV, Seq<char>> {
    match required_arg(a, "organization_id"@) {
        Err(e) => Err(e),
        Ok(org) => match required_arg(a, "email_address"@) {
            Err(e) => Err(e),
            Ok(email) => match required_arg(a, "role"@) {
                Err(e) => Err(e),
                Ok(role) => {
                    let m = Map::empty().insert("email_address"@, FieldV::Str(email)).insert(
                        "role"@,
                        FieldV::Str(role),
                    );
                    let m = put_opt(m, "inviter_user_id"@, str_field(a, "inviter_user_id"@));
                    let m = put_opt(m, "redirect_url"@, str_field(a, "redirect_url"@));
                    match put_jsons(m, a, org_metadata_keys()) {
                        Err(e) => Err(e),
                        Ok(m) => Ok(
                            with_body(Method::Post, "/organizations/"@ + escaped(org) + "/invitations"@, m),
                        ),
                    }
                },
            },
        },
    }
}

pub fn create_organization_invitation(args: &Args) -> (r: Result<ApiRequest, String>)
    ensures
        plan_view(r) == create_organization_invitation_plan(args.view()),
{
    let org_id = match required(args, "organization_id") {
        Ok(v) => v,
        Err(e) => return Err(e),
    };
    let email = match required(args, "email_address") {
        Ok(v) => v,
        Err(e) => return Err(e),
    };
    let role = match required(args, "role") {
        Ok(v) => v,
        Err(e) => return Err(e),
    };
    let mut body: Vec<(String, Field)> = Vec::new();
    put(&mut body, "email_address", Field::Str(email));
    put(&mut body, "role", Field::Str(role));
    put_str_arg(args, &mut body, "inviter_user_id");
    put_str_arg(args, &mut body, "redirect_url");
    let json_keys = ["public_metadata", "private_metadata"];
    assert(keys_view(json_keys@) =~= org_metadata_keys());
    if let Err(e) = insert_json_bodies(args, &mut body, &json_keys) {
        return Err(e);
    }
    Ok(request_with(Method::Post, path_around("/organizations/", org_id.as_str(), "/invitations"), body))
}

/// `POST /organizations/{organization_id}/invitations/{invitation_id}/revoke`
/// naming the requesting user when given.
pub open spec fn revoke_organization_invitation_plan(a: Seq<ArgEntryV>) -> Result<RequestV, Seq<char>> {
    match required_arg(a, "organization_id"@) {
        Err(e) => Err(e),
        Ok(org) => match required_arg(a, "invitation_id"@) {
            Err(e) => Err(e),
            Ok(inv) => Ok(
                with_body(
                    Method::Post,
                    "/organizations/"@ + escaped(org) + "/invitations/"@ + escaped(inv) + "/revoke"@,
                    put_opt(Map::empty(), "requesting_user_id"@, str_field(a, "requesting_user_id"@)),
                ),
            ),
        },
    }
}

pub fn revoke_organization_invitation(args: &Args) -> (r: Result<ApiRequest, String>)
    ensures
        plan_view(r) == revoke_organization_invitation_plan(args.view()),
{
    let org_id = match required(args, "organization_id") {
        Ok(v) => v,
        Err(e) => return Err(e),
    };
    let invitation_id = match required(args, "invitation_id") {
        Ok(v) => v,
        Err(e) => return Err(e),
    };
    let mut body: Vec<(String, Field)> = Vec::new();
    put_str_arg(args, &mut body, "requesting_user_id");
    let path = path_two("/organizations/", org_id.as_str(), "/invitations/", invitation_id.as_str(), "/revoke");
    Ok(request_with(Method::Post, path, body))
}

// ── Invitations ────────────────────────────────────────────────────────────

pub open spec fn list_invitations_params(a: Seq<ArgEntryV>) -> Seq<(Seq<char>, Seq<char>)> {
    page_params(a, 500) + str_param(a, "status"@, "status"@) + str_param(a, "query"@, "query"@)
        + str_param(a, "order_by"@, "order_by"@)
}

/// `GET /invitations` with the page and the filters that are given.
pub open spec fn list_invitations_plan(a: Seq<ArgEntryV>) -> Result<RequestV, Seq<char>> {
    Ok(bare(Method::Get, with_query("/invitations"@, list_invitations_params(a))))
}

pub fn list_invitations(args: &Args) -> (r: Result<ApiRequest, String>)
    ensures
        plan_view(r) == list_invitations_plan(args.view()),
{
    let mut params = page_pairs(args, 500);
    add_str_param(args, &mut params, "status", "status");
    add_str_param(args, &mut params, "query", "query");
    add_str_param(args, &mut params, "order_by", "order_by");
    assert(pairs_view(params@) =~= list_invitations_params(args.view()));
    Ok(request(Method::Get, append_query("/invitations", &params)))
}

/// `POST /invitations`: the address is required; the redirect, template,
/// flags, expiry and metadata are copied when given.
pub open spec fn create_invitation_plan(a: Seq<ArgEntryV>) -> Result<RequestV, Seq<char>> {
    match required_arg(a, "email_address"@) {
        Err(e) => Err(e),
        Ok(email) => {
            let m = Map::empty().insert("email_address"@, FieldV::Str(email));
            let m = put_opt(m, "redirect_url"@, str_field(a, "redirect_url"@));
            let m = put_opt(m, "template_slug"@, str_field(a, "template_slug"@));
            let m = put_opt(m, "notify"@, bool_field(a, "notify"@));
            let m = put_opt(m, "ignore_existing"@, bool_field(a, "ignore_existing"@));
            let m = put_opt(m, "expires_in_days"@, int_field(a, "expires_in_days"@));
            match put_json(m, a, "public_metadata"@) {
                Err(e) => Err(e),
                Ok(m) => Ok(with_body(Method::Post, "/invitations"@, m)),
            }
        },
    }
}

pub fn create_invitation(args: &Args) -> (r: Result<ApiRequest, String>)
    ensures
        plan_view(r) == create_invitation_plan(args.view()),
{
    let email = match required(args, "email_address") {
        Ok(v) => v,
        Err(e) => return Err(e),
    };
    let mut body: Vec<(String, Field)> = Vec::new();
    put(&mut body, "email_address", Field::Str(email));
    put_str_arg(args, &mut body, "redirect_url");
    put_str_arg(args, &mut body, "template_slug");
    put_bool_arg(args, &mut body, "notify");
    put_bool_arg(args, &mut body, "ignore_existing");
    put_int_arg(args, &mut body, "expires_in_days");
    if let Err(e) = insert_json_body(args, &mut body, "public_metadata") {
        return Err(e);
    }
    Ok(request_with(Method::Post, owned("/invitations"), body))
}

/// `POST /invitations/{invitation_id}/revoke` with an empty object.
pub open spec fn revoke_invitation_plan(a: Seq<ArgEntryV>) -> Result<RequestV, Seq<char>> {
    id_empty_body_plan(a, "invitation_id"@, Method::Post, "/invitations/"@, "/revoke"@)
}

pub fn revoke_invitation(args: &Args) -> (r: Result<ApiRequest, String>)
    ensures
        plan_view(r) == revoke_invitation_plan(args.view()),
{
    id_empty_body_request(args, "invitation_id", Method::Post, "/invitations/", "/revoke")
}

// ── Allow / block lists ────────────────────────────────────────────────────

/// `GET /allowlist_identifiers`.
pub open spec fn list_allowlist_identifiers_plan(a: Seq<ArgEntryV>) -> Result<RequestV, Seq<char>> {
    Ok(bare(Method::Get, "/allowlist_identifiers"@))
}

pub fn list_allowlist_identifiers(_args: &Args) -> (r: Result<ApiRequest, String>)
    ensures
        plan_view(r) == list_allowlist_identifiers_plan(_args.view()),
{
    Ok(request(Method::Get, owned("/allowlist_identifiers")))
}

/// `POST /allowlist_identifiers` with the required identifier and the
/// notification flag when given.
pub open spec fn create_allowlist_identifier_plan(a: Seq<ArgEntryV>) -> Result<RequestV, Seq<char>> {
    match required_arg(a, "identifier"@) {
        Err(e) => Err(e),
        Ok(id) => Ok(
            with_body(
                Method::Post,
                "/allowlist_identifiers"@,
                put_opt(Map::empty().insert("identifier"@, FieldV::Str(id)), "notify"@, bool_field(a, "notify"@)),
            ),
        ),
    }
}

pub fn create_allowlist_identifier(args: &Args) -> (r: Result<ApiRequest, String>)
    ensures
        plan_view(r) == create_allowlist_identifier_plan(args.view()),
{
    let identifier = match required(args, "identifier") {
        Ok(v) => v,
        Err(e) => return Err(e),
    };
    let mut body: Vec<(String, Field)> = Vec::new();
    put(&mut body, "identifier", Field::Str(identifier));
    put_bool_arg(args, &mut body, "notify");
    Ok(request_with(Method::Post, owned("/allowlist_identifiers"), body))
}

/// `DELETE /allowlist_identifiers/{identifier_id}`.
pub open spec fn delete_allowlist_identifier_plan(a: Seq<ArgEntryV>) -> Result<RequestV, Seq<char>> {
    id_plan(a, "identifier_id"@, Method::Delete, "/allowlist_identifiers/"@, ""@)
}

pub fn delete_allowlist_identifier(args: &Args) -> (r: Result<ApiRequest, String>)
    ensures
        plan_view(r) == delete_allowlist_identifier_plan(args.view()),
{
    id_request(args, "identifier_id", Method::Delete, "/allowlist_identifiers/", "")
}

/// `GET /blocklist_identifiers`.
pub open spec fn list_blocklist_identifiers_plan(a: Seq<ArgEntryV>) -> Result<RequestV, Seq<char>> {
    Ok(bare(Method::Get, "/blocklist_identifiers"@))
}

pub fn list_blocklist_identifiers(_args: &Args) -> (r: Result<ApiRequest, String>)
    ensures
        plan_view(r) == list_blocklist_identifiers_plan(_args.view()),
{
    Ok(request(Method::Get, owned("/blocklist_identifiers")))
}

/// `POST /blocklist_identifiers` with the required identifier.
pub open spec fn create_blocklist_identifier_plan(a: Seq<ArgEntryV>) -> Result<RequestV, Seq<char>> {
    match required_arg(a, "identifier"@) {
        Err(e) => Err(e),
        Ok(id) => Ok(
            with_body(Method::Post, "/blocklist_identifiers"@, Map::empty().insert("identifier"@, FieldV::Str(id))),
        ),
    }
}

pub fn create_blocklist_identifier(args: &Args) -> (r: Result<ApiRequest, String>)
    ensures
        plan_view(r) == create_blocklist_identifier_plan(args.view()),
{
    let identifier = match required(args, "identifier") {
        Ok(v) => v,
        Err(e) => return Err(e),
    };
    let mut body: Vec<(String, Field)> = Vec::new();
    put(&mut body, "identifier", Field::Str(identifier));
    Ok(request_with(Method::Post, owned("/blocklist_identifiers"), body))
}

/// `DELETE /blocklist_identifiers/{identifier_id}`.
pub open spec fn delete_blocklist_identifier_plan(a: Seq<ArgEntryV>) -> Result<RequestV, Seq<char>> {
    id_plan(a, "identifier_id"@, Method::Delete, "/blocklist_identifiers/"@, ""@)
}

pub fn delete_blocklist_identifier(args: &Args) -> (r: Result<ApiRequest, String>)
    ensures
        plan_view(r) == delete_blocklist_identifier_plan(args.view()),
{
    id_request(args, "identifier_id", Method::Delete, "/blocklist_identifiers/", "")
}


/// Query pairs that hold the page (limit first, offset second), the ordering
/// and the free-text search when given, each item of the email filter, and
/// the banned, locked and last-active filters when given.
pub open spec fn users_query_holds(a: Seq<ArgEntryV>, ps: Seq<(Seq<char>, Seq<char>)>) -> bool {
    &&& ps.len() >= 2
    &&& ps[0].0 == "limit"@
    &&& ps[1].0 == "offset"@
    &&& (str_arg(a, "order_by"@).len() > 0 ==> ps.contains(("order_by"@, str_arg(a, "order_by"@))))
    &&& (str_arg(a, "query"@).len() > 0 ==> ps.contains(("query"@, str_arg(a, "query"@))))
    &&& (forall|item: Seq<char>| #[trigger] csv_items(str_arg(a, "email_address"@)).contains(item)
        ==> ps.contains(("email_address"@, item)))
    &&& (bool_arg(a, "banned"@) matches Some(b) ==> ps.contains(("banned"@, bool_text(b))))
    &&& (bool_arg(a, "locked"@) matches Some(b) ==> ps.contains(("locked"@, bool_text(b))))
    &&& (int_arg(a, "last_active_at_since"@) matches Some(n) ==> ps.contains(
        ("last_active_at_since"@, int_decimal(n as int)),
    ))
}

proof fn lemma_concat_contains(p: Seq<(Seq<char>, Seq<char>)>, q: Seq<(Seq<char>, Seq<char>)>, x: (Seq<char>, Seq<char>))
    ensures
        p.contains(x) || q.contains(x) ==> (p + q).contains(x),
{
    if p.contains(x) {
        let k = choose|k: int| 0 <= k < p.len() && p[k] == x;
        assert((p + q)[k] == x);
    } else if q.contains(x) {
        let k = choose|k: int| 0 <= k < q.len() && q[k] == x;
        assert((p + q)[p.len() + k] == x);
    }
}

proof fn lemma_users_params_page(a: Seq<ArgEntryV>)
    ensures
        list_users_params(a).len() >= 2,
        list_users_params(a)[0].0 == "limit"@,
        list_users_params(a)[1].0 == "offset"@,
{
    assert((page_params(a, 500) + str_param(a, "order_by"@, "order_by"@))[0] == page_params(a, 500)[0] && (page_params(a, 500) + str_param(a, "order_by"@, "order_by"@))[1] == page_params(a, 500)[1]);
    assert((page_params(a, 500) + str_param(a, "order_by"@, "order_by"@) + str_param(a, "query"@, "query"@))[0] == page_params(a, 500)[0] && (page_params(a, 500) + str_param(a, "order_by"@, "order_by"@) + str_param(a, "query"@, "query"@))[1] == page_params(a, 500)[1]);
    assert((page_params(a, 500) + str_param(a, "order_by"@, "order_by"@) + str_param(a, "query"@, "query"@) + repeated_param(a, "email_address"@, "email_address"@))[0] == page_params(a, 500)[0] && (page_params(a, 500) + str_param(a, "order_by"@, "order_by"@) + str_param(a, "query"@, "query"@) + repeated_param(a, "email_address"@, "email_address"@))[1] == page_params(a, 500)[1]);
    assert((page_params(a, 500) + str_param(a, "order_by"@, "order_by"@) + str_param(a, "query"@, "query"@) + repeated_param(a, "email_address"@, "email_address"@) + repeated_param(a, "phone_number"@, "phone_number"@))[0] == page_params(a, 500)[0] && (page_params(a, 500) + str_param(a, "order_by"@, "order_by"@) + str_param(a, "query"@, "query"@) + repeated_param(a, "email_address"@, "email_address"@) + repeated_param(a, "phone_number"@, "phone_number"@))[1] == page_params(a, 500)[1]);
    assert((page_params(a, 500) + str_param(a, "order_by"@, "order_by"@) + str_param(a, "query"@, "query"@) + repeated_param(a, "email_address"@, "email_address"@) + repeated_param(a, "phone_number"@, "phone_number"@) + repeated_param(a, "username"@, "username"@))[0] == page_params(a, 500)[0] && (page_params(a, 500) + str_param(a, "order_by"@, "order_by"@) + str_param(a, "query"@, "query"@) + repeated_param(a, "email_address"@, "email_address"@) + repeated_param(a, "phone_number"@, "phone_number"@) + repeated_param(a, "username"@, "username"@))[1] == page_params(a, 500)[1]);
    assert((page_params(a, 500) + str_param(a, "order_by"@, "order_by"@) + str_param(a, "query"@, "query"@) + repeated_param(a, "email_address"@, "email_address"@) + repeated_param(a, "phone_number"@, "phone_number"@) + repeated_param(a, "username"@, "username"@) + repeated_param(a, "user_id"@, "user_id"@))[0] == page_params(a, 500)[0] && (page_params(a, 500) + str_param(a, "order_by"@, "order_by"@) + str_param(a, "query"@, "query"@) + repeated_param(a, "email_address"@, "email_address"@) + repeated_param(a, "phone_number"@, "phone_number"@) + repeated_param(a, "username"@, "username"@) + repeated_param(a, "user_id"@, "user_id"@))[1] == page_params(a, 500)[1]);
    assert((page_params(a, 500) + str_param(a, "order_by"@, "order_by"@) + str_param(a, "query"@, "query"@) + repeated_param(a, "email_address"@, "email_address"@) + repeated_param(a, "phone_number"@, "phone_number"@) + repeated_param(a, "username"@, "username"@) + repeated_param(a, "user_id"@, "user_id"@) + repeated_param(a, "external_id"@, "external_id"@))[0] == page_params(a, 500)[0] && (page_params(a, 500) + str_param(a, "order_by"@, "order_by"@) + str_param(a, "query"@, "query"@) + repeated_param(a, "email_address"@, "email_address"@) + repeated_param(a, "phone_number"@, "phone_number"@) + repeated_param(a, "username"@, "username"@) + repeated_param(a, "user_id"@, "user_id"@) + repeated_param(a, "external_id"@, "external_id"@))[1] == page_params(a, 500)[1]);
    assert((page_params(a, 500) + str_param(a, "order_by"@, "order_by"@) + str_param(a, "query"@, "query"@) + repeated_param(a, "email_address"@, "email_address"@) + repeated_param(a, "phone_number"@, "phone_number"@) + repeated_param(a, "username"@, "username"@) + repeated_param(a, "user_id"@, "user_id"@) + repeated_param(a, "external_id"@, "external_id"@) + repeated_param(a, "organization_id"@, "organization_id"@))[0] == page_params(a, 500)[0] && (page_params(a, 500) + str_param(a, "order_by"@, "order_by"@) + str_param(a, "query"@, "query"@) + repeated_param(a, "email_address"@, "email_address"@) + repeated_param(a, "phone_number"@, "phone_number"@) + repeated_param(a, "username"@, "username"@) + repeated_param(a, "user_id"@, "user_id"@) + repeated_param(a, "external_id"@, "external_id"@) + repeated_param(a, "organization_id"@, "organization_id"@))[1] == page_params(a, 500)[1]);
    assert((page_params(a, 500) + str_param(a, "order_by"@, "order_by"@) + str_param(a, "query"@, "query"@) + repeated_param(a, "email_address"@, "email_address"@) + repeated_param(a, "phone_number"@, "phone_number"@) + repeated_param(a, "username"@, "username"@) + repeated_param(a, "user_id"@, "user_id"@) + repeated_param(a, "external_id"@, "external_id"@) + repeated_param(a, "organization_id"@, "organization_id"@) + bool_param(a, "banned"@, "banned"@))[0] == page_params(a, 500)[0] && (page_params(a, 500) + str_param(a, "order_by"@, "order_by"@) + str_param(a, "query"@, "query"@) + repeated_param(a, "email_address"@, "email_address"@) + repeated_param(a, "phone_number"@, "phone_number"@) + repeated_param(a, "username"@, "username"@) + repeated_param(a, "user_id"@, "user_id"@) + repeated_param(a, "external_id"@, "external_id"@) + repeated_param(a, "organization_id"@, "organization_id"@) + bool_param(a, "banned"@, "banned"@))[1] == page_params(a, 500)[1]);
    assert((page_params(a, 500) + str_param(a, "order_by"@, "order_by"@) + str_param(a, "query"@, "query"@) + repeated_param(a, "email_address"@, "email_address"@) + repeated_param(a, "phone_number"@, "phone_number"@) + repeated_param(a, "username"@, "username"@) + repeated_param(a, "user_id"@, "user_id"@) + repeated_param(a, "external_id"@, "external_id"@) + repeated_param(a, "organization_id"@, "organization_id"@) + bool_param(a, "banned"@, "banned"@) + bool_param(a, "locked"@, "locked"@))[0] == page_params(a, 500)[0] && (page_params(a, 500) + str_param(a, "order_by"@, "order_by"@) + str_param(a, "query"@, "query"@) + repeated_param(a, "email_address"@, "email_address"@) + repeated_param(a, "phone_number"@, "phone_number"@) + repeated_param(a, "username"@, "username"@) + repeated_param(a, "user_id"@, "user_id"@) + repeated_param(a, "external_id"@, "external_id"@) + repeated_param(a, "organization_id"@, "organization_id"@) + bool_param(a, "banned"@, "banned"@) + bool_param(a, "locked"@, "locked"@))[1] == page_params(a, 500)[1]);
    assert((page_params(a, 500) + str_param(a, "order_by"@, "order_by"@) + str_param(a, "query"@, "query"@) + repeated_param(a, "email_address"@, "email_address"@) + repeated_param(a, "phone_number"@, "phone_number"@) + repeated_param(a, "username"@, "username"@) + repeated_param(a, "user_id"@, "user_id"@) + repeated_param(a, "external_id"@, "external_id"@) + repeated_param(a, "organization_id"@, "organization_id"@) + bool_param(a, "banned"@, "banned"@) + bool_param(a, "locked"@, "locked"@) + int_param(a, "last_active_at_since"@, "last_active_at_since"@))[0] == page_params(a, 500)[0] && (page_params(a, 500) + str_param(a, "order_by"@, "order_by"@) + str_param(a, "query"@, "query"@) + repeated_param(a, "email_address"@, "email_address"@) + repeated_param(a, "phone_number"@, "phone_number"@) + repeated_param(a, "username"@, "username"@) + repeated_param(a, "user_id"@, "user_id"@) + repeated_param(a, "external_id"@, "external_id"@) + repeated_param(a, "organization_id"@, "organization_id"@) + bool_param(a, "banned"@, "banned"@) + bool_param(a, "locked"@, "locked"@) + int_param(a, "last_active_at_since"@, "last_active_at_since"@))[1] == page_params(a, 500)[1]);
}

proof fn lemma_users_params_order_by(a: Seq<ArgEntryV>)
    ensures
        str_arg(a, "order_by"@).len() > 0 ==> list_users_params(a).contains(("order_by"@, str_arg(a, "order_by"@))),
{
    if str_arg(a, "order_by"@).len() > 0 {
        assert(str_param(a, "order_by"@, "order_by"@)[0] == ("order_by"@, str_arg(a, "order_by"@)));
        lemma_concat_contains(page_params(a, 500), str_param(a, "order_by"@, "order_by"@), ("order_by"@, str_arg(a, "order_by"@)));
        lemma_concat_contains(page_params(a, 500) + str_param(a, "order_by"@, "order_by"@), str_param(a, "query"@, "query"@), ("order_by"@, str_arg(a, "order_by"@)));
        lemma_concat_contains(page_params(a, 500) + str_param(a, "order_by"@, "order_by"@) + str_param(a, "query"@, "query"@), repeated_param(a, "email_address"@, "email_address"@), ("order_by"@, str_arg(a, "order_by"@)));
        lemma_concat_contains(page_params(a, 500) + str_param(a, "order_by"@, "order_by"@) + str_param(a, "query"@, "query"@) + repeated_param(a, "email_address"@, "email_address"@), repeated_param(a, "phone_number"@, "phone_number"@), ("order_by"@, str_arg(a, "order_by"@)));
        lemma_concat_contains(page_params(a, 500) + str_param(a, "order_by"@, "order_by"@) + str_param(a, "query"@, "query"@) + repeated_param(a, "email_address"@, "email_address"@) + repeated_param(a, "phone_number"@, "phone_number"@), repeated_param(a, "username"@, "username"@), ("order_by"@, str_arg(a, "order_by"@)));
        lemma_concat_contains(page_params(a, 500) + str_param(a, "order_by"@, "order_by"@) + str_param(a, "query"@, "query"@) + repeated_param(a, "email_address"@, "email_address"@) + repeated_param(a, "phone_number"@, "phone_number"@) + repeated_param(a, "username"@, "username"@), repeated_param(a, "user_id"@, "user_id"@), ("order_by"@, str_arg(a, "order_by"@)));
        lemma_concat_contains(page_params(a, 500) + str_param(a, "order_by"@, "order_by"@) + str_param(a, "query"@, "query"@) + repeated_param(a, "email_address"@, "email_address"@) + repeated_param(a, "phone_number"@, "phone_number"@) + repeated_param(a, "username"@, "username"@) + repeated_param(a, "user_id"@, "user_id"@), repeated_param(a, "external_id"@, "external_id"@), ("order_by"@, str_arg(a, "order_by"@)));
        lemma_concat_contains(page_params(a, 500) + str_param(a, "order_by"@, "order_by"@) + str_param(a, "query"@, "query"@) + repeated_param(a, "email_address"@, "email_address"@) + repeated_param(a, "phone_number"@, "phone_number"@) + repeated_param(a, "username"@, "username"@) + repeated_param(a, "user_id"@, "user_id"@) + repeated_param(a, "external_id"@, "external_id"@), repeated_param(a, "organization_id"@, "organization_id"@), ("order_by"@, str_arg(a, "order_by"@)));
        lemma_concat_contains(page_params(a, 500) + str_param(a, "order_by"@, "order_by"@) + str_param(a, "query"@, "query"@) + repeated_param(a, "email_address"@, "email_address"@) + repeated_param(a, "phone_number"@, "phone_number"@) + repeated_param(a, "username"@, "username"@) + repeated_param(a, "user_id"@, "user_id"@) + repeated_param(a, "external_id"@, "external_id"@) + repeated_param(a, "organization_id"@, "organization_id"@), bool_param(a, "banned"@, "banned"@), ("order_by"@, str_arg(a, "order_by"@)));
        lemma_concat_contains(page_params(a, 500) + str_param(a, "order_by"@, "order_by"@) + str_param(a, "query"@, "query"@) + repeated_param(a, "email_address"@, "email_address"@) + repeated_param(a, "phone_number"@, "phone_number"@) + repeated_param(a, "username"@, "username"@) + repeated_param(a, "user_id"@, "user_id"@) + repeated_param(a, "external_id"@, "external_id"@) + repeated_param(a, "organization_id"@, "organization_id"@) + bool_param(a, "banned"@, "banned"@), bool_param(a, "locked"@, "locked"@), ("order_by"@, str_arg(a, "order_by"@)));
        lemma_concat_contains(page_params(a, 500) + str_param(a, "order_by"@, "order_by"@) + str_param(a, "query"@, "query"@) + repeated_param(a, "email_address"@, "email_address"@) + repeated_param(a, "phone_number"@, "phone_number"@) + repeated_param(a, "username"@, "username"@) + repeated_param(a, "user_id"@, "user_id"@) + repeated_param(a, "external_id"@, "external_id"@) + repeated_param(a, "organization_id"@, "organization_id"@) + bool_param(a, "banned"@, "banned"@) + bool_param(a, "locked"@, "locked"@), int_param(a, "last_active_at_since"@, "last_active_at_since"@), ("order_by"@, str_arg(a, "order_by"@)));
    }
}

proof fn lemma_users_params_query(a: Seq<ArgEntryV>)
    ensures
        str_arg(a, "query"@).len() > 0 ==> list_users_params(a).contains(("query"@, str_arg(a, "query"@))),
{
    if str_arg(a, "query"@).len() > 0 {
        assert(str_param(a, "query"@, "query"@)[0] == ("query"@, str_arg(a, "query"@)));
        lemma_concat_contains(page_params(a, 500) + str_param(a, "order_by"@, "order_by"@), str_param(a, "query"@, "query"@), ("query"@, str_arg(a, "query"@)));
        lemma_concat_contains(page_params(a, 500) + str_param(a, "order_by"@, "order_by"@) + str_param(a, "query"@, "query"@), repeated_param(a, "email_address"@, "email_address"@), ("query"@, str_arg(a, "query"@)));
        lemma_concat_contains(page_params(a, 500) + str_param(a, "order_by"@, "order_by"@) + str_param(a, "query"@, "query"@) + repeated_param(a, "email_address"@, "email_address"@), repeated_param(a, "phone_number"@, "phone_number"@), ("query"@, str_arg(a, "query"@)));
        lemma_concat_contains(page_params(a, 500) + str_param(a, "order_by"@, "order_by"@) + str_param(a, "query"@, "query"@) + repeated_param(a, "email_address"@, "email_address"@) + repeated_param(a, "phone_number"@, "phone_number"@), repeated_param(a, "username"@, "username"@), ("query"@, str_arg(a, "query"@)));
        lemma_concat_contains(page_params(a, 500) + str_param(a, "order_by"@, "order_by"@) + str_param(a, "query"@, "query"@) + repeated_param(a, "email_address"@, "email_address"@) + repeated_param(a, "phone_number"@, "phone_number"@) + repeated_param(a, "username"@, "username"@), repeated_param(a, "user_id"@, "user_id"@), ("query"@, str_arg(a, "query"@)));
        lemma_concat_contains(page_params(a, 500) + str_param(a, "order_by"@, "order_by"@) + str_param(a, "query"@, "query"@) + repeated_param(a, "email_address"@, "email_address"@) + repeated_param(a, "phone_number"@, "phone_number"@) + repeated_param(a, "username"@, "username"@) + repeated_param(a, "user_id"@, "user_id"@), repeated_param(a, "external_id"@, "external_id"@), ("query"@, str_arg(a, "query"@)));
        lemma_concat_contains(page_params(a, 500) + str_param(a, "order_by"@, "order_by"@) + str_param(a, "query"@, "query"@) + repeated_param(a, "email_address"@, "email_address"@) + repeated_param(a, "phone_number"@, "phone_number"@) + repeated_param(a, "username"@, "username"@) + repeated_param(a, "user_id"@, "user_id"@) + repeated_param(a, "external_id"@, "external_id"@), repeated_param(a, "organization_id"@, "organization_id"@), ("query"@, str_arg(a, "query"@)));
        lemma_concat_contains(page_params(a, 500) + str_param(a, "order_by"@, "order_by"@) + str_param(a, "query"@, "query"@) + repeated_param(a, "email_address"@, "email_address"@) + repeated_param(a, "phone_number"@, "phone_number"@) + repeated_param(a, "username"@, "username"@) + repeated_param(a, "user_id"@, "user_id"@) + repeated_param(a, "external_id"@, "external_id"@) + repeated_param(a, "organization_id"@, "organization_id"@), bool_param(a, "banned"@, "banned"@), ("query"@, str_arg(a, "query"@)));
        lemma_concat_contains(page_params(a, 500) + str_param(a, "order_by"@, "order_by"@) + str_param(a, "query"@, "query"@) + repeated_param(a, "email_address"@, "email_address"@) + repeated_param(a, "phone_number"@, "phone_number"@) + repeated_param(a, "username"@, "username"@) + repeated_param(a, "user_id"@, "user_id"@) + repeated_param(a, "external_id"@, "external_id"@) + repeated_param(a, "organization_id"@, "organization_id"@) + bool_param(a, "banned"@, "banned"@), bool_param(a, "locked"@, "locked"@), ("query"@, str_arg(a, "query"@)));
        lemma_concat_contains(page_params(a, 500) + str_param(a, "order_by"@, "order_by"@) + str_param(a, "query"@, "query"@) + repeated_param(a, "email_address"@, "email_address"@) + repeated_param(a, "phone_number"@, "phone_number"@) + repeated_param(a, "username"@, "username"@) + repeated_param(a, "user_id"@, "user_id"@) + repeated_param(a, "external_id"@, "external_id"@) + repeated_param(a, "organization_id"@, "organization_id"@) + bool_param(a, "banned"@, "banned"@) + bool_param(a, "locked"@, "locked"@), int_param(a, "last_active_at_since"@, "last_active_at_since"@), ("query"@, str_arg(a, "query"@)));
    }
}

proof fn lemma_users_params_banned(a: Seq<ArgEntryV>)
    ensures
        bool_arg(a, "banned"@) is Some ==> list_users_params(a).contains(("banned"@, bool_text(bool_arg(a, "banned"@)->0))),
{
    if bool_arg(a, "banned"@) is Some {
        assert(bool_param(a, "banned"@, "banned"@)[0] == ("banned"@, bool_text(bool_arg(a, "banned"@)->0)));
        lemma_concat_contains(page_params(a, 500) + str_param(a, "order_by"@, "order_by"@) + str_param(a, "query"@, "query"@) + repeated_param(a, "email_address"@, "email_address"@) + repeated_param(a, "phone_number"@, "phone_number"@) + repeated_param(a, "username"@, "username"@) + repeated_param(a, "user_id"@, "user_id"@) + repeated_param(a, "external_id"@, "external_id"@) + repeated_param(a, "organization_id"@, "organization_id"@), bool_param(a, "banned"@, "banned"@), ("banned"@, bool_text(bool_arg(a, "banned"@)->0)));
        lemma_concat_contains(page_params(a, 500) + str_param(a, "order_by"@, "order_by"@) + str_param(a, "query"@, "query"@) + repeated_param(a, "email_address"@, "email_address"@) + repeated_param(a, "phone_number"@, "phone_number"@) + repeated_param(a, "username"@, "username"@) + repeated_param(a, "user_id"@, "user_id"@) + repeated_param(a, "external_id"@, "external_id"@) + repeated_param(a, "organization_id"@, "organization_id"@) + bool_param(a, "banned"@, "banned"@), bool_param(a, "locked"@, "locked"@), ("banned"@, bool_text(bool_arg(a, "banned"@)->0)));
        lemma_concat_contains(page_params(a, 500) + str_param(a, "order_by"@, "order_by"@) + str_param(a, "query"@, "query"@) + repeated_param(a, "email_address"@, "email_address"@) + repeated_param(a, "phone_number"@, "phone_number"@) + repeated_param(a, "username"@, "username"@) + repeated_param(a, "user_id"@, "user_id"@) + repeated_param(a, "external_id"@, "external_id"@) + repeated_param(a, "organization_id"@, "organization_id"@) + bool_param(a, "banned"@, "banned"@) + bool_param(a, "locked"@, "locked"@), int_param(a, "last_active_at_since"@, "last_active_at_since"@), ("banned"@, bool_text(bool_arg(a, "banned"@)->0)));
    }
}

proof fn lemma_users_params_locked(a: Seq<ArgEntryV>)
    ensures
        bool_arg(a, "locked"@) is Some ==> list_users_params(a).contains(("locked"@, bool_text(bool_arg(a, "locked"@)->0))),
{
    if bool_arg(a, "locked"@) is Some {
        assert(bool_param(a, "locked"@, "locked"@)[0] == ("locked"@, bool_text(bool_arg(a, "locked"@)->0)));
        lemma_concat_contains(page_params(a, 500) + str_param(a, "order_by"@, "order_by"@) + str_param(a, "query"@, "query"@) + repeated_param(a, "email_address"@, "email_address"@) + repeated_param(a, "phone_number"@, "phone_number"@) + repeated_param(a, "username"@, "username"@) + repeated_param(a, "user_id"@, "user_id"@) + repeated_param(a, "external_id"@, "external_id"@) + repeated_param(a, "organization_id"@, "organization_id"@) + bool_param(a, "banned"@, "banned"@), bool_param(a, "locked"@, "locked"@), ("locked"@, bool_text(bool_arg(a, "locked"@)->0)));
        lemma_concat_contains(page_params(a, 500) + str_param(a, "order_by"@, "order_by"@) + str_param(a, "query"@, "query"@) + repeated_param(a, "email_address"@, "email_address"@) + repeated_param(a, "phone_number"@, "phone_number"@) + repeated_param(a, "username"@, "username"@) + repeated_param(a, "user_id"@, "user_id"@) + repeated_param(a, "external_id"@, "external_id"@) + repeated_param(a, "organization_id"@, "organization_id"@) + bool_param(a, "banned"@, "banned"@) + bool_param(a, "locked"@, "locked"@), int_param(a, "last_active_at_since"@, "last_active_at_since"@), ("locked"@, bool_text(bool_arg(a, "locked"@)->0)));
    }
}

proof fn lemma_users_params_last(a: Seq<ArgEntryV>)
    ensures
        int_arg(a, "last_active_at_since"@) is Some ==> list_users_params(a).contains(("last_active_at_since"@, int_decimal(int_arg(a, "last_active_at_since"@)->0 as int))),
{
    if int_arg(a, "last_active_at_since"@) is Some {
        assert(int_param(a, "last_active_at_since"@, "last_active_at_since"@)[0] == ("last_active_at_since"@, int_decimal(int_arg(a, "last_active_at_since"@)->0 as int)));
        lemma_concat_contains(page_params(a, 500) + str_param(a, "order_by"@, "order_by"@) + str_param(a, "query"@, "query"@) + repeated_param(a, "email_address"@, "email_address"@) + repeated_param(a, "phone_number"@, "phone_number"@) + repeated_param(a, "username"@, "username"@) + repeated_param(a, "user_id"@, "user_id"@) + repeated_param(a, "external_id"@, "external_id"@) + repeated_param(a, "organization_id"@, "organization_id"@) + bool_param(a, "banned"@, "banned"@) + bool_param(a, "locked"@, "locked"@), int_param(a, "last_active_at_since"@, "last_active_at_since"@), ("last_active_at_since"@, int_decimal(int_arg(a, "last_active_at_since"@)->0 as int)));
    }
}

proof fn lemma_users_params_email(a: Seq<ArgEntryV>, item: Seq<char>)
    ensures
        csv_items(str_arg(a, "email_address"@)).contains(item) ==> list_users_params(a).contains(("email_address"@, item)),
{
    if csv_items(str_arg(a, "email_address"@)).contains(item) {
        let items = csv_items(str_arg(a, "email_address"@));
        let k = choose|k: int| 0 <= k < items.len() && items[k] == item;
        assert(repeated_param(a, "email_address"@, "email_address"@)[k] == ("email_address"@, item));
        lemma_concat_contains(page_params(a, 500) + str_param(a, "order_by"@, "order_by"@) + str_param(a, "query"@, "query"@), repeated_param(a, "email_address"@, "email_address"@), ("email_address"@, item));
        lemma_concat_contains(page_params(a, 500) + str_param(a, "order_by"@, "order_by"@) + str_param(a, "query"@, "query"@) + repeated_param(a, "email_address"@, "email_address"@), repeated_param(a, "phone_number"@, "phone_number"@), ("email_address"@, item));
        lemma_concat_contains(page_params(a, 500) + str_param(a, "order_by"@, "order_by"@) + str_param(a, "query"@, "query"@) + repeated_param(a, "email_address"@, "email_address"@) + repeated_param(a, "phone_number"@, "phone_number"@), repeated_param(a, "username"@, "username"@), ("email_address"@, item));
        lemma_concat_contains(page_params(a, 500) + str_param(a, "order_by"@, "order_by"@) + str_param(a, "query"@, "query"@) + repeated_param(a, "email_address"@, "email_address"@) + repeated_param(a, "phone_number"@, "phone_number"@) + repeated_param(a, "username"@, "username"@), repeated_param(a, "user_id"@, "user_id"@), ("email_address"@, item));
        lemma_concat_contains(page_params(a, 500) + str_param(a, "order_by"@, "order_by"@) + str_param(a, "query"@, "query"@) + repeated_param(a, "email_address"@, "email_address"@) + repeated_param(a, "phone_number"@, "phone_number"@) + repeated_param(a, "username"@, "username"@) + repeated_param(a, "user_id"@, "user_id"@), repeated_param(a, "external_id"@, "external_id"@), ("email_address"@, item));
        lemma_concat_contains(page_params(a, 500) + str_param(a, "order_by"@, "order_by"@) + str_param(a, "query"@, "query"@) + repeated_param(a, "email_address"@, "email_address"@) + repeated_param(a, "phone_number"@, "phone_number"@) + repeated_param(a, "username"@, "username"@) + repeated_param(a, "user_id"@, "user_id"@) + repeated_param(a, "external_id"@, "external_id"@), repeated_param(a, "organization_id"@, "organization_id"@), ("email_address"@, item));
        lemma_concat_contains(page_params(a, 500) + str_param(a, "order_by"@, "order_by"@) + str_param(a, "query"@, "query"@) + repeated_param(a, "email_address"@, "email_address"@) + repeated_param(a, "phone_number"@, "phone_number"@) + repeated_param(a, "username"@, "username"@) + repeated_param(a, "user_id"@, "user_id"@) + repeated_param(a, "external_id"@, "external_id"@) + repeated_param(a, "organization_id"@, "organization_id"@), bool_param(a, "banned"@, "banned"@), ("email_address"@, item));
        lemma_concat_contains(page_params(a, 500) + str_param(a, "order_by"@, "order_by"@) + str_param(a, "query"@, "query"@) + repeated_param(a, "email_address"@, "email_address"@) + repeated_param(a, "phone_number"@, "phone_number"@) + repeated_param(a, "username"@, "username"@) + repeated_param(a, "user_id"@, "user_id"@) + repeated_param(a, "external_id"@, "external_id"@) + repeated_param(a, "organization_id"@, "organization_id"@) + bool_param(a, "banned"@, "banned"@), bool_param(a, "locked"@, "locked"@), ("email_address"@, item));
        lemma_concat_contains(page_params(a, 500) + str_param(a, "order_by"@, "order_by"@) + str_param(a, "query"@, "query"@) + repeated_param(a, "email_address"@, "email_address"@) + repeated_param(a, "phone_number"@, "phone_number"@) + repeated_param(a, "username"@, "username"@) + repeated_param(a, "user_id"@, "user_id"@) + repeated_param(a, "external_id"@, "external_id"@) + repeated_param(a, "organization_id"@, "organization_id"@) + bool_param(a, "banned"@, "banned"@) + bool_param(a, "locked"@, "locked"@), int_param(a, "last_active_at_since"@, "last_active_at_since"@), ("email_address"@, item));
    }
}

proof fn lemma_users_params_hold(a: Seq<ArgEntryV>)
    ensures
        users_query_holds(a, list_users_params(a)),
{
    lemma_users_params_page(a);
    lemma_users_params_order_by(a);
    lemma_users_params_query(a);
    lemma_users_params_banned(a);
    lemma_users_params_locked(a);
    lemma_users_params_last(a);
    assert forall|item: Seq<char>| #[trigger] csv_items(str_arg(a, "email_address"@)).contains(item) implies list_users_params(a).contains(
        ("email_address"@, item),
    ) by {
        lemma_users_params_email(a, item);
    }
}

/// Listing users asks `GET /users` with a query string whose pairs hold the
/// page (limit first, offset second), the ordering and the free-text search
/// when given, each item of the email filter, and the banned, locked and
/// last-active filters when given.
pub proof fn lemma_list_users_query(a: Seq<ArgEntryV>)
    ensures
        list_users_plan(a) matches Ok(q) ==> {
            &&& q.method == Method::Get
            &&& q.body is None
            &&& exists|ps: Seq<(Seq<char>, Seq<char>)>|
                #![trigger crate::request::query_string(ps)]
                q.path == "/users"@ + "?"@ + crate::request::query_string(ps) && users_query_holds(a, ps)
        },
{
    lemma_users_params_hold(a);
    let ps = list_users_params(a);
    assert(ps.len() > 0);
    assert(with_query("/users"@, ps) == "/users"@ + "?"@ + crate::request::query_string(ps));
}


/// The tools that read, delete or act on one resource named by an argument
/// go ahead exactly when that argument is given, and ask for that resource:
/// the method, and the path with the argument escaped into it. The tools
/// that read a fixed resource ask for it with no body.
pub proof fn lemma_resource_tools_requests(a: Seq<ArgEntryV>)
    ensures
        get_user_plan(a) is Ok <==> str_arg(a, "user_id"@).len() > 0,
        get_user_plan(a) matches Ok(q) ==> q.method == Method::Get && q.path == "/users/"@ + escaped(str_arg(a, "user_id"@)) && q.body is None,
        delete_user_plan(a) is Ok <==> str_arg(a, "user_id"@).len() > 0,
        delete_user_plan(a) matches Ok(q) ==> q.method == Method::Delete && q.path == "/users/"@ + escaped(str_arg(a, "user_id"@)) && q.body is None,
        ban_user_plan(a) is Ok <==> str_arg(a, "user_id"@).len() > 0,
        ban_user_plan(a) matches Ok(q) ==> q.method == Method::Post && q.path == "/users/"@ + escaped(str_arg(a, "user_id"@)) + "/ban"@ && q.body == Some(FieldV::Object(Map::<Seq<char>, FieldV>::empty())),
        unban_user_plan(a) is Ok <==> str_arg(a, "user_id"@).len() > 0,
        unban_user_plan(a) matches Ok(q) ==> q.method == Method::Post && q.path == "/users/"@ + escaped(str_arg(a, "user_id"@)) + "/unban"@ && q.body == Some(FieldV::Object(Map::<Seq<char>, FieldV>::empty())),
        lock_user_plan(a) is Ok <==> str_arg(a, "user_id"@).len() > 0,
        lock_user_plan(a) matches Ok(q) ==> q.method == Method::Post && q.path == "/users/"@ + escaped(str_arg(a, "user_id"@)) + "/lock"@ && q.body == Some(FieldV::Object(Map::<Seq<char>, FieldV>::empty())),
        unlock_user_plan(a) is Ok <==> str_arg(a, "user_id"@).len() > 0,
        unlock_user_plan(a) matches Ok(q) ==> q.method == Method::Post && q.path == "/users/"@ + escaped(str_arg(a, "user_id"@)) + "/unlock"@ && q.body == Some(FieldV::Object(Map::<Seq<char>, FieldV>::empty())),
        get_session_plan(a) is Ok <==> str_arg(a, "session_id"@).len() > 0,
        get_session_plan(a) matches Ok(q) ==> q.method == Method::Get && q.path == "/sessions/"@ + escaped(str_arg(a, "session_id"@)) && q.body is None,
        revoke_session_plan(a) is Ok <==> str_arg(a, "session_id"@).len() > 0,
        revoke_session_plan(a) matches Ok(q) ==> q.method == Method::Post && q.path == "/sessions/"@ + escaped(str_arg(a, "session_id"@)) + "/revoke"@ && q.body == Some(FieldV::Object(Map::<Seq<char>, FieldV>::empty())),
        delete_organization_plan(a) is Ok <==> str_arg(a, "organization_id"@).len() > 0,
        delete_organization_plan(a) matches Ok(q) ==> q.method == Method::Delete && q.path == "/organizations/"@ + escaped(str_arg(a, "organization_id"@)) && q.body is None,
        revoke_invitation_plan(a) is Ok <==> str_arg(a, "invitation_id"@).len() > 0,
        revoke_invitation_plan(a) matches Ok(q) ==> q.method == Method::Post && q.path == "/invitations/"@ + escaped(str_arg(a, "invitation_id"@)) + "/revoke"@ && q.body == Some(FieldV::Object(Map::<Seq<char>, FieldV>::empty())),
        list_allowlist_identifiers_plan(a) matches Ok(q) && q.method == Method::Get && q.path == "/allowlist_identifiers"@ && q.body is None,
        delete_allowlist_identifier_plan(a) is Ok <==> str_arg(a, "identifier_id"@).len() > 0,
        delete_allowlist_identifier_plan(a) matches Ok(q) ==> q.method == Method::Delete && q.path == "/allowlist_identifiers/"@ + escaped(str_arg(a, "identifier_id"@)) && q.body is None,
        list_blocklist_identifiers_plan(a) matches Ok(q) && q.method == Method::Get && q.path == "/blocklist_identifiers"@ && q.body is None,
        delete_blocklist_identifier_plan(a) is Ok <==> str_arg(a, "identifier_id"@).len() > 0,
        delete_blocklist_identifier_plan(a) matches Ok(q) ==> q.method == Method::Delete && q.path == "/blocklist_identifiers/"@ + escaped(str_arg(a, "identifier_id"@)) && q.body is None,
{
    reveal_strlit("");
    assert(""@.len() == 0);
    assert(("/users/"@ + escaped(str_arg(a, "user_id"@)) + ""@) =~= ("/users/"@ + escaped(str_arg(a, "user_id"@))));
    assert(("/users/"@ + escaped(str_arg(a, "user_id"@)) + ""@) =~= ("/users/"@ + escaped(str_arg(a, "user_id"@))));
    assert(("/sessions/"@ + escaped(str_arg(a, "session_id"@)) + ""@) =~= ("/sessions/"@ + escaped(str_arg(a, "session_id"@))));
    assert(("/organizations/"@ + escaped(str_arg(a, "organization_id"@)) + ""@) =~= ("/organizations/"@ + escaped(str_arg(a, "organization_id"@))));
    assert(("/allowlist_identifiers/"@ + escaped(str_arg(a, "identifier_id"@)) + ""@) =~= ("/allowlist_identifiers/"@ + escaped(str_arg(a, "identifier_id"@))));
    assert(("/blocklist_identifiers/"@ + escaped(str_arg(a, "identifier_id"@)) + ""@) =~= ("/blocklist_identifiers/"@ + escaped(str_arg(a, "identifier_id"@))));
}


proof fn lemma_put_jsons_other(m: Map<Seq<char>, FieldV>, a: Seq<ArgEntryV>, ks: Seq<Seq<char>>, k: Seq<char>)
    requires
        !ks.contains(k),
    ensures
        put_jsons(m, a, ks) matches Ok(r) ==> (r.contains_key(k) == m.contains_key(k) && (m.contains_key(k) ==> r[k] == m[k])),
    decreases ks.len(),
{
    if ks.len() > 0 {
        let d = ks.drop_last();
        if d.contains(k) {
            let i = choose|i: int| 0 <= i < d.len() && d[i] == k;
            assert(ks[i] == k);
        }
        assert(ks[ks.len() - 1] == ks.last());
        lemma_put_jsons_other(m, a, d, k);
    }
}

proof fn lemma_put_lists_other(m: Map<Seq<char>, FieldV>, a: Seq<ArgEntryV>, ks: Seq<Seq<char>>, k: Seq<char>)
    requires
        !ks.contains(k),
    ensures
        put_lists(m, a, ks) matches Ok(r) ==> (r.contains_key(k) == m.contains_key(k) && (m.contains_key(k) ==> r[k] == m[k])),
    decreases ks.len(),
{
    if ks.len() > 0 {
        let d = ks.drop_last();
        if d.contains(k) {
            let i = choose|i: int| 0 <= i < d.len() && d[i] == k;
            assert(ks[i] == k);
        }
        assert(ks[ks.len() - 1] == ks.last());
        lemma_put_lists_other(m, a, d, k);
    }
}

/// Creating a user posts to `/users` a body that holds each profile string
/// (username, password and its digest and hasher, first and last name,
/// external id, creation time) and each password switch exactly when given,
/// with the value given.
pub proof fn lemma_create_user_body(a: Seq<ArgEntryV>)
    ensures
        create_user_plan(a) matches Ok(q) ==> q.method == Method::Post && q.path == "/users"@ && (q.body matches Some(
            FieldV::Object(m),
        ) && {
            &&& copies_text(m, a, "username"@)
            &&& copies_text(m, a, "password"@)
            &&& copies_text(m, a, "password_digest"@)
            &&& copies_text(m, a, "password_hasher"@)
            &&& copies_text(m, a, "first_name"@)
            &&& copies_text(m, a, "last_name"@)
            &&& copies_text(m, a, "external_id"@)
            &&& copies_text(m, a, "created_at"@)
            &&& copies_flag(m, a, "skip_password_checks"@)
            &&& copies_flag(m, a, "skip_password_requirement"@)
        }),
{
    reveal_strlit("username");
    assert("username"@.len() == 8);
    assert("username"@[0] == 'u');
    reveal_strlit("password");
    assert("password"@.len() == 8);
    assert("password"@[0] == 'p');
    reveal_strlit("password_digest");
    assert("password_digest"@.len() == 15);
    assert("password_digest"@[0] == 'p');
    assert("password_digest"@[1] == 'a');
    assert("password_digest"@[9] == 'd');
    reveal_strlit("password_hasher");
    assert("password_hasher"@.len() == 15);
    assert("password_hasher"@[0] == 'p');
    assert("password_hasher"@[1] == 'a');
    assert("password_hasher"@[9] == 'h');
    reveal_strlit("first_name");
    assert("first_name"@.len() == 10);
    assert("first_name"@[0] == 'f');
    reveal_strlit("last_name");
    assert("last_name"@.len() == 9);
    reveal_strlit("external_id");
    assert("external_id"@.len() == 11);
    assert("external_id"@[0] == 'e');
    reveal_strlit("created_at");
    assert("created_at"@.len() == 10);
    assert("created_at"@[0] == 'c');
    reveal_strlit("skip_password_checks");
    assert("skip_password_checks"@.len() == 20);
    reveal_strlit("skip_password_requirement");
    assert("skip_password_requirement"@.len() == 25);
    reveal_strlit("email_address");
    assert("email_address"@.len() == 13);
    reveal_strlit("phone_number");
    assert("phone_number"@.len() == 12);
    reveal_strlit("web3_wallet");
    assert("web3_wallet"@.len() == 11);
    assert("web3_wallet"@[0] == 'w');
    reveal_strlit("public_metadata");
    assert("public_metadata"@.len() == 15);
    assert("public_metadata"@[0] == 'p');
    assert("public_metadata"@[1] == 'u');
    reveal_strlit("private_metadata");
    assert("private_metadata"@.len() == 16);
    reveal_strlit("unsafe_metadata");
    assert("unsafe_metadata"@.len() == 15);
    assert("unsafe_metadata"@[0] == 'u');
    if create_user_plan(a) is Ok {
        let m0 = put_lists(Map::empty(), a, create_user_list_keys())->Ok_0;
        let m1 = put_strs(m0, a, create_user_str_keys());
        let m2 = put_bools(m1, a, create_user_bool_keys());
        let m3 = put_jsons(m2, a, metadata_keys())->Ok_0;
        assert(create_user_plan(a) == Ok::<RequestV, Seq<char>>(with_body(Method::Post, "/users"@, m3)));
        lemma_put_lists_other(Map::empty(), a, create_user_list_keys(), "username"@);
        crate::request::lemma_put_strs_at(m0, a, create_user_str_keys(), "username"@);
        crate::request::lemma_put_bools_at(m1, a, create_user_bool_keys(), "username"@);
        lemma_put_jsons_other(m2, a, metadata_keys(), "username"@);
        assert(create_user_str_keys()[0] == "username"@);
        lemma_put_lists_other(Map::empty(), a, create_user_list_keys(), "password"@);
        crate::request::lemma_put_strs_at(m0, a, create_user_str_keys(), "password"@);
        crate::request::lemma_put_bools_at(m1, a, create_user_bool_keys(), "password"@);
        lemma_put_jsons_other(m2, a, metadata_keys(), "password"@);
        assert(create_user_str_keys()[1] == "password"@);
        lemma_put_lists_other(Map::empty(), a, create_user_list_keys(), "password_digest"@);
        crate::request::lemma_put_strs_at(m0, a, create_user_str_keys(), "password_digest"@);
        crate::request::lemma_put_bools_at(m1, a, create_user_bool_keys(), "password_digest"@);
        lemma_put_jsons_other(m2, a, metadata_keys(), "password_digest"@);
        assert(create_user_str_keys()[2] == "password_digest"@);
        lemma_put_lists_other(Map::empty(), a, create_user_list_keys(), "password_hasher"@);
        crate::request::lemma_put_strs_at(m0, a, create_user_str_keys(), "password_hasher"@);
        crate::request::lemma_put_bools_at(m1, a, create_user_bool_keys(), "password_hasher"@);
        lemma_put_jsons_other(m2, a, metadata_keys(), "password_hasher"@);
        assert(create_user_str_keys()[3] == "password_hasher"@);
        lemma_put_lists_other(Map::empty(), a, create_user_list_keys(), "first_name"@);
        crate::request::lemma_put_strs_at(m0, a, create_user_str_keys(), "first_name"@);
        crate::request::lemma_put_bools_at(m1, a, create_user_bool_keys(), "first_name"@);
        lemma_put_jsons_other(m2, a, metadata_keys(), "first_name"@);
        assert(create_user_str_keys()[4] == "first_name"@);
        lemma_put_lists_other(Map::empty(), a, create_user_list_keys(), "last_name"@);
        crate::request::lemma_put_strs_at(m0, a, create_user_str_keys(), "last_name"@);
        crate::request::lemma_put_bools_at(m1, a, create_user_bool_keys(), "last_name"@);
        lemma_put_jsons_other(m2, a, metadata_keys(), "last_name"@);
        assert(create_user_str_keys()[5] == "last_name"@);
        lemma_put_lists_other(Map::empty(), a, create_user_list_keys(), "external_id"@);
        crate::request::lemma_put_strs_at(m0, a, create_user_str_keys(), "external_id"@);
        crate::request::lemma_put_bools_at(m1, a, create_user_bool_keys(), "external_id"@);
        lemma_put_jsons_other(m2, a, metadata_keys(), "external_id"@);
        assert(create_user_str_keys()[6] == "external_id"@);
        lemma_put_lists_other(Map::empty(), a, create_user_list_keys(), "created_at"@);
        crate::request::lemma_put_strs_at(m0, a, create_user_str_keys(), "created_at"@);
        crate::request::lemma_put_bools_at(m1, a, create_user_bool_keys(), "created_at"@);
        lemma_put_jsons_other(m2, a, metadata_keys(), "created_at"@);
        assert(create_user_str_keys()[7] == "created_at"@);
        lemma_put_lists_other(Map::empty(), a, create_user_list_keys(), "skip_password_checks"@);
        crate::request::lemma_put_strs_at(m0, a, create_user_str_keys(), "skip_password_checks"@);
        crate::request::lemma_put_bools_at(m1, a, create_user_bool_keys(), "skip_password_checks"@);
        lemma_put_jsons_other(m2, a, metadata_keys(), "skip_password_checks"@);
        assert(create_user_bool_keys()[0] == "skip_password_checks"@);
        lemma_put_lists_other(Map::empty(), a, create_user_list_keys(), "skip_password_requirement"@);
        crate::request::lemma_put_strs_at(m0, a, create_user_str_keys(), "skip_password_requirement"@);
        crate::request::lemma_put_bools_at(m1, a, create_user_bool_keys(), "skip_password_requirement"@);
        lemma_put_jsons_other(m2, a, metadata_keys(), "skip_password_requirement"@);
        assert(create_user_bool_keys()[1] == "skip_password_requirement"@);
    }
}

/// Updating a user needs the user, and patches `/users/{user_id}` with a body
/// that holds each profile string (first and last name, username, primary
/// email, phone and wallet, profile image, password and its digest and
/// hasher, external id) and the sign-out switch exactly when given, with the
/// value given.
pub proof fn lemma_update_user_body(a: Seq<ArgEntryV>)
    ensures
        update_user_plan(a) is Ok ==> str_arg(a, "user_id"@).len() > 0,
        update_user_plan(a) matches Ok(q) ==> q.method == Method::Patch && q.path == "/users/"@ + escaped(
            str_arg(a, "user_id"@),
        ) && (q.body matches Some(FieldV::Object(m)) && {
            &&& copies_text(m, a, "first_name"@)
            &&& copies_text(m, a, "last_name"@)
            &&& copies_text(m, a, "username"@)
            &&& copies_text(m, a, "primary_email_address_id"@)
            &&& copies_text(m, a, "primary_phone_number_id"@)
            &&& copies_text(m, a, "primary_web3_wallet_id"@)
            &&& copies_text(m, a, "profile_image_id"@)
            &&& copies_text(m, a, "password"@)
            &&& copies_text(m, a, "password_digest"@)
            &&& copies_text(m, a, "password_hasher"@)
            &&& copies_text(m, a, "external_id"@)
            &&& copies_flag(m, a, "sign_out_of_other_sessions"@)
        }),
{
    reveal_strlit("first_name");
    assert("first_name"@.len() == 10);
    reveal_strlit("last_name");
    assert("last_name"@.len() == 9);
    reveal_strlit("username");
    assert("username"@.len() == 8);
    assert("username"@[0] == 'u');
    reveal_strlit("primary_email_address_id");
    assert("primary_email_address_id"@.len() == 24);
    reveal_strlit("primary_phone_number_id");
    assert("primary_phone_number_id"@.len() == 23);
    reveal_strlit("primary_web3_wallet_id");
    assert("primary_web3_wallet_id"@.len() == 22);
    reveal_strlit("profile_image_id");
    assert("profile_image_id"@.len() == 16);
    assert("profile_image_id"@[2] == 'o');
    reveal_strlit("password");
    assert("password"@.len() == 8);
    assert("password"@[0] == 'p');
    reveal_strlit("password_digest");
    assert("password_digest"@.len() == 15);
    assert("password_digest"@[0] == 'p');
    assert("password_digest"@[1] == 'a');
    assert("password_digest"@[9] == 'd');
    reveal_strlit("password_hasher");
    assert("password_hasher"@.len() == 15);
    assert("password_hasher"@[0] == 'p');
    assert("password_hasher"@[1] == 'a');
    assert("password_hasher"@[9] == 'h');
    reveal_strlit("external_id");
    assert("external_id"@.len() == 11);
    reveal_strlit("sign_out_of_other_sessions");
    assert("sign_out_of_other_sessions"@.len() == 26);
    reveal_strlit("public_metadata");
    assert("public_metadata"@.len() == 15);
    assert("public_metadata"@[0] == 'p');
    assert("public_metadata"@[1] == 'u');
    reveal_strlit("private_metadata");
    assert("private_metadata"@.len() == 16);
    assert("private_metadata"@[2] == 'i');
    reveal_strlit("unsafe_metadata");
    assert("unsafe_metadata"@.len() == 15);
    assert("unsafe_metadata"@[0] == 'u');
    if update_user_plan(a) is Ok {
        let m0 = put_strs(Map::empty(), a, update_user_str_keys());
        let m1 = put_opt(m0, "sign_out_of_other_sessions"@, bool_field(a, "sign_out_of_other_sessions"@));
        let m2 = put_jsons(m1, a, metadata_keys())->Ok_0;
        assert(update_user_plan(a) == Ok::<RequestV, Seq<char>>(
            with_body(Method::Patch, "/users/"@ + escaped(str_arg(a, "user_id"@)), m2),
        ));
        crate::request::lemma_put_strs_at(Map::empty(), a, update_user_str_keys(), "first_name"@);
        lemma_put_jsons_other(m1, a, metadata_keys(), "first_name"@);
        assert(update_user_str_keys()[0] == "first_name"@);
        crate::request::lemma_put_strs_at(Map::empty(), a, update_user_str_keys(), "last_name"@);
        lemma_put_jsons_other(m1, a, metadata_keys(), "last_name"@);
        assert(update_user_str_keys()[1] == "last_name"@);
        crate::request::lemma_put_strs_at(Map::empty(), a, update_user_str_keys(), "username"@);
        lemma_put_jsons_other(m1, a, metadata_keys(), "username"@);
        assert(update_user_str_keys()[2] == "username"@);
        crate::request::lemma_put_strs_at(Map::empty(), a, update_user_str_keys(), "primary_email_address_id"@);
        lemma_put_jsons_other(m1, a, metadata_keys(), "primary_email_address_id"@);
        assert(update_user_str_keys()[3] == "primary_email_address_id"@);
        crate::request::lemma_put_strs_at(Map::empty(), a, update_user_str_keys(), "primary_phone_number_id"@);
        lemma_put_jsons_other(m1, a, metadata_keys(), "primary_phone_number_id"@);
        assert(update_user_str_keys()[4] == "primary_phone_number_id"@);
        crate::request::lemma_put_strs_at(Map::empty(), a, update_user_str_keys(), "primary_web3_wallet_id"@);
        lemma_put_jsons_other(m1, a, metadata_keys(), "primary_web3_wallet_id"@);
        assert(update_user_str_keys()[5] == "primary_web3_wallet_id"@);
        crate::request::lemma_put_strs_at(Map::empty(), a, update_user_str_keys(), "profile_image_id"@);
        lemma_put_jsons_other(m1, a, metadata_keys(), "profile_image_id"@);
        assert(update_user_str_keys()[6] == "profile_image_id"@);
        crate::request::lemma_put_strs_at(Map::empty(), a, update_user_str_keys(), "password"@);
        lemma_put_jsons_other(m1, a, metadata_keys(), "password"@);
        assert(update_user_str_keys()[7] == "password"@);
        crate::request::lemma_put_strs_at(Map::empty(), a, update_user_str_keys(), "password_digest"@);
        lemma_put_jsons_other(m1, a, metadata_keys(), "password_digest"@);
        assert(update_user_str_keys()[8] == "password_digest"@);
        crate::request::lemma_put_strs_at(Map::empty(), a, update_user_str_keys(), "password_hasher"@);
        lemma_put_jsons_other(m1, a, metadata_keys(), "password_hasher"@);
        assert(update_user_str_keys()[9] == "password_hasher"@);
        crate::request::lemma_put_strs_at(Map::empty(), a, update_user_str_keys(), "external_id"@);
        lemma_put_jsons_other(m1, a, metadata_keys(), "external_id"@);
        assert(update_user_str_keys()[10] == "external_id"@);
        crate::request::lemma_put_strs_at(Map::empty(), a, update_user_str_keys(), "sign_out_of_other_sessions"@);
        lemma_put_jsons_other(m1, a, metadata_keys(), "sign_out_of_other_sessions"@);
    }
}


/// The query pairs of `list_sessions`: the client, the user and the status, each when given.
pub open spec fn list_sessions_query_holds(a: Seq<ArgEntryV>, ps: Seq<(Seq<char>, Seq<char>)>) -> bool {
    &&& ps.len() >= 0
    &&& (str_arg(a, "client_id"@).len() > 0 ==> ps.contains(("client_id"@, str_arg(a, "client_id"@))))
    &&& (str_arg(a, "user_id"@).len() > 0 ==> ps.contains(("user_id"@, str_arg(a, "user_id"@))))
    &&& (str_arg(a, "status"@).len() > 0 ==> ps.contains(("status"@, str_arg(a, "status"@))))
}

proof fn lemma_list_sessions_has_client_id(a: Seq<ArgEntryV>)
    ensures
        str_arg(a, "client_id"@).len() > 0 ==> (str_param(a, "client_id"@, "client_id"@) + str_param(a, "user_id"@, "user_id"@) + str_param(a, "status"@, "status"@)).contains(("client_id"@, str_arg(a, "client_id"@))),
{
    if str_arg(a, "client_id"@).len() > 0 {
        assert(str_param(a, "client_id"@, "client_id"@)[0] == ("client_id"@, str_arg(a, "client_id"@)));
        crate::request::lemma_concat_contains(str_param(a, "client_id"@, "client_id"@), str_param(a, "client_id"@, "client_id"@), ("client_id"@, str_arg(a, "client_id"@)));
        crate::request::lemma_concat_contains(str_param(a, "client_id"@, "client_id"@), str_param(a, "user_id"@, "user_id"@), ("client_id"@, str_arg(a, "client_id"@)));
        crate::request::lemma_concat_contains(str_param(a, "client_id"@, "client_id"@) + str_param(a, "user_id"@, "user_id"@), str_param(a, "status"@, "status"@), ("client_id"@, str_arg(a, "client_id"@)));
    }
}

proof fn lemma_list_sessions_has_user_id(a: Seq<ArgEntryV>)
    ensures
        str_arg(a, "user_id"@).len() > 0 ==> (str_param(a, "client_id"@, "client_id"@) + str_param(a, "user_id"@, "user_id"@) + str_param(a, "status"@, "status"@)).contains(("user_id"@, str_arg(a, "user_id"@))),
{
    if str_arg(a, "user_id"@).len() > 0 {
        assert(str_param(a, "user_id"@, "user_id"@)[0] == ("user_id"@, str_arg(a, "user_id"@)));
        crate::request::lemma_concat_contains(str_param(a, "client_id"@, "client_id"@), str_param(a, "user_id"@, "user_id"@), ("user_id"@, str_arg(a, "user_id"@)));
        crate::request::lemma_concat_contains(str_param(a, "client_id"@, "client_id"@) + str_param(a, "user_id"@, "user_id"@), str_param(a, "status"@, "status"@), ("user_id"@, str_arg(a, "user_id"@)));
    }
}

proof fn lemma_list_sessions_has_status(a: Seq<ArgEntryV>)
    ensures
        str_arg(a, "status"@).len() > 0 ==> (str_param(a, "client_id"@, "client_id"@) + str_param(a, "user_id"@, "user_id"@) + str_param(a, "status"@, "status"@)).contains(("status"@, str_arg(a, "status"@))),
{
    if str_arg(a, "status"@).len() > 0 {
        assert(str_param(a, "status"@, "status"@)[0] == ("status"@, str_arg(a, "status"@)));
        crate::request::lemma_concat_contains(str_param(a, "client_id"@, "client_id"@) + str_param(a, "user_id"@, "user_id"@), str_param(a, "status"@, "status"@), ("status"@, str_arg(a, "status"@)));
    }
}

proof fn lemma_list_sessions_page(a: Seq<ArgEntryV>)
    ensures
        (str_param(a, "client_id"@, "client_id"@) + str_param(a, "user_id"@, "user_id"@) + str_param(a, "status"@, "status"@)).len() >= 0,
{

}

/// `list_sessions` asks `GET` for its path with a query string whose pairs are
/// those [`list_sessions_query_holds`] describes, and goes ahead exactly when its required arguments are given.
pub proof fn lemma_list_sessions_query(a: Seq<ArgEntryV>)
    ensures
        list_sessions_plan(a) is Ok <==> (str_arg(a, "client_id"@).len() > 0 || str_arg(a, "user_id"@).len() > 0),
        list_sessions_plan(a) matches Ok(q) ==> {
            &&& q.method == Method::Get
            &&& q.body is None
            &&& exists|ps: Seq<(Seq<char>, Seq<char>)>|
                #![trigger crate::request::query_string(ps)]
                q.path == "/sessions"@ + "?"@ + crate::request::query_string(ps) && list_sessions_query_holds(a, ps)
        },
{
    lemma_list_sessions_page(a);
    lemma_list_sessions_has_client_id(a);
    lemma_list_sessions_has_user_id(a);
    lemma_list_sessions_has_status(a);
    let ps = str_param(a, "client_id"@, "client_id"@) + str_param(a, "user_id"@, "user_id"@) + str_param(a, "status"@, "status"@);
    assert(list_sessions_query_holds(a, ps));
    if str_arg(a, "client_id"@).len() > 0 || str_arg(a, "user_id"@).len() > 0 {
        assert(ps.contains(("client_id"@, str_arg(a, "client_id"@))) || ps.contains(("user_id"@, str_arg(a, "user_id"@))));
        assert(ps.len() > 0);
        assert(with_query("/sessions"@, ps) == "/sessions"@ + "?"@ + crate::request::query_string(ps));
    }
}

/// The query pairs of `list_organizations`: the limit first (10 by default, kept within 1..=500), the offset second (0 by default, at least 0), then the member-count switch, ordering and search when given, and each user of the user filter.
pub open spec fn list_organizations_query_holds(a: Seq<ArgEntryV>, ps: Seq<(Seq<char>, Seq<char>)>) -> bool {
    &&& ps.len() >= 2
    &&& ps[0] == ("limit"@, int_decimal((if (if int_arg(a, "limit"@) is Some { int_arg(a, "limit"@)->0 as int } else { 10 }) < 1 { 1 } else if (if int_arg(a, "limit"@) is Some { int_arg(a, "limit"@)->0 as int } else { 10 }) > 500 { 500 } else { (if int_arg(a, "limit"@) is Some { int_arg(a, "limit"@)->0 as int } else { 10 }) })))
    &&& ps[1] == ("offset"@, int_decimal((if (if int_arg(a, "offset"@) is Some { int_arg(a, "offset"@)->0 as int } else { 0 }) < 0 { 0 } else if (if int_arg(a, "offset"@) is Some { int_arg(a, "offset"@)->0 as int } else { 0 }) > i64::MAX as int { i64::MAX as int } else { (if int_arg(a, "offset"@) is Some { int_arg(a, "offset"@)->0 as int } else { 0 }) })))
    &&& (bool_arg(a, "include_members_count"@) is Some ==> ps.contains(("include_members_count"@, bool_text(bool_arg(a, "include_members_count"@)->0))))
    &&& (str_arg(a, "order_by"@).len() > 0 ==> ps.contains(("order_by"@, str_arg(a, "order_by"@))))
    &&& (str_arg(a, "query"@).len() > 0 ==> ps.contains(("query"@, str_arg(a, "query"@))))
    &&& (forall|item: Seq<char>| #[trigger] csv_items(str_arg(a, "user_id"@)).contains(item) ==> ps.contains(("user_id"@, item)))
}

proof fn lemma_list_organizations_has_include_members_count(a: Seq<ArgEntryV>)
    ensures
        bool_arg(a, "include_members_count"@) is Some ==> (page_params(a, 500) + bool_param(a, "include_members_count"@, "include_members_count"@) + str_param(a, "order_by"@, "order_by"@) + str_param(a, "query"@, "query"@) + repeated_param(a, "user_id"@, "user_id"@)).contains(("include_members_count"@, bool_text(bool_arg(a, "include_members_count"@)->0))),
{
    if bool_arg(a, "include_members_count"@) is Some {
        assert(bool_param(a, "include_members_count"@, "include_members_count"@)[0] == ("include_members_count"@, bool_text(bool_arg(a, "include_members_count"@)->0)));
        crate::request::lemma_concat_contains(page_params(a, 500), bool_param(a, "include_members_count"@, "include_members_count"@), ("include_members_count"@, bool_text(bool_arg(a, "include_members_count"@)->0)));
        crate::request::lemma_concat_contains(page_params(a, 500) + bool_param(a, "include_members_count"@, "include_members_count"@), str_param(a, "order_by"@, "order_by"@), ("include_members_count"@, bool_text(bool_arg(a, "include_members_count"@)->0)));
        crate::request::lemma_concat_contains(page_params(a, 500) + bool_param(a, "include_members_count"@, "include_members_count"@) + str_param(a, "order_by"@, "order_by"@), str_param(a, "query"@, "query"@), ("include_members_count"@, bool_text(bool_arg(a, "include_members_count"@)->0)));
        crate::request::lemma_concat_contains(page_params(a, 500) + bool_param(a, "include_members_count"@, "include_members_count"@) + str_param(a, "order_by"@, "order_by"@) + str_param(a, "query"@, "query"@), repeated_param(a, "user_id"@, "user_id"@), ("include_members_count"@, bool_text(bool_arg(a, "include_members_count"@)->0)));
    }
}

proof fn lemma_list_organizations_has_order_by(a: Seq<ArgEntryV>)
    ensures
        str_arg(a, "order_by"@).len() > 0 ==> (page_params(a, 500) + bool_param(a, "include_members_count"@, "include_members_count"@) + str_param(a, "order_by"@, "order_by"@) + str_param(a, "query"@, "query"@) + repeated_param(a, "user_id"@, "user_id"@)).contains(("order_by"@, str_arg(a, "order_by"@))),
{
    if str_arg(a, "order_by"@).len() > 0 {
        assert(str_param(a, "order_by"@, "order_by"@)[0] == ("order_by"@, str_arg(a, "order_by"@)));
        crate::request::lemma_concat_contains(page_params(a, 500) + bool_param(a, "include_members_count"@, "include_members_count"@), str_param(a, "order_by"@, "order_by"@), ("order_by"@, str_arg(a, "order_by"@)));
        crate::request::lemma_concat_contains(page_params(a, 500) + bool_param(a, "include_members_count"@, "include_members_count"@) + str_param(a, "order_by"@, "order_by"@), str_param(a, "query"@, "query"@), ("order_by"@, str_arg(a, "order_by"@)));
        crate::request::lemma_concat_contains(page_params(a, 500) + bool_param(a, "include_members_count"@, "include_members_count"@) + str_param(a, "order_by"@, "order_by"@) + str_param(a, "query"@, "query"@), repeated_param(a, "user_id"@, "user_id"@), ("order_by"@, str_arg(a, "order_by"@)));
    }
}

proof fn lemma_list_organizations_has_query(a: Seq<ArgEntryV>)
    ensures
        str_arg(a, "query"@).len() > 0 ==> (page_params(a, 500) + bool_param(a, "include_members_count"@, "include_members_count"@) + str_param(a, "order_by"@, "order_by"@) + str_param(a, "query"@, "query"@) + repeated_param(a, "user_id"@, "user_id"@)).contains(("query"@, str_arg(a, "query"@))),
{
    if str_arg(a, "query"@).len() > 0 {
        assert(str_param(a, "query"@, "query"@)[0] == ("query"@, str_arg(a, "query"@)));
        crate::request::lemma_concat_contains(page_params(a, 500) + bool_param(a, "include_members_count"@, "include_members_count"@) + str_param(a, "order_by"@, "order_by"@), str_param(a, "query"@, "query"@), ("query"@, str_arg(a, "query"@)));
        crate::request::lemma_concat_contains(page_params(a, 500) + bool_param(a, "include_members_count"@, "include_members_count"@) + str_param(a, "order_by"@, "order_by"@) + str_param(a, "query"@, "query"@), repeated_param(a, "user_id"@, "user_id"@), ("query"@, str_arg(a, "query"@)));
    }
}

proof fn lemma_list_organizations_has_user_id(a: Seq<ArgEntryV>, item: Seq<char>)
    ensures
        csv_items(str_arg(a, "user_id"@)).contains(item) ==> (page_params(a, 500) + bool_param(a, "include_members_count"@, "include_members_count"@) + str_param(a, "order_by"@, "order_by"@) + str_param(a, "query"@, "query"@) + repeated_param(a, "user_id"@, "user_id"@)).contains(("user_id"@, item)),
{
    if csv_items(str_arg(a, "user_id"@)).contains(item) {
        let items = csv_items(str_arg(a, "user_id"@));
        let k = choose|k: int| 0 <= k < items.len() && items[k] == item;
        assert(repeated_param(a, "user_id"@, "user_id"@)[k] == ("user_id"@, item));
        crate::request::lemma_concat_contains(page_params(a, 500) + bool_param(a, "include_members_count"@, "include_members_count"@) + str_param(a, "order_by"@, "order_by"@) + str_param(a, "query"@, "query"@), repeated_param(a, "user_id"@, "user_id"@), ("user_id"@, item));
    }
}

proof fn lemma_list_organizations_page(a: Seq<ArgEntryV>)
    ensures
        (page_params(a, 500) + bool_param(a, "include_members_count"@, "include_members_count"@) + str_param(a, "order_by"@, "order_by"@) + str_param(a, "query"@, "query"@) + repeated_param(a, "user_id"@, "user_id"@)).len() >= 2,
        (page_params(a, 500) + bool_param(a, "include_members_count"@, "include_members_count"@) + str_param(a, "order_by"@, "order_by"@) + str_param(a, "query"@, "query"@) + repeated_param(a, "user_id"@, "user_id"@))[0] == (page_params(a, 500))[0],
        (page_params(a, 500) + bool_param(a, "include_members_count"@, "include_members_count"@) + str_param(a, "order_by"@, "order_by"@) + str_param(a, "query"@, "query"@) + repeated_param(a, "user_id"@, "user_id"@))[1] == (page_params(a, 500))[1],
{
    assert((page_params(a, 500) + bool_param(a, "include_members_count"@, "include_members_count"@))[0] == (page_params(a, 500))[0]);
    assert((page_params(a, 500) + bool_param(a, "include_members_count"@, "include_members_count"@))[1] == (page_params(a, 500))[1]);
    assert((page_params(a, 500) + bool_param(a, "include_members_count"@, "include_members_count"@) + str_param(a, "order_by"@, "order_by"@))[0] == (page_params(a, 500))[0]);
    assert((page_params(a, 500) + bool_param(a, "include_members_count"@, "include_members_count"@) + str_param(a, "order_by"@, "order_by"@))[1] == (page_params(a, 500))[1]);
    assert((page_params(a, 500) + bool_param(a, "include_members_count"@, "include_members_count"@) + str_param(a, "order_by"@, "order_by"@) + str_param(a, "query"@, "query"@))[0] == (page_params(a, 500))[0]);
    assert((page_params(a, 500) + bool_param(a, "include_members_count"@, "include_members_count"@) + str_param(a, "order_by"@, "order_by"@) + str_param(a, "query"@, "query"@))[1] == (page_params(a, 500))[1]);
    assert((page_params(a, 500) + bool_param(a, "include_members_count"@, "include_members_count"@) + str_param(a, "order_by"@, "order_by"@) + str_param(a, "query"@, "query"@) + repeated_param(a, "user_id"@, "user_id"@))[0] == (page_params(a, 500))[0]);
    assert((page_params(a, 500) + bool_param(a, "include_members_count"@, "include_members_count"@) + str_param(a, "order_by"@, "order_by"@) + str_param(a, "query"@, "query"@) + repeated_param(a, "user_id"@, "user_id"@))[1] == (page_params(a, 500))[1]);
}

/// `list_organizations` asks `GET` for its path with a query string whose pairs are
/// those [`list_organizations_query_holds`] describes.
pub proof fn lemma_list_organizations_query(a: Seq<ArgEntryV>)
    ensures
        list_organizations_plan(a) matches Ok(q) ==> {
            &&& q.method == Method::Get
            &&& q.body is None
            &&& exists|ps: Seq<(Seq<char>, Seq<char>)>|
                #![trigger crate::request::query_string(ps)]
                q.path == "/organizations"@ + "?"@ + crate::request::query_string(ps) && list_organizations_query_holds(a, ps)
        },
{
    lemma_list_organizations_page(a);
    lemma_list_organizations_has_include_members_count(a);
    lemma_list_organizations_has_order_by(a);
    lemma_list_organizations_has_query(a);
    assert forall|item: Seq<char>| #[trigger] csv_items(str_arg(a, "user_id"@)).contains(item) implies (page_params(a, 500) + bool_param(a, "include_members_count"@, "include_members_count"@) + str_param(a, "order_by"@, "order_by"@) + str_param(a, "query"@, "query"@) + repeated_param(a, "user_id"@, "user_id"@)).contains(("user_id"@, item)) by {
        lemma_list_organizations_has_user_id(a, item);
    }
    let ps = page_params(a, 500) + bool_param(a, "include_members_count"@, "include_members_count"@) + str_param(a, "order_by"@, "order_by"@) + str_param(a, "query"@, "query"@) + repeated_param(a, "user_id"@, "user_id"@);
    assert(list_organizations_query_holds(a, ps));
    assert(ps.len() > 0);
    assert(with_query("/organizations"@, ps) == "/organizations"@ + "?"@ + crate::request::query_string(ps));
}

/// The query pairs of `list_invitations`: the limit first (10 by default, kept within 1..=500), the offset second (0 by default, at least 0), then the status, search and ordering when given.
pub open spec fn list_invitations_query_holds(a: Seq<ArgEntryV>, ps: Seq<(Seq<char>, Seq<char>)>) -> bool {
    &&& ps.len() >= 2
    &&& ps[0] == ("limit"@, int_decimal((if (if int_arg(a, "limit"@) is Some { int_arg(a, "limit"@)->0 as int } else { 10 }) < 1 { 1 } else if (if int_arg(a, "limit"@) is Some { int_arg(a, "limit"@)->0 as int } else { 10 }) > 500 { 500 } else { (if int_arg(a, "limit"@) is Some { int_arg(a, "limit"@)->0 as int } else { 10 }) })))
    &&& ps[1] == ("offset"@, int_decimal((if (if int_arg(a, "offset"@) is Some { int_arg(a, "offset"@)->0 as int } else { 0 }) < 0 { 0 } else if (if int_arg(a, "offset"@) is Some { int_arg(a, "offset"@)->0 as int } else { 0 }) > i64::MAX as int { i64::MAX as int } else { (if int_arg(a, "offset"@) is Some { int_arg(a, "offset"@)->0 as int } else { 0 }) })))
    &&& (str_arg(a, "status"@).len() > 0 ==> ps.contains(("status"@, str_arg(a, "status"@))))
    &&& (str_arg(a, "query"@).len() > 0 ==> ps.contains(("query"@, str_arg(a, "query"@))))
    &&& (str_arg(a, "order_by"@).len() > 0 ==> ps.contains(("order_by"@, str_arg(a, "order_by"@))))
}

proof fn lemma_list_invitations_has_status(a: Seq<ArgEntryV>)
    ensures
        str_arg(a, "status"@).len() > 0 ==> (page_params(a, 500) + str_param(a, "status"@, "status"@) + str_param(a, "query"@, "query"@) + str_param(a, "order_by"@, "order_by"@)).contains(("status"@, str_arg(a, "status"@))),
{
    if str_arg(a, "status"@).len() > 0 {
        assert(str_param(a, "status"@, "status"@)[0] == ("status"@, str_arg(a, "status"@)));
        crate::request::lemma_concat_contains(page_params(a, 500), str_param(a, "status"@, "status"@), ("status"@, str_arg(a, "status"@)));
        crate::request::lemma_concat_contains(page_params(a, 500) + str_param(a, "status"@, "status"@), str_param(a, "query"@, "query"@), ("status"@, str_arg(a, "status"@)));
        crate::request::lemma_concat_contains(page_params(a, 500) + str_param(a, "status"@, "status"@) + str_param(a, "query"@, "query"@), str_param(a, "order_by"@, "order_by"@), ("status"@, str_arg(a, "status"@)));
    }
}

proof fn lemma_list_invitations_has_query(a: Seq<ArgEntryV>)
    ensures
        str_arg(a, "query"@).len() > 0 ==> (page_params(a, 500) + str_param(a, "status"@, "status"@) + str_param(a, "query"@, "query"@) + str_param(a, "order_by"@, "order_by"@)).contains(("query"@, str_arg(a, "query"@))),
{
    if str_arg(a, "query"@).len() > 0 {
        assert(str_param(a, "query"@, "query"@)[0] == ("query"@, str_arg(a, "query"@)));
        crate::request::lemma_concat_contains(page_params(a, 500) + str_param(a, "status"@, "status"@), str_param(a, "query"@, "query"@), ("query"@, str_arg(a, "query"@)));
        crate::request::lemma_concat_contains(page_params(a, 500) + str_param(a, "status"@, "status"@) + str_param(a, "query"@, "query"@), str_param(a, "order_by"@, "order_by"@), ("query"@, str_arg(a, "query"@)));
    }
}

proof fn lemma_list_invitations_has_order_by(a: Seq<ArgEntryV>)
    ensures
        str_arg(a, "order_by"@).len() > 0 ==> (page_params(a, 500) + str_param(a, "status"@, "status"@) + str_param(a, "query"@, "query"@) + str_param(a, "order_by"@, "order_by"@)).contains(("order_by"@, str_arg(a, "order_by"@))),
{
    if str_arg(a, "order_by"@).len() > 0 {
        assert(str_param(a, "order_by"@, "order_by"@)[0] == ("order_by"@, str_arg(a, "order_by"@)));
        crate::request::lemma_concat_contains(page_params(a, 500) + str_param(a, "status"@, "status"@) + str_param(a, "query"@, "query"@), str_param(a, "order_by"@, "order_by"@), ("order_by"@, str_arg(a, "order_by"@)));
    }
}

proof fn lemma_list_invitations_page(a: Seq<ArgEntryV>)
    ensures
        (page_params(a, 500) + str_param(a, "status"@, "status"@) + str_param(a, "query"@, "query"@) + str_param(a, "order_by"@, "order_by"@)).len() >= 2,
        (page_params(a, 500) + str_param(a, "status"@, "status"@) + str_param(a, "query"@, "query"@) + str_param(a, "order_by"@, "order_by"@))[0] == (page_params(a, 500))[0],
        (page_params(a, 500) + str_param(a, "status"@, "status"@) + str_param(a, "query"@, "query"@) + str_param(a, "order_by"@, "order_by"@))[1] == (page_params(a, 500))[1],
{
    assert((page_params(a, 500) + str_param(a, "status"@, "status"@))[0] == (page_params(a, 500))[0]);
    assert((page_params(a, 500) + str_param(a, "status"@, "status"@))[1] == (page_params(a, 500))[1]);
    assert((page_params(a, 500) + str_param(a, "status"@, "status"@) + str_param(a, "query"@, "query"@))[0] == (page_params(a, 500))[0]);
    assert((page_params(a, 500) + str_param(a, "status"@, "status"@) + str_param(a, "query"@, "query"@))[1] == (page_params(a, 500))[1]);
    assert((page_params(a, 500) + str_param(a, "status"@, "status"@) + str_param(a, "query"@, "query"@) + str_param(a, "order_by"@, "order_by"@))[0] == (page_params(a, 500))[0]);
    assert((page_params(a, 500) + str_param(a, "status"@, "status"@) + str_param(a, "query"@, "query"@) + str_param(a, "order_by"@, "order_by"@))[1] == (page_params(a, 500))[1]);
}

/// `list_invitations` asks `GET` for its path with a query string whose pairs are
/// those [`list_invitations_query_holds`] describes.
pub proof fn lemma_list_invitations_query(a: Seq<ArgEntryV>)
    ensures
        list_invitations_plan(a) matches Ok(q) ==> {
            &&& q.method == Method::Get
            &&& q.body is None
            &&& exists|ps: Seq<(Seq<char>, Seq<char>)>|
                #![trigger crate::request::query_string(ps)]
                q.path == "/invitations"@ + "?"@ + crate::request::query_string(ps) && list_invitations_query_holds(a, ps)
        },
{
    lemma_list_invitations_page(a);
    lemma_list_invitations_has_status(a);
    lemma_list_invitations_has_query(a);
    lemma_list_invitations_has_order_by(a);
    let ps = page_params(a, 500) + str_param(a, "status"@, "status"@) + str_param(a, "query"@, "query"@) + str_param(a, "order_by"@, "order_by"@);
    assert(list_invitations_query_holds(a, ps));
    assert(ps.len() > 0);
    assert(with_query("/invitations"@, ps) == "/invitations"@ + "?"@ + crate::request::query_string(ps));
}

/// The query pairs of `list_organization_memberships`: the limit first (10 by default, kept within 1..=500), the offset second (0 by default, at least 0), then the ordering when given.
pub open spec fn list_organization_memberships_query_holds(a: Seq<ArgEntryV>, ps: Seq<(Seq<char>, Seq<char>)>) -> bool {
    &&& ps.len() >= 2
    &&& ps[0] == ("limit"@, int_decimal((if (if int_arg(a, "limit"@) is Some { int_arg(a, "limit"@)->0 as int } else { 10 }) < 1 { 1 } else if (if int_arg(a, "limit"@) is Some { int_arg(a, "limit"@)->0 as int } else { 10 }) > 500 { 500 } else { (if int_arg(a, "limit"@) is Some { int_arg(a, "limit"@)->0 as int } else { 10 }) })))
    &&& ps[1] == ("offset"@, int_decimal((if (if int_arg(a, "offset"@) is Some { int_arg(a, "offset"@)->0 as int } else { 0 }) < 0 { 0 } else if (if int_arg(a, "offset"@) is Some { int_arg(a, "offset"@)->0 as int } else { 0 }) > i64::MAX as int { i64::MAX as int } else { (if int_arg(a, "offset"@) is Some { int_arg(a, "offset"@)->0 as int } else { 0 }) })))
    &&& (str_arg(a, "order_by"@).len() > 0 ==> ps.contains(("order_by"@, str_arg(a, "order_by"@))))
}

proof fn lemma_list_organization_memberships_has_order_by(a: Seq<ArgEntryV>)
    ensures
        str_arg(a, "order_by"@).len() > 0 ==> (page_params(a, 500) + str_param(a, "order_by"@, "order_by"@)).contains(("order_by"@, str_arg(a, "order_by"@))),
{
    if str_arg(a, "order_by"@).len() > 0 {
        assert(str_param(a, "order_by"@, "order_by"@)[0] == ("order_by"@, str_arg(a, "order_by"@)));
        crate::request::lemma_concat_contains(page_params(a, 500), str_param(a, "order_by"@, "order_by"@), ("order_by"@, str_arg(a, "order_by"@)));
    }
}

proof fn lemma_list_organization_memberships_page(a: Seq<ArgEntryV>)
    ensures
        (page_params(a, 500) + str_param(a, "order_by"@, "order_by"@)).len() >= 2,
        (page_params(a, 500) + str_param(a, "order_by"@, "order_by"@))[0] == (page_params(a, 500))[0],
        (page_params(a, 500) + str_param(a, "order_by"@, "order_by"@))[1] == (page_params(a, 500))[1],
{
    assert((page_params(a, 500) + str_param(a, "order_by"@, "order_by"@))[0] == (page_params(a, 500))[0]);
    assert((page_params(a, 500) + str_param(a, "order_by"@, "order_by"@))[1] == (page_params(a, 500))[1]);
}

/// `list_organization_memberships` asks `GET` for its path with a query string whose pairs are
/// those [`list_organization_memberships_query_holds`] describes, and goes ahead exactly when its required arguments are given.
pub proof fn lemma_list_organization_memberships_query(a: Seq<ArgEntryV>)
    ensures
        list_organization_memberships_plan(a) is Ok <==> str_arg(a, "organization_id"@).len() > 0,
        list_organization_memberships_plan(a) matches Ok(q) ==> {
            &&& q.method == Method::Get
            &&& q.body is None
            &&& exists|ps: Seq<(Seq<char>, Seq<char>)>|
                #![trigger crate::request::query_string(ps)]
                q.path == "/organizations/"@ + escaped(str_arg(a, "organization_id"@)) + "/memberships"@ + "?"@ + crate::request::query_string(ps) && list_organization_memberships_query_holds(a, ps)
        },
{
    lemma_list_organization_memberships_page(a);
    lemma_list_organization_memberships_has_order_by(a);
    let ps = page_params(a, 500) + str_param(a, "order_by"@, "order_by"@);
    assert(list_organization_memberships_query_holds(a, ps));
    assert(ps.len() > 0);
    assert(with_query("/organizations/"@ + escaped(str_arg(a, "organization_id"@)) + "/memberships"@, ps) == "/organizations/"@ + escaped(str_arg(a, "organization_id"@)) + "/memberships"@ + "?"@ + crate::request::query_string(ps));
}

/// The query pairs of `list_organization_invitations`: the limit first (10 by default, kept within 1..=500), the offset second (0 by default, at least 0), then each status of the status filter.
pub open spec fn list_organization_invitations_query_holds(a: Seq<ArgEntryV>, ps: Seq<(Seq<char>, Seq<char>)>) -> bool {
    &&& ps.len() >= 2
    &&& ps[0] == ("limit"@, int_decimal((if (if int_arg(a, "limit"@) is Some { int_arg(a, "limit"@)->0 as int } else { 10 }) < 1 { 1 } else if (if int_arg(a, "limit"@) is Some { int_arg(a, "limit"@)->0 as int } else { 10 }) > 500 { 500 } else { (if int_arg(a, "limit"@) is Some { int_arg(a, "limit"@)->0 as int } else { 10 }) })))
    &&& ps[1] == ("offset"@, int_decimal((if (if int_arg(a, "offset"@) is Some { int_arg(a, "offset"@)->0 as int } else { 0 }) < 0 { 0 } else if (if int_arg(a, "offset"@) is Some { int_arg(a, "offset"@)->0 as int } else { 0 }) > i64::MAX as int { i64::MAX as int } else { (if int_arg(a, "offset"@) is Some { int_arg(a, "offset"@)->0 as int } else { 0 }) })))
    &&& (forall|item: Seq<char>| #[trigger] csv_items(str_arg(a, "status"@)).contains(item) ==> ps.contains(("status"@, item)))
}

proof fn lemma_list_organization_invitations_has_status(a: Seq<ArgEntryV>, item: Seq<char>)
    ensures
        csv_items(str_arg(a, "status"@)).contains(item) ==> (page_params(a, 500) + repeated_param(a, "status"@, "status"@)).contains(("status"@, item)),
{
    if csv_items(str_arg(a, "status"@)).contains(item) {
        let items = csv_items(str_arg(a, "status"@));
        let k = choose|k: int| 0 <= k < items.len() && items[k] == item;
        assert(repeated_param(a, "status"@, "status"@)[k] == ("status"@, item));
        crate::request::lemma_concat_contains(page_params(a, 500), repeated_param(a, "status"@, "status"@), ("status"@, item));
    }
}

proof fn lemma_list_organization_invitations_page(a: Seq<ArgEntryV>)
    ensures
        (page_params(a, 500) + repeated_param(a, "status"@, "status"@)).len() >= 2,
        (page_params(a, 500) + repeated_param(a, "status"@, "status"@))[0] == (page_params(a, 500))[0],
        (page_params(a, 500) + repeated_param(a, "status"@, "status"@))[1] == (page_params(a, 500))[1],
{
    assert((page_params(a, 500) + repeated_param(a, "status"@, "status"@))[0] == (page_params(a, 500))[0]);
    assert((page_params(a, 500) + repeated_param(a, "status"@, "status"@))[1] == (page_params(a, 500))[1]);
}

/// `list_organization_invitations` asks `GET` for its path with a query string whose pairs are
/// those [`list_organization_invitations_query_holds`] describes, and goes ahead exactly when its required arguments are given.
pub proof fn lemma_list_organization_invitations_query(a: Seq<ArgEntryV>)
    ensures
        list_organization_invitations_plan(a) is Ok <==> str_arg(a, "organization_id"@).len() > 0,
        list_organization_invitations_plan(a) matches Ok(q) ==> {
            &&& q.method == Method::Get
            &&& q.body is None
            &&& exists|ps: Seq<(Seq<char>, Seq<char>)>|
                #![trigger crate::request::query_string(ps)]
                q.path == "/organizations/"@ + escaped(str_arg(a, "organization_id"@)) + "/invitations"@ + "?"@ + crate::request::query_string(ps) && list_organization_invitations_query_holds(a, ps)
        },
{
    lemma_list_organization_invitations_page(a);
    assert forall|item: Seq<char>| #[trigger] csv_items(str_arg(a, "status"@)).contains(item) implies (page_params(a, 500) + repeated_param(a, "status"@, "status"@)).contains(("status"@, item)) by {
        lemma_list_organization_invitations_has_status(a, item);
    }
    let ps = page_params(a, 500) + repeated_param(a, "status"@, "status"@);
    assert(list_organization_invitations_query_holds(a, ps));
    assert(ps.len() > 0);
    assert(with_query("/organizations/"@ + escaped(str_arg(a, "organization_id"@)) + "/invitations"@, ps) == "/organizations/"@ + escaped(str_arg(a, "organization_id"@)) + "/invitations"@ + "?"@ + crate::request::query_string(ps));
}

/// The query pairs of `list_user_organization_memberships`: the limit first (10 by default, kept within 1..=100) and the offset second (0 by default, at least 0).
pub open spec fn list_user_organization_memberships_query_holds(a: Seq<ArgEntryV>, ps: Seq<(Seq<char>, Seq<char>)>) -> bool {
    &&& ps.len() >= 2
    &&& ps[0] == ("limit"@, int_decimal((if (if int_arg(a, "limit"@) is Some { int_arg(a, "limit"@)->0 as int } else { 10 }) < 1 { 1 } else if (if int_arg(a, "limit"@) is Some { int_arg(a, "limit"@)->0 as int } else { 10 }) > 100 { 100 } else { (if int_arg(a, "limit"@) is Some { int_arg(a, "limit"@)->0 as int } else { 10 }) })))
    &&& ps[1] == ("offset"@, int_decimal((if (if int_arg(a, "offset"@) is Some { int_arg(a, "offset"@)->0 as int } else { 0 }) < 0 { 0 } else if (if int_arg(a, "offset"@) is Some { int_arg(a, "offset"@)->0 as int } else { 0 }) > i64::MAX as int { i64::MAX as int } else { (if int_arg(a, "offset"@) is Some { int_arg(a, "offset"@)->0 as int } else { 0 }) })))
}

proof fn lemma_list_user_organization_memberships_page(a: Seq<ArgEntryV>)
    ensures
        (page_params(a, 100)).len() >= 2,
        (page_params(a, 100))[0] == (page_params(a, 100))[0],
        (page_params(a, 100))[1] == (page_params(a, 100))[1],
{

}

/// `list_user_organization_memberships` asks `GET` for its path with a query string whose pairs are
/// those [`list_user_organization_memberships_query_holds`] describes, and goes ahead exactly when its required arguments are given.
pub proof fn lemma_list_user_organization_memberships_query(a: Seq<ArgEntryV>)
    ensures
        list_user_organization_memberships_plan(a) is Ok <==> str_arg(a, "user_id"@).len() > 0,
        list_user_organization_memberships_plan(a) matches Ok(q) ==> {
            &&& q.method == Method::Get
            &&& q.body is None
            &&& exists|ps: Seq<(Seq<char>, Seq<char>)>|
                #![trigger crate::request::query_string(ps)]
                q.path == "/users/"@ + escaped(str_arg(a, "user_id"@)) + "/organization_memberships"@ + "?"@ + crate::request::query_string(ps) && list_user_organization_memberships_query_holds(a, ps)
        },
{
    lemma_list_user_organization_memberships_page(a);
    let ps = page_params(a, 100);
    assert(list_user_organization_memberships_query_holds(a, ps));
    assert(ps.len() > 0);
    assert(with_query("/users/"@ + escaped(str_arg(a, "user_id"@)) + "/organization_memberships"@, ps) == "/users/"@ + escaped(str_arg(a, "user_id"@)) + "/organization_memberships"@ + "?"@ + crate::request::query_string(ps));
}


/// The organization, membership, invitation and identifier tools that send a
/// body: each goes ahead only when its required arguments are given, and
/// sends the method and path they name with a body that holds each required
/// argument and each optional setting exactly when given, with the value
/// given.
pub proof fn lemma_body_tools_requests(a: Seq<ArgEntryV>)
    ensures
        create_organization_plan(a) is Ok ==> str_arg(a, "name"@).len() > 0 && str_arg(a, "created_by"@).len() > 0,
        create_organization_plan(a) matches Ok(q) ==> q.method == Method::Post && q.path == "/organizations"@ && (q.body matches Some(
            FieldV::Object(m),
        ) && {
            &&& copies_text(m, a, "name"@)
            &&& copies_text(m, a, "created_by"@)
            &&& copies_text(m, a, "slug"@)
            &&& copies_int(m, a, "max_allowed_memberships"@)
        }),
        update_organization_plan(a) is Ok ==> str_arg(a, "organization_id"@).len() > 0,
        update_organization_plan(a) matches Ok(q) ==> q.method == Method::Patch && q.path == "/organizations/"@ + escaped(
            str_arg(a, "organization_id"@),
        ) && (q.body matches Some(FieldV::Object(m)) && {
            &&& copies_text(m, a, "name"@)
            &&& copies_text(m, a, "slug"@)
            &&& copies_int(m, a, "max_allowed_memberships"@)
            &&& copies_flag(m, a, "admin_delete_enabled"@)
        }),
        create_organization_membership_plan(a) is Ok <==> str_arg(a, "organization_id"@).len() > 0 && str_arg(a, "user_id"@).len() > 0 && str_arg(a, "role"@).len() > 0,
        create_organization_membership_plan(a) matches Ok(q) ==> q.method == Method::Post && q.path == "/organizations/"@
            + escaped(str_arg(a, "organization_id"@)) + "/memberships"@ && q.body == Some(
            FieldV::Object(
                Map::<Seq<char>, FieldV>::empty().insert("user_id"@, FieldV::Str(str_arg(a, "user_id"@))).insert("role"@, FieldV::Str(str_arg(a, "role"@))),
            ),
        ),
        update_organization_membership_plan(a) is Ok <==> str_arg(a, "organization_id"@).len() > 0 && str_arg(a, "user_id"@).len() > 0 && str_arg(a, "role"@).len() > 0,
        update_organization_membership_plan(a) matches Ok(q) ==> q.method == Method::Patch && q.path == "/organizations/"@
            + escaped(str_arg(a, "organization_id"@)) + "/memberships/"@ + escaped(str_arg(a, "user_id"@)) && q.body == Some(
            FieldV::Object(Map::<Seq<char>, FieldV>::empty().insert("role"@, FieldV::Str(str_arg(a, "role"@)))),
        ),
        delete_organization_membership_plan(a) is Ok <==> str_arg(a, "organization_id"@).len() > 0 && str_arg(a, "user_id"@).len() > 0,
        delete_organization_membership_plan(a) matches Ok(q) ==> q.method == Method::Delete && q.path == "/organizations/"@
            + escaped(str_arg(a, "organization_id"@)) + "/memberships/"@ + escaped(str_arg(a, "user_id"@)) && q.body is None,
        create_organization_invitation_plan(a) is Ok ==> str_arg(a, "organization_id"@).len() > 0 && str_arg(a, "email_address"@).len() > 0 && str_arg(a, "role"@).len() > 0,
        create_organization_invitation_plan(a) matches Ok(q) ==> q.method == Method::Post && q.path == "/organizations/"@
            + escaped(str_arg(a, "organization_id"@)) + "/invitations"@ && (q.body matches Some(FieldV::Object(m)) && {
            &&& copies_text(m, a, "email_address"@)
            &&& copies_text(m, a, "role"@)
            &&& copies_text(m, a, "inviter_user_id"@)
            &&& copies_text(m, a, "redirect_url"@)
        }),
        create_invitation_plan(a) is Ok ==> str_arg(a, "email_address"@).len() > 0,
        create_invitation_plan(a) matches Ok(q) ==> q.method == Method::Post && q.path == "/invitations"@ && (q.body matches Some(
            FieldV::Object(m),
        ) && {
            &&& copies_text(m, a, "email_address"@)
            &&& copies_text(m, a, "redirect_url"@)
            &&& copies_text(m, a, "template_slug"@)
            &&& copies_flag(m, a, "notify"@)
            &&& copies_flag(m, a, "ignore_existing"@)
            &&& copies_int(m, a, "expires_in_days"@)
        }),
        create_allowlist_identifier_plan(a) is Ok <==> str_arg(a, "identifier"@).len() > 0,
        create_allowlist_identifier_plan(a) matches Ok(q) ==> q.method == Method::Post && q.path == "/allowlist_identifiers"@
            && (q.body matches Some(FieldV::Object(m)) && m.dom() <= set!["identifier"@, "notify"@] && copies_text(m, a, "identifier"@)
            && copies_flag(m, a, "notify"@)),
        create_blocklist_identifier_plan(a) is Ok <==> str_arg(a, "identifier"@).len() > 0,
        create_blocklist_identifier_plan(a) matches Ok(q) ==> q.method == Method::Post && q.path == "/blocklist_identifiers"@
            && q.body == Some(FieldV::Object(Map::<Seq<char>, FieldV>::empty().insert("identifier"@, FieldV::Str(str_arg(a, "identifier"@))))),
        get_organization_plan(a) is Ok <==> str_arg(a, "organization_id"@).len() > 0,
{
    reveal_strlit("name");
    assert("name"@.len() == 4);
    assert("name"@[0] == 'n');
    reveal_strlit("created_by");
    assert("created_by"@.len() == 10);
    assert("created_by"@[0] == 'c');
    reveal_strlit("slug");
    assert("slug"@.len() == 4);
    assert("slug"@[0] == 's');
    reveal_strlit("max_allowed_memberships");
    assert("max_allowed_memberships"@.len() == 23);
    reveal_strlit("admin_delete_enabled");
    assert("admin_delete_enabled"@.len() == 20);
    reveal_strlit("public_metadata");
    assert("public_metadata"@.len() == 15);
    assert("public_metadata"@[0] == 'p');
    reveal_strlit("private_metadata");
    assert("private_metadata"@.len() == 16);
    reveal_strlit("user_id");
    assert("user_id"@.len() == 7);
    reveal_strlit("role");
    assert("role"@.len() == 4);
    assert("role"@[0] == 'r');
    reveal_strlit("email_address");
    assert("email_address"@.len() == 13);
    assert("email_address"@[0] == 'e');
    reveal_strlit("inviter_user_id");
    assert("inviter_user_id"@.len() == 15);
    assert("inviter_user_id"@[0] == 'i');
    assert("inviter_user_id"@[1] == 'n');
    reveal_strlit("redirect_url");
    assert("redirect_url"@.len() == 12);
    reveal_strlit("template_slug");
    assert("template_slug"@.len() == 13);
    assert("template_slug"@[0] == 't');
    reveal_strlit("notify");
    assert("notify"@.len() == 6);
    reveal_strlit("ignore_existing");
    assert("ignore_existing"@.len() == 15);
    assert("ignore_existing"@[0] == 'i');
    assert("ignore_existing"@[1] == 'g');
    reveal_strlit("expires_in_days");
    assert("expires_in_days"@.len() == 15);
    assert("expires_in_days"@[0] == 'e');
    reveal_strlit("identifier");
    assert("identifier"@.len() == 10);
    assert("identifier"@[0] == 'i');
    reveal_strlit("");
    assert(""@.len() == 0);
    let p = "/organizations/"@ + escaped(str_arg(a, "organization_id"@)) + "/memberships/"@ + escaped(str_arg(a, "user_id"@));
    assert(p + ""@ =~= p);
    let ok = org_metadata_keys();
    assert(ok[0] == "public_metadata"@ && ok[1] == "private_metadata"@);
    if create_organization_plan(a) is Ok {
        let m0 = Map::empty().insert("name"@, FieldV::Str(str_arg(a, "name"@))).insert("created_by"@, FieldV::Str(str_arg(a, "created_by"@)));
        let m1 = put_opt(m0, "slug"@, str_field(a, "slug"@));
        let m2 = put_opt(m1, "max_allowed_memberships"@, int_field(a, "max_allowed_memberships"@));
        lemma_put_jsons_other(m2, a, ok, "name"@);
        lemma_put_jsons_other(m2, a, ok, "created_by"@);
        lemma_put_jsons_other(m2, a, ok, "slug"@);
        lemma_put_jsons_other(m2, a, ok, "max_allowed_memberships"@);
    }
    if update_organization_plan(a) is Ok {
        let m0 = put_opt(Map::empty(), "name"@, str_field(a, "name"@));
        let m1 = put_opt(m0, "slug"@, str_field(a, "slug"@));
        let m2 = put_opt(m1, "max_allowed_memberships"@, int_field(a, "max_allowed_memberships"@));
        let m3 = put_opt(m2, "admin_delete_enabled"@, bool_field(a, "admin_delete_enabled"@));
        lemma_put_jsons_other(m3, a, ok, "name"@);
        lemma_put_jsons_other(m3, a, ok, "slug"@);
        lemma_put_jsons_other(m3, a, ok, "max_allowed_memberships"@);
        lemma_put_jsons_other(m3, a, ok, "admin_delete_enabled"@);
    }
    if create_organization_invitation_plan(a) is Ok {
        let m0 = Map::empty().insert("email_address"@, FieldV::Str(str_arg(a, "email_address"@))).insert("role"@, FieldV::Str(str_arg(a, "role"@)));
        let m1 = put_opt(m0, "inviter_user_id"@, str_field(a, "inviter_user_id"@));
        let m2 = put_opt(m1, "redirect_url"@, str_field(a, "redirect_url"@));
        lemma_put_jsons_other(m2, a, ok, "email_address"@);
        lemma_put_jsons_other(m2, a, ok, "role"@);
        lemma_put_jsons_other(m2, a, ok, "inviter_user_id"@);
        lemma_put_jsons_other(m2, a, ok, "redirect_url"@);
    }
}

} // verus!
