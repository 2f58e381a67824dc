//! The Bland.ai tools: each turns its arguments into the API request it
//! makes, or into the error it reports without making one.
use vstd::prelude::*;

use crate::args::{
    arg_raw, arg_str, bool_arg, int_arg, raw_arg, required, required_arg, str_arg, Args, ArgEntryV,
    RawV, RawValue,
};
use crate::json::{read_json, serde_json_read, JsonKind};
use crate::request::{
    add_bool_param, add_int_param, add_str_param, append_query, bare, bool_param, clamped_pair,
    clamped_param, fields_view, id_plan, id_request, int_param, keys_view, pairs_view, put,
    copies_flag, copies_int, copies_text, put_opt, request, request_with, path_around, path_with, str_param, with_body, with_query, ApiRequest, Field, FieldV,
    Method, RequestV, plan_view,
};
use crate::encoding::escaped;
use crate::text::{bool_text, int_decimal, owned, push_str};

verus! {

// ── Helpers ────────────────────────────────────────────────────────────────

/// A JSON argument: a non-empty string is read as JSON text; any other value
/// but null is taken as it is. A null or empty argument counts as not given.
pub open spec fn json_field(a: Seq<ArgEntryV>, k: Seq<char>) -> Result<Option<FieldV>, Seq<char>> {
    match raw_arg(a, k) {
        Some(RawV::Str(s)) => if s.len() > 0 {
            match serde_json_read(s) {
                Ok((_, t)) => Ok(Some(FieldV::Json(t))),
                Err(e) => Err(k + " must be valid JSON: "@ + e),
            }
        } else {
            Ok(None)
        },
        Some(RawV::Json(_, t)) => Ok(Some(FieldV::Json(t))),
        _ => Ok(None),
    }
}

/// `m` with `k` set from its JSON argument.
pub open spec fn put_json(m: Map<Seq<char>, FieldV>, a: Seq<ArgEntryV>, k: Seq<char>) -> Result<Map<Seq<char>, FieldV>, Seq<char>> {
    match json_field(a, k) {
        Err(e) => Err(e),
        Ok(v) => Ok(put_opt(m, k, v)),
    }
}

/// `m` with each key of `ks` set from its JSON argument, stopping at the
/// first that is not valid JSON.
pub open spec fn put_jsons(m: Map<Seq<char>, FieldV>, a: Seq<ArgEntryV>, ks: Seq<Seq<char>>) -> Result<Map<Seq<char>, FieldV>, Seq<char>>
    decreases ks.len(),
{
    if ks.len() == 0 {
        Ok(m)
    } else {
        match put_jsons(m, a, ks.drop_last()) {
            Err(e) => Err(e),
            Ok(m2) => put_json(m2, a, ks.last()),
        }
    }
}

/// `insert_json_body`: returns whether `key` was set.
fn insert_json_body(args: &Args, body: &mut Vec<(String, Field)>, key: &str) -> (r: Result<bool, String>)
    ensures
        match (r, json_field(args.view(), key@)) {
            (Ok(set), Ok(v)) => fields_view(final(body)@) == put_opt(fields_view(old(body)@), key@, v)
                && set == v is Some,
            (Err(e), Err(msg)) => e@ == msg,
            _ => false,
        },
{
    match arg_raw(args, key) {
        Some(RawValue::Str(s)) => {
            if !s.as_str().is_empty() {
                match read_json(s.as_str()) {
                    Ok(j) => {
                        put(body, key, Field::Json(j.text));
                        Ok(true)
                    },
                    Err(e) => {
                        let mut m = owned(key);
                        push_str(&mut m, " must be valid JSON: ");
                        push_str(&mut m, e.as_str());
                        Err(m)
                    },
                }
            } else {
                Ok(false)
            }
        },
        Some(RawValue::Json(_, t)) => {
            put(body, key, Field::Json(t.clone()));
            Ok(true)
        },
        _ => Ok(false),
    }
}

/// `insert_json_body` for each key, in order.
fn insert_json_bodies(args: &Args, body: &mut Vec<(String, Field)>, keys: &[&str]) -> (r: Result<(), String>)
    ensures
        match (r, put_jsons(fields_view(old(body)@), args.view(), keys_view(keys@))) {
            (Ok(_), Ok(m)) => fields_view(final(body)@) == m,
            (Err(e), Err(msg)) => e@ == msg,
            _ => false,
        },
{
    let ghost start = fields_view(body@);
    let ghost ks = keys_view(keys@);
    let mut i: usize = 0;
    while i < keys.len()
        invariant
            0 <= i <= keys@.len(),
            ks == keys_view(keys@),
            start == fields_view(old(body)@),
            put_jsons(start, args.view(), ks.take(i as int)) == Ok::<Map<Seq<char>, FieldV>, Seq<char>>(
                fields_view(body@),
            ),
        decreases keys@.len() - i,
    {
        assert(ks.take(i + 1).drop_last() == ks.take(i as int));
        assert(ks.take(i + 1).last() == keys@[i as int]@);
        let ghost before = fields_view(body@);
        match insert_json_body(args, body, keys[i]) {
            Ok(_) => {},
            Err(e) => {
                proof {
                    assert(put_jsons(start, args.view(), ks.take(i + 1)) == put_json(before, args.view(), ks[i as int]));
                    assert(put_jsons(start, args.view(), ks.take(i + 1)) == Err::<Map<Seq<char>, FieldV>, Seq<char>>(e@));
                    lemma_put_jsons_stops(start, args.view(), ks, i as int);
                    assert(put_jsons(start, args.view(), ks) == Err::<Map<Seq<char>, FieldV>, Seq<char>>(e@));
                }
                return Err(e);
            },
        }
        i = i + 1;
    }
    assert(ks.take(keys@.len() as int) == ks);
    Ok(())
}

proof fn lemma_put_jsons_stops(m: Map<Seq<char>, FieldV>, a: Seq<ArgEntryV>, ks: Seq<Seq<char>>, i: int)
    requires
        0 <= i < ks.len(),
        put_jsons(m, a, ks.take(i + 1)) is Err,
    ensures
        put_jsons(m, a, ks) == put_jsons(m, a, ks.take(i + 1)),
    decreases ks.len() - i,
{
    if i + 1 < ks.len() {
        assert(ks.drop_last().take(i + 1) == ks.take(i + 1));
        lemma_put_jsons_stops(m, a, ks.drop_last(), i);
    } else {
        assert(ks.take(i + 1) == ks);
    }
}

/// `m` with `k` set from its number argument, or the error when the
/// argument is text that is not a number.
pub open spec fn put_number(m: Map<Seq<char>, FieldV>, a: Seq<ArgEntryV>, k: Seq<char>) -> Result<Map<Seq<char>, FieldV>, Seq<char>> {
    match crate::args::number_arg(a, k) {
        Some(Ok(t)) => Ok(m.insert(k, FieldV::Json(t))),
        Some(Err(e)) => Err(k + " must be a number: "@ + e),
        None => Ok(m),
    }
}

/// `insert_f64_body`.
fn insert_number_body(args: &Args, body: &mut Vec<(String, Field)>, key: &str) -> (r: Result<(), String>)
    ensures
        match (r, put_number(fields_view(old(body)@), args.view(), key@)) {
            (Ok(_), Ok(m)) => fields_view(final(body)@) == m,
            (Err(e), Err(msg)) => e@ == msg,
            _ => false,
        },
{
    match crate::args::arg_number(args, key) {
        Some(Ok(t)) => {
            put(body, key, Field::Json(t));
            Ok(())
        },
        Some(Err(e)) => {
            let mut m = owned(key);
            push_str(&mut m, " must be a number: ");
            push_str(&mut m, e.as_str());
            Err(m)
        },
        None => Ok(()),
    }
}

// ── Calls ──────────────────────────────────────────────────────────────────

pub open spec fn list_calls_params(a: Seq<ArgEntryV>) -> Seq<(Seq<char>, Seq<char>)> {
    seq![clamped_param(a, "limit"@, 20, 1, 100)]
        + int_param(a, "from"@, "from"@)
        + int_param(a, "to"@, "to"@)
        + bool_param(a, "ascending"@, "ascending"@)
        + str_param(a, "sort_by"@, "sort_by"@)
        + str_param(a, "start_date"@, "start_date"@)
        + str_param(a, "end_date"@, "end_date"@)
        + str_param(a, "batch_id"@, "batch_id"@)
        + str_param(a, "answered_by"@, "answered_by"@)
        + bool_param(a, "inbound"@, "inbound"@)
        + bool_param(a, "completed"@, "completed"@)
        + str_param(a, "from_number"@, "from_number"@)
        + str_param(a, "to_number"@, "to_number"@)
        + int_param(a, "duration_gt"@, "duration_gt"@)
        + int_param(a, "duration_lt"@, "duration_lt"@)
}

/// `GET /calls`, with the limit (default 20, kept within 1..=100) and the
/// filters that are given.
pub open spec fn list_calls_plan(a: Seq<ArgEntryV>) -> Result<RequestV, Seq<char>> {
    Ok::<RequestV, Seq<char>>(bare(Method::Get, with_query("/calls"@, list_calls_params(a))))
}

pub fn list_calls(args: &Args) -> (r: Result<ApiRequest, String>)
    ensures
        plan_view(r) == list_calls_plan(args.view()),
{
    let mut params: Vec<(String, String)> = Vec::new();
    params.push(clamped_pair(args, "limit", 20, 1, 100));
    add_int_param(args, &mut params, "from", "from");
    add_int_param(args, &mut params, "to", "to");
    add_bool_param(args, &mut params, "ascending", "ascending");
    add_str_param(args, &mut params, "sort_by", "sort_by");
    add_str_param(args, &mut params, "start_date", "start_date");
    add_str_param(args, &mut params, "end_date", "end_date");
    add_str_param(args, &mut params, "batch_id", "batch_id");
    add_str_param(args, &mut params, "answered_by", "answered_by");
    add_bool_param(args, &mut params, "inbound", "inbound");
    add_bool_param(args, &mut params, "completed", "completed");
    add_str_param(args, &mut params, "from_number", "from_number");
    add_str_param(args, &mut params, "to_number", "to_number");
    add_int_param(args, &mut params, "duration_gt", "duration_gt");
    add_int_param(args, &mut params, "duration_lt", "duration_lt");
    assert(pairs_view(params@) =~= list_calls_params(args.view()));
    Ok(request(Method::Get, append_query("/calls", &params)))
}


/// `GET /calls/active`.
pub open spec fn list_active_calls_plan(a: Seq<ArgEntryV>) -> Result<RequestV, Seq<char>> {
    Ok::<RequestV, Seq<char>>(bare(Method::Get, "/calls/active"@))
}

pub fn list_active_calls(_args: &Args) -> (r: Result<ApiRequest, String>)
    ensures
        plan_view(r) == list_active_calls_plan(_args.view()),
{
    Ok(request(Method::Get, owned("/calls/active")))
}

/// `GET /calls/{call_id}`.
pub open spec fn get_call_plan(a: Seq<ArgEntryV>) -> Result<RequestV, Seq<char>> {
    id_plan(a, "call_id"@, Method::Get, "/calls/"@, ""@)
}

pub fn get_call(args: &Args) -> (r: Result<ApiRequest, String>)
    ensures
        plan_view(r) == get_call_plan(args.view()),
{
    id_request(args, "call_id", Method::Get, "/calls/", "")
}

/// The keys that `send_call` copies from string arguments.
pub open spec fn send_call_str_keys() -> Seq<Seq<char>> {
    seq![
        "voice"@,
        "first_sentence"@,
        "model"@,
        "language"@,
        "from"@,
        "webhook"@,
        "transfer_phone_number"@,
        "timezone"@,
        "background_track"@,
    ]
}

/// The keys that `send_call` copies from integer arguments.
pub open spec fn send_call_int_keys() -> Seq<Seq<char>> {
    seq!["max_duration"@, "interruption_threshold"@]
}

/// The keys that `send_call` copies from boolean arguments.
pub open spec fn send_call_bool_keys() -> Seq<Seq<char>> {
    seq!["wait_for_greeting"@, "record"@]
}

/// The keys that `send_call` reads as JSON.
pub open spec fn send_call_json_keys() -> Seq<Seq<char>> {
    seq!["metadata"@, "dynamic_data"@, "tools"@]
}

/// `send_call`: a phone number and a task or a pathway are required; the
/// other settings are copied when given.
pub open spec fn send_call_plan(a: Seq<ArgEntryV>) -> Result<RequestV, Seq<char>> {
    match required_arg(a, "phone_number"@) {
        Err(e) => Err(e),
        Ok(phone) => if str_arg(a, "task"@).len() == 0 && str_arg(a, "pathway_id"@).len() == 0 {
            Err("task or pathway_id is required"@)
        } else {
            let m = Map::empty().insert("phone_number"@, FieldV::Str(phone));
            let m = put_opt(m, "task"@, crate::request::str_field(a, "task"@));
            let m = put_opt(m, "pathway_id"@, crate::request::str_field(a, "pathway_id"@));
            let m = crate::request::put_strs(m, a, send_call_str_keys());
            let m = crate::request::put_ints(m, a, send_call_int_keys());
            let m = crate::request::put_bools(m, a, send_call_bool_keys());
            match put_number(m, a, "temperature"@) {
                Err(e) => Err(e),
                Ok(m) => match put_jsons(m, a, send_call_json_keys()) {
                    Err(e) => Err(e),
                    Ok(m) => Ok(with_body(Method::Post, "/calls"@, m)),
                },
            }
        },
    }
}

/// `POST /calls`: starts an outbound call.
pub fn send_call(args: &Args) -> (r: Result<ApiRequest, String>)
    ensures
        plan_view(r) == send_call_plan(args.view()),
{
    let phone_number = match required(args, "phone_number") {
        Ok(v) => v,
        Err(e) => return Err(e),
    };
    let task = arg_str(args, "task");
    let pathway_id = arg_str(args, "pathway_id");
    if task.as_str().is_empty() && pathway_id.as_str().is_empty() {
        return Err(owned("task or pathway_id is required"));
    }
    let mut body: Vec<(String, Field)> = Vec::new();
    put(&mut body, "phone_number", Field::Str(phone_number));
    crate::request::put_str_arg(args, &mut body, "task");
    crate::request::put_str_arg(args, &mut body, "pathway_id");
    let str_keys = [
        "voice",
        "first_sentence",
        "model",
        "language",
        "from",
        "webhook",
        "transfer_phone_number",
        "timezone",
        "background_track",
    ];
    assert(keys_view(str_keys@) =~= send_call_str_keys());
    crate::request::put_str_args(args, &mut body, &str_keys);
    let int_keys = ["max_duration", "interruption_threshold"];
    assert(keys_view(int_keys@) =~= send_call_int_keys());
    crate::request::put_int_args(args, &mut body, &int_keys);
    let bool_keys = ["wait_for_greeting", "record"];
    assert(keys_view(bool_keys@) =~= send_call_bool_keys());
    crate::request::put_bool_args(args, &mut body, &bool_keys);
    if let Err(e) = insert_number_body(args, &mut body, "temperature") {
        return Err(e);
    }
    let json_keys = ["metadata", "dynamic_data", "tools"];
    assert(keys_view(json_keys@) =~= send_call_json_keys());
    if let Err(e) = insert_json_bodies(args, &mut body, &json_keys) {
        return Err(e);
    }
    Ok(request_with(Method::Post, owned("/calls"), body))
}

/// `POST /calls/{call_id}/stop` with an empty object.
pub open spec fn stop_call_plan(a: Seq<ArgEntryV>) -> Result<RequestV, Seq<char>> {
    match required_arg(a, "call_id"@) {
        Err(e) => Err(e),
        Ok(id) => Ok(with_body(Method::Post, "/calls/"@ + escaped(id) + "/stop"@, Map::empty())),
    }
}

pub fn stop_call(args: &Args) -> (r: Result<ApiRequest, String>)
    ensures
        plan_view(r) == stop_call_plan(args.view()),
{
    let id = match required(args, "call_id") {
        Ok(v) => v,
        Err(e) => return Err(e),
    };
    Ok(request_with(Method::Post, path_around("/calls/", id.as_str(), "/stop"), Vec::new()))
}

/// The `questions` of `analyze_call`: a non-empty string is read as JSON
/// text, any other value but null is taken as it is; it must be an array.
pub open spec fn questions_field(a: Seq<ArgEntryV>) -> Result<Seq<char>, Seq<char>> {
    match raw_arg(a, "questions"@) {
        Some(RawV::Str(s)) => if s.len() > 0 {
            match serde_json_read(s) {
                Ok((kind, t)) => if kind == JsonKind::Array {
                    Ok(t)
                } else {
                    Err("questions must be a JSON array"@)
                },
                Err(e) => Err("questions must be valid JSON: "@ + e),
            }
        } else {
            Err("questions must be a JSON array"@)
        },
        Some(RawV::Json(kind, t)) => if kind == JsonKind::Array {
            Ok(t)
        } else {
            Err("questions must be a JSON array"@)
        },
        _ => Err("questions is required"@),
    }
}

/// `analyze_call`: the call, the goal and a JSON array of questions are
/// required.
pub open spec fn analyze_call_plan(a: Seq<ArgEntryV>) -> Result<RequestV, Seq<char>> {
    match required_arg(a, "call_id"@) {
        Err(e) => Err(e),
        Ok(id) => match required_arg(a, "goal"@) {
            Err(e) => Err(e),
            Ok(goal) => match questions_field(a) {
                Err(e) => Err(e),
                Ok(q) => Ok(
                    with_body(
                        Method::Post,
                        "/calls/"@ + escaped(id) + "/analyze"@,
                        Map::empty().insert("goal"@, FieldV::Str(goal)).insert(
                            "questions"@,
                            FieldV::Json(q),
                        ),
                    ),
                ),
            },
        },
    }
}

/// `POST /calls/{call_id}/analyze`.
pub fn analyze_call(args: &Args) -> (r: Result<ApiRequest, String>)
    ensures
        plan_view(r) == analyze_call_plan(args.view()),
{
    let id = match required(args, "call_id") {
        Ok(v) => v,
        Err(e) => return Err(e),
    };
    let goal = match required(args, "goal") {
        Ok(v) => v,
        Err(e) => return Err(e),
    };
    let questions: String = match arg_raw(args, "questions") {
        Some(RawValue::Str(s)) => {
            if !s.as_str().is_empty() {
                match read_json(s.as_str()) {
                    Ok(j) => {
                        if j.kind != JsonKind::Array {
                            return Err(owned("questions must be a JSON array"));
                        }
                        j.text
                    },
                    Err(e) => {
                        let mut m = owned("questions must be valid JSON: ");
                        push_str(&mut m, e.as_str());
                        return Err(m);
                    },
                }
            } else {
                return Err(owned("questions must be a JSON array"));
            }
        },
        Some(RawValue::Json(kind, t)) => {
            if *kind != JsonKind::Array {
                return Err(owned("questions must be a JSON array"));
            }
            t.clone()
        },
        _ => return Err(owned("questions is required")),
    };
    let mut body: Vec<(String, Field)> = Vec::new();
    put(&mut body, "goal", Field::Str(goal));
    put(&mut body, "questions", Field::Json(questions));
    Ok(request_with(Method::Post, path_around("/calls/", id.as_str(), "/analyze"), body))
}

// ── Voices, pathways, numbers, knowledge bases ─────────────────────────────

/// `GET /voices`.
pub open spec fn list_voices_plan(a: Seq<ArgEntryV>) -> Result<RequestV, Seq<char>> {
    Ok::<RequestV, Seq<char>>(bare(Method::Get, "/voices"@))
}

pub fn list_voices(_args: &Args) -> (r: Result<ApiRequest, String>)
    ensures
        plan_view(r) == list_voices_plan(_args.view()),
{
    Ok(request(Method::Get, owned("/voices")))
}

/// `GET /voices/{voice_id}`.
pub open spec fn get_voice_plan(a: Seq<ArgEntryV>) -> Result<RequestV, Seq<char>> {
    id_plan(a, "voice_id"@, Method::Get, "/voices/"@, ""@)
}

pub fn get_voice(args: &Args) -> (r: Result<ApiRequest, String>)
    ensures
        plan_view(r) == get_voice_plan(args.view()),
{
    id_request(args, "voice_id", Method::Get, "/voices/", "")
}

/// `GET /pathway`.
pub open spec fn list_pathways_plan(a: Seq<ArgEntryV>) -> Result<RequestV, Seq<char>> {
    Ok::<RequestV, Seq<char>>(bare(Method::Get, "/pathway"@))
}

pub fn list_pathways(_args: &Args) -> (r: Result<ApiRequest, String>)
    ensures
        plan_view(r) == list_pathways_plan(_args.view()),
{
    Ok(request(Method::Get, owned("/pathway")))
}

/// `GET /pathway/{pathway_id}`.
pub open spec fn get_pathway_plan(a: Seq<ArgEntryV>) -> Result<RequestV, Seq<char>> {
    id_plan(a, "pathway_id"@, Method::Get, "/pathway/"@, ""@)
}

pub fn get_pathway(args: &Args) -> (r: Result<ApiRequest, String>)
    ensures
        plan_view(r) == get_pathway_plan(args.view()),
{
    id_request(args, "pathway_id", Method::Get, "/pathway/", "")
}

/// `GET /inbound`, with the `encrypted_key` filter when given.
pub open spec fn list_numbers_plan(a: Seq<ArgEntryV>) -> Result<RequestV, Seq<char>> {
    Ok::<RequestV, Seq<char>>(
            bare(Method::Get, with_query("/inbound"@, str_param(a, "encrypted_key"@, "encrypted_key"@))),
        )
}

pub fn list_numbers(args: &Args) -> (r: Result<ApiRequest, String>)
    ensures
        plan_view(r) == list_numbers_plan(args.view()),
{
    let mut params: Vec<(String, String)> = Vec::new();
    add_str_param(args, &mut params, "encrypted_key", "encrypted_key");
    assert(pairs_view(params@) =~= str_param(args.view(), "encrypted_key"@, "encrypted_key"@));
    Ok(request(Method::Get, append_query("/inbound", &params)))
}

/// `GET /inbound/{phone_number}`.
pub open spec fn get_number_plan(a: Seq<ArgEntryV>) -> Result<RequestV, Seq<char>> {
    id_plan(a, "phone_number"@, Method::Get, "/inbound/"@, ""@)
}

pub fn get_number(args: &Args) -> (r: Result<ApiRequest, String>)
    ensures
        plan_view(r) == get_number_plan(args.view()),
{
    id_request(args, "phone_number", Method::Get, "/inbound/", "")
}

pub open spec fn list_knowledge_bases_params(a: Seq<ArgEntryV>) -> Seq<(Seq<char>, Seq<char>)> {
    seq![
        clamped_param(a, "page"@, 1, 1, i64::MAX as int),
        clamped_param(a, "limit"@, 20, 1, 100),
    ] + str_param(a, "status"@, "status"@)
}

/// `GET /knowledge`, with the page (default 1, at least 1), the limit
/// (default 20, kept within 1..=100) and the status filter when given.
pub open spec fn list_knowledge_bases_plan(a: Seq<ArgEntryV>) -> Result<RequestV, Seq<char>> {
    Ok::<RequestV, Seq<char>>(
            bare(Method::Get, with_query("/knowledge"@, list_knowledge_bases_params(a))),
        )
}

pub fn list_knowledge_bases(args: &Args) -> (r: Result<ApiRequest, String>)
    ensures
        plan_view(r) == list_knowledge_bases_plan(args.view()),
{
    let mut params: Vec<(String, String)> = Vec::new();
    params.push(clamped_pair(args, "page", 1, 1, i64::MAX));
    params.push(clamped_pair(args, "limit", 20, 1, 100));
    add_str_param(args, &mut params, "status", "status");
    assert(pairs_view(params@) =~= list_knowledge_bases_params(args.view()));
    Ok(request(Method::Get, append_query("/knowledge", &params)))
}

/// `GET /knowledge/{knowledge_base_id}`.
pub open spec fn get_knowledge_base_plan(a: Seq<ArgEntryV>) -> Result<RequestV, Seq<char>> {
    id_plan(a, "knowledge_base_id"@, Method::Get, "/knowledge/"@, ""@)
}

pub fn get_knowledge_base(args: &Args) -> (r: Result<ApiRequest, String>)
    ensures
        plan_view(r) == get_knowledge_base_plan(args.view()),
{
    id_request(args, "knowledge_base_id", Method::Get, "/knowledge/", "")
}

/// `GET /me`.
pub open spec fn get_me_plan(a: Seq<ArgEntryV>) -> Result<RequestV, Seq<char>> {
    Ok::<RequestV, Seq<char>>(bare(Method::Get, "/me"@))
}

pub fn get_me(_args: &Args) -> (r: Result<ApiRequest, String>)
    ensures
        plan_view(r) == get_me_plan(_args.view()),
{
    Ok(request(Method::Get, owned("/me")))
}

// ── Organizations ──────────────────────────────────────────────────────────

/// `POST /orgs/create` with the required `name`.
pub open spec fn create_org_plan(a: Seq<ArgEntryV>) -> Result<RequestV, Seq<char>> {
    match required_arg(a, "name"@) {
        Err(e) => Err(e),
        Ok(name) => Ok(with_body(Method::Post, "/orgs/create"@, Map::empty().insert("name"@, FieldV::Str(name)))),
    }
}

pub fn create_org(args: &Args) -> (r: Result<ApiRequest, String>)
    ensures
        plan_view(r) == create_org_plan(args.view()),
{
    let name = match required(args, "name") {
        Ok(v) => v,
        Err(e) => return Err(e),
    };
    let mut body: Vec<(String, Field)> = Vec::new();
    put(&mut body, "name", Field::Str(name));
    Ok(request_with(Method::Post, owned("/orgs/create"), body))
}

/// `GET /orgs/{org_id}`.
pub open spec fn get_org_plan(a: Seq<ArgEntryV>) -> Result<RequestV, Seq<char>> {
    id_plan(a, "org_id"@, Method::Get, "/orgs/"@, ""@)
}

pub fn get_org(args: &Args) -> (r: Result<ApiRequest, String>)
    ensures
        plan_view(r) == get_org_plan(args.view()),
{
    id_request(args, "org_id", Method::Get, "/orgs/", "")
}

/// `DELETE /orgs/{org_id}` with the required slug confirmation.
pub open spec fn delete_org_plan(a: Seq<ArgEntryV>) -> Result<RequestV, Seq<char>> {
    match required_arg(a, "org_id"@) {
        Err(e) => Err(e),
        Ok(id) => match required_arg(a, "delete_confirm"@) {
            Err(e) => Err(e),
            Ok(c) => Ok(
                with_body(
                    Method::Delete,
                    "/orgs/"@ + escaped(id),
                    Map::empty().insert("delete_confirm"@, FieldV::Str(c)),
                ),
            ),
        },
    }
}

pub fn delete_org(args: &Args) -> (r: Result<ApiRequest, String>)
    ensures
        plan_view(r) == delete_org_plan(args.view()),
{
    let org_id = match required(args, "org_id") {
        Ok(v) => v,
        Err(e) => return Err(e),
    };
    let confirm = match required(args, "delete_confirm") {
        Ok(v) => v,
        Err(e) => return Err(e),
    };
    let mut body: Vec<(String, Field)> = Vec::new();
    put(&mut body, "delete_confirm", Field::Str(confirm));
    Ok(request_with(Method::Delete, path_with("/orgs/", org_id.as_str()), body))
}

/// The preferences set by `update_org_properties` from single arguments.
pub open spec fn preference_fields(a: Seq<ArgEntryV>) -> Map<Seq<char>, FieldV> {
    put_opt(
        put_opt(Map::empty(), "use_bland_url"@, crate::request::bool_field(a, "use_bland_url"@)),
        "recording_lifespan_days"@,
        crate::request::int_field(a, "recording_lifespan_days"@),
    )
}

/// `update_org_properties`: the display name, the preferences given one by
/// one, then the `preferences` JSON argument, which replaces them when given;
/// at least one of these is required.
pub open spec fn update_org_properties_plan(a: Seq<ArgEntryV>) -> Result<RequestV, Seq<char>> {
    match required_arg(a, "org_id"@) {
        Err(e) => Err(e),
        Ok(id) => {
            let u = put_opt(Map::empty(), "org_display_name"@, crate::request::str_field(a, "org_display_name"@));
            let p = preference_fields(a);
            let u = if p == Map::<Seq<char>, FieldV>::empty() {
                u
            } else {
                u.insert("preferences"@, FieldV::Object(p))
            };
            match put_json(u, a, "preferences"@) {
                Err(e) => Err(e),
                Ok(u) => if u == Map::<Seq<char>, FieldV>::empty() {
                    Err("at least one update field is required"@)
                } else {
                    Ok(
                        with_body(
                            Method::Patch,
                            "/orgs/"@ + escaped(id) + "/properties"@,
                            Map::empty().insert("updates"@, FieldV::Object(u)),
                        ),
                    )
                },
            }
        },
    }
}

/// `PATCH /orgs/{org_id}/properties`.
pub fn update_org_properties(args: &Args) -> (r: Result<ApiRequest, String>)
    ensures
        plan_view(r) == update_org_properties_plan(args.view()),
{
    let org_id = match required(args, "org_id") {
        Ok(v) => v,
        Err(e) => return Err(e),
    };
    let mut updates: Vec<(String, Field)> = Vec::new();
    crate::request::put_str_arg(args, &mut updates, "org_display_name");
    let mut preferences: Vec<(String, Field)> = Vec::new();
    crate::request::put_bool_arg(args, &mut preferences, "use_bland_url");
    crate::request::put_int_arg(args, &mut preferences, "recording_lifespan_days");
    proof {
        crate::request::lemma_fields_empty(preferences@);
    }
    if preferences.len() != 0 {
        put(&mut updates, "preferences", Field::Object(preferences));
    }
    if let Err(e) = insert_json_body(args, &mut updates, "preferences") {
        return Err(e);
    }
    proof {
        crate::request::lemma_fields_empty(updates@);
    }
    if updates.len() == 0 {
        return Err(owned("at least one update field is required"));
    }
    let mut body: Vec<(String, Field)> = Vec::new();
    put(&mut body, "updates", Field::Object(updates));
    Ok(request_with(Method::Patch, path_around("/orgs/", org_id.as_str(), "/properties"), body))
}

/// `GET /orgs/{org_id}/members`.
pub open spec fn list_org_members_plan(a: Seq<ArgEntryV>) -> Result<RequestV, Seq<char>> {
    id_plan(a, "org_id"@, Method::Get, "/orgs/"@, "/members"@)
}

pub fn list_org_members(args: &Args) -> (r: Result<ApiRequest, String>)
    ensures
        plan_view(r) == list_org_members_plan(args.view()),
{
    id_request(args, "org_id", Method::Get, "/orgs/", "/members")
}

/// The organization, action and target that the member updates require,
/// with the body they start.
pub open spec fn member_update(a: Seq<ArgEntryV>) -> Result<(Seq<char>, Map<Seq<char>, FieldV>), Seq<char>> {
    match required_arg(a, "org_id"@) {
        Err(e) => Err(e),
        Ok(id) => match required_arg(a, "action"@) {
            Err(e) => Err(e),
            Ok(action) => match required_arg(a, "target"@) {
                Err(e) => Err(e),
                Ok(target) => Ok(
                    (
                        id,
                        Map::empty().insert("action"@, FieldV::Str(action)).insert(
                            "target"@,
                            FieldV::Str(target),
                        ),
                    ),
                ),
            },
        },
    }
}

fn start_member_update(args: &Args) -> (r: Result<(String, Vec<(String, Field)>), String>)
    ensures
        match (r, member_update(args.view())) {
            (Ok((id, body)), Ok((sid, m))) => id@ == sid && fields_view(body@) == m,
            (Err(e), Err(msg)) => e@ == msg,
            _ => false,
        },
{
    let org_id = match required(args, "org_id") {
        Ok(v) => v,
        Err(e) => return Err(e),
    };
    let action = match required(args, "action") {
        Ok(v) => v,
        Err(e) => return Err(e),
    };
    let target = match required(args, "target") {
        Ok(v) => v,
        Err(e) => return Err(e),
    };
    let mut body: Vec<(String, Field)> = Vec::new();
    put(&mut body, "action", Field::Str(action));
    put(&mut body, "target", Field::Str(target));
    Ok((org_id, body))
}

/// `update_org_members`: the action and target, the permissions and the
/// invite flag when given.
pub open spec fn update_org_members_plan(a: Seq<ArgEntryV>) -> Result<RequestV, Seq<char>> {
    match member_update(a) {
        Err(e) => Err(e),
        Ok((id, m)) => match put_json(m, a, "permissions"@) {
            Err(e) => Err(e),
            Ok(m) => Ok(
                with_body(
                    Method::Patch,
                    "/orgs/"@ + escaped(id) + "/members"@,
                    put_opt(m, "is_invite"@, crate::request::bool_field(a, "is_invite"@)),
                ),
            ),
        },
    }
}

/// `PATCH /orgs/{org_id}/members`.
pub fn update_org_members(args: &Args) -> (r: Result<ApiRequest, String>)
    ensures
        plan_view(r) == update_org_members_plan(args.view()),
{
    let (org_id, mut body) = match start_member_update(args) {
        Ok(v) => v,
        Err(e) => return Err(e),
    };
    if let Err(e) = insert_json_body(args, &mut body, "permissions") {
        return Err(e);
    }
    crate::request::put_bool_arg(args, &mut body, "is_invite");
    Ok(request_with(Method::Patch, path_around("/orgs/", org_id.as_str(), "/members"), body))
}

/// `update_org_member_permissions`: the action, target and permissions are
/// required.
pub open spec fn update_org_member_permissions_plan(a: Seq<ArgEntryV>) -> Result<RequestV, Seq<char>> {
    match member_update(a) {
        Err(e) => Err(e),
        Ok((id, m)) => match json_field(a, "permissions"@) {
            Err(e) => Err(e),
            Ok(None) => Err("permissions is required"@),
            Ok(Some(p)) => Ok(
                with_body(
                    Method::Patch,
                    "/orgs/"@ + escaped(id) + "/members/permissions"@,
                    m.insert("permissions"@, p),
                ),
            ),
        },
    }
}

/// `PATCH /orgs/{org_id}/members/permissions`.
pub fn update_org_member_permissions(args: &Args) -> (r: Result<ApiRequest, String>)
    ensures
        plan_view(r) == update_org_member_permissions_plan(args.view()),
{
    let (org_id, mut body) = match start_member_update(args) {
        Ok(v) => v,
        Err(e) => return Err(e),
    };
    let set = match insert_json_body(args, &mut body, "permissions") {
        Ok(set) => set,
        Err(e) => return Err(e),
    };
    if !set {
        return Err(owned("permissions is required"));
    }
    Ok(request_with(Method::Patch, path_around("/orgs/", org_id.as_str(), "/members/permissions"), body))
}

/// `GET /orgs/self/memberships`.
pub open spec fn list_my_org_memberships_plan(a: Seq<ArgEntryV>) -> Result<RequestV, Seq<char>> {
    Ok::<RequestV, Seq<char>>(bare(Method::Get, "/orgs/self/memberships"@))
}

pub fn list_my_org_memberships(_args: &Args) -> (r: Result<ApiRequest, String>)
    ensures
        plan_view(r) == list_my_org_memberships_plan(_args.view()),
{
    Ok(request(Method::Get, owned("/orgs/self/memberships")))
}

/// `DELETE /orgs/self/leave` naming the required organization.
pub open spec fn leave_org_plan(a: Seq<ArgEntryV>) -> Result<RequestV, Seq<char>> {
    match required_arg(a, "org_id"@) {
        Err(e) => Err(e),
        Ok(id) => Ok(with_body(Method::Delete, "/orgs/self/leave"@, Map::empty().insert("org_id"@, FieldV::Str(id)))),
    }
}

pub fn leave_org(args: &Args) -> (r: Result<ApiRequest, String>)
    ensures
        plan_view(r) == leave_org_plan(args.view()),
{
    let org_id = match required(args, "org_id") {
        Ok(v) => v,
        Err(e) => return Err(e),
    };
    let mut body: Vec<(String, Field)> = Vec::new();
    put(&mut body, "org_id", Field::Str(org_id));
    Ok(request_with(Method::Delete, owned("/orgs/self/leave"), body))
}

/// `GET /orgs/{org_id}/billing`.
pub open spec fn get_org_billing_plan(a: Seq<ArgEntryV>) -> Result<RequestV, Seq<char>> {
    id_plan(a, "org_id"@, Method::Get, "/orgs/"@, "/billing"@)
}

pub fn get_org_billing(args: &Args) -> (r: Result<ApiRequest, String>)
    ensures
        plan_view(r) == get_org_billing_plan(args.view()),
{
    id_request(args, "org_id", Method::Get, "/orgs/", "/billing")
}

/// `GET /orgs/{org_id}/billing/refill`.
pub open spec fn get_org_billing_refill_plan(a: Seq<ArgEntryV>) -> Result<RequestV, Seq<char>> {
    id_plan(a, "org_id"@, Method::Get, "/orgs/"@, "/billing/refill"@)
}

pub fn get_org_billing_refill(args: &Args) -> (r: Result<ApiRequest, String>)
    ensures
        plan_view(r) == get_org_billing_refill_plan(args.view()),
{
    id_request(args, "org_id", Method::Get, "/orgs/", "/billing/refill")
}

// ── Service versions ───────────────────────────────────────────────────────

/// The service named by the `service` argument; `api_server` when empty.
pub open spec fn service_name(a: Seq<ArgEntryV>) -> Seq<char> {
    if str_arg(a, "service"@).len() == 0 {
        "api_server"@
    } else {
        str_arg(a, "service"@)
    }
}

/// `/orgs/{org_id}/versions/{service}{suffix}`.
pub open spec fn org_service_path_of(a: Seq<ArgEntryV>, suffix: Seq<char>) -> Result<Seq<char>, Seq<char>> {
    match required_arg(a, "org_id"@) {
        Err(e) => Err(e),
        Ok(id) => Ok("/orgs/"@ + escaped(id) + "/versions/"@ + escaped(service_name(a)) + suffix),
    }
}

fn org_service_path(args: &Args, suffix: &str) -> (r: Result<String, String>)
    ensures
        org_service_path_of(args.view(), suffix@) == match r {
            Ok(p) => Ok(p@),
            Err(e) => Err(e@),
        },
{
    let org_id = match required(args, "org_id") {
        Ok(v) => v,
        Err(e) => return Err(e),
    };
    let service = arg_str(args, "service");
    let service = if service.as_str().is_empty() {
        owned("api_server")
    } else {
        service
    };
    let mut p = path_around("/orgs/", org_id.as_str(), "/versions/");
    push_str(&mut p, crate::encoding::encode_component(service.as_str()).as_str());
    push_str(&mut p, suffix);
    Ok(p)
}

/// A request to a service-version path.
pub open spec fn service_plan(a: Seq<ArgEntryV>, method: Method, suffix: Seq<char>) -> Result<RequestV, Seq<char>> {
    match org_service_path_of(a, suffix) {
        Err(e) => Err(e),
        Ok(p) => Ok(bare(method, p)),
    }
}

/// `GET /orgs/{org_id}/versions/{service}/current`.
pub open spec fn get_org_current_version_plan(a: Seq<ArgEntryV>) -> Result<RequestV, Seq<char>> {
    service_plan(a, Method::Get, "/current"@)
}

pub fn get_org_current_version(args: &Args) -> (r: Result<ApiRequest, String>)
    ensures
        plan_view(r) == get_org_current_version_plan(args.view()),
{
    match org_service_path(args, "/current") {
        Ok(p) => Ok(request(Method::Get, p)),
        Err(e) => Err(e),
    }
}

/// `GET /orgs/{org_id}/versions/{service}/list`.
pub open spec fn list_org_versions_plan(a: Seq<ArgEntryV>) -> Result<RequestV, Seq<char>> {
    service_plan(a, Method::Get, "/list"@)
}

pub fn list_org_versions(args: &Args) -> (r: Result<ApiRequest, String>)
    ensures
        plan_view(r) == list_org_versions_plan(args.view()),
{
    match org_service_path(args, "/list") {
        Ok(p) => Ok(request(Method::Get, p)),
        Err(e) => Err(e),
    }
}

/// `update_org_version`: the organization, then the version, are required.
pub open spec fn update_org_version_plan(a: Seq<ArgEntryV>) -> Result<RequestV, Seq<char>> {
    match org_service_path_of(a, ""@) {
        Err(e) => Err(e),
        Ok(p) => match required_arg(a, "version"@) {
            Err(e) => Err(e),
            Ok(v) => Ok(with_body(Method::Patch, p, Map::empty().insert("version"@, FieldV::Str(v)))),
        },
    }
}

/// `PATCH /orgs/{org_id}/versions/{service}`.
pub fn update_org_version(args: &Args) -> (r: Result<ApiRequest, String>)
    ensures
        plan_view(r) == update_org_version_plan(args.view()),
{
    let path = match org_service_path(args, "") {
        Ok(p) => p,
        Err(e) => return Err(e),
    };
    let version = match required(args, "version") {
        Ok(v) => v,
        Err(e) => return Err(e),
    };
    let mut body: Vec<(String, Field)> = Vec::new();
    put(&mut body, "version", Field::Str(version));
    Ok(request_with(Method::Patch, path, body))
}

// ── Audit logs ─────────────────────────────────────────────────────────────

pub open spec fn list_audit_logs_params(a: Seq<ArgEntryV>) -> Seq<(Seq<char>, Seq<char>)> {
    seq![
        clamped_param(a, "page"@, 1, 1, i64::MAX as int),
        clamped_param(a, "page_size"@, 50, 1, 100),
    ] + str_param(a, "event_type"@, "event_type"@) + str_param(a, "actor_id"@, "actor_id"@)
        + str_param(a, "created_after"@, "created_after"@) + str_param(
        a,
        "created_before"@,
        "created_before"@,
    )
}

/// `GET /audit/logs`, with the page (default 1, at least 1), the page size
/// (default 50, kept within 1..=100) and the filters that are given.
pub open spec fn list_audit_logs_plan(a: Seq<ArgEntryV>) -> Result<RequestV, Seq<char>> {
    Ok::<RequestV, Seq<char>>(
            bare(Method::Get, with_query("/audit/logs"@, list_audit_logs_params(a))),
        )
}

pub fn list_audit_logs(args: &Args) -> (r: Result<ApiRequest, String>)
    ensures
        plan_view(r) == list_audit_logs_plan(args.view()),
{
    let mut params: Vec<(String, String)> = Vec::new();
    params.push(clamped_pair(args, "page", 1, 1, i64::MAX));
    params.push(clamped_pair(args, "page_size", 50, 1, 100));
    add_str_param(args, &mut params, "event_type", "event_type");
    add_str_param(args, &mut params, "actor_id", "actor_id");
    add_str_param(args, &mut params, "created_after", "created_after");
    add_str_param(args, &mut params, "created_before", "created_before");
    assert(pairs_view(params@) =~= list_audit_logs_params(args.view()));
    Ok(request(Method::Get, append_query("/audit/logs", &params)))
}


proof fn lemma_put_jsons_other(m: Map<Seq<char>, FieldV>, a: Seq<ArgEntryV>, ks: Seq<Seq<char>>, k: Seq<char>)
    requires
        !ks.contains(k),
    ensures
        put_jsons(m, a, ks) matches Ok(r) ==> (r.contains_key(k) == m.contains_key(k) && (m.contains_key(k) ==> r[k] == m[k])),
    decreases ks.len(),
{
    if ks.len() > 0 {
        let d = ks.drop_last();
        if d.contains(k) {
            let i = choose|i: int| 0 <= i < d.len() && d[i] == k;
            assert(ks[i] == k);
        }
        assert(ks[ks.len() - 1] == ks.last());
        lemma_put_jsons_other(m, a, d, k);
    }
}

/// Starting a call posts to `/calls` a body that holds the phone number; the
/// task and the pathway when given; and each of the call's text settings
/// (voice, first sentence, model, language, from, webhook, transfer number,
/// timezone, background track), integer settings (maximum duration,
/// interruption threshold) and switches (wait for greeting, record) exactly
/// when given, with the value given. A call needs a phone number and a task
/// or a pathway.
pub proof fn lemma_send_call_body(a: Seq<ArgEntryV>)
    ensures
        send_call_plan(a) is Ok ==> str_arg(a, "phone_number"@).len() > 0 && (str_arg(a, "task"@).len() > 0
            || str_arg(a, "pathway_id"@).len() > 0),
        send_call_plan(a) matches Ok(q) ==> q.method == Method::Post && q.path == "/calls"@ && (q.body matches Some(
            FieldV::Object(m),
        ) && {
            &&& m["phone_number"@] == FieldV::Str(str_arg(a, "phone_number"@))
            &&& copies_text(m, a, "task"@)
            &&& copies_text(m, a, "pathway_id"@)
            &&& copies_text(m, a, "voice"@)
            &&& copies_text(m, a, "first_sentence"@)
            &&& copies_text(m, a, "model"@)
            &&& copies_text(m, a, "language"@)
            &&& copies_text(m, a, "from"@)
            &&& copies_text(m, a, "webhook"@)
            &&& copies_text(m, a, "transfer_phone_number"@)
            &&& copies_text(m, a, "timezone"@)
            &&& copies_text(m, a, "background_track"@)
            &&& copies_int(m, a, "max_duration"@)
            &&& copies_int(m, a, "interruption_threshold"@)
            &&& copies_flag(m, a, "wait_for_greeting"@)
            &&& copies_flag(m, a, "record"@)
        }),
{
    reveal_strlit("voice");
    assert("voice"@.len() == 5);
    assert("voice"@[0] == 'v');
    reveal_strlit("first_sentence");
    assert("first_sentence"@.len() == 14);
    reveal_strlit("model");
    assert("model"@.len() == 5);
    assert("model"@[0] == 'm');
    reveal_strlit("language");
    assert("language"@.len() == 8);
    assert("language"@[0] == 'l');
    reveal_strlit("from");
    assert("from"@.len() == 4);
    assert("from"@[0] == 'f');
    reveal_strlit("webhook");
    assert("webhook"@.len() == 7);
    reveal_strlit("transfer_phone_number");
    assert("transfer_phone_number"@.len() == 21);
    reveal_strlit("timezone");
    assert("timezone"@.len() == 8);
    assert("timezone"@[0] == 't');
    reveal_strlit("background_track");
    assert("background_track"@.len() == 16);
    reveal_strlit("max_duration");
    assert("max_duration"@.len() == 12);
    assert("max_duration"@[0] == 'm');
    reveal_strlit("interruption_threshold");
    assert("interruption_threshold"@.len() == 22);
    reveal_strlit("wait_for_greeting");
    assert("wait_for_greeting"@.len() == 17);
    reveal_strlit("record");
    assert("record"@.len() == 6);
    reveal_strlit("metadata");
    assert("metadata"@.len() == 8);
    assert("metadata"@[0] == 'm');
    reveal_strlit("dynamic_data");
    assert("dynamic_data"@.len() == 12);
    assert("dynamic_data"@[0] == 'd');
    reveal_strlit("tools");
    assert("tools"@.len() == 5);
    assert("tools"@[0] == 't');
    reveal_strlit("phone_number");
    assert("phone_number"@.len() == 12);
    assert("phone_number"@[0] == 'p');
    reveal_strlit("task");
    assert("task"@.len() == 4);
    assert("task"@[0] == 't');
    reveal_strlit("pathway_id");
    assert("pathway_id"@.len() == 10);
    reveal_strlit("temperature");
    assert("temperature"@.len() == 11);
    let m0 = Map::empty().insert("phone_number"@, FieldV::Str(str_arg(a, "phone_number"@)));
    let m1 = put_opt(m0, "task"@, crate::request::str_field(a, "task"@));
    let m2 = put_opt(m1, "pathway_id"@, crate::request::str_field(a, "pathway_id"@));
    let m3 = crate::request::put_strs(m2, a, send_call_str_keys());
    let m4 = crate::request::put_ints(m3, a, send_call_int_keys());
    let m5 = crate::request::put_bools(m4, a, send_call_bool_keys());
    if send_call_plan(a) is Ok {
        let m6 = put_number(m5, a, "temperature"@)->Ok_0;
        let m7 = put_jsons(m6, a, send_call_json_keys())->Ok_0;
        assert(send_call_plan(a) == Ok::<RequestV, Seq<char>>(with_body(Method::Post, "/calls"@, m7)));
        crate::request::lemma_put_strs_at(m2, a, send_call_str_keys(), "phone_number"@);
        crate::request::lemma_put_ints_at(m3, a, send_call_int_keys(), "phone_number"@);
        crate::request::lemma_put_bools_at(m4, a, send_call_bool_keys(), "phone_number"@);
        lemma_put_jsons_other(m6, a, send_call_json_keys(), "phone_number"@);
        crate::request::lemma_put_strs_at(m2, a, send_call_str_keys(), "task"@);
        crate::request::lemma_put_ints_at(m3, a, send_call_int_keys(), "task"@);
        crate::request::lemma_put_bools_at(m4, a, send_call_bool_keys(), "task"@);
        lemma_put_jsons_other(m6, a, send_call_json_keys(), "task"@);
        crate::request::lemma_put_strs_at(m2, a, send_call_str_keys(), "pathway_id"@);
        crate::request::lemma_put_ints_at(m3, a, send_call_int_keys(), "pathway_id"@);
        crate::request::lemma_put_bools_at(m4, a, send_call_bool_keys(), "pathway_id"@);
        lemma_put_jsons_other(m6, a, send_call_json_keys(), "pathway_id"@);
        crate::request::lemma_put_strs_at(m2, a, send_call_str_keys(), "voice"@);
        crate::request::lemma_put_ints_at(m3, a, send_call_int_keys(), "voice"@);
        crate::request::lemma_put_bools_at(m4, a, send_call_bool_keys(), "voice"@);
        lemma_put_jsons_other(m6, a, send_call_json_keys(), "voice"@);
        assert(send_call_str_keys()[0] == "voice"@);
        crate::request::lemma_put_strs_at(m2, a, send_call_str_keys(), "first_sentence"@);
        crate::request::lemma_put_ints_at(m3, a, send_call_int_keys(), "first_sentence"@);
        crate::request::lemma_put_bools_at(m4, a, send_call_bool_keys(), "first_sentence"@);
        lemma_put_jsons_other(m6, a, send_call_json_keys(), "first_sentence"@);
        assert(send_call_str_keys()[1] == "first_sentence"@);
        crate::request::lemma_put_strs_at(m2, a, send_call_str_keys(), "model"@);
        crate::request::lemma_put_ints_at(m3, a, send_call_int_keys(), "model"@);
        crate::request::lemma_put_bools_at(m4, a, send_call_bool_keys(), "model"@);
        lemma_put_jsons_other(m6, a, send_call_json_keys(), "model"@);
        assert(send_call_str_keys()[2] == "model"@);
        crate::request::lemma_put_strs_at(m2, a, send_call_str_keys(), "language"@);
        crate::request::lemma_put_ints_at(m3, a, send_call_int_keys(), "language"@);
        crate::request::lemma_put_bools_at(m4, a, send_call_bool_keys(), "language"@);
        lemma_put_jsons_other(m6, a, send_call_json_keys(), "language"@);
        assert(send_call_str_keys()[3] == "language"@);
        crate::request::lemma_put_strs_at(m2, a, send_call_str_keys(), "from"@);
        crate::request::lemma_put_ints_at(m3, a, send_call_int_keys(), "from"@);
        crate::request::lemma_put_bools_at(m4, a, send_call_bool_keys(), "from"@);
        lemma_put_jsons_other(m6, a, send_call_json_keys(), "from"@);
        assert(send_call_str_keys()[4] == "from"@);
        crate::request::lemma_put_strs_at(m2, a, send_call_str_keys(), "webhook"@);
        crate::request::lemma_put_ints_at(m3, a, send_call_int_keys(), "webhook"@);
        crate::request::lemma_put_bools_at(m4, a, send_call_bool_keys(), "webhook"@);
        lemma_put_jsons_other(m6, a, send_call_json_keys(), "webhook"@);
        assert(send_call_str_keys()[5] == "webhook"@);
        crate::request::lemma_put_strs_at(m2, a, send_call_str_keys(), "transfer_phone_number"@);
        crate::request::lemma_put_ints_at(m3, a, send_call_int_keys(), "transfer_phone_number"@);
        crate::request::lemma_put_bools_at(m4, a, send_call_bool_keys(), "transfer_phone_number"@);
        lemma_put_jsons_other(m6, a, send_call_json_keys(), "transfer_phone_number"@);
        assert(send_call_str_keys()[6] == "transfer_phone_number"@);
        crate::request::lemma_put_strs_at(m2, a, send_call_str_keys(), "timezone"@);
        crate::request::lemma_put_ints_at(m3, a, send_call_int_keys(), "timezone"@);
        crate::request::lemma_put_bools_at(m4, a, send_call_bool_keys(), "timezone"@);
        lemma_put_jsons_other(m6, a, send_call_json_keys(), "timezone"@);
        assert(send_call_str_keys()[7] == "timezone"@);
        crate::request::lemma_put_strs_at(m2, a, send_call_str_keys(), "background_track"@);
        crate::request::lemma_put_ints_at(m3, a, send_call_int_keys(), "background_track"@);
        crate::request::lemma_put_bools_at(m4, a, send_call_bool_keys(), "background_track"@);
        lemma_put_jsons_other(m6, a, send_call_json_keys(), "background_track"@);
        assert(send_call_str_keys()[8] == "background_track"@);
        crate::request::lemma_put_strs_at(m2, a, send_call_str_keys(), "max_duration"@);
        crate::request::lemma_put_ints_at(m3, a, send_call_int_keys(), "max_duration"@);
        crate::request::lemma_put_bools_at(m4, a, send_call_bool_keys(), "max_duration"@);
        lemma_put_jsons_other(m6, a, send_call_json_keys(), "max_duration"@);
        assert(send_call_int_keys()[0] == "max_duration"@);
        crate::request::lemma_put_strs_at(m2, a, send_call_str_keys(), "interruption_threshold"@);
        crate::request::lemma_put_ints_at(m3, a, send_call_int_keys(), "interruption_threshold"@);
        crate::request::lemma_put_bools_at(m4, a, send_call_bool_keys(), "interruption_threshold"@);
        lemma_put_jsons_other(m6, a, send_call_json_keys(), "interruption_threshold"@);
        assert(send_call_int_keys()[1] == "interruption_threshold"@);
        crate::request::lemma_put_strs_at(m2, a, send_call_str_keys(), "wait_for_greeting"@);
        crate::request::lemma_put_ints_at(m3, a, send_call_int_keys(), "wait_for_greeting"@);
        crate::request::lemma_put_bools_at(m4, a, send_call_bool_keys(), "wait_for_greeting"@);
        lemma_put_jsons_other(m6, a, send_call_json_keys(), "wait_for_greeting"@);
        assert(send_call_bool_keys()[0] == "wait_for_greeting"@);
        crate::request::lemma_put_strs_at(m2, a, send_call_str_keys(), "record"@);
        crate::request::lemma_put_ints_at(m3, a, send_call_int_keys(), "record"@);
        crate::request::lemma_put_bools_at(m4, a, send_call_bool_keys(), "record"@);
        lemma_put_jsons_other(m6, a, send_call_json_keys(), "record"@);
        assert(send_call_bool_keys()[1] == "record"@);
    }
}


/// The tools that read, delete or act on one resource named by an argument
/// go ahead exactly when that argument is given, and ask for that resource:
/// the method, and the path with the argument escaped into it. The tools
/// that read a fixed resource ask for it with no body.
pub proof fn lemma_resource_tools_requests(a: Seq<ArgEntryV>)
    ensures
        list_active_calls_plan(a) matches Ok(q) && q.method == Method::Get && q.path == "/calls/active"@ && q.body is None,
        get_call_plan(a) is Ok <==> str_arg(a, "call_id"@).len() > 0,
        get_call_plan(a) matches Ok(q) ==> q.method == Method::Get && q.path == "/calls/"@ + escaped(str_arg(a, "call_id"@)) && q.body is None,
        list_voices_plan(a) matches Ok(q) && q.method == Method::Get && q.path == "/voices"@ && q.body is None,
        get_voice_plan(a) is Ok <==> str_arg(a, "voice_id"@).len() > 0,
        get_voice_plan(a) matches Ok(q) ==> q.method == Method::Get && q.path == "/voices/"@ + escaped(str_arg(a, "voice_id"@)) && q.body is None,
        list_pathways_plan(a) matches Ok(q) && q.method == Method::Get && q.path == "/pathway"@ && q.body is None,
        get_pathway_plan(a) is Ok <==> str_arg(a, "pathway_id"@).len() > 0,
        get_pathway_plan(a) matches Ok(q) ==> q.method == Method::Get && q.path == "/pathway/"@ + escaped(str_arg(a, "pathway_id"@)) && q.body is None,
        get_number_plan(a) is Ok <==> str_arg(a, "phone_number"@).len() > 0,
        get_number_plan(a) matches Ok(q) ==> q.method == Method::Get && q.path == "/inbound/"@ + escaped(str_arg(a, "phone_number"@)) && q.body is None,
        get_knowledge_base_plan(a) is Ok <==> str_arg(a, "knowledge_base_id"@).len() > 0,
        get_knowledge_base_plan(a) matches Ok(q) ==> q.method == Method::Get && q.path == "/knowledge/"@ + escaped(str_arg(a, "knowledge_base_id"@)) && q.body is None,
        get_me_plan(a) matches Ok(q) && q.method == Method::Get && q.path == "/me"@ && q.body is None,
        get_org_plan(a) is Ok <==> str_arg(a, "org_id"@).len() > 0,
        get_org_plan(a) matches Ok(q) ==> q.method == Method::Get && q.path == "/orgs/"@ + escaped(str_arg(a, "org_id"@)) && q.body is None,
        list_org_members_plan(a) is Ok <==> str_arg(a, "org_id"@).len() > 0,
        list_org_members_plan(a) matches Ok(q) ==> q.method == Method::Get && q.path == "/orgs/"@ + escaped(str_arg(a, "org_id"@)) + "/members"@ && q.body is None,
        list_my_org_memberships_plan(a) matches Ok(q) && q.method == Method::Get && q.path == "/orgs/self/memberships"@ && q.body is None,
        get_org_billing_plan(a) is Ok <==> str_arg(a, "org_id"@).len() > 0,
        get_org_billing_plan(a) matches Ok(q) ==> q.method == Method::Get && q.path == "/orgs/"@ + escaped(str_arg(a, "org_id"@)) + "/billing"@ && q.body is None,
        get_org_billing_refill_plan(a) is Ok <==> str_arg(a, "org_id"@).len() > 0,
        get_org_billing_refill_plan(a) matches Ok(q) ==> q.method == Method::Get && q.path == "/orgs/"@ + escaped(str_arg(a, "org_id"@)) + "/billing/refill"@ && q.body is None,
{
    reveal_strlit("");
    assert(""@.len() == 0);
    assert(("/calls/"@ + escaped(str_arg(a, "call_id"@)) + ""@) =~= ("/calls/"@ + escaped(str_arg(a, "call_id"@))));
    assert(("/voices/"@ + escaped(str_arg(a, "voice_id"@)) + ""@) =~= ("/voices/"@ + escaped(str_arg(a, "voice_id"@))));
    assert(("/pathway/"@ + escaped(str_arg(a, "pathway_id"@)) + ""@) =~= ("/pathway/"@ + escaped(str_arg(a, "pathway_id"@))));
    assert(("/inbound/"@ + escaped(str_arg(a, "phone_number"@)) + ""@) =~= ("/inbound/"@ + escaped(str_arg(a, "phone_number"@))));
    assert(("/knowledge/"@ + escaped(str_arg(a, "knowledge_base_id"@)) + ""@) =~= ("/knowledge/"@ + escaped(str_arg(a, "knowledge_base_id"@))));
    assert(("/orgs/"@ + escaped(str_arg(a, "org_id"@)) + ""@) =~= ("/orgs/"@ + escaped(str_arg(a, "org_id"@))));
}


/// The tools that act on one call or organization with a small body: each
/// goes ahead exactly when its required arguments are given, and sends the
/// method, path and members those arguments name.
pub proof fn lemma_action_tools_requests(a: Seq<ArgEntryV>)
    ensures
        stop_call_plan(a) is Ok <==> str_arg(a, "call_id"@).len() > 0,
        stop_call_plan(a) matches Ok(q) ==> q.method == Method::Post && q.path == "/calls/"@ + escaped(
            str_arg(a, "call_id"@),
        ) + "/stop"@ && q.body == Some(FieldV::Object(Map::<Seq<char>, FieldV>::empty())),
        analyze_call_plan(a) is Ok ==> str_arg(a, "call_id"@).len() > 0 && str_arg(a, "goal"@).len() > 0,
        analyze_call_plan(a) matches Ok(q) ==> q.method == Method::Post && q.path == "/calls/"@ + escaped(
            str_arg(a, "call_id"@),
        ) + "/analyze"@ && (q.body matches Some(FieldV::Object(m)) && m.dom() == set!["goal"@, "questions"@]
            && m["goal"@] == FieldV::Str(str_arg(a, "goal"@)) && m["questions"@] is Json),
        create_org_plan(a) is Ok <==> str_arg(a, "name"@).len() > 0,
        create_org_plan(a) matches Ok(q) ==> q.method == Method::Post && q.path == "/orgs/create"@ && q.body == Some(
            FieldV::Object(Map::<Seq<char>, FieldV>::empty().insert("name"@, FieldV::Str(str_arg(a, "name"@)))),
        ),
        delete_org_plan(a) is Ok <==> str_arg(a, "org_id"@).len() > 0 && str_arg(a, "delete_confirm"@).len() > 0,
        delete_org_plan(a) matches Ok(q) ==> q.method == Method::Delete && q.path == "/orgs/"@ + escaped(
            str_arg(a, "org_id"@),
        ) && q.body == Some(
            FieldV::Object(
                Map::<Seq<char>, FieldV>::empty().insert("delete_confirm"@, FieldV::Str(str_arg(a, "delete_confirm"@))),
            ),
        ),
        leave_org_plan(a) is Ok <==> str_arg(a, "org_id"@).len() > 0,
        leave_org_plan(a) matches Ok(q) ==> q.method == Method::Delete && q.path == "/orgs/self/leave"@ && q.body
            == Some(FieldV::Object(Map::<Seq<char>, FieldV>::empty().insert("org_id"@, FieldV::Str(str_arg(a, "org_id"@))))),
        get_org_current_version_plan(a) is Ok <==> str_arg(a, "org_id"@).len() > 0,
        get_org_current_version_plan(a) matches Ok(q) ==> q.method == Method::Get && q.path == "/orgs/"@ + escaped(
            str_arg(a, "org_id"@),
        ) + "/versions/"@ + escaped((if str_arg(a, "service"@).len() > 0 { str_arg(a, "service"@) } else { "api_server"@ })) + "/current"@ && q.body is None,
        list_org_versions_plan(a) is Ok <==> str_arg(a, "org_id"@).len() > 0,
        list_org_versions_plan(a) matches Ok(q) ==> q.method == Method::Get && q.path == "/orgs/"@ + escaped(
            str_arg(a, "org_id"@),
        ) + "/versions/"@ + escaped((if str_arg(a, "service"@).len() > 0 { str_arg(a, "service"@) } else { "api_server"@ })) + "/list"@ && q.body is None,
        update_org_version_plan(a) is Ok <==> str_arg(a, "org_id"@).len() > 0 && str_arg(a, "version"@).len() > 0,
        update_org_version_plan(a) matches Ok(q) ==> q.method == Method::Patch && q.path == "/orgs/"@ + escaped(
            str_arg(a, "org_id"@),
        ) + "/versions/"@ + escaped((if str_arg(a, "service"@).len() > 0 { str_arg(a, "service"@) } else { "api_server"@ })) && q.body == Some(
            FieldV::Object(Map::<Seq<char>, FieldV>::empty().insert("version"@, FieldV::Str(str_arg(a, "version"@)))),
        ),
        update_org_member_permissions_plan(a) is Ok ==> str_arg(a, "org_id"@).len() > 0 && str_arg(a, "action"@).len()
            > 0 && str_arg(a, "target"@).len() > 0,
        update_org_member_permissions_plan(a) matches Ok(q) ==> q.method == Method::Patch && q.path == "/orgs/"@
            + escaped(str_arg(a, "org_id"@)) + "/members/permissions"@ && (q.body matches Some(FieldV::Object(m))
            && m.dom() == set!["action"@, "target"@, "permissions"@] && m["action"@] == FieldV::Str(str_arg(a, "action"@))
            && m["target"@] == FieldV::Str(str_arg(a, "target"@))),
        update_org_members_plan(a) is Ok ==> str_arg(a, "org_id"@).len() > 0 && str_arg(a, "action"@).len() > 0
            && str_arg(a, "target"@).len() > 0,
        update_org_members_plan(a) matches Ok(q) ==> q.method == Method::Patch && q.path == "/orgs/"@ + escaped(
            str_arg(a, "org_id"@),
        ) + "/members"@ && (q.body matches Some(FieldV::Object(m)) && m["action"@] == FieldV::Str(str_arg(a, "action"@))
            && m["target"@] == FieldV::Str(str_arg(a, "target"@)) && (bool_arg(a, "is_invite"@) matches Some(b) ==> m["is_invite"@] == FieldV::Bool(b))),
{
    reveal_strlit("goal");
    assert("goal"@.len() == 4);
    reveal_strlit("questions");
    assert("questions"@.len() == 9);
    assert("questions"@[0] == 'q');
    reveal_strlit("action");
    assert("action"@.len() == 6);
    assert("action"@[0] == 'a');
    reveal_strlit("target");
    assert("target"@.len() == 6);
    assert("target"@[0] == 't');
    reveal_strlit("permissions");
    assert("permissions"@.len() == 11);
    reveal_strlit("is_invite");
    assert("is_invite"@.len() == 9);
    assert("is_invite"@[0] == 'i');
    reveal_strlit("api_server");
    assert("api_server"@.len() == 10);
    reveal_strlit("");
    assert(""@.len() == 0);
    assert(("/orgs/"@ + escaped(str_arg(a, "org_id"@)) + "/versions/"@ + escaped(service_name(a)) + ""@) =~= ("/orgs/"@
        + escaped(str_arg(a, "org_id"@)) + "/versions/"@ + escaped(service_name(a))));
}


/// The query pairs of `list_calls`: the limit first (20 by default, kept within 1..=100), then each filter that is given, with the value given.
pub open spec fn list_calls_query_holds(a: Seq<ArgEntryV>, ps: Seq<(Seq<char>, Seq<char>)>) -> bool {
    &&& ps.len() >= 1
    &&& ps[0] == ("limit"@, int_decimal((if (if int_arg(a, "limit"@) is Some { int_arg(a, "limit"@)->0 as int } else { 20 }) < 1 { 1 } else if (if int_arg(a, "limit"@) is Some { int_arg(a, "limit"@)->0 as int } else { 20 }) > 100 { 100 } else { (if int_arg(a, "limit"@) is Some { int_arg(a, "limit"@)->0 as int } else { 20 }) })))
    &&& (int_arg(a, "from"@) is Some ==> ps.contains(("from"@, int_decimal(int_arg(a, "from"@)->0 as int))))
    &&& (int_arg(a, "to"@) is Some ==> ps.contains(("to"@, int_decimal(int_arg(a, "to"@)->0 as int))))
    &&& (bool_arg(a, "ascending"@) is Some ==> ps.contains(("ascending"@, bool_text(bool_arg(a, "ascending"@)->0))))
    &&& (str_arg(a, "sort_by"@).len() > 0 ==> ps.contains(("sort_by"@, str_arg(a, "sort_by"@))))
    &&& (str_arg(a, "start_date"@).len() > 0 ==> ps.contains(("start_date"@, str_arg(a, "start_date"@))))
    &&& (str_arg(a, "end_date"@).len() > 0 ==> ps.contains(("end_date"@, str_arg(a, "end_date"@))))
    &&& (str_arg(a, "batch_id"@).len() > 0 ==> ps.contains(("batch_id"@, str_arg(a, "batch_id"@))))
    &&& (str_arg(a, "answered_by"@).len() > 0 ==> ps.contains(("answered_by"@, str_arg(a, "answered_by"@))))
    &&& (bool_arg(a, "inbound"@) is Some ==> ps.contains(("inbound"@, bool_text(bool_arg(a, "inbound"@)->0))))
    &&& (bool_arg(a, "completed"@) is Some ==> ps.contains(("completed"@, bool_text(bool_arg(a, "completed"@)->0))))
    &&& (str_arg(a, "from_number"@).len() > 0 ==> ps.contains(("from_number"@, str_arg(a, "from_number"@))))
    &&& (str_arg(a, "to_number"@).len() > 0 ==> ps.contains(("to_number"@, str_arg(a, "to_number"@))))
    &&& (int_arg(a, "duration_gt"@) is Some ==> ps.contains(("duration_gt"@, int_decimal(int_arg(a, "duration_gt"@)->0 as int))))
    &&& (int_arg(a, "duration_lt"@) is Some ==> ps.contains(("duration_lt"@, int_decimal(int_arg(a, "duration_lt"@)->0 as int))))
}

proof fn lemma_list_calls_has_from(a: Seq<ArgEntryV>)
    ensures
        int_arg(a, "from"@) is Some ==> (seq![clamped_param(a, "limit"@, 20, 1, 100)] + int_param(a, "from"@, "from"@) + int_param(a, "to"@, "to"@) + bool_param(a, "ascending"@, "ascending"@) + str_param(a, "sort_by"@, "sort_by"@) + str_param(a, "start_date"@, "start_date"@) + str_param(a, "end_date"@, "end_date"@) + str_param(a, "batch_id"@, "batch_id"@) + str_param(a, "answered_by"@, "answered_by"@) + bool_param(a, "inbound"@, "inbound"@) + bool_param(a, "completed"@, "completed"@) + str_param(a, "from_number"@, "from_number"@) + str_param(a, "to_number"@, "to_number"@) + int_param(a, "duration_gt"@, "duration_gt"@) + int_param(a, "duration_lt"@, "duration_lt"@)).contains(("from"@, int_decimal(int_arg(a, "from"@)->0 as int))),
{
    if int_arg(a, "from"@) is Some {
        assert(int_param(a, "from"@, "from"@)[0] == ("from"@, int_decimal(int_arg(a, "from"@)->0 as int)));
        crate::request::lemma_concat_contains(seq![clamped_param(a, "limit"@, 20, 1, 100)], int_param(a, "from"@, "from"@), ("from"@, int_decimal(int_arg(a, "from"@)->0 as int)));
        crate::request::lemma_concat_contains(seq![clamped_param(a, "limit"@, 20, 1, 100)] + int_param(a, "from"@, "from"@), int_param(a, "to"@, "to"@), ("from"@, int_decimal(int_arg(a, "from"@)->0 as int)));
        crate::request::lemma_concat_contains(seq![clamped_param(a, "limit"@, 20, 1, 100)] + int_param(a, "from"@, "from"@) + int_param(a, "to"@, "to"@), bool_param(a, "ascending"@, "ascending"@), ("from"@, int_decimal(int_arg(a, "from"@)->0 as int)));
        crate::request::lemma_concat_contains(seq![clamped_param(a, "limit"@, 20, 1, 100)] + int_param(a, "from"@, "from"@) + int_param(a, "to"@, "to"@) + bool_param(a, "ascending"@, "ascending"@), str_param(a, "sort_by"@, "sort_by"@), ("from"@, int_decimal(int_arg(a, "from"@)->0 as int)));
        crate::request::lemma_concat_contains(seq![clamped_param(a, "limit"@, 20, 1, 100)] + int_param(a, "from"@, "from"@) + int_param(a, "to"@, "to"@) + bool_param(a, "ascending"@, "ascending"@) + str_param(a, "sort_by"@, "sort_by"@), str_param(a, "start_date"@, "start_date"@), ("from"@, int_decimal(int_arg(a, "from"@)->0 as int)));
        crate::request::lemma_concat_contains(seq![clamped_param(a, "limit"@, 20, 1, 100)] + int_param(a, "from"@, "from"@) + int_param(a, "to"@, "to"@) + bool_param(a, "ascending"@, "ascending"@) + str_param(a, "sort_by"@, "sort_by"@) + str_param(a, "start_date"@, "start_date"@), str_param(a, "end_date"@, "end_date"@), ("from"@, int_decimal(int_arg(a, "from"@)->0 as int)));
        crate::request::lemma_concat_contains(seq![clamped_param(a, "limit"@, 20, 1, 100)] + int_param(a, "from"@, "from"@) + int_param(a, "to"@, "to"@) + bool_param(a, "ascending"@, "ascending"@) + str_param(a, "sort_by"@, "sort_by"@) + str_param(a, "start_date"@, "start_date"@) + str_param(a, "end_date"@, "end_date"@), str_param(a, "batch_id"@, "batch_id"@), ("from"@, int_decimal(int_arg(a, "from"@)->0 as int)));
        crate::request::lemma_concat_contains(seq![clamped_param(a, "limit"@, 20, 1, 100)] + int_param(a, "from"@, "from"@) + int_param(a, "to"@, "to"@) + bool_param(a, "ascending"@, "ascending"@) + str_param(a, "sort_by"@, "sort_by"@) + str_param(a, "start_date"@, "start_date"@) + str_param(a, "end_date"@, "end_date"@) + str_param(a, "batch_id"@, "batch_id"@), str_param(a, "answered_by"@, "answered_by"@), ("from"@, int_decimal(int_arg(a, "from"@)->0 as int)));
        crate::request::lemma_concat_contains(seq![clamped_param(a, "limit"@, 20, 1, 100)] + int_param(a, "from"@, "from"@) + int_param(a, "to"@, "to"@) + bool_param(a, "ascending"@, "ascending"@) + str_param(a, "sort_by"@, "sort_by"@) + str_param(a, "start_date"@, "start_date"@) + str_param(a, "end_date"@, "end_date"@) + str_param(a, "batch_id"@, "batch_id"@) + str_param(a, "answered_by"@, "answered_by"@), bool_param(a, "inbound"@, "inbound"@), ("from"@, int_decimal(int_arg(a, "from"@)->0 as int)));
        crate::request::lemma_concat_contains(seq![clamped_param(a, "limit"@, 20, 1, 100)] + int_param(a, "from"@, "from"@) + int_param(a, "to"@, "to"@) + bool_param(a, "ascending"@, "ascending"@) + str_param(a, "sort_by"@, "sort_by"@) + str_param(a, "start_date"@, "start_date"@) + str_param(a, "end_date"@, "end_date"@) + str_param(a, "batch_id"@, "batch_id"@) + str_param(a, "answered_by"@, "answered_by"@) + bool_param(a, "inbound"@, "inbound"@), bool_param(a, "completed"@, "completed"@), ("from"@, int_decimal(int_arg(a, "from"@)->0 as int)));
        crate::request::lemma_concat_contains(seq![clamped_param(a, "limit"@, 20, 1, 100)] + int_param(a, "from"@, "from"@) + int_param(a, "to"@, "to"@) + bool_param(a, "ascending"@, "ascending"@) + str_param(a, "sort_by"@, "sort_by"@) + str_param(a, "start_date"@, "start_date"@) + str_param(a, "end_date"@, "end_date"@) + str_param(a, "batch_id"@, "batch_id"@) + str_param(a, "answered_by"@, "answered_by"@) + bool_param(a, "inbound"@, "inbound"@) + bool_param(a, "completed"@, "completed"@), str_param(a, "from_number"@, "from_number"@), ("from"@, int_decimal(int_arg(a, "from"@)->0 as int)));
        crate::request::lemma_concat_contains(seq![clamped_param(a, "limit"@, 20, 1, 100)] + int_param(a, "from"@, "from"@) + int_param(a, "to"@, "to"@) + bool_param(a, "ascending"@, "ascending"@) + str_param(a, "sort_by"@, "sort_by"@) + str_param(a, "start_date"@, "start_date"@) + str_param(a, "end_date"@, "end_date"@) + str_param(a, "batch_id"@, "batch_id"@) + str_param(a, "answered_by"@, "answered_by"@) + bool_param(a, "inbound"@, "inbound"@) + bool_param(a, "completed"@, "completed"@) + str_param(a, "from_number"@, "from_number"@), str_param(a, "to_number"@, "to_number"@), ("from"@, int_decimal(int_arg(a, "from"@)->0 as int)));
        crate::request::lemma_concat_contains(seq![clamped_param(a, "limit"@, 20, 1, 100)] + int_param(a, "from"@, "from"@) + int_param(a, "to"@, "to"@) + bool_param(a, "ascending"@, "ascending"@) + str_param(a, "sort_by"@, "sort_by"@) + str_param(a, "start_date"@, "start_date"@) + str_param(a, "end_date"@, "end_date"@) + str_param(a, "batch_id"@, "batch_id"@) + str_param(a, "answered_by"@, "answered_by"@) + bool_param(a, "inbound"@, "inbound"@) + bool_param(a, "completed"@, "completed"@) + str_param(a, "from_number"@, "from_number"@) + str_param(a, "to_number"@, "to_number"@), int_param(a, "duration_gt"@, "duration_gt"@), ("from"@, int_decimal(int_arg(a, "from"@)->0 as int)));
        crate::request::lemma_concat_contains(seq![clamped_param(a, "limit"@, 20, 1, 100)] + int_param(a, "from"@, "from"@) + int_param(a, "to"@, "to"@) + bool_param(a, "ascending"@, "ascending"@) + str_param(a, "sort_by"@, "sort_by"@) + str_param(a, "start_date"@, "start_date"@) + str_param(a, "end_date"@, "end_date"@) + str_param(a, "batch_id"@, "batch_id"@) + str_param(a, "answered_by"@, "answered_by"@) + bool_param(a, "inbound"@, "inbound"@) + bool_param(a, "completed"@, "completed"@) + str_param(a, "from_number"@, "from_number"@) + str_param(a, "to_number"@, "to_number"@) + int_param(a, "duration_gt"@, "duration_gt"@), int_param(a, "duration_lt"@, "duration_lt"@), ("from"@, int_decimal(int_arg(a, "from"@)->0 as int)));
    }
}

proof fn lemma_list_calls_has_to(a: Seq<ArgEntryV>)
    ensures
        int_arg(a, "to"@) is Some ==> (seq![clamped_param(a, "limit"@, 20, 1, 100)] + int_param(a, "from"@, "from"@) + int_param(a, "to"@, "to"@) + bool_param(a, "ascending"@, "ascending"@) + str_param(a, "sort_by"@, "sort_by"@) + str_param(a, "start_date"@, "start_date"@) + str_param(a, "end_date"@, "end_date"@) + str_param(a, "batch_id"@, "batch_id"@) + str_param(a, "answered_by"@, "answered_by"@) + bool_param(a, "inbound"@, "inbound"@) + bool_param(a, "completed"@, "completed"@) + str_param(a, "from_number"@, "from_number"@) + str_param(a, "to_number"@, "to_number"@) + int_param(a, "duration_gt"@, "duration_gt"@) + int_param(a, "duration_lt"@, "duration_lt"@)).contains(("to"@, int_decimal(int_arg(a, "to"@)->0 as int))),
{
    if int_arg(a, "to"@) is Some {
        assert(int_param(a, "to"@, "to"@)[0] == ("to"@, int_decimal(int_arg(a, "to"@)->0 as int)));
        crate::request::lemma_concat_contains(seq![clamped_param(a, "limit"@, 20, 1, 100)] + int_param(a, "from"@, "from"@), int_param(a, "to"@, "to"@), ("to"@, int_decimal(int_arg(a, "to"@)->0 as int)));
        crate::request::lemma_concat_contains(seq![clamped_param(a, "limit"@, 20, 1, 100)] + int_param(a, "from"@, "from"@) + int_param(a, "to"@, "to"@), bool_param(a, "ascending"@, "ascending"@), ("to"@, int_decimal(int_arg(a, "to"@)->0 as int)));
        crate::request::lemma_concat_contains(seq![clamped_param(a, "limit"@, 20, 1, 100)] + int_param(a, "from"@, "from"@) + int_param(a, "to"@, "to"@) + bool_param(a, "ascending"@, "ascending"@), str_param(a, "sort_by"@, "sort_by"@), ("to"@, int_decimal(int_arg(a, "to"@)->0 as int)));
        crate::request::lemma_concat_contains(seq![clamped_param(a, "limit"@, 20, 1, 100)] + int_param(a, "from"@, "from"@) + int_param(a, "to"@, "to"@) + bool_param(a, "ascending"@, "ascending"@) + str_param(a, "sort_by"@, "sort_by"@), str_param(a, "start_date"@, "start_date"@), ("to"@, int_decimal(int_arg(a, "to"@)->0 as int)));
        crate::request::lemma_concat_contains(seq![clamped_param(a, "limit"@, 20, 1, 100)] + int_param(a, "from"@, "from"@) + int_param(a, "to"@, "to"@) + bool_param(a, "ascending"@, "ascending"@) + str_param(a, "sort_by"@, "sort_by"@) + str_param(a, "start_date"@, "start_date"@), str_param(a, "end_date"@, "end_date"@), ("to"@, int_decimal(int_arg(a, "to"@)->0 as int)));
        crate::request::lemma_concat_contains(seq![clamped_param(a, "limit"@, 20, 1, 100)] + int_param(a, "from"@, "from"@) + int_param(a, "to"@, "to"@) + bool_param(a, "ascending"@, "ascending"@) + str_param(a, "sort_by"@, "sort_by"@) + str_param(a, "start_date"@, "start_date"@) + str_param(a, "end_date"@, "end_date"@), str_param(a, "batch_id"@, "batch_id"@), ("to"@, int_decimal(int_arg(a, "to"@)->0 as int)));
        crate::request::lemma_concat_contains(seq![clamped_param(a, "limit"@, 20, 1, 100)] + int_param(a, "from"@, "from"@) + int_param(a, "to"@, "to"@) + bool_param(a, "ascending"@, "ascending"@) + str_param(a, "sort_by"@, "sort_by"@) + str_param(a, "start_date"@, "start_date"@) + str_param(a, "end_date"@, "end_date"@) + str_param(a, "batch_id"@, "batch_id"@), str_param(a, "answered_by"@, "answered_by"@), ("to"@, int_decimal(int_arg(a, "to"@)->0 as int)));
        crate::request::lemma_concat_contains(seq![clamped_param(a, "limit"@, 20, 1, 100)] + int_param(a, "from"@, "from"@) + int_param(a, "to"@, "to"@) + bool_param(a, "ascending"@, "ascending"@) + str_param(a, "sort_by"@, "sort_by"@) + str_param(a, "start_date"@, "start_date"@) + str_param(a, "end_date"@, "end_date"@) + str_param(a, "batch_id"@, "batch_id"@) + str_param(a, "answered_by"@, "answered_by"@), bool_param(a, "inbound"@, "inbound"@), ("to"@, int_decimal(int_arg(a, "to"@)->0 as int)));
        crate::request::lemma_concat_contains(seq![clamped_param(a, "limit"@, 20, 1, 100)] + int_param(a, "from"@, "from"@) + int_param(a, "to"@, "to"@) + bool_param(a, "ascending"@, "ascending"@) + str_param(a, "sort_by"@, "sort_by"@) + str_param(a, "start_date"@, "start_date"@) + str_param(a, "end_date"@, "end_date"@) + str_param(a, "batch_id"@, "batch_id"@) + str_param(a, "answered_by"@, "answered_by"@) + bool_param(a, "inbound"@, "inbound"@), bool_param(a, "completed"@, "completed"@), ("to"@, int_decimal(int_arg(a, "to"@)->0 as int)));
        crate::request::lemma_concat_contains(seq![clamped_param(a, "limit"@, 20, 1, 100)] + int_param(a, "from"@, "from"@) + int_param(a, "to"@, "to"@) + bool_param(a, "ascending"@, "ascending"@) + str_param(a, "sort_by"@, "sort_by"@) + str_param(a, "start_date"@, "start_date"@) + str_param(a, "end_date"@, "end_date"@) + str_param(a, "batch_id"@, "batch_id"@) + str_param(a, "answered_by"@, "answered_by"@) + bool_param(a, "inbound"@, "inbound"@) + bool_param(a, "completed"@, "completed"@), str_param(a, "from_number"@, "from_number"@), ("to"@, int_decimal(int_arg(a, "to"@)->0 as int)));
        crate::request::lemma_concat_contains(seq![clamped_param(a, "limit"@, 20, 1, 100)] + int_param(a, "from"@, "from"@) + int_param(a, "to"@, "to"@) + bool_param(a, "ascending"@, "ascending"@) + str_param(a, "sort_by"@, "sort_by"@) + str_param(a, "start_date"@, "start_date"@) + str_param(a, "end_date"@, "end_date"@) + str_param(a, "batch_id"@, "batch_id"@) + str_param(a, "answered_by"@, "answered_by"@) + bool_param(a, "inbound"@, "inbound"@) + bool_param(a, "completed"@, "completed"@) + str_param(a, "from_number"@, "from_number"@), str_param(a, "to_number"@, "to_number"@), ("to"@, int_decimal(int_arg(a, "to"@)->0 as int)));
        crate::request::lemma_concat_contains(seq![clamped_param(a, "limit"@, 20, 1, 100)] + int_param(a, "from"@, "from"@) + int_param(a, "to"@, "to"@) + bool_param(a, "ascending"@, "ascending"@) + str_param(a, "sort_by"@, "sort_by"@) + str_param(a, "start_date"@, "start_date"@) + str_param(a, "end_date"@, "end_date"@) + str_param(a, "batch_id"@, "batch_id"@) + str_param(a, "answered_by"@, "answered_by"@) + bool_param(a, "inbound"@, "inbound"@) + bool_param(a, "completed"@, "completed"@) + str_param(a, "from_number"@, "from_number"@) + str_param(a, "to_number"@, "to_number"@), int_param(a, "duration_gt"@, "duration_gt"@), ("to"@, int_decimal(int_arg(a, "to"@)->0 as int)));
        crate::request::lemma_concat_contains(seq![clamped_param(a, "limit"@, 20, 1, 100)] + int_param(a, "from"@, "from"@) + int_param(a, "to"@, "to"@) + bool_param(a, "ascending"@, "ascending"@) + str_param(a, "sort_by"@, "sort_by"@) + str_param(a, "start_date"@, "start_date"@) + str_param(a, "end_date"@, "end_date"@) + str_param(a, "batch_id"@, "batch_id"@) + str_param(a, "answered_by"@, "answered_by"@) + bool_param(a, "inbound"@, "inbound"@) + bool_param(a, "completed"@, "completed"@) + str_param(a, "from_number"@, "from_number"@) + str_param(a, "to_number"@, "to_number"@) + int_param(a, "duration_gt"@, "duration_gt"@), int_param(a, "duration_lt"@, "duration_lt"@), ("to"@, int_decimal(int_arg(a, "to"@)->0 as int)));
    }
}

proof fn lemma_list_calls_has_ascending(a: Seq<ArgEntryV>)
    ensures
        bool_arg(a, "ascending"@) is Some ==> (seq![clamped_param(a, "limit"@, 20, 1, 100)] + int_param(a, "from"@, "from"@) + int_param(a, "to"@, "to"@) + bool_param(a, "ascending"@, "ascending"@) + str_param(a, "sort_by"@, "sort_by"@) + str_param(a, "start_date"@, "start_date"@) + str_param(a, "end_date"@, "end_date"@) + str_param(a, "batch_id"@, "batch_id"@) + str_param(a, "answered_by"@, "answered_by"@) + bool_param(a, "inbound"@, "inbound"@) + bool_param(a, "completed"@, "completed"@) + str_param(a, "from_number"@, "from_number"@) + str_param(a, "to_number"@, "to_number"@) + int_param(a, "duration_gt"@, "duration_gt"@) + int_param(a, "duration_lt"@, "duration_lt"@)).contains(("ascending"@, bool_text(bool_arg(a, "ascending"@)->0))),
{
    if bool_arg(a, "ascending"@) is Some {
        assert(bool_param(a, "ascending"@, "ascending"@)[0] == ("ascending"@, bool_text(bool_arg(a, "ascending"@)->0)));
        crate::request::lemma_concat_contains(seq![clamped_param(a, "limit"@, 20, 1, 100)] + int_param(a, "from"@, "from"@) + int_param(a, "to"@, "to"@), bool_param(a, "ascending"@, "ascending"@), ("ascending"@, bool_text(bool_arg(a, "ascending"@)->0)));
        crate::request::lemma_concat_contains(seq![clamped_param(a, "limit"@, 20, 1, 100)] + int_param(a, "from"@, "from"@) + int_param(a, "to"@, "to"@) + bool_param(a, "ascending"@, "ascending"@), str_param(a, "sort_by"@, "sort_by"@), ("ascending"@, bool_text(bool_arg(a, "ascending"@)->0)));
        crate::request::lemma_concat_contains(seq![clamped_param(a, "limit"@, 20, 1, 100)] + int_param(a, "from"@, "from"@) + int_param(a, "to"@, "to"@) + bool_param(a, "ascending"@, "ascending"@) + str_param(a, "sort_by"@, "sort_by"@), str_param(a, "start_date"@, "start_date"@), ("ascending"@, bool_text(bool_arg(a, "ascending"@)->0)));
        crate::request::lemma_concat_contains(seq![clamped_param(a, "limit"@, 20, 1, 100)] + int_param(a, "from"@, "from"@) + int_param(a, "to"@, "to"@) + bool_param(a, "ascending"@, "ascending"@) + str_param(a, "sort_by"@, "sort_by"@) + str_param(a, "start_date"@, "start_date"@), str_param(a, "end_date"@, "end_date"@), ("ascending"@, bool_text(bool_arg(a, "ascending"@)->0)));
        crate::request::lemma_concat_contains(seq![clamped_param(a, "limit"@, 20, 1, 100)] + int_param(a, "from"@, "from"@) + int_param(a, "to"@, "to"@) + bool_param(a, "ascending"@, "ascending"@) + str_param(a, "sort_by"@, "sort_by"@) + str_param(a, "start_date"@, "start_date"@) + str_param(a, "end_date"@, "end_date"@), str_param(a, "batch_id"@, "batch_id"@), ("ascending"@, bool_text(bool_arg(a, "ascending"@)->0)));
        crate::request::lemma_concat_contains(seq![clamped_param(a, "limit"@, 20, 1, 100)] + int_param(a, "from"@, "from"@) + int_param(a, "to"@, "to"@) + bool_param(a, "ascending"@, "ascending"@) + str_param(a, "sort_by"@, "sort_by"@) + str_param(a, "start_date"@, "start_date"@) + str_param(a, "end_date"@, "end_date"@) + str_param(a, "batch_id"@, "batch_id"@), str_param(a, "answered_by"@, "answered_by"@), ("ascending"@, bool_text(bool_arg(a, "ascending"@)->0)));
        crate::request::lemma_concat_contains(seq![clamped_param(a, "limit"@, 20, 1, 100)] + int_param(a, "from"@, "from"@) + int_param(a, "to"@, "to"@) + bool_param(a, "ascending"@, "ascending"@) + str_param(a, "sort_by"@, "sort_by"@) + str_param(a, "start_date"@, "start_date"@) + str_param(a, "end_date"@, "end_date"@) + str_param(a, "batch_id"@, "batch_id"@) + str_param(a, "answered_by"@, "answered_by"@), bool_param(a, "inbound"@, "inbound"@), ("ascending"@, bool_text(bool_arg(a, "ascending"@)->0)));
        crate::request::lemma_concat_contains(seq![clamped_param(a, "limit"@, 20, 1, 100)] + int_param(a, "from"@, "from"@) + int_param(a, "to"@, "to"@) + bool_param(a, "ascending"@, "ascending"@) + str_param(a, "sort_by"@, "sort_by"@) + str_param(a, "start_date"@, "start_date"@) + str_param(a, "end_date"@, "end_date"@) + str_param(a, "batch_id"@, "batch_id"@) + str_param(a, "answered_by"@, "answered_by"@) + bool_param(a, "inbound"@, "inbound"@), bool_param(a, "completed"@, "completed"@), ("ascending"@, bool_text(bool_arg(a, "ascending"@)->0)));
        crate::request::lemma_concat_contains(seq![clamped_param(a, "limit"@, 20, 1, 100)] + int_param(a, "from"@, "from"@) + int_param(a, "to"@, "to"@) + bool_param(a, "ascending"@, "ascending"@) + str_param(a, "sort_by"@, "sort_by"@) + str_param(a, "start_date"@, "start_date"@) + str_param(a, "end_date"@, "end_date"@) + str_param(a, "batch_id"@, "batch_id"@) + str_param(a, "answered_by"@, "answered_by"@) + bool_param(a, "inbound"@, "inbound"@) + bool_param(a, "completed"@, "completed"@), str_param(a, "from_number"@, "from_number"@), ("ascending"@, bool_text(bool_arg(a, "ascending"@)->0)));
        crate::request::lemma_concat_contains(seq![clamped_param(a, "limit"@, 20, 1, 100)] + int_param(a, "from"@, "from"@) + int_param(a, "to"@, "to"@) + bool_param(a, "ascending"@, "ascending"@) + str_param(a, "sort_by"@, "sort_by"@) + str_param(a, "start_date"@, "start_date"@) + str_param(a, "end_date"@, "end_date"@) + str_param(a, "batch_id"@, "batch_id"@) + str_param(a, "answered_by"@, "answered_by"@) + bool_param(a, "inbound"@, "inbound"@) + bool_param(a, "completed"@, "completed"@) + str_param(a, "from_number"@, "from_number"@), str_param(a, "to_number"@, "to_number"@), ("ascending"@, bool_text(bool_arg(a, "ascending"@)->0)));
        crate::request::lemma_concat_contains(seq![clamped_param(a, "limit"@, 20, 1, 100)] + int_param(a, "from"@, "from"@) + int_param(a, "to"@, "to"@) + bool_param(a, "ascending"@, "ascending"@) + str_param(a, "sort_by"@, "sort_by"@) + str_param(a, "start_date"@, "start_date"@) + str_param(a, "end_date"@, "end_date"@) + str_param(a, "batch_id"@, "batch_id"@) + str_param(a, "answered_by"@, "answered_by"@) + bool_param(a, "inbound"@, "inbound"@) + bool_param(a, "completed"@, "completed"@) + str_param(a, "from_number"@, "from_number"@) + str_param(a, "to_number"@, "to_number"@), int_param(a, "duration_gt"@, "duration_gt"@), ("ascending"@, bool_text(bool_arg(a, "ascending"@)->0)));
        crate::request::lemma_concat_contains(seq![clamped_param(a, "limit"@, 20, 1, 100)] + int_param(a, "from"@, "from"@) + int_param(a, "to"@, "to"@) + bool_param(a, "ascending"@, "ascending"@) + str_param(a, "sort_by"@, "sort_by"@) + str_param(a, "start_date"@, "start_date"@) + str_param(a, "end_date"@, "end_date"@) + str_param(a, "batch_id"@, "batch_id"@) + str_param(a, "answered_by"@, "answered_by"@) + bool_param(a, "inbound"@, "inbound"@) + bool_param(a, "completed"@, "completed"@) + str_param(a, "from_number"@, "from_number"@) + str_param(a, "to_number"@, "to_number"@) + int_param(a, "duration_gt"@, "duration_gt"@), int_param(a, "duration_lt"@, "duration_lt"@), ("ascending"@, bool_text(bool_arg(a, "ascending"@)->0)));
    }
}

proof fn lemma_list_calls_has_sort_by(a: Seq<ArgEntryV>)
    ensures
        str_arg(a, "sort_by"@).len() > 0 ==> (seq![clamped_param(a, "limit"@, 20, 1, 100)] + int_param(a, "from"@, "from"@) + int_param(a, "to"@, "to"@) + bool_param(a, "ascending"@, "ascending"@) + str_param(a, "sort_by"@, "sort_by"@) + str_param(a, "start_date"@, "start_date"@) + str_param(a, "end_date"@, "end_date"@) + str_param(a, "batch_id"@, "batch_id"@) + str_param(a, "answered_by"@, "answered_by"@) + bool_param(a, "inbound"@, "inbound"@) + bool_param(a, "completed"@, "completed"@) + str_param(a, "from_number"@, "from_number"@) + str_param(a, "to_number"@, "to_number"@) + int_param(a, "duration_gt"@, "duration_gt"@) + int_param(a, "duration_lt"@, "duration_lt"@)).contains(("sort_by"@, str_arg(a, "sort_by"@))),
{
    if str_arg(a, "sort_by"@).len() > 0 {
        assert(str_param(a, "sort_by"@, "sort_by"@)[0] == ("sort_by"@, str_arg(a, "sort_by"@)));
        crate::request::lemma_concat_contains(seq![clamped_param(a, "limit"@, 20, 1, 100)] + int_param(a, "from"@, "from"@) + int_param(a, "to"@, "to"@) + bool_param(a, "ascending"@, "ascending"@), str_param(a, "sort_by"@, "sort_by"@), ("sort_by"@, str_arg(a, "sort_by"@)));
        crate::request::lemma_concat_contains(seq![clamped_param(a, "limit"@, 20, 1, 100)] + int_param(a, "from"@, "from"@) + int_param(a, "to"@, "to"@) + bool_param(a, "ascending"@, "ascending"@) + str_param(a, "sort_by"@, "sort_by"@), str_param(a, "start_date"@, "start_date"@), ("sort_by"@, str_arg(a, "sort_by"@)));
        crate::request::lemma_concat_contains(seq![clamped_param(a, "limit"@, 20, 1, 100)] + int_param(a, "from"@, "from"@) + int_param(a, "to"@, "to"@) + bool_param(a, "ascending"@, "ascending"@) + str_param(a, "sort_by"@, "sort_by"@) + str_param(a, "start_date"@, "start_date"@), str_param(a, "end_date"@, "end_date"@), ("sort_by"@, str_arg(a, "sort_by"@)));
        crate::request::lemma_concat_contains(seq![clamped_param(a, "limit"@, 20, 1, 100)] + int_param(a, "from"@, "from"@) + int_param(a, "to"@, "to"@) + bool_param(a, "ascending"@, "ascending"@) + str_param(a, "sort_by"@, "sort_by"@) + str_param(a, "start_date"@, "start_date"@) + str_param(a, "end_date"@, "end_date"@), str_param(a, "batch_id"@, "batch_id"@), ("sort_by"@, str_arg(a, "sort_by"@)));
        crate::request::lemma_concat_contains(seq![clamped_param(a, "limit"@, 20, 1, 100)] + int_param(a, "from"@, "from"@) + int_param(a, "to"@, "to"@) + bool_param(a, "ascending"@, "ascending"@) + str_param(a, "sort_by"@, "sort_by"@) + str_param(a, "start_date"@, "start_date"@) + str_param(a, "end_date"@, "end_date"@) + str_param(a, "batch_id"@, "batch_id"@), str_param(a, "answered_by"@, "answered_by"@), ("sort_by"@, str_arg(a, "sort_by"@)));
        crate::request::lemma_concat_contains(seq![clamped_param(a, "limit"@, 20, 1, 100)] + int_param(a, "from"@, "from"@) + int_param(a, "to"@, "to"@) + bool_param(a, "ascending"@, "ascending"@) + str_param(a, "sort_by"@, "sort_by"@) + str_param(a, "start_date"@, "start_date"@) + str_param(a, "end_date"@, "end_date"@) + str_param(a, "batch_id"@, "batch_id"@) + str_param(a, "answered_by"@, "answered_by"@), bool_param(a, "inbound"@, "inbound"@), ("sort_by"@, str_arg(a, "sort_by"@)));
        crate::request::lemma_concat_contains(seq![clamped_param(a, "limit"@, 20, 1, 100)] + int_param(a, "from"@, "from"@) + int_param(a, "to"@, "to"@) + bool_param(a, "ascending"@, "ascending"@) + str_param(a, "sort_by"@, "sort_by"@) + str_param(a, "start_date"@, "start_date"@) + str_param(a, "end_date"@, "end_date"@) + str_param(a, "batch_id"@, "batch_id"@) + str_param(a, "answered_by"@, "answered_by"@) + bool_param(a, "inbound"@, "inbound"@), bool_param(a, "completed"@, "completed"@), ("sort_by"@, str_arg(a, "sort_by"@)));
        crate::request::lemma_concat_contains(seq![clamped_param(a, "limit"@, 20, 1, 100)] + int_param(a, "from"@, "from"@) + int_param(a, "to"@, "to"@) + bool_param(a, "ascending"@, "ascending"@) + str_param(a, "sort_by"@, "sort_by"@) + str_param(a, "start_date"@, "start_date"@) + str_param(a, "end_date"@, "end_date"@) + str_param(a, "batch_id"@, "batch_id"@) + str_param(a, "answered_by"@, "answered_by"@) + bool_param(a, "inbound"@, "inbound"@) + bool_param(a, "completed"@, "completed"@), str_param(a, "from_number"@, "from_number"@), ("sort_by"@, str_arg(a, "sort_by"@)));
        crate::request::lemma_concat_contains(seq![clamped_param(a, "limit"@, 20, 1, 100)] + int_param(a, "from"@, "from"@) + int_param(a, "to"@, "to"@) + bool_param(a, "ascending"@, "ascending"@) + str_param(a, "sort_by"@, "sort_by"@) + str_param(a, "start_date"@, "start_date"@) + str_param(a, "end_date"@, "end_date"@) + str_param(a, "batch_id"@, "batch_id"@) + str_param(a, "answered_by"@, "answered_by"@) + bool_param(a, "inbound"@, "inbound"@) + bool_param(a, "completed"@, "completed"@) + str_param(a, "from_number"@, "from_number"@), str_param(a, "to_number"@, "to_number"@), ("sort_by"@, str_arg(a, "sort_by"@)));
        crate::request::lemma_concat_contains(seq![clamped_param(a, "limit"@, 20, 1, 100)] + int_param(a, "from"@, "from"@) + int_param(a, "to"@, "to"@) + bool_param(a, "ascending"@, "ascending"@) + str_param(a, "sort_by"@, "sort_by"@) + str_param(a, "start_date"@, "start_date"@) + str_param(a, "end_date"@, "end_date"@) + str_param(a, "batch_id"@, "batch_id"@) + str_param(a, "answered_by"@, "answered_by"@) + bool_param(a, "inbound"@, "inbound"@) + bool_param(a, "completed"@, "completed"@) + str_param(a, "from_number"@, "from_number"@) + str_param(a, "to_number"@, "to_number"@), int_param(a, "duration_gt"@, "duration_gt"@), ("sort_by"@, str_arg(a, "sort_by"@)));
        crate::request::lemma_concat_contains(seq![clamped_param(a, "limit"@, 20, 1, 100)] + int_param(a, "from"@, "from"@) + int_param(a, "to"@, "to"@) + bool_param(a, "ascending"@, "ascending"@) + str_param(a, "sort_by"@, "sort_by"@) + str_param(a, "start_date"@, "start_date"@) + str_param(a, "end_date"@, "end_date"@) + str_param(a, "batch_id"@, "batch_id"@) + str_param(a, "answered_by"@, "answered_by"@) + bool_param(a, "inbound"@, "inbound"@) + bool_param(a, "completed"@, "completed"@) + str_param(a, "from_number"@, "from_number"@) + str_param(a, "to_number"@, "to_number"@) + int_param(a, "duration_gt"@, "duration_gt"@), int_param(a, "duration_lt"@, "duration_lt"@), ("sort_by"@, str_arg(a, "sort_by"@)));
    }
}

proof fn lemma_list_calls_has_start_date(a: Seq<ArgEntryV>)
    ensures
        str_arg(a, "start_date"@).len() > 0 ==> (seq![clamped_param(a, "limit"@, 20, 1, 100)] + int_param(a, "from"@, "from"@) + int_param(a, "to"@, "to"@) + bool_param(a, "ascending"@, "ascending"@) + str_param(a, "sort_by"@, "sort_by"@) + str_param(a, "start_date"@, "start_date"@) + str_param(a, "end_date"@, "end_date"@) + str_param(a, "batch_id"@, "batch_id"@) + str_param(a, "answered_by"@, "answered_by"@) + bool_param(a, "inbound"@, "inbound"@) + bool_param(a, "completed"@, "completed"@) + str_param(a, "from_number"@, "from_number"@) + str_param(a, "to_number"@, "to_number"@) + int_param(a, "duration_gt"@, "duration_gt"@) + int_param(a, "duration_lt"@, "duration_lt"@)).contains(("start_date"@, str_arg(a, "start_date"@))),
{
    if str_arg(a, "start_date"@).len() > 0 {
        assert(str_param(a, "start_date"@, "start_date"@)[0] == ("start_date"@, str_arg(a, "start_date"@)));
        crate::request::lemma_concat_contains(seq![clamped_param(a, "limit"@, 20, 1, 100)] + int_param(a, "from"@, "from"@) + int_param(a, "to"@, "to"@) + bool_param(a, "ascending"@, "ascending"@) + str_param(a, "sort_by"@, "sort_by"@), str_param(a, "start_date"@, "start_date"@), ("start_date"@, str_arg(a, "start_date"@)));
        crate::request::lemma_concat_contains(seq![clamped_param(a, "limit"@, 20, 1, 100)] + int_param(a, "from"@, "from"@) + int_param(a, "to"@, "to"@) + bool_param(a, "ascending"@, "ascending"@) + str_param(a, "sort_by"@, "sort_by"@) + str_param(a, "start_date"@, "start_date"@), str_param(a, "end_date"@, "end_date"@), ("start_date"@, str_arg(a, "start_date"@)));
        crate::request::lemma_concat_contains(seq![clamped_param(a, "limit"@, 20, 1, 100)] + int_param(a, "from"@, "from"@) + int_param(a, "to"@, "to"@) + bool_param(a, "ascending"@, "ascending"@) + str_param(a, "sort_by"@, "sort_by"@) + str_param(a, "start_date"@, "start_date"@) + str_param(a, "end_date"@, "end_date"@), str_param(a, "batch_id"@, "batch_id"@), ("start_date"@, str_arg(a, "start_date"@)));
        crate::request::lemma_concat_contains(seq![clamped_param(a, "limit"@, 20, 1, 100)] + int_param(a, "from"@, "from"@) + int_param(a, "to"@, "to"@) + bool_param(a, "ascending"@, "ascending"@) + str_param(a, "sort_by"@, "sort_by"@) + str_param(a, "start_date"@, "start_date"@) + str_param(a, "end_date"@, "end_date"@) + str_param(a, "batch_id"@, "batch_id"@), str_param(a, "answered_by"@, "answered_by"@), ("start_date"@, str_arg(a, "start_date"@)));
        crate::request::lemma_concat_contains(seq![clamped_param(a, "limit"@, 20, 1, 100)] + int_param(a, "from"@, "from"@) + int_param(a, "to"@, "to"@) + bool_param(a, "ascending"@, "ascending"@) + str_param(a, "sort_by"@, "sort_by"@) + str_param(a, "start_date"@, "start_date"@) + str_param(a, "end_date"@, "end_date"@) + str_param(a, "batch_id"@, "batch_id"@) + str_param(a, "answered_by"@, "answered_by"@), bool_param(a, "inbound"@, "inbound"@), ("start_date"@, str_arg(a, "start_date"@)));
        crate::request::lemma_concat_contains(seq![clamped_param(a, "limit"@, 20, 1, 100)] + int_param(a, "from"@, "from"@) + int_param(a, "to"@, "to"@) + bool_param(a, "ascending"@, "ascending"@) + str_param(a, "sort_by"@, "sort_by"@) + str_param(a, "start_date"@, "start_date"@) + str_param(a, "end_date"@, "end_date"@) + str_param(a, "batch_id"@, "batch_id"@) + str_param(a, "answered_by"@, "answered_by"@) + bool_param(a, "inbound"@, "inbound"@), bool_param(a, "completed"@, "completed"@), ("start_date"@, str_arg(a, "start_date"@)));
        crate::request::lemma_concat_contains(seq![clamped_param(a, "limit"@, 20, 1, 100)] + int_param(a, "from"@, "from"@) + int_param(a, "to"@, "to"@) + bool_param(a, "ascending"@, "ascending"@) + str_param(a, "sort_by"@, "sort_by"@) + str_param(a, "start_date"@, "start_date"@) + str_param(a, "end_date"@, "end_date"@) + str_param(a, "batch_id"@, "batch_id"@) + str_param(a, "answered_by"@, "answered_by"@) + bool_param(a, "inbound"@, "inbound"@) + bool_param(a, "completed"@, "completed"@), str_param(a, "from_number"@, "from_number"@), ("start_date"@, str_arg(a, "start_date"@)));
        crate::request::lemma_concat_contains(seq![clamped_param(a, "limit"@, 20, 1, 100)] + int_param(a, "from"@, "from"@) + int_param(a, "to"@, "to"@) + bool_param(a, "ascending"@, "ascending"@) + str_param(a, "sort_by"@, "sort_by"@) + str_param(a, "start_date"@, "start_date"@) + str_param(a, "end_date"@, "end_date"@) + str_param(a, "batch_id"@, "batch_id"@) + str_param(a, "answered_by"@, "answered_by"@) + bool_param(a, "inbound"@, "inbound"@) + bool_param(a, "completed"@, "completed"@) + str_param(a, "from_number"@, "from_number"@), str_param(a, "to_number"@, "to_number"@), ("start_date"@, str_arg(a, "start_date"@)));
        crate::request::lemma_concat_contains(seq![clamped_param(a, "limit"@, 20, 1, 100)] + int_param(a, "from"@, "from"@) + int_param(a, "to"@, "to"@) + bool_param(a, "ascending"@, "ascending"@) + str_param(a, "sort_by"@, "sort_by"@) + str_param(a, "start_date"@, "start_date"@) + str_param(a, "end_date"@, "end_date"@) + str_param(a, "batch_id"@, "batch_id"@) + str_param(a, "answered_by"@, "answered_by"@) + bool_param(a, "inbound"@, "inbound"@) + bool_param(a, "completed"@, "completed"@) + str_param(a, "from_number"@, "from_number"@) + str_param(a, "to_number"@, "to_number"@), int_param(a, "duration_gt"@, "duration_gt"@), ("start_date"@, str_arg(a, "start_date"@)));
        crate::request::lemma_concat_contains(seq![clamped_param(a, "limit"@, 20, 1, 100)] + int_param(a, "from"@, "from"@) + int_param(a, "to"@, "to"@) + bool_param(a, "ascending"@, "ascending"@) + str_param(a, "sort_by"@, "sort_by"@) + str_param(a, "start_date"@, "start_date"@) + str_param(a, "end_date"@, "end_date"@) + str_param(a, "batch_id"@, "batch_id"@) + str_param(a, "answered_by"@, "answered_by"@) + bool_param(a, "inbound"@, "inbound"@) + bool_param(a, "completed"@, "completed"@) + str_param(a, "from_number"@, "from_number"@) + str_param(a, "to_number"@, "to_number"@) + int_param(a, "duration_gt"@, "duration_gt"@), int_param(a, "duration_lt"@, "duration_lt"@), ("start_date"@, str_arg(a, "start_date"@)));
    }
}

proof fn lemma_list_calls_has_end_date(a: Seq<ArgEntryV>)
    ensures
        str_arg(a, "end_date"@).len() > 0 ==> (seq![clamped_param(a, "limit"@, 20, 1, 100)] + int_param(a, "from"@, "from"@) + int_param(a, "to"@, "to"@) + bool_param(a, "ascending"@, "ascending"@) + str_param(a, "sort_by"@, "sort_by"@) + str_param(a, "start_date"@, "start_date"@) + str_param(a, "end_date"@, "end_date"@) + str_param(a, "batch_id"@, "batch_id"@) + str_param(a, "answered_by"@, "answered_by"@) + bool_param(a, "inbound"@, "inbound"@) + bool_param(a, "completed"@, "completed"@) + str_param(a, "from_number"@, "from_number"@) + str_param(a, "to_number"@, "to_number"@) + int_param(a, "duration_gt"@, "duration_gt"@) + int_param(a, "duration_lt"@, "duration_lt"@)).contains(("end_date"@, str_arg(a, "end_date"@))),
{
    if str_arg(a, "end_date"@).len() > 0 {
        assert(str_param(a, "end_date"@, "end_date"@)[0] == ("end_date"@, str_arg(a, "end_date"@)));
        crate::request::lemma_concat_contains(seq![clamped_param(a, "limit"@, 20, 1, 100)] + int_param(a, "from"@, "from"@) + int_param(a, "to"@, "to"@) + bool_param(a, "ascending"@, "ascending"@) + str_param(a, "sort_by"@, "sort_by"@) + str_param(a, "start_date"@, "start_date"@), str_param(a, "end_date"@, "end_date"@), ("end_date"@, str_arg(a, "end_date"@)));
        crate::request::lemma_concat_contains(seq![clamped_param(a, "limit"@, 20, 1, 100)] + int_param(a, "from"@, "from"@) + int_param(a, "to"@, "to"@) + bool_param(a, "ascending"@, "ascending"@) + str_param(a, "sort_by"@, "sort_by"@) + str_param(a, "start_date"@, "start_date"@) + str_param(a, "end_date"@, "end_date"@), str_param(a, "batch_id"@, "batch_id"@), ("end_date"@, str_arg(a, "end_date"@)));
        crate::request::lemma_concat_contains(seq![clamped_param(a, "limit"@, 20, 1, 100)] + int_param(a, "from"@, "from"@) + int_param(a, "to"@, "to"@) + bool_param(a, "ascending"@, "ascending"@) + str_param(a, "sort_by"@, "sort_by"@) + str_param(a, "start_date"@, "start_date"@) + str_param(a, "end_date"@, "end_date"@) + str_param(a, "batch_id"@, "batch_id"@), str_param(a, "answered_by"@, "answered_by"@), ("end_date"@, str_arg(a, "end_date"@)));
        crate::request::lemma_concat_contains(seq![clamped_param(a, "limit"@, 20, 1, 100)] + int_param(a, "from"@, "from"@) + int_param(a, "to"@, "to"@) + bool_param(a, "ascending"@, "ascending"@) + str_param(a, "sort_by"@, "sort_by"@) + str_param(a, "start_date"@, "start_date"@) + str_param(a, "end_date"@, "end_date"@) + str_param(a, "batch_id"@, "batch_id"@) + str_param(a, "answered_by"@, "answered_by"@), bool_param(a, "inbound"@, "inbound"@), ("end_date"@, str_arg(a, "end_date"@)));
        crate::request::lemma_concat_contains(seq![clamped_param(a, "limit"@, 20, 1, 100)] + int_param(a, "from"@, "from"@) + int_param(a, "to"@, "to"@) + bool_param(a, "ascending"@, "ascending"@) + str_param(a, "sort_by"@, "sort_by"@) + str_param(a, "start_date"@, "start_date"@) + str_param(a, "end_date"@, "end_date"@) + str_param(a, "batch_id"@, "batch_id"@) + str_param(a, "answered_by"@, "answered_by"@) + bool_param(a, "inbound"@, "inbound"@), bool_param(a, "completed"@, "completed"@), ("end_date"@, str_arg(a, "end_date"@)));
        crate::request::lemma_concat_contains(seq![clamped_param(a, "limit"@, 20, 1, 100)] + int_param(a, "from"@, "from"@) + int_param(a, "to"@, "to"@) + bool_param(a, "ascending"@, "ascending"@) + str_param(a, "sort_by"@, "sort_by"@) + str_param(a, "start_date"@, "start_date"@) + str_param(a, "end_date"@, "end_date"@) + str_param(a, "batch_id"@, "batch_id"@) + str_param(a, "answered_by"@, "answered_by"@) + bool_param(a, "inbound"@, "inbound"@) + bool_param(a, "completed"@, "completed"@), str_param(a, "from_number"@, "from_number"@), ("end_date"@, str_arg(a, "end_date"@)));
        crate::request::lemma_concat_contains(seq![clamped_param(a, "limit"@, 20, 1, 100)] + int_param(a, "from"@, "from"@) + int_param(a, "to"@, "to"@) + bool_param(a, "ascending"@, "ascending"@) + str_param(a, "sort_by"@, "sort_by"@) + str_param(a, "start_date"@, "start_date"@) + str_param(a, "end_date"@, "end_date"@) + str_param(a, "batch_id"@, "batch_id"@) + str_param(a, "answered_by"@, "answered_by"@) + bool_param(a, "inbound"@, "inbound"@) + bool_param(a, "completed"@, "completed"@) + str_param(a, "from_number"@, "from_number"@), str_param(a, "to_number"@, "to_number"@), ("end_date"@, str_arg(a, "end_date"@)));
        crate::request::lemma_concat_contains(seq![clamped_param(a, "limit"@, 20, 1, 100)] + int_param(a, "from"@, "from"@) + int_param(a, "to"@, "to"@) + bool_param(a, "ascending"@, "ascending"@) + str_param(a, "sort_by"@, "sort_by"@) + str_param(a, "start_date"@, "start_date"@) + str_param(a, "end_date"@, "end_date"@) + str_param(a, "batch_id"@, "batch_id"@) + str_param(a, "answered_by"@, "answered_by"@) + bool_param(a, "inbound"@, "inbound"@) + bool_param(a, "completed"@, "completed"@) + str_param(a, "from_number"@, "from_number"@) + str_param(a, "to_number"@, "to_number"@), int_param(a, "duration_gt"@, "duration_gt"@), ("end_date"@, str_arg(a, "end_date"@)));
        crate::request::lemma_concat_contains(seq![clamped_param(a, "limit"@, 20, 1, 100)] + int_param(a, "from"@, "from"@) + int_param(a, "to"@, "to"@) + bool_param(a, "ascending"@, "ascending"@) + str_param(a, "sort_by"@, "sort_by"@) + str_param(a, "start_date"@, "start_date"@) + str_param(a, "end_date"@, "end_date"@) + str_param(a, "batch_id"@, "batch_id"@) + str_param(a, "answered_by"@, "answered_by"@) + bool_param(a, "inbound"@, "inbound"@) + bool_param(a, "completed"@, "completed"@) + str_param(a, "from_number"@, "from_number"@) + str_param(a, "to_number"@, "to_number"@) + int_param(a, "duration_gt"@, "duration_gt"@), int_param(a, "duration_lt"@, "duration_lt"@), ("end_date"@, str_arg(a, "end_date"@)));
    }
}

proof fn lemma_list_calls_has_batch_id(a: Seq<ArgEntryV>)
    ensures
        str_arg(a, "batch_id"@).len() > 0 ==> (seq![clamped_param(a, "limit"@, 20, 1, 100)] + int_param(a, "from"@, "from"@) + int_param(a, "to"@, "to"@) + bool_param(a, "ascending"@, "ascending"@) + str_param(a, "sort_by"@, "sort_by"@) + str_param(a, "start_date"@, "start_date"@) + str_param(a, "end_date"@, "end_date"@) + str_param(a, "batch_id"@, "batch_id"@) + str_param(a, "answered_by"@, "answered_by"@) + bool_param(a, "inbound"@, "inbound"@) + bool_param(a, "completed"@, "completed"@) + str_param(a, "from_number"@, "from_number"@) + str_param(a, "to_number"@, "to_number"@) + int_param(a, "duration_gt"@, "duration_gt"@) + int_param(a, "duration_lt"@, "duration_lt"@)).contains(("batch_id"@, str_arg(a, "batch_id"@))),
{
    if str_arg(a, "batch_id"@).len() > 0 {
        assert(str_param(a, "batch_id"@, "batch_id"@)[0] == ("batch_id"@, str_arg(a, "batch_id"@)));
        crate::request::lemma_concat_contains(seq![clamped_param(a, "limit"@, 20, 1, 100)] + int_param(a, "from"@, "from"@) + int_param(a, "to"@, "to"@) + bool_param(a, "ascending"@, "ascending"@) + str_param(a, "sort_by"@, "sort_by"@) + str_param(a, "start_date"@, "start_date"@) + str_param(a, "end_date"@, "end_date"@), str_param(a, "batch_id"@, "batch_id"@), ("batch_id"@, str_arg(a, "batch_id"@)));
        crate::request::lemma_concat_contains(seq![clamped_param(a, "limit"@, 20, 1, 100)] + int_param(a, "from"@, "from"@) + int_param(a, "to"@, "to"@) + bool_param(a, "ascending"@, "ascending"@) + str_param(a, "sort_by"@, "sort_by"@) + str_param(a, "start_date"@, "start_date"@) + str_param(a, "end_date"@, "end_date"@) + str_param(a, "batch_id"@, "batch_id"@), str_param(a, "answered_by"@, "answered_by"@), ("batch_id"@, str_arg(a, "batch_id"@)));
        crate::request::lemma_concat_contains(seq![clamped_param(a, "limit"@, 20, 1, 100)] + int_param(a, "from"@, "from"@) + int_param(a, "to"@, "to"@) + bool_param(a, "ascending"@, "ascending"@) + str_param(a, "sort_by"@, "sort_by"@) + str_param(a, "start_date"@, "start_date"@) + str_param(a, "end_date"@, "end_date"@) + str_param(a, "batch_id"@, "batch_id"@) + str_param(a, "answered_by"@, "answered_by"@), bool_param(a, "inbound"@, "inbound"@), ("batch_id"@, str_arg(a, "batch_id"@)));
        crate::request::lemma_concat_contains(seq![clamped_param(a, "limit"@, 20, 1, 100)] + int_param(a, "from"@, "from"@) + int_param(a, "to"@, "to"@) + bool_param(a, "ascending"@, "ascending"@) + str_param(a, "sort_by"@, "sort_by"@) + str_param(a, "start_date"@, "start_date"@) + str_param(a, "end_date"@, "end_date"@) + str_param(a, "batch_id"@, "batch_id"@) + str_param(a, "answered_by"@, "answered_by"@) + bool_param(a, "inbound"@, "inbound"@), bool_param(a, "completed"@, "completed"@), ("batch_id"@, str_arg(a, "batch_id"@)));
        crate::request::lemma_concat_contains(seq![clamped_param(a, "limit"@, 20, 1, 100)] + int_param(a, "from"@, "from"@) + int_param(a, "to"@, "to"@) + bool_param(a, "ascending"@, "ascending"@) + str_param(a, "sort_by"@, "sort_by"@) + str_param(a, "start_date"@, "start_date"@) + str_param(a, "end_date"@, "end_date"@) + str_param(a, "batch_id"@, "batch_id"@) + str_param(a, "answered_by"@, "answered_by"@) + bool_param(a, "inbound"@, "inbound"@) + bool_param(a, "completed"@, "completed"@), str_param(a, "from_number"@, "from_number"@), ("batch_id"@, str_arg(a, "batch_id"@)));
        crate::request::lemma_concat_contains(seq![clamped_param(a, "limit"@, 20, 1, 100)] + int_param(a, "from"@, "from"@) + int_param(a, "to"@, "to"@) + bool_param(a, "ascending"@, "ascending"@) + str_param(a, "sort_by"@, "sort_by"@) + str_param(a, "start_date"@, "start_date"@) + str_param(a, "end_date"@, "end_date"@) + str_param(a, "batch_id"@, "batch_id"@) + str_param(a, "answered_by"@, "answered_by"@) + bool_param(a, "inbound"@, "inbound"@) + bool_param(a, "completed"@, "completed"@) + str_param(a, "from_number"@, "from_number"@), str_param(a, "to_number"@, "to_number"@), ("batch_id"@, str_arg(a, "batch_id"@)));
        crate::request::lemma_concat_contains(seq![clamped_param(a, "limit"@, 20, 1, 100)] + int_param(a, "from"@, "from"@) + int_param(a, "to"@, "to"@) + bool_param(a, "ascending"@, "ascending"@) + str_param(a, "sort_by"@, "sort_by"@) + str_param(a, "start_date"@, "start_date"@) + str_param(a, "end_date"@, "end_date"@) + str_param(a, "batch_id"@, "batch_id"@) + str_param(a, "answered_by"@, "answered_by"@) + bool_param(a, "inbound"@, "inbound"@) + bool_param(a, "completed"@, "completed"@) + str_param(a, "from_number"@, "from_number"@) + str_param(a, "to_number"@, "to_number"@), int_param(a, "duration_gt"@, "duration_gt"@), ("batch_id"@, str_arg(a, "batch_id"@)));
        crate::request::lemma_concat_contains(seq![clamped_param(a, "limit"@, 20, 1, 100)] + int_param(a, "from"@, "from"@) + int_param(a, "to"@, "to"@) + bool_param(a, "ascending"@, "ascending"@) + str_param(a, "sort_by"@, "sort_by"@) + str_param(a, "start_date"@, "start_date"@) + str_param(a, "end_date"@, "end_date"@) + str_param(a, "batch_id"@, "batch_id"@) + str_param(a, "answered_by"@, "answered_by"@) + bool_param(a, "inbound"@, "inbound"@) + bool_param(a, "completed"@, "completed"@) + str_param(a, "from_number"@, "from_number"@) + str_param(a, "to_number"@, "to_number"@) + int_param(a, "duration_gt"@, "duration_gt"@), int_param(a, "duration_lt"@, "duration_lt"@), ("batch_id"@, str_arg(a, "batch_id"@)));
    }
}

proof fn lemma_list_calls_has_answered_by(a: Seq<ArgEntryV>)
    ensures
        str_arg(a, "answered_by"@).len() > 0 ==> (seq![clamped_param(a, "limit"@, 20, 1, 100)] + int_param(a, "from"@, "from"@) + int_param(a, "to"@, "to"@) + bool_param(a, "ascending"@, "ascending"@) + str_param(a, "sort_by"@, "sort_by"@) + str_param(a, "start_date"@, "start_date"@) + str_param(a, "end_date"@, "end_date"@) + str_param(a, "batch_id"@, "batch_id"@) + str_param(a, "answered_by"@, "answered_by"@) + bool_param(a, "inbound"@, "inbound"@) + bool_param(a, "completed"@, "completed"@) + str_param(a, "from_number"@, "from_number"@) + str_param(a, "to_number"@, "to_number"@) + int_param(a, "duration_gt"@, "duration_gt"@) + int_param(a, "duration_lt"@, "duration_lt"@)).contains(("answered_by"@, str_arg(a, "answered_by"@))),
{
    if str_arg(a, "answered_by"@).len() > 0 {
        assert(str_param(a, "answered_by"@, "answered_by"@)[0] == ("answered_by"@, str_arg(a, "answered_by"@)));
        crate::request::lemma_concat_contains(seq![clamped_param(a, "limit"@, 20, 1, 100)] + int_param(a, "from"@, "from"@) + int_param(a, "to"@, "to"@) + bool_param(a, "ascending"@, "ascending"@) + str_param(a, "sort_by"@, "sort_by"@) + str_param(a, "start_date"@, "start_date"@) + str_param(a, "end_date"@, "end_date"@) + str_param(a, "batch_id"@, "batch_id"@), str_param(a, "answered_by"@, "answered_by"@), ("answered_by"@, str_arg(a, "answered_by"@)));
        crate::request::lemma_concat_contains(seq![clamped_param(a, "limit"@, 20, 1, 100)] + int_param(a, "from"@, "from"@) + int_param(a, "to"@, "to"@) + bool_param(a, "ascending"@, "ascending"@) + str_param(a, "sort_by"@, "sort_by"@) + str_param(a, "start_date"@, "start_date"@) + str_param(a, "end_date"@, "end_date"@) + str_param(a, "batch_id"@, "batch_id"@) + str_param(a, "answered_by"@, "answered_by"@), bool_param(a, "inbound"@, "inbound"@), ("answered_by"@, str_arg(a, "answered_by"@)));
        crate::request::lemma_concat_contains(seq![clamped_param(a, "limit"@, 20, 1, 100)] + int_param(a, "from"@, "from"@) + int_param(a, "to"@, "to"@) + bool_param(a, "ascending"@, "ascending"@) + str_param(a, "sort_by"@, "sort_by"@) + str_param(a, "start_date"@, "start_date"@) + str_param(a, "end_date"@, "end_date"@) + str_param(a, "batch_id"@, "batch_id"@) + str_param(a, "answered_by"@, "answered_by"@) + bool_param(a, "inbound"@, "inbound"@), bool_param(a, "completed"@, "completed"@), ("answered_by"@, str_arg(a, "answered_by"@)));
        crate::request::lemma_concat_contains(seq![clamped_param(a, "limit"@, 20, 1, 100)] + int_param(a, "from"@, "from"@) + int_param(a, "to"@, "to"@) + bool_param(a, "ascending"@, "ascending"@) + str_param(a, "sort_by"@, "sort_by"@) + str_param(a, "start_date"@, "start_date"@) + str_param(a, "end_date"@, "end_date"@) + str_param(a, "batch_id"@, "batch_id"@) + str_param(a, "answered_by"@, "answered_by"@) + bool_param(a, "inbound"@, "inbound"@) + bool_param(a, "completed"@, "completed"@), str_param(a, "from_number"@, "from_number"@), ("answered_by"@, str_arg(a, "answered_by"@)));
        crate::request::lemma_concat_contains(seq![clamped_param(a, "limit"@, 20, 1, 100)] + int_param(a, "from"@, "from"@) + int_param(a, "to"@, "to"@) + bool_param(a, "ascending"@, "ascending"@) + str_param(a, "sort_by"@, "sort_by"@) + str_param(a, "start_date"@, "start_date"@) + str_param(a, "end_date"@, "end_date"@) + str_param(a, "batch_id"@, "batch_id"@) + str_param(a, "answered_by"@, "answered_by"@) + bool_param(a, "inbound"@, "inbound"@) + bool_param(a, "completed"@, "completed"@) + str_param(a, "from_number"@, "from_number"@), str_param(a, "to_number"@, "to_number"@), ("answered_by"@, str_arg(a, "answered_by"@)));
        crate::request::lemma_concat_contains(seq![clamped_param(a, "limit"@, 20, 1, 100)] + int_param(a, "from"@, "from"@) + int_param(a, "to"@, "to"@) + bool_param(a, "ascending"@, "ascending"@) + str_param(a, "sort_by"@, "sort_by"@) + str_param(a, "start_date"@, "start_date"@) + str_param(a, "end_date"@, "end_date"@) + str_param(a, "batch_id"@, "batch_id"@) + str_param(a, "answered_by"@, "answered_by"@) + bool_param(a, "inbound"@, "inbound"@) + bool_param(a, "completed"@, "completed"@) + str_param(a, "from_number"@, "from_number"@) + str_param(a, "to_number"@, "to_number"@), int_param(a, "duration_gt"@, "duration_gt"@), ("answered_by"@, str_arg(a, "answered_by"@)));
        crate::request::lemma_concat_contains(seq![clamped_param(a, "limit"@, 20, 1, 100)] + int_param(a, "from"@, "from"@) + int_param(a, "to"@, "to"@) + bool_param(a, "ascending"@, "ascending"@) + str_param(a, "sort_by"@, "sort_by"@) + str_param(a, "start_date"@, "start_date"@) + str_param(a, "end_date"@, "end_date"@) + str_param(a, "batch_id"@, "batch_id"@) + str_param(a, "answered_by"@, "answered_by"@) + bool_param(a, "inbound"@, "inbound"@) + bool_param(a, "completed"@, "completed"@) + str_param(a, "from_number"@, "from_number"@) + str_param(a, "to_number"@, "to_number"@) + int_param(a, "duration_gt"@, "duration_gt"@), int_param(a, "duration_lt"@, "duration_lt"@), ("answered_by"@, str_arg(a, "answered_by"@)));
    }
}

proof fn lemma_list_calls_has_inbound(a: Seq<ArgEntryV>)
    ensures
        bool_arg(a, "inbound"@) is Some ==> (seq![clamped_param(a, "limit"@, 20, 1, 100)] + int_param(a, "from"@, "from"@) + int_param(a, "to"@, "to"@) + bool_param(a, "ascending"@, "ascending"@) + str_param(a, "sort_by"@, "sort_by"@) + str_param(a, "start_date"@, "start_date"@) + str_param(a, "end_date"@, "end_date"@) + str_param(a, "batch_id"@, "batch_id"@) + str_param(a, "answered_by"@, "answered_by"@) + bool_param(a, "inbound"@, "inbound"@) + bool_param(a, "completed"@, "completed"@) + str_param(a, "from_number"@, "from_number"@) + str_param(a, "to_number"@, "to_number"@) + int_param(a, "duration_gt"@, "duration_gt"@) + int_param(a, "duration_lt"@, "duration_lt"@)).contains(("inbound"@, bool_text(bool_arg(a, "inbound"@)->0))),
{
    if bool_arg(a, "inbound"@) is Some {
        assert(bool_param(a, "inbound"@, "inbound"@)[0] == ("inbound"@, bool_text(bool_arg(a, "inbound"@)->0)));
        crate::request::lemma_concat_contains(seq![clamped_param(a, "limit"@, 20, 1, 100)] + int_param(a, "from"@, "from"@) + int_param(a, "to"@, "to"@) + bool_param(a, "ascending"@, "ascending"@) + str_param(a, "sort_by"@, "sort_by"@) + str_param(a, "start_date"@, "start_date"@) + str_param(a, "end_date"@, "end_date"@) + str_param(a, "batch_id"@, "batch_id"@) + str_param(a, "answered_by"@, "answered_by"@), bool_param(a, "inbound"@, "inbound"@), ("inbound"@, bool_text(bool_arg(a, "inbound"@)->0)));
        crate::request::lemma_concat_contains(seq![clamped_param(a, "limit"@, 20, 1, 100)] + int_param(a, "from"@, "from"@) + int_param(a, "to"@, "to"@) + bool_param(a, "ascending"@, "ascending"@) + str_param(a, "sort_by"@, "sort_by"@) + str_param(a, "start_date"@, "start_date"@) + str_param(a, "end_date"@, "end_date"@) + str_param(a, "batch_id"@, "batch_id"@) + str_param(a, "answered_by"@, "answered_by"@) + bool_param(a, "inbound"@, "inbound"@), bool_param(a, "completed"@, "completed"@), ("inbound"@, bool_text(bool_arg(a, "inbound"@)->0)));
        crate::request::lemma_concat_contains(seq![clamped_param(a, "limit"@, 20, 1, 100)] + int_param(a, "from"@, "from"@) + int_param(a, "to"@, "to"@) + bool_param(a, "ascending"@, "ascending"@) + str_param(a, "sort_by"@, "sort_by"@) + str_param(a, "start_date"@, "start_date"@) + str_param(a, "end_date"@, "end_date"@) + str_param(a, "batch_id"@, "batch_id"@) + str_param(a, "answered_by"@, "answered_by"@) + bool_param(a, "inbound"@, "inbound"@) + bool_param(a, "completed"@, "completed"@), str_param(a, "from_number"@, "from_number"@), ("inbound"@, bool_text(bool_arg(a, "inbound"@)->0)));
        crate::request::lemma_concat_contains(seq![clamped_param(a, "limit"@, 20, 1, 100)] + int_param(a, "from"@, "from"@) + int_param(a, "to"@, "to"@) + bool_param(a, "ascending"@, "ascending"@) + str_param(a, "sort_by"@, "sort_by"@) + str_param(a, "start_date"@, "start_date"@) + str_param(a, "end_date"@, "end_date"@) + str_param(a, "batch_id"@, "batch_id"@) + str_param(a, "answered_by"@, "answered_by"@) + bool_param(a, "inbound"@, "inbound"@) + bool_param(a, "completed"@, "completed"@) + str_param(a, "from_number"@, "from_number"@), str_param(a, "to_number"@, "to_number"@), ("inbound"@, bool_text(bool_arg(a, "inbound"@)->0)));
        crate::request::lemma_concat_contains(seq![clamped_param(a, "limit"@, 20, 1, 100)] + int_param(a, "from"@, "from"@) + int_param(a, "to"@, "to"@) + bool_param(a, "ascending"@, "ascending"@) + str_param(a, "sort_by"@, "sort_by"@) + str_param(a, "start_date"@, "start_date"@) + str_param(a, "end_date"@, "end_date"@) + str_param(a, "batch_id"@, "batch_id"@) + str_param(a, "answered_by"@, "answered_by"@) + bool_param(a, "inbound"@, "inbound"@) + bool_param(a, "completed"@, "completed"@) + str_param(a, "from_number"@, "from_number"@) + str_param(a, "to_number"@, "to_number"@), int_param(a, "duration_gt"@, "duration_gt"@), ("inbound"@, bool_text(bool_arg(a, "inbound"@)->0)));
        crate::request::lemma_concat_contains(seq![clamped_param(a, "limit"@, 20, 1, 100)] + int_param(a, "from"@, "from"@) + int_param(a, "to"@, "to"@) + bool_param(a, "ascending"@, "ascending"@) + str_param(a, "sort_by"@, "sort_by"@) + str_param(a, "start_date"@, "start_date"@) + str_param(a, "end_date"@, "end_date"@) + str_param(a, "batch_id"@, "batch_id"@) + str_param(a, "answered_by"@, "answered_by"@) + bool_param(a, "inbound"@, "inbound"@) + bool_param(a, "completed"@, "completed"@) + str_param(a, "from_number"@, "from_number"@) + str_param(a, "to_number"@, "to_number"@) + int_param(a, "duration_gt"@, "duration_gt"@), int_param(a, "duration_lt"@, "duration_lt"@), ("inbound"@, bool_text(bool_arg(a, "inbound"@)->0)));
    }
}

proof fn lemma_list_calls_has_completed(a: Seq<ArgEntryV>)
    ensures
        bool_arg(a, "completed"@) is Some ==> (seq![clamped_param(a, "limit"@, 20, 1, 100)] + int_param(a, "from"@, "from"@) + int_param(a, "to"@, "to"@) + bool_param(a, "ascending"@, "ascending"@) + str_param(a, "sort_by"@, "sort_by"@) + str_param(a, "start_date"@, "start_date"@) + str_param(a, "end_date"@, "end_date"@) + str_param(a, "batch_id"@, "batch_id"@) + str_param(a, "answered_by"@, "answered_by"@) + bool_param(a, "inbound"@, "inbound"@) + bool_param(a, "completed"@, "completed"@) + str_param(a, "from_number"@, "from_number"@) + str_param(a, "to_number"@, "to_number"@) + int_param(a, "duration_gt"@, "duration_gt"@) + int_param(a, "duration_lt"@, "duration_lt"@)).contains(("completed"@, bool_text(bool_arg(a, "completed"@)->0))),
{
    if bool_arg(a, "completed"@) is Some {
        assert(bool_param(a, "completed"@, "completed"@)[0] == ("completed"@, bool_text(bool_arg(a, "completed"@)->0)));
        crate::request::lemma_concat_contains(seq![clamped_param(a, "limit"@, 20, 1, 100)] + int_param(a, "from"@, "from"@) + int_param(a, "to"@, "to"@) + bool_param(a, "ascending"@, "ascending"@) + str_param(a, "sort_by"@, "sort_by"@) + str_param(a, "start_date"@, "start_date"@) + str_param(a, "end_date"@, "end_date"@) + str_param(a, "batch_id"@, "batch_id"@) + str_param(a, "answered_by"@, "answered_by"@) + bool_param(a, "inbound"@, "inbound"@), bool_param(a, "completed"@, "completed"@), ("completed"@, bool_text(bool_arg(a, "completed"@)->0)));
        crate::request::lemma_concat_contains(seq![clamped_param(a, "limit"@, 20, 1, 100)] + int_param(a, "from"@, "from"@) + int_param(a, "to"@, "to"@) + bool_param(a, "ascending"@, "ascending"@) + str_param(a, "sort_by"@, "sort_by"@) + str_param(a, "start_date"@, "start_date"@) + str_param(a, "end_date"@, "end_date"@) + str_param(a, "batch_id"@, "batch_id"@) + str_param(a, "answered_by"@, "answered_by"@) + bool_param(a, "inbound"@, "inbound"@) + bool_param(a, "completed"@, "completed"@), str_param(a, "from_number"@, "from_number"@), ("completed"@, bool_text(bool_arg(a, "completed"@)->0)));
        crate::request::lemma_concat_contains(seq![clamped_param(a, "limit"@, 20, 1, 100)] + int_param(a, "from"@, "from"@) + int_param(a, "to"@, "to"@) + bool_param(a, "ascending"@, "ascending"@) + str_param(a, "sort_by"@, "sort_by"@) + str_param(a, "start_date"@, "start_date"@) + str_param(a, "end_date"@, "end_date"@) + str_param(a, "batch_id"@, "batch_id"@) + str_param(a, "answered_by"@, "answered_by"@) + bool_param(a, "inbound"@, "inbound"@) + bool_param(a, "completed"@, "completed"@) + str_param(a, "from_number"@, "from_number"@), str_param(a, "to_number"@, "to_number"@), ("completed"@, bool_text(bool_arg(a, "completed"@)->0)));
        crate::request::lemma_concat_contains(seq![clamped_param(a, "limit"@, 20, 1, 100)] + int_param(a, "from"@, "from"@) + int_param(a, "to"@, "to"@) + bool_param(a, "ascending"@, "ascending"@) + str_param(a, "sort_by"@, "sort_by"@) + str_param(a, "start_date"@, "start_date"@) + str_param(a, "end_date"@, "end_date"@) + str_param(a, "batch_id"@, "batch_id"@) + str_param(a, "answered_by"@, "answered_by"@) + bool_param(a, "inbound"@, "inbound"@) + bool_param(a, "completed"@, "completed"@) + str_param(a, "from_number"@, "from_number"@) + str_param(a, "to_number"@, "to_number"@), int_param(a, "duration_gt"@, "duration_gt"@), ("completed"@, bool_text(bool_arg(a, "completed"@)->0)));
        crate::request::lemma_concat_contains(seq![clamped_param(a, "limit"@, 20, 1, 100)] + int_param(a, "from"@, "from"@) + int_param(a, "to"@, "to"@) + bool_param(a, "ascending"@, "ascending"@) + str_param(a, "sort_by"@, "sort_by"@) + str_param(a, "start_date"@, "start_date"@) + str_param(a, "end_date"@, "end_date"@) + str_param(a, "batch_id"@, "batch_id"@) + str_param(a, "answered_by"@, "answered_by"@) + bool_param(a, "inbound"@, "inbound"@) + bool_param(a, "completed"@, "completed"@) + str_param(a, "from_number"@, "from_number"@) + str_param(a, "to_number"@, "to_number"@) + int_param(a, "duration_gt"@, "duration_gt"@), int_param(a, "duration_lt"@, "duration_lt"@), ("completed"@, bool_text(bool_arg(a, "completed"@)->0)));
    }
}

proof fn lemma_list_calls_has_from_number(a: Seq<ArgEntryV>)
    ensures
        str_arg(a, "from_number"@).len() > 0 ==> (seq![clamped_param(a, "limit"@, 20, 1, 100)] + int_param(a, "from"@, "from"@) + int_param(a, "to"@, "to"@) + bool_param(a, "ascending"@, "ascending"@) + str_param(a, "sort_by"@, "sort_by"@) + str_param(a, "start_date"@, "start_date"@) + str_param(a, "end_date"@, "end_date"@) + str_param(a, "batch_id"@, "batch_id"@) + str_param(a, "answered_by"@, "answered_by"@) + bool_param(a, "inbound"@, "inbound"@) + bool_param(a, "completed"@, "completed"@) + str_param(a, "from_number"@, "from_number"@) + str_param(a, "to_number"@, "to_number"@) + int_param(a, "duration_gt"@, "duration_gt"@) + int_param(a, "duration_lt"@, "duration_lt"@)).contains(("from_number"@, str_arg(a, "from_number"@))),
{
    if str_arg(a, "from_number"@).len() > 0 {
        assert(str_param(a, "from_number"@, "from_number"@)[0] == ("from_number"@, str_arg(a, "from_number"@)));
        crate::request::lemma_concat_contains(seq![clamped_param(a, "limit"@, 20, 1, 100)] + int_param(a, "from"@, "from"@) + int_param(a, "to"@, "to"@) + bool_param(a, "ascending"@, "ascending"@) + str_param(a, "sort_by"@, "sort_by"@) + str_param(a, "start_date"@, "start_date"@) + str_param(a, "end_date"@, "end_date"@) + str_param(a, "batch_id"@, "batch_id"@) + str_param(a, "answered_by"@, "answered_by"@) + bool_param(a, "inbound"@, "inbound"@) + bool_param(a, "completed"@, "completed"@), str_param(a, "from_number"@, "from_number"@), ("from_number"@, str_arg(a, "from_number"@)));
        crate::request::lemma_concat_contains(seq![clamped_param(a, "limit"@, 20, 1, 100)] + int_param(a, "from"@, "from"@) + int_param(a, "to"@, "to"@) + bool_param(a, "ascending"@, "ascending"@) + str_param(a, "sort_by"@, "sort_by"@) + str_param(a, "start_date"@, "start_date"@) + str_param(a, "end_date"@, "end_date"@) + str_param(a, "batch_id"@, "batch_id"@) + str_param(a, "answered_by"@, "answered_by"@) + bool_param(a, "inbound"@, "inbound"@) + bool_param(a, "completed"@, "completed"@) + str_param(a, "from_number"@, "from_number"@), str_param(a, "to_number"@, "to_number"@), ("from_number"@, str_arg(a, "from_number"@)));
        crate::request::lemma_concat_contains(seq![clamped_param(a, "limit"@, 20, 1, 100)] + int_param(a, "from"@, "from"@) + int_param(a, "to"@, "to"@) + bool_param(a, "ascending"@, "ascending"@) + str_param(a, "sort_by"@, "sort_by"@) + str_param(a, "start_date"@, "start_date"@) + str_param(a, "end_date"@, "end_date"@) + str_param(a, "batch_id"@, "batch_id"@) + str_param(a, "answered_by"@, "answered_by"@) + bool_param(a, "inbound"@, "inbound"@) + bool_param(a, "completed"@, "completed"@) + str_param(a, "from_number"@, "from_number"@) + str_param(a, "to_number"@, "to_number"@), int_param(a, "duration_gt"@, "duration_gt"@), ("from_number"@, str_arg(a, "from_number"@)));
        crate::request::lemma_concat_contains(seq![clamped_param(a, "limit"@, 20, 1, 100)] + int_param(a, "from"@, "from"@) + int_param(a, "to"@, "to"@) + bool_param(a, "ascending"@, "ascending"@) + str_param(a, "sort_by"@, "sort_by"@) + str_param(a, "start_date"@, "start_date"@) + str_param(a, "end_date"@, "end_date"@) + str_param(a, "batch_id"@, "batch_id"@) + str_param(a, "answered_by"@, "answered_by"@) + bool_param(a, "inbound"@, "inbound"@) + bool_param(a, "completed"@, "completed"@) + str_param(a, "from_number"@, "from_number"@) + str_param(a, "to_number"@, "to_number"@) + int_param(a, "duration_gt"@, "duration_gt"@), int_param(a, "duration_lt"@, "duration_lt"@), ("from_number"@, str_arg(a, "from_number"@)));
    }
}

proof fn lemma_list_calls_has_to_number(a: Seq<ArgEntryV>)
    ensures
        str_arg(a, "to_number"@).len() > 0 ==> (seq![clamped_param(a, "limit"@, 20, 1, 100)] + int_param(a, "from"@, "from"@) + int_param(a, "to"@, "to"@) + bool_param(a, "ascending"@, "ascending"@) + str_param(a, "sort_by"@, "sort_by"@) + str_param(a, "start_date"@, "start_date"@) + str_param(a, "end_date"@, "end_date"@) + str_param(a, "batch_id"@, "batch_id"@) + str_param(a, "answered_by"@, "answered_by"@) + bool_param(a, "inbound"@, "inbound"@) + bool_param(a, "completed"@, "completed"@) + str_param(a, "from_number"@, "from_number"@) + str_param(a, "to_number"@, "to_number"@) + int_param(a, "duration_gt"@, "duration_gt"@) + int_param(a, "duration_lt"@, "duration_lt"@)).contains(("to_number"@, str_arg(a, "to_number"@))),
{
    if str_arg(a, "to_number"@).len() > 0 {
        assert(str_param(a, "to_number"@, "to_number"@)[0] == ("to_number"@, str_arg(a, "to_number"@)));
        crate::request::lemma_concat_contains(seq![clamped_param(a, "limit"@, 20, 1, 100)] + int_param(a, "from"@, "from"@) + int_param(a, "to"@, "to"@) + bool_param(a, "ascending"@, "ascending"@) + str_param(a, "sort_by"@, "sort_by"@) + str_param(a, "start_date"@, "start_date"@) + str_param(a, "end_date"@, "end_date"@) + str_param(a, "batch_id"@, "batch_id"@) + str_param(a, "answered_by"@, "answered_by"@) + bool_param(a, "inbound"@, "inbound"@) + bool_param(a, "completed"@, "completed"@) + str_param(a, "from_number"@, "from_number"@), str_param(a, "to_number"@, "to_number"@), ("to_number"@, str_arg(a, "to_number"@)));
        crate::request::lemma_concat_contains(seq![clamped_param(a, "limit"@, 20, 1, 100)] + int_param(a, "from"@, "from"@) + int_param(a, "to"@, "to"@) + bool_param(a, "ascending"@, "ascending"@) + str_param(a, "sort_by"@, "sort_by"@) + str_param(a, "start_date"@, "start_date"@) + str_param(a, "end_date"@, "end_date"@) + str_param(a, "batch_id"@, "batch_id"@) + str_param(a, "answered_by"@, "answered_by"@) + bool_param(a, "inbound"@, "inbound"@) + bool_param(a, "completed"@, "completed"@) + str_param(a, "from_number"@, "from_number"@) + str_param(a, "to_number"@, "to_number"@), int_param(a, "duration_gt"@, "duration_gt"@), ("to_number"@, str_arg(a, "to_number"@)));
        crate::request::lemma_concat_contains(seq![clamped_param(a, "limit"@, 20, 1, 100)] + int_param(a, "from"@, "from"@) + int_param(a, "to"@, "to"@) + bool_param(a, "ascending"@, "ascending"@) + str_param(a, "sort_by"@, "sort_by"@) + str_param(a, "start_date"@, "start_date"@) + str_param(a, "end_date"@, "end_date"@) + str_param(a, "batch_id"@, "batch_id"@) + str_param(a, "answered_by"@, "answered_by"@) + bool_param(a, "inbound"@, "inbound"@) + bool_param(a, "completed"@, "completed"@) + str_param(a, "from_number"@, "from_number"@) + str_param(a, "to_number"@, "to_number"@) + int_param(a, "duration_gt"@, "duration_gt"@), int_param(a, "duration_lt"@, "duration_lt"@), ("to_number"@, str_arg(a, "to_number"@)));
    }
}

proof fn lemma_list_calls_has_duration_gt(a: Seq<ArgEntryV>)
    ensures
        int_arg(a, "duration_gt"@) is Some ==> (seq![clamped_param(a, "limit"@, 20, 1, 100)] + int_param(a, "from"@, "from"@) + int_param(a, "to"@, "to"@) + bool_param(a, "ascending"@, "ascending"@) + str_param(a, "sort_by"@, "sort_by"@) + str_param(a, "start_date"@, "start_date"@) + str_param(a, "end_date"@, "end_date"@) + str_param(a, "batch_id"@, "batch_id"@) + str_param(a, "answered_by"@, "answered_by"@) + bool_param(a, "inbound"@, "inbound"@) + bool_param(a, "completed"@, "completed"@) + str_param(a, "from_number"@, "from_number"@) + str_param(a, "to_number"@, "to_number"@) + int_param(a, "duration_gt"@, "duration_gt"@) + int_param(a, "duration_lt"@, "duration_lt"@)).contains(("duration_gt"@, int_decimal(int_arg(a, "duration_gt"@)->0 as int))),
{
    if int_arg(a, "duration_gt"@) is Some {
        assert(int_param(a, "duration_gt"@, "duration_gt"@)[0] == ("duration_gt"@, int_decimal(int_arg(a, "duration_gt"@)->0 as int)));
        crate::request::lemma_concat_contains(seq![clamped_param(a, "limit"@, 20, 1, 100)] + int_param(a, "from"@, "from"@) + int_param(a, "to"@, "to"@) + bool_param(a, "ascending"@, "ascending"@) + str_param(a, "sort_by"@, "sort_by"@) + str_param(a, "start_date"@, "start_date"@) + str_param(a, "end_date"@, "end_date"@) + str_param(a, "batch_id"@, "batch_id"@) + str_param(a, "answered_by"@, "answered_by"@) + bool_param(a, "inbound"@, "inbound"@) + bool_param(a, "completed"@, "completed"@) + str_param(a, "from_number"@, "from_number"@) + str_param(a, "to_number"@, "to_number"@), int_param(a, "duration_gt"@, "duration_gt"@), ("duration_gt"@, int_decimal(int_arg(a, "duration_gt"@)->0 as int)));
        crate::request::lemma_concat_contains(seq![clamped_param(a, "limit"@, 20, 1, 100)] + int_param(a, "from"@, "from"@) + int_param(a, "to"@, "to"@) + bool_param(a, "ascending"@, "ascending"@) + str_param(a, "sort_by"@, "sort_by"@) + str_param(a, "start_date"@, "start_date"@) + str_param(a, "end_date"@, "end_date"@) + str_param(a, "batch_id"@, "batch_id"@) + str_param(a, "answered_by"@, "answered_by"@) + bool_param(a, "inbound"@, "inbound"@) + bool_param(a, "completed"@, "completed"@) + str_param(a, "from_number"@, "from_number"@) + str_param(a, "to_number"@, "to_number"@) + int_param(a, "duration_gt"@, "duration_gt"@), int_param(a, "duration_lt"@, "duration_lt"@), ("duration_gt"@, int_decimal(int_arg(a, "duration_gt"@)->0 as int)));
    }
}

proof fn lemma_list_calls_has_duration_lt(a: Seq<ArgEntryV>)
    ensures
        int_arg(a, "duration_lt"@) is Some ==> (seq![clamped_param(a, "limit"@, 20, 1, 100)] + int_param(a, "from"@, "from"@) + int_param(a, "to"@, "to"@) + bool_param(a, "ascending"@, "ascending"@) + str_param(a, "sort_by"@, "sort_by"@) + str_param(a, "start_date"@, "start_date"@) + str_param(a, "end_date"@, "end_date"@) + str_param(a, "batch_id"@, "batch_id"@) + str_param(a, "answered_by"@, "answered_by"@) + bool_param(a, "inbound"@, "inbound"@) + bool_param(a, "completed"@, "completed"@) + str_param(a, "from_number"@, "from_number"@) + str_param(a, "to_number"@, "to_number"@) + int_param(a, "duration_gt"@, "duration_gt"@) + int_param(a, "duration_lt"@, "duration_lt"@)).contains(("duration_lt"@, int_decimal(int_arg(a, "duration_lt"@)->0 as int))),
{
    if int_arg(a, "duration_lt"@) is Some {
        assert(int_param(a, "duration_lt"@, "duration_lt"@)[0] == ("duration_lt"@, int_decimal(int_arg(a, "duration_lt"@)->0 as int)));
        crate::request::lemma_concat_contains(seq![clamped_param(a, "limit"@, 20, 1, 100)] + int_param(a, "from"@, "from"@) + int_param(a, "to"@, "to"@) + bool_param(a, "ascending"@, "ascending"@) + str_param(a, "sort_by"@, "sort_by"@) + str_param(a, "start_date"@, "start_date"@) + str_param(a, "end_date"@, "end_date"@) + str_param(a, "batch_id"@, "batch_id"@) + str_param(a, "answered_by"@, "answered_by"@) + bool_param(a, "inbound"@, "inbound"@) + bool_param(a, "completed"@, "completed"@) + str_param(a, "from_number"@, "from_number"@) + str_param(a, "to_number"@, "to_number"@) + int_param(a, "duration_gt"@, "duration_gt"@), int_param(a, "duration_lt"@, "duration_lt"@), ("duration_lt"@, int_decimal(int_arg(a, "duration_lt"@)->0 as int)));
    }
}

proof fn lemma_list_calls_page(a: Seq<ArgEntryV>)
    ensures
        (seq![clamped_param(a, "limit"@, 20, 1, 100)] + int_param(a, "from"@, "from"@) + int_param(a, "to"@, "to"@) + bool_param(a, "ascending"@, "ascending"@) + str_param(a, "sort_by"@, "sort_by"@) + str_param(a, "start_date"@, "start_date"@) + str_param(a, "end_date"@, "end_date"@) + str_param(a, "batch_id"@, "batch_id"@) + str_param(a, "answered_by"@, "answered_by"@) + bool_param(a, "inbound"@, "inbound"@) + bool_param(a, "completed"@, "completed"@) + str_param(a, "from_number"@, "from_number"@) + str_param(a, "to_number"@, "to_number"@) + int_param(a, "duration_gt"@, "duration_gt"@) + int_param(a, "duration_lt"@, "duration_lt"@)).len() >= 1,
        (seq![clamped_param(a, "limit"@, 20, 1, 100)] + int_param(a, "from"@, "from"@) + int_param(a, "to"@, "to"@) + bool_param(a, "ascending"@, "ascending"@) + str_param(a, "sort_by"@, "sort_by"@) + str_param(a, "start_date"@, "start_date"@) + str_param(a, "end_date"@, "end_date"@) + str_param(a, "batch_id"@, "batch_id"@) + str_param(a, "answered_by"@, "answered_by"@) + bool_param(a, "inbound"@, "inbound"@) + bool_param(a, "completed"@, "completed"@) + str_param(a, "from_number"@, "from_number"@) + str_param(a, "to_number"@, "to_number"@) + int_param(a, "duration_gt"@, "duration_gt"@) + int_param(a, "duration_lt"@, "duration_lt"@))[0] == (seq![clamped_param(a, "limit"@, 20, 1, 100)])[0],
{
    assert((seq![clamped_param(a, "limit"@, 20, 1, 100)] + int_param(a, "from"@, "from"@))[0] == (seq![clamped_param(a, "limit"@, 20, 1, 100)])[0]);
    assert((seq![clamped_param(a, "limit"@, 20, 1, 100)] + int_param(a, "from"@, "from"@) + int_param(a, "to"@, "to"@))[0] == (seq![clamped_param(a, "limit"@, 20, 1, 100)])[0]);
    assert((seq![clamped_param(a, "limit"@, 20, 1, 100)] + int_param(a, "from"@, "from"@) + int_param(a, "to"@, "to"@) + bool_param(a, "ascending"@, "ascending"@))[0] == (seq![clamped_param(a, "limit"@, 20, 1, 100)])[0]);
    assert((seq![clamped_param(a, "limit"@, 20, 1, 100)] + int_param(a, "from"@, "from"@) + int_param(a, "to"@, "to"@) + bool_param(a, "ascending"@, "ascending"@) + str_param(a, "sort_by"@, "sort_by"@))[0] == (seq![clamped_param(a, "limit"@, 20, 1, 100)])[0]);
    assert((seq![clamped_param(a, "limit"@, 20, 1, 100)] + int_param(a, "from"@, "from"@) + int_param(a, "to"@, "to"@) + bool_param(a, "ascending"@, "ascending"@) + str_param(a, "sort_by"@, "sort_by"@) + str_param(a, "start_date"@, "start_date"@))[0] == (seq![clamped_param(a, "limit"@, 20, 1, 100)])[0]);
    assert((seq![clamped_param(a, "limit"@, 20, 1, 100)] + int_param(a, "from"@, "from"@) + int_param(a, "to"@, "to"@) + bool_param(a, "ascending"@, "ascending"@) + str_param(a, "sort_by"@, "sort_by"@) + str_param(a, "start_date"@, "start_date"@) + str_param(a, "end_date"@, "end_date"@))[0] == (seq![clamped_param(a, "limit"@, 20, 1, 100)])[0]);
    assert((seq![clamped_param(a, "limit"@, 20, 1, 100)] + int_param(a, "from"@, "from"@) + int_param(a, "to"@, "to"@) + bool_param(a, "ascending"@, "ascending"@) + str_param(a, "sort_by"@, "sort_by"@) + str_param(a, "start_date"@, "start_date"@) + str_param(a, "end_date"@, "end_date"@) + str_param(a, "batch_id"@, "batch_id"@))[0] == (seq![clamped_param(a, "limit"@, 20, 1, 100)])[0]);
    assert((seq![clamped_param(a, "limit"@, 20, 1, 100)] + int_param(a, "from"@, "from"@) + int_param(a, "to"@, "to"@) + bool_param(a, "ascending"@, "ascending"@) + str_param(a, "sort_by"@, "sort_by"@) + str_param(a, "start_date"@, "start_date"@) + str_param(a, "end_date"@, "end_date"@) + str_param(a, "batch_id"@, "batch_id"@) + str_param(a, "answered_by"@, "answered_by"@))[0] == (seq![clamped_param(a, "limit"@, 20, 1, 100)])[0]);
    assert((seq![clamped_param(a, "limit"@, 20, 1, 100)] + int_param(a, "from"@, "from"@) + int_param(a, "to"@, "to"@) + bool_param(a, "ascending"@, "ascending"@) + str_param(a, "sort_by"@, "sort_by"@) + str_param(a, "start_date"@, "start_date"@) + str_param(a, "end_date"@, "end_date"@) + str_param(a, "batch_id"@, "batch_id"@) + str_param(a, "answered_by"@, "answered_by"@) + bool_param(a, "inbound"@, "inbound"@))[0] == (seq![clamped_param(a, "limit"@, 20, 1, 100)])[0]);
    assert((seq![clamped_param(a, "limit"@, 20, 1, 100)] + int_param(a, "from"@, "from"@) + int_param(a, "to"@, "to"@) + bool_param(a, "ascending"@, "ascending"@) + str_param(a, "sort_by"@, "sort_by"@) + str_param(a, "start_date"@, "start_date"@) + str_param(a, "end_date"@, "end_date"@) + str_param(a, "batch_id"@, "batch_id"@) + str_param(a, "answered_by"@, "answered_by"@) + bool_param(a, "inbound"@, "inbound"@) + bool_param(a, "completed"@, "completed"@))[0] == (seq![clamped_param(a, "limit"@, 20, 1, 100)])[0]);
    assert((seq![clamped_param(a, "limit"@, 20, 1, 100)] + int_param(a, "from"@, "from"@) + int_param(a, "to"@, "to"@) + bool_param(a, "ascending"@, "ascending"@) + str_param(a, "sort_by"@, "sort_by"@) + str_param(a, "start_date"@, "start_date"@) + str_param(a, "end_date"@, "end_date"@) + str_param(a, "batch_id"@, "batch_id"@) + str_param(a, "answered_by"@, "answered_by"@) + bool_param(a, "inbound"@, "inbound"@) + bool_param(a, "completed"@, "completed"@) + str_param(a, "from_number"@, "from_number"@))[0] == (seq![clamped_param(a, "limit"@, 20, 1, 100)])[0]);
    assert((seq![clamped_param(a, "limit"@, 20, 1, 100)] + int_param(a, "from"@, "from"@) + int_param(a, "to"@, "to"@) + bool_param(a, "ascending"@, "ascending"@) + str_param(a, "sort_by"@, "sort_by"@) + str_param(a, "start_date"@, "start_date"@) + str_param(a, "end_date"@, "end_date"@) + str_param(a, "batch_id"@, "batch_id"@) + str_param(a, "answered_by"@, "answered_by"@) + bool_param(a, "inbound"@, "inbound"@) + bool_param(a, "completed"@, "completed"@) + str_param(a, "from_number"@, "from_number"@) + str_param(a, "to_number"@, "to_number"@))[0] == (seq![clamped_param(a, "limit"@, 20, 1, 100)])[0]);
    assert((seq![clamped_param(a, "limit"@, 20, 1, 100)] + int_param(a, "from"@, "from"@) + int_param(a, "to"@, "to"@) + bool_param(a, "ascending"@, "ascending"@) + str_param(a, "sort_by"@, "sort_by"@) + str_param(a, "start_date"@, "start_date"@) + str_param(a, "end_date"@, "end_date"@) + str_param(a, "batch_id"@, "batch_id"@) + str_param(a, "answered_by"@, "answered_by"@) + bool_param(a, "inbound"@, "inbound"@) + bool_param(a, "completed"@, "completed"@) + str_param(a, "from_number"@, "from_number"@) + str_param(a, "to_number"@, "to_number"@) + int_param(a, "duration_gt"@, "duration_gt"@))[0] == (seq![clamped_param(a, "limit"@, 20, 1, 100)])[0]);
    assert((seq![clamped_param(a, "limit"@, 20, 1, 100)] + int_param(a, "from"@, "from"@) + int_param(a, "to"@, "to"@) + bool_param(a, "ascending"@, "ascending"@) + str_param(a, "sort_by"@, "sort_by"@) + str_param(a, "start_date"@, "start_date"@) + str_param(a, "end_date"@, "end_date"@) + str_param(a, "batch_id"@, "batch_id"@) + str_param(a, "answered_by"@, "answered_by"@) + bool_param(a, "inbound"@, "inbound"@) + bool_param(a, "completed"@, "completed"@) + str_param(a, "from_number"@, "from_number"@) + str_param(a, "to_number"@, "to_number"@) + int_param(a, "duration_gt"@, "duration_gt"@) + int_param(a, "duration_lt"@, "duration_lt"@))[0] == (seq![clamped_param(a, "limit"@, 20, 1, 100)])[0]);
}

/// `list_calls` asks `GET` for its path with a query string whose pairs are
/// those [`list_calls_query_holds`] describes.
pub proof fn lemma_list_calls_query(a: Seq<ArgEntryV>)
    ensures
        list_calls_plan(a) matches Ok(q) ==> {
            &&& q.method == Method::Get
            &&& q.body is None
            &&& exists|ps: Seq<(Seq<char>, Seq<char>)>|
                #![trigger crate::request::query_string(ps)]
                q.path == "/calls"@ + "?"@ + crate::request::query_string(ps) && list_calls_query_holds(a, ps)
        },
{
    lemma_list_calls_page(a);
    lemma_list_calls_has_from(a);
    lemma_list_calls_has_to(a);
    lemma_list_calls_has_ascending(a);
    lemma_list_calls_has_sort_by(a);
    lemma_list_calls_has_start_date(a);
    lemma_list_calls_has_end_date(a);
    lemma_list_calls_has_batch_id(a);
    lemma_list_calls_has_answered_by(a);
    lemma_list_calls_has_inbound(a);
    lemma_list_calls_has_completed(a);
    lemma_list_calls_has_from_number(a);
    lemma_list_calls_has_to_number(a);
    lemma_list_calls_has_duration_gt(a);
    lemma_list_calls_has_duration_lt(a);
    let ps = seq![clamped_param(a, "limit"@, 20, 1, 100)] + int_param(a, "from"@, "from"@) + int_param(a, "to"@, "to"@) + bool_param(a, "ascending"@, "ascending"@) + str_param(a, "sort_by"@, "sort_by"@) + str_param(a, "start_date"@, "start_date"@) + str_param(a, "end_date"@, "end_date"@) + str_param(a, "batch_id"@, "batch_id"@) + str_param(a, "answered_by"@, "answered_by"@) + bool_param(a, "inbound"@, "inbound"@) + bool_param(a, "completed"@, "completed"@) + str_param(a, "from_number"@, "from_number"@) + str_param(a, "to_number"@, "to_number"@) + int_param(a, "duration_gt"@, "duration_gt"@) + int_param(a, "duration_lt"@, "duration_lt"@);
    assert(list_calls_query_holds(a, ps));
    assert(ps.len() > 0);
    assert(with_query("/calls"@, ps) == "/calls"@ + "?"@ + crate::request::query_string(ps));
}

/// The query pairs of `list_knowledge_bases`: the page first (1 by default, at least 1), the limit second (20 by default, kept within 1..=100), and the status when given.
pub open spec fn list_knowledge_bases_query_holds(a: Seq<ArgEntryV>, ps: Seq<(Seq<char>, Seq<char>)>) -> bool {
    &&& ps.len() >= 2
    &&& ps[0] == ("page"@, int_decimal((if (if int_arg(a, "page"@) is Some { int_arg(a, "page"@)->0 as int } else { 1 }) < 1 { 1 } else if (if int_arg(a, "page"@) is Some { int_arg(a, "page"@)->0 as int } else { 1 }) > i64::MAX as int { i64::MAX as int } else { (if int_arg(a, "page"@) is Some { int_arg(a, "page"@)->0 as int } else { 1 }) })))
    &&& ps[1] == ("limit"@, int_decimal((if (if int_arg(a, "limit"@) is Some { int_arg(a, "limit"@)->0 as int } else { 20 }) < 1 { 1 } else if (if int_arg(a, "limit"@) is Some { int_arg(a, "limit"@)->0 as int } else { 20 }) > 100 { 100 } else { (if int_arg(a, "limit"@) is Some { int_arg(a, "limit"@)->0 as int } else { 20 }) })))
    &&& (str_arg(a, "status"@).len() > 0 ==> ps.contains(("status"@, str_arg(a, "status"@))))
}

proof fn lemma_list_knowledge_bases_has_status(a: Seq<ArgEntryV>)
    ensures
        str_arg(a, "status"@).len() > 0 ==> (seq![clamped_param(a, "page"@, 1, 1, i64::MAX as int), clamped_param(a, "limit"@, 20, 1, 100)] + str_param(a, "status"@, "status"@)).contains(("status"@, str_arg(a, "status"@))),
{
    if str_arg(a, "status"@).len() > 0 {
        assert(str_param(a, "status"@, "status"@)[0] == ("status"@, str_arg(a, "status"@)));
        crate::request::lemma_concat_contains(seq![clamped_param(a, "page"@, 1, 1, i64::MAX as int), clamped_param(a, "limit"@, 20, 1, 100)], str_param(a, "status"@, "status"@), ("status"@, str_arg(a, "status"@)));
    }
}

proof fn lemma_list_knowledge_bases_page(a: Seq<ArgEntryV>)
    ensures
        (seq![clamped_param(a, "page"@, 1, 1, i64::MAX as int), clamped_param(a, "limit"@, 20, 1, 100)] + str_param(a, "status"@, "status"@)).len() >= 2,
        (seq![clamped_param(a, "page"@, 1, 1, i64::MAX as int), clamped_param(a, "limit"@, 20, 1, 100)] + str_param(a, "status"@, "status"@))[0] == (seq![clamped_param(a, "page"@, 1, 1, i64::MAX as int), clamped_param(a, "limit"@, 20, 1, 100)])[0],
        (seq![clamped_param(a, "page"@, 1, 1, i64::MAX as int), clamped_param(a, "limit"@, 20, 1, 100)] + str_param(a, "status"@, "status"@))[1] == (seq![clamped_param(a, "page"@, 1, 1, i64::MAX as int), clamped_param(a, "limit"@, 20, 1, 100)])[1],
{
    assert((seq![clamped_param(a, "page"@, 1, 1, i64::MAX as int), clamped_param(a, "limit"@, 20, 1, 100)] + str_param(a, "status"@, "status"@))[0] == (seq![clamped_param(a, "page"@, 1, 1, i64::MAX as int), clamped_param(a, "limit"@, 20, 1, 100)])[0]);
    assert((seq![clamped_param(a, "page"@, 1, 1, i64::MAX as int), clamped_param(a, "limit"@, 20, 1, 100)] + str_param(a, "status"@, "status"@))[1] == (seq![clamped_param(a, "page"@, 1, 1, i64::MAX as int), clamped_param(a, "limit"@, 20, 1, 100)])[1]);
}

/// `list_knowledge_bases` asks `GET` for its path with a query string whose pairs are
/// those [`list_knowledge_bases_query_holds`] describes.
pub proof fn lemma_list_knowledge_bases_query(a: Seq<ArgEntryV>)
    ensures
        list_knowledge_bases_plan(a) matches Ok(q) ==> {
            &&& q.method == Method::Get
            &&& q.body is None
            &&& exists|ps: Seq<(Seq<char>, Seq<char>)>|
                #![trigger crate::request::query_string(ps)]
                q.path == "/knowledge"@ + "?"@ + crate::request::query_string(ps) && list_knowledge_bases_query_holds(a, ps)
        },
{
    lemma_list_knowledge_bases_page(a);
    lemma_list_knowledge_bases_has_status(a);
    let ps = seq![clamped_param(a, "page"@, 1, 1, i64::MAX as int), clamped_param(a, "limit"@, 20, 1, 100)] + str_param(a, "status"@, "status"@);
    assert(list_knowledge_bases_query_holds(a, ps));
    assert(ps.len() > 0);
    assert(with_query("/knowledge"@, ps) == "/knowledge"@ + "?"@ + crate::request::query_string(ps));
}

/// The query pairs of `list_audit_logs`: the page first (1 by default, at least 1), the page size second (50 by default, kept within 1..=100), and each filter that is given.
pub open spec fn list_audit_logs_query_holds(a: Seq<ArgEntryV>, ps: Seq<(Seq<char>, Seq<char>)>) -> bool {
    &&& ps.len() >= 2
    &&& ps[0] == ("page"@, int_decimal((if (if int_arg(a, "page"@) is Some { int_arg(a, "page"@)->0 as int } else { 1 }) < 1 { 1 } else if (if int_arg(a, "page"@) is Some { int_arg(a, "page"@)->0 as int } else { 1 }) > i64::MAX as int { i64::MAX as int } else { (if int_arg(a, "page"@) is Some { int_arg(a, "page"@)->0 as int } else { 1 }) })))
    &&& ps[1] == ("page_size"@, int_decimal((if (if int_arg(a, "page_size"@) is Some { int_arg(a, "page_size"@)->0 as int } else { 50 }) < 1 { 1 } else if (if int_arg(a, "page_size"@) is Some { int_arg(a, "page_size"@)->0 as int } else { 50 }) > 100 { 100 } else { (if int_arg(a, "page_size"@) is Some { int_arg(a, "page_size"@)->0 as int } else { 50 }) })))
    &&& (str_arg(a, "event_type"@).len() > 0 ==> ps.contains(("event_type"@, str_arg(a, "event_type"@))))
    &&& (str_arg(a, "actor_id"@).len() > 0 ==> ps.contains(("actor_id"@, str_arg(a, "actor_id"@))))
    &&& (str_arg(a, "created_after"@).len() > 0 ==> ps.contains(("created_after"@, str_arg(a, "created_after"@))))
    &&& (str_arg(a, "created_before"@).len() > 0 ==> ps.contains(("created_before"@, str_arg(a, "created_before"@))))
}

proof fn lemma_list_audit_logs_has_event_type(a: Seq<ArgEntryV>)
    ensures
        str_arg(a, "event_type"@).len() > 0 ==> (seq![clamped_param(a, "page"@, 1, 1, i64::MAX as int), clamped_param(a, "page_size"@, 50, 1, 100)] + str_param(a, "event_type"@, "event_type"@) + str_param(a, "actor_id"@, "actor_id"@) + str_param(a, "created_after"@, "created_after"@) + str_param(a, "created_before"@, "created_before"@)).contains(("event_type"@, str_arg(a, "event_type"@))),
{
    if str_arg(a, "event_type"@).len() > 0 {
        assert(str_param(a, "event_type"@, "event_type"@)[0] == ("event_type"@, str_arg(a, "event_type"@)));
        crate::request::lemma_concat_contains(seq![clamped_param(a, "page"@, 1, 1, i64::MAX as int), clamped_param(a, "page_size"@, 50, 1, 100)], str_param(a, "event_type"@, "event_type"@), ("event_type"@, str_arg(a, "event_type"@)));
        crate::request::lemma_concat_contains(seq![clamped_param(a, "page"@, 1, 1, i64::MAX as int), clamped_param(a, "page_size"@, 50, 1, 100)] + str_param(a, "event_type"@, "event_type"@), str_param(a, "actor_id"@, "actor_id"@), ("event_type"@, str_arg(a, "event_type"@)));
        crate::request::lemma_concat_contains(seq![clamped_param(a, "page"@, 1, 1, i64::MAX as int), clamped_param(a, "page_size"@, 50, 1, 100)] + str_param(a, "event_type"@, "event_type"@) + str_param(a, "actor_id"@, "actor_id"@), str_param(a, "created_after"@, "created_after"@), ("event_type"@, str_arg(a, "event_type"@)));
        crate::request::lemma_concat_contains(seq![clamped_param(a, "page"@, 1, 1, i64::MAX as int), clamped_param(a, "page_size"@, 50, 1, 100)] + str_param(a, "event_type"@, "event_type"@) + str_param(a, "actor_id"@, "actor_id"@) + str_param(a, "created_after"@, "created_after"@), str_param(a, "created_before"@, "created_before"@), ("event_type"@, str_arg(a, "event_type"@)));
    }
}

proof fn lemma_list_audit_logs_has_actor_id(a: Seq<ArgEntryV>)
    ensures
        str_arg(a, "actor_id"@).len() > 0 ==> (seq![clamped_param(a, "page"@, 1, 1, i64::MAX as int), clamped_param(a, "page_size"@, 50, 1, 100)] + str_param(a, "event_type"@, "event_type"@) + str_param(a, "actor_id"@, "actor_id"@) + str_param(a, "created_after"@, "created_after"@) + str_param(a, "created_before"@, "created_before"@)).contains(("actor_id"@, str_arg(a, "actor_id"@))),
{
    if str_arg(a, "actor_id"@).len() > 0 {
        assert(str_param(a, "actor_id"@, "actor_id"@)[0] == ("actor_id"@, str_arg(a, "actor_id"@)));
        crate::request::lemma_concat_contains(seq![clamped_param(a, "page"@, 1, 1, i64::MAX as int), clamped_param(a, "page_size"@, 50, 1, 100)] + str_param(a, "event_type"@, "event_type"@), str_param(a, "actor_id"@, "actor_id"@), ("actor_id"@, str_arg(a, "actor_id"@)));
        crate::request::lemma_concat_contains(seq![clamped_param(a, "page"@, 1, 1, i64::MAX as int), clamped_param(a, "page_size"@, 50, 1, 100)] + str_param(a, "event_type"@, "event_type"@) + str_param(a, "actor_id"@, "actor_id"@), str_param(a, "created_after"@, "created_after"@), ("actor_id"@, str_arg(a, "actor_id"@)));
        crate::request::lemma_concat_contains(seq![clamped_param(a, "page"@, 1, 1, i64::MAX as int), clamped_param(a, "page_size"@, 50, 1, 100)] + str_param(a, "event_type"@, "event_type"@) + str_param(a, "actor_id"@, "actor_id"@) + str_param(a, "created_after"@, "created_after"@), str_param(a, "created_before"@, "created_before"@), ("actor_id"@, str_arg(a, "actor_id"@)));
    }
}

proof fn lemma_list_audit_logs_has_created_after(a: Seq<ArgEntryV>)
    ensures
        str_arg(a, "created_after"@).len() > 0 ==> (seq![clamped_param(a, "page"@, 1, 1, i64::MAX as int), clamped_param(a, "page_size"@, 50, 1, 100)] + str_param(a, "event_type"@, "event_type"@) + str_param(a, "actor_id"@, "actor_id"@) + str_param(a, "created_after"@, "created_after"@) + str_param(a, "created_before"@, "created_before"@)).contains(("created_after"@, str_arg(a, "created_after"@))),
{
    if str_arg(a, "created_after"@).len() > 0 {
        assert(str_param(a, "created_after"@, "created_after"@)[0] == ("created_after"@, str_arg(a, "created_after"@)));
        crate::request::lemma_concat_contains(seq![clamped_param(a, "page"@, 1, 1, i64::MAX as int), clamped_param(a, "page_size"@, 50, 1, 100)] + str_param(a, "event_type"@, "event_type"@) + str_param(a, "actor_id"@, "actor_id"@), str_param(a, "created_after"@, "created_after"@), ("created_after"@, str_arg(a, "created_after"@)));
        crate::request::lemma_concat_contains(seq![clamped_param(a, "page"@, 1, 1, i64::MAX as int), clamped_param(a, "page_size"@, 50, 1, 100)] + str_param(a, "event_type"@, "event_type"@) + str_param(a, "actor_id"@, "actor_id"@) + str_param(a, "created_after"@, "created_after"@), str_param(a, "created_before"@, "created_before"@), ("created_after"@, str_arg(a, "created_after"@)));
    }
}

proof fn lemma_list_audit_logs_has_created_before(a: Seq<ArgEntryV>)
    ensures
        str_arg(a, "created_before"@).len() > 0 ==> (seq![clamped_param(a, "page"@, 1, 1, i64::MAX as int), clamped_param(a, "page_size"@, 50, 1, 100)] + str_param(a, "event_type"@, "event_type"@) + str_param(a, "actor_id"@, "actor_id"@) + str_param(a, "created_after"@, "created_after"@) + str_param(a, "created_before"@, "created_before"@)).contains(("created_before"@, str_arg(a, "created_before"@))),
{
    if str_arg(a, "created_before"@).len() > 0 {
        assert(str_param(a, "created_before"@, "created_before"@)[0] == ("created_before"@, str_arg(a, "created_before"@)));
        crate::request::lemma_concat_contains(seq![clamped_param(a, "page"@, 1, 1, i64::MAX as int), clamped_param(a, "page_size"@, 50, 1, 100)] + str_param(a, "event_type"@, "event_type"@) + str_param(a, "actor_id"@, "actor_id"@) + str_param(a, "created_after"@, "created_after"@), str_param(a, "created_before"@, "created_before"@), ("created_before"@, str_arg(a, "created_before"@)));
    }
}

proof fn lemma_list_audit_logs_page(a: Seq<ArgEntryV>)
    ensures
        (seq![clamped_param(a, "page"@, 1, 1, i64::MAX as int), clamped_param(a, "page_size"@, 50, 1, 100)] + str_param(a, "event_type"@, "event_type"@) + str_param(a, "actor_id"@, "actor_id"@) + str_param(a, "created_after"@, "created_after"@) + str_param(a, "created_before"@, "created_before"@)).len() >= 2,
        (seq![clamped_param(a, "page"@, 1, 1, i64::MAX as int), clamped_param(a, "page_size"@, 50, 1, 100)] + str_param(a, "event_type"@, "event_type"@) + str_param(a, "actor_id"@, "actor_id"@) + str_param(a, "created_after"@, "created_after"@) + str_param(a, "created_before"@, "created_before"@))[0] == (seq![clamped_param(a, "page"@, 1, 1, i64::MAX as int), clamped_param(a, "page_size"@, 50, 1, 100)])[0],
        (seq![clamped_param(a, "page"@, 1, 1, i64::MAX as int), clamped_param(a, "page_size"@, 50, 1, 100)] + str_param(a, "event_type"@, "event_type"@) + str_param(a, "actor_id"@, "actor_id"@) + str_param(a, "created_after"@, "created_after"@) + str_param(a, "created_before"@, "created_before"@))[1] == (seq![clamped_param(a, "page"@, 1, 1, i64::MAX as int), clamped_param(a, "page_size"@, 50, 1, 100)])[1],
{
    assert((seq![clamped_param(a, "page"@, 1, 1, i64::MAX as int), clamped_param(a, "page_size"@, 50, 1, 100)] + str_param(a, "event_type"@, "event_type"@))[0] == (seq![clamped_param(a, "page"@, 1, 1, i64::MAX as int), clamped_param(a, "page_size"@, 50, 1, 100)])[0]);
    assert((seq![clamped_param(a, "page"@, 1, 1, i64::MAX as int), clamped_param(a, "page_size"@, 50, 1, 100)] + str_param(a, "event_type"@, "event_type"@))[1] == (seq![clamped_param(a, "page"@, 1, 1, i64::MAX as int), clamped_param(a, "page_size"@, 50, 1, 100)])[1]);
    assert((seq![clamped_param(a, "page"@, 1, 1, i64::MAX as int), clamped_param(a, "page_size"@, 50, 1, 100)] + str_param(a, "event_type"@, "event_type"@) + str_param(a, "actor_id"@, "actor_id"@))[0] == (seq![clamped_param(a, "page"@, 1, 1, i64::MAX as int), clamped_param(a, "page_size"@, 50, 1, 100)])[0]);
    assert((seq![clamped_param(a, "page"@, 1, 1, i64::MAX as int), clamped_param(a, "page_size"@, 50, 1, 100)] + str_param(a, "event_type"@, "event_type"@) + str_param(a, "actor_id"@, "actor_id"@))[1] == (seq![clamped_param(a, "page"@, 1, 1, i64::MAX as int), clamped_param(a, "page_size"@, 50, 1, 100)])[1]);
    assert((seq![clamped_param(a, "page"@, 1, 1, i64::MAX as int), clamped_param(a, "page_size"@, 50, 1, 100)] + str_param(a, "event_type"@, "event_type"@) + str_param(a, "actor_id"@, "actor_id"@) + str_param(a, "created_after"@, "created_after"@))[0] == (seq![clamped_param(a, "page"@, 1, 1, i64::MAX as int), clamped_param(a, "page_size"@, 50, 1, 100)])[0]);
    assert((seq![clamped_param(a, "page"@, 1, 1, i64::MAX as int), clamped_param(a, "page_size"@, 50, 1, 100)] + str_param(a, "event_type"@, "event_type"@) + str_param(a, "actor_id"@, "actor_id"@) + str_param(a, "created_after"@, "created_after"@))[1] == (seq![clamped_param(a, "page"@, 1, 1, i64::MAX as int), clamped_param(a, "page_size"@, 50, 1, 100)])[1]);
    assert((seq![clamped_param(a, "page"@, 1, 1, i64::MAX as int), clamped_param(a, "page_size"@, 50, 1, 100)] + str_param(a, "event_type"@, "event_type"@) + str_param(a, "actor_id"@, "actor_id"@) + str_param(a, "created_after"@, "created_after"@) + str_param(a, "created_before"@, "created_before"@))[0] == (seq![clamped_param(a, "page"@, 1, 1, i64::MAX as int), clamped_param(a, "page_size"@, 50, 1, 100)])[0]);
    assert((seq![clamped_param(a, "page"@, 1, 1, i64::MAX as int), clamped_param(a, "page_size"@, 50, 1, 100)] + str_param(a, "event_type"@, "event_type"@) + str_param(a, "actor_id"@, "actor_id"@) + str_param(a, "created_after"@, "created_after"@) + str_param(a, "created_before"@, "created_before"@))[1] == (seq![clamped_param(a, "page"@, 1, 1, i64::MAX as int), clamped_param(a, "page_size"@, 50, 1, 100)])[1]);
}

/// `list_audit_logs` asks `GET` for its path with a query string whose pairs are
/// those [`list_audit_logs_query_holds`] describes.
pub proof fn lemma_list_audit_logs_query(a: Seq<ArgEntryV>)
    ensures
        list_audit_logs_plan(a) matches Ok(q) ==> {
            &&& q.method == Method::Get
            &&& q.body is None
            &&& exists|ps: Seq<(Seq<char>, Seq<char>)>|
                #![trigger crate::request::query_string(ps)]
                q.path == "/audit/logs"@ + "?"@ + crate::request::query_string(ps) && list_audit_logs_query_holds(a, ps)
        },
{
    lemma_list_audit_logs_page(a);
    lemma_list_audit_logs_has_event_type(a);
    lemma_list_audit_logs_has_actor_id(a);
    lemma_list_audit_logs_has_created_after(a);
    lemma_list_audit_logs_has_created_before(a);
    let ps = seq![clamped_param(a, "page"@, 1, 1, i64::MAX as int), clamped_param(a, "page_size"@, 50, 1, 100)] + str_param(a, "event_type"@, "event_type"@) + str_param(a, "actor_id"@, "actor_id"@) + str_param(a, "created_after"@, "created_after"@) + str_param(a, "created_before"@, "created_before"@);
    assert(list_audit_logs_query_holds(a, ps));
    assert(ps.len() > 0);
    assert(with_query("/audit/logs"@, ps) == "/audit/logs"@ + "?"@ + crate::request::query_string(ps));
}


/// Updating an organization's properties needs the organization, and patches
/// `/orgs/{org_id}/properties` with `{"updates": U}`, where `U` holds the
/// display name when given, and the preferences: the JSON given for them, or
/// else an object of the URL switch and recording lifespan given. It is
/// refused when there is nothing to update.
pub proof fn lemma_update_org_properties_body(a: Seq<ArgEntryV>)
    ensures
        update_org_properties_plan(a) is Ok ==> str_arg(a, "org_id"@).len() > 0,
        update_org_properties_plan(a) matches Ok(q) ==> q.method == Method::Patch && q.path == "/orgs/"@ + escaped(
            str_arg(a, "org_id"@),
        ) + "/properties"@ && (q.body matches Some(FieldV::Object(b)) && b.dom() == set!["updates"@] && (b["updates"@] matches FieldV::Object(u) && {
            &&& copies_text(u, a, "org_display_name"@)
            &&& (json_field(a, "preferences"@) matches Ok(Some(v)) ==> u["preferences"@] == v)
            &&& (json_field(a, "preferences"@) == Ok::<Option<FieldV>, Seq<char>>(None) && (bool_arg(a, "use_bland_url"@) is Some
                || int_arg(a, "recording_lifespan_days"@) is Some) ==> (u["preferences"@] matches FieldV::Object(p) && copies_flag(
                p,
                a,
                "use_bland_url"@,
            ) && copies_int(p, a, "recording_lifespan_days"@)))
            &&& u.dom().len() > 0
        })),
        str_arg(a, "org_id"@).len() > 0 && str_arg(a, "org_display_name"@).len() == 0 && bool_arg(a, "use_bland_url"@) is None
            && int_arg(a, "recording_lifespan_days"@) is None && json_field(a, "preferences"@) == Ok::<Option<FieldV>, Seq<char>>(None)
            ==> update_org_properties_plan(a) == Err::<RequestV, Seq<char>>("at least one update field is required"@),
        str_arg(a, "org_id"@).len() > 0 && str_arg(a, "org_display_name"@).len() > 0 && raw_arg(a, "preferences"@) is None
            ==> update_org_properties_plan(a) is Ok,
        list_numbers_plan(a) == Ok::<RequestV, Seq<char>>(bare(Method::Get, if str_arg(a, "encrypted_key"@).len() > 0 {
            "/inbound"@ + "?"@ + escaped("encrypted_key"@) + "="@ + escaped(str_arg(a, "encrypted_key"@))
        } else {
            "/inbound"@
        })),
{
    reveal_strlit("org_display_name");
    assert("org_display_name"@.len() == 16);
    reveal_strlit("preferences");
    assert("preferences"@.len() == 11);
    reveal_strlit("use_bland_url");
    assert("use_bland_url"@.len() == 13);
    reveal_strlit("recording_lifespan_days");
    assert("recording_lifespan_days"@.len() == 23);
    reveal_strlit("updates");
    assert("updates"@.len() == 7);
    let u0 = put_opt(Map::empty(), "org_display_name"@, crate::request::str_field(a, "org_display_name"@));
    let p = preference_fields(a);
    if !(p =~= Map::<Seq<char>, FieldV>::empty()) {
        assert(p.dom().len() > 0) by {
            let k = choose|k: Seq<char>| p.dom().contains(k);
            assert(p.dom().contains(k));
        }
    }
    if str_arg(a, "org_display_name"@).len() > 0 {
        assert(u0.dom().contains("org_display_name"@));
    }
    let ps = str_param(a, "encrypted_key"@, "encrypted_key"@);
    if ps.len() > 0 {
        assert(crate::request::query_string(ps) == crate::request::query_pair(ps[0]));
        assert("/inbound"@ + "?"@ + crate::request::query_pair(ps[0]) =~= "/inbound"@ + "?"@ + escaped("encrypted_key"@) + "="@
            + escaped(str_arg(a, "encrypted_key"@)));
    }
}

} // verus!
