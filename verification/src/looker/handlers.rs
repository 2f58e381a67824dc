//! The Looker tools: each turns its arguments into the API requests it makes,
//! or into the error it reports without making one.
use vstd::prelude::*;

use crate::args::{
    arg_bool, arg_int, arg_raw, arg_str, bool_arg, int_arg, raw_arg, str_arg, required, ArgEntryV, Args,
    RawValue,
};
use crate::encoding::{encode_component, escaped};
use crate::json::{json_str_member, read_json, serde_json_read, str_member, JsonKind};
use crate::request::{
    bare, fields_view, id_plan, id_request, plan_view, put, request, request_with, with_body,
    ApiRequest, Field, FieldV, Method, RequestV,
};
use crate::text::{
    chars_of, csv_items, i64_to_string, int_decimal, owned, push_str, split, split_bounds,
    split_csv, string_of_range, trim, trim_bounds,
};

verus! {

/// What a Looker tool does.
#[derive(Debug, PartialEq)]
pub enum Plan {
    /// One API request; the tool reports its reply.
    Call(ApiRequest),
    /// Searches: a `GET` of each path, in order; the tool reports an object
    /// holding each reply under its key, or the first error.
    Search(Vec<(String, String)>),
    /// Registers a SQL Runner query with this request, then runs the query
    /// named by the `slug` of the reply (see [`sql_run_request`]).
    SqlRunner(ApiRequest),
}

pub enum PlanV {
    Call(RequestV),
    Search(Seq<(Seq<char>, Seq<char>)>),
    SqlRunner(RequestV),
}

impl Plan {
    pub open spec fn view(&self) -> PlanV {
        match self {
            Plan::Call(q) => PlanV::Call(q.view()),
            Plan::Search(v) => PlanV::Search(crate::request::pairs_view(v@)),
            Plan::SqlRunner(q) => PlanV::SqlRunner(q.view()),
        }
    }
}

/// The view of a tool's outcome: its plan, or the error it reports.
pub open spec fn tool_view(r: Result<Plan, String>) -> Result<PlanV, Seq<char>> {
    match r {
        Ok(p) => Ok(p.view()),
        Err(e) => Err(e@),
    }
}

/// A single request, as a plan.
pub open spec fn as_call(p: Result<RequestV, Seq<char>>) -> Result<PlanV, Seq<char>> {
    match p {
        Ok(q) => Ok(PlanV::Call(q)),
        Err(e) => Err(e),
    }
}

fn call(r: Result<ApiRequest, String>) -> (out: Result<Plan, String>)
    ensures
        tool_view(out) == as_call(plan_view(r)),
{
    match r {
        Ok(q) => Ok(Plan::Call(q)),
        Err(e) => Err(e),
    }
}

// ── Limits ─────────────────────────────────────────────────────────────────

/// Hard cap on the rows of any inline or saved query.
pub const MAX_ROW_LIMIT: i64 = 5000;

/// Row cap when a caller gives no limit.
pub const DEFAULT_ROW_LIMIT: i64 = 100;

/// The row limit used for a requested one: the default for zero or less,
/// the cap above it.
pub open spec fn row_limit(n: int) -> int {
    if n <= 0 {
        DEFAULT_ROW_LIMIT as int
    } else if n > MAX_ROW_LIMIT {
        MAX_ROW_LIMIT as int
    } else {
        n
    }
}

/// `clamp_limit`: applies the default and the cap. The result is always
/// between 1 and 5000, and a limit already in that range is kept.
pub fn clamp_limit(n: i64) -> (r: i64)
    ensures
        r == row_limit(n as int),
        1 <= r <= MAX_ROW_LIMIT,
        1 <= n <= MAX_ROW_LIMIT ==> r == n,
{
    if n <= 0 {
        DEFAULT_ROW_LIMIT
    } else if n > MAX_ROW_LIMIT {
        MAX_ROW_LIMIT
    } else {
        n
    }
}

/// Clamping a clamped limit changes nothing.
pub proof fn lemma_row_limit_idempotent(n: int)
    ensures
        row_limit(row_limit(n)) == row_limit(n),
        1 <= row_limit(n) <= MAX_ROW_LIMIT,
{
}

/// The integer argument `k`, or `default`.
pub open spec fn int_or(a: Seq<ArgEntryV>, k: Seq<char>, default: int) -> int {
    match int_arg(a, k) {
        Some(n) => n as int,
        None => default,
    }
}

fn int_or_default(args: &Args, key: &str, default: i64) -> (r: i64)
    ensures
        r == int_or(args.view(), key@, default as int),
{
    match arg_int(args, key) {
        Some(n) => n,
        None => default,
    }
}

// ── Search ─────────────────────────────────────────────────────────────────

/// Whether the comma-separated `types` ask for content of kind `name`: some
/// item, trimmed and lower-cased, is `name`.
pub open spec fn wants(types: Seq<char>, name: Seq<char>) -> bool {
    exists|i: int| 0 <= i < split(types, ',').len() && crate::text::lowercase(trim(#[trigger] split(types, ',')[i])) == name
}

/// `limit={limit}&offset={offset}`.
pub open spec fn page_query(limit: int, offset: int) -> Seq<char> {
    "&limit="@ + int_decimal(limit) + "&offset="@ + int_decimal(offset)
}

/// The searches of `search_content`: dashboards by title, Looks by title and
/// folders by name, those that `types` asks for (all when it is empty).
pub open spec fn searches(a: Seq<ArgEntryV>) -> Seq<(Seq<char>, Seq<char>)> {
    let terms = escaped(str_arg(a, "terms"@));
    let types = str_arg(a, "types"@);
    let page = page_query(int_or(a, "limit"@, 25), int_or(a, "offset"@, 0));
    let d = if types.len() == 0 || wants(types, "dashboard"@) {
        seq![("dashboards"@, "/dashboards/search?title="@ + terms + page)]
    } else {
        seq![]
    };
    let l = if types.len() == 0 || wants(types, "look"@) {
        seq![("looks"@, "/looks/search?title="@ + terms + page)]
    } else {
        seq![]
    };
    let f = if types.len() == 0 || wants(types, "folder"@) {
        seq![("folders"@, "/folders/search?name="@ + terms + page)]
    } else {
        seq![]
    };
    d + l + f
}

/// `search_content`: the search terms are required.
pub open spec fn search_content_plan(a: Seq<ArgEntryV>) -> Result<PlanV, Seq<char>> {
    if str_arg(a, "terms"@).len() == 0 {
        Err("terms is required"@)
    } else {
        Ok(PlanV::Search(searches(a)))
    }
}

/// Which of dashboards, Looks and folders the comma-separated `types` ask for.
fn wanted_kinds(types: &str) -> (r: (bool, bool, bool))
    ensures
        r.0 == wants(types@, "dashboard"@),
        r.1 == wants(types@, "look"@),
        r.2 == wants(types@, "folder"@),
{
    let cs = chars_of(types);
    let bounds = split_bounds(&cs, ',');
    let ghost pieces = split(types@, ',');
    let mut w = (false, false, false);
    let mut k: usize = 0;
    while k < bounds.len()
        invariant
            0 <= k <= bounds@.len(),
            bounds@.len() == pieces.len(),
            pieces == split(types@, ','),
            cs@ == types@,
            forall|j: int|
                #![trigger bounds@[j]]
                0 <= j < bounds@.len() ==> {
                    &&& bounds@[j].0 <= bounds@[j].1 <= cs@.len()
                    &&& cs@.subrange(bounds@[j].0 as int, bounds@[j].1 as int) == pieces[j]
                },
            w.0 == exists|i: int| 0 <= i < k && crate::text::lowercase(trim(#[trigger] pieces[i])) == "dashboard"@,
            w.1 == exists|i: int| 0 <= i < k && crate::text::lowercase(trim(#[trigger] pieces[i])) == "look"@,
            w.2 == exists|i: int| 0 <= i < k && crate::text::lowercase(trim(#[trigger] pieces[i])) == "folder"@,
        decreases bounds@.len() - k,
    {
        let (from, to) = bounds[k];
        let (lo, hi) = trim_bounds(&cs, from, to);
        let item = string_of_range(&cs, lo, hi);
        let lower = crate::text::to_lowercase(item.as_str());
        assert(item@ == trim(pieces[k as int]));
        if crate::text::str_eq(lower.as_str(), "dashboard") {
            w.0 = true;
        }
        if crate::text::str_eq(lower.as_str(), "look") {
            w.1 = true;
        }
        if crate::text::str_eq(lower.as_str(), "folder") {
            w.2 = true;
        }
        k = k + 1;
    }
    w
}

/// `{prefix}{escaped terms}&limit={limit}&offset={offset}`.
fn search_path(prefix: &str, terms: &str, limit: i64, offset: i64) -> (r: String)
    ensures
        r@ == prefix@ + escaped(terms@) + page_query(limit as int, offset as int),
{
    let mut p = owned(prefix);
    push_str(&mut p, encode_component(terms).as_str());
    push_str(&mut p, "&limit=");
    push_str(&mut p, i64_to_string(limit).as_str());
    push_str(&mut p, "&offset=");
    push_str(&mut p, i64_to_string(offset).as_str());
    p
}

/// Searches dashboards, Looks and folders.
pub fn search_content(args: &Args) -> (r: Result<Plan, String>)
    ensures
        tool_view(r) == search_content_plan(args.view()),
{
    let terms = arg_str(args, "terms");
    if terms.as_str().is_empty() {
        return Err(owned("terms is required"));
    }
    let types = arg_str(args, "types");
    let limit = int_or_default(args, "limit", 25);
    let offset = int_or_default(args, "offset", 0);
    let wanted = if types.as_str().is_empty() {
        (true, true, true)
    } else {
        wanted_kinds(types.as_str())
    };
    let ghost a = args.view();
    let ghost page = page_query(limit as int, offset as int);
    let mut out: Vec<(String, String)> = Vec::new();
    if wanted.0 {
        out.push((owned("dashboards"), search_path("/dashboards/search?title=", terms.as_str(), limit, offset)));
    }
    let ghost after_d = crate::request::pairs_view(out@);
    if wanted.1 {
        out.push((owned("looks"), search_path("/looks/search?title=", terms.as_str(), limit, offset)));
    }
    let ghost after_l = crate::request::pairs_view(out@);
    if wanted.2 {
        out.push((owned("folders"), search_path("/folders/search?name=", terms.as_str(), limit, offset)));
    }
    assert(crate::request::pairs_view(out@) =~= searches(a));
    Ok(Plan::Search(out))
}

/// The result of a search: an object holding each reply's JSON under its key.
pub open spec fn search_result_of(parts: Seq<(Seq<char>, Seq<char>)>) -> Map<Seq<char>, FieldV>
    decreases parts.len(),
{
    if parts.len() == 0 {
        Map::empty()
    } else {
        search_result_of(parts.drop_last()).insert(parts.last().0, FieldV::Json(parts.last().1))
    }
}

/// Merges the replies of the searches, each given by its key and the compact
/// JSON text of its reply, into the tool's result.
pub fn search_result(parts: Vec<(String, String)>) -> (r: Field)
    ensures
        r.view() == FieldV::Object(search_result_of(crate::request::pairs_view(parts@))),
{
    let ghost ps = crate::request::pairs_view(parts@);
    let mut fields: Vec<(String, Field)> = Vec::new();
    let mut i: usize = 0;
    while i < parts.len()
        invariant
            0 <= i <= parts@.len(),
            ps == crate::request::pairs_view(parts@),
            fields_view(fields@) == search_result_of(ps.take(i as int)),
        decreases parts@.len() - i,
    {
        assert(ps.take(i + 1).drop_last() == ps.take(i as int));
        put(&mut fields, parts[i].0.as_str(), Field::Json(parts[i].1.clone()));
        i = i + 1;
    }
    assert(ps.take(parts@.len() as int) == ps);
    Field::Object(fields)
}

// ── Folders ────────────────────────────────────────────────────────────────

/// `GET /folders`, selecting the given fields.
pub open spec fn list_folders_plan(a: Seq<ArgEntryV>) -> Result<PlanV, Seq<char>> {
    let fields = str_arg(a, "fields"@);
    Ok(
        PlanV::Call(
            bare(
                Method::Get,
                if fields.len() == 0 {
                    "/folders"@
                } else {
                    "/folders?fields="@ + escaped(fields)
                },
            ),
        ),
    )
}

pub fn list_folders(args: &Args) -> (r: Result<Plan, String>)
    ensures
        tool_view(r) == list_folders_plan(args.view()),
{
    let fields = arg_str(args, "fields");
    let path = if fields.as_str().is_empty() {
        owned("/folders")
    } else {
        crate::request::path_with("/folders?fields=", fields.as_str())
    };
    Ok(Plan::Call(request(Method::Get, path)))
}

/// `GET /folders/{folder_id}`.
pub open spec fn get_folder_plan(a: Seq<ArgEntryV>) -> Result<PlanV, Seq<char>> {
    as_call(id_plan(a, "folder_id"@, Method::Get, "/folders/"@, ""@))
}

pub fn get_folder(args: &Args) -> (r: Result<Plan, String>)
    ensures
        tool_view(r) == get_folder_plan(args.view()),
{
    call(id_request(args, "folder_id", Method::Get, "/folders/", ""))
}

// ── Looks and dashboards ───────────────────────────────────────────────────

/// `{path}?limit={limit}&offset={offset}` (limit 25 and offset 0 by default),
/// then `&fields={fields}` when fields are given.
pub open spec fn paged_path(a: Seq<ArgEntryV>, path: Seq<char>) -> Seq<char> {
    let p = path + "?limit="@ + int_decimal(int_or(a, "limit"@, 25)) + "&offset="@ + int_decimal(
        int_or(a, "offset"@, 0),
    );
    let fields = str_arg(a, "fields"@);
    if fields.len() == 0 {
        p
    } else {
        p + "&fields="@ + escaped(fields)
    }
}

fn paged(args: &Args, path: &str, with_fields: bool) -> (r: String)
    ensures
        with_fields ==> r@ == paged_path(args.view(), path@),
        !with_fields ==> r@ == path@ + "?limit="@ + int_decimal(int_or(args.view(), "limit"@, 25))
            + "&offset="@ + int_decimal(int_or(args.view(), "offset"@, 0)),
{
    let limit = int_or_default(args, "limit", 25);
    let offset = int_or_default(args, "offset", 0);
    let mut p = owned(path);
    push_str(&mut p, "?limit=");
    push_str(&mut p, i64_to_string(limit).as_str());
    push_str(&mut p, "&offset=");
    push_str(&mut p, i64_to_string(offset).as_str());
    if with_fields {
        let fields = arg_str(args, "fields");
        if !fields.as_str().is_empty() {
            push_str(&mut p, "&fields=");
            push_str(&mut p, encode_component(fields.as_str()).as_str());
        }
    }
    p
}

/// `GET /looks`, paged.
pub open spec fn list_looks_plan(a: Seq<ArgEntryV>) -> Result<PlanV, Seq<char>> {
    Ok(PlanV::Call(bare(Method::Get, paged_path(a, "/looks"@))))
}

pub fn list_looks(args: &Args) -> (r: Result<Plan, String>)
    ensures
        tool_view(r) == list_looks_plan(args.view()),
{
    Ok(Plan::Call(request(Method::Get, paged(args, "/looks", true))))
}

/// `GET /looks/{look_id}`.
pub open spec fn get_look_plan(a: Seq<ArgEntryV>) -> Result<PlanV, Seq<char>> {
    as_call(id_plan(a, "look_id"@, Method::Get, "/looks/"@, ""@))
}

pub fn get_look(args: &Args) -> (r: Result<Plan, String>)
    ensures
        tool_view(r) == get_look_plan(args.view()),
{
    call(id_request(args, "look_id", Method::Get, "/looks/", ""))
}

/// Whether the `cache` argument turns caching off: it is present, not null,
/// and reads as `false` (a value that does not read as a boolean keeps the
/// cache on).
pub open spec fn cache_off(a: Seq<ArgEntryV>) -> bool {
    match raw_arg(a, "cache"@) {
        Some(v) => !(v is Null) && bool_arg(a, "cache"@) == Some(false),
        None => false,
    }
}

fn caching_off(args: &Args) -> (r: bool)
    ensures
        r == cache_off(args.view()),
{
    match arg_raw(args, "cache") {
        Some(v) => {
            let on = match arg_bool(args, "cache") {
                Some(b) => b,
                None => true,
            };
            !on && !matches!(v, RawValue::Null)
        },
        None => false,
    }
}

/// The query of a run: the clamped row limit (default 0, so 100), then the
/// formatting, visualization and cache switches that are set.
pub open spec fn run_query_string(a: Seq<ArgEntryV>, with_vis: bool) -> Seq<char> {
    let q = "limit="@ + int_decimal(row_limit(int_or(a, "limit"@, 0)));
    let q = if bool_arg(a, "apply_formatting"@) == Some(true) {
        q + "&apply_formatting=true"@
    } else {
        q
    };
    let q = if with_vis && bool_arg(a, "apply_vis"@) == Some(true) {
        q + "&apply_vis=true"@
    } else {
        q
    };
    if cache_off(a) {
        q + "&cache=false"@
    } else {
        q
    }
}

fn run_query_text(args: &Args, with_vis: bool) -> (r: String)
    ensures
        r@ == run_query_string(args.view(), with_vis),
{
    let raw_limit = int_or_default(args, "limit", 0);
    let apply_fmt = match arg_bool(args, "apply_formatting") {
        Some(b) => b,
        None => false,
    };
    let apply_vis = match arg_bool(args, "apply_vis") {
        Some(b) => b,
        None => false,
    };
    let mut q = owned("limit=");
    push_str(&mut q, i64_to_string(clamp_limit(raw_limit)).as_str());
    if apply_fmt {
        push_str(&mut q, "&apply_formatting=true");
    }
    if with_vis && apply_vis {
        push_str(&mut q, "&apply_vis=true");
    }
    if caching_off(args) {
        push_str(&mut q, "&cache=false");
    }
    q
}

/// `GET /looks/{look_id}/run/json?{query}`.
pub open spec fn run_look_plan(a: Seq<ArgEntryV>) -> Result<PlanV, Seq<char>> {
    match crate::args::required_arg(a, "look_id"@) {
        Err(e) => Err(e),
        Ok(id) => Ok(
            PlanV::Call(bare(Method::Get, "/looks/"@ + escaped(id) + "/run/json?"@ + run_query_string(a, true))),
        ),
    }
}

pub fn run_look(args: &Args) -> (r: Result<Plan, String>)
    ensures
        tool_view(r) == run_look_plan(args.view()),
{
    let id = match required(args, "look_id") {
        Ok(v) => v,
        Err(e) => return Err(e),
    };
    let q = run_query_text(args, true);
    let mut path = crate::request::path_around("/looks/", id.as_str(), "/run/json?");
    push_str(&mut path, q.as_str());
    Ok(Plan::Call(request(Method::Get, path)))
}

/// `GET /dashboards`, paged.
pub open spec fn list_dashboards_plan(a: Seq<ArgEntryV>) -> Result<PlanV, Seq<char>> {
    Ok(PlanV::Call(bare(Method::Get, paged_path(a, "/dashboards"@))))
}

pub fn list_dashboards(args: &Args) -> (r: Result<Plan, String>)
    ensures
        tool_view(r) == list_dashboards_plan(args.view()),
{
    Ok(Plan::Call(request(Method::Get, paged(args, "/dashboards", true))))
}

/// `GET /dashboards/{dashboard_id}`.
pub open spec fn get_dashboard_plan(a: Seq<ArgEntryV>) -> Result<PlanV, Seq<char>> {
    as_call(id_plan(a, "dashboard_id"@, Method::Get, "/dashboards/"@, ""@))
}

pub fn get_dashboard(args: &Args) -> (r: Result<Plan, String>)
    ensures
        tool_view(r) == get_dashboard_plan(args.view()),
{
    call(id_request(args, "dashboard_id", Method::Get, "/dashboards/", ""))
}

// ── Queries ────────────────────────────────────────────────────────────────

/// The body of `POST /queries` and `POST /queries/run/json`: model, view and
/// fields are required; sorts, pivots and filters are added when given, and
/// the limit, as a string, when positive.
pub open spec fn query_body(a: Seq<ArgEntryV>, limit: int) -> Result<Map<Seq<char>, FieldV>, Seq<char>> {
    let model = str_arg(a, "model"@);
    let view = str_arg(a, "view"@);
    let fields = str_arg(a, "fields"@);
    if model.len() == 0 || view.len() == 0 || fields.len() == 0 {
        Err("model, view, and fields are required"@)
    } else {
        let m = Map::empty().insert("model"@, FieldV::Str(model)).insert("view"@, FieldV::Str(view)).insert(
            "fields"@,
            FieldV::List(csv_items(fields)),
        );
        let sorts = str_arg(a, "sorts"@);
        let m = if sorts.len() > 0 {
            m.insert("sorts"@, FieldV::List(csv_items(sorts)))
        } else {
            m
        };
        let pivots = str_arg(a, "pivots"@);
        let m = if pivots.len() > 0 {
            m.insert("pivots"@, FieldV::List(csv_items(pivots)))
        } else {
            m
        };
        let filters = str_arg(a, "filters"@);
        let m = if filters.len() > 0 {
            match serde_json_read(filters) {
                Err(e) => Err("filters must be a JSON object: "@ + e),
                Ok((kind, t)) => if kind == JsonKind::Object {
                    Ok(m.insert("filters"@, FieldV::Json(t)))
                } else {
                    Err("filters must be a JSON object"@)
                },
            }
        } else {
            Ok(m)
        };
        match m {
            Err(e) => Err(e),
            Ok(m) => Ok(
                if limit > 0 {
                    m.insert("limit"@, FieldV::Str(int_decimal(limit)))
                } else {
                    m
                },
            ),
        }
    }
}

/// `build_query_body`.
fn build_query_body(args: &Args, limit_override: i64) -> (r: Result<Vec<(String, Field)>, String>)
    ensures
        query_body(args.view(), limit_override as int) == match r {
            Ok(b) => Ok(fields_view(b@)),
            Err(e) => Err(e@),
        },
{
    let model = arg_str(args, "model");
    let view = arg_str(args, "view");
    let fields = arg_str(args, "fields");
    if model.as_str().is_empty() || view.as_str().is_empty() || fields.as_str().is_empty() {
        return Err(owned("model, view, and fields are required"));
    }
    let mut body: Vec<(String, Field)> = Vec::new();
    put(&mut body, "model", Field::Str(model));
    put(&mut body, "view", Field::Str(view));
    put(&mut body, "fields", Field::List(split_csv(fields.as_str())));
    let sorts = arg_str(args, "sorts");
    if !sorts.as_str().is_empty() {
        put(&mut body, "sorts", Field::List(split_csv(sorts.as_str())));
    }
    let pivots = arg_str(args, "pivots");
    if !pivots.as_str().is_empty() {
        put(&mut body, "pivots", Field::List(split_csv(pivots.as_str())));
    }
    let filters = arg_str(args, "filters");
    if !filters.as_str().is_empty() {
        match read_json(filters.as_str()) {
            Ok(j) => {
                if j.kind != JsonKind::Object {
                    return Err(owned("filters must be a JSON object"));
                }
                put(&mut body, "filters", Field::Json(j.text));
            },
            Err(e) => {
                let mut m = owned("filters must be a JSON object: ");
                push_str(&mut m, e.as_str());
                return Err(m);
            },
        }
    }
    if limit_override > 0 {
        put(&mut body, "limit", Field::Str(i64_to_string(limit_override)));
    }
    Ok(body)
}

/// `POST {path}` with the query body, the limit being the clamped `limit`
/// argument or `default`.
pub open spec fn query_post_plan(a: Seq<ArgEntryV>, path: Seq<char>, default: int) -> Result<PlanV, Seq<char>> {
    match query_body(a, row_limit(int_or(a, "limit"@, default))) {
        Err(e) => Err(e),
        Ok(b) => Ok(PlanV::Call(with_body(Method::Post, path, b))),
    }
}

/// Runs a query given inline: `POST /queries/run/json` (limit default 0, so
/// 100).
pub open spec fn run_inline_query_plan(a: Seq<ArgEntryV>) -> Result<PlanV, Seq<char>> {
    query_post_plan(a, "/queries/run/json"@, 0)
}

pub fn run_inline_query(args: &Args) -> (r: Result<Plan, String>)
    ensures
        tool_view(r) == run_inline_query_plan(args.view()),
{
    let limit = clamp_limit(int_or_default(args, "limit", 0));
    let body = match build_query_body(args, limit) {
        Ok(b) => b,
        Err(e) => return Err(e),
    };
    Ok(Plan::Call(request_with(Method::Post, owned("/queries/run/json"), body)))
}

/// Saves a query: `POST /queries` (limit default 500).
pub open spec fn create_query_plan(a: Seq<ArgEntryV>) -> Result<PlanV, Seq<char>> {
    query_post_plan(a, "/queries"@, 500)
}

pub fn create_query(args: &Args) -> (r: Result<Plan, String>)
    ensures
        tool_view(r) == create_query_plan(args.view()),
{
    let limit = clamp_limit(int_or_default(args, "limit", 500));
    let body = match build_query_body(args, limit) {
        Ok(b) => b,
        Err(e) => return Err(e),
    };
    Ok(Plan::Call(request_with(Method::Post, owned("/queries"), body)))
}

/// `GET /queries/{query_id}`.
pub open spec fn get_query_plan(a: Seq<ArgEntryV>) -> Result<PlanV, Seq<char>> {
    as_call(id_plan(a, "query_id"@, Method::Get, "/queries/"@, ""@))
}

pub fn get_query(args: &Args) -> (r: Result<Plan, String>)
    ensures
        tool_view(r) == get_query_plan(args.view()),
{
    call(id_request(args, "query_id", Method::Get, "/queries/", ""))
}

/// `GET /queries/{query_id}/run/json?{query}` (no visualization switch).
pub open spec fn run_query_plan(a: Seq<ArgEntryV>) -> Result<PlanV, Seq<char>> {
    match crate::args::required_arg(a, "query_id"@) {
        Err(e) => Err(e),
        Ok(id) => Ok(
            PlanV::Call(bare(Method::Get, "/queries/"@ + escaped(id) + "/run/json?"@ + run_query_string(a, false))),
        ),
    }
}

pub fn run_query(args: &Args) -> (r: Result<Plan, String>)
    ensures
        tool_view(r) == run_query_plan(args.view()),
{
    let id = match required(args, "query_id") {
        Ok(v) => v,
        Err(e) => return Err(e),
    };
    let q = run_query_text(args, false);
    let mut path = crate::request::path_around("/queries/", id.as_str(), "/run/json?");
    push_str(&mut path, q.as_str());
    Ok(Plan::Call(request(Method::Get, path)))
}

// ── SQL Runner ─────────────────────────────────────────────────────────────

/// `run_sql_query`: a connection and SQL are required; they are registered
/// with `POST /sql_queries`.
pub open spec fn run_sql_query_plan(a: Seq<ArgEntryV>) -> Result<PlanV, Seq<char>> {
    let conn = str_arg(a, "connection_name"@);
    let sql = str_arg(a, "sql"@);
    if conn.len() == 0 || sql.len() == 0 {
        Err("connection_name and sql are required"@)
    } else {
        Ok(
            PlanV::SqlRunner(
                with_body(
                    Method::Post,
                    "/sql_queries"@,
                    Map::empty().insert("connection_name"@, FieldV::Str(conn)).insert("sql"@, FieldV::Str(sql)),
                ),
            ),
        )
    }
}

pub fn run_sql_query(args: &Args) -> (r: Result<Plan, String>)
    ensures
        tool_view(r) == run_sql_query_plan(args.view()),
{
    let conn = arg_str(args, "connection_name");
    let sql = arg_str(args, "sql");
    if conn.as_str().is_empty() || sql.as_str().is_empty() {
        return Err(owned("connection_name and sql are required"));
    }
    let mut body: Vec<(String, Field)> = Vec::new();
    put(&mut body, "connection_name", Field::Str(conn));
    put(&mut body, "sql", Field::Str(sql));
    Ok(Plan::SqlRunner(request_with(Method::Post, owned("/sql_queries"), body)))
}

/// The second step of the SQL Runner: runs the registered query, named by
/// the `slug` member of the reply when it is a string.
pub open spec fn sql_run_plan(slug: Option<Seq<char>>) -> Result<RequestV, Seq<char>> {
    match slug {
        Some(s) if s.len() > 0 => Ok(bare(Method::Get, "/sql_queries/"@ + escaped(s) + "/run/json"@)),
        _ => Err("sql_query: missing slug in response"@),
    }
}

/// `GET /sql_queries/{slug}/run/json`, or the error for a reply without a slug.
pub fn sql_run_request(slug: Option<String>) -> (r: Result<ApiRequest, String>)
    ensures
        plan_view(r) == sql_run_plan(
            match slug {
                Some(s) => Some(s@),
                None => None,
            },
        ),
{
    match slug {
        Some(s) => {
            if s.as_str().is_empty() {
                return Err(owned("sql_query: missing slug in response"));
            }
            Ok(request(Method::Get, crate::request::path_around("/sql_queries/", s.as_str(), "/run/json")))
        },
        None => Err(owned("sql_query: missing slug in response")),
    }
}

/// The second step of the SQL Runner: runs the query named by the `slug`
/// member of the reply that registered it (`created`, its JSON text).
pub fn sql_run_step(created: &str) -> (r: Result<ApiRequest, String>)
    ensures
        plan_view(r) == sql_run_plan(json_str_member(created@, "slug"@)),
{
    sql_run_request(str_member(created, "slug"))
}

// ── LookML models ──────────────────────────────────────────────────────────

/// `GET /lookml_models`.
pub open spec fn list_models_plan(a: Seq<ArgEntryV>) -> Result<PlanV, Seq<char>> {
    Ok(PlanV::Call(bare(Method::Get, "/lookml_models"@)))
}

pub fn list_models(_args: &Args) -> (r: Result<Plan, String>)
    ensures
        tool_view(r) == list_models_plan(_args.view()),
{
    Ok(Plan::Call(request(Method::Get, owned("/lookml_models"))))
}

/// `GET /lookml_models/{model_name}`.
pub open spec fn get_model_plan(a: Seq<ArgEntryV>) -> Result<PlanV, Seq<char>> {
    as_call(id_plan(a, "model_name"@, Method::Get, "/lookml_models/"@, ""@))
}

pub fn get_model(args: &Args) -> (r: Result<Plan, String>)
    ensures
        tool_view(r) == get_model_plan(args.view()),
{
    call(id_request(args, "model_name", Method::Get, "/lookml_models/", ""))
}

/// `GET /lookml_models/{model_name}/explores/{explore_name}`; both are
/// required.
pub open spec fn get_model_explore_plan(a: Seq<ArgEntryV>) -> Result<PlanV, Seq<char>> {
    let model = str_arg(a, "model_name"@);
    let explore = str_arg(a, "explore_name"@);
    if model.len() == 0 || explore.len() == 0 {
        Err("model_name and explore_name are required"@)
    } else {
        Ok(PlanV::Call(bare(Method::Get, "/lookml_models/"@ + escaped(model) + "/explores/"@ + escaped(explore) + ""@)))
    }
}

pub fn get_model_explore(args: &Args) -> (r: Result<Plan, String>)
    ensures
        tool_view(r) == get_model_explore_plan(args.view()),
{
    let model = arg_str(args, "model_name");
    let explore = arg_str(args, "explore_name");
    if model.as_str().is_empty() || explore.as_str().is_empty() {
        return Err(owned("model_name and explore_name are required"));
    }
    let path = crate::request::path_two("/lookml_models/", model.as_str(), "/explores/", explore.as_str(), "");
    Ok(Plan::Call(request(Method::Get, path)))
}

// ── Connections ────────────────────────────────────────────────────────────

/// `GET /connections`.
pub open spec fn list_connections_plan(a: Seq<ArgEntryV>) -> Result<PlanV, Seq<char>> {
    Ok(PlanV::Call(bare(Method::Get, "/connections"@)))
}

pub fn list_connections(_args: &Args) -> (r: Result<Plan, String>)
    ensures
        tool_view(r) == list_connections_plan(_args.view()),
{
    Ok(Plan::Call(request(Method::Get, owned("/connections"))))
}

/// `GET /connections/{connection_name}`.
pub open spec fn get_connection_plan(a: Seq<ArgEntryV>) -> Result<PlanV, Seq<char>> {
    as_call(id_plan(a, "connection_name"@, Method::Get, "/connections/"@, ""@))
}

pub fn get_connection(args: &Args) -> (r: Result<Plan, String>)
    ensures
        tool_view(r) == get_connection_plan(args.view()),
{
    call(id_request(args, "connection_name", Method::Get, "/connections/", ""))
}

// ── Users ──────────────────────────────────────────────────────────────────

/// `GET /user`.
pub open spec fn get_me_plan(a: Seq<ArgEntryV>) -> Result<PlanV, Seq<char>> {
    Ok(PlanV::Call(bare(Method::Get, "/user"@)))
}

pub fn get_me(_args: &Args) -> (r: Result<Plan, String>)
    ensures
        tool_view(r) == get_me_plan(_args.view()),
{
    Ok(Plan::Call(request(Method::Get, owned("/user"))))
}

/// `GET /users?limit={limit}&offset={offset}` (25 and 0 by default).
pub open spec fn list_users_plan(a: Seq<ArgEntryV>) -> Result<PlanV, Seq<char>> {
    Ok(
        PlanV::Call(
            bare(
                Method::Get,
                "/users"@ + "?limit="@ + int_decimal(int_or(a, "limit"@, 25)) + "&offset="@ + int_decimal(
                    int_or(a, "offset"@, 0),
                ),
            ),
        ),
    )
}

pub fn list_users(args: &Args) -> (r: Result<Plan, String>)
    ensures
        tool_view(r) == list_users_plan(args.view()),
{
    Ok(Plan::Call(request(Method::Get, paged(args, "/users", false))))
}

/// `GET /users/{user_id}`.
pub open spec fn get_user_plan(a: Seq<ArgEntryV>) -> Result<PlanV, Seq<char>> {
    as_call(id_plan(a, "user_id"@, Method::Get, "/users/"@, ""@))
}

pub fn get_user(args: &Args) -> (r: Result<Plan, String>)
    ensures
        tool_view(r) == get_user_plan(args.view()),
{
    call(id_request(args, "user_id", Method::Get, "/users/", ""))
}

// ── Scheduled plans ────────────────────────────────────────────────────────

/// `GET /scheduled_plans`, for one user or for all users when asked.
pub open spec fn list_scheduled_plans_plan(a: Seq<ArgEntryV>) -> Result<PlanV, Seq<char>> {
    let user = str_arg(a, "user_id"@);
    let all = bool_arg(a, "all"@) == Some(true);
    let path = if user.len() > 0 && all {
        "/scheduled_plans?"@ + "user_id="@ + escaped(user) + "&"@ + "all_users=true"@
    } else if user.len() > 0 {
        "/scheduled_plans?"@ + "user_id="@ + escaped(user)
    } else if all {
        "/scheduled_plans?"@ + "all_users=true"@
    } else {
        "/scheduled_plans"@
    };
    Ok(PlanV::Call(bare(Method::Get, path)))
}

pub fn list_scheduled_plans(args: &Args) -> (r: Result<Plan, String>)
    ensures
        tool_view(r) == list_scheduled_plans_plan(args.view()),
{
    let user_id = arg_str(args, "user_id");
    let all = match arg_bool(args, "all") {
        Some(b) => b,
        None => false,
    };
    let path = if user_id.as_str().is_empty() && !all {
        owned("/scheduled_plans")
    } else {
        let mut p = owned("/scheduled_plans?");
        if !user_id.as_str().is_empty() {
            push_str(&mut p, "user_id=");
            push_str(&mut p, encode_component(user_id.as_str()).as_str());
            if all {
                push_str(&mut p, "&");
            }
        }
        if all {
            push_str(&mut p, "all_users=true");
        }
        p
    };
    Ok(Plan::Call(request(Method::Get, path)))
}

/// `GET /scheduled_plans/{scheduled_plan_id}`.
pub open spec fn get_scheduled_plan_plan(a: Seq<ArgEntryV>) -> Result<PlanV, Seq<char>> {
    as_call(id_plan(a, "scheduled_plan_id"@, Method::Get, "/scheduled_plans/"@, ""@))
}

pub fn get_scheduled_plan(args: &Args) -> (r: Result<Plan, String>)
    ensures
        tool_view(r) == get_scheduled_plan_plan(args.view()),
{
    call(id_request(args, "scheduled_plan_id", Method::Get, "/scheduled_plans/", ""))
}


/// The limit that a row-limited tool asks for.
pub open spec fn asks_rows(q: Seq<char>, n: int) -> bool {
    ("limit="@ + int_decimal(n)).is_prefix_of(q)
}

/// A query body that asks for `n` rows.
pub open spec fn body_asks_rows(p: Result<PlanV, Seq<char>>, n: int) -> bool {
    p matches Ok(PlanV::Call(q)) ==> (q.body matches Some(FieldV::Object(m)) && m.contains_key("limit"@) && m["limit"@]
        == FieldV::Str(int_decimal(n)))
}

/// Every run or create tool asks for between 1 and 5000 rows: a saved Look
/// or query is run with the clamped limit first in its query string, and an
/// inline or saved query carries it in its body.
pub proof fn lemma_run_tools_cap_rows(a: Seq<ArgEntryV>, with_vis: bool)
    ensures
        exists|n: int| 1 <= n <= MAX_ROW_LIMIT && #[trigger] asks_rows(run_query_string(a, with_vis), n),
        exists|n: int| 1 <= n <= MAX_ROW_LIMIT && #[trigger] body_asks_rows(run_inline_query_plan(a), n),
        exists|n: int| 1 <= n <= MAX_ROW_LIMIT && #[trigger] body_asks_rows(create_query_plan(a), n),
{
    let n = row_limit(int_or(a, "limit"@, 0));
    let head = "limit="@ + int_decimal(n);
    let q = run_query_string(a, with_vis);
    let q1 = if bool_arg(a, "apply_formatting"@) == Some(true) {
        head + "&apply_formatting=true"@
    } else {
        head
    };
    let q2 = if with_vis && bool_arg(a, "apply_vis"@) == Some(true) {
        q1 + "&apply_vis=true"@
    } else {
        q1
    };
    assert(head.is_prefix_of(q1)) by {
        assert(q1.subrange(0, head.len() as int) =~= head);
    }
    assert(head.is_prefix_of(q2)) by {
        assert(q2.subrange(0, head.len() as int) =~= head);
    }
    assert(head.is_prefix_of(q)) by {
        assert(q.subrange(0, head.len() as int) =~= head);
    }
    assert(asks_rows(q, n));
    let m = row_limit(int_or(a, "limit"@, 500));
    assert(body_asks_rows(run_inline_query_plan(a), n));
    assert(body_asks_rows(create_query_plan(a), m));
}


/// A query body that carries the query the arguments describe: the model,
/// the view and the comma-separated fields; the sorts and pivots, each as a
/// list, when given; and the filters, read as a JSON object, when given.
pub open spec fn carries_query(a: Seq<ArgEntryV>, body: Option<FieldV>) -> bool {
    body matches Some(FieldV::Object(m)) && {
        &&& m["model"@] == FieldV::Str(str_arg(a, "model"@))
        &&& m["view"@] == FieldV::Str(str_arg(a, "view"@))
        &&& m["fields"@] == FieldV::List(csv_items(str_arg(a, "fields"@)))
        &&& (str_arg(a, "sorts"@).len() > 0 ==> m.contains_key("sorts"@) && m["sorts"@] == FieldV::List(csv_items(str_arg(a, "sorts"@))))
        &&& (str_arg(a, "sorts"@).len() == 0 ==> !m.contains_key("sorts"@))
        &&& (str_arg(a, "pivots"@).len() > 0 ==> m.contains_key("pivots"@) && m["pivots"@] == FieldV::List(csv_items(str_arg(a, "pivots"@))))
        &&& (str_arg(a, "pivots"@).len() == 0 ==> !m.contains_key("pivots"@))
        &&& (str_arg(a, "filters"@).len() == 0 ==> !m.contains_key("filters"@))
        &&& (str_arg(a, "filters"@).len() > 0 ==> (serde_json_read(str_arg(a, "filters"@)) matches Ok((
            JsonKind::Object,
            t,
        )) && m["filters"@] == FieldV::Json(t)))
    }
}

/// Running a query inline posts it to `/queries/run/json`, and saving one
/// posts it to `/queries`: the body carries the model, view, fields, sorts,
/// pivots and filters given, and the requested row limit, clamped to 1..5000
/// (100 for a run and 500 for a saved query when none is given, 100 for one
/// of zero or less). Both go ahead whenever model, view and fields are given
/// and no filters are.
pub proof fn lemma_query_tools_send_the_query(a: Seq<ArgEntryV>)
    ensures
        run_inline_query_plan(a) matches Ok(PlanV::Call(q)) ==> q.method == Method::Post && q.path
            == "/queries/run/json"@ && carries_query(a, q.body),
        create_query_plan(a) matches Ok(PlanV::Call(q)) ==> q.method == Method::Post && q.path
            == "/queries"@ && carries_query(a, q.body),
        run_inline_query_plan(a) matches Ok(PlanV::Call(q)) ==> (q.body matches Some(FieldV::Object(m)) && {
            &&& (int_arg(a, "limit"@) is Some && 1 <= int_arg(a, "limit"@)->0 <= 5000 ==> m["limit"@] == FieldV::Str(int_decimal(int_arg(a, "limit"@)->0 as int)))
            &&& (int_arg(a, "limit"@) matches Some(n) && n > 5000 ==> m["limit"@] == FieldV::Str(int_decimal(5000)))
            &&& (int_arg(a, "limit"@) matches Some(n) && n <= 0 ==> m["limit"@] == FieldV::Str(int_decimal(100)))
            &&& (int_arg(a, "limit"@) is None ==> m["limit"@] == FieldV::Str(int_decimal(100)))
        }),
        create_query_plan(a) matches Ok(PlanV::Call(q)) ==> (q.body matches Some(FieldV::Object(m)) && {
            &&& (int_arg(a, "limit"@) is Some && 1 <= int_arg(a, "limit"@)->0 <= 5000 ==> m["limit"@] == FieldV::Str(int_decimal(int_arg(a, "limit"@)->0 as int)))
            &&& (int_arg(a, "limit"@) matches Some(n) && n > 5000 ==> m["limit"@] == FieldV::Str(int_decimal(5000)))
            &&& (int_arg(a, "limit"@) matches Some(n) && n <= 0 ==> m["limit"@] == FieldV::Str(int_decimal(100)))
            &&& (int_arg(a, "limit"@) is None ==> m["limit"@] == FieldV::Str(int_decimal(500)))
        }),
        str_arg(a, "model"@).len() > 0 && str_arg(a, "view"@).len() > 0 && str_arg(a, "fields"@).len() > 0
            && str_arg(a, "filters"@).len() == 0 ==> run_inline_query_plan(a) is Ok && create_query_plan(a) is Ok,
{
    reveal_strlit("model");
    assert("model"@.len() == 5);
    assert("model"@[0] == 'm');
    reveal_strlit("view");
    assert("view"@.len() == 4);
    reveal_strlit("fields");
    assert("fields"@.len() == 6);
    assert("fields"@[0] == 'f');
    reveal_strlit("sorts");
    assert("sorts"@.len() == 5);
    assert("sorts"@[0] == 's');
    reveal_strlit("pivots");
    assert("pivots"@.len() == 6);
    assert("pivots"@[0] == 'p');
    reveal_strlit("filters");
    assert("filters"@.len() == 7);
    reveal_strlit("limit");
    assert("limit"@.len() == 5);
    assert("limit"@[0] == 'l');
}


/// The tools that read, delete or act on one resource named by an argument
/// go ahead exactly when that argument is given, and ask for that resource:
/// the method, and the path with the argument escaped into it. The tools
/// that read a fixed resource ask for it with no body.
pub proof fn lemma_resource_tools_requests(a: Seq<ArgEntryV>)
    ensures
        get_folder_plan(a) is Ok <==> str_arg(a, "folder_id"@).len() > 0,
        get_folder_plan(a) matches Ok(PlanV::Call(q)) ==> q.method == Method::Get && q.path == "/folders/"@ + escaped(str_arg(a, "folder_id"@)) && q.body is None,
        get_look_plan(a) is Ok <==> str_arg(a, "look_id"@).len() > 0,
        get_look_plan(a) matches Ok(PlanV::Call(q)) ==> q.method == Method::Get && q.path == "/looks/"@ + escaped(str_arg(a, "look_id"@)) && q.body is None,
        get_dashboard_plan(a) is Ok <==> str_arg(a, "dashboard_id"@).len() > 0,
        get_dashboard_plan(a) matches Ok(PlanV::Call(q)) ==> q.method == Method::Get && q.path == "/dashboards/"@ + escaped(str_arg(a, "dashboard_id"@)) && q.body is None,
        get_query_plan(a) is Ok <==> str_arg(a, "query_id"@).len() > 0,
        get_query_plan(a) matches Ok(PlanV::Call(q)) ==> q.method == Method::Get && q.path == "/queries/"@ + escaped(str_arg(a, "query_id"@)) && q.body is None,
        list_models_plan(a) matches Ok(PlanV::Call(q)) && q.method == Method::Get && q.path == "/lookml_models"@ && q.body is None,
        get_model_plan(a) is Ok <==> str_arg(a, "model_name"@).len() > 0,
        get_model_plan(a) matches Ok(PlanV::Call(q)) ==> q.method == Method::Get && q.path == "/lookml_models/"@ + escaped(str_arg(a, "model_name"@)) && q.body is None,
        list_connections_plan(a) matches Ok(PlanV::Call(q)) && q.method == Method::Get && q.path == "/connections"@ && q.body is None,
        get_connection_plan(a) is Ok <==> str_arg(a, "connection_name"@).len() > 0,
        get_connection_plan(a) matches Ok(PlanV::Call(q)) ==> q.method == Method::Get && q.path == "/connections/"@ + escaped(str_arg(a, "connection_name"@)) && q.body is None,
        get_me_plan(a) matches Ok(PlanV::Call(q)) && q.method == Method::Get && q.path == "/user"@ && q.body is None,
        get_user_plan(a) is Ok <==> str_arg(a, "user_id"@).len() > 0,
        get_user_plan(a) matches Ok(PlanV::Call(q)) ==> q.method == Method::Get && q.path == "/users/"@ + escaped(str_arg(a, "user_id"@)) && q.body is None,
        get_scheduled_plan_plan(a) is Ok <==> str_arg(a, "scheduled_plan_id"@).len() > 0,
        get_scheduled_plan_plan(a) matches Ok(PlanV::Call(q)) ==> q.method == Method::Get && q.path == "/scheduled_plans/"@ + escaped(str_arg(a, "scheduled_plan_id"@)) && q.body is None,
{
    reveal_strlit("");
    assert(""@.len() == 0);
    assert(("/folders/"@ + escaped(str_arg(a, "folder_id"@)) + ""@) =~= ("/folders/"@ + escaped(str_arg(a, "folder_id"@))));
    assert(("/looks/"@ + escaped(str_arg(a, "look_id"@)) + ""@) =~= ("/looks/"@ + escaped(str_arg(a, "look_id"@))));
    assert(("/dashboards/"@ + escaped(str_arg(a, "dashboard_id"@)) + ""@) =~= ("/dashboards/"@ + escaped(str_arg(a, "dashboard_id"@))));
    assert(("/queries/"@ + escaped(str_arg(a, "query_id"@)) + ""@) =~= ("/queries/"@ + escaped(str_arg(a, "query_id"@))));
    assert(("/lookml_models/"@ + escaped(str_arg(a, "model_name"@)) + ""@) =~= ("/lookml_models/"@ + escaped(str_arg(a, "model_name"@))));
    assert(("/connections/"@ + escaped(str_arg(a, "connection_name"@)) + ""@) =~= ("/connections/"@ + escaped(str_arg(a, "connection_name"@))));
    assert(("/users/"@ + escaped(str_arg(a, "user_id"@)) + ""@) =~= ("/users/"@ + escaped(str_arg(a, "user_id"@))));
    assert(("/scheduled_plans/"@ + escaped(str_arg(a, "scheduled_plan_id"@)) + ""@) =~= ("/scheduled_plans/"@ + escaped(str_arg(a, "scheduled_plan_id"@))));
}


/// Running a saved Look or query needs its id, and asks `GET` for its JSON
/// run: the clamped row limit first (the limit given, at most 5000, and 100
/// when none or one of zero or less is given), then the formatting switch
/// when it is on, the visualization switch (for a Look) when it is on, and
/// `cache=false` when caching is turned off.
pub proof fn lemma_saved_runs_query(a: Seq<ArgEntryV>)
    ensures
        run_look_plan(a) is Ok <==> str_arg(a, "look_id"@).len() > 0,
        run_look_plan(a) matches Ok(PlanV::Call(q)) ==> q.method == Method::Get && q.body is None && q.path == "/looks/"@
            + escaped(str_arg(a, "look_id"@)) + "/run/json?"@ + ("limit="@ + int_decimal((if int_arg(a, "limit"@) is Some && int_arg(a, "limit"@)->0 > 5000 { 5000 } else if int_arg(a, "limit"@) is Some && int_arg(a, "limit"@)->0 > 0 { int_arg(a, "limit"@)->0 as int } else { 100 })) + (if bool_arg(a, "apply_formatting"@) == Some(true) {
            "&apply_formatting=true"@
        } else {
            Seq::<char>::empty()
        }) + (if bool_arg(a, "apply_vis"@) == Some(true) { "&apply_vis=true"@ } else { Seq::<char>::empty() }) + (if raw_arg(a, "cache"@) is Some && !(raw_arg(a, "cache"@)->0 is Null) && bool_arg(a, "cache"@) == Some(
            false,
        ) {
            "&cache=false"@
        } else {
            Seq::<char>::empty()
        })),
        run_query_plan(a) is Ok <==> str_arg(a, "query_id"@).len() > 0,
        run_query_plan(a) matches Ok(PlanV::Call(q)) ==> q.method == Method::Get && q.body is None && q.path == "/queries/"@
            + escaped(str_arg(a, "query_id"@)) + "/run/json?"@ + ("limit="@ + int_decimal((if int_arg(a, "limit"@) is Some && int_arg(a, "limit"@)->0 > 5000 { 5000 } else if int_arg(a, "limit"@) is Some && int_arg(a, "limit"@)->0 > 0 { int_arg(a, "limit"@)->0 as int } else { 100 })) + (if bool_arg(a, "apply_formatting"@) == Some(true) {
            "&apply_formatting=true"@
        } else {
            Seq::<char>::empty()
        })  + (if raw_arg(a, "cache"@) is Some && !(raw_arg(a, "cache"@)->0 is Null) && bool_arg(a, "cache"@) == Some(
            false,
        ) {
            "&cache=false"@
        } else {
            Seq::<char>::empty()
        })),
{
    let q1 = run_query_string(a, true);
    let q2 = run_query_string(a, false);
    assert(q1 =~= ("limit="@ + int_decimal((if int_arg(a, "limit"@) is Some && int_arg(a, "limit"@)->0 > 5000 { 5000 } else if int_arg(a, "limit"@) is Some && int_arg(a, "limit"@)->0 > 0 { int_arg(a, "limit"@)->0 as int } else { 100 })) + (if bool_arg(a, "apply_formatting"@) == Some(true) {
            "&apply_formatting=true"@
        } else {
            Seq::<char>::empty()
        }) + (if bool_arg(a, "apply_vis"@) == Some(true) { "&apply_vis=true"@ } else { Seq::<char>::empty() }) + (if raw_arg(a, "cache"@) is Some && !(raw_arg(a, "cache"@)->0 is Null) && bool_arg(a, "cache"@) == Some(
            false,
        ) {
            "&cache=false"@
        } else {
            Seq::<char>::empty()
        })));
    assert(q2 =~= ("limit="@ + int_decimal((if int_arg(a, "limit"@) is Some && int_arg(a, "limit"@)->0 > 5000 { 5000 } else if int_arg(a, "limit"@) is Some && int_arg(a, "limit"@)->0 > 0 { int_arg(a, "limit"@)->0 as int } else { 100 })) + (if bool_arg(a, "apply_formatting"@) == Some(true) {
            "&apply_formatting=true"@
        } else {
            Seq::<char>::empty()
        })  + (if raw_arg(a, "cache"@) is Some && !(raw_arg(a, "cache"@)->0 is Null) && bool_arg(a, "cache"@) == Some(
            false,
        ) {
            "&cache=false"@
        } else {
            Seq::<char>::empty()
        })));
}


/// Listing Looks, dashboards and users asks for one page: the limit given
/// (25 by default) and the offset given (0 by default), then for Looks and
/// dashboards the fields selected. Folders are listed with the fields
/// selected; scheduled plans for the user given and for all users when asked.
/// An explore is read by its model and name, both required, and a SQL Runner
/// query is registered with its connection and SQL, both required.
pub proof fn lemma_listing_tools_requests(a: Seq<ArgEntryV>)
    ensures
        list_looks_plan(a) == Ok::<PlanV, Seq<char>>(PlanV::Call(bare(Method::Get, "/looks"@ + "?limit="@ + int_decimal((if int_arg(a, "limit"@) is Some { int_arg(a, "limit"@)->0 as int } else { 25 })) + "&offset="@ + int_decimal((if int_arg(a, "offset"@) is Some { int_arg(a, "offset"@)->0 as int } else { 0 })) + (if str_arg(a, "fields"@).len() > 0 { "&fields="@ + escaped(str_arg(a, "fields"@)) } else { Seq::<char>::empty() })))),
        list_dashboards_plan(a) == Ok::<PlanV, Seq<char>>(PlanV::Call(bare(Method::Get, "/dashboards"@ + "?limit="@ + int_decimal((if int_arg(a, "limit"@) is Some { int_arg(a, "limit"@)->0 as int } else { 25 })) + "&offset="@ + int_decimal((if int_arg(a, "offset"@) is Some { int_arg(a, "offset"@)->0 as int } else { 0 })) + (if str_arg(a, "fields"@).len() > 0 { "&fields="@ + escaped(str_arg(a, "fields"@)) } else { Seq::<char>::empty() })))),
        list_users_plan(a) == Ok::<PlanV, Seq<char>>(PlanV::Call(bare(Method::Get, "/users"@ + "?limit="@ + int_decimal((if int_arg(a, "limit"@) is Some { int_arg(a, "limit"@)->0 as int } else { 25 })) + "&offset="@ + int_decimal((if int_arg(a, "offset"@) is Some { int_arg(a, "offset"@)->0 as int } else { 0 }))))),
        list_folders_plan(a) == Ok::<PlanV, Seq<char>>(PlanV::Call(bare(Method::Get, if str_arg(a, "fields"@).len() > 0 {
            "/folders?fields="@ + escaped(str_arg(a, "fields"@))
        } else {
            "/folders"@
        }))),
        list_scheduled_plans_plan(a) matches Ok(PlanV::Call(q)) && q.method == Method::Get && q.body is None && q.path == (
        if str_arg(a, "user_id"@).len() == 0 && bool_arg(a, "all"@) != Some(true) {
            "/scheduled_plans"@
        } else {
            "/scheduled_plans?"@ + (if str_arg(a, "user_id"@).len() > 0 {
                "user_id="@ + escaped(str_arg(a, "user_id"@)) + (if bool_arg(a, "all"@) == Some(true) {
                    "&all_users=true"@
                } else {
                    Seq::<char>::empty()
                })
            } else {
                "all_users=true"@
            })
        }),
        get_model_explore_plan(a) is Ok <==> str_arg(a, "model_name"@).len() > 0 && str_arg(a, "explore_name"@).len() > 0,
        get_model_explore_plan(a) matches Ok(PlanV::Call(q)) ==> q.method == Method::Get && q.body is None && q.path
            == "/lookml_models/"@ + escaped(str_arg(a, "model_name"@)) + "/explores/"@ + escaped(str_arg(a, "explore_name"@)),
        run_sql_query_plan(a) is Ok <==> str_arg(a, "connection_name"@).len() > 0 && str_arg(a, "sql"@).len() > 0,
        run_sql_query_plan(a) matches Ok(p) ==> (p matches PlanV::SqlRunner(q) && q.method == Method::Post && q.path
            == "/sql_queries"@ && q.body == Some(
            FieldV::Object(
                Map::<Seq<char>, FieldV>::empty().insert("connection_name"@, FieldV::Str(str_arg(a, "connection_name"@))).insert(
                    "sql"@,
                    FieldV::Str(str_arg(a, "sql"@)),
                ),
            ),
        )),
{
    reveal_strlit("");
    assert(""@.len() == 0);
    let e = "/lookml_models/"@ + escaped(str_arg(a, "model_name"@)) + "/explores/"@ + escaped(str_arg(a, "explore_name"@));
    assert(e + ""@ =~= e);
    let p1 = "/looks"@ + "?limit="@ + int_decimal((if int_arg(a, "limit"@) is Some { int_arg(a, "limit"@)->0 as int } else { 25 })) + "&offset="@ + int_decimal((if int_arg(a, "offset"@) is Some { int_arg(a, "offset"@)->0 as int } else { 0 }));
    let p2 = "/dashboards"@ + "?limit="@ + int_decimal((if int_arg(a, "limit"@) is Some { int_arg(a, "limit"@)->0 as int } else { 25 })) + "&offset="@ + int_decimal((if int_arg(a, "offset"@) is Some { int_arg(a, "offset"@)->0 as int } else { 0 }));
    assert(paged_path(a, "/looks"@) =~= p1 + (if str_arg(a, "fields"@).len() > 0 { "&fields="@ + escaped(str_arg(a, "fields"@)) } else { Seq::<char>::empty() }));
    assert(paged_path(a, "/dashboards"@) =~= p2 + (if str_arg(a, "fields"@).len() > 0 { "&fields="@ + escaped(str_arg(a, "fields"@)) } else { Seq::<char>::empty() }));
    assert(list_users_plan(a) == Ok::<PlanV, Seq<char>>(PlanV::Call(bare(Method::Get, "/users"@ + "?limit="@ + int_decimal((if int_arg(a, "limit"@) is Some { int_arg(a, "limit"@)->0 as int } else { 25 })) + "&offset="@ + int_decimal((if int_arg(a, "offset"@) is Some { int_arg(a, "offset"@)->0 as int } else { 0 })))))) by {
        assert("/users"@ + "?limit="@ + int_decimal((if int_arg(a, "limit"@) is Some { int_arg(a, "limit"@)->0 as int } else { 25 })) + "&offset="@ + int_decimal((if int_arg(a, "offset"@) is Some { int_arg(a, "offset"@)->0 as int } else { 0 })) =~= "/users"@ + "?limit="@ + int_decimal((if int_arg(a, "limit"@) is Some { int_arg(a, "limit"@)->0 as int } else { 25 })) + "&offset="@ + int_decimal((if int_arg(a, "offset"@) is Some { int_arg(a, "offset"@)->0 as int } else { 0 })));
    }
    let u = str_arg(a, "user_id"@);
    reveal_strlit("/scheduled_plans?");
    reveal_strlit("user_id=");
    reveal_strlit("&");
    reveal_strlit("all_users=true");
    reveal_strlit("&all_users=true");
    assert("&"@ + "all_users=true"@ =~= "&all_users=true"@);
}


/// Searching content needs search terms, and runs, in this order, the
/// dashboard search by title, the Look search by title and the folder search
/// by name, each with the escaped terms and the page given (25 and 0 by
/// default): all three when no types are given, and otherwise those whose
/// kind some item of the comma-separated types names, trimmed and lower-cased.
pub proof fn lemma_search_content_searches(a: Seq<ArgEntryV>)
    ensures
        search_content_plan(a) is Ok <==> str_arg(a, "terms"@).len() > 0,
        search_content_plan(a) matches Ok(p) ==> p == PlanV::Search(
            (if (str_arg(a, "types"@).len() == 0 || exists|i: int| 0 <= i < split(str_arg(a, "types"@), ',').len() && crate::text::lowercase(trim(#[trigger] split(str_arg(a, "types"@), ',')[i])) == "dashboard"@) {
                seq![("dashboards"@, "/dashboards/search?title="@ + escaped(str_arg(a, "terms"@)) + "&limit="@ + int_decimal(if int_arg(a, "limit"@) is Some { int_arg(a, "limit"@)->0 as int } else { 25 }) + "&offset="@ + int_decimal(if int_arg(a, "offset"@) is Some { int_arg(a, "offset"@)->0 as int } else { 0 }))]
            } else {
                Seq::empty()
            }) + (if (str_arg(a, "types"@).len() == 0 || exists|i: int| 0 <= i < split(str_arg(a, "types"@), ',').len() && crate::text::lowercase(trim(#[trigger] split(str_arg(a, "types"@), ',')[i])) == "look"@) {
                seq![("looks"@, "/looks/search?title="@ + escaped(str_arg(a, "terms"@)) + "&limit="@ + int_decimal(if int_arg(a, "limit"@) is Some { int_arg(a, "limit"@)->0 as int } else { 25 }) + "&offset="@ + int_decimal(if int_arg(a, "offset"@) is Some { int_arg(a, "offset"@)->0 as int } else { 0 }))]
            } else {
                Seq::empty()
            }) + (if (str_arg(a, "types"@).len() == 0 || exists|i: int| 0 <= i < split(str_arg(a, "types"@), ',').len() && crate::text::lowercase(trim(#[trigger] split(str_arg(a, "types"@), ',')[i])) == "folder"@) {
                seq![("folders"@, "/folders/search?name="@ + escaped(str_arg(a, "terms"@)) + "&limit="@ + int_decimal(if int_arg(a, "limit"@) is Some { int_arg(a, "limit"@)->0 as int } else { 25 }) + "&offset="@ + int_decimal(if int_arg(a, "offset"@) is Some { int_arg(a, "offset"@)->0 as int } else { 0 }))]
            } else {
                Seq::empty()
            }),
        ),
{
    let e = escaped(str_arg(a, "terms"@));
    let l = int_or(a, "limit"@, 25);
    let o = int_or(a, "offset"@, 0);
    assert(l == (if int_arg(a, "limit"@) is Some { int_arg(a, "limit"@)->0 as int } else { 25 }));
    assert(o == (if int_arg(a, "offset"@) is Some { int_arg(a, "offset"@)->0 as int } else { 0 }));
    assert("/dashboards/search?title="@ + e + page_query(l, o) =~= "/dashboards/search?title="@ + e + "&limit="@
        + int_decimal(l) + "&offset="@ + int_decimal(o));
    assert("/looks/search?title="@ + e + page_query(l, o) =~= "/looks/search?title="@ + e + "&limit="@ + int_decimal(l)
        + "&offset="@ + int_decimal(o));
    assert("/folders/search?name="@ + e + page_query(l, o) =~= "/folders/search?name="@ + e + "&limit="@ + int_decimal(l)
        + "&offset="@ + int_decimal(o));
}

} // verus!
