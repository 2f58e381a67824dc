//! Requests to a JSON HTTP API: their method, path, query string and JSON
//! body, and what a reply turns into.
use vstd::prelude::*;

use crate::args::{bool_arg, int_arg, str_arg, arg_bool, arg_int, arg_str, ArgEntryV, Args};
use crate::encoding::{encode_component, escaped};
use crate::json::{read_json, serde_json_read};
use crate::text::{
    bool_text, bool_to_string, csv_items, i64_to_string, int_decimal, owned, push_char, push_str,
    split_csv, strings_view,
};

verus! {

// ── Methods and bodies ─────────────────────────────────────────────────────

/// An HTTP method.
#[derive(PartialEq, Eq, Structural, Clone, Copy, Debug)]
pub enum Method {
    Get,
    Post,
    Patch,
    Delete,
}

/// A JSON value to be sent.
#[derive(Debug, PartialEq)]
pub enum Field {
    Null,
    Str(String),
    Int(i64),
    Bool(bool),
    /// A value given by its compact JSON text.
    Json(String),
    /// An array of strings.
    List(Vec<String>),
    /// An object; its members in the order they were set. A key set twice
    /// holds the value set last.
    Object(Vec<(String, Field)>),
}

pub enum FieldV {
    Null,
    Str(Seq<char>),
    Int(int),
    Bool(bool),
    Json(Seq<char>),
    List(Seq<Seq<char>>),
    Object(Map<Seq<char>, FieldV>),
}

impl Field {
    pub open spec fn view(&self) -> FieldV
        decreases self,
    {
        match self {
            Field::Null => FieldV::Null,
            Field::Str(s) => FieldV::Str(s@),
            Field::Int(n) => FieldV::Int(*n as int),
            Field::Bool(b) => FieldV::Bool(*b),
            Field::Json(t) => FieldV::Json(t@),
            Field::List(v) => FieldV::List(strings_view(v@)),
            Field::Object(fs) => FieldV::Object(fields_view(fs@)),
        }
    }
}

/// Copies of a list of strings.
pub fn clone_strings(v: &Vec<String>) -> (r: Vec<String>)
    ensures
        strings_view(r@) == strings_view(v@),
{
    let mut out: Vec<String> = Vec::new();
    let mut i: usize = 0;
    while i < v.len()
        invariant
            0 <= i <= v@.len(),
            strings_view(out@) == strings_view(v@).take(i as int),
        decreases v@.len() - i,
    {
        let ghost before = out@;
        out.push(v[i].clone());
        assert(strings_view(out@) =~= strings_view(before).push(v@[i as int]@));
        assert(strings_view(v@).take(i + 1) =~= strings_view(v@).take(i as int).push(v@[i as int]@));
        i = i + 1;
    }
    assert(strings_view(v@).take(v@.len() as int) == strings_view(v@));
    out
}

impl Field {
    /// A copy of the value.
    pub fn duplicate(&self) -> (r: Field)
        ensures
            r.view() == self.view(),
        decreases self,
    {
        match self {
            Field::Null => Field::Null,
            Field::Str(s) => Field::Str(s.clone()),
            Field::Int(n) => Field::Int(*n),
            Field::Bool(b) => Field::Bool(*b),
            Field::Json(t) => Field::Json(t.clone()),
            Field::List(v) => Field::List(clone_strings(v)),
            Field::Object(fs) => {
                let mut out: Vec<(String, Field)> = Vec::new();
                let mut i: usize = 0;
                while i < fs.len()
                    invariant
                        0 <= i <= fs@.len(),
                        *self == Field::Object(*fs),
                        fields_view(out@) == fields_view(fs@.take(i as int)),
                    decreases fs@.len() - i,
                {
                    proof {
                        let e = fs@[i as int];
                        assert(decreases_to!(*self => self->Object_0));
                        assert(decreases_to!(*fs => fs@));
                        assert(decreases_to!(fs@ => e));
                        assert(decreases_to!(e => e.1));
                        assert(decreases_to!(*self => e.1));
                    }
                    let v = fs[i].1.duplicate();
                    let ghost before = out@;
                    out.push((fs[i].0.clone(), v));
                    assert(out@.drop_last() == before);
                    assert(fs@.take(i + 1).drop_last() == fs@.take(i as int));
                    i = i + 1;
                }
                assert(fs@.take(fs@.len() as int) == fs@);
                Field::Object(out)
            },
        }
    }
}

/// The members of an object: each key with the value set last for it.
pub open spec fn fields_view(fs: Seq<(String, Field)>) -> Map<Seq<char>, FieldV>
    decreases fs,
{
    if fs.len() == 0 {
        Map::empty()
    } else {
        fields_view(fs.drop_last()).insert(fs.last().0@, fs.last().1.view())
    }
}

/// Sets member `key` of an object to `value`.
pub fn put(fields: &mut Vec<(String, Field)>, key: &str, value: Field)
    ensures
        fields_view(final(fields)@) == fields_view(old(fields)@).insert(key@, value.view()),
        final(fields)@.len() == old(fields)@.len() + 1,
{
    let ghost v = value.view();
    fields.push((owned(key), value));
    assert(final(fields)@.drop_last() == old(fields)@);
}

/// An object with no members has an empty member list, and conversely.
pub proof fn lemma_fields_empty(fs: Seq<(String, Field)>)
    ensures
        (fields_view(fs) =~= Map::<Seq<char>, FieldV>::empty()) <==> fs.len() == 0,
{
    if fs.len() > 0 {
        assert(fields_view(fs).dom().contains(fs.last().0@));
    }
}

/// A request to an API, relative to the API's base URL.
#[derive(Debug, PartialEq)]
pub struct ApiRequest {
    pub method: Method,
    pub path: String,
    pub body: Option<Field>,
}

pub struct RequestV {
    pub method: Method,
    pub path: Seq<char>,
    pub body: Option<FieldV>,
}

impl ApiRequest {
    pub open spec fn view(&self) -> RequestV {
        RequestV {
            method: self.method,
            path: self.path@,
            body: match self.body {
                Some(b) => Some(b.view()),
                None => None,
            },
        }
    }
}

/// The view of a tool's plan: the request it makes, or the error it reports
/// without making one.
pub open spec fn plan_view(r: Result<ApiRequest, String>) -> Result<RequestV, Seq<char>> {
    match r {
        Ok(q) => Ok(q.view()),
        Err(e) => Err(e@),
    }
}

/// A request without a body.
pub open spec fn bare(method: Method, path: Seq<char>) -> RequestV {
    RequestV { method, path, body: None }
}

/// A request with a JSON object as its body.
pub open spec fn with_body(method: Method, path: Seq<char>, body: Map<Seq<char>, FieldV>) -> RequestV {
    RequestV { method, path, body: Some(FieldV::Object(body)) }
}

pub fn request(method: Method, path: String) -> (r: ApiRequest)
    ensures
        r.view() == bare(method, path@),
{
    ApiRequest { method, path, body: None }
}

pub fn request_with(method: Method, path: String, fields: Vec<(String, Field)>) -> (r: ApiRequest)
    ensures
        r.view() == with_body(method, path@, fields_view(fields@)),
{
    ApiRequest { method, path, body: Some(Field::Object(fields)) }
}

// ── Paths ──────────────────────────────────────────────────────────────────

/// `prefix` followed by the escape of `segment`.
pub fn path_with(prefix: &str, segment: &str) -> (r: String)
    ensures
        r@ == prefix@ + escaped(segment@),
{
    let mut p = owned(prefix);
    let e = encode_component(segment);
    push_str(&mut p, e.as_str());
    p
}

/// `prefix`, the escape of `segment`, then `suffix`.
pub fn path_around(prefix: &str, segment: &str, suffix: &str) -> (r: String)
    ensures
        r@ == prefix@ + escaped(segment@) + suffix@,
{
    let mut p = path_with(prefix, segment);
    push_str(&mut p, suffix);
    p
}

// ── Query strings ──────────────────────────────────────────────────────────

/// The view of a list of string pairs.
pub open spec fn pairs_view(v: Seq<(String, String)>) -> Seq<(Seq<char>, Seq<char>)> {
    v.map_values(|p: (String, String)| (p.0@, p.1@))
}

/// `key=value`, both escaped.
pub open spec fn query_pair(p: (Seq<char>, Seq<char>)) -> Seq<char> {
    escaped(p.0) + "="@ + escaped(p.1)
}

/// The pairs joined with `&`.
pub open spec fn query_string(params: Seq<(Seq<char>, Seq<char>)>) -> Seq<char>
    decreases params.len(),
{
    if params.len() == 0 {
        Seq::empty()
    } else if params.len() == 1 {
        query_pair(params[0])
    } else {
        query_string(params.drop_last()) + "&"@ + query_pair(params.last())
    }
}

/// `path` with the query string of `params`; `path` alone when there are none.
pub open spec fn with_query(path: Seq<char>, params: Seq<(Seq<char>, Seq<char>)>) -> Seq<char> {
    if params.len() == 0 {
        path
    } else {
        path + "?"@ + query_string(params)
    }
}

/// Appends the query string of `params` to `path`.
pub fn append_query(path: &str, params: &Vec<(String, String)>) -> (r: String)
    ensures
        r@ == with_query(path@, pairs_view(params@)),
{
    let ghost ps = pairs_view(params@);
    if params.len() == 0 {
        return owned(path);
    }
    let mut q = String::new();
    let mut i: usize = 0;
    while i < params.len()
        invariant
            0 <= i <= params@.len(),
            ps == pairs_view(params@),
            q@ == query_string(ps.take(i as int)),
        decreases params@.len() - i,
    {
        assert(ps.take(i + 1).drop_last() == ps.take(i as int));
        assert(ps.take(i + 1).last() == ps[i as int]);
        if i > 0 {
            push_char(&mut q, '&');
            proof {
                reveal_strlit("&");
            }
        }
        let k = encode_component(params[i].0.as_str());
        let v = encode_component(params[i].1.as_str());
        push_str(&mut q, k.as_str());
        push_char(&mut q, '=');
        push_str(&mut q, v.as_str());
        proof {
            reveal_strlit("=");
            assert(q@ == query_string(ps.take(i + 1)));
        }
        i = i + 1;
    }
    assert(ps.take(params@.len() as int) == ps);
    let mut r = owned(path);
    push_char(&mut r, '?');
    push_str(&mut r, q.as_str());
    proof {
        reveal_strlit("?");
    }
    r
}

/// `(key, value)` when the argument `arg` reads as a non-empty string.
pub open spec fn str_param(a: Seq<ArgEntryV>, arg: Seq<char>, key: Seq<char>) -> Seq<(Seq<char>, Seq<char>)> {
    if str_arg(a, arg).len() > 0 {
        seq![(key, str_arg(a, arg))]
    } else {
        seq![]
    }
}

/// `(key, decimal value)` when the argument `arg` reads as an integer.
pub open spec fn int_param(a: Seq<ArgEntryV>, arg: Seq<char>, key: Seq<char>) -> Seq<(Seq<char>, Seq<char>)> {
    match int_arg(a, arg) {
        Some(n) => seq![(key, int_decimal(n as int))],
        None => seq![],
    }
}

/// `(key, "true" or "false")` when the argument `arg` reads as a boolean.
pub open spec fn bool_param(a: Seq<ArgEntryV>, arg: Seq<char>, key: Seq<char>) -> Seq<(Seq<char>, Seq<char>)> {
    match bool_arg(a, arg) {
        Some(b) => seq![(key, bool_text(b))],
        None => seq![],
    }
}

/// `(key, item)` for each item of the comma-separated list in argument `arg`.
pub open spec fn repeated_param(a: Seq<ArgEntryV>, arg: Seq<char>, key: Seq<char>) -> Seq<(Seq<char>, Seq<char>)> {
    csv_items(str_arg(a, arg)).map_values(|item: Seq<char>| (key, item))
}

/// A pair of owned strings.
pub fn pair(key: &str, value: String) -> (r: (String, String))
    ensures
        r.0@ == key@,
        r.1@ == value@,
{
    (owned(key), value)
}

/// `add_str_param`.
pub fn add_str_param(args: &Args, params: &mut Vec<(String, String)>, arg: &str, key: &str)
    ensures
        pairs_view(final(params)@) == pairs_view(old(params)@) + str_param(args.view(), arg@, key@),
{
    let value = arg_str(args, arg);
    if !value.as_str().is_empty() {
        params.push(pair(key, value));
        assert(pairs_view(final(params)@) =~= pairs_view(old(params)@) + str_param(args.view(), arg@, key@));
    } else {
        assert(pairs_view(final(params)@) =~= pairs_view(old(params)@) + str_param(args.view(), arg@, key@));
    }
}

/// `add_int_param`.
pub fn add_int_param(args: &Args, params: &mut Vec<(String, String)>, arg: &str, key: &str)
    ensures
        pairs_view(final(params)@) == pairs_view(old(params)@) + int_param(args.view(), arg@, key@),
{
    if let Some(n) = arg_int(args, arg) {
        params.push(pair(key, i64_to_string(n)));
    }
    assert(pairs_view(final(params)@) =~= pairs_view(old(params)@) + int_param(args.view(), arg@, key@));
}

/// `add_bool_param`.
pub fn add_bool_param(args: &Args, params: &mut Vec<(String, String)>, arg: &str, key: &str)
    ensures
        pairs_view(final(params)@) == pairs_view(old(params)@) + bool_param(args.view(), arg@, key@),
{
    if let Some(b) = arg_bool(args, arg) {
        params.push(pair(key, bool_to_string(b)));
    }
    assert(pairs_view(final(params)@) =~= pairs_view(old(params)@) + bool_param(args.view(), arg@, key@));
}

/// `add_repeated_param`: one pair per item of a comma-separated argument.
pub fn add_repeated_param(args: &Args, params: &mut Vec<(String, String)>, arg: &str, key: &str)
    ensures
        pairs_view(final(params)@) == pairs_view(old(params)@) + repeated_param(args.view(), arg@, key@),
{
    let value = arg_str(args, arg);
    let items = split_csv(value.as_str());
    let ghost start = pairs_view(params@);
    let ghost want = repeated_param(args.view(), arg@, key@);
    let mut i: usize = 0;
    while i < items.len()
        invariant
            0 <= i <= items@.len(),
            strings_view(items@) == csv_items(str_arg(args.view(), arg@)),
            want == repeated_param(args.view(), arg@, key@),
            want.len() == items@.len(),
            pairs_view(params@) == start + want.take(i as int),
        decreases items@.len() - i,
    {
        assert(want[i as int] == (key@, items@[i as int]@));
        let ghost before = params@;
        let p = pair(key, items[i].clone());
        params.push(p);
        assert(pairs_view(params@) =~= pairs_view(before).push((p.0@, p.1@)));
        assert(want.take(i + 1) == want.take(i as int).push(want[i as int]));
        assert(pairs_view(params@) =~= start + want.take(i + 1));
        i = i + 1;
    }
    assert(want.take(items@.len() as int) == want);
}

/// `n` clamped to `lo..=hi`, as `Ord::clamp` does.
pub open spec fn clamp(n: int, lo: int, hi: int) -> int {
    if n < lo {
        lo
    } else if n > hi {
        hi
    } else {
        n
    }
}

pub fn clamp_i64(n: i64, lo: i64, hi: i64) -> (r: i64)
    requires
        lo <= hi,
    ensures
        r == clamp(n as int, lo as int, hi as int),
{
    if n < lo {
        lo
    } else if n > hi {
        hi
    } else {
        n
    }
}

/// `(key, decimal text of the clamped value)`, the value being the integer
/// argument `arg` or `default` when it does not read as one.
pub open spec fn clamped_param(
    a: Seq<ArgEntryV>,
    arg: Seq<char>,
    default: int,
    lo: int,
    hi: int,
) -> (Seq<char>, Seq<char>) {
    let n = match int_arg(a, arg) {
        Some(n) => n as int,
        None => default,
    };
    (arg, int_decimal(clamp(n, lo, hi)))
}

/// The pair `(arg, value)` for an integer argument with a default, clamped.
pub fn clamped_pair(args: &Args, arg: &str, default: i64, lo: i64, hi: i64) -> (r: (String, String))
    requires
        lo <= hi,
    ensures
        (r.0@, r.1@) == clamped_param(args.view(), arg@, default as int, lo as int, hi as int),
{
    let n = match arg_int(args, arg) {
        Some(n) => n,
        None => default,
    };
    pair(arg, i64_to_string(clamp_i64(n, lo, hi)))
}


/// `prefix`, the escape of `x`, `mid`, the escape of `y`, then `suffix`.
pub fn path_two(prefix: &str, x: &str, mid: &str, y: &str, suffix: &str) -> (r: String)
    ensures
        r@ == prefix@ + escaped(x@) + mid@ + escaped(y@) + suffix@,
{
    let mut p = path_around(prefix, x, mid);
    push_str(&mut p, encode_component(y).as_str());
    push_str(&mut p, suffix);
    p
}

// ── Bodies from arguments ──────────────────────────────────────────────────

/// `m` with `k` set to `v` when there is a value.
pub open spec fn put_opt(m: Map<Seq<char>, FieldV>, k: Seq<char>, v: Option<FieldV>) -> Map<Seq<char>, FieldV> {
    match v {
        Some(x) => m.insert(k, x),
        None => m,
    }
}

/// The string argument `k`, when it is not empty.
pub open spec fn str_field(a: Seq<ArgEntryV>, k: Seq<char>) -> Option<FieldV> {
    if str_arg(a, k).len() > 0 {
        Some(FieldV::Str(str_arg(a, k)))
    } else {
        None
    }
}

/// The integer argument `k`, when it reads as one.
pub open spec fn int_field(a: Seq<ArgEntryV>, k: Seq<char>) -> Option<FieldV> {
    match int_arg(a, k) {
        Some(n) => Some(FieldV::Int(n as int)),
        None => None,
    }
}

/// The boolean argument `k`, when it reads as one.
pub open spec fn bool_field(a: Seq<ArgEntryV>, k: Seq<char>) -> Option<FieldV> {
    match bool_arg(a, k) {
        Some(b) => Some(FieldV::Bool(b)),
        None => None,
    }
}

/// The views of a list of keys.
pub open spec fn keys_view(ks: Seq<&str>) -> Seq<Seq<char>> {
    ks.map_values(|k: &str| k@)
}

/// `m` with each of the keys `ks` set, in order, to its string argument.
pub open spec fn put_strs(m: Map<Seq<char>, FieldV>, a: Seq<ArgEntryV>, ks: Seq<Seq<char>>) -> Map<Seq<char>, FieldV>
    decreases ks.len(),
{
    if ks.len() == 0 {
        m
    } else {
        put_opt(put_strs(m, a, ks.drop_last()), ks.last(), str_field(a, ks.last()))
    }
}

/// `m` with each of the keys `ks` set, in order, to its integer argument.
pub open spec fn put_ints(m: Map<Seq<char>, FieldV>, a: Seq<ArgEntryV>, ks: Seq<Seq<char>>) -> Map<Seq<char>, FieldV>
    decreases ks.len(),
{
    if ks.len() == 0 {
        m
    } else {
        put_opt(put_ints(m, a, ks.drop_last()), ks.last(), int_field(a, ks.last()))
    }
}

/// `m` with each of the keys `ks` set, in order, to its boolean argument.
pub open spec fn put_bools(m: Map<Seq<char>, FieldV>, a: Seq<ArgEntryV>, ks: Seq<Seq<char>>) -> Map<Seq<char>, FieldV>
    decreases ks.len(),
{
    if ks.len() == 0 {
        m
    } else {
        put_opt(put_bools(m, a, ks.drop_last()), ks.last(), bool_field(a, ks.last()))
    }
}

/// What is in one of two sequences is in their concatenation.
pub proof fn lemma_concat_contains<T>(p: Seq<T>, q: Seq<T>, x: T)
    ensures
        p.contains(x) || q.contains(x) ==> (p + q).contains(x),
{
    if p.contains(x) {
        let k = choose|k: int| 0 <= k < p.len() && p[k] == x;
        assert((p + q)[k] == x);
    } else if q.contains(x) {
        let k = choose|k: int| 0 <= k < q.len() && q[k] == x;
        assert((p + q)[p.len() + k] == x);
    }
}

/// Text argument `k` is carried as member `k` when it is not empty, and the
/// member is absent otherwise.
pub open spec fn copies_text(m: Map<Seq<char>, FieldV>, a: Seq<ArgEntryV>, k: Seq<char>) -> bool {
    if str_arg(a, k).len() > 0 {
        m.contains_key(k) && m[k] == FieldV::Str(str_arg(a, k))
    } else {
        !m.contains_key(k)
    }
}

/// Integer argument `k` is carried as member `k` when it reads as one, and
/// the member is absent otherwise.
pub open spec fn copies_int(m: Map<Seq<char>, FieldV>, a: Seq<ArgEntryV>, k: Seq<char>) -> bool {
    match int_arg(a, k) {
        Some(n) => m.contains_key(k) && m[k] == FieldV::Int(n as int),
        None => !m.contains_key(k),
    }
}

/// Boolean argument `k` is carried as member `k` when it reads as one, and
/// the member is absent otherwise.
pub open spec fn copies_flag(m: Map<Seq<char>, FieldV>, a: Seq<ArgEntryV>, k: Seq<char>) -> bool {
    match bool_arg(a, k) {
        Some(b) => m.contains_key(k) && m[k] == FieldV::Bool(b),
        None => !m.contains_key(k),
    }
}

/// After `put_strs`, a key of the list whose argument is given holds that
/// argument; any other key holds what it held before.
pub proof fn lemma_put_strs_at(m: Map<Seq<char>, FieldV>, a: Seq<ArgEntryV>, ks: Seq<Seq<char>>, k: Seq<char>)
    ensures
        ks.contains(k) && str_arg(a, k).len() > 0 ==> put_strs(m, a, ks).contains_key(k) && put_strs(m, a, ks)[k] == FieldV::Str(str_arg(a, k)),
        !(ks.contains(k) && str_arg(a, k).len() > 0) ==> (put_strs(m, a, ks).contains_key(k) == m.contains_key(k) && (m.contains_key(k)
            ==> put_strs(m, a, ks)[k] == m[k])),
    decreases ks.len(),
{
    if ks.len() > 0 {
        let d = ks.drop_last();
        lemma_put_strs_at(m, a, d, k);
        if ks.contains(k) && k != ks.last() {
            let i = choose|i: int| 0 <= i < ks.len() && ks[i] == k;
            assert(d[i] == k);
        }
        if d.contains(k) {
            let i = choose|i: int| 0 <= i < d.len() && d[i] == k;
            assert(ks[i] == k);
        }
    }
}

/// After `put_ints`, a key of the list whose argument is given holds that
/// argument; any other key holds what it held before.
pub proof fn lemma_put_ints_at(m: Map<Seq<char>, FieldV>, a: Seq<ArgEntryV>, ks: Seq<Seq<char>>, k: Seq<char>)
    ensures
        ks.contains(k) && int_arg(a, k) is Some ==> put_ints(m, a, ks).contains_key(k) && put_ints(m, a, ks)[k] == FieldV::Int(int_arg(a, k)->0 as int),
        !(ks.contains(k) && int_arg(a, k) is Some) ==> (put_ints(m, a, ks).contains_key(k) == m.contains_key(k) && (m.contains_key(k)
            ==> put_ints(m, a, ks)[k] == m[k])),
    decreases ks.len(),
{
    if ks.len() > 0 {
        let d = ks.drop_last();
        lemma_put_ints_at(m, a, d, k);
        if ks.contains(k) && k != ks.last() {
            let i = choose|i: int| 0 <= i < ks.len() && ks[i] == k;
            assert(d[i] == k);
        }
        if d.contains(k) {
            let i = choose|i: int| 0 <= i < d.len() && d[i] == k;
            assert(ks[i] == k);
        }
    }
}

/// After `put_bools`, a key of the list whose argument is given holds that
/// argument; any other key holds what it held before.
pub proof fn lemma_put_bools_at(m: Map<Seq<char>, FieldV>, a: Seq<ArgEntryV>, ks: Seq<Seq<char>>, k: Seq<char>)
    ensures
        ks.contains(k) && bool_arg(a, k) is Some ==> put_bools(m, a, ks).contains_key(k) && put_bools(m, a, ks)[k] == FieldV::Bool(bool_arg(a, k)->0),
        !(ks.contains(k) && bool_arg(a, k) is Some) ==> (put_bools(m, a, ks).contains_key(k) == m.contains_key(k) && (m.contains_key(k)
            ==> put_bools(m, a, ks)[k] == m[k])),
    decreases ks.len(),
{
    if ks.len() > 0 {
        let d = ks.drop_last();
        lemma_put_bools_at(m, a, d, k);
        if ks.contains(k) && k != ks.last() {
            let i = choose|i: int| 0 <= i < ks.len() && ks[i] == k;
            assert(d[i] == k);
        }
        if d.contains(k) {
            let i = choose|i: int| 0 <= i < d.len() && d[i] == k;
            assert(ks[i] == k);
        }
    }
}

/// `insert_string_body`: sets `key` to the string argument of the same name
/// when it is not empty.
pub fn put_str_arg(args: &Args, fields: &mut Vec<(String, Field)>, key: &str)
    ensures
        fields_view(final(fields)@) == put_opt(fields_view(old(fields)@), key@, str_field(args.view(), key@)),
{
    let value = arg_str(args, key);
    if !value.as_str().is_empty() {
        put(fields, key, Field::Str(value));
    }
}

/// `insert_i64_body`: sets `key` to the integer argument of the same name.
pub fn put_int_arg(args: &Args, fields: &mut Vec<(String, Field)>, key: &str)
    ensures
        fields_view(final(fields)@) == put_opt(fields_view(old(fields)@), key@, int_field(args.view(), key@)),
{
    if let Some(n) = arg_int(args, key) {
        put(fields, key, Field::Int(n));
    }
}

/// `insert_bool_body`: sets `key` to the boolean argument of the same name.
pub fn put_bool_arg(args: &Args, fields: &mut Vec<(String, Field)>, key: &str)
    ensures
        fields_view(final(fields)@) == put_opt(fields_view(old(fields)@), key@, bool_field(args.view(), key@)),
{
    if let Some(b) = arg_bool(args, key) {
        put(fields, key, Field::Bool(b));
    }
}

/// `insert_string_body` for each key, in order.
pub fn put_str_args(args: &Args, fields: &mut Vec<(String, Field)>, keys: &[&str])
    ensures
        fields_view(final(fields)@) == put_strs(fields_view(old(fields)@), args.view(), keys_view(keys@)),
{
    let ghost start = fields_view(fields@);
    let ghost ks = keys_view(keys@);
    let mut i: usize = 0;
    while i < keys.len()
        invariant
            0 <= i <= keys@.len(),
            ks == keys_view(keys@),
            fields_view(fields@) == put_strs(start, args.view(), ks.take(i as int)),
        decreases keys@.len() - i,
    {
        assert(ks.take(i + 1).drop_last() == ks.take(i as int));
        put_str_arg(args, fields, keys[i]);
        i = i + 1;
    }
    assert(ks.take(keys@.len() as int) == ks);
}

/// `insert_i64_body` for each key, in order.
pub fn put_int_args(args: &Args, fields: &mut Vec<(String, Field)>, keys: &[&str])
    ensures
        fields_view(final(fields)@) == put_ints(fields_view(old(fields)@), args.view(), keys_view(keys@)),
{
    let ghost start = fields_view(fields@);
    let ghost ks = keys_view(keys@);
    let mut i: usize = 0;
    while i < keys.len()
        invariant
            0 <= i <= keys@.len(),
            ks == keys_view(keys@),
            fields_view(fields@) == put_ints(start, args.view(), ks.take(i as int)),
        decreases keys@.len() - i,
    {
        assert(ks.take(i + 1).drop_last() == ks.take(i as int));
        put_int_arg(args, fields, keys[i]);
        i = i + 1;
    }
    assert(ks.take(keys@.len() as int) == ks);
}

/// `insert_bool_body` for each key, in order.
pub fn put_bool_args(args: &Args, fields: &mut Vec<(String, Field)>, keys: &[&str])
    ensures
        fields_view(final(fields)@) == put_bools(fields_view(old(fields)@), args.view(), keys_view(keys@)),
{
    let ghost start = fields_view(fields@);
    let ghost ks = keys_view(keys@);
    let mut i: usize = 0;
    while i < keys.len()
        invariant
            0 <= i <= keys@.len(),
            ks == keys_view(keys@),
            fields_view(fields@) == put_bools(start, args.view(), ks.take(i as int)),
        decreases keys@.len() - i,
    {
        assert(ks.take(i + 1).drop_last() == ks.take(i as int));
        put_bool_arg(args, fields, keys[i]);
        i = i + 1;
    }
    assert(ks.take(keys@.len() as int) == ks);
}

// ── Requests about one resource ────────────────────────────────────────────

/// A request to `prefix{escaped id}suffix`, the id being the required
/// argument `key`.
pub open spec fn id_plan(
    a: Seq<ArgEntryV>,
    key: Seq<char>,
    method: Method,
    prefix: Seq<char>,
    suffix: Seq<char>,
) -> Result<RequestV, Seq<char>> {
    match crate::args::required_arg(a, key) {
        Err(e) => Err(e),
        Ok(id) => Ok(bare(method, prefix + escaped(id) + suffix)),
    }
}

/// The request `id_plan` describes.
pub fn id_request(args: &Args, key: &str, method: Method, prefix: &str, suffix: &str) -> (r: Result<ApiRequest, String>)
    ensures
        plan_view(r) == id_plan(args.view(), key@, method, prefix@, suffix@),
{
    let id = match crate::args::required(args, key) {
        Ok(v) => v,
        Err(e) => return Err(e),
    };
    Ok(request(method, path_around(prefix, id.as_str(), suffix)))
}

/// A request with an empty JSON object as its body, to
/// `prefix{escaped id}suffix`, the id being the required argument `key`.
pub open spec fn id_empty_body_plan(
    a: Seq<ArgEntryV>,
    key: Seq<char>,
    method: Method,
    prefix: Seq<char>,
    suffix: Seq<char>,
) -> Result<RequestV, Seq<char>> {
    match crate::args::required_arg(a, key) {
        Err(e) => Err(e),
        Ok(id) => Ok(with_body(method, prefix + escaped(id) + suffix, Map::empty())),
    }
}

/// The request `id_empty_body_plan` describes.
pub fn id_empty_body_request(args: &Args, key: &str, method: Method, prefix: &str, suffix: &str) -> (r: Result<ApiRequest, String>)
    ensures
        plan_view(r) == id_empty_body_plan(args.view(), key@, method, prefix@, suffix@),
{
    let id = match crate::args::required(args, key) {
        Ok(v) => v,
        Err(e) => return Err(e),
    };
    Ok(request_with(method, path_around(prefix, id.as_str(), suffix), Vec::new()))
}

/// A request to `prefix{x}mid{y}suffix`, `x` and `y` being the escapes of
/// the required arguments `k1` and `k2`.
pub open spec fn id2_plan(
    a: Seq<ArgEntryV>,
    k1: Seq<char>,
    k2: Seq<char>,
    method: Method,
    prefix: Seq<char>,
    mid: Seq<char>,
    suffix: Seq<char>,
) -> Result<RequestV, Seq<char>> {
    match crate::args::required_arg(a, k1) {
        Err(e) => Err(e),
        Ok(x) => match crate::args::required_arg(a, k2) {
            Err(e) => Err(e),
            Ok(y) => Ok(bare(method, prefix + escaped(x) + mid + escaped(y) + suffix)),
        },
    }
}

/// The request `id2_plan` describes.
pub fn id2_request(args: &Args, k1: &str, k2: &str, method: Method, prefix: &str, mid: &str, suffix: &str) -> (r: Result<ApiRequest, String>)
    ensures
        plan_view(r) == id2_plan(args.view(), k1@, k2@, method, prefix@, mid@, suffix@),
{
    let x = match crate::args::required(args, k1) {
        Ok(v) => v,
        Err(e) => return Err(e),
    };
    let y = match crate::args::required(args, k2) {
        Ok(v) => v,
        Err(e) => return Err(e),
    };
    Ok(request(method, path_two(prefix, x.as_str(), mid, y.as_str(), suffix)))
}

// ── Replies ────────────────────────────────────────────────────────────────

/// The result of a reply with no content.
pub open spec fn success_text() -> Seq<char> {
    "{\"status\":\"success\"}"@
}

/// What a tool reports for an API reply: an error for status 400 and above;
/// `{"status":"success"}` for status 204 or an empty body; otherwise the
/// compact text of the JSON body, or an error when it is not JSON.
pub open spec fn reply_outcome(service: Seq<char>, status: i32, body: Seq<char>) -> Result<Seq<char>, Seq<char>> {
    if status >= 400 {
        Err(service + " API error ("@ + int_decimal(status as int) + "): "@ + body)
    } else if status == 204 || body.len() == 0 {
        Ok(success_text())
    } else {
        match serde_json_read(body) {
            Ok((_, text)) => Ok(text),
            Err(e) => Err(service + ": decode response: "@ + e),
        }
    }
}

/// A reply with status 400 or more is an error naming the service, the
/// status and the body; one with status 204 or an empty body is
/// `{"status":"success"}`; any other is the JSON text that `serde_json`
/// writes for the body, or, when the body is not JSON, an error naming the
/// service.
pub proof fn lemma_reply_outcome(service: Seq<char>, status: i32, body: Seq<char>)
    ensures
        status >= 400 ==> reply_outcome(service, status, body) == Err::<Seq<char>, Seq<char>>(
            service + " API error ("@ + int_decimal(status as int) + "): "@ + body,
        ),
        status < 400 && (status == 204 || body.len() == 0) ==> reply_outcome(service, status, body) == Ok::<
            Seq<char>,
            Seq<char>,
        >("{\"status\":\"success\"}"@),
        status < 400 && status != 204 && body.len() > 0 ==> reply_outcome(service, status, body) == match serde_json_read(body) {
            Ok((_, t)) => Ok::<Seq<char>, Seq<char>>(t),
            Err(e) => Err(service + ": decode response: "@ + e),
        },
{
}

/// The view of a tool's outcome.
pub open spec fn outcome_view(r: Result<String, String>) -> Result<Seq<char>, Seq<char>> {
    match r {
        Ok(s) => Ok(s@),
        Err(e) => Err(e@),
    }
}

/// Turns an API reply into what the tool reports; `service` names the API in
/// messages.
pub fn reply(service: &str, status: i32, body: &str) -> (r: Result<String, String>)
    ensures
        outcome_view(r) == reply_outcome(service@, status, body@),
{
    if status >= 400 {
        let mut m = owned(service);
        push_str(&mut m, " API error (");
        push_str(&mut m, i64_to_string(status as i64).as_str());
        push_str(&mut m, "): ");
        push_str(&mut m, body);
        return Err(m);
    }
    if status == 204 || body.is_empty() {
        return Ok(owned("{\"status\":\"success\"}"));
    }
    match read_json(body) {
        Ok(j) => Ok(j.text),
        Err(e) => {
            let mut m = owned(service);
            push_str(&mut m, ": decode response: ");
            push_str(&mut m, e.as_str());
            Err(m)
        },
    }
}

// ── Tool routing ───────────────────────────────────────────────────────────

/// The error for a tool name that a plugin does not have.
pub open spec fn unknown_tool(name: Seq<char>) -> Seq<char> {
    "unknown tool: "@ + name
}

pub fn unknown_tool_error(name: &str) -> (r: String)
    ensures
        r@ == unknown_tool(name@),
{
    let mut m = owned("unknown tool: ");
    push_str(&mut m, name);
    m
}

// ── Credentials ────────────────────────────────────────────────────────────

/// The credential `key` of a credentials object, empty when absent.
pub open spec fn map_credential(m: Map<Seq<char>, Seq<char>>, key: Seq<char>) -> Seq<char> {
    if m.contains_key(key) {
        m[key]
    } else {
        Seq::empty()
    }
}

/// The credential `key` among listed entries, empty when absent.
pub open spec fn credential_of(creds: Seq<(String, String)>, key: Seq<char>) -> Seq<char> {
    map_credential(pairs_map(pairs_view(creds)), key)
}

/// The credential `key` from the credentials JSON object, empty when absent.
pub fn credential(creds: &Vec<(String, String)>, key: &str) -> (r: String)
    ensures
        r@ == credential_of(creds@, key@),
{
    match lookup(creds, key) {
        Some(v) => v,
        None => String::new(),
    }
}

/// `"{service}: {what}"`.
pub open spec fn tagged(service: Seq<char>, what: Seq<char>) -> Seq<char> {
    service + ": "@ + what
}

pub fn tagged_message(service: &str, what: &str) -> (r: String)
    ensures
        r@ == tagged(service@, what@),
{
    let mut m = owned(service);
    push_str(&mut m, ": ");
    push_str(&mut m, what);
    m
}

// ── HTTP ───────────────────────────────────────────────────────────────────

/// The body of an HTTP request.
#[derive(Debug, PartialEq)]
pub enum HttpBody {
    Empty,
    /// A JSON value, sent as its compact text.
    Json(Field),
    /// A URL-encoded form, sent as it is.
    Form(String),
}

pub enum HttpBodyV {
    Empty,
    Json(FieldV),
    Form(Seq<char>),
}

impl HttpBody {
    pub open spec fn view(&self) -> HttpBodyV {
        match self {
            HttpBody::Empty => HttpBodyV::Empty,
            HttpBody::Json(f) => HttpBodyV::Json(f.view()),
            HttpBody::Form(t) => HttpBodyV::Form(t@),
        }
    }
}

/// The HTTP body that carries an optional JSON body.
pub open spec fn json_body(b: Option<FieldV>) -> HttpBodyV {
    match b {
        Some(f) => HttpBodyV::Json(f),
        None => HttpBodyV::Empty,
    }
}

pub fn json_http_body(b: Option<Field>) -> (r: HttpBody)
    ensures
        r.view() == json_body(
            match b {
                Some(f) => Some(f.view()),
                None => None,
            },
        ),
{
    match b {
        Some(f) => HttpBody::Json(f),
        None => HttpBody::Empty,
    }
}

/// A complete HTTP request, as the host sends it.
#[derive(Debug, PartialEq)]
pub struct HttpCall {
    pub method: Method,
    pub url: String,
    /// Header names and values; a name set twice holds the value set last.
    pub headers: Vec<(String, String)>,
    pub body: HttpBody,
}

/// Header names and values, as a map: each name with the value set last.
pub open spec fn pairs_map(v: Seq<(Seq<char>, Seq<char>)>) -> Map<Seq<char>, Seq<char>>
    decreases v.len(),
{
    if v.len() == 0 {
        Map::empty()
    } else {
        pairs_map(v.drop_last()).insert(v.last().0, v.last().1)
    }
}

pub struct HttpCallV {
    pub method: Method,
    pub url: Seq<char>,
    pub headers: Map<Seq<char>, Seq<char>>,
    pub body: HttpBodyV,
}

impl HttpCall {
    pub open spec fn view(&self) -> HttpCallV {
        HttpCallV {
            method: self.method,
            url: self.url@,
            headers: pairs_map(pairs_view(self.headers@)),
            body: self.body.view(),
        }
    }
}

/// Adds a header.
pub fn add_header(headers: &mut Vec<(String, String)>, name: &str, value: String)
    ensures
        pairs_map(pairs_view(final(headers)@)) == pairs_map(pairs_view(old(headers)@)).insert(
            name@,
            value@,
        ),
{
    let ghost v = value@;
    headers.push(pair(name, value));
    assert(pairs_view(final(headers)@).drop_last() == pairs_view(old(headers)@));
}

proof fn lemma_pairs_map_suffix(ps: Seq<(Seq<char>, Seq<char>)>, i: int, k: Seq<char>)
    requires
        0 <= i <= ps.len(),
        forall|j: int| i <= j < ps.len() ==> #[trigger] ps[j].0 != k,
    ensures
        pairs_map(ps).contains_key(k) == pairs_map(ps.take(i)).contains_key(k),
        pairs_map(ps).contains_key(k) ==> pairs_map(ps)[k] == pairs_map(ps.take(i))[k],
    decreases ps.len() - i,
{
    if i == ps.len() {
        assert(ps.take(i) == ps);
    } else {
        let d = ps.drop_last();
        assert(ps.last().0 != k);
        assert forall|j: int| i <= j < d.len() implies #[trigger] d[j].0 != k by {
            assert(d[j] == ps[j]);
        }
        lemma_pairs_map_suffix(d, i, k);
        assert(d.take(i) == ps.take(i));
    }
}

/// The value of `key` among string pairs where a key set twice holds the
/// value set last, as in a map read from JSON.
pub fn lookup(pairs: &Vec<(String, String)>, key: &str) -> (r: Option<String>)
    ensures
        match r {
            Some(v) => pairs_map(pairs_view(pairs@)).contains_key(key@) && pairs_map(
                pairs_view(pairs@),
            )[key@] == v@,
            None => !pairs_map(pairs_view(pairs@)).contains_key(key@),
        },
{
    let ghost ps = pairs_view(pairs@);
    let mut i = pairs.len();
    while i > 0
        invariant
            0 <= i <= pairs@.len(),
            ps == pairs_view(pairs@),
            forall|j: int| i <= j < ps.len() ==> #[trigger] ps[j].0 != key@,
        decreases i,
    {
        if crate::text::str_eq(pairs[i - 1].0.as_str(), key) {
            proof {
                lemma_pairs_map_suffix(ps, i as int, key@);
                assert(ps.take(i as int).drop_last() == ps.take(i - 1));
                assert(ps.take(i as int).last() == ps[i - 1]);
            }
            return Some(pairs[i - 1].1.clone());
        }
        i = i - 1;
    }
    proof {
        lemma_pairs_map_suffix(ps, 0, key@);
        assert(ps.take(0) =~= Seq::<(Seq<char>, Seq<char>)>::empty());
    }
    None
}

} // verus!
