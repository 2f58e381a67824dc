//! Looker BI: dashboards, Looks, LookML models, inline queries and the SQL
//! Runner.
//!
//! A tool call goes through [`dispatch`], which turns the arguments into a
//! [`Plan`] or an error. Each API request of the plan then runs through a
//! [`Session`], which logs in with the API3 client credentials, caches the
//! access token with a 30-second safety window, and on a `401` reply drops
//! the token and retries the request once.
pub mod handlers;
pub mod tools;

use vstd::prelude::*;

use crate::args::{ArgEntryV, Args};
use crate::encoding::escaped;
use crate::request::{
    add_header, bare, credential, json_body, json_http_body, outcome_view, reply,
    reply_outcome, tagged, tagged_message, unknown_tool, unknown_tool_error, ApiRequest, HttpBody, HttpBodyV, HttpCall, HttpCallV, Method, RequestV,
};
use crate::text::{
    contains_seq, contains_str, i64_to_string, int_decimal, owned, push_str, str_eq,
    trim_end_char, trim_end_matches,
};
use crate::tool_def::{keys_distinct, spec_tools, compact_entry, specs_view, tool_names};
use crate::request::keys_view;

pub use handlers::{Plan, PlanV};

use crate::json::{read_credentials, serde_json_credentials};
use crate::request::map_credential;

verus! {

/// Seconds taken off a token's lifetime before it is treated as expired.
pub const TOKEN_SAFETY_WINDOW_SECS: u64 = 30;

/// The lifetime of a token when the login reply gives none.
pub const DEFAULT_TOKEN_TTL_SECS: u64 = 900;

// ── Configuration ──────────────────────────────────────────────────────────

/// The plugin's credentials.
#[derive(Debug, PartialEq)]
pub struct Config {
    /// The API root, ending in `/api/...`.
    pub base_url: String,
    pub client_id: String,
    pub client_secret: String,
}

pub struct ConfigV {
    pub base_url: Seq<char>,
    pub client_id: Seq<char>,
    pub client_secret: Seq<char>,
}

impl Config {
    pub open spec fn view(&self) -> ConfigV {
        ConfigV { base_url: self.base_url@, client_id: self.client_id@, client_secret: self.client_secret@ }
    }
}

/// The API root for a base URL: kept when it already names an API path
/// (holds `/api/`), and `/api/4.0` appended otherwise.
pub open spec fn api_root(raw: Seq<char>) -> Seq<char> {
    if contains_seq(raw, "/api/"@) {
        raw
    } else {
        raw + "/api/4.0"@
    }
}

/// What `configure` makes of the credentials JSON object, or the message it
/// reports. The base URL loses its trailing slashes.
pub open spec fn configure_outcome(creds: Result<Map<Seq<char>, Seq<char>>, Seq<char>>) -> Result<ConfigV, Seq<char>> {
    match creds {
        Err(e) => Err(tagged("looker"@, "invalid credentials JSON: "@ + e)),
        Ok(c) => {
            let id = map_credential(c, "client_id"@);
            let secret = map_credential(c, "client_secret"@);
            let raw = trim_end_char(map_credential(c, "base_url"@), '/');
            if id.len() == 0 {
                Err("looker: client_id is required"@)
            } else if secret.len() == 0 {
                Err("looker: client_secret is required"@)
            } else if raw.len() == 0 {
                Err("looker: base_url is required (e.g., https://your-instance.cloud.looker.com:19999)"@)
            } else {
                Ok(ConfigV { base_url: api_root(raw), client_id: id, client_secret: secret })
            }
        },
    }
}

fn config_of(input: &[u8]) -> (r: Result<Config, String>)
    ensures
        configure_outcome(serde_json_credentials(input@)) == match r {
            Ok(c) => Ok(c.view()),
            Err(e) => Err(e@),
        },
{
    let creds = match read_credentials(input) {
        Ok(c) => c,
        Err(e) => {
            let mut m = owned("invalid credentials JSON: ");
            push_str(&mut m, e.as_str());
            return Err(tagged_message("looker", m.as_str()));
        },
    };
    let client_id = credential(&creds, "client_id");
    let client_secret = credential(&creds, "client_secret");
    let raw = trim_end_matches(credential(&creds, "base_url").as_str(), '/');
    if client_id.as_str().is_empty() {
        return Err(owned("looker: client_id is required"));
    }
    if client_secret.as_str().is_empty() {
        return Err(owned("looker: client_secret is required"));
    }
    if raw.as_str().is_empty() {
        return Err(owned("looker: base_url is required (e.g., https://your-instance.cloud.looker.com:19999)"));
    }
    let base_url = if contains_str(raw.as_str(), "/api/") {
        raw
    } else {
        let mut b = raw;
        push_str(&mut b, "/api/4.0");
        b
    };
    Ok(Config { base_url, client_id, client_secret })
}

/// `with_config`: the configuration, or an error before `configure` succeeded.
pub fn with_config(config: &Option<Config>) -> (r: Result<&Config, String>)
    ensures
        match config {
            Some(c) => r == Ok::<&Config, String>(c),
            None => r matches Err(e) && e@ == not_configured(),
        },
{
    match config {
        Some(c) => Ok(c),
        None => Err(owned("looker: not configured")),
    }
}

// ── Clock ──────────────────────────────────────────────────────────────────

#[verifier::external_type_specification]
#[verifier::external_body]
pub struct ExSystemTime(std::time::SystemTime);

/// `std::time::SystemTime::now`. Nothing is claimed of the time it reads.
#[verifier::external_body]
fn clock_now() -> (r: std::time::SystemTime) {
    std::time::SystemTime::now()
}

/// `SystemTime::duration_since(UNIX_EPOCH)`: the time elapsed since the Unix
/// epoch, or `None` when `t` is earlier. Nothing is claimed of the duration.
#[verifier::external_body]
fn since_epoch(t: &std::time::SystemTime) -> (r: Option<core::time::Duration>) {
    match t.duration_since(std::time::UNIX_EPOCH) {
        Ok(d) => Some(d),
        Err(_) => None,
    }
}

/// `Duration::as_secs`: the whole seconds of a duration. Nothing is claimed
/// of the number, the duration being opaque here.
#[verifier::external_body]
fn whole_secs(d: &core::time::Duration) -> (r: u64) {
    d.as_secs()
}

/// `now_secs`: the current Unix time in whole seconds, or 0 when the clock
/// reads a time before the epoch. The time itself comes from the system
/// clock, of which nothing is claimed.
pub fn now_secs() -> (r: u64) {
    match since_epoch(&clock_now()) {
        Some(d) => whole_secs(&d),
        None => 0,
    }
}

// ── Session ────────────────────────────────────────────────────────────────

/// A cached access token.
#[derive(Debug, PartialEq)]
pub struct TokenCache {
    pub token: String,
    /// Unix seconds when the token expires.
    pub expires_at: u64,
}

pub struct TokenV {
    pub token: Seq<char>,
    pub expires_at: u64,
}

/// The plugin's state: its configuration and its cached token.
#[derive(Debug, PartialEq)]
pub struct Session {
    pub config: Option<Config>,
    pub token: Option<TokenCache>,
}

pub struct SessionV {
    pub config: Option<ConfigV>,
    pub token: Option<TokenV>,
}

impl Session {
    pub open spec fn view(&self) -> SessionV {
        SessionV {
            config: match &self.config {
                Some(c) => Some(c.view()),
                None => None,
            },
            token: match &self.token {
                Some(t) => Some(TokenV { token: t.token@, expires_at: t.expires_at }),
                None => None,
            },
        }
    }

    /// A cached token is never empty.
    pub open spec fn wf(&self) -> bool {
        self.token matches Some(t) ==> t.token@.len() > 0
    }
}

/// A token is used while it is not empty and `now` plus the safety window is
/// still before its expiry.
pub open spec fn token_fresh(t: TokenV, now: u64) -> bool {
    t.token.len() > 0 && now.saturating_add(TOKEN_SAFETY_WINDOW_SECS) < t.expires_at
}

/// The login request: the client credentials, form-encoded, posted to
/// `{base_url}/login`.
pub open spec fn login_request_of(c: ConfigV) -> HttpCallV {
    HttpCallV {
        method: Method::Post,
        url: c.base_url + "/login"@,
        headers: Map::empty().insert("Content-Type"@, "application/x-www-form-urlencoded"@),
        body: HttpBodyV::Form("client_id="@ + escaped(c.client_id) + "&client_secret="@ + escaped(c.client_secret)),
    }
}

/// An API request with a token: `Authorization: token {token}`, JSON
/// accepted, and a JSON content type when there is a body.
pub open spec fn api_request_of(c: ConfigV, token: Seq<char>, q: RequestV) -> HttpCallV {
    let h = Map::empty().insert("Authorization"@, "token "@ + token).insert("Accept"@, "application/json"@);
    let h = if q.body is Some {
        h.insert("Content-Type"@, "application/json"@)
    } else {
        h
    };
    HttpCallV { method: q.method, url: c.base_url + q.path, headers: h, body: json_body(q.body) }
}

/// What to do next for one API request.
#[derive(Debug, PartialEq)]
pub enum Step {
    /// Send this login request, then hand its reply to [`Session::on_login`].
    Login(HttpCall),
    /// Send this API request, then hand its reply to [`Session::on_reply`].
    Send(HttpCall),
    /// The request is over, with this result for the tool.
    Done(Result<String, String>),
}

pub enum StepV {
    Login(HttpCallV),
    Send(HttpCallV),
    Done(Result<Seq<char>, Seq<char>>),
}

impl Step {
    pub open spec fn view(&self) -> StepV {
        match self {
            Step::Login(h) => StepV::Login(h.view()),
            Step::Send(h) => StepV::Send(h.view()),
            Step::Done(r) => StepV::Done(outcome_view(*r)),
        }
    }
}

/// One API request in flight.
#[derive(Debug, PartialEq)]
pub struct Call {
    pub request: ApiRequest,
    /// Whether the request was already retried after a `401`.
    pub retried: bool,
}

/// The error before `configure` succeeded.
pub open spec fn not_configured() -> Seq<char> {
    "looker: not configured"@
}

/// The next step for request `q`: sent with the cached token while it is
/// fresh, after a login otherwise.
pub open spec fn send_step_of(s: SessionV, q: RequestV, now: u64) -> StepV {
    match s.token {
        Some(t) if token_fresh(t, now) => match s.config {
            Some(c) => StepV::Send(api_request_of(c, t.token, q)),
            None => StepV::Done(Err(not_configured())),
        },
        _ => match s.config {
            Some(c) => StepV::Login(login_request_of(c)),
            None => StepV::Done(Err(not_configured())),
        },
    }
}

/// What a login reply gives: the token and its lifetime (15 minutes when the
/// reply gives 0 or none), or the error.
pub open spec fn login_outcome(status: i32, body: Seq<char>, decoded: Result<(Seq<char>, u64), Seq<char>>) -> Result<(Seq<char>, u64), Seq<char>> {
    if status >= 400 {
        Err("looker login failed ("@ + int_decimal(status as int) + "): "@ + body)
    } else {
        match decoded {
            Err(e) => Err("looker login: decode response: "@ + e),
            Ok((token, expires_in)) => if token.len() == 0 {
                Err("looker login: empty access_token"@)
            } else {
                Ok((token, if expires_in == 0 { DEFAULT_TOKEN_TTL_SECS } else { expires_in }))
            },
        }
    }
}

fn form_body(c: &Config) -> (r: String)
    ensures
        r@ == "client_id="@ + escaped(c.client_id@) + "&client_secret="@ + escaped(c.client_secret@),
{
    let mut b = owned("client_id=");
    push_str(&mut b, form_encode(c.client_id.as_str()).as_str());
    push_str(&mut b, "&client_secret=");
    push_str(&mut b, form_encode(c.client_secret.as_str()).as_str());
    b
}

fn login_request(c: &Config) -> (r: HttpCall)
    ensures
        r.view() == login_request_of(c.view()),
{
    let mut headers: Vec<(String, String)> = Vec::new();
    add_header(&mut headers, "Content-Type", owned("application/x-www-form-urlencoded"));
    let mut url = c.base_url.clone();
    push_str(&mut url, "/login");
    HttpCall { method: Method::Post, url, headers, body: HttpBody::Form(form_body(c)) }
}

fn api_request(c: &Config, token: &str, q: &ApiRequest) -> (r: HttpCall)
    ensures
        r.view() == api_request_of(c.view(), token@, q.view()),
{
    let mut headers: Vec<(String, String)> = Vec::new();
    let mut auth = owned("token ");
    push_str(&mut auth, token);
    add_header(&mut headers, "Authorization", auth);
    add_header(&mut headers, "Accept", owned("application/json"));
    if q.body.is_some() {
        add_header(&mut headers, "Content-Type", owned("application/json"));
    }
    let mut url = c.base_url.clone();
    push_str(&mut url, q.path.as_str());
    let body = match &q.body {
        Some(b) => Some(b.duplicate()),
        None => None,
    };
    HttpCall { method: q.method, url, headers, body: json_http_body(body) }
}

impl Session {
    /// A session that is not configured and holds no token.
    pub fn new() -> (r: Session)
        ensures
            r.view() == (SessionV { config: None, token: None }),
            r.wf(),
    {
        Session { config: None, token: None }
    }

    /// `configure`: on success, the new configuration replaces the old one
    /// and any cached token is dropped; on error the session is unchanged.
    pub fn configure(&mut self, input: &[u8]) -> (r: Result<(), String>)
        ensures
            old(self).wf() ==> final(self).wf(),
            match configure_outcome(serde_json_credentials(input@)) {
                Ok(c) => r is Ok && final(self).view() == (SessionV { config: Some(c), token: None }),
                Err(e) => r matches Err(m) && m@ == e && final(self).view() == old(self).view(),
            },
    {
        match config_of(input) {
            Ok(c) => {
                self.config = Some(c);
                self.token = None;
                Ok(())
            },
            Err(e) => Err(e),
        }
    }

    fn send_step(&self, q: &ApiRequest, now: u64) -> (r: Step)
        ensures
            r.view() == send_step_of(self.view(), q.view(), now),
    {
        let c = match with_config(&self.config) {
            Ok(c) => c,
            Err(e) => return Step::Done(Err(e)),
        };
        if let Some(t) = &self.token {
            if !t.token.as_str().is_empty() && now.saturating_add(TOKEN_SAFETY_WINDOW_SECS) < t.expires_at {
                return Step::Send(api_request(c, t.token.as_str(), q));
            }
        }
        Step::Login(login_request(c))
    }

    /// Starts an API request at time `now` (Unix seconds). The session is not
    /// changed.
    pub fn begin(&self, q: ApiRequest, now: u64) -> (r: (Call, Step))
        ensures
            r.0.request.view() == q.view(),
            !r.0.retried,
            r.1.view() == send_step_of(self.view(), q.view(), now),
    {
        let step = self.send_step(&q, now);
        (Call { request: q, retried: false }, step)
    }

    /// Takes the reply to a login: its status and body, and the body read as
    /// a login response (`access_token`, and `expires_in` with 0 when absent)
    /// or the message of the error met reading it. A token is cached until
    /// `now` plus its lifetime (saturating), and the request is then sent.
    pub fn on_login(
        &mut self,
        call: &Call,
        status: i32,
        body: &str,
        decoded: Result<(String, u64), String>,
        now: u64,
    ) -> (r: Step)
        ensures
            old(self).wf() ==> final(self).wf(),
            final(self).view().config == old(self).view().config,
            match login_outcome(
                status,
                body@,
                match decoded {
                    Ok((t, e)) => Ok((t@, e)),
                    Err(m) => Err(m@),
                },
            ) {
                Err(e) => final(self).view() == old(self).view() && r.view() == StepV::Done(Err(e)),
                Ok((token, ttl)) => {
                    &&& final(self).view().token == Some(TokenV { token, expires_at: now.saturating_add(ttl) })
                    &&& r.view() == match old(self).view().config {
                        Some(c) => StepV::Send(api_request_of(c, token, call.request.view())),
                        None => StepV::Done(Err(not_configured())),
                    }
                },
            },
    {
        if status >= 400 {
            let mut m = owned("looker login failed (");
            push_str(&mut m, i64_to_string(status as i64).as_str());
            push_str(&mut m, "): ");
            push_str(&mut m, body);
            return Step::Done(Err(m));
        }
        let (token, expires_in) = match decoded {
            Ok(d) => d,
            Err(e) => {
                let mut m = owned("looker login: decode response: ");
                push_str(&mut m, e.as_str());
                return Step::Done(Err(m));
            },
        };
        if token.as_str().is_empty() {
            return Step::Done(Err(owned("looker login: empty access_token")));
        }
        let ttl = if expires_in == 0 {
            DEFAULT_TOKEN_TTL_SECS
        } else {
            expires_in
        };
        let expires_at = now.saturating_add(ttl);
        let step = match with_config(&self.config) {
            Ok(c) => Step::Send(api_request(c, token.as_str(), &call.request)),
            Err(e) => Step::Done(Err(e)),
        };
        self.token = Some(TokenCache { token, expires_at });
        step
    }

    /// Takes the reply to an API request. A first `401` drops the cached
    /// token and sends the request again (after a new login); any other reply,
    /// or a second `401`, ends the request.
    pub fn on_reply(&mut self, call: &mut Call, status: i32, body: &str, now: u64) -> (r: Step)
        ensures
            old(self).wf() ==> final(self).wf(),
            final(self).view().config == old(self).view().config,
            final(call).request.view() == old(call).request.view(),
            if status == 401 && !old(call).retried {
                &&& final(self).view().token is None
                &&& final(call).retried
                &&& r.view() == send_step_of(final(self).view(), old(call).request.view(), now)
            } else {
                &&& final(self).view() == old(self).view()
                &&& final(call).retried == old(call).retried
                &&& r.view() == StepV::Done(reply_outcome("looker"@, status, body@))
            },
    {
        if status == 401 && !call.retried {
            self.token = None;
            call.retried = true;
            return self.send_step(&call.request, now);
        }
        Step::Done(reply("looker", status, body))
    }
}

/// A token cached at a login is used, with no new login, for every request
/// begun while `now` plus the 30-second safety window is before its expiry.
pub proof fn lemma_cached_token_reused(c: ConfigV, token: Seq<char>, expires_at: u64, q: RequestV, now: u64)
    requires
        token.len() > 0,
        now.saturating_add(TOKEN_SAFETY_WINDOW_SECS) < expires_at,
    ensures
        send_step_of(SessionV { config: Some(c), token: Some(TokenV { token, expires_at }) }, q, now)
            == StepV::Send(api_request_of(c, token, q)),
{
}

/// Without a usable token, a configured session logs in before sending: so
/// after a `401` has dropped the token, the retry runs on a new one.
pub proof fn lemma_stale_token_forces_login(c: ConfigV, token: Option<TokenV>, q: RequestV, now: u64)
    requires
        !(token matches Some(t) && token_fresh(t, now)),
    ensures
        send_step_of(SessionV { config: Some(c), token }, q, now) == StepV::Login(login_request_of(c)),
{
}


/// A request sent under a token goes to the API root joined with its path,
/// with its own method, its body as JSON (no body when it has none), the
/// token as `Authorization: token ...`, JSON accepted, and a JSON content
/// type exactly when there is a body.
pub proof fn lemma_api_request_carries_the_request(c: ConfigV, token: Seq<char>, q: RequestV)
    ensures
        api_request_of(c, token, q).method == q.method,
        api_request_of(c, token, q).url == c.base_url + q.path,
        q.body matches Some(b) ==> api_request_of(c, token, q).body == HttpBodyV::Json(b),
        q.body is None ==> api_request_of(c, token, q).body == HttpBodyV::Empty,
        api_request_of(c, token, q).headers["Authorization"@] == "token "@ + token,
        api_request_of(c, token, q).headers["Accept"@] == "application/json"@,
        api_request_of(c, token, q).headers.contains_key("Content-Type"@) <==> q.body is Some,
        q.body is Some ==> api_request_of(c, token, q).headers["Content-Type"@] == "application/json"@,
        api_request_of(c, token, q).headers.dom().subset_of(set!["Authorization"@, "Accept"@, "Content-Type"@]),
{
    reveal_strlit("Authorization");
    assert("Authorization"@.len() == 13);
    reveal_strlit("Accept");
    assert("Accept"@.len() == 6);
    reveal_strlit("Content-Type");
    assert("Content-Type"@.len() == 12);
}

/// Whichever step sends a request, the call that goes out carries that
/// request: after a fresh token is found, and after a login.
pub proof fn lemma_sent_call_carries_the_request(s: SessionV, q: RequestV, now: u64)
    ensures
        send_step_of(s, q, now) matches StepV::Send(h) ==> {
            &&& s.config matches Some(c)
            &&& s.token matches Some(t)
            &&& h == api_request_of(c, t.token, q)
            &&& h.method == q.method
            &&& h.url == c.base_url + q.path
            &&& (q.body matches Some(b) ==> h.body == HttpBodyV::Json(b))
            &&& (q.body is None ==> h.body == HttpBodyV::Empty)
        },
{
    match (s.config, s.token) {
        (Some(c), Some(t)) => lemma_api_request_carries_the_request(c, t.token, q),
        _ => {},
    }
}

/// A login posts the client credentials, form-encoded, to the API root's
/// `/login`. Its reply gives a token when the status is below 400 and the
/// body reads as a login response with a token that is not empty; the token
/// then lives for the lifetime given, or 15 minutes when none is.
pub proof fn lemma_login(c: ConfigV, status: i32, body: Seq<char>, decoded: Result<(Seq<char>, u64), Seq<char>>)
    ensures
        login_request_of(c).method == Method::Post,
        login_request_of(c).url == c.base_url + "/login"@,
        login_request_of(c).headers == Map::<Seq<char>, Seq<char>>::empty().insert(
            "Content-Type"@,
            "application/x-www-form-urlencoded"@,
        ),
        login_request_of(c).body == HttpBodyV::Form(
            "client_id="@ + escaped(c.client_id) + "&client_secret="@ + escaped(c.client_secret),
        ),
        login_outcome(status, body, decoded) is Ok <==> status < 400 && (decoded matches Ok((t, _)) && t.len() > 0),
        login_outcome(status, body, decoded) matches Ok((t, ttl)) ==> (decoded matches Ok((t2, e)) && t == t2 && ttl == (
        if e == 0 {
            900
        } else {
            e
        })),
        status >= 400 ==> login_outcome(status, body, decoded) == Err::<(Seq<char>, u64), Seq<char>>(
            "looker login failed ("@ + int_decimal(status as int) + "): "@ + body,
        ),
{
}

/// The credentials need a client id, a client secret and a base URL. The
/// base URL loses its trailing slashes, and `/api/4.0` is added unless it
/// already names an API path.
pub proof fn lemma_configure_credentials(creds: Result<Map<Seq<char>, Seq<char>>, Seq<char>>)
    ensures
        creds is Err ==> configure_outcome(creds) is Err,
        creds matches Ok(c) ==> (configure_outcome(creds) is Ok <==> map_credential(c, "client_id"@).len() > 0
            && map_credential(c, "client_secret"@).len() > 0 && trim_end_char(map_credential(c, "base_url"@), '/').len() > 0),
        creds matches Ok(c) ==> (configure_outcome(creds) matches Ok(v) ==> {
            &&& v.client_id == c["client_id"@]
            &&& v.client_secret == c["client_secret"@]
            &&& contains_seq(trim_end_char(c["base_url"@], '/'), "/api/"@) ==> v.base_url == trim_end_char(c["base_url"@], '/')
            &&& !contains_seq(trim_end_char(c["base_url"@], '/'), "/api/"@) ==> v.base_url == trim_end_char(c["base_url"@], '/')
                + "/api/4.0"@
        }),
{
}

// ── Escaping ───────────────────────────────────────────────────────────────

/// `path_escape`: percent-encoding of a path segment (the safe set of Go's
/// `url.PathEscape`).
pub fn path_escape(s: &str) -> (r: String)
    ensures
        r@ == escaped(s@),
{
    crate::encoding::encode_component(s)
}

/// `query_escape`: percent-encoding of a query value (spaces become `%20`).
pub fn query_escape(s: &str) -> (r: String)
    ensures
        r@ == escaped(s@),
{
    crate::encoding::encode_component(s)
}

/// `form_encode`: encoding of a form value.
pub fn form_encode(s: &str) -> (r: String)
    ensures
        r@ == escaped(s@),
{
    crate::encoding::encode_component(s)
}

/// The request that checks the plugin's health.
pub open spec fn health_probe() -> RequestV {
    bare(Method::Get, "/user"@)
}

/// `healthy`: the request to make; the plugin is healthy when it succeeds.
pub fn health_check() -> (r: ApiRequest)
    ensures
        r.view() == health_probe(),
{
    crate::request::request(Method::Get, owned("/user"))
}

/// The plan of the tool named `name`, if the plugin has one by that name.
pub open spec fn handler_plan(name: Seq<char>, a: Seq<ArgEntryV>) -> Option<Result<PlanV, Seq<char>>> {
    if name == "looker_search_content"@ {
        Some(handlers::search_content_plan(a))
    } else if name == "looker_list_folders"@ {
        Some(handlers::list_folders_plan(a))
    } else if name == "looker_get_folder"@ {
        Some(handlers::get_folder_plan(a))
    } else if name == "looker_list_looks"@ {
        Some(handlers::list_looks_plan(a))
    } else if name == "looker_get_look"@ {
        Some(handlers::get_look_plan(a))
    } else if name == "looker_run_look"@ {
        Some(handlers::run_look_plan(a))
    } else if name == "looker_list_dashboards"@ {
        Some(handlers::list_dashboards_plan(a))
    } else if name == "looker_get_dashboard"@ {
        Some(handlers::get_dashboard_plan(a))
    } else if name == "looker_run_inline_query"@ {
        Some(handlers::run_inline_query_plan(a))
    } else if name == "looker_run_query"@ {
        Some(handlers::run_query_plan(a))
    } else if name == "looker_get_query"@ {
        Some(handlers::get_query_plan(a))
    } else if name == "looker_create_query"@ {
        Some(handlers::create_query_plan(a))
    } else if name == "looker_run_sql_query"@ {
        Some(handlers::run_sql_query_plan(a))
    } else if name == "looker_list_models"@ {
        Some(handlers::list_models_plan(a))
    } else if name == "looker_get_model"@ {
        Some(handlers::get_model_plan(a))
    } else if name == "looker_get_model_explore"@ {
        Some(handlers::get_model_explore_plan(a))
    } else if name == "looker_list_connections"@ {
        Some(handlers::list_connections_plan(a))
    } else if name == "looker_get_connection"@ {
        Some(handlers::get_connection_plan(a))
    } else if name == "looker_get_me"@ {
        Some(handlers::get_me_plan(a))
    } else if name == "looker_list_users"@ {
        Some(handlers::list_users_plan(a))
    } else if name == "looker_get_user"@ {
        Some(handlers::get_user_plan(a))
    } else if name == "looker_list_scheduled_plans"@ {
        Some(handlers::list_scheduled_plans_plan(a))
    } else if name == "looker_get_scheduled_plan"@ {
        Some(handlers::get_scheduled_plan_plan(a))
    } else {
        None
    }
}

/// Routes a tool call to its tool, or reports an unknown tool.
pub fn dispatch(tool_name: &str, args: &Args) -> (r: Result<Plan, String>)
    ensures
        handlers::tool_view(r) == match handler_plan(tool_name@, args.view()) {
            Some(p) => p,
            None => Err(unknown_tool(tool_name@)),
        },
{
    if str_eq(tool_name, "looker_search_content") {
        return handlers::search_content(args);
    }
    if str_eq(tool_name, "looker_list_folders") {
        return handlers::list_folders(args);
    }
    if str_eq(tool_name, "looker_get_folder") {
        return handlers::get_folder(args);
    }
    if str_eq(tool_name, "looker_list_looks") {
        return handlers::list_looks(args);
    }
    if str_eq(tool_name, "looker_get_look") {
        return handlers::get_look(args);
    }
    if str_eq(tool_name, "looker_run_look") {
        return handlers::run_look(args);
    }
    if str_eq(tool_name, "looker_list_dashboards") {
        return handlers::list_dashboards(args);
    }
    if str_eq(tool_name, "looker_get_dashboard") {
        return handlers::get_dashboard(args);
    }
    if str_eq(tool_name, "looker_run_inline_query") {
        return handlers::run_inline_query(args);
    }
    if str_eq(tool_name, "looker_run_query") {
        return handlers::run_query(args);
    }
    if str_eq(tool_name, "looker_get_query") {
        return handlers::get_query(args);
    }
    if str_eq(tool_name, "looker_create_query") {
        return handlers::create_query(args);
    }
    if str_eq(tool_name, "looker_run_sql_query") {
        return handlers::run_sql_query(args);
    }
    if str_eq(tool_name, "looker_list_models") {
        return handlers::list_models(args);
    }
    if str_eq(tool_name, "looker_get_model") {
        return handlers::get_model(args);
    }
    if str_eq(tool_name, "looker_get_model_explore") {
        return handlers::get_model_explore(args);
    }
    if str_eq(tool_name, "looker_list_connections") {
        return handlers::list_connections(args);
    }
    if str_eq(tool_name, "looker_get_connection") {
        return handlers::get_connection(args);
    }
    if str_eq(tool_name, "looker_get_me") {
        return handlers::get_me(args);
    }
    if str_eq(tool_name, "looker_list_users") {
        return handlers::list_users(args);
    }
    if str_eq(tool_name, "looker_get_user") {
        return handlers::get_user(args);
    }
    if str_eq(tool_name, "looker_list_scheduled_plans") {
        return handlers::list_scheduled_plans(args);
    }
    if str_eq(tool_name, "looker_get_scheduled_plan") {
        return handlers::get_scheduled_plan(args);
    }
    Err(unknown_tool_error(tool_name))
}

/// A name that no listed tool has is reported as an unknown tool.
pub proof fn lemma_unlisted_tool_unknown(name: Seq<char>, a: Seq<ArgEntryV>)
    requires
        forall|i: int| 0 <= i < tools::tool_table().len() ==> #[trigger] tools::tool_table()[i].name != name,
    ensures
        handler_plan(name, a) is None,
{
    assert(tools::tool_table()[0].name == "looker_search_content"@);
    assert(tools::tool_table()[1].name == "looker_list_folders"@);
    assert(tools::tool_table()[2].name == "looker_get_folder"@);
    assert(tools::tool_table()[3].name == "looker_list_looks"@);
    assert(tools::tool_table()[4].name == "looker_get_look"@);
    assert(tools::tool_table()[5].name == "looker_run_look"@);
    assert(tools::tool_table()[6].name == "looker_list_dashboards"@);
    assert(tools::tool_table()[7].name == "looker_get_dashboard"@);
    assert(tools::tool_table()[8].name == "looker_run_inline_query"@);
    assert(tools::tool_table()[9].name == "looker_run_query"@);
    assert(tools::tool_table()[10].name == "looker_get_query"@);
    assert(tools::tool_table()[11].name == "looker_create_query"@);
    assert(tools::tool_table()[12].name == "looker_run_sql_query"@);
    assert(tools::tool_table()[13].name == "looker_list_models"@);
    assert(tools::tool_table()[14].name == "looker_get_model"@);
    assert(tools::tool_table()[15].name == "looker_get_model_explore"@);
    assert(tools::tool_table()[16].name == "looker_list_connections"@);
    assert(tools::tool_table()[17].name == "looker_get_connection"@);
    assert(tools::tool_table()[18].name == "looker_get_me"@);
    assert(tools::tool_table()[19].name == "looker_list_users"@);
    assert(tools::tool_table()[20].name == "looker_get_user"@);
    assert(tools::tool_table()[21].name == "looker_list_scheduled_plans"@);
    assert(tools::tool_table()[22].name == "looker_get_scheduled_plan"@);
}

/// Each tool name is routed to its own tool: the tool named `looker_x` runs
/// the tool `x`, and no other.
pub proof fn lemma_dispatch_routes_by_name(a: Seq<ArgEntryV>)
    ensures
        handler_plan("looker_search_content"@, a) == Some(handlers::search_content_plan(a)),
        handler_plan("looker_list_folders"@, a) == Some(handlers::list_folders_plan(a)),
        handler_plan("looker_get_folder"@, a) == Some(handlers::get_folder_plan(a)),
        handler_plan("looker_list_looks"@, a) == Some(handlers::list_looks_plan(a)),
        handler_plan("looker_get_look"@, a) == Some(handlers::get_look_plan(a)),
        handler_plan("looker_run_look"@, a) == Some(handlers::run_look_plan(a)),
        handler_plan("looker_list_dashboards"@, a) == Some(handlers::list_dashboards_plan(a)),
        handler_plan("looker_get_dashboard"@, a) == Some(handlers::get_dashboard_plan(a)),
        handler_plan("looker_run_inline_query"@, a) == Some(handlers::run_inline_query_plan(a)),
        handler_plan("looker_run_query"@, a) == Some(handlers::run_query_plan(a)),
        handler_plan("looker_get_query"@, a) == Some(handlers::get_query_plan(a)),
        handler_plan("looker_create_query"@, a) == Some(handlers::create_query_plan(a)),
        handler_plan("looker_run_sql_query"@, a) == Some(handlers::run_sql_query_plan(a)),
        handler_plan("looker_list_models"@, a) == Some(handlers::list_models_plan(a)),
        handler_plan("looker_get_model"@, a) == Some(handlers::get_model_plan(a)),
        handler_plan("looker_get_model_explore"@, a) == Some(handlers::get_model_explore_plan(a)),
        handler_plan("looker_list_connections"@, a) == Some(handlers::list_connections_plan(a)),
        handler_plan("looker_get_connection"@, a) == Some(handlers::get_connection_plan(a)),
        handler_plan("looker_get_me"@, a) == Some(handlers::get_me_plan(a)),
        handler_plan("looker_list_users"@, a) == Some(handlers::list_users_plan(a)),
        handler_plan("looker_get_user"@, a) == Some(handlers::get_user_plan(a)),
        handler_plan("looker_list_scheduled_plans"@, a) == Some(handlers::list_scheduled_plans_plan(a)),
        handler_plan("looker_get_scheduled_plan"@, a) == Some(handlers::get_scheduled_plan_plan(a)),
{
    reveal_strlit("looker_search_content");
    assert("looker_search_content"@.len() == 21);
    assert("looker_search_content"@[7] == 's');
    reveal_strlit("looker_list_folders");
    assert("looker_list_folders"@.len() == 19);
    assert("looker_list_folders"@[7] == 'l');
    reveal_strlit("looker_get_folder");
    assert("looker_get_folder"@.len() == 17);
    assert("looker_get_folder"@[7] == 'g');
    reveal_strlit("looker_list_looks");
    assert("looker_list_looks"@.len() == 17);
    assert("looker_list_looks"@[7] == 'l');
    assert("looker_list_looks"@[12] == 'l');
    reveal_strlit("looker_get_look");
    assert("looker_get_look"@.len() == 15);
    assert("looker_get_look"@[7] == 'g');
    assert("looker_get_look"@[11] == 'l');
    reveal_strlit("looker_run_look");
    assert("looker_run_look"@.len() == 15);
    assert("looker_run_look"@[7] == 'r');
    reveal_strlit("looker_list_dashboards");
    assert("looker_list_dashboards"@.len() == 22);
    reveal_strlit("looker_get_dashboard");
    assert("looker_get_dashboard"@.len() == 20);
    assert("looker_get_dashboard"@[7] == 'g');
    reveal_strlit("looker_run_inline_query");
    assert("looker_run_inline_query"@.len() == 23);
    assert("looker_run_inline_query"@[7] == 'r');
    reveal_strlit("looker_run_query");
    assert("looker_run_query"@.len() == 16);
    assert("looker_run_query"@[7] == 'r');
    reveal_strlit("looker_get_query");
    assert("looker_get_query"@.len() == 16);
    assert("looker_get_query"@[7] == 'g');
    assert("looker_get_query"@[11] == 'q');
    reveal_strlit("looker_create_query");
    assert("looker_create_query"@.len() == 19);
    assert("looker_create_query"@[7] == 'c');
    reveal_strlit("looker_run_sql_query");
    assert("looker_run_sql_query"@.len() == 20);
    assert("looker_run_sql_query"@[7] == 'r');
    reveal_strlit("looker_list_models");
    assert("looker_list_models"@.len() == 18);
    reveal_strlit("looker_get_model");
    assert("looker_get_model"@.len() == 16);
    assert("looker_get_model"@[7] == 'g');
    assert("looker_get_model"@[11] == 'm');
    reveal_strlit("looker_get_model_explore");
    assert("looker_get_model_explore"@.len() == 24);
    reveal_strlit("looker_list_connections");
    assert("looker_list_connections"@.len() == 23);
    assert("looker_list_connections"@[7] == 'l');
    reveal_strlit("looker_get_connection");
    assert("looker_get_connection"@.len() == 21);
    assert("looker_get_connection"@[7] == 'g');
    reveal_strlit("looker_get_me");
    assert("looker_get_me"@.len() == 13);
    reveal_strlit("looker_list_users");
    assert("looker_list_users"@.len() == 17);
    assert("looker_list_users"@[7] == 'l');
    assert("looker_list_users"@[12] == 'u');
    reveal_strlit("looker_get_user");
    assert("looker_get_user"@.len() == 15);
    assert("looker_get_user"@[7] == 'g');
    assert("looker_get_user"@[11] == 'u');
    reveal_strlit("looker_list_scheduled_plans");
    assert("looker_list_scheduled_plans"@.len() == 27);
    reveal_strlit("looker_get_scheduled_plan");
    assert("looker_get_scheduled_plan"@.len() == 25);
}

/// Every tool that the plugin lists is routed to a tool, not reported as
/// unknown.
pub proof fn lemma_dispatch_covers_every_tool(a: Seq<ArgEntryV>)
    ensures
        forall|i: int|
            0 <= i < tools::tool_table().len() ==> handler_plan(
                #[trigger] tools::tool_table()[i].name,
                a,
            ) is Some,
{
    assert forall|i: int| 0 <= i < tools::tool_table().len() implies handler_plan(
        #[trigger] tools::tool_table()[i].name,
        a,
    ) is Some by {
        if i == 0 {
            assert(tools::tool_table()[i].name == "looker_search_content"@);
        } else if i == 1 {
            assert(tools::tool_table()[i].name == "looker_list_folders"@);
        } else if i == 2 {
            assert(tools::tool_table()[i].name == "looker_get_folder"@);
        } else if i == 3 {
            assert(tools::tool_table()[i].name == "looker_list_looks"@);
        } else if i == 4 {
            assert(tools::tool_table()[i].name == "looker_get_look"@);
        } else if i == 5 {
            assert(tools::tool_table()[i].name == "looker_run_look"@);
        } else if i == 6 {
            assert(tools::tool_table()[i].name == "looker_list_dashboards"@);
        } else if i == 7 {
            assert(tools::tool_table()[i].name == "looker_get_dashboard"@);
        } else if i == 8 {
            assert(tools::tool_table()[i].name == "looker_run_inline_query"@);
        } else if i == 9 {
            assert(tools::tool_table()[i].name == "looker_run_query"@);
        } else if i == 10 {
            assert(tools::tool_table()[i].name == "looker_get_query"@);
        } else if i == 11 {
            assert(tools::tool_table()[i].name == "looker_create_query"@);
        } else if i == 12 {
            assert(tools::tool_table()[i].name == "looker_run_sql_query"@);
        } else if i == 13 {
            assert(tools::tool_table()[i].name == "looker_list_models"@);
        } else if i == 14 {
            assert(tools::tool_table()[i].name == "looker_get_model"@);
        } else if i == 15 {
            assert(tools::tool_table()[i].name == "looker_get_model_explore"@);
        } else if i == 16 {
            assert(tools::tool_table()[i].name == "looker_list_connections"@);
        } else if i == 17 {
            assert(tools::tool_table()[i].name == "looker_get_connection"@);
        } else if i == 18 {
            assert(tools::tool_table()[i].name == "looker_get_me"@);
        } else if i == 19 {
            assert(tools::tool_table()[i].name == "looker_list_users"@);
        } else if i == 20 {
            assert(tools::tool_table()[i].name == "looker_get_user"@);
        } else if i == 21 {
            assert(tools::tool_table()[i].name == "looker_list_scheduled_plans"@);
        } else if i == 22 {
            assert(tools::tool_table()[i].name == "looker_get_scheduled_plan"@);
        }
    }
}

/// The compaction specs: for each tool whose replies may be shortened, the
/// field paths worth keeping.
pub open spec fn compact_table() -> Seq<(Seq<char>, Seq<Seq<char>>)> {
    seq![
        (
            "looker_search_content"@,
            seq![
                "dashboards[].id"@,
                "dashboards[].title"@,
                "dashboards[].description"@,
                "dashboards[].folder.name"@,
                "dashboards[].user_id"@,
                "dashboards[].view_count"@,
                "dashboards[].updated_at"@,
                "looks[].id"@,
                "looks[].title"@,
                "looks[].description"@,
                "looks[].folder.name"@,
                "looks[].user_id"@,
                "looks[].query_id"@,
                "looks[].view_count"@,
                "looks[].updated_at"@,
                "folders[].id"@,
                "folders[].name"@,
                "folders[].parent_id"@,
            ],
        ),
        (
            "looker_list_folders"@,
            seq![
                "id"@,
                "name"@,
                "parent_id"@,
                "child_count"@,
            ],
        ),
        (
            "looker_get_folder"@,
            seq![
                "id"@,
                "name"@,
                "parent_id"@,
                "child_count"@,
                "dashboards"@,
                "looks"@,
            ],
        ),
        (
            "looker_list_looks"@,
            seq![
                "id"@,
                "title"@,
                "description"@,
                "folder.name"@,
                "user_id"@,
                "query_id"@,
                "view_count"@,
                "favorite_count"@,
                "public"@,
                "updated_at"@,
            ],
        ),
        (
            "looker_get_look"@,
            seq![
                "id"@,
                "title"@,
                "description"@,
                "folder.name"@,
                "folder.id"@,
                "user_id"@,
                "query_id"@,
                "view_count"@,
                "favorite_count"@,
                "public"@,
                "updated_at"@,
                "query.model"@,
                "query.view"@,
                "query.fields"@,
            ],
        ),
        (
            "looker_list_dashboards"@,
            seq![
                "id"@,
                "title"@,
                "description"@,
                "folder.name"@,
                "user_id"@,
                "view_count"@,
                "favorite_count"@,
                "updated_at"@,
            ],
        ),
        (
            "looker_get_dashboard"@,
            seq![
                "id"@,
                "title"@,
                "description"@,
                "folder.name"@,
                "folder.id"@,
                "user_id"@,
                "view_count"@,
                "favorite_count"@,
                "updated_at"@,
                "dashboard_elements[].id"@,
                "dashboard_elements[].title"@,
                "dashboard_elements[].type"@,
                "dashboard_elements[].query_id"@,
                "dashboard_filters"@,
            ],
        ),
        (
            "looker_get_query"@,
            seq![
                "id"@,
                "model"@,
                "view"@,
                "fields"@,
                "filters"@,
                "sorts"@,
                "limit"@,
                "pivots"@,
                "share_url"@,
            ],
        ),
        (
            "looker_list_models"@,
            seq![
                "name"@,
                "label"@,
                "project_name"@,
                "explores[].name"@,
                "explores[].label"@,
                "explores[].hidden"@,
            ],
        ),
        (
            "looker_get_model"@,
            seq![
                "name"@,
                "label"@,
                "project_name"@,
                "allowed_db_connection_names"@,
                "explores[].name"@,
                "explores[].label"@,
                "explores[].description"@,
                "explores[].hidden"@,
            ],
        ),
        (
            "looker_get_model_explore"@,
            seq![
                "name"@,
                "label"@,
                "description"@,
                "model_name"@,
                "view_name"@,
                "connection_name"@,
                "fields"@,
                "joins[].name"@,
                "joins[].type"@,
                "joins[].relationship"@,
            ],
        ),
        (
            "looker_list_connections"@,
            seq![
                "name"@,
                "dialect_name"@,
                "host"@,
                "port"@,
                "database"@,
                "schema"@,
            ],
        ),
        (
            "looker_get_connection"@,
            seq![
                "name"@,
                "dialect_name"@,
                "host"@,
                "port"@,
                "database"@,
                "schema"@,
                "username"@,
                "max_connections"@,
                "ssl"@,
            ],
        ),
        (
            "looker_get_me"@,
            seq![
                "id"@,
                "email"@,
                "display_name"@,
                "first_name"@,
                "last_name"@,
                "role_ids"@,
                "is_disabled"@,
            ],
        ),
        (
            "looker_list_users"@,
            seq![
                "id"@,
                "email"@,
                "display_name"@,
                "role_ids"@,
                "is_disabled"@,
            ],
        ),
        (
            "looker_get_user"@,
            seq![
                "id"@,
                "email"@,
                "display_name"@,
                "first_name"@,
                "last_name"@,
                "role_ids"@,
                "group_ids"@,
                "is_disabled"@,
                "verified_looker_employee"@,
            ],
        ),
        (
            "looker_list_scheduled_plans"@,
            seq![
                "id"@,
                "name"@,
                "user_id"@,
                "look_id"@,
                "dashboard_id"@,
                "enabled"@,
                "crontab"@,
                "timezone"@,
                "next_run_at"@,
            ],
        ),
        (
            "looker_get_scheduled_plan"@,
            seq![
                "id"@,
                "name"@,
                "user_id"@,
                "look_id"@,
                "dashboard_id"@,
                "enabled"@,
                "crontab"@,
                "timezone"@,
                "next_run_at"@,
                "scheduled_plan_destination"@,
                "filters_string"@,
            ],
        ),
    ]
}

/// `compact_spec_map`: the compaction specs, tool by tool.
pub fn compact_spec_map() -> (r: Vec<(String, Vec<String>)>)
    ensures
        specs_view(r@) == compact_table(),
{
    let mut s: Vec<(String, Vec<String>)> = Vec::new();
    let fs: [&str; 18] = [
        "dashboards[].id",
        "dashboards[].title",
        "dashboards[].description",
        "dashboards[].folder.name",
        "dashboards[].user_id",
        "dashboards[].view_count",
        "dashboards[].updated_at",
        "looks[].id",
        "looks[].title",
        "looks[].description",
        "looks[].folder.name",
        "looks[].user_id",
        "looks[].query_id",
        "looks[].view_count",
        "looks[].updated_at",
        "folders[].id",
        "folders[].name",
        "folders[].parent_id",
    ];
    let e = compact_entry("looker_search_content", &fs);
    assert(keys_view(fs@) =~= compact_table()[0].1);
    s.push(e);
    let fs: [&str; 4] = [
        "id",
        "name",
        "parent_id",
        "child_count",
    ];
    let e = compact_entry("looker_list_folders", &fs);
    assert(keys_view(fs@) =~= compact_table()[1].1);
    s.push(e);
    let fs: [&str; 6] = [
        "id",
        "name",
        "parent_id",
        "child_count",
        "dashboards",
        "looks",
    ];
    let e = compact_entry("looker_get_folder", &fs);
    assert(keys_view(fs@) =~= compact_table()[2].1);
    s.push(e);
    let fs: [&str; 10] = [
        "id",
        "title",
        "description",
        "folder.name",
        "user_id",
        "query_id",
        "view_count",
        "favorite_count",
        "public",
        "updated_at",
    ];
    let e = compact_entry("looker_list_looks", &fs);
    assert(keys_view(fs@) =~= compact_table()[3].1);
    s.push(e);
    let fs: [&str; 14] = [
        "id",
        "title",
        "description",
        "folder.name",
        "folder.id",
        "user_id",
        "query_id",
        "view_count",
        "favorite_count",
        "public",
        "updated_at",
        "query.model",
        "query.view",
        "query.fields",
    ];
    let e = compact_entry("looker_get_look", &fs);
    assert(keys_view(fs@) =~= compact_table()[4].1);
    s.push(e);
    let fs: [&str; 8] = [
        "id",
        "title",
        "description",
        "folder.name",
        "user_id",
        "view_count",
        "favorite_count",
        "updated_at",
    ];
    let e = compact_entry("looker_list_dashboards", &fs);
    assert(keys_view(fs@) =~= compact_table()[5].1);
    s.push(e);
    let fs: [&str; 14] = [
        "id",
        "title",
        "description",
        "folder.name",
        "folder.id",
        "user_id",
        "view_count",
        "favorite_count",
        "updated_at",
        "dashboard_elements[].id",
        "dashboard_elements[].title",
        "dashboard_elements[].type",
        "dashboard_elements[].query_id",
        "dashboard_filters",
    ];
    let e = compact_entry("looker_get_dashboard", &fs);
    assert(keys_view(fs@) =~= compact_table()[6].1);
    s.push(e);
    let fs: [&str; 9] = [
        "id",
        "model",
        "view",
        "fields",
        "filters",
        "sorts",
        "limit",
        "pivots",
        "share_url",
    ];
    let e = compact_entry("looker_get_query", &fs);
    assert(keys_view(fs@) =~= compact_table()[7].1);
    s.push(e);
    let fs: [&str; 6] = [
        "name",
        "label",
        "project_name",
        "explores[].name",
        "explores[].label",
        "explores[].hidden",
    ];
    let e = compact_entry("looker_list_models", &fs);
    assert(keys_view(fs@) =~= compact_table()[8].1);
    s.push(e);
    let fs: [&str; 8] = [
        "name",
        "label",
        "project_name",
        "allowed_db_connection_names",
        "explores[].name",
        "explores[].label",
        "explores[].description",
        "explores[].hidden",
    ];
    let e = compact_entry("looker_get_model", &fs);
    assert(keys_view(fs@) =~= compact_table()[9].1);
    s.push(e);
    let fs: [&str; 10] = [
        "name",
        "label",
        "description",
        "model_name",
        "view_name",
        "connection_name",
        "fields",
        "joins[].name",
        "joins[].type",
        "joins[].relationship",
    ];
    let e = compact_entry("looker_get_model_explore", &fs);
    assert(keys_view(fs@) =~= compact_table()[10].1);
    s.push(e);
    let fs: [&str; 6] = [
        "name",
        "dialect_name",
        "host",
        "port",
        "database",
        "schema",
    ];
    let e = compact_entry("looker_list_connections", &fs);
    assert(keys_view(fs@) =~= compact_table()[11].1);
    s.push(e);
    let fs: [&str; 9] = [
        "name",
        "dialect_name",
        "host",
        "port",
        "database",
        "schema",
        "username",
        "max_connections",
        "ssl",
    ];
    let e = compact_entry("looker_get_connection", &fs);
    assert(keys_view(fs@) =~= compact_table()[12].1);
    s.push(e);
    let fs: [&str; 7] = [
        "id",
        "email",
        "display_name",
        "first_name",
        "last_name",
        "role_ids",
        "is_disabled",
    ];
    let e = compact_entry("looker_get_me", &fs);
    assert(keys_view(fs@) =~= compact_table()[13].1);
    s.push(e);
    let fs: [&str; 5] = [
        "id",
        "email",
        "display_name",
        "role_ids",
        "is_disabled",
    ];
    let e = compact_entry("looker_list_users", &fs);
    assert(keys_view(fs@) =~= compact_table()[14].1);
    s.push(e);
    let fs: [&str; 9] = [
        "id",
        "email",
        "display_name",
        "first_name",
        "last_name",
        "role_ids",
        "group_ids",
        "is_disabled",
        "verified_looker_employee",
    ];
    let e = compact_entry("looker_get_user", &fs);
    assert(keys_view(fs@) =~= compact_table()[15].1);
    s.push(e);
    let fs: [&str; 9] = [
        "id",
        "name",
        "user_id",
        "look_id",
        "dashboard_id",
        "enabled",
        "crontab",
        "timezone",
        "next_run_at",
    ];
    let e = compact_entry("looker_list_scheduled_plans", &fs);
    assert(keys_view(fs@) =~= compact_table()[16].1);
    s.push(e);
    let fs: [&str; 11] = [
        "id",
        "name",
        "user_id",
        "look_id",
        "dashboard_id",
        "enabled",
        "crontab",
        "timezone",
        "next_run_at",
        "scheduled_plan_destination",
        "filters_string",
    ];
    let e = compact_entry("looker_get_scheduled_plan", &fs);
    assert(keys_view(fs@) =~= compact_table()[17].1);
    s.push(e);
    assert(specs_view(s@) =~= compact_table());
    s
}

/// Every compaction spec is for a tool that the plugin offers.
pub proof fn lemma_compact_specs_name_tools()
    ensures
        forall|i: int|
            0 <= i < compact_table().len() ==> tool_names(tools::tool_table()).contains(
                #[trigger] compact_table()[i].0,
            ),
{
    let names = tool_names(tools::tool_table());
    assert(names[0] == compact_table()[0].0);
    assert(names[1] == compact_table()[1].0);
    assert(names[2] == compact_table()[2].0);
    assert(names[3] == compact_table()[3].0);
    assert(names[4] == compact_table()[4].0);
    assert(names[6] == compact_table()[5].0);
    assert(names[7] == compact_table()[6].0);
    assert(names[10] == compact_table()[7].0);
    assert(names[13] == compact_table()[8].0);
    assert(names[14] == compact_table()[9].0);
    assert(names[15] == compact_table()[10].0);
    assert(names[16] == compact_table()[11].0);
    assert(names[17] == compact_table()[12].0);
    assert(names[18] == compact_table()[13].0);
    assert(names[19] == compact_table()[14].0);
    assert(names[20] == compact_table()[15].0);
    assert(names[21] == compact_table()[16].0);
    assert(names[22] == compact_table()[17].0);
}

/// No tool has two compaction specs.
pub proof fn lemma_compact_specs_distinct()
    ensures
        keys_distinct(spec_tools(compact_table())),
{
    reveal_strlit("looker_search_content");
    assert("looker_search_content"@.len() == 21);
    assert("looker_search_content"@[7] == 's');
    reveal_strlit("looker_list_folders");
    assert("looker_list_folders"@.len() == 19);
    reveal_strlit("looker_get_folder");
    assert("looker_get_folder"@.len() == 17);
    assert("looker_get_folder"@[7] == 'g');
    reveal_strlit("looker_list_looks");
    assert("looker_list_looks"@.len() == 17);
    assert("looker_list_looks"@[7] == 'l');
    assert("looker_list_looks"@[12] == 'l');
    reveal_strlit("looker_get_look");
    assert("looker_get_look"@.len() == 15);
    assert("looker_get_look"@[11] == 'l');
    reveal_strlit("looker_list_dashboards");
    assert("looker_list_dashboards"@.len() == 22);
    reveal_strlit("looker_get_dashboard");
    assert("looker_get_dashboard"@.len() == 20);
    reveal_strlit("looker_get_query");
    assert("looker_get_query"@.len() == 16);
    assert("looker_get_query"@[11] == 'q');
    reveal_strlit("looker_list_models");
    assert("looker_list_models"@.len() == 18);
    reveal_strlit("looker_get_model");
    assert("looker_get_model"@.len() == 16);
    assert("looker_get_model"@[11] == 'm');
    reveal_strlit("looker_get_model_explore");
    assert("looker_get_model_explore"@.len() == 24);
    reveal_strlit("looker_list_connections");
    assert("looker_list_connections"@.len() == 23);
    reveal_strlit("looker_get_connection");
    assert("looker_get_connection"@.len() == 21);
    assert("looker_get_connection"@[7] == 'g');
    reveal_strlit("looker_get_me");
    assert("looker_get_me"@.len() == 13);
    reveal_strlit("looker_list_users");
    assert("looker_list_users"@.len() == 17);
    assert("looker_list_users"@[7] == 'l');
    assert("looker_list_users"@[12] == 'u');
    reveal_strlit("looker_get_user");
    assert("looker_get_user"@.len() == 15);
    assert("looker_get_user"@[11] == 'u');
    reveal_strlit("looker_list_scheduled_plans");
    assert("looker_list_scheduled_plans"@.len() == 27);
    reveal_strlit("looker_get_scheduled_plan");
    assert("looker_get_scheduled_plan"@.len() == 25);
    assert(spec_tools(compact_table()) =~= seq!["looker_search_content"@, "looker_list_folders"@, "looker_get_folder"@, "looker_list_looks"@, "looker_get_look"@, "looker_list_dashboards"@, "looker_get_dashboard"@, "looker_get_query"@, "looker_list_models"@, "looker_get_model"@, "looker_get_model_explore"@, "looker_list_connections"@, "looker_get_connection"@, "looker_get_me"@, "looker_list_users"@, "looker_get_user"@, "looker_list_scheduled_plans"@, "looker_get_scheduled_plan"@]);
}

} // verus!
