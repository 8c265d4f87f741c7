use vstd::prelude::*;

use crate::decimal::{parse_u64, parse_u64_spec};
use crate::env_map::{env_lookup, env_value, opt_string_view, EnvMap};
use crate::error::{err_of, ok_view, CliError, ErrorView};
use crate::outside::{json_value, join_url, parse_json, parse_url, url_join, url_parse};
use crate::text::{
    concat3, lemma_trim_end_absorbs_slash, lemma_trim_end_idempotent, str_eq, strip_prefix,
    strip_prefix_spec, trim_end_slash, trim_end_slashes, trim_start_slash, trim_start_slashes,
};

verus! {

/// The API base that the environment names: `EVGL_API_URL`, else
/// `EVGL_BASE_URL`, else `http://127.0.0.1:8080`, without trailing slashes.
pub open spec fn api_base_spec(env: Map<Seq<char>, Seq<char>>) -> Seq<char> {
    trim_end_slashes(
        match env_lookup(env, "EVGL_API_URL"@) {
            Some(v) => v,
            None => match env_lookup(env, "EVGL_BASE_URL"@) {
                Some(v) => v,
                None => "http://127.0.0.1:8080"@,
            },
        },
    )
}

/// The API base URL, preferring `EVGL_API_URL` over `EVGL_BASE_URL`, with
/// trailing slashes removed.
pub fn api_base(env: &EnvMap) -> (r: String)
    ensures
        r@ == api_base_spec(env@),
{
    let chosen = match env_value(env, "EVGL_API_URL") {
        Some(v) => v,
        None => match env_value(env, "EVGL_BASE_URL") {
            Some(v) => v,
            None => "http://127.0.0.1:8080",
        },
    };
    trim_end_slash(chosen)
}

/// The event-stream WebSocket URL for an API base: `http://` becomes `ws://`,
/// `https://` becomes `wss://`, trailing slashes are dropped and `/v1/ws` is
/// appended; any other base has none.
pub open spec fn websocket_url_spec(base: Seq<char>) -> Option<Seq<char>> {
    let b = trim_end_slashes(base);
    match strip_prefix_spec(b, "http://"@) {
        Some(rest) => Some("ws://"@ + rest + "/v1/ws"@),
        None => match strip_prefix_spec(b, "https://"@) {
            Some(rest) => Some("wss://"@ + rest + "/v1/ws"@),
            None => None,
        },
    }
}

/// The event-stream WebSocket URL for the API base `base`.
pub fn websocket_url(base: &str) -> (r: Result<String, CliError>)
    ensures
        ok_view(r) == websocket_url_spec(base@),
        r is Err ==> err_of(r) == Some(ErrorView::UnsupportedScheme),
        base@.len() > 7 && "http://"@.is_prefix_of(base@) && base@.last() != '/' ==> ok_view(r)
            == Some("ws://"@ + base@.skip(7) + "/v1/ws"@),
        base@.len() > 8 && "https://"@.is_prefix_of(base@) && base@.last() != '/' ==> ok_view(r)
            == Some("wss://"@ + base@.skip(8) + "/v1/ws"@),
{
    proof {
        reveal_strlit("http://");
        reveal_strlit("https://");
        if base@.len() > 7 && "http://"@.is_prefix_of(base@) && base@.last() != '/' {
            law_websocket_url_keeps_path_http(base@.skip(7));
            assert("http://"@ + base@.skip(7) =~= base@);
        }
        if base@.len() > 8 && "https://"@.is_prefix_of(base@) && base@.last() != '/' {
            law_websocket_url_keeps_path_https(base@.skip(8));
            assert("https://"@ + base@.skip(8) =~= base@);
        }
    }
    let trimmed = trim_end_slash(base);
    match strip_prefix(trimmed.as_str(), "http://") {
        Some(rest) => Ok(concat3("ws://", rest.as_str(), "/v1/ws")),
        None => match strip_prefix(trimmed.as_str(), "https://") {
            Some(rest) => Ok(concat3("wss://", rest.as_str(), "/v1/ws")),
            None => Err(CliError::UnsupportedScheme),
        },
    }
}

/// The URL of the API's event stream for the environment `env`.
pub fn event_stream_url(env: &EnvMap) -> (r: Result<String, CliError>)
    ensures
        ok_view(r) == websocket_url_spec(api_base_spec(env@)),
        r is Err ==> err_of(r) == Some(ErrorView::UnsupportedScheme),
{
    let base = api_base(env);
    websocket_url(base.as_str())
}

/// The request timeout: `EVGL_TIMEOUT_SECONDS` when it is a `u64`, else 20.
pub open spec fn timeout_spec(env: Map<Seq<char>, Seq<char>>) -> u64 {
    match env_lookup(env, "EVGL_TIMEOUT_SECONDS"@) {
        Some(v) => match parse_u64_spec(v) {
            Some(t) => t,
            None => 20,
        },
        None => 20,
    }
}

/// The request timeout in seconds that the environment asks for.
pub fn timeout_seconds(env: &EnvMap) -> (r: u64)
    ensures
        r == timeout_spec(env@),
{
    match env.get("EVGL_TIMEOUT_SECONDS") {
        Some(v) => match parse_u64(v.as_str()) {
            Some(t) => t,
            None => 20,
        },
        None => 20,
    }
}

/// How the tool reaches the API: the parsed base URL, the bearer token if
/// any, and the request timeout.
pub struct ApiConfig {
    pub base: String,
    pub token: Option<String>,
    pub timeout_seconds: u64,
}

/// What `ApiConfig::from_env_map` yields for an environment, given what the
/// URL parser made of the API base.
pub open spec fn api_config_ok(c: ApiConfig, env: Map<Seq<char>, Seq<char>>) -> bool {
    &&& url_parse(api_base_spec(env)) == Ok::<Seq<char>, Seq<char>>(c.base@)
    &&& opt_string_view(c.token) == env_lookup(env, "EVGL_TOKEN"@)
    &&& c.timeout_seconds == timeout_spec(env)
}

impl ApiConfig {
    /// Reads the API settings from the environment: the timeout, the base URL
    /// (which must parse as a URL) and the token `EVGL_TOKEN`.
    pub fn from_env_map(env: &EnvMap) -> (r: Result<ApiConfig, CliError>)
        ensures
            r is Ok <==> url_parse(api_base_spec(env@)) is Ok,
            r matches Ok(c) ==> api_config_ok(c, env@),
            url_parse(api_base_spec(env@)) matches Err(m) ==> err_of(r) == Some(
                ErrorView::InvalidBaseUrl { cause: m },
            ),
    {
        let timeout = timeout_seconds(env);
        let base_text = api_base(env);
        let base = match parse_url(base_text.as_str()) {
            Ok(h) => h,
            Err(cause) => {
                return Err(CliError::InvalidBaseUrl { cause });
            },
        };
        let token = match env_value(env, "EVGL_TOKEN") {
            Some(t) => Some(String::from_str(t)),
            None => None,
        };
        Ok(ApiConfig { base, token, timeout_seconds: timeout })
    }

    /// The URL that `reference` denotes relative to the API base.
    pub fn join(&self, reference: &str) -> (r: Result<String, CliError>)
        ensures
            match url_join(self.base@, reference@) {
                Ok(u) => ok_view(r) == Some(u),
                Err(m) => err_of(r) == Some(ErrorView::InvalidUrl { message: m }),
            },
    {
        match join_url(self.base.as_str(), reference) {
            Ok(u) => Ok(u),
            Err(message) => Err(CliError::InvalidUrl { message }),
        }
    }

    /// The URL of the API path `path`, its leading slashes dropped so that it
    /// extends the base's path.
    pub fn endpoint(&self, path: &str) -> (r: Result<String, CliError>)
        ensures
            match url_join(self.base@, trim_start_slashes(path@)) {
                Ok(u) => ok_view(r) == Some(u),
                Err(m) => err_of(r) == Some(ErrorView::InvalidUrl { message: m }),
            },
    {
        let relative = trim_start_slash(path);
        self.join(relative.as_str())
    }

    /// The value of the `Authorization` header: `Bearer {token}`, when there
    /// is a token.
    pub fn authorization(&self) -> (r: Option<String>)
        ensures
            opt_string_view(r) == match self.token {
                Some(t) => Some("Bearer "@ + t@),
                None => None,
            },
    {
        match &self.token {
            Some(t) => {
                let mut h = String::from_str("Bearer ");
                h.append(t.as_str());
                Some(h)
            },
            None => None,
        }
    }
}

/// The body of a successful API response.
pub enum ApiBody {
    /// The response had no body.
    Empty,
    /// The response's JSON document.
    Json(serde_json::Value),
}

/// An `ApiBody` with its JSON document unopened.
pub enum ApiBodyView {
    Empty,
    Json(serde_json::Value),
}

impl View for ApiBody {
    type V = ApiBodyView;

    open spec fn view(&self) -> ApiBodyView {
        match self {
            ApiBody::Empty => ApiBodyView::Empty,
            ApiBody::Json(v) => ApiBodyView::Json(*v),
        }
    }
}

/// Decides on an API response: an unsuccessful status is an error that
/// quotes the status and body, an empty body is `Empty`, and any other body
/// must be JSON.
pub fn decode_api_response(success: bool, status: &str, text: String) -> (r: Result<ApiBody, CliError>)
    ensures
        !success ==> err_of(r) == Some(ErrorView::ApiStatus { status: status@, body: text@ }),
        success && text@.len() == 0 ==> ok_view(r) == Some(ApiBodyView::Empty),
        success && text@.len() != 0 ==> match json_value(text@) {
            Ok(v) => ok_view(r) == Some(ApiBodyView::Json(v)),
            Err(m) => err_of(r) == Some(ErrorView::InvalidApiJson { body: text@, cause: m }),
        },
{
    if !success {
        return Err(CliError::ApiStatus { status: String::from_str(status), body: text });
    }
    if text.as_str().is_empty() {
        return Ok(ApiBody::Empty);
    }
    match parse_json(text.as_str()) {
        Ok(v) => Ok(ApiBody::Json(v)),
        Err(cause) => Err(CliError::InvalidApiJson { body: text, cause }),
    }
}

/// Decides on the response to a cross-post: an unsuccessful status is an
/// error that quotes the status and body, and the body must be JSON.
pub fn decode_cross_post_response(success: bool, status: &str, text: String) -> (r: Result<
    serde_json::Value,
    CliError,
>)
    ensures
        !success ==> err_of(r) == Some(ErrorView::ApiStatus { status: status@, body: text@ }),
        success ==> match json_value(text@) {
            Ok(v) => r == Ok::<serde_json::Value, CliError>(v),
            Err(m) => err_of(r) == Some(ErrorView::InvalidResponseJson { message: m }),
        },
{
    if !success {
        return Err(CliError::ApiStatus { status: String::from_str(status), body: text });
    }
    match parse_json(text.as_str()) {
        Ok(v) => Ok(v),
        Err(message) => Err(CliError::InvalidResponseJson { message }),
    }
}

/// How a foundation response is shown.
pub enum Rendering {
    /// Pretty-printed JSON.
    Json(serde_json::Value),
    /// The body as it came.
    Text(String),
}

/// A `Rendering` with its text taken by its characters.
pub enum RenderingView {
    Json(serde_json::Value),
    Text(Seq<char>),
}

impl View for Rendering {
    type V = RenderingView;

    open spec fn view(&self) -> RenderingView {
        match self {
            Rendering::Json(v) => RenderingView::Json(*v),
            Rendering::Text(t) => RenderingView::Text(t@),
        }
    }
}

/// Decides how to show a foundation response: an unsuccessful status is an
/// error `HTTP {status}: {body}`; in `json` mode the body must be JSON, in any
/// other mode it is shown as it came.
pub fn render_response(success: bool, status: &str, text: String, output: &str) -> (r: Result<
    Rendering,
    CliError,
>)
    ensures
        !success ==> err_of(r) == Some(ErrorView::HttpStatus { status: status@, body: text@ }),
        success && output@ == "json"@ ==> match json_value(text@) {
            Ok(v) => ok_view(r) == Some(RenderingView::Json(v)),
            Err(m) => err_of(r) == Some(ErrorView::InvalidResponseJson { message: m }),
        },
        success && output@ != "json"@ ==> ok_view(r) == Some(RenderingView::Text(text@)),
{
    if !success {
        return Err(CliError::HttpStatus { status: String::from_str(status), body: text });
    }
    if str_eq(output, "json") {
        match parse_json(text.as_str()) {
            Ok(v) => Ok(Rendering::Json(v)),
            Err(message) => Err(CliError::InvalidResponseJson { message }),
        }
    } else {
        Ok(Rendering::Text(text))
    }
}

/// The event-stream URL does not depend on trailing slashes of the API
/// base: a base with one more `'/'` gives the same URL, or none alike.
pub proof fn law_websocket_url_ignores_trailing_slash(base: Seq<char>)
    ensures
        websocket_url_spec(base.push('/')) == websocket_url_spec(base),
{
    lemma_trim_end_absorbs_slash(base);
}

/// The API base never ends with `'/'`.
pub proof fn law_api_base_has_no_trailing_slash(env: Map<Seq<char>, Seq<char>>)
    ensures
        api_base_spec(env).len() == 0 || api_base_spec(env).last() != '/',
{
    let chosen = match env_lookup(env, "EVGL_API_URL"@) {
        Some(v) => v,
        None => match env_lookup(env, "EVGL_BASE_URL"@) {
            Some(v) => v,
            None => "http://127.0.0.1:8080"@,
        },
    };
    lemma_trim_end_idempotent(chosen);
}

/// `EVGL_API_URL`, when set, decides the API base whatever `EVGL_BASE_URL`
/// holds.
pub proof fn law_api_url_wins(env: Map<Seq<char>, Seq<char>>, base_url: Seq<char>)
    requires
        env.contains_key("EVGL_API_URL"@),
    ensures
        api_base_spec(env.insert("EVGL_BASE_URL"@, base_url)) == api_base_spec(env),
        api_base_spec(env) == trim_end_slashes(env["EVGL_API_URL"@]),
{
    reveal_strlit("EVGL_API_URL");
    reveal_strlit("EVGL_BASE_URL");
    assert("EVGL_API_URL"@.len() != "EVGL_BASE_URL"@.len());
    let e2 = env.insert("EVGL_BASE_URL"@, base_url);
    assert(e2.contains_key("EVGL_API_URL"@) && e2["EVGL_API_URL"@] == env["EVGL_API_URL"@]);
}

/// An `http://` base keeps its whole rest, host and path alike: for any
/// rest that does not end in `'/'`, the event stream of `http://{rest}` is
/// `ws://{rest}/v1/ws`.
pub proof fn law_websocket_url_keeps_path_http(rest: Seq<char>)
    requires
        rest.len() > 0,
        rest.last() != '/',
    ensures
        websocket_url_spec("http://"@ + rest) == Some("ws://"@ + rest + "/v1/ws"@),
{
    reveal_strlit("http://");
    let b = "http://"@ + rest;
    assert(b.last() == rest.last());
    assert(trim_end_slashes(b) == b);
    assert(b.subrange(0, 7) =~= "http://"@);
    assert("http://"@.is_prefix_of(b));
    assert(b.skip(7) =~= rest);
}

/// An `https://` base keeps its whole rest, host and path alike: for any
/// rest that does not end in `'/'`, the event stream of `https://{rest}` is
/// `wss://{rest}/v1/ws`.
pub proof fn law_websocket_url_keeps_path_https(rest: Seq<char>)
    requires
        rest.len() > 0,
        rest.last() != '/',
    ensures
        websocket_url_spec("https://"@ + rest) == Some("wss://"@ + rest + "/v1/ws"@),
{
    reveal_strlit("http://");
    reveal_strlit("https://");
    let b = "https://"@ + rest;
    assert(b.last() == rest.last());
    assert(trim_end_slashes(b) == b);
    assert(b[4] == 's' && "http://"@[4] == ':');
    assert(!"http://"@.is_prefix_of(b));
    assert(b.subrange(0, 8) =~= "https://"@);
    assert("https://"@.is_prefix_of(b));
    assert(b.skip(8) =~= rest);
}

} // verus!
