use vstd::prelude::*;

use crate::api::{api_base_spec, api_config_ok, ApiConfig};
use crate::cli::{is_output_mode, validate_output};
use crate::env_map::{env_lookup, env_or, env_or_spec, env_value, opt_string_view, required, EnvMap};
use crate::error::{err_of, ok_view, CliError, ErrorView};
use crate::outside::{
    json_value, parse_json, parse_uuid, set_url_scheme, url_join, url_parse, url_with_scheme,
    uuid_hyphenated, uuid_parse, uuid_text,
};
use crate::text::{concat2, concat3, starts_with, str_eq, trim_end_slash, trim_end_slashes};

verus! {

/// The JSON value of the variable `key`, `{}` when it is unset.
pub fn json_env(env: &EnvMap, key: &str) -> (r: Result<serde_json::Value, CliError>)
    ensures
        match json_value(env_or_spec(env@, key@, "{}"@)) {
            Ok(v) => r == Ok::<serde_json::Value, CliError>(v),
            Err(m) => err_of(r) == Some(ErrorView::InvalidJson { key: key@, cause: m }),
        },
{
    let text = env_or(env, key, "{}");
    match parse_json(text.as_str()) {
        Ok(v) => Ok(v),
        Err(cause) => Err(CliError::InvalidJson { key: String::from_str(key), cause }),
    }
}

/// What `required_uuid` gives: the UUID that the variable `key` holds, the
/// error `missing {key}` when it is unset, or the UUID parser's error.
pub open spec fn required_uuid_spec(env: Map<Seq<char>, Seq<char>>, key: Seq<char>) -> Result<
    u128,
    ErrorView,
> {
    match env_lookup(env, key) {
        Some(v) => match uuid_parse(v) {
            Ok(u) => Ok(u),
            Err(m) => Err(ErrorView::InvalidUuid { message: m }),
        },
        None => Err(ErrorView::Missing { key }),
    }
}

/// Whether `r` is the outcome `expected`, errors taken by their views.
pub open spec fn outcome_is<T>(r: Result<T, CliError>, expected: Result<T, ErrorView>) -> bool {
    match expected {
        Ok(v) => r == Ok::<T, CliError>(v),
        Err(e) => err_of(r) == Some(e),
    }
}

/// The UUID that the variable `key` holds; a missing variable is the error
/// `missing {key}`, a value that is not a UUID the parser's error.
pub fn required_uuid(env: &EnvMap, key: &str) -> (r: Result<u128, CliError>)
    ensures
        outcome_is(r, required_uuid_spec(env@, key@)),
{
    let text = required(env, key)?;
    match parse_uuid(text.as_str()) {
        Ok(v) => Ok(v),
        Err(message) => Err(CliError::InvalidUuid { message }),
    }
}

/// The first of `keys` that `env` has no value for.
pub open spec fn first_missing(env: Map<Seq<char>, Seq<char>>, keys: Seq<Seq<char>>) -> Option<
    Seq<char>,
>
    decreases keys.len(),
{
    if keys.len() == 0 {
        None
    } else if env_lookup(env, keys[0]) is None {
        Some(keys[0])
    } else {
        first_missing(env, keys.drop_first())
    }
}

/// A canonical event as the create-event command describes it. The event
/// is created with no online URL, no venue, no tags and empty metadata.
pub struct EventDraft {
    pub title: String,
    pub summary: String,
    pub description_html: String,
    pub starts_at: String,
    pub ends_at: String,
    pub timezone: String,
    pub canonical_url: String,
}

/// The variables that an event must have, in the order they are read.
pub open spec fn event_keys() -> Seq<Seq<char>> {
    seq![
        "EVGL_TITLE"@,
        "EVGL_SUMMARY"@,
        "EVGL_STARTS_AT"@,
        "EVGL_ENDS_AT"@,
        "EVGL_TIMEZONE"@,
        "EVGL_CANONICAL_URL"@,
    ]
}

/// Whether `d` holds the event that `env` describes.
pub open spec fn event_draft_of(d: EventDraft, env: Map<Seq<char>, Seq<char>>) -> bool {
    &&& Some(d.title@) == env_lookup(env, "EVGL_TITLE"@)
    &&& Some(d.summary@) == env_lookup(env, "EVGL_SUMMARY"@)
    &&& d.description_html@ == env_or_spec(env, "EVGL_DESCRIPTION"@, ""@)
    &&& Some(d.starts_at@) == env_lookup(env, "EVGL_STARTS_AT"@)
    &&& Some(d.ends_at@) == env_lookup(env, "EVGL_ENDS_AT"@)
    &&& Some(d.timezone@) == env_lookup(env, "EVGL_TIMEZONE"@)
    &&& Some(d.canonical_url@) == env_lookup(env, "EVGL_CANONICAL_URL"@)
}

/// Each field of an event is the variable of its own name: the start is
/// `EVGL_STARTS_AT` and the end `EVGL_ENDS_AT`, never the other way round.
pub proof fn law_event_fields_follow_their_variables(d: EventDraft, env: Map<Seq<char>, Seq<char>>)
    requires
        event_draft_of(d, env),
    ensures
        Some(d.title@) == env_lookup(env, "EVGL_TITLE"@),
        Some(d.summary@) == env_lookup(env, "EVGL_SUMMARY"@),
        d.description_html@ == env_or_spec(env, "EVGL_DESCRIPTION"@, ""@),
        Some(d.starts_at@) == env_lookup(env, "EVGL_STARTS_AT"@),
        Some(d.ends_at@) == env_lookup(env, "EVGL_ENDS_AT"@),
        Some(d.timezone@) == env_lookup(env, "EVGL_TIMEZONE"@),
        Some(d.canonical_url@) == env_lookup(env, "EVGL_CANONICAL_URL"@),
{
}

/// The event that the environment describes: title, summary, start, end,
/// time zone and canonical URL are required (the first missing one is the
/// error), the description defaults to empty.
pub fn event_draft(env: &EnvMap) -> (r: Result<EventDraft, CliError>)
    ensures
        first_missing(env@, event_keys()) is None <==> r is Ok,
        r matches Ok(d) ==> event_draft_of(d, env@),
        r matches Ok(d) ==> (Some(d.title@) == env_lookup(env@, "EVGL_TITLE"@) && Some(
            d.summary@,
        ) == env_lookup(env@, "EVGL_SUMMARY"@) && d.description_html@ == env_or_spec(
            env@,
            "EVGL_DESCRIPTION"@,
            ""@,
        ) && Some(d.starts_at@) == env_lookup(env@, "EVGL_STARTS_AT"@) && Some(d.ends_at@)
            == env_lookup(env@, "EVGL_ENDS_AT"@) && Some(d.timezone@) == env_lookup(
            env@,
            "EVGL_TIMEZONE"@,
        ) && Some(d.canonical_url@) == env_lookup(env@, "EVGL_CANONICAL_URL"@)),
        first_missing(env@, event_keys()) is Some ==> err_of(r) == Some(
            ErrorView::Missing { key: first_missing(env@, event_keys())->0 },
        ),
{
    proof {
        reveal_with_fuel(first_missing, 7);
    }
    let title = required(env, "EVGL_TITLE")?;
    let summary = required(env, "EVGL_SUMMARY")?;
    let description_html = env_or(env, "EVGL_DESCRIPTION", "");
    let starts_at = required(env, "EVGL_STARTS_AT")?;
    let ends_at = required(env, "EVGL_ENDS_AT")?;
    let timezone = required(env, "EVGL_TIMEZONE")?;
    let canonical_url = required(env, "EVGL_CANONICAL_URL")?;
    Ok(EventDraft { title, summary, description_html, starts_at, ends_at, timezone, canonical_url })
}

/// Whether manual connections can be made for a provider, named by its
/// canonical name: only craigslist and generic_webhook take them.
pub open spec fn manual_provider(provider: Seq<char>) -> bool {
    provider == "craigslist"@ || provider == "generic_webhook"@
}

/// A manual connection as the connect-manual command describes it.
pub struct ManualConnection {
    pub provider: String,
    pub account_key: String,
    pub display_name: String,
    pub metadata: serde_json::Value,
    pub secret: Option<String>,
}

/// Whether `c` is the manual connection for `provider` with metadata `m`
/// that `env` describes.
pub open spec fn manual_connection_of(
    c: ManualConnection,
    provider: Seq<char>,
    env: Map<Seq<char>, Seq<char>>,
    m: serde_json::Value,
) -> bool {
    &&& c.provider@ == provider
    &&& Some(c.account_key@) == env_lookup(env, "EVGL_ACCOUNT_KEY"@)
    &&& Some(c.display_name@) == env_lookup(env, "EVGL_DISPLAY_NAME"@)
    &&& c.metadata == m
    &&& opt_string_view(c.secret) == env_lookup(env, "EVGL_CONNECTION_SECRET"@)
}

/// A manual connection carries the metadata it was given: whatever JSON
/// value the metadata variable parses to is the connection's metadata.
pub proof fn law_manual_connection_keeps_metadata(
    c: ManualConnection,
    provider: Seq<char>,
    env: Map<Seq<char>, Seq<char>>,
    m: serde_json::Value,
)
    requires
        manual_connection_of(c, provider, env, m),
    ensures
        c.metadata == m,
        c.provider@ == provider,
{
}

/// The variables that a manual connection must have, in the order they are read.
pub open spec fn manual_keys() -> Seq<Seq<char>> {
    seq!["EVGL_ACCOUNT_KEY"@, "EVGL_DISPLAY_NAME"@]
}

/// The manual connection for `provider` (its canonical name) that the
/// environment describes. Only craigslist and generic_webhook take manual
/// connections; then the account key and display name are required, the
/// metadata must be JSON (`{}` when unset) and the secret is optional.
pub fn manual_connection(env: &EnvMap, provider: &str) -> (r: Result<ManualConnection, CliError>)
    ensures
        !manual_provider(provider@) ==> err_of(r) == Some(ErrorView::ManualProviderOnly),
        manual_provider(provider@) && first_missing(env@, manual_keys()) is Some ==> err_of(r)
            == Some(ErrorView::Missing { key: first_missing(env@, manual_keys())->0 }),
        manual_provider(provider@) && first_missing(env@, manual_keys()) is None ==> match json_value(
            env_or_spec(env@, "EVGL_METADATA"@, "{}"@),
        ) {
            Ok(m) => r is Ok && manual_connection_of(r->Ok_0, provider@, env@, m),
            Err(c) => err_of(r) == Some(ErrorView::InvalidJson { key: "EVGL_METADATA"@, cause: c }),
        },
        r matches Ok(c) ==> (json_value(env_or_spec(env@, "EVGL_METADATA"@, "{}"@)) == Ok::<
            serde_json::Value,
            Seq<char>,
        >(c.metadata) && c.provider@ == provider@ && manual_provider(provider@) && Some(
            c.account_key@,
        ) == env_lookup(env@, "EVGL_ACCOUNT_KEY"@) && Some(c.display_name@) == env_lookup(
            env@,
            "EVGL_DISPLAY_NAME"@,
        ) && opt_string_view(c.secret) == env_lookup(env@, "EVGL_CONNECTION_SECRET"@)),
{
    proof {
        reveal_with_fuel(first_missing, 3);
    }
    if !(str_eq(provider, "craigslist") || str_eq(provider, "generic_webhook")) {
        return Err(CliError::ManualProviderOnly);
    }
    let account_key = required(env, "EVGL_ACCOUNT_KEY")?;
    let display_name = required(env, "EVGL_DISPLAY_NAME")?;
    let metadata = json_env(env, "EVGL_METADATA")?;
    let secret = match env_value(env, "EVGL_CONNECTION_SECRET") {
        Some(v) => Some(String::from_str(v)),
        None => None,
    };
    Ok(ManualConnection {
        provider: String::from_str(provider),
        account_key,
        display_name,
        metadata,
        secret,
    })
}

/// The API path that starts an OAuth connection with `provider`.
pub fn connect_start_path(provider: &str) -> (r: String)
    ensures
        r@ == "/v1/oauth/"@ + provider@ + "/start"@,
{
    concat3("/v1/oauth/", provider, "/start")
}

/// The API path of the job that `EVGL_JOB_ID` names.
pub fn job_path(env: &EnvMap) -> (r: Result<String, CliError>)
    ensures
        ok_view(r) == match env_lookup(env@, "EVGL_JOB_ID"@) {
            Some(id) => Some("/v1/jobs/"@ + id),
            None => None,
        },
        env_lookup(env@, "EVGL_JOB_ID"@) is None ==> err_of(r) == Some(
            ErrorView::Missing { key: "EVGL_JOB_ID"@ },
        ),
{
    let id = required(env, "EVGL_JOB_ID")?;
    let mut path = String::from_str("/v1/jobs/");
    path.append(id.as_str());
    Ok(path)
}

/// The idempotency key that a cross-post uses when `EVGL_IDEMPOTENCY_KEY` is
/// unset: `cli:{event}:{provider}:{connection}`, the ids hyphenated.
pub open spec fn default_idempotency_key(event_id: u128, provider: Seq<char>, connection_id: u128) -> Seq<char> {
    "cli:"@ + uuid_hyphenated(event_id) + ":"@ + provider + ":"@ + uuid_hyphenated(connection_id)
}

/// The API reference of the cross-post endpoint of an event.
pub open spec fn cross_post_reference(event_id: u128) -> Seq<char> {
    "v1/events/"@ + uuid_hyphenated(event_id) + "/cross-post"@
}

/// What the cross-post command sends: the event, the target (provider,
/// connection and options), the idempotency key and the endpoint URL.
pub struct CrossPostPlan {
    pub event_id: u128,
    pub provider: String,
    pub connection_id: u128,
    pub options: serde_json::Value,
    pub idempotency_key: String,
    pub url: String,
}

/// The event to cross-post: the UUID in `EVGL_EVENT_ID`.
pub fn cross_post_event_id(env: &EnvMap) -> (r: Result<u128, CliError>)
    ensures
        outcome_is(r, required_uuid_spec(env@, "EVGL_EVENT_ID"@)),
{
    required_uuid(env, "EVGL_EVENT_ID")
}

/// Whether `p` is the cross-post of `event_id` to `provider` over the
/// connection `connection_id` with `options`, against the API base `base`,
/// that `env` describes.
pub open spec fn cross_post_plan_of(
    p: CrossPostPlan,
    base: Seq<char>,
    env: Map<Seq<char>, Seq<char>>,
    event_id: u128,
    provider: Seq<char>,
    connection_id: u128,
    options: serde_json::Value,
) -> bool {
    &&& p.event_id == event_id
    &&& p.provider@ == provider
    &&& p.connection_id == connection_id
    &&& p.options == options
    &&& p.idempotency_key@ == env_or_spec(
        env,
        "EVGL_IDEMPOTENCY_KEY"@,
        default_idempotency_key(event_id, provider, connection_id),
    )
    &&& url_join(base, cross_post_reference(event_id)) == Ok::<Seq<char>, Seq<char>>(p.url@)
}

/// What a cross-post of `event_id` against the API base `base` reads from
/// `env`: the connection UUID and the target options, or the error that
/// stops it (in the order the values are read, the endpoint URL last).
pub open spec fn cross_post_outcome(base: Seq<char>, env: Map<Seq<char>, Seq<char>>, event_id: u128) -> Result<(u128, serde_json::Value), ErrorView> {
    match required_uuid_spec(env, "EVGL_CONNECTION_ID"@) {
        Err(e) => Err(e),
        Ok(c) => match json_value(env_or_spec(env, "EVGL_TARGET_OPTIONS"@, "{}"@)) {
            Err(m) => Err(ErrorView::InvalidJson { key: "EVGL_TARGET_OPTIONS"@, cause: m }),
            Ok(o) => match url_join(base, cross_post_reference(event_id)) {
                Err(m) => Err(ErrorView::InvalidUrl { message: m }),
                Ok(_) => Ok((c, o)),
            },
        },
    }
}

/// The idempotency key decides only the key: setting `EVGL_IDEMPOTENCY_KEY`
/// to anything leaves the connection, the target options and the errors of a
/// cross-post as they were, and a plan's options are the ones it was given.
pub proof fn law_idempotency_key_changes_only_the_key(
    base: Seq<char>,
    env: Map<Seq<char>, Seq<char>>,
    event_id: u128,
    key: Seq<char>,
)
    ensures
        cross_post_outcome(base, env.insert("EVGL_IDEMPOTENCY_KEY"@, key), event_id)
            == cross_post_outcome(base, env, event_id),
        cross_post_outcome(base, env, event_id) matches Ok((c, o)) ==> json_value(
            env_or_spec(env, "EVGL_TARGET_OPTIONS"@, "{}"@),
        ) == Ok::<serde_json::Value, Seq<char>>(o),
{
    reveal_strlit("EVGL_IDEMPOTENCY_KEY");
    reveal_strlit("EVGL_CONNECTION_ID");
    reveal_strlit("EVGL_TARGET_OPTIONS");
    assert("EVGL_IDEMPOTENCY_KEY"@.len() == 20);
    assert("EVGL_CONNECTION_ID"@.len() == 18);
    assert("EVGL_TARGET_OPTIONS"@.len() == 19);
    let e2 = env.insert("EVGL_IDEMPOTENCY_KEY"@, key);
    assert(env_lookup(e2, "EVGL_CONNECTION_ID"@) == env_lookup(env, "EVGL_CONNECTION_ID"@));
    assert(env_lookup(e2, "EVGL_TARGET_OPTIONS"@) == env_lookup(env, "EVGL_TARGET_OPTIONS"@));
}

/// A plan carries the target options and connection it was planned with.
pub proof fn law_plan_keeps_its_target(
    p: CrossPostPlan,
    base: Seq<char>,
    env: Map<Seq<char>, Seq<char>>,
    event_id: u128,
    provider: Seq<char>,
    connection_id: u128,
    options: serde_json::Value,
)
    requires
        cross_post_plan_of(p, base, env, event_id, provider, connection_id, options),
    ensures
        p.options == options,
        p.connection_id == connection_id,
        p.event_id == event_id,
{
}

/// Plans the cross-post of `event_id` to `provider` (its canonical name):
/// the connection is the UUID in `EVGL_CONNECTION_ID`, the options the JSON
/// in `EVGL_TARGET_OPTIONS` (`{}` when unset), the idempotency key
/// `EVGL_IDEMPOTENCY_KEY` or `cli:{event}:{provider}:{connection}`, and the
/// endpoint `v1/events/{event}/cross-post` on the API base.
pub fn cross_post_plan(config: &ApiConfig, env: &EnvMap, event_id: u128, provider: &str) -> (r:
    Result<CrossPostPlan, CliError>)
    ensures
        match cross_post_outcome(config.base@, env@, event_id) {
            Ok((c, o)) => r is Ok && cross_post_plan_of(
                r->Ok_0,
                config.base@,
                env@,
                event_id,
                provider@,
                c,
                o,
            ),
            Err(e) => err_of(r) == Some(e),
        },
        r matches Ok(p) ==> (json_value(env_or_spec(env@, "EVGL_TARGET_OPTIONS"@, "{}"@)) == Ok::<
            serde_json::Value,
            Seq<char>,
        >(p.options) && required_uuid_spec(env@, "EVGL_CONNECTION_ID"@) == Ok::<u128, ErrorView>(
            p.connection_id,
        ) && p.event_id == event_id && p.provider@ == provider@),
{
    let connection_id = required_uuid(env, "EVGL_CONNECTION_ID")?;
    let options = json_env(env, "EVGL_TARGET_OPTIONS")?;
    let event_text = uuid_text(event_id);
    let connection_text = uuid_text(connection_id);
    let mut default_key = concat3("cli:", event_text.as_str(), ":");
    default_key.append(provider);
    default_key.append(":");
    default_key.append(connection_text.as_str());
    let idempotency_key = env_or(env, "EVGL_IDEMPOTENCY_KEY", default_key.as_str());
    let reference = concat3("v1/events/", event_text.as_str(), "/cross-post");
    let url = config.join(reference.as_str())?;
    Ok(CrossPostPlan {
        event_id,
        provider: String::from_str(provider),
        connection_id,
        options,
        idempotency_key,
        url,
    })
}

/// The API reference of a job's WebSocket stream.
pub open spec fn job_socket_reference(id: Seq<char>) -> Seq<char> {
    "v1/jobs/"@ + id + "/ws"@
}

/// The WebSocket scheme for a URL: `wss` for an `https` URL, `ws` otherwise.
pub open spec fn socket_scheme(href: Seq<char>) -> Seq<char> {
    if "https:"@.is_prefix_of(href) {
        "wss"@
    } else {
        "ws"@
    }
}

/// The WebSocket scheme for the URL serialization `href`: `wss` when its
/// scheme is `https`, `ws` otherwise.
pub fn websocket_scheme(href: &str) -> (r: &'static str)
    ensures
        r@ == socket_scheme(href@),
{
    if starts_with(href, "https:") {
        "wss"
    } else {
        "ws"
    }
}

/// The WebSocket URL of the job `id` against the API base `base`, or the
/// error that stops it.
pub open spec fn job_socket_spec(base: Seq<char>, env: Map<Seq<char>, Seq<char>>) -> Result<
    Seq<char>,
    ErrorView,
> {
    match env_lookup(env, "EVGL_JOB_ID"@) {
        None => Err(ErrorView::Missing { key: "EVGL_JOB_ID"@ }),
        Some(id) => match url_join(base, job_socket_reference(id)) {
            Err(m) => Err(ErrorView::InvalidUrl { message: m }),
            Ok(j) => match url_with_scheme(j, socket_scheme(j)) {
                None => Err(ErrorView::InvalidWebSocketUrl),
                Some(u) => Ok(u),
            },
        },
    }
}

/// How to open a job's WebSocket stream.
pub struct JobSocket {
    pub url: String,
    pub authorization: Option<String>,
    pub config: ApiConfig,
}

/// Plans the stream of the job in `EVGL_JOB_ID`: its `v1/jobs/{id}/ws` URL on
/// the API base, switched to `wss` for an `https` base and to `ws` otherwise,
/// with `Bearer {token}` authorization when there is a token.
pub fn job_socket(env: &EnvMap) -> (r: Result<JobSocket, CliError>)
    ensures
        url_parse(api_base_spec(env@)) matches Err(m) ==> err_of(r) == Some(
            ErrorView::InvalidBaseUrl { cause: m },
        ),
        url_parse(api_base_spec(env@)) is Ok ==> match job_socket_spec(
            url_parse(api_base_spec(env@))->Ok_0,
            env@,
        ) {
            Ok(u) => r is Ok && r->Ok_0.url@ == u && api_config_ok(r->Ok_0.config, env@)
                && opt_string_view(r->Ok_0.authorization) == match env_lookup(env@, "EVGL_TOKEN"@) {
                Some(t) => Some("Bearer "@ + t),
                None => None,
            },
            Err(e) => err_of(r) == Some(e),
        },
{
    let config = ApiConfig::from_env_map(env)?;
    let id = required(env, "EVGL_JOB_ID")?;
    let reference = concat3("v1/jobs/", id.as_str(), "/ws");
    let joined = config.join(reference.as_str())?;
    let scheme = websocket_scheme(joined.as_str());
    let url = match set_url_scheme(joined.as_str(), scheme) {
        Some(u) => u,
        None => {
            return Err(CliError::InvalidWebSocketUrl);
        },
    };
    let authorization = config.authorization();
    Ok(JobSocket { url, authorization, config })
}

/// The URL of a foundation command against the API base `base`, or the
/// error that stops it.
pub open spec fn foundation_url_spec(command: Seq<char>, env: Map<Seq<char>, Seq<char>>, base: Seq<char>) -> Result<Seq<char>, ErrorView> {
    if command == "health"@ {
        Ok(base + "/healthz"@)
    } else if command == "list"@ {
        Ok(base + "/v1/events"@)
    } else if command == "get"@ {
        match env_lookup(env, "EVGL_ID"@) {
            Some(id) => Ok(base + "/v1/events/"@ + id),
            None => match env_lookup(env, "EVGL_EVENT_ID"@) {
                Some(id) => Ok(base + "/v1/events/"@ + id),
                None => Err(ErrorView::IdRequired),
            },
        }
    } else {
        Err(ErrorView::UnknownFoundationCommand { command })
    }
}

/// The URL that a foundation command reads against the API base whose URL
/// serialization is `base_href`: the base without trailing slashes followed
/// by `/healthz` for `health`, `/v1/events` for `list`, and
/// `/v1/events/{id}` for `get`, the id from `EVGL_ID` or else `EVGL_EVENT_ID`.
pub fn foundation_url(command: &str, env: &EnvMap, base_href: &str) -> (r: Result<String, CliError>)
    ensures
        match foundation_url_spec(command@, env@, trim_end_slashes(base_href@)) {
            Ok(u) => ok_view(r) == Some(u),
            Err(e) => err_of(r) == Some(e),
        },
        command@ == "get"@ && env_lookup(env@, "EVGL_ID"@) is Some ==> ok_view(r) == Some(
            trim_end_slashes(base_href@) + "/v1/events/"@ + env_lookup(env@, "EVGL_ID"@)->0,
        ),
        command@ == "get"@ && env_lookup(env@, "EVGL_ID"@) is None && env_lookup(
            env@,
            "EVGL_EVENT_ID"@,
        ) is Some ==> ok_view(r) == Some(
            trim_end_slashes(base_href@) + "/v1/events/"@ + env_lookup(env@, "EVGL_EVENT_ID"@)->0,
        ),
        err_of(r) == Some(ErrorView::IdRequired) ==> command@ == "get"@ && env_lookup(
            env@,
            "EVGL_ID"@,
        ) is None && env_lookup(env@, "EVGL_EVENT_ID"@) is None,
{
    proof {
        reveal_strlit("health");
        reveal_strlit("list");
        reveal_strlit("get");
        law_get_reads_the_given_id(command@, env@, trim_end_slashes(base_href@));
    }
    let base = trim_end_slash(base_href);
    if str_eq(command, "health") {
        Ok(concat2(base.as_str(), "/healthz"))
    } else if str_eq(command, "list") {
        Ok(concat2(base.as_str(), "/v1/events"))
    } else if str_eq(command, "get") {
        let id = match env_value(env, "EVGL_ID") {
            Some(v) => v,
            None => match env_value(env, "EVGL_EVENT_ID") {
                Some(v) => v,
                None => {
                    return Err(CliError::IdRequired);
                },
            },
        };
        Ok(concat3(base.as_str(), "/v1/events/", id))
    } else {
        Err(CliError::UnknownFoundationCommand { command: String::from_str(command) })
    }
}

/// `get` reads the event that `--id` names: whenever `EVGL_ID` is set the
/// URL is the base followed by `/v1/events/` and that id, whatever
/// `EVGL_EVENT_ID` holds; `EVGL_EVENT_ID` is read only when `EVGL_ID` is
/// unset, and a missing id is reported only for `get` with neither set.
pub proof fn law_get_reads_the_given_id(
    command: Seq<char>,
    env: Map<Seq<char>, Seq<char>>,
    base: Seq<char>,
)
    ensures
        command == "get"@ && env_lookup(env, "EVGL_ID"@) is Some ==> foundation_url_spec(
            command,
            env,
            base,
        ) == Ok::<Seq<char>, ErrorView>(base + "/v1/events/"@ + env_lookup(env, "EVGL_ID"@)->0),
        command == "get"@ && env_lookup(env, "EVGL_ID"@) is None && env_lookup(
            env,
            "EVGL_EVENT_ID"@,
        ) is Some ==> foundation_url_spec(command, env, base) == Ok::<Seq<char>, ErrorView>(
            base + "/v1/events/"@ + env_lookup(env, "EVGL_EVENT_ID"@)->0,
        ),
        foundation_url_spec(command, env, base) == Err::<Seq<char>, ErrorView>(
            ErrorView::IdRequired,
        ) ==> command == "get"@ && env_lookup(env, "EVGL_ID"@) is None && env_lookup(
            env,
            "EVGL_EVENT_ID"@,
        ) is None,
{
    reveal_strlit("health");
    reveal_strlit("list");
    reveal_strlit("get");
    assert("get"@.len() == 3 && "health"@.len() == 6 && "list"@.len() == 4);
}

/// Foundation commands only read under the API base: every URL they form is
/// the base (without trailing slashes) followed by one of the fixed paths.
pub proof fn law_foundation_urls_extend_base(
    command: Seq<char>,
    env: Map<Seq<char>, Seq<char>>,
    base: Seq<char>,
)
    ensures
        foundation_url_spec(command, env, base) matches Ok(u) ==> base.is_prefix_of(u) && (
        u == base + "/healthz"@ || u == base + "/v1/events"@ || exists|id: Seq<char>|
            u == base + "/v1/events/"@ + id),
{
    reveal_strlit("health");
    reveal_strlit("list");
    reveal_strlit("get");
    match foundation_url_spec(command, env, base) {
        Ok(u) => {
            if command == "get"@ {
                assert("get"@.len() == 3 && "health"@.len() == 6 && "list"@.len() == 4);
                if env_lookup(env, "EVGL_ID"@) is Some {
                    let id = env_lookup(env, "EVGL_ID"@)->0;
                    assert(u == base + "/v1/events/"@ + id);
                } else {
                    let id = env_lookup(env, "EVGL_EVENT_ID"@)->0;
                    assert(u == base + "/v1/events/"@ + id);
                }
                assert(u.subrange(0, base.len() as int) =~= base);
            } else if command == "health"@ {
                assert(u.subrange(0, base.len() as int) =~= base);
            } else {
                assert(u.subrange(0, base.len() as int) =~= base);
            }
        },
        Err(_) => {},
    }
}

/// What a foundation command (`health`, `list`, `get`) does in `env`: the
/// output mode must be `json` or `text`, the API base must be a URL, and the
/// URL is the base without trailing slashes followed by the command's path.
pub open spec fn foundation_spec(command: Seq<char>, env: Map<Seq<char>, Seq<char>>) -> Result<Seq<char>, ErrorView> {
    if !is_output_mode(env_or_spec(env, "EVGL_OUTPUT"@, "json"@)) {
        Err(ErrorView::InvalidOutput)
    } else {
        match url_parse(api_base_spec(env)) {
            Err(m) => Err(ErrorView::InvalidBaseUrl { cause: m }),
            Ok(href) => foundation_url_spec(command, env, trim_end_slashes(href)),
        }
    }
}

/// A foundation GET: its URL, the output mode and the API settings.
pub struct FoundationRequest {
    pub url: String,
    pub output: String,
    pub config: ApiConfig,
}

/// Plans a foundation command: `health` reads `/healthz`, `list` reads
/// `/v1/events`, `get` reads `/v1/events/{id}` with the id from `EVGL_ID` or
/// else `EVGL_EVENT_ID`.
pub fn foundation_request(command: &str, env: &EnvMap) -> (r: Result<FoundationRequest, CliError>)
    ensures
        match foundation_spec(command@, env@) {
            Ok(u) => r is Ok && r->Ok_0.url@ == u && r->Ok_0.output@ == env_or_spec(
                env@,
                "EVGL_OUTPUT"@,
                "json"@,
            ) && api_config_ok(r->Ok_0.config, env@),
            Err(e) => err_of(r) == Some(e),
        },
{
    let output = env_or(env, "EVGL_OUTPUT", "json");
    validate_output(output.as_str())?;
    let config = ApiConfig::from_env_map(env)?;
    let url = foundation_url(command, env, config.base.as_str())?;
    Ok(FoundationRequest { url, output, config })
}

} // verus!
