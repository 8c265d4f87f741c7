use evgl_cli::api::{
    api_base, decode_api_response, decode_cross_post_response, event_stream_url, render_response,
    timeout_seconds, websocket_url, ApiBody, ApiConfig, Rendering,
};
use evgl_cli::cli::{dispatch, informational_output, Action, Resource, HELP, VERSION};
use evgl_cli::decimal::parse_u64;
use evgl_cli::env_map::{
    apply_cli_flags, env_or, env_value, get_env_map, required, EnvMap, ParsedFlags,
};
use evgl_cli::error::CliError;
use evgl_cli::requests::{
    connect_start_path, cross_post_event_id, cross_post_plan, event_draft, foundation_request,
    job_path, job_socket, json_env, manual_connection, required_uuid,
};
use evgl_cli::text::{strip_prefix, trim_end_slash, trim_start_slash};

fn env(pairs: &[(&str, &str)]) -> EnvMap {
    EnvMap::from_pairs(pairs.iter().map(|(k, v)| (k.to_string(), v.to_string())).collect())
}

#[test]
fn env_map_later_pairs_win_and_insert_replaces() {
    let mut e = env(&[("A", "1"), ("B", "2"), ("A", "3")]);
    assert_eq!(e.get("A").map(String::as_str), Some("3"));
    assert_eq!(e.get("B").map(String::as_str), Some("2"));
    assert_eq!(e.get("C"), None);
    e.insert("B".to_string(), "4".to_string());
    assert_eq!(env_value(&e, "B"), Some("4"));
    assert_eq!(EnvMap::new().get("A"), None);
}

#[test]
fn env_or_and_required() {
    let e = env(&[("EVGL_OUTPUT", "text")]);
    assert_eq!(env_or(&e, "EVGL_OUTPUT", "json"), "text");
    assert_eq!(env_or(&e, "EVGL_MISSING", "json"), "json");
    assert_eq!(required(&e, "EVGL_OUTPUT").unwrap(), "text");
    let err = required(&e, "EVGL_TITLE").unwrap_err();
    assert_eq!(err.to_string(), "missing EVGL_TITLE");
}

#[test]
fn flags_override_base_environment() {
    let base = env(&[("EVGL_OUTPUT", "text"), ("EVGL_API_URL", "http://a")]);
    let merged = get_env_map(
        base,
        vec![
            ("EVGL_OUTPUT".to_string(), "json".to_string()),
            ("EVGL_ID".to_string(), "1".to_string()),
            ("EVGL_ID".to_string(), "2".to_string()),
        ],
    );
    assert_eq!(env_value(&merged, "EVGL_OUTPUT"), Some("json"));
    assert_eq!(env_value(&merged, "EVGL_API_URL"), Some("http://a"));
    assert_eq!(env_value(&merged, "EVGL_ID"), Some("2"));
}

#[test]
fn apply_cli_flags_merges_parsed_flags_over_initial() {
    let parsed = ParsedFlags {
        command: "health".to_string(),
        unknown_options: vec![],
        errors: vec![],
        provided_flags: vec![("EVGL_OUTPUT".to_string(), "json".to_string())],
    };
    let (command, e) = apply_cli_flags(parsed, env(&[("EVGL_OUTPUT", "text")])).unwrap();
    assert_eq!(command, "health");
    assert_eq!(e.get("EVGL_OUTPUT").map(String::as_str), Some("json"));
}

#[test]
fn apply_cli_flags_refuses_unknown_options() {
    let parsed = ParsedFlags {
        command: "health".to_string(),
        unknown_options: vec!["--this-flag-is-not-declared".to_string()],
        errors: vec![],
        provided_flags: vec![],
    };
    let err = match apply_cli_flags(parsed, env(&[("EVGL_OUTPUT", "text")])) {
        Ok(_) => panic!("unknown options must be refused"),
        Err(e) => e,
    };
    assert!(matches!(err, CliError::InvalidArguments { .. }));
    assert_eq!(
        err.to_string(),
        "invalid CLI arguments: unknown=[\"--this-flag-is-not-declared\"], errors=[]"
    );
    let parsed = ParsedFlags {
        command: "health".to_string(),
        unknown_options: vec![],
        errors: vec!["bad value".to_string()],
        provided_flags: vec![],
    };
    assert!(apply_cli_flags(parsed, EnvMap::new()).is_err());
}

#[test]
fn parse_u64_follows_std() {
    assert_eq!(parse_u64("20"), Some(20));
    assert_eq!(parse_u64("+7"), Some(7));
    assert_eq!(parse_u64("007"), Some(7));
    assert_eq!(parse_u64(""), None);
    assert_eq!(parse_u64("+"), None);
    assert_eq!(parse_u64("-1"), None);
    assert_eq!(parse_u64("1a"), None);
    assert_eq!(parse_u64(" 1"), None);
    assert_eq!(parse_u64("18446744073709551615"), Some(u64::MAX));
    assert_eq!(parse_u64("18446744073709551616"), None);
    for s in ["0", "42", "+99", "123456789012", "x", "", "99999999999999999999"] {
        assert_eq!(parse_u64(s), s.parse::<u64>().ok());
    }
}

#[test]
fn timeout_defaults_to_twenty_seconds() {
    assert_eq!(timeout_seconds(&EnvMap::new()), 20);
    assert_eq!(timeout_seconds(&env(&[("EVGL_TIMEOUT_SECONDS", "5")])), 5);
    assert_eq!(timeout_seconds(&env(&[("EVGL_TIMEOUT_SECONDS", "soon")])), 20);
}

#[test]
fn text_helpers_trim_and_strip() {
    assert_eq!(trim_end_slash("a//"), "a");
    assert_eq!(trim_end_slash("///"), "");
    assert_eq!(trim_start_slash("//v1/x/"), "v1/x/");
    assert_eq!(strip_prefix("http://x", "http://"), Some("x".to_string()));
    assert_eq!(strip_prefix("https://x", "http://"), None);
    assert_eq!(strip_prefix("ht", "http://"), None);
}

#[test]
fn first_informational_flag_wins() {
    assert_eq!(informational_output(&["-V", "--help"]), Some(VERSION));
    assert_eq!(informational_output(&["health", "--help"]), Some(HELP));
    assert_eq!(informational_output(&[]), None);
    assert_eq!(VERSION, "evgl-cli 0.1.0\n");
}

#[test]
fn api_base_defaults_and_fallbacks() {
    assert_eq!(api_base(&EnvMap::new()), "http://127.0.0.1:8080");
    assert_eq!(api_base(&env(&[("EVGL_BASE_URL", "http://b///")])), "http://b");
}

#[test]
fn websocket_url_law_trailing_slash() {
    assert_eq!(websocket_url("https://h/api").unwrap(), websocket_url("https://h/api/").unwrap());
    assert_eq!(websocket_url("https://h/api").unwrap(), "wss://h/api/v1/ws");
    let e = env(&[("EVGL_API_URL", "https://api.example/")]);
    assert_eq!(event_stream_url(&e).unwrap(), "wss://api.example/v1/ws");
    let e = env(&[("EVGL_API_URL", "ftp://api.example/")]);
    assert!(matches!(event_stream_url(&e), Err(CliError::UnsupportedScheme)));
}

#[test]
fn dispatch_covers_every_listed_command() {
    let none = EnvMap::new();
    for c in ["health", "list", "get"] {
        assert_eq!(dispatch(c, &none).unwrap(), Action::Foundation);
    }
    assert_eq!(dispatch("providers", &none).unwrap(), Action::GetResource(Resource::Providers));
    assert_eq!(Resource::Providers.path(), "/v1/providers");
    assert_eq!(Resource::Connections.path(), "/v1/connections");
    assert_eq!(dispatch("connections", &none).unwrap(), Action::GetResource(Resource::Connections));
    assert_eq!(dispatch("connect-start", &none).unwrap(), Action::ConnectStart);
    assert_eq!(dispatch("connect-manual", &none).unwrap(), Action::ConnectManual);
    assert_eq!(dispatch("create-event", &none).unwrap(), Action::CreateEvent);
    assert_eq!(dispatch("cross-post", &none).unwrap(), Action::CrossPost);
    assert_eq!(dispatch("job", &none).unwrap(), Action::Job);
    assert_eq!(dispatch("watch", &none).unwrap(), Action::WatchEvents);
    assert_eq!(dispatch("watch", &env(&[("EVGL_JOB_ID", "j")])).unwrap(), Action::WatchJob);
    let err = dispatch("deploy", &none).unwrap_err();
    assert!(err.to_string().starts_with("choose one command: health, list, get"));
}

#[test]
fn api_config_parses_the_base_url() {
    let c = ApiConfig::from_env_map(&env(&[
        ("EVGL_API_URL", "http://localhost:8080"),
        ("EVGL_TOKEN", "t0k"),
        ("EVGL_TIMEOUT_SECONDS", "3"),
    ]))
    .unwrap();
    assert_eq!(c.base, "http://localhost:8080/");
    assert_eq!(c.token.as_deref(), Some("t0k"));
    assert_eq!(c.timeout_seconds, 3);
    assert_eq!(c.authorization().as_deref(), Some("Bearer t0k"));
    assert_eq!(c.endpoint("/v1/providers").unwrap(), "http://localhost:8080/v1/providers");
    let err = match ApiConfig::from_env_map(&env(&[("EVGL_API_URL", "not a url")])) {
        Ok(_) => panic!("not a URL"),
        Err(e) => e,
    };
    assert_eq!(err.to_string(), "API base URL");
    let c = ApiConfig::from_env_map(&env(&[("EVGL_API_URL", "http://h/api/")])).unwrap();
    assert_eq!(c.endpoint("v1/jobs/9").unwrap(), "http://h/v1/jobs/9");
    assert_eq!(c.authorization(), None);
}

#[test]
fn foundation_requests() {
    let r = foundation_request("health", &EnvMap::new()).unwrap();
    assert_eq!(r.url, "http://127.0.0.1:8080/healthz");
    assert_eq!(r.output, "json");
    let r = foundation_request("list", &env(&[("EVGL_API_URL", "http://h/base/")])).unwrap();
    assert_eq!(r.url, "http://h/base/v1/events");
    let r = foundation_request("get", &env(&[("EVGL_EVENT_ID", "e1"), ("EVGL_OUTPUT", "text")]))
        .unwrap();
    assert_eq!(r.url, "http://127.0.0.1:8080/v1/events/e1");
    assert_eq!(r.output, "text");
    let r = foundation_request("get", &env(&[("EVGL_EVENT_ID", "e1"), ("EVGL_ID", "i2")])).unwrap();
    assert_eq!(r.url, "http://127.0.0.1:8080/v1/events/i2");
    let err = foundation_request("get", &EnvMap::new()).err().unwrap();
    assert_eq!(err.to_string(), "--id is required");
    let err = foundation_request("health", &env(&[("EVGL_OUTPUT", "yaml")])).err().unwrap();
    assert_eq!(err.to_string(), "EVGL_OUTPUT must be json or text");
    let err = foundation_request("ping", &EnvMap::new()).err().unwrap();
    assert_eq!(err.to_string(), "unknown foundation command ping");
}

#[test]
fn json_env_reads_json_or_defaults_to_object() {
    let v = json_env(&EnvMap::new(), "EVGL_METADATA").unwrap();
    assert_eq!(v, serde_json::Value::Object(serde_json::Map::new()));
    let v = json_env(&env(&[("EVGL_METADATA", "[1,2]")]), "EVGL_METADATA").unwrap();
    assert_eq!(v.as_array().map(|a| a.len()), Some(2));
    let err = json_env(&env(&[("EVGL_METADATA", "{")]), "EVGL_METADATA").unwrap_err();
    assert_eq!(err.to_string(), "EVGL_METADATA must be valid JSON");
}

#[test]
fn api_responses_are_decoded() {
    let err = match decode_api_response(false, "404 Not Found", "nope".to_string()) {
        Ok(_) => panic!("failure status"),
        Err(e) => e,
    };
    assert_eq!(err.to_string(), "API request failed (404 Not Found): nope");
    assert!(matches!(decode_api_response(true, "200 OK", String::new()), Ok(ApiBody::Empty)));
    match decode_api_response(true, "200 OK", "{\"a\":1}".to_string()) {
        Ok(ApiBody::Json(v)) => assert_eq!(v["a"], 1),
        _ => panic!("JSON body"),
    }
    let err = match decode_api_response(true, "200 OK", "<html>".to_string()) {
        Ok(_) => panic!("not JSON"),
        Err(e) => e,
    };
    assert_eq!(err.to_string(), "invalid API JSON: <html>");
    assert!(decode_cross_post_response(true, "200 OK", "{}".to_string()).is_ok());
    assert!(matches!(
        decode_cross_post_response(true, "200 OK", String::new()),
        Err(CliError::InvalidResponseJson { .. })
    ));
    assert!(matches!(
        decode_cross_post_response(false, "500", "x".to_string()),
        Err(CliError::ApiStatus { .. })
    ));
}

#[test]
fn foundation_responses_are_rendered() {
    let err = match render_response(false, "503 Service Unavailable", "down".to_string(), "json") {
        Ok(_) => panic!("failure status"),
        Err(e) => e,
    };
    assert_eq!(err.to_string(), "HTTP 503 Service Unavailable: down");
    match render_response(true, "200 OK", "plain".to_string(), "text") {
        Ok(Rendering::Text(t)) => assert_eq!(t, "plain"),
        _ => panic!("text mode"),
    }
    assert!(matches!(
        render_response(true, "200 OK", "[]".to_string(), "json"),
        Ok(Rendering::Json(_))
    ));
    assert!(matches!(
        render_response(true, "200 OK", "plain".to_string(), "json"),
        Err(CliError::InvalidResponseJson { .. })
    ));
}

#[test]
fn uuids_are_read_and_normalised() {
    let e = env(&[("EVGL_EVENT_ID", "67E55044-10B1-426F-9247-BB680E5FE0C8")]);
    let id = cross_post_event_id(&e).unwrap();
    assert_eq!(id, 0x67e55044_10b1_426f_9247_bb680e5fe0c8u128);
    let err = cross_post_event_id(&EnvMap::new()).unwrap_err();
    assert_eq!(err.to_string(), "missing EVGL_EVENT_ID");
    let err = required_uuid(&env(&[("X", "nope")]), "X").unwrap_err();
    assert!(matches!(err, CliError::InvalidUuid { .. }));
}

#[test]
fn cross_post_plans_key_and_url() {
    let config = ApiConfig::from_env_map(&env(&[("EVGL_API_URL", "http://h/")])).unwrap();
    let e = env(&[
        ("EVGL_CONNECTION_ID", "00000000-0000-0000-0000-00000000000A"),
        ("EVGL_TARGET_OPTIONS", "{\"group_urlname\":\"rust-lima\"}"),
    ]);
    let event = 0x67e55044_10b1_426f_9247_bb680e5fe0c8u128;
    let plan = cross_post_plan(&config, &e, event, "meetup").unwrap();
    assert_eq!(plan.connection_id, 10);
    assert_eq!(
        plan.idempotency_key,
        "cli:67e55044-10b1-426f-9247-bb680e5fe0c8:meetup:00000000-0000-0000-0000-00000000000a"
    );
    assert_eq!(plan.url, "http://h/v1/events/67e55044-10b1-426f-9247-bb680e5fe0c8/cross-post");
    assert_eq!(plan.options["group_urlname"], "rust-lima");
    assert_eq!(plan.provider, "meetup");
    let e2 = env(&[
        ("EVGL_CONNECTION_ID", "00000000-0000-0000-0000-00000000000a"),
        ("EVGL_IDEMPOTENCY_KEY", "k1"),
    ]);
    let plan = cross_post_plan(&config, &e2, event, "meetup").unwrap();
    assert_eq!(plan.idempotency_key, "k1");
    let err = match cross_post_plan(&config, &EnvMap::new(), event, "meetup") {
        Ok(_) => panic!("no connection"),
        Err(e) => e,
    };
    assert_eq!(err.to_string(), "missing EVGL_CONNECTION_ID");
    let e3 = env(&[
        ("EVGL_CONNECTION_ID", "00000000-0000-0000-0000-00000000000a"),
        ("EVGL_TARGET_OPTIONS", "nope"),
    ]);
    let err = match cross_post_plan(&config, &e3, event, "meetup") {
        Ok(_) => panic!("bad options"),
        Err(e) => e,
    };
    assert_eq!(err.to_string(), "EVGL_TARGET_OPTIONS must be valid JSON");
}

#[test]
fn job_sockets_follow_the_base_scheme() {
    let s = job_socket(&env(&[
        ("EVGL_API_URL", "https://api.example/"),
        ("EVGL_JOB_ID", "j7"),
        ("EVGL_TOKEN", "abc"),
    ]))
    .unwrap();
    assert_eq!(s.url, "wss://api.example/v1/jobs/j7/ws");
    assert_eq!(s.authorization.as_deref(), Some("Bearer abc"));
    let s = job_socket(&env(&[("EVGL_JOB_ID", "j7")])).unwrap();
    assert_eq!(s.url, "ws://127.0.0.1:8080/v1/jobs/j7/ws");
    assert_eq!(s.authorization, None);
    let err = match job_socket(&EnvMap::new()) {
        Ok(_) => panic!("no job"),
        Err(e) => e,
    };
    assert_eq!(err.to_string(), "missing EVGL_JOB_ID");
    let err = match job_socket(&env(&[("EVGL_API_URL", "mailto:x@y"), ("EVGL_JOB_ID", "j")])) {
        Ok(_) => panic!("no socket for mailto"),
        Err(e) => e,
    };
    assert!(matches!(err, CliError::InvalidWebSocketUrl | CliError::InvalidUrl { .. }));
}

#[test]
fn manual_connections_only_for_manual_providers() {
    let e = env(&[
        ("EVGL_ACCOUNT_KEY", "acct"),
        ("EVGL_DISPLAY_NAME", "Lima"),
        ("EVGL_CONNECTION_SECRET", "s3"),
    ]);
    let err = match manual_connection(&e, "meetup") {
        Ok(_) => panic!("meetup is not manual"),
        Err(e) => e,
    };
    assert_eq!(
        err.to_string(),
        "connect-manual is only valid for craigslist and generic_webhook"
    );
    let c = manual_connection(&e, "craigslist").unwrap();
    assert_eq!(c.account_key, "acct");
    assert_eq!(c.display_name, "Lima");
    assert_eq!(c.secret.as_deref(), Some("s3"));
    assert!(c.metadata.is_object());
    let err = match manual_connection(&env(&[("EVGL_DISPLAY_NAME", "x")]), "generic_webhook") {
        Ok(_) => panic!("no account key"),
        Err(e) => e,
    };
    assert_eq!(err.to_string(), "missing EVGL_ACCOUNT_KEY");
}

#[test]
fn event_drafts_require_their_fields() {
    let full = env(&[
        ("EVGL_TITLE", "Rust Lima"),
        ("EVGL_SUMMARY", "Monthly meetup"),
        ("EVGL_STARTS_AT", "2026-09-04T23:00:00Z"),
        ("EVGL_ENDS_AT", "2026-09-05T01:00:00Z"),
        ("EVGL_TIMEZONE", "America/Lima"),
        ("EVGL_CANONICAL_URL", "https://evento.example/e/rust-lima"),
    ]);
    let d = event_draft(&full).unwrap();
    assert_eq!(d.title, "Rust Lima");
    assert_eq!(d.description_html, "");
    assert_eq!(d.timezone, "America/Lima");
    let partial = env(&[("EVGL_TITLE", "Rust Lima"), ("EVGL_SUMMARY", "m")]);
    let err = match event_draft(&partial) {
        Ok(_) => panic!("no start"),
        Err(e) => e,
    };
    assert_eq!(err.to_string(), "missing EVGL_STARTS_AT");
}

#[test]
fn request_paths() {
    assert_eq!(connect_start_path("meetup"), "/v1/oauth/meetup/start");
    assert_eq!(job_path(&env(&[("EVGL_JOB_ID", "42")])).unwrap(), "/v1/jobs/42");
    assert!(job_path(&EnvMap::new()).is_err());
}

#[test]
fn error_messages() {
    assert_eq!(CliError::UnsupportedScheme.to_string(), "EVGL_BASE_URL must start with http:// or https://");
    assert_eq!(CliError::InvalidWebSocketUrl.to_string(), "could not construct WebSocket URL");
    assert_eq!(
        CliError::InvalidJson { key: "K".to_string(), cause: "c".to_string() }.to_string(),
        "K must be valid JSON"
    );
}

#[test]
fn parser_errors_are_kept() {
    let err = json_env(&env(&[("EVGL_METADATA", "{")]), "EVGL_METADATA").unwrap_err();
    let expected = serde_json::from_str::<serde_json::Value>("{").unwrap_err().to_string();
    assert_eq!(err.cause(), Some(expected));
    let err = match ApiConfig::from_env_map(&env(&[("EVGL_API_URL", "not a url")])) {
        Ok(_) => panic!("not a URL"),
        Err(e) => e,
    };
    let expected = url::Url::parse("not a url").unwrap_err().to_string();
    assert_eq!(err.cause(), Some(expected));
    let err = match decode_api_response(true, "200 OK", "<html>".to_string()) {
        Ok(_) => panic!("not JSON"),
        Err(e) => e,
    };
    let expected = serde_json::from_str::<serde_json::Value>("<html>").unwrap_err().to_string();
    assert_eq!(err.cause(), Some(expected.clone()));
    match render_response(true, "200 OK", "<html>".to_string(), "json") {
        Err(CliError::InvalidResponseJson { message }) => assert_eq!(message, expected),
        _ => panic!("not JSON"),
    }
    let c = ApiConfig::from_env_map(&EnvMap::new()).unwrap();
    let err = c.join("http://[").unwrap_err();
    let expected = url::Url::parse("http://[").unwrap_err().to_string();
    assert_eq!(err.to_string(), expected);
    let err = required_uuid(&env(&[("X", "nope")]), "X").unwrap_err();
    let expected = uuid::Uuid::parse_str("nope").unwrap_err().to_string();
    assert_eq!(err.to_string(), expected);
    assert_eq!(CliError::UnknownCommand.cause(), None);
}
