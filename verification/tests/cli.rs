use evgl_cli::api::{api_base, websocket_url};
use evgl_cli::cli::{informational_output, validate_output, HELP, VERSION};
use evgl_cli::env_map::EnvMap;

#[test]
fn help_and_version_are_available_without_configuration_or_network() {
    assert_eq!(informational_output(&["--help"]), Some(HELP));
    assert_eq!(informational_output(&["-h"]), Some(HELP));
    assert_eq!(informational_output(&["--version"]), Some(VERSION));
    assert_eq!(informational_output(&["health"]), None);
}

#[test]
fn websocket_url_maps_http_schemes_and_normalizes_trailing_slashes() {
    assert_eq!(
        websocket_url("http://127.0.0.1:8080/").unwrap(),
        "ws://127.0.0.1:8080/v1/ws"
    );
    assert_eq!(
        websocket_url("https://events.example.com").unwrap(),
        "wss://events.example.com/v1/ws"
    );
}

#[test]
fn websocket_url_rejects_unexpected_schemes() {
    let error = websocket_url("file:///tmp/socket").unwrap_err().to_string();
    assert!(error.contains("http:// or https://"));
}

#[test]
fn output_mode_is_explicit() {
    assert!(validate_output("json").is_ok());
    assert!(validate_output("text").is_ok());
    assert!(validate_output("yaml").is_err());
}

#[test]
fn api_base_prefers_recovered_api_url_over_foundation_base_url() {
    let env = EnvMap::from_pairs(vec![
        ("EVGL_BASE_URL".into(), "http://127.0.0.1:8080".into()),
        ("EVGL_API_URL".into(), "http://localhost:9090".into()),
    ]);
    assert_eq!(api_base(&env), "http://localhost:9090");
}
