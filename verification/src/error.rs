use vstd::prelude::*;

use crate::outside::{debug_list, debug_strings};

verus! {

/// Why a command could not go on.
#[derive(Debug)]
pub enum CliError {
    /// The command-line parser met options it did not know, or errors.
    InvalidArguments { unknown: Vec<String>, errors: Vec<String> },
    /// A required environment variable has no value.
    Missing { key: String },
    /// An environment variable that must hold JSON does not; the cause is
    /// the JSON parser's message.
    InvalidJson { key: String, cause: String },
    /// `EVGL_OUTPUT` is neither `json` nor `text`.
    InvalidOutput,
    /// The API base does not start with `http://` or `https://`.
    UnsupportedScheme,
    /// `get` was asked for without an event id.
    IdRequired,
    /// A foundation command other than `health`, `list` and `get`.
    UnknownFoundationCommand { command: String },
    /// A command word that the tool does not have.
    UnknownCommand,
    /// `connect-manual` for a provider other than craigslist or generic_webhook.
    ManualProviderOnly,
    /// The API base is not a URL; the cause is the URL parser's message.
    InvalidBaseUrl { cause: String },
    /// A URL could not be formed; the message is the URL parser's.
    InvalidUrl { message: String },
    /// A value is not a UUID; the message is the UUID parser's.
    InvalidUuid { message: String },
    /// The job URL could not be given a WebSocket scheme.
    InvalidWebSocketUrl,
    /// A response with an unsuccessful status, shown as `HTTP {status}: {body}`.
    HttpStatus { status: String, body: String },
    /// An API response with an unsuccessful status.
    ApiStatus { status: String, body: String },
    /// An API response body that is not JSON; the cause is the JSON
    /// parser's message.
    InvalidApiJson { body: String, cause: String },
    /// A response body that is not JSON; the message is the JSON parser's.
    InvalidResponseJson { message: String },
}

/// The command words that the tool has, as its error message lists them.
pub open spec fn command_list_text() -> Seq<char> {
    "choose one command: health, list, get, providers, connections, connect-start, connect-manual, create-event, cross-post, job, watch"@
}

/// A `CliError` with its strings taken by their characters.
pub enum ErrorView {
    InvalidArguments { unknown: Seq<Seq<char>>, errors: Seq<Seq<char>> },
    Missing { key: Seq<char> },
    InvalidJson { key: Seq<char>, cause: Seq<char> },
    InvalidOutput,
    UnsupportedScheme,
    IdRequired,
    UnknownFoundationCommand { command: Seq<char> },
    UnknownCommand,
    ManualProviderOnly,
    InvalidBaseUrl { cause: Seq<char> },
    InvalidUrl { message: Seq<char> },
    InvalidUuid { message: Seq<char> },
    InvalidWebSocketUrl,
    HttpStatus { status: Seq<char>, body: Seq<char> },
    ApiStatus { status: Seq<char>, body: Seq<char> },
    InvalidApiJson { body: Seq<char>, cause: Seq<char> },
    InvalidResponseJson { message: Seq<char> },
}

impl View for CliError {
    type V = ErrorView;

    open spec fn view(&self) -> ErrorView {
        match self {
            CliError::InvalidArguments { unknown, errors } => ErrorView::InvalidArguments {
                unknown: unknown.deep_view(),
                errors: errors.deep_view(),
            },
            CliError::Missing { key } => ErrorView::Missing { key: key@ },
            CliError::InvalidJson { key, cause } => ErrorView::InvalidJson {
                key: key@,
                cause: cause@,
            },
            CliError::InvalidOutput => ErrorView::InvalidOutput,
            CliError::UnsupportedScheme => ErrorView::UnsupportedScheme,
            CliError::IdRequired => ErrorView::IdRequired,
            CliError::UnknownFoundationCommand { command } => ErrorView::UnknownFoundationCommand {
                command: command@,
            },
            CliError::UnknownCommand => ErrorView::UnknownCommand,
            CliError::ManualProviderOnly => ErrorView::ManualProviderOnly,
            CliError::InvalidBaseUrl { cause } => ErrorView::InvalidBaseUrl { cause: cause@ },
            CliError::InvalidUrl { message } => ErrorView::InvalidUrl { message: message@ },
            CliError::InvalidUuid { message } => ErrorView::InvalidUuid { message: message@ },
            CliError::InvalidWebSocketUrl => ErrorView::InvalidWebSocketUrl,
            CliError::HttpStatus { status, body } => ErrorView::HttpStatus {
                status: status@,
                body: body@,
            },
            CliError::ApiStatus { status, body } => ErrorView::ApiStatus {
                status: status@,
                body: body@,
            },
            CliError::InvalidApiJson { body, cause } => ErrorView::InvalidApiJson {
                body: body@,
                cause: cause@,
            },
            CliError::InvalidResponseJson { message } => ErrorView::InvalidResponseJson {
                message: message@,
            },
        }
    }
}

/// The error of a failed result, by its view.
pub open spec fn err_of<T>(r: Result<T, CliError>) -> Option<ErrorView> {
    match r {
        Ok(_) => None,
        Err(e) => Some(e@),
    }
}

/// The value of a successful result, by its view.
pub open spec fn ok_view<T: View>(r: Result<T, CliError>) -> Option<T::V> {
    match r {
        Ok(v) => Some(v@),
        Err(_) => None,
    }
}

impl ErrorView {
    /// The outside parser's message that caused the error, for the errors
    /// that report one beneath their own message.
    pub open spec fn cause(self) -> Option<Seq<char>> {
        match self {
            ErrorView::InvalidJson { cause, .. } => Some(cause),
            ErrorView::InvalidBaseUrl { cause } => Some(cause),
            ErrorView::InvalidApiJson { cause, .. } => Some(cause),
            _ => None,
        }
    }

    /// The message that describes the error.
    pub open spec fn text(self) -> Seq<char> {
        match self {
            ErrorView::InvalidArguments { unknown, errors } => "invalid CLI arguments: unknown="@
                + debug_strings(unknown) + ", errors="@ + debug_strings(errors),
            ErrorView::Missing { key } => "missing "@ + key,
            ErrorView::InvalidJson { key, .. } => key + " must be valid JSON"@,
            ErrorView::InvalidOutput => "EVGL_OUTPUT must be json or text"@,
            ErrorView::UnsupportedScheme => "EVGL_BASE_URL must start with http:// or https://"@,
            ErrorView::IdRequired => "--id is required"@,
            ErrorView::UnknownFoundationCommand { command } => "unknown foundation command "@
                + command,
            ErrorView::UnknownCommand => command_list_text(),
            ErrorView::ManualProviderOnly =>
                "connect-manual is only valid for craigslist and generic_webhook"@,
            ErrorView::InvalidBaseUrl { .. } => "API base URL"@,
            ErrorView::InvalidUrl { message } => message,
            ErrorView::InvalidUuid { message } => message,
            ErrorView::InvalidWebSocketUrl => "could not construct WebSocket URL"@,
            ErrorView::HttpStatus { status, body } => "HTTP "@ + status + ": "@ + body,
            ErrorView::ApiStatus { status, body } => "API request failed ("@ + status + "): "@
                + body,
            ErrorView::InvalidApiJson { body, .. } => "invalid API JSON: "@ + body,
            ErrorView::InvalidResponseJson { message } => message,
        }
    }
}

impl CliError {
    /// The outside parser's message that caused the error, for the errors
    /// that report one beneath their own message.
    pub fn cause(&self) -> (r: Option<String>)
        ensures
            match r {
                Some(c) => self@.cause() == Some(c@),
                None => self@.cause() is None,
            },
    {
        match self {
            CliError::InvalidJson { cause, .. } => Some(cause.clone()),
            CliError::InvalidBaseUrl { cause } => Some(cause.clone()),
            CliError::InvalidApiJson { cause, .. } => Some(cause.clone()),
            _ => None,
        }
    }

    /// The message that describes the error.
    pub fn to_string(&self) -> (r: String)
        ensures
            r@ == self@.text(),
    {
        match self {
            CliError::InvalidArguments { unknown, errors } => {
                let mut out = String::from_str("invalid CLI arguments: unknown=");
                let u = debug_list(unknown);
                out.append(u.as_str());
                out.append(", errors=");
                let e = debug_list(errors);
                out.append(e.as_str());
                out
            },
            CliError::Missing { key } => {
                let mut out = String::from_str("missing ");
                out.append(key.as_str());
                out
            },
            CliError::InvalidJson { key, .. } => {
                let mut out = String::from_str(key.as_str());
                out.append(" must be valid JSON");
                out
            },
            CliError::InvalidOutput => String::from_str("EVGL_OUTPUT must be json or text"),
            CliError::UnsupportedScheme => String::from_str(
                "EVGL_BASE_URL must start with http:// or https://",
            ),
            CliError::IdRequired => String::from_str("--id is required"),
            CliError::UnknownFoundationCommand { command } => {
                let mut out = String::from_str("unknown foundation command ");
                out.append(command.as_str());
                out
            },
            CliError::UnknownCommand => String::from_str(
                "choose one command: health, list, get, providers, connections, connect-start, connect-manual, create-event, cross-post, job, watch",
            ),
            CliError::ManualProviderOnly => String::from_str(
                "connect-manual is only valid for craigslist and generic_webhook",
            ),
            CliError::InvalidBaseUrl { .. } => String::from_str("API base URL"),
            CliError::InvalidUrl { message } => message.clone(),
            CliError::InvalidUuid { message } => message.clone(),
            CliError::InvalidWebSocketUrl => String::from_str("could not construct WebSocket URL"),
            CliError::HttpStatus { status, body } => {
                let mut out = String::from_str("HTTP ");
                out.append(status.as_str());
                out.append(": ");
                out.append(body.as_str());
                out
            },
            CliError::ApiStatus { status, body } => {
                let mut out = String::from_str("API request failed (");
                out.append(status.as_str());
                out.append("): ");
                out.append(body.as_str());
                out
            },
            CliError::InvalidApiJson { body, .. } => {
                let mut out = String::from_str("invalid API JSON: ");
                out.append(body.as_str());
                out
            },
            CliError::InvalidResponseJson { message } => message.clone(),
        }
    }
}

} // verus!
