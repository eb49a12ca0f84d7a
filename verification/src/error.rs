//! Errors of the client and the text shown for each.

use vstd::prelude::*;
use crate::text::{append_text, decimal, push_decimal, text_of};

verus! {

/// What kind of transport failure an HTTP error was.
#[derive(Clone, Copy, Debug)]
pub enum HttpFailure {
    /// The connection could not be made.
    Connect,
    /// The request timed out.
    Timeout,
    /// Any other transport error.
    Other,
}

/// An error of the client.
#[derive(Debug)]
pub enum DdError {
    /// A required environment variable is unset or blank.
    MissingEnv(String),
    /// The request failed in transport; `detail` is the transport's own text.
    Http { kind: HttpFailure, detail: String },
    /// Datadog answered with an error status.
    Api { status: u16, body: String },
    /// The response body was not JSON; the parser's own text.
    Json(String),
    /// The command's input was rejected before any request.
    Validation(String),
}

/// The hint appended to an API error for well-known statuses.
pub open spec fn status_hint(status: u16) -> Seq<char> {
    if status == 401 {
        "\nYour API key is invalid or expired. Check DD_API_KEY."@
    } else if status == 403 {
        "\nPermission denied. Check DD_APP_KEY has the required scopes."@
    } else if status == 404 {
        "\nResource not found. Check the ID or query parameters."@
    } else if status == 429 {
        "\nRate limited by Datadog. Wait a moment and retry."@
    } else {
        seq![]
    }
}

/// The text shown for an error.
pub open spec fn error_text(e: DdError) -> Seq<char> {
    match e {
        DdError::MissingEnv(var) => "Missing environment variable: "@ + var@
            + "\n\nSet your Datadog credentials:\n  export "@ + var@
            + "=\"your-key-here\"\n\nGet your keys at: https://app.datadoghq.com/organization-settings/api-keys"@,
        DdError::Http { kind, detail } => match kind {
            HttpFailure::Connect => "Connection failed: "@ + detail@
                + "\nCheck your network connection and DD_SITE setting."@,
            HttpFailure::Timeout => "Request timed out: "@ + detail@
                + "\nTry a shorter time range or smaller --limit."@,
            HttpFailure::Other => "HTTP error: "@ + detail@,
        },
        DdError::Api { status, body } => "Datadog API error (HTTP "@ + decimal(status as nat) + "): "@ + body@
            + status_hint(status),
        DdError::Json(detail) => "Failed to parse API response: "@ + detail@,
        DdError::Validation(msg) => msg@,
    }
}

impl DdError {
    /// The text shown for the error (its `Display`).
    pub fn message(&self) -> (r: String)
        ensures
            r@ == error_text(*self),
    {
        match self {
            DdError::MissingEnv(var) => {
                let mut s = text_of("Missing environment variable: ");
                append_text(&mut s, var.as_str());
                append_text(&mut s, "\n\nSet your Datadog credentials:\n  export ");
                append_text(&mut s, var.as_str());
                append_text(
                    &mut s,
                    "=\"your-key-here\"\n\nGet your keys at: https://app.datadoghq.com/organization-settings/api-keys",
                );
                s
            },
            DdError::Http { kind, detail } => match kind {
                HttpFailure::Connect => {
                    let mut s = text_of("Connection failed: ");
                    append_text(&mut s, detail.as_str());
                    append_text(&mut s, "\nCheck your network connection and DD_SITE setting.");
                    s
                },
                HttpFailure::Timeout => {
                    let mut s = text_of("Request timed out: ");
                    append_text(&mut s, detail.as_str());
                    append_text(&mut s, "\nTry a shorter time range or smaller --limit.");
                    s
                },
                HttpFailure::Other => {
                    let mut s = text_of("HTTP error: ");
                    append_text(&mut s, detail.as_str());
                    s
                },
            },
            DdError::Api { status, body } => {
                let mut s = text_of("Datadog API error (HTTP ");
                push_decimal(&mut s, *status as u64);
                append_text(&mut s, "): ");
                append_text(&mut s, body.as_str());
                if *status == 401 {
                    append_text(&mut s, "\nYour API key is invalid or expired. Check DD_API_KEY.");
                } else if *status == 403 {
                    append_text(&mut s, "\nPermission denied. Check DD_APP_KEY has the required scopes.");
                } else if *status == 404 {
                    append_text(&mut s, "\nResource not found. Check the ID or query parameters.");
                } else if *status == 429 {
                    append_text(&mut s, "\nRate limited by Datadog. Wait a moment and retry.");
                }
                assert(s@ =~= error_text(*self));
                s
            },
            DdError::Json(detail) => {
                let mut s = text_of("Failed to parse API response: ");
                append_text(&mut s, detail.as_str());
                s
            },
            DdError::Validation(msg) => msg.clone(),
        }
    }
}

} // verus!
