//! Error types of the library, and the outside error types they carry.
use vstd::prelude::*;
use vstd::std_specs::convert::FromSpecImpl;

verus! {

/// The transport error of the HTTP client crate, carried through unchanged.
#[verifier::external_type_specification]
#[verifier::external_body]
pub struct ExReqwestError(reqwest::Error);

/// The serialisation error of the JSON crate, carried through unchanged.
#[verifier::external_type_specification]
#[verifier::external_body]
pub struct ExJsonError(serde_json::Error);

/// Everything that can go wrong while building or sending a Discord webhook message.
#[derive(Debug)]
pub enum WebhookError {
    /// An underlying HTTP transport error.
    Http(reqwest::Error),
    /// The message had neither content nor any embeds.
    EmptyMessage,
    /// Discord rate-limited the request; wait `retry_after_ms` milliseconds before retrying.
    RateLimited { retry_after_ms: u64 },
    /// Discord answered with a status outside 200..=299.
    ApiError { status: u16, message: String },
    /// A value could not be serialised to JSON.
    Json(serde_json::Error),
    /// The webhook URL is not HTTPS or does not target `discord.com/api/webhooks/`.
    InvalidUrl { reason: &'static str },
    /// The thread ID is not a non-empty string of ASCII digits.
    InvalidThreadId,
}

impl From<reqwest::Error> for WebhookError {
    fn from(err: reqwest::Error) -> (r: Self) {
        WebhookError::Http(err)
    }
}

impl FromSpecImpl<reqwest::Error> for WebhookError {
    open spec fn obeys_from_spec() -> bool {
        true
    }

    open spec fn from_spec(err: reqwest::Error) -> Self {
        WebhookError::Http(err)
    }
}

impl From<serde_json::Error> for WebhookError {
    fn from(err: serde_json::Error) -> (r: Self) {
        WebhookError::Json(err)
    }
}

impl FromSpecImpl<serde_json::Error> for WebhookError {
    open spec fn obeys_from_spec() -> bool {
        true
    }

    open spec fn from_spec(err: serde_json::Error) -> Self {
        WebhookError::Json(err)
    }
}

/// Transport-level errors shared by every webhook service.
#[non_exhaustive]
#[derive(Debug)]
pub enum CoreError {
    /// An HTTP or network-level failure.
    Network(reqwest::Error),
    /// JSON serialisation or deserialisation failed.
    Json(serde_json::Error),
}

impl From<reqwest::Error> for CoreError {
    fn from(err: reqwest::Error) -> (r: Self) {
        CoreError::Network(err)
    }
}

impl FromSpecImpl<reqwest::Error> for CoreError {
    open spec fn obeys_from_spec() -> bool {
        true
    }

    open spec fn from_spec(err: reqwest::Error) -> Self {
        CoreError::Network(err)
    }
}

impl From<serde_json::Error> for CoreError {
    fn from(err: serde_json::Error) -> (r: Self) {
        CoreError::Json(err)
    }
}

impl FromSpecImpl<serde_json::Error> for CoreError {
    open spec fn obeys_from_spec() -> bool {
        true
    }

    open spec fn from_spec(err: serde_json::Error) -> Self {
        CoreError::Json(err)
    }
}

} // verus!
