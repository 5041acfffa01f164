//! What Discord's answer to a posted message means for the caller.
//!
//! The exchange runs in two steps: the status line (with the `retry-after` header already
//! read as whole milliseconds) decides whether the send succeeded, was rate-limited, or
//! failed; only a failure needs the response body, which then becomes the error message.
use vstd::prelude::*;
use vstd::utf8::{decode_utf8, valid_utf8};

use crate::error::WebhookError;

verus! {

/// The status Discord answers with when it rate-limits a webhook.
pub const TOO_MANY_REQUESTS: u16 = 429;

/// The wait assumed when a rate-limited answer carries no usable `retry-after` header.
pub const DEFAULT_RETRY_AFTER_MS: u64 = 1_000;

/// At most this many bytes of an error response body go into the error message.
pub const MAX_ERROR_BODY_BYTES: usize = 4096;

/// A 2xx status.
pub open spec fn is_success(status: u16) -> bool {
    200 <= status <= 299
}

/// What to do after the status line of Discord's answer has arrived.
#[derive(Debug)]
pub enum ResponseStep {
    /// The send is over, with this outcome.
    Done(Result<(), WebhookError>),
    /// The send failed; read the body and hand it to [`on_body`].
    ReadBody,
}

/// Decide on the status line: 429 is a rate limit (waiting `retry_after_ms`, or one second
/// when Discord gave no usable value), any other non-2xx status needs the body, 2xx is done.
pub fn on_status(status: u16, retry_after_ms: Option<u64>) -> (step: ResponseStep)
    ensures
        status == TOO_MANY_REQUESTS ==> (step matches ResponseStep::Done(
            Err(WebhookError::RateLimited { retry_after_ms: ms }),
        ) && ms == match retry_after_ms {
            Some(given) => given,
            None => DEFAULT_RETRY_AFTER_MS,
        }),
        status != TOO_MANY_REQUESTS && is_success(status) ==> step matches ResponseStep::Done(
            Ok(()),
        ),
        status != TOO_MANY_REQUESTS && !is_success(status) ==> step is ReadBody,
{
    if status == TOO_MANY_REQUESTS {
        let ms = match retry_after_ms {
            Some(given) => given,
            None => DEFAULT_RETRY_AFTER_MS,
        };
        return ResponseStep::Done(Err(WebhookError::RateLimited { retry_after_ms: ms }));
    }
    if 200 <= status && status <= 299 {
        ResponseStep::Done(Ok(()))
    } else {
        ResponseStep::ReadBody
    }
}

/// What `String::from_utf8_lossy` makes of `bytes`.
pub uninterp spec fn utf8_lossy(bytes: Seq<u8>) -> Seq<char>;

/// `String::from_utf8_lossy`: the text of `bytes`, with each invalid UTF-8 sequence
/// replaced by U+FFFD; bytes that are valid UTF-8 decode exactly.
#[verifier::external_body]
fn decode_lossy(bytes: &[u8]) -> (text: String)
    ensures
        text@ == utf8_lossy(bytes@),
        valid_utf8(bytes@) ==> text@ == decode_utf8(bytes@),
{
    String::from_utf8_lossy(bytes).into_owned()
}

/// The first `MAX_ERROR_BODY_BYTES` bytes of a body (all of it when it is shorter).
pub open spec fn capped_body(body: Seq<u8>) -> Seq<u8> {
    if body.len() <= MAX_ERROR_BODY_BYTES {
        body
    } else {
        body.take(MAX_ERROR_BODY_BYTES as int)
    }
}

/// The message of an API error: the capped body as lossy UTF-8, or `status_text` when the
/// body could not be read.
pub open spec fn api_error_message(body: Result<Seq<u8>, Seq<char>>) -> Seq<char> {
    match body {
        Ok(bytes) => utf8_lossy(capped_body(bytes)),
        Err(status_text) => status_text,
    }
}

/// Turn a failed answer into `WebhookError::ApiError`.  `body` is the response body, or
/// the status text (such as `404 Not Found`) when the body could not be read.
pub fn on_body(status: u16, body: Result<Vec<u8>, String>) -> (e: WebhookError)
    ensures
        e matches WebhookError::ApiError { status: s, message } && s == status && message@
            == api_error_message(
            match body {
                Ok(bytes) => Ok(bytes@),
                Err(text) => Err(text@),
            },
        ),
{
    let message = match body {
        Ok(bytes) => {
            let ghost whole = bytes@;
            let mut bytes = bytes;
            bytes.truncate(MAX_ERROR_BODY_BYTES);
            assert(bytes@ =~= capped_body(whole));
            decode_lossy(bytes.as_slice())
        },
        Err(text) => text,
    };
    WebhookError::ApiError { status, message }
}

} // verus!
