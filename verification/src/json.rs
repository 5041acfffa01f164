//! JSON code blocks for message content, embed descriptions and embed fields.
use vstd::prelude::*;
use vstd::string::StringExecFns;

use crate::error::WebhookError;

verus! {

/// A Discord code block holding pretty-printed JSON text `pretty`.
pub open spec fn json_block(pretty: Seq<char>) -> Seq<char> {
    "```json\n"@ + pretty + "\n```"@
}

/// `serde_json::to_string_pretty`: the value rendered as indented JSON text, or the
/// serialiser's error.  What the text holds depends on the value's own `Serialize`
/// implementation, so nothing is stated of it.
#[verifier::external_body]
fn to_string_pretty<T: serde::Serialize>(value: &T) -> (r: Result<String, serde_json::Error>) {
    serde_json::to_string_pretty(value)
}

/// Frame the outcome of serialising a value: the text inside a JSON code block, or the
/// serialiser's error as `WebhookError::Json`.
pub fn code_block_of(pretty: Result<String, serde_json::Error>) -> (r: Result<String, WebhookError>)
    ensures
        match pretty {
            Ok(p) => r matches Ok(s) && s@ == json_block(p@),
            Err(e) => r == Err::<String, WebhookError>(WebhookError::Json(e)),
        },
{
    match pretty {
        Ok(p) => {
            let mut block = String::from_str("```json\n");
            block.append(p.as_str());
            block.append("\n```");
            Ok(block)
        },
        Err(e) => Err(WebhookError::Json(e)),
    }
}

/// Format any serialisable value as a Discord JSON code block.
pub fn json_code_block<T: serde::Serialize>(value: &T) -> (r: Result<String, WebhookError>)
    ensures
        match r {
            Ok(s) => exists|pretty: Seq<char>| s@ == json_block(pretty),
            Err(e) => e is Json,
        },
{
    code_block_of(to_string_pretty(value))
}

} // verus!
