//! Bit values for the `flags` field of a webhook message.
use vstd::prelude::*;

verus! {

/// Do not include any embeds when serialising this message (bit 2).
pub const SUPPRESS_EMBEDS: u64 = 4;

/// Send the message without triggering a push / desktop notification (bit 12).
pub const SUPPRESS_NOTIFICATIONS: u64 = 4096;

/// Use Components V2 layout (bit 15).  When set, `content`, `embeds`, `files` and `poll`
/// must all be absent; the message body is driven entirely by `components`.
pub const IS_COMPONENTS_V2: u64 = 32768;

} // verus!
