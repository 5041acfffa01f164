//! Building, checking and preparing Discord webhook messages.

pub mod client;
pub mod error;
pub mod flags;
pub mod http;
pub mod json;
pub mod laws;
pub mod message;
pub mod mock;
pub mod response;
pub mod retry;
pub mod secret;
pub mod text;
pub mod time;

pub use client::{validate_thread_id, validate_url, WebhookClient, WebhookClientBuilder};
pub use error::{CoreError, WebhookError};
pub use http::{is_allowed_domain, HttpClient, HttpClientBuilder};
pub use json::json_code_block;
pub use message::{
    AllowedMentionType, AllowedMentions, Embed, EmbedAuthor, EmbedBuilder, EmbedField, EmbedFooter,
    EmbedImage, EmbedThumbnail, WebhookMessage, WebhookMessageBuilder,
};
pub use mock::{MockError, MockSender};
pub use retry::{RetryPolicy, RetrySchedule, RetryStep};
