# discord_hook

A library for building Discord webhook messages and preparing their delivery, verified
with Verus.

- `src/` is the verified library: message and embed builders (`message`), JSON code
  blocks (`json`), webhook-URL and thread-ID validation, request URLs and the redacted
  debug form of a client (`client`), the shared HTTP client and its builder with the
  domain allow-list (`http`), what Discord's answer means (`response`), the retry
  schedule (`retry`), the in-memory mock sender (`mock`), error types (`error`), message
  flags (`flags`), character-level helpers (`text`) and properties that relate several
  operations (`laws`).  `secret` and `time` hold the trusted declarations around
  `secrecy::SecretString` and `std::time::Duration`.
- `app/` is the asynchronous side: the JSON payload types, posting with `reqwest`,
  sleeping between retries, the `WebhookSender` trait and the `discord_message!` /
  `embed!` macros.
- `tests/` exercises the library on concrete values.
