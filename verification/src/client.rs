//! The Discord webhook client: URL and thread-ID validation, request URLs, and a debug
//! form that never shows the webhook token.
use std::time::Duration;
use vstd::prelude::*;
use vstd::string::{StrSliceExecFns, StringExecFns};

use crate::error::WebhookError;
use crate::http::{
    after_userinfo, authority_span, build_client, client_connect_timeout, client_request_timeout, is_default_timeout, HttpClient,
    DEFAULT_TIMEOUT_SECS,
};
use crate::secret::{expose, secret_from, secret_text, SecretUrl};
use crate::text::{
    all_digits, all_digits_exec, before_first, chars_of, last_index_of, occurs_at_exec, range_equals,
    lemma_through_last, lemma_through_last_none, starts_with, starts_with_exec, through_last,
};
use crate::time::{duration_nanos, seconds};

verus! {

/// `host` is `discord.com` or one of its subdomains (such as `canary.discord.com`).
pub open spec fn is_discord_host(host: Seq<char>) -> bool {
    ||| host == "discord.com"@
    ||| host.len() >= ".discord.com"@.len() && host.skip(host.len() - ".discord.com"@.len())
        == ".discord.com"@
}

/// An `https://` URL whose host (after any `userinfo@`) is a Discord host and whose path,
/// right after the authority, begins with `/api/webhooks/`.
pub open spec fn targets_discord_webhooks(url: Seq<char>) -> bool {
    let rest = url.skip("https://"@.len() as int);
    let authority = before_first(rest, '/');
    &&& is_discord_host(after_userinfo(authority))
    &&& starts_with(rest.skip(authority.len() as int), "/api/webhooks/"@)
}

/// Why `url` is refused as a webhook URL, or `None` when it is accepted: it must start
/// with `https://`, and it must target Discord's webhook API: host `discord.com` or a
/// subdomain of it, path under `/api/webhooks/`.
pub open spec fn url_rejection(url: Seq<char>) -> Option<Seq<char>> {
    if !starts_with(url, "https://"@) {
        Some("webhook URL must use HTTPS"@)
    } else if !targets_discord_webhooks(url) {
        Some("URL must target discord.com/api/webhooks/"@)
    } else {
        None
    }
}

/// `url` is accepted as a Discord webhook URL.
pub open spec fn is_webhook_url(url: Seq<char>) -> bool {
    url_rejection(url) is None
}

/// `r` is the outcome of checking a URL that `url_rejection` judges as `rejection`.
pub open spec fn url_checked<T>(r: Result<T, WebhookError>, rejection: Option<Seq<char>>) -> bool {
    match rejection {
        Some(reason) => r matches Err(WebhookError::InvalidUrl { reason: given }) && given@ == reason,
        None => !(r matches Err(WebhookError::InvalidUrl { .. })),
    }
}

/// Validate that a webhook URL is HTTPS and targets the Discord API.
pub fn validate_url(url: &str) -> (r: Result<(), WebhookError>)
    ensures
        url_checked(r, url_rejection(url@)),
        is_webhook_url(url@) ==> r is Ok,
{
    let u = chars_of(url);
    let scheme = chars_of("https://");
    if !starts_with_exec(&u, &scheme) {
        return Err(WebhookError::InvalidUrl { reason: "webhook URL must use HTTPS" });
    }
    let start = scheme.len();
    let (host_start, slash) = authority_span(&u, start);
    let apex = chars_of("discord.com");
    let dotted = chars_of(".discord.com");
    let api = chars_of("/api/webhooks/");
    let host_ok = range_equals(&u, host_start, slash, &apex) || (slash - host_start
        >= dotted.len() && range_equals(&u, slash - dotted.len(), slash, &dotted));
    let path_ok = occurs_at_exec(&u, &api, slash);
    proof {
        let host = u@.subrange(host_start as int, slash as int);
        if host.len() >= dotted@.len() {
            assert(host.skip(host.len() - dotted@.len()) =~= u@.subrange(
                slash - dotted@.len(),
                slash as int,
            ));
        }
        let tail = u@.skip(slash as int);
        assert(tail =~= u@.skip(start as int).skip(slash - start));
        if api@.len() <= tail.len() {
            assert(tail.subrange(0, api@.len() as int) =~= u@.subrange(
                slash as int,
                slash + api@.len(),
            ));
        }
    }
    if !(host_ok && path_ok) {
        return Err(WebhookError::InvalidUrl { reason: "URL must target discord.com/api/webhooks/" });
    }
    Ok(())
}

/// A thread ID is a Discord snowflake: non-empty, all ASCII digits.
pub open spec fn is_snowflake(id: Seq<char>) -> bool {
    id.len() > 0 && all_digits(id)
}

/// Validate that a thread ID is a non-empty string of ASCII digits, so that appending it
/// to the request URL cannot change the URL's meaning.
pub fn validate_thread_id(thread_id: &str) -> (r: Result<(), WebhookError>)
    ensures
        is_snowflake(thread_id@) ==> r is Ok,
        !is_snowflake(thread_id@) ==> r matches Err(WebhookError::InvalidThreadId),
{
    let id = chars_of(thread_id);
    if id.len() == 0 || !all_digits_exec(&id) {
        return Err(WebhookError::InvalidThreadId);
    }
    Ok(())
}

/// The URL a message is posted to: the webhook URL with `?wait=true` (so Discord confirms
/// the message was saved), then `&thread_id=` and the thread ID when one is given.
pub open spec fn post_url(webhook_url: Seq<char>, thread_id: Option<Seq<char>>) -> Seq<char> {
    match thread_id {
        Some(id) => webhook_url + "?wait=true"@ + "&thread_id="@ + id,
        None => webhook_url + "?wait=true"@,
    }
}

/// The webhook URL as shown in debug output: everything up to and including its last `/`
/// (the webhook ID stays visible, the token after it does not), or nothing when the URL
/// holds no `/`.
pub open spec fn redacted_url(url: Seq<char>) -> Seq<char> {
    match through_last(url, '/') {
        Some(prefix) => prefix,
        None => Seq::empty(),
    }
}

/// The debug form of a client whose webhook URL is `url`.
pub open spec fn client_debug_text(url: Seq<char>) -> Seq<char> {
    "WebhookClient { url: "@ + redacted_url(url) + "<REDACTED>, .. }"@
}

/// An async Discord webhook client.  It holds an accepted webhook URL as a secret and a
/// shared [`HttpClient`].
pub struct WebhookClient {
    url: SecretUrl,
    client: HttpClient,
}

impl Clone for WebhookClient {
    /// Another client for the same webhook URL, sharing the HTTP client's connection pool.
    fn clone(&self) -> (c: Self)
        ensures
            c.webhook_url() == self.webhook_url(),
            client_request_timeout(c.http_client().client()) == client_request_timeout(
                self.http_client().client(),
            ),
            client_connect_timeout(c.http_client().client()) == client_connect_timeout(
                self.http_client().client(),
            ),
    {
        proof {
            use_type_invariant(self);
        }
        WebhookClient { url: self.url.clone(), client: self.client.clone() }
    }
}

impl WebhookClient {
    /// Every client holds an accepted webhook URL.
    #[verifier::type_invariant]
    spec fn holds_webhook_url(self) -> bool {
        is_webhook_url(secret_text(self.url))
    }

    /// The webhook URL this client posts to.
    pub closed spec fn webhook_url(self) -> Seq<char> {
        secret_text(self.url)
    }

    /// The HTTP client this client posts with.
    pub closed spec fn http_client(self) -> HttpClient {
        self.client
    }

    /// A client for `url` with a new [`HttpClient`] (30-second request timeout, no
    /// connect timeout).  Refuses URLs that are not HTTPS or do not target Discord's
    /// webhook API (see [`url_rejection`]); an accepted URL fails only when reqwest cannot
    /// build its client on this machine (`WebhookError::Http`).
    pub fn new(url: &str) -> (r: Result<Self, WebhookError>)
        ensures
            url_checked(r, url_rejection(url@)),
            is_webhook_url(url@) ==> match r {
                Ok(c) => c.webhook_url() == url@ && (client_request_timeout(c.http_client().client())
                    matches Some(d) && is_default_timeout(d)) && client_connect_timeout(
                    c.http_client().client(),
                ) is None,
                Err(e) => e is Http,
            },
    {
        match validate_url(url) {
            Err(e) => Err(e),
            Ok(()) => match HttpClient::try_new() {
                Ok(client) => Ok(WebhookClient { url: secret_from(url.to_string()), client }),
                Err(e) => Err(WebhookError::Http(e)),
            },
        }
    }

    /// A client for `url` that reuses a pre-configured reqwest client.
    pub fn with_client(url: &str, client: reqwest::Client) -> (r: Result<Self, WebhookError>)
        ensures
            url_checked(r, url_rejection(url@)),
            is_webhook_url(url@) ==> (r matches Ok(c) && c.webhook_url() == url@
                && c.http_client().client() == client),
    {
        match validate_url(url) {
            Err(e) => Err(e),
            Ok(()) => Ok(
                WebhookClient {
                    url: secret_from(url.to_string()),
                    client: HttpClient::with_reqwest(client),
                },
            ),
        }
    }

    /// The HTTP client this client posts with.
    pub fn http(&self) -> (c: &HttpClient)
        ensures
            *c == self.http_client(),
    {
        &self.client
    }

    /// The URL to post a message to, into `thread_id` when one is given.
    pub fn request_url(&self, thread_id: Option<&str>) -> (r: String)
        ensures
            r@ == post_url(
                self.webhook_url(),
                match thread_id {
                    Some(id) => Some(id@),
                    None => None,
                },
            ),
            is_webhook_url(self.webhook_url()),
    {
        proof {
            use_type_invariant(self);
        }
        let mut url = String::from_str(expose(&self.url));
        url.append("?wait=true");
        if let Some(id) = thread_id {
            url.append("&thread_id=");
            url.append(id);
        }
        url
    }

    /// The URL to post a message into the thread `thread_id`, after checking that the
    /// thread ID is a snowflake.
    pub fn thread_request_url(&self, thread_id: &str) -> (r: Result<String, WebhookError>)
        ensures
            is_snowflake(thread_id@) ==> (r matches Ok(u) && u@ == post_url(
                self.webhook_url(),
                Some(thread_id@),
            )),
            !is_snowflake(thread_id@) ==> r matches Err(WebhookError::InvalidThreadId),
    {
        match validate_thread_id(thread_id) {
            Err(e) => Err(e),
            Ok(()) => Ok(self.request_url(Some(thread_id))),
        }
    }

    /// The debug form of this client, which shows the webhook ID but not the token:
    /// `WebhookClient { url: https://discord.com/api/webhooks/ID/<REDACTED>, .. }`.
    pub fn debug_string(&self) -> (s: String)
        ensures
            s@ == client_debug_text(self.webhook_url()),
    {
        let raw = expose(&self.url);
        let chars = chars_of(raw);
        let mut s = String::from_str("WebhookClient { url: ");
        match last_index_of(&chars, '/') {
            Some(i) => {
                proof {
                    lemma_through_last(raw@, '/', i as int);
                }
                s.append(raw.substring_char(0, i + 1));
            },
            None => {
                proof {
                    lemma_through_last_none(raw@, '/');
                }
            },
        }
        s.append("<REDACTED>, .. }");
        s
    }
}

/// Builder for [`WebhookClient`] with configurable timeouts.
pub struct WebhookClientBuilder {
    url: String,
    connect_timeout: Option<Duration>,
    request_timeout: Option<Duration>,
}

/// What a [`WebhookClientBuilder`] has been given.
pub struct WebhookClientBuilderView {
    pub url: Seq<char>,
    pub connect_timeout: Option<Duration>,
    pub request_timeout: Option<Duration>,
}

impl View for WebhookClientBuilder {
    type V = WebhookClientBuilderView;

    closed spec fn view(&self) -> WebhookClientBuilderView {
        WebhookClientBuilderView {
            url: self.url@,
            connect_timeout: self.connect_timeout,
            request_timeout: self.request_timeout,
        }
    }
}

impl WebhookClientBuilder {
    /// Start building a client for `url`, with the 30-second request timeout of
    /// [`WebhookClient::new`] and no connect timeout.
    pub fn new(url: &str) -> (b: Self)
        ensures
            b@.url == url@,
            b@.connect_timeout is None,
            b@.request_timeout matches Some(d) && duration_nanos(d) == DEFAULT_TIMEOUT_SECS
                * 1_000_000_000 && is_default_timeout(d),
    {
        WebhookClientBuilder {
            url: url.to_string(),
            connect_timeout: None,
            request_timeout: Some(seconds(DEFAULT_TIMEOUT_SECS)),
        }
    }

    /// Set the maximum time allowed to establish a TCP connection.
    pub fn connect_timeout(self, timeout: Duration) -> (b: Self)
        ensures
            b@ == (WebhookClientBuilderView { connect_timeout: Some(timeout), ..self@ }),
    {
        WebhookClientBuilder { url: self.url, connect_timeout: Some(timeout), request_timeout: self.request_timeout }
    }

    /// Set the maximum time allowed for a complete request/response cycle.
    pub fn request_timeout(self, timeout: Duration) -> (b: Self)
        ensures
            b@ == (WebhookClientBuilderView { request_timeout: Some(timeout), ..self@ }),
    {
        WebhookClientBuilder { url: self.url, connect_timeout: self.connect_timeout, request_timeout: Some(timeout) }
    }

    /// Validate the URL and build the client.  An accepted URL fails only when reqwest
    /// cannot build its client on this machine (`WebhookError::Http`).
    pub fn build(self) -> (r: Result<WebhookClient, WebhookError>)
        ensures
            url_checked(r, url_rejection(self@.url)),
            is_webhook_url(self@.url) ==> match r {
                Ok(c) => c.webhook_url() == self@.url && client_request_timeout(
                    c.http_client().client(),
                ) == self@.request_timeout && client_connect_timeout(c.http_client().client())
                    == self@.connect_timeout,
                Err(e) => e is Http,
            },
    {
        if let Err(e) = validate_url(self.url.as_str()) {
            return Err(e);
        }
        let mut b = crate::http::reqwest_builder();
        if let Some(t) = self.connect_timeout {
            b = crate::http::with_connect_timeout(b, t);
        }
        if let Some(t) = self.request_timeout {
            b = crate::http::with_request_timeout(b, t);
        }
        match build_client(b) {
            Err(e) => Err(WebhookError::Http(e)),
            Ok(client) => Ok(
                WebhookClient { url: secret_from(self.url), client: HttpClient::with_reqwest(client) },
            ),
        }
    }
}

} // verus!
