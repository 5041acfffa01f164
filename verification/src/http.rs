//! The shared HTTP client, its builder, and the allow-list check on endpoint domains.
use std::time::Duration;
use vstd::prelude::*;

use crate::text::{
    before_first, chars_of, first_index_in, last_index_in, lemma_before_first,
    lemma_through_last, lemma_through_last_none, range_equals, starts_with, starts_with_exec,
    through_last,
};
use crate::time::{duration_nanos, seconds};

verus! {

/// The HTTP client of the `reqwest` crate: a connection pool, carried through unchanged.
#[verifier::external_type_specification]
#[verifier::external_body]
pub struct ExClient(reqwest::Client);

/// The configuration builder of `reqwest::Client`.
#[verifier::external_type_specification]
#[verifier::external_body]
pub struct ExClientBuilder(reqwest::ClientBuilder);

/// The total request timeout a `reqwest::ClientBuilder` has been given (its
/// `config.timeout`), if any.
pub uninterp spec fn builder_request_timeout(b: reqwest::ClientBuilder) -> Option<Duration>;

/// The connect timeout a `reqwest::ClientBuilder` has been given (its
/// `config.connect_timeout`), if any.
pub uninterp spec fn builder_connect_timeout(b: reqwest::ClientBuilder) -> Option<Duration>;

/// The total request timeout a `reqwest::Client` applies to each request, if any.
pub uninterp spec fn client_request_timeout(c: reqwest::Client) -> Option<Duration>;

/// The connect timeout of a `reqwest::Client`'s connector, if any.
pub uninterp spec fn client_connect_timeout(c: reqwest::Client) -> Option<Duration>;

/// `reqwest::Client::clone`: another handle to the same shared client (an `Arc` clone),
/// so it applies the same timeouts.
pub assume_specification[ <reqwest::Client as Clone>::clone ](c: &reqwest::Client) -> (r: reqwest::Client)
    ensures
        client_request_timeout(r) == client_request_timeout(*c),
        client_connect_timeout(r) == client_connect_timeout(*c),
;

/// `reqwest::Client::builder`: a builder with reqwest's defaults, which set neither a
/// request timeout nor a connect timeout.
#[verifier::external_body]
pub(crate) fn reqwest_builder() -> (b: reqwest::ClientBuilder)
    ensures
        builder_request_timeout(b) is None,
        builder_connect_timeout(b) is None,
{
    reqwest::Client::builder()
}

/// `reqwest::ClientBuilder::timeout`: sets the total request timeout, nothing else.
#[verifier::external_body]
pub(crate) fn with_request_timeout(b: reqwest::ClientBuilder, timeout: Duration) -> (r: reqwest::ClientBuilder)
    ensures
        builder_request_timeout(r) == Some(timeout),
        builder_connect_timeout(r) == builder_connect_timeout(b),
{
    b.timeout(timeout)
}

/// `reqwest::ClientBuilder::connect_timeout`: sets the connect-phase timeout, nothing else.
#[verifier::external_body]
pub(crate) fn with_connect_timeout(b: reqwest::ClientBuilder, timeout: Duration) -> (r: reqwest::ClientBuilder)
    ensures
        builder_connect_timeout(r) == Some(timeout),
        builder_request_timeout(r) == builder_request_timeout(b),
{
    b.connect_timeout(timeout)
}

/// `reqwest::ClientBuilder::build`: a client that applies the builder's request and
/// connect timeouts, or reqwest's error.  Whether it fails depends on the machine (TLS
/// backend, resolver, process-wide crypto provider), not on the timeouts, so when it
/// fails is not stated.
#[verifier::external_body]
pub(crate) fn build_client(b: reqwest::ClientBuilder) -> (r: Result<reqwest::Client, reqwest::Error>)
    ensures
        r matches Ok(c) ==> client_request_timeout(c) == builder_request_timeout(b)
            && client_connect_timeout(c) == builder_connect_timeout(b),
{
    b.build()
}

/// The request timeout applied when none is configured: 30 seconds.
pub const DEFAULT_TIMEOUT_SECS: u64 = 30;

/// `d` is the default request timeout of 30 seconds.
pub open spec fn is_default_timeout(d: Duration) -> bool {
    duration_nanos(d) == DEFAULT_TIMEOUT_SECS * 1_000_000_000
}

/// A thin wrapper around `reqwest::Client` shared by all webhook services.
pub struct HttpClient {
    inner: reqwest::Client,
}

impl Clone for HttpClient {
    /// Another handle to the same reqwest client, with the same timeouts.
    fn clone(&self) -> (c: Self)
        ensures
            client_request_timeout(c.client()) == client_request_timeout(self.client()),
            client_connect_timeout(c.client()) == client_connect_timeout(self.client()),
    {
        HttpClient { inner: self.inner.clone() }
    }
}

impl HttpClient {
    /// The wrapped reqwest client.
    pub closed spec fn client(&self) -> reqwest::Client {
        self.inner
    }

    /// A client with a 30-second request timeout and no connect timeout, or reqwest's
    /// error when it cannot build a client on this machine.
    pub fn try_new() -> (r: Result<Self, reqwest::Error>)
        ensures
            r matches Ok(c) ==> (client_request_timeout(c.client()) matches Some(d)
                && is_default_timeout(d)) && client_connect_timeout(c.client()) is None,
    {
        let b = with_request_timeout(reqwest_builder(), seconds(DEFAULT_TIMEOUT_SECS));
        match build_client(b) {
            Ok(inner) => Ok(HttpClient { inner }),
            Err(e) => Err(e),
        }
    }

    /// Wrap an existing reqwest client.
    pub fn with_reqwest(client: reqwest::Client) -> (c: Self)
        ensures
            c.client() == client,
    {
        HttpClient { inner: client }
    }

    /// Access the underlying reqwest client.
    pub fn inner(&self) -> (c: &reqwest::Client)
        ensures
            *c == self.client(),
    {
        &self.inner
    }
}

/// Builder for [`HttpClient`] with configurable timeouts.
pub struct HttpClientBuilder {
    connect_timeout: Option<Duration>,
    request_timeout: Option<Duration>,
}

/// The timeouts an [`HttpClientBuilder`] has been given.
pub struct HttpClientBuilderView {
    pub connect_timeout: Option<Duration>,
    pub request_timeout: Option<Duration>,
}

impl View for HttpClientBuilder {
    type V = HttpClientBuilderView;

    closed spec fn view(&self) -> HttpClientBuilderView {
        HttpClientBuilderView {
            connect_timeout: self.connect_timeout,
            request_timeout: self.request_timeout,
        }
    }
}

impl Default for HttpClientBuilder {
    fn default() -> (b: Self)
        ensures
            b@.connect_timeout is None,
            b@.request_timeout is None,
    {
        HttpClientBuilder { connect_timeout: None, request_timeout: None }
    }
}

impl HttpClientBuilder {
    /// A builder with no timeouts set.
    pub fn new() -> (b: Self)
        ensures
            b@.connect_timeout is None,
            b@.request_timeout is None,
    {
        HttpClientBuilder::default()
    }

    /// Set the maximum time allowed to establish a TCP connection.
    pub fn connect_timeout(self, timeout: Duration) -> (b: Self)
        ensures
            b@.connect_timeout == Some(timeout),
            b@.request_timeout == self@.request_timeout,
    {
        HttpClientBuilder { connect_timeout: Some(timeout), request_timeout: self.request_timeout }
    }

    /// Set the maximum time allowed for a complete request/response cycle.
    pub fn request_timeout(self, timeout: Duration) -> (b: Self)
        ensures
            b@.request_timeout == Some(timeout),
            b@.connect_timeout == self@.connect_timeout,
    {
        HttpClientBuilder { connect_timeout: self.connect_timeout, request_timeout: Some(timeout) }
    }

    /// The request timeout the built client gets: the configured one, or 30 seconds.
    pub fn effective_request_timeout(&self) -> (d: Duration)
        ensures
            match self@.request_timeout {
                Some(t) => d == t,
                None => is_default_timeout(d),
            },
    {
        match self.request_timeout {
            Some(t) => t,
            None => seconds(DEFAULT_TIMEOUT_SECS),
        }
    }

    /// Build the client with the effective request timeout and, if set, the connect
    /// timeout.  Fails only when reqwest cannot build a client on this machine.
    pub fn build(self) -> (r: Result<HttpClient, reqwest::Error>)
        ensures
            r matches Ok(c) ==> (client_request_timeout(c.client()) matches Some(d) && match self@.request_timeout {
                Some(t) => d == t,
                None => is_default_timeout(d),
            }) && client_connect_timeout(c.client()) == self@.connect_timeout,
    {
        let mut b = with_request_timeout(reqwest_builder(), self.effective_request_timeout());
        if let Some(t) = self.connect_timeout {
            b = with_connect_timeout(b, t);
        }
        match build_client(b) {
            Ok(inner) => Ok(HttpClient { inner }),
            Err(e) => Err(e),
        }
    }
}

/// The host and port of a URL authority: the text after its last `@`, so that any
/// `userinfo@` part is dropped; all of it when it holds no `@`.
pub open spec fn after_userinfo(authority: Seq<char>) -> Seq<char> {
    match through_last(authority, '@') {
        Some(userinfo) => authority.skip(userinfo.len() as int),
        None => authority,
    }
}

/// The host of an `https://` URL: the authority after the scheme (up to the first `/`),
/// without any `userinfo@` part, up to the first `:` (the port).  `None` when the URL does
/// not start with `https://`.
pub open spec fn https_host(url: Seq<char>) -> Option<Seq<char>> {
    if starts_with(url, "https://"@) {
        Some(
            before_first(
                after_userinfo(before_first(url.skip("https://"@.len() as int), '/')),
                ':',
            ),
        )
    } else {
        None
    }
}

/// Where the authority of a URL lies in `u` when the URL's `scheme://` ends at `start`:
/// the authority runs from `start` up to the first `/` after it (`r.1`, or the end of
/// `u`), and its host and port begin after its last `@` (`r.0`).
pub(crate) fn authority_span(u: &Vec<char>, start: usize) -> (r: (usize, usize))
    requires
        start <= u@.len(),
    ensures
        start <= r.0 <= r.1 <= u@.len(),
        before_first(u@.skip(start as int), '/') == u@.subrange(start as int, r.1 as int),
        after_userinfo(u@.subrange(start as int, r.1 as int)) == u@.subrange(
            r.0 as int,
            r.1 as int,
        ),
{
    let slash = first_index_in(u, '/', start, u.len());
    let host_start = match last_index_in(u, '@', start, slash) {
        Some(at) => at + 1,
        None => start,
    };
    proof {
        let rest = u@.skip(start as int);
        assert forall|j: int| 0 <= j < slash - start implies rest[j] != '/' by {
            assert(rest[j] == u@[start + j]);
        }
        lemma_before_first(rest, '/', slash - start);
        let authority = rest.take(slash - start);
        assert(authority =~= u@.subrange(start as int, slash as int));
        if host_start == start {
            lemma_through_last_none(authority, '@');
        } else {
            let at = host_start - 1 - start;
            assert forall|j: int| at < j < authority.len() implies authority[j] != '@' by {
                assert(authority[j] == u@[start + j]);
            }
            lemma_through_last(authority, '@', at);
        }
        assert(after_userinfo(authority) =~= u@.subrange(host_start as int, slash as int));
    }
    (host_start, slash)
}

/// `url` uses HTTPS and its host is exactly one of `allowed`.
pub open spec fn allowed_domain(url: Seq<char>, allowed: Seq<&str>) -> bool {
    match https_host(url) {
        Some(host) => exists|i: int| 0 <= i < allowed.len() && (#[trigger] allowed[i])@ == host,
        None => false,
    }
}

/// Return `true` if `url` uses HTTPS and its host exactly matches one of the `allowed`
/// domains.  Userinfo, port and path are not compared.
pub fn is_allowed_domain(url: &str, allowed: &[&str]) -> (r: bool)
    ensures
        r == allowed_domain(url@, allowed@),
{
    let u = chars_of(url);
    let scheme = chars_of("https://");
    if !starts_with_exec(&u, &scheme) {
        return false;
    }
    let start = scheme.len();
    let (host_start, slash) = authority_span(&u, start);
    let colon = first_index_in(&u, ':', host_start, slash);
    proof {
        let host_port = u@.subrange(host_start as int, slash as int);
        assert forall|j: int| 0 <= j < colon - host_start implies host_port[j] != ':' by {
            assert(host_port[j] == u@[host_start + j]);
        }
        lemma_before_first(host_port, ':', colon - host_start);
        assert(host_port.take(colon - host_start) =~= u@.subrange(host_start as int, colon as int));
    }
    let mut i: usize = 0;
    while i < allowed.len()
        invariant
            i <= allowed@.len(),
            u@ == url@,
            host_start <= colon <= u@.len(),
            https_host(u@) == Some(u@.subrange(host_start as int, colon as int)),
            forall|j: int| 0 <= j < i ==> (#[trigger] allowed@[j])@ != u@.subrange(
                host_start as int,
                colon as int,
            ),
        decreases allowed@.len() - i,
    {
        let candidate = chars_of(allowed[i]);
        if range_equals(&u, host_start, colon, &candidate) {
            assert((allowed@[i as int])@ == u@.subrange(host_start as int, colon as int));
            return true;
        }
        i = i + 1;
    }
    false
}

} // verus!
