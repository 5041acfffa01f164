//! Properties that relate several operations of the library.
use vstd::arithmetic::power2::lemma_pow2_adds;
use vstd::prelude::*;

use std::time::Duration;

use crate::client::{is_webhook_url, post_url, redacted_url, url_rejection};
use crate::http::{after_userinfo, is_default_timeout};
use crate::message::{sendable, with_flag, WebhookMessageView};
use crate::retry::{attempt_budget, step_after, RetryStep};
use crate::text::{before_first, lemma_before_first, lemma_through_last_none, starts_with};
use crate::time::duration_nanos;

verus! {

/// Flags OR together: setting `a` and then `b` gives the flags of setting `a | b` once.
pub proof fn flags_accumulate(flags: Option<u64>, a: u64, b: u64)
    ensures
        with_flag(with_flag(flags, a), b) == with_flag(flags, a | b),
{
    let f: u64 = match flags {
        Some(x) => x,
        None => 0u64,
    };
    assert((f | a) | b == f | (a | b)) by (bit_vector);
}

/// The order in which flags are set does not matter.
pub proof fn flags_commute(flags: Option<u64>, a: u64, b: u64)
    ensures
        with_flag(with_flag(flags, a), b) == with_flag(with_flag(flags, b), a),
{
    let f: u64 = match flags {
        Some(x) => x,
        None => 0u64,
    };
    assert((f | a) | b == (f | b) | a) by (bit_vector);
}

/// Setting the same flag twice is the same as setting it once.
pub proof fn flag_idempotent(flags: Option<u64>, a: u64)
    ensures
        with_flag(with_flag(flags, a), a) == with_flag(flags, a),
{
    let f: u64 = match flags {
        Some(x) => x,
        None => 0u64,
    };
    assert((f | a) | a == f | a) by (bit_vector);
}

/// A message with content can always be built, whatever else it holds.
pub proof fn content_makes_sendable(m: WebhookMessageView, content: Seq<char>)
    ensures
        sendable(WebhookMessageView { content: Some(content), ..m }),
{
}

/// A message with at least one embed can always be built, whatever else it holds.
pub proof fn embed_makes_sendable(m: WebhookMessageView, embed: crate::message::EmbedView)
    ensures
        sendable(WebhookMessageView { embeds: m.embeds.push(embed), ..m }),
{
    assert(m.embeds.push(embed).len() > 0);
}

/// The debug form of a webhook URL is a prefix of it, and no `/` follows that prefix in
/// the URL: the token after the last `/` is never shown.
pub proof fn redaction_hides_token(url: Seq<char>)
    ensures
        starts_with(url, redacted_url(url)),
        forall|j: int| redacted_url(url).len() <= j < url.len() ==> url[j] != '/',
    decreases url.len(),
{
    if url.len() == 0 {
        assert(url.subrange(0, 0) =~= Seq::<char>::empty());
    } else if url.last() == '/' {
        assert(url.subrange(0, url.len() as int) =~= url);
    } else {
        let t = url.drop_last();
        redaction_hides_token(t);
        assert(redacted_url(url) == redacted_url(t));
        assert(url.subrange(0, redacted_url(t).len() as int) =~= t.subrange(
            0,
            redacted_url(t).len() as int,
        ));
        assert forall|j: int| redacted_url(url).len() <= j < url.len() implies url[j] != '/' by {
            if j < t.len() {
                assert(url[j] == t[j]);
            }
        }
    }
}

/// Every request URL starts with the client's webhook URL, so it keeps the accepted
/// `https://` scheme; a thread ID only ever goes at the end, after `&thread_id=`.
pub proof fn request_url_keeps_webhook_url(webhook_url: Seq<char>, thread_id: Option<Seq<char>>)
    requires
        is_webhook_url(webhook_url),
    ensures
        starts_with(post_url(webhook_url, thread_id), webhook_url),
        starts_with(post_url(webhook_url, thread_id), "https://"@),
        thread_id matches Some(id) ==> post_url(webhook_url, thread_id) == post_url(
            webhook_url,
            None,
        ) + "&thread_id="@ + id,
{
    let u = post_url(webhook_url, thread_id);
    assert(u.subrange(0, webhook_url.len() as int) =~= webhook_url);
    assert(u.subrange(0, "https://"@.len() as int) =~= webhook_url.subrange(
        0,
        "https://"@.len() as int,
    ));
    if let Some(id) = thread_id {
        assert(webhook_url + "?wait=true"@ + "&thread_id="@ + id =~= post_url(webhook_url, None)
            + "&thread_id="@ + id);
    }
}

/// A retry loop makes at least one attempt, and gives up exactly when the attempts made
/// reach the budget `max(max_attempts, 1)`; before that it always waits and retries.
pub proof fn retry_gives_up_exactly_at_budget(max_attempts: u32, made: nat)
    requires
        1 <= made <= attempt_budget(max_attempts),
    ensures
        attempt_budget(max_attempts) >= 1,
        (step_after(made, attempt_budget(max_attempts)) is GiveUp) <==> made == attempt_budget(
            max_attempts,
        ),
{
}

/// Each wait of a retry loop is twice as long as the one before.
pub proof fn retry_backoff_doubles(made: nat, budget: nat)
    requires
        1 <= made,
        made + 1 < budget,
        made < 31,
    ensures
        step_after(made, budget) matches RetryStep::Wait { backoff_factor: f1 }
            && step_after(made + 1, budget) matches RetryStep::Wait { backoff_factor: f2 }
            && f2 == 2 * f1,
{
    lemma_pow2_adds((made - 1) as nat, 1);
    vstd::arithmetic::power2::lemma2_to64();
    vstd::bits::lemma_u32_pow2_no_overflow(made);
    vstd::bits::lemma_u32_pow2_no_overflow((made - 1) as nat);
}

/// Setting a flag on a message that has none gives exactly that flag, and setting one on
/// a message with flags `f` gives `f` with the new flag's bits added and no others.
pub proof fn flag_sets_exactly_the_given_bits(f: u64, a: u64)
    ensures
        with_flag(None, a) == Some(a),
        with_flag(Some(f), a) == Some(f | a),
{
    assert(0u64 | a == a) by (bit_vector);
}

/// A policy allows `max(max_attempts, 1)` attempts: never fewer than it asks for, and
/// more only when it asks for none.
pub proof fn attempt_budget_is_max_attempts(max_attempts: u32)
    ensures
        attempt_budget(max_attempts) >= max_attempts,
        attempt_budget(max_attempts) >= 1,
        attempt_budget(max_attempts) == max_attempts || attempt_budget(max_attempts) == 1,
{
}

/// The default request timeout lasts exactly 30 seconds.
pub proof fn default_timeout_is_thirty_seconds(d: Duration)
    ensures
        is_default_timeout(d) <==> duration_nanos(d) == 30_000_000_000,
{
}

/// Every `https://discord.com/api/webhooks/...` URL is accepted, whatever follows the
/// prefix and however long it is.
pub proof fn discord_webhook_urls_are_accepted(url: Seq<char>)
    requires
        starts_with(url, "https://discord.com/api/webhooks/"@),
    ensures
        url_rejection(url) is None,
{
    reveal_strlit("https://discord.com/api/webhooks/");
    reveal_strlit("https://");
    reveal_strlit("discord.com");
    reveal_strlit("/api/webhooks/");
    let prefix = "https://discord.com/api/webhooks/"@;
    assert forall|j: int| 0 <= j < prefix.len() implies url[j] == prefix[j] by {
        assert(url.subrange(0, prefix.len() as int)[j] == url[j]);
    }
    assert(url.subrange(0, 8) =~= "https://"@);
    let rest = url.skip(8);
    assert forall|j: int| 0 <= j < 11 implies rest[j] != '/' by {
        assert(rest[j] == url[8 + j]);
    }
    assert(rest[11] == url[19]);
    lemma_before_first(rest, '/', 11);
    let authority = before_first(rest, '/');
    assert(authority =~= "discord.com"@);
    lemma_through_last_none(authority, '@');
    assert(after_userinfo(authority) == authority);
    let tail = rest.skip(11);
    assert(tail.subrange(0, 14) =~= "/api/webhooks/"@) by {
        assert forall|j: int| 0 <= j < 14 implies tail[j] == "/api/webhooks/"@[j] by {
            assert(tail[j] == url[19 + j]);
        }
    }
}

/// A URL on a subdomain of `discord.com`, such as `canary.discord.com`, is accepted
/// when its path is under `/api/webhooks/`.
pub proof fn discord_subdomain_urls_are_accepted(url: Seq<char>, sub: Seq<char>)
    requires
        forall|j: int| 0 <= j < sub.len() ==> sub[j] != '/' && sub[j] != '@',
        starts_with(url, "https://"@ + sub + ".discord.com/api/webhooks/"@),
    ensures
        url_rejection(url) is None,
{
    reveal_strlit("https://");
    reveal_strlit(".discord.com");
    reveal_strlit(".discord.com/api/webhooks/");
    reveal_strlit("/api/webhooks/");
    let prefix = "https://"@ + sub + ".discord.com/api/webhooks/"@;
    let n = sub.len() as int;
    assert forall|j: int| 0 <= j < prefix.len() implies url[j] == prefix[j] by {
        assert(url.subrange(0, prefix.len() as int)[j] == url[j]);
    }
    assert(url.subrange(0, 8) =~= "https://"@) by {
        assert forall|j: int| 0 <= j < 8 implies url[j] == "https://"@[j] by {
            assert(prefix[j] == "https://"@[j]);
        }
    }
    let rest = url.skip(8);
    let host_len = n + 12;
    assert forall|j: int| 0 <= j < host_len implies rest[j] != '/' by {
        assert(rest[j] == url[8 + j]);
        assert(url[8 + j] == prefix[8 + j]);
        if j < n {
            assert(prefix[8 + j] == sub[j]);
        } else {
            assert(prefix[8 + j] == ".discord.com/api/webhooks/"@[j - n]);
        }
    }
    assert(rest[host_len] == '/') by {
        assert(rest[host_len] == url[8 + host_len]);
        assert(prefix[8 + host_len] == ".discord.com/api/webhooks/"@[12]);
    }
    lemma_before_first(rest, '/', host_len);
    let authority = before_first(rest, '/');
    assert forall|j: int| 0 <= j < authority.len() implies authority[j] != '@' by {
        assert(authority[j] == url[8 + j]);
        assert(url[8 + j] == prefix[8 + j]);
        if j < n {
            assert(prefix[8 + j] == sub[j]);
        } else {
            assert(prefix[8 + j] == ".discord.com/api/webhooks/"@[j - n]);
        }
    }
    lemma_through_last_none(authority, '@');
    assert(authority.skip(authority.len() - 12) =~= ".discord.com"@) by {
        assert forall|j: int| 0 <= j < 12 implies authority[n + j] == ".discord.com"@[j] by {
            assert(authority[n + j] == url[8 + n + j]);
            assert(prefix[8 + n + j] == ".discord.com/api/webhooks/"@[j]);
        }
    }
    let tail = rest.skip(host_len);
    assert(tail.subrange(0, 14) =~= "/api/webhooks/"@) by {
        assert forall|j: int| 0 <= j < 14 implies tail[j] == "/api/webhooks/"@[j] by {
            assert(tail[j] == url[8 + host_len + j]);
            assert(prefix[8 + host_len + j] == ".discord.com/api/webhooks/"@[12 + j]);
        }
    }
}

} // verus!
