//! The decisions of a history fetch: whether the cache answers, where the
//! request goes, and what each reply of the network means.

use vstd::prelude::*;
use vstd::string::*;

use crate::cache::{
    outcome_view, served, CacheKey, CacheKeyView, CachedView, FetchOutcome, HistoryCache,
    OutcomeView, TTL_SECONDS,
};
use crate::error::{HistoryError, HistoryErrorView};
use crate::history::OnThisDayResponse;
use crate::text::{decimal, push_decimal};

verus! {

/// The host that serves a language, where no other is given.
pub open spec fn default_base_text(language: Seq<char>) -> Seq<char> {
    "https://"@ + language + ".wikipedia.org"@
}

/// The host that a request goes to: the one given in place of the default,
/// or else that of the language.
pub open spec fn base_text(base_override: Option<&str>, language: Seq<char>) -> Seq<char> {
    match base_override {
        Some(base) => base@,
        None => default_base_text(language),
    }
}

/// The address of the feed of a category for a day on the host `base`: the
/// month and the day are written without padding.
pub open spec fn feed_url_text(base: Seq<char>, key: CacheKeyView) -> Seq<char> {
    base + "/api/rest_v1/feed/onthisday/"@ + key.category.name_text() + seq!['/'] + decimal(
        key.month as nat,
    ) + seq!['/'] + decimal(key.day as nat)
}

/// The address that the lookup under `key` is requested from.
pub fn request_url(base_override: Option<&str>, key: &CacheKey) -> (r: String)
    ensures
        r@ == feed_url_text(base_text(base_override, key@.language), key@),
{
    let mut out = String::new();
    match base_override {
        Some(base) => {
            out.append(base);
        },
        None => {
            out.append("https://");
            out.append(key.language.as_str());
            out.append(".wikipedia.org");
        },
    }
    assert(out@ =~= base_text(base_override, key@.language));
    out.append("/api/rest_v1/feed/onthisday/");
    out.append(key.category.name());
    out.push('/');
    push_decimal(&mut out, key.month as u64);
    out.push('/');
    push_decimal(&mut out, key.day as u64);
    assert(out@ =~= feed_url_text(base_text(base_override, key@.language), key@));
    out
}

/// What a fetch does next.
pub enum FetchPlan<'a> {
    /// The cache answers: nothing is sent.
    Serve(&'a FetchOutcome),
    /// The cache has no live entry: the feed is requested from this address.
    Request(String),
}

/// Decides the fetch under `key` at `now`. A live entry of the cache is
/// served as it is, a failure too; only without one is a request made.
///
/// At most one fetch per key may be under way at a time: between a plan
/// that is a `Request` and the `store` of its outcome, no other fetch of
/// the same key is planned. A caller that fetches side by side sees to it.
pub fn plan_fetch<'a>(
    cache: &'a HistoryCache,
    base_override: Option<&str>,
    key: &CacheKey,
    now: u64,
) -> (r: FetchPlan<'a>)
    ensures
        r is Serve <==> served(cache@, key@, now as int) is Some,
        r matches FetchPlan::Serve(outcome) ==> Some(outcome_view(*outcome)) == served(
            cache@,
            key@,
            now as int,
        ),
        r matches FetchPlan::Request(url) ==> url@ == feed_url_text(
            base_text(base_override, key@.language),
            key@,
        ),
{
    match cache.lookup(key, now) {
        Some(outcome) => FetchPlan::Serve(outcome),
        None => FetchPlan::Request(request_url(base_override, key)),
    }
}

/// Whether a status says that the request succeeded: 200 to 299.
pub open spec fn is_success_status(status: int) -> bool {
    200 <= status <= 299
}

/// What sending the request led to, given the status that came back or
/// the cause for which none did. A transport failure is a `NetworkError`;
/// a status outside 200 to 299 is an `UpstreamStatusError`; only after a
/// success is the body read.
pub fn after_send(sent: Result<u16, String>) -> (r: Result<(), HistoryError>)
    ensures
        r is Ok <==> (sent matches Ok(status) && is_success_status(status as int)),
        r matches Err(error) ==> error@ == match sent {
            Ok(status) => HistoryErrorView::UpstreamStatusError(status as int),
            Err(cause) => HistoryErrorView::NetworkError(cause@),
        },
{
    match sent {
        Ok(status) => {
            if 200 <= status && status <= 299 {
                Ok(())
            } else {
                Err(HistoryError::UpstreamStatusError(status))
            }
        },
        Err(cause) => Err(HistoryError::NetworkError(cause)),
    }
}

/// How the fetch ended, given the decoded body or the cause for which it
/// could not be decoded: the latter is a `DecodeError`.
pub fn after_decode(decoded: Result<OnThisDayResponse, String>) -> (r: FetchOutcome)
    ensures
        outcome_view(r) == match decoded {
            Ok(response) => Ok::<_, HistoryErrorView>(response@),
            Err(cause) => Err(HistoryErrorView::DecodeError(cause@)),
        },
{
    match decoded {
        Ok(response) => Ok(response),
        Err(cause) => Err(HistoryError::DecodeError(cause)),
    }
}

/// Whether a fetch under `key` at `now` goes to the network.
pub open spec fn asks_network(cache: Map<CacheKeyView, CachedView>, key: CacheKeyView, now: int)
    -> bool {
    served(cache, key, now) is None
}

/// The cache after a fetch under `key` at `now` for which the network, if
/// asked, gave `fetched`.
pub open spec fn after_fetch(
    cache: Map<CacheKeyView, CachedView>,
    key: CacheKeyView,
    now: int,
    fetched: OutcomeView,
) -> Map<CacheKeyView, CachedView> {
    if asks_network(cache, key, now) {
        cache.insert(key, CachedView { stored_at: now, outcome: fetched })
    } else {
        cache
    }
}

/// Of two fetches under one key, the second less than the time to live
/// after the first, only the first goes to the network: the second is
/// served what the first fetched, a failure too.
pub proof fn lemma_one_request_within_ttl(
    cache: Map<CacheKeyView, CachedView>,
    key: CacheKeyView,
    first: int,
    second: int,
    fetched: OutcomeView,
)
    requires
        asks_network(cache, key, first),
        first <= second < first + TTL_SECONDS,
    ensures
        !asks_network(after_fetch(cache, key, first, fetched), key, second),
        served(after_fetch(cache, key, first, fetched), key, second) == Some(fetched),
{
}

/// A fetch under the same key once the time to live has passed goes to the
/// network again.
pub proof fn lemma_request_again_after_ttl(
    cache: Map<CacheKeyView, CachedView>,
    key: CacheKeyView,
    first: int,
    second: int,
    fetched: OutcomeView,
)
    requires
        asks_network(cache, key, first),
        second >= first + TTL_SECONDS,
    ensures
        asks_network(after_fetch(cache, key, first, fetched), key, second),
{
}

/// A fetch under one key changes nothing of what is served under another.
pub proof fn lemma_other_keys_unaffected(
    cache: Map<CacheKeyView, CachedView>,
    key: CacheKeyView,
    other: CacheKeyView,
    now: int,
    later: int,
    fetched: OutcomeView,
)
    requires
        key != other,
    ensures
        served(after_fetch(cache, key, now, fetched), other, later) == served(cache, other, later),
{
}

} // verus!
