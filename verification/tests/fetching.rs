use time_cli::cache::{CacheKey, FetchOutcome, HistoryCache, TTL_SECONDS};
use time_cli::error::HistoryError;
use time_cli::fetch::{after_decode, after_send, plan_fetch, request_url, FetchPlan};
use time_cli::history::{Category, Event, OnThisDayResponse};
use time_cli::query::{progress_message, resolve_date, HistoryQuery};
use time_cli::text::decimal_string;

fn key(language: &str, category: Category, month: u32, day: u32) -> CacheKey {
    CacheKey { language: language.to_string(), category, month, day }
}

fn some_response() -> OnThisDayResponse {
    OnThisDayResponse::from_optional_lists(
        Some(vec![Event { year: 1990, text: "A".to_string() }]),
        None,
        None,
        None,
    )
}

/// One fetch as the program runs it: the cache is asked first, and only
/// without an answer is `network` called and its outcome stored.
fn fetch(
    cache: &mut HistoryCache,
    key: &CacheKey,
    now: u64,
    calls: &mut u32,
    network: FetchOutcome,
) -> FetchOutcome {
    match plan_fetch(cache, None, key, now) {
        FetchPlan::Serve(outcome) => outcome.clone(),
        FetchPlan::Request(_) => {
            *calls += 1;
            cache.store(key.clone(), now, network.clone());
            network
        }
    }
}

#[test]
fn two_fetches_within_the_ttl_make_one_request() {
    let mut cache = HistoryCache::new();
    let mut calls = 0;
    let k = key("en", Category::Events, 4, 1);
    let first = fetch(&mut cache, &k, 1000, &mut calls, Ok(some_response()));
    assert_eq!(calls, 1);
    let other = OnThisDayResponse::from_optional_lists(None, None, None, None);
    let second = fetch(&mut cache, &k, 1000 + TTL_SECONDS - 1, &mut calls, Ok(other));
    assert_eq!(calls, 1);
    assert_eq!(first, second);
    assert_eq!(second, Ok(some_response()));
}

#[test]
fn a_fetch_after_the_ttl_makes_a_second_request() {
    let mut cache = HistoryCache::new();
    let mut calls = 0;
    let k = key("en", Category::Events, 4, 1);
    fetch(&mut cache, &k, 1000, &mut calls, Ok(some_response()));
    assert_eq!(calls, 1);
    let later = fetch(
        &mut cache,
        &k,
        1000 + TTL_SECONDS,
        &mut calls,
        Err(HistoryError::UpstreamStatusError(503)),
    );
    assert_eq!(calls, 2);
    assert_eq!(later, Err(HistoryError::UpstreamStatusError(503)));
    assert_eq!(cache.len(), 1);
}

#[test]
fn failures_are_served_from_the_cache_too() {
    let mut cache = HistoryCache::new();
    let mut calls = 0;
    let k = key("de", Category::Births, 2, 29);
    let failure: FetchOutcome = Err(HistoryError::NetworkError("timed out".to_string()));
    fetch(&mut cache, &k, 5, &mut calls, failure.clone());
    let again = fetch(&mut cache, &k, 6, &mut calls, Ok(some_response()));
    assert_eq!(calls, 1);
    assert_eq!(again, failure);
}

#[test]
fn each_part_of_the_key_counts() {
    let mut cache = HistoryCache::new();
    let base = key("en", Category::Events, 4, 1);
    cache.store(base.clone(), 0, Ok(some_response()));
    assert!(cache.lookup(&base, 0).is_some());
    assert!(cache.lookup(&key("de", Category::Events, 4, 1), 0).is_none());
    assert!(cache.lookup(&key("en", Category::Births, 4, 1), 0).is_none());
    assert!(cache.lookup(&key("en", Category::Events, 5, 1), 0).is_none());
    assert!(cache.lookup(&key("en", Category::Events, 4, 2), 0).is_none());
    assert_eq!(cache.len(), 1);
}

#[test]
fn the_last_outcome_under_a_key_wins() {
    let mut cache = HistoryCache::new();
    assert_eq!(cache.len(), 0);
    let a = key("en", Category::Events, 4, 1);
    let b = key("en", Category::Deaths, 4, 1);
    cache.store(a.clone(), 10, Err(HistoryError::DecodeError("bad".to_string())));
    cache.store(b.clone(), 20, Err(HistoryError::UpstreamStatusError(404)));
    cache.store(a.clone(), 30, Ok(some_response()));
    assert_eq!(cache.len(), 2);
    assert_eq!(cache.lookup(&a, 30), Some(&Ok(some_response())));
    assert_eq!(cache.lookup(&b, 30), Some(&Err(HistoryError::UpstreamStatusError(404))));
    // the entry under `a` is as old as its last store
    assert!(cache.lookup(&a, 30 + TTL_SECONDS - 1).is_some());
    assert!(cache.lookup(&a, 30 + TTL_SECONDS).is_none());
    assert!(cache.lookup(&b, 20 + TTL_SECONDS - 1).is_some());
    assert!(cache.lookup(&b, 20 + TTL_SECONDS).is_none());
}

#[test]
fn an_entry_is_live_at_and_before_its_own_time() {
    let mut cache = HistoryCache::new();
    let k = key("en", Category::Events, 4, 1);
    cache.store(k.clone(), 500, Ok(some_response()));
    assert!(cache.lookup(&k, 500).is_some());
    assert!(cache.lookup(&k, 0).is_some());
    assert!(cache.lookup(&k, u64::MAX).is_none());
    cache.store(k.clone(), u64::MAX, Ok(some_response()));
    assert!(cache.lookup(&k, u64::MAX).is_some());
}

#[test]
fn ttl_is_a_day() {
    assert_eq!(TTL_SECONDS, 24 * 60 * 60);
}

#[test]
fn request_url_of_a_language() {
    assert_eq!(
        request_url(None, &key("en", Category::Events, 4, 1)),
        "https://en.wikipedia.org/api/rest_v1/feed/onthisday/events/4/1"
    );
    assert_eq!(
        request_url(None, &key("de", Category::Holidays, 12, 31)),
        "https://de.wikipedia.org/api/rest_v1/feed/onthisday/holidays/12/31"
    );
    assert_eq!(
        request_url(None, &key("fr", Category::Births, 2, 29)),
        "https://fr.wikipedia.org/api/rest_v1/feed/onthisday/births/2/29"
    );
    assert_eq!(
        request_url(None, &key("it", Category::Deaths, 10, 9)),
        "https://it.wikipedia.org/api/rest_v1/feed/onthisday/deaths/10/9"
    );
}

#[test]
fn request_url_of_another_host() {
    assert_eq!(
        request_url(Some("http://127.0.0.1:8080"), &key("en", Category::Events, 4, 1)),
        "http://127.0.0.1:8080/api/rest_v1/feed/onthisday/events/4/1"
    );
}

#[test]
fn plan_requests_the_url_on_a_miss() {
    let cache = HistoryCache::new();
    let k = key("en", Category::Events, 4, 1);
    match plan_fetch(&cache, Some("http://mock"), &k, 0) {
        FetchPlan::Request(url) => {
            assert_eq!(url, "http://mock/api/rest_v1/feed/onthisday/events/4/1")
        }
        FetchPlan::Serve(_) => panic!("nothing was stored"),
    }
}

#[test]
fn status_outside_2xx_is_a_failure() {
    assert_eq!(after_send(Ok(200)), Ok(()));
    assert_eq!(after_send(Ok(204)), Ok(()));
    assert_eq!(after_send(Ok(299)), Ok(()));
    assert_eq!(after_send(Ok(199)), Err(HistoryError::UpstreamStatusError(199)));
    assert_eq!(after_send(Ok(300)), Err(HistoryError::UpstreamStatusError(300)));
    assert_eq!(after_send(Ok(304)), Err(HistoryError::UpstreamStatusError(304)));
    assert_eq!(after_send(Ok(404)), Err(HistoryError::UpstreamStatusError(404)));
    assert_eq!(after_send(Ok(500)), Err(HistoryError::UpstreamStatusError(500)));
    assert_eq!(after_send(Ok(0)), Err(HistoryError::UpstreamStatusError(0)));
    assert_eq!(
        after_send(Err("dns".to_string())),
        Err(HistoryError::NetworkError("dns".to_string()))
    );
}

#[test]
fn undecodable_body_is_a_decode_error() {
    assert_eq!(after_decode(Ok(some_response())), Ok(some_response()));
    assert_eq!(
        after_decode(Err("expected value".to_string())),
        Err(HistoryError::DecodeError("expected value".to_string()))
    );
}

#[test]
fn messages_of_each_error() {
    assert_eq!(
        HistoryError::InvalidLanguageCode("eng".to_string()).message(),
        "'eng' is not a valid ISO-639-1 language code (two ASCII letters)"
    );
    assert_eq!(
        HistoryError::InvalidDate { month: 4, day: 31 }.message(),
        "'04-31' is not a valid calendar date"
    );
    assert_eq!(
        HistoryError::InvalidDate { month: 13, day: 100 }.message(),
        "'13-100' is not a valid calendar date"
    );
    assert_eq!(
        HistoryError::InvalidDate { month: 0, day: 0 }.message(),
        "'00-00' is not a valid calendar date"
    );
    assert_eq!(
        HistoryError::HttpClientInitFailure("no tls".to_string()).message(),
        "failed to build the HTTP client: no tls"
    );
    assert_eq!(
        HistoryError::NetworkError("timed out".to_string()).message(),
        "the request failed: timed out"
    );
    assert_eq!(
        HistoryError::UpstreamStatusError(404).message(),
        "the server answered with HTTP status 404"
    );
    assert_eq!(
        HistoryError::DecodeError("eof".to_string()).message(),
        "the response could not be decoded: eof"
    );
}

#[test]
fn test_invalid_date() {
    let query = HistoryQuery::new(Category::Events, "en", Some(4), Some(31));
    match query {
        Err(error) => {
            assert!(error.message().contains("'04-31' is not a valid calendar date"))
        }
        Ok(_) => panic!("30 days has April"),
    }
    let error = resolve_date(Some(4), Some(31), 1, 1).unwrap_err();
    assert!(error.message().contains("'04-31' is not a valid calendar date"));
}

#[test]
fn overrides_are_independent() {
    let d = resolve_date(None, None, 7, 19).unwrap();
    assert_eq!((d.month(), d.day()), (7, 19));
    let d = resolve_date(Some(2), None, 7, 19).unwrap();
    assert_eq!((d.month(), d.day()), (2, 19));
    let d = resolve_date(None, Some(5), 7, 19).unwrap();
    assert_eq!((d.month(), d.day()), (7, 5));
    let d = resolve_date(Some(2), Some(29), 7, 19).unwrap();
    assert_eq!((d.month(), d.day()), (2, 29));
    // today is 31 January and only the month is given: 31 April does not exist
    assert_eq!(
        resolve_date(Some(4), None, 1, 31).unwrap_err(),
        HistoryError::InvalidDate { month: 4, day: 31 }
    );
    assert_eq!(
        resolve_date(None, Some(30), 2, 10).unwrap_err(),
        HistoryError::InvalidDate { month: 2, day: 30 }
    );
    assert_eq!(
        resolve_date(Some(13), Some(1), 1, 1).unwrap_err(),
        HistoryError::InvalidDate { month: 13, day: 1 }
    );
    assert_eq!(
        resolve_date(Some(0), Some(1), 1, 1).unwrap_err(),
        HistoryError::InvalidDate { month: 0, day: 1 }
    );
    assert_eq!(
        resolve_date(Some(1), Some(0), 1, 1).unwrap_err(),
        HistoryError::InvalidDate { month: 1, day: 0 }
    );
    assert_eq!(
        resolve_date(Some(1), Some(32), 1, 1).unwrap_err(),
        HistoryError::InvalidDate { month: 1, day: 32 }
    );
}

#[test]
fn query_checks_the_language_first() {
    let q = HistoryQuery::new(Category::Deaths, "EN", Some(2), None).unwrap();
    assert_eq!(q.language(), "en");
    assert_eq!(q.category(), Category::Deaths);
    assert_eq!(q.month(), Some(2));
    assert_eq!(q.day(), None);
    assert_eq!(
        HistoryQuery::new(Category::Events, "eng", Some(4), Some(31)).unwrap_err(),
        HistoryError::InvalidLanguageCode("eng".to_string())
    );
    assert_eq!(
        HistoryQuery::new(Category::Events, "1a", None, None).unwrap_err(),
        HistoryError::InvalidLanguageCode("1a".to_string())
    );
    assert_eq!(
        HistoryQuery::new(Category::Events, "en", Some(4), Some(31)).unwrap_err(),
        HistoryError::InvalidDate { month: 4, day: 31 }
    );
    // one part alone is checked once today is known
    let q = HistoryQuery::new(Category::Events, "en", Some(4), None).unwrap();
    assert!(q.resolve_date(1, 31).is_err());
    let d = q.resolve_date(1, 30).unwrap();
    assert_eq!((d.month(), d.day()), (4, 30));
}

#[test]
fn cache_key_of_a_query() {
    let q = HistoryQuery::new(Category::Births, "De", None, None).unwrap();
    let date = q.resolve_date(2, 29).unwrap();
    assert_eq!(q.cache_key(&date), key("de", Category::Births, 2, 29));
}

#[test]
fn progress_message_names_the_lookup() {
    assert_eq!(
        progress_message(&key("en", Category::Events, 4, 1)),
        "Fetching events for 04-01 (en)"
    );
    assert_eq!(
        progress_message(&key("de", Category::Holidays, 12, 31)),
        "Fetching holidays for 12-31 (de)"
    );
}

#[test]
fn decimal_numerals() {
    assert_eq!(decimal_string(0), "0");
    assert_eq!(decimal_string(7), "7");
    assert_eq!(decimal_string(10), "10");
    assert_eq!(decimal_string(1990), "1990");
    assert_eq!(decimal_string(u64::MAX), u64::MAX.to_string());
}
