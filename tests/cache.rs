use erudify::{
    cache_key, chinese_to_english, CacheError, CacheStore, CachedQuery, QueryPhase, QueryStep,
    TranslationRequest, UpstreamError, CACHE_TTL_SECONDS,
};

#[test]
fn store_get_missing_is_none() {
    let store = CacheStore::new();
    assert_eq!(store.get(&"k".to_string(), 0), None);
}

#[test]
fn store_put_then_get() {
    let mut store = CacheStore::new();
    store.put("k".to_string(), "v".to_string(), 10, 100);
    assert_eq!(store.get(&"k".to_string(), 100), Some("v".to_string()));
    assert_eq!(store.get(&"k".to_string(), 109), Some("v".to_string()));
    assert_eq!(store.get(&"other".to_string(), 100), None);
}

#[test]
fn store_entry_expires() {
    let mut store = CacheStore::new();
    store.put("k".to_string(), "v".to_string(), 10, 100);
    assert_eq!(store.get(&"k".to_string(), 110), None);
    assert_eq!(store.get(&"k".to_string(), 5000), None);
}

#[test]
fn store_put_replaces() {
    let mut store = CacheStore::new();
    store.put("k".to_string(), "old".to_string(), 10, 0);
    store.put("j".to_string(), "x".to_string(), 10, 0);
    store.put("k".to_string(), "new".to_string(), 100, 50);
    assert_eq!(store.get(&"k".to_string(), 60), Some("new".to_string()));
    assert_eq!(store.get(&"j".to_string(), 5), Some("x".to_string()));
}

#[test]
fn store_ttl_saturates() {
    let mut store = CacheStore::new();
    store.put("k".to_string(), "v".to_string(), u64::MAX, 10);
    assert_eq!(store.get(&"k".to_string(), u64::MAX - 1), Some("v".to_string()));
}

/// Runs one query against `store` at `now`, answering backend calls with
/// `backend` and counting them.
fn run(
    req: &TranslationRequest,
    store: &mut CacheStore,
    now: u64,
    backend: &str,
    calls: &mut u32,
) -> Result<String, UpstreamError> {
    let (mut query, mut step) = CachedQuery::start(req);
    loop {
        step = match step {
            QueryStep::Lookup(key) => query.on_lookup(Ok(store.get(&key, now))),
            QueryStep::CallUpstream => {
                *calls += 1;
                query.on_reply(Ok(backend.to_string()))
            }
            QueryStep::Store { key, value, ttl_seconds } => {
                store.put(key, value, ttl_seconds, now);
                query.on_stored(Ok(()))
            }
            QueryStep::Finish(r) => return r,
        };
    }
}

#[test]
fn second_translation_is_served_from_cache() {
    let req = chinese_to_english("你好".to_string());
    let mut store = CacheStore::new();
    let mut calls = 0;
    let first = run(&req, &mut store, 1000, "Hello", &mut calls).unwrap();
    assert_eq!(calls, 1);
    let second = run(&req, &mut store, 2000, "something else", &mut calls).unwrap();
    assert_eq!(first, "Hello");
    assert_eq!(second, "Hello");
    assert_eq!(calls, 1);
}

#[test]
fn expired_translation_calls_again() {
    let req = chinese_to_english("你好".to_string());
    let mut store = CacheStore::new();
    let mut calls = 0;
    run(&req, &mut store, 0, "Hello", &mut calls).unwrap();
    let later = run(&req, &mut store, CACHE_TTL_SECONDS, "Hi", &mut calls).unwrap();
    assert_eq!(later, "Hi");
    assert_eq!(calls, 2);
}

#[test]
fn query_starts_with_lookup_of_its_key() {
    let req = chinese_to_english("你好".to_string());
    let (query, step) = CachedQuery::start(&req);
    assert_eq!(query.phase(), QueryPhase::Looking);
    match step {
        QueryStep::Lookup(k) => assert_eq!(k, cache_key(&req).unwrap()),
        other => panic!("unexpected step {:?}", other),
    }
}

#[test]
fn query_hit_finishes_without_backend() {
    let req = chinese_to_english("你好".to_string());
    let (mut query, _) = CachedQuery::start(&req);
    match query.on_lookup(Ok(Some("Hello".to_string()))) {
        QueryStep::Finish(Ok(v)) => assert_eq!(v, "Hello"),
        other => panic!("unexpected step {:?}", other),
    }
    assert_eq!(query.phase(), QueryPhase::Done);
}

#[test]
fn query_store_error_is_a_miss() {
    let req = chinese_to_english("你好".to_string());
    let (mut query, _) = CachedQuery::start(&req);
    let step = query.on_lookup(Err(CacheError { message: "unreachable".to_string() }));
    assert!(matches!(step, QueryStep::CallUpstream));
    assert_eq!(query.phase(), QueryPhase::Calling);
}

#[test]
fn query_reply_is_stored_for_a_day() {
    let req = chinese_to_english("你好".to_string());
    let (mut query, _) = CachedQuery::start(&req);
    query.on_lookup(Ok(None));
    match query.on_reply(Ok("Hello".to_string())) {
        QueryStep::Store { key, value, ttl_seconds } => {
            assert_eq!(key, cache_key(&req).unwrap());
            assert_eq!(value, "Hello");
            assert_eq!(ttl_seconds, 86400);
        }
        other => panic!("unexpected step {:?}", other),
    }
    assert_eq!(query.phase(), QueryPhase::Storing);
    match query.on_stored(Err(CacheError { message: "full".to_string() })) {
        QueryStep::Finish(Ok(v)) => assert_eq!(v, "Hello"),
        other => panic!("unexpected step {:?}", other),
    }
}

#[test]
fn query_backend_failure_is_returned_and_not_stored() {
    let req = chinese_to_english("你好".to_string());
    let (mut query, _) = CachedQuery::start(&req);
    query.on_lookup(Ok(None));
    match query.on_reply(Err(UpstreamError::NoChoices)) {
        QueryStep::Finish(Err(UpstreamError::NoChoices)) => {}
        other => panic!("unexpected step {:?}", other),
    }
    assert_eq!(query.phase(), QueryPhase::Done);
}
