use hn_rs::cache::classify_key;
use hn_rs::cache::CacheItemKind;
use hn_rs::cache::CacheItemType;
use hn_rs::cache::CacheLookup;
use hn_rs::cache::FetchError;
use hn_rs::cache::FirebaseCache;
use hn_rs::get_items::item_from_response;
use hn_rs::get_items::ItemResponse;
use hn_rs::get_stories::stories_from_response;
use hn_rs::get_user::user_from_response;
use hn_rs::get_user::User;

fn test_user() -> User {
    User {
        id: "test_user".to_string(),
        created: 1234567890,
        karma: 100,
        about: Some("Test user".to_string()),
        submitted: vec![1, 2, 3],
    }
}

#[test]
fn test_firebase_cache() {
    let mut cache = FirebaseCache::new(5);
    let user = test_user();
    cache.set("user/1".to_string(), CacheItemType::User(user.clone()), 0);

    match cache.lookup("user/1", 3) {
        CacheLookup::Fresh(CacheItemType::User(u)) => {
            assert_eq!(u.id, user.id);
            assert_eq!(u.created, user.created);
            assert_eq!(u.karma, user.karma);
            assert_eq!(u.about, user.about);
            assert_eq!(u.submitted, user.submitted);
        }
        other => panic!("expected a fresh user, got {:?}", other),
    }

    // at or past the expiry instant the entry is stale and must be refetched
    match cache.lookup("user/1", 6) {
        CacheLookup::NeedsFetch(kind) => assert_eq!(kind, CacheItemKind::User),
        other => panic!("expected a fetch directive, got {:?}", other),
    }
}

#[test]
fn test_key_classification() {
    assert_eq!(classify_key("item/42"), Some(CacheItemKind::Item));
    assert_eq!(classify_key("topstories"), Some(CacheItemKind::Story));
    assert_eq!(classify_key("newstories"), Some(CacheItemKind::Story));
    assert_eq!(classify_key("xstoriesy"), Some(CacheItemKind::Story));
    assert_eq!(classify_key("user/alice"), Some(CacheItemKind::User));
    assert_eq!(classify_key("nonsense"), None);
    assert_eq!(classify_key(""), None);
    // the item prefix is checked before the stories substring
    assert_eq!(classify_key("item/stories"), Some(CacheItemKind::Item));
}

#[test]
fn test_bad_key_needs_no_fetch() {
    let mut cache = FirebaseCache::new(5);
    match cache.lookup("nonsense", 0) {
        CacheLookup::BadKey => {}
        other => panic!("expected a rejected key, got {:?}", other),
    }
}

#[test]
fn test_ttl_exactly_one_refetch() {
    // TTL expiry: a get at time t and a second get at t + d must trigger
    // exactly one more remote fetch; a get at t + d - 1 triggers none.
    fn lookup_counting(cache: &mut FirebaseCache, now: u64, fetches: &mut u32) {
        match cache.lookup("topstories", now) {
            CacheLookup::Fresh(_) => {}
            CacheLookup::NeedsFetch(kind) => {
                assert_eq!(kind, CacheItemKind::Story);
                *fetches += 1;
                cache.set("topstories".to_string(), CacheItemType::Story(vec![1, 2]), now);
            }
            CacheLookup::BadKey => panic!("key must classify"),
        }
    }
    let ttl: u64 = 300_000;
    let mut cache = FirebaseCache::new(ttl);
    let mut fetches = 0u32;
    lookup_counting(&mut cache, 0, &mut fetches);
    assert_eq!(fetches, 1);
    lookup_counting(&mut cache, ttl - 1, &mut fetches);
    assert_eq!(fetches, 1);
    lookup_counting(&mut cache, ttl, &mut fetches);
    assert_eq!(fetches, 2);
}

#[test]
fn test_set_replaces_wholesale() {
    let mut cache = FirebaseCache::new(10);
    cache.set("topstories".to_string(), CacheItemType::Story(vec![1]), 0);
    cache.set("topstories".to_string(), CacheItemType::Story(vec![2, 3]), 1);
    match cache.lookup("topstories", 2) {
        CacheLookup::Fresh(CacheItemType::Story(ids)) => assert_eq!(ids, vec![2, 3]),
        other => panic!("expected the replaced list, got {:?}", other),
    }
}

#[test]
fn test_remove_evicts() {
    let mut cache = FirebaseCache::new(10);
    cache.set("user/a".to_string(), CacheItemType::User(test_user()), 0);
    cache.remove("user/a");
    match cache.lookup("user/a", 1) {
        CacheLookup::NeedsFetch(CacheItemKind::User) => {}
        other => panic!("expected a fetch directive, got {:?}", other),
    }
}

#[test]
fn test_response_extraction() {
    let item = ItemResponse::default();
    match item_from_response(CacheItemType::Item(item)) {
        Ok(it) => assert_eq!(it.id, 0),
        Err(_) => panic!("an item payload must extract"),
    }
    match item_from_response(CacheItemType::Story(vec![1])) {
        Err(e) => assert_eq!(e, FetchError::Serialize),
        Ok(_) => panic!("a list payload is the wrong shape for an item"),
    }
    match stories_from_response(CacheItemType::Story(vec![8863, 8864])) {
        Ok(ids) => assert_eq!(ids, vec![8863, 8864]),
        Err(_) => panic!("a list payload must extract"),
    }
    match stories_from_response(CacheItemType::User(test_user())) {
        Err(e) => assert_eq!(e, FetchError::Serialize),
        Ok(_) => panic!("a user payload is the wrong shape for a list"),
    }
    match user_from_response(CacheItemType::User(test_user())) {
        Ok(u) => assert_eq!(u.id, "test_user"),
        Err(_) => panic!("a user payload must extract"),
    }
    match user_from_response(CacheItemType::Item(ItemResponse::default())) {
        Err(e) => assert_eq!(e, FetchError::Serialize),
        Ok(_) => panic!("an item payload is the wrong shape for a user"),
    }
}
