use tower_cache::invalidator::Invalidator;
use tower_cache::key::CacheKey;

fn key(method: &str, uri: &str) -> CacheKey {
    CacheKey { method: method.parse().unwrap(), uri: uri.parse().unwrap() }
}

fn three() -> Invalidator {
    let mut invalidator = Invalidator::default();
    assert_eq!(invalidator.len(), 0);
    assert_eq!(invalidator.insert(key("GET", "/a")), 0);
    assert_eq!(invalidator.insert(key("POST", "/a")), 1);
    assert_eq!(invalidator.insert(key("GET", "/b")), 2);
    assert_eq!(invalidator.len(), 3);
    invalidator
}

fn flags(invalidator: &Invalidator) -> Vec<bool> {
    (0..invalidator.len()).map(|i| invalidator.is_valid(i)).collect()
}

#[test]
fn inserted_keys_are_valid() {
    assert_eq!(flags(&three()), vec![true, true, true]);
}

#[test]
fn invalidate_hits_one_key() {
    let mut invalidator = three();
    invalidator.invalidate(&key("POST", "/a"));
    assert_eq!(flags(&invalidator), vec![true, false, true]);
    invalidator.invalidate(&key("DELETE", "/a"));
    assert_eq!(flags(&invalidator), vec![true, false, true]);
}

#[test]
fn invalidate_hits_every_entry_of_the_key() {
    let mut invalidator = three();
    assert_eq!(invalidator.insert(key("GET", "/a")), 3);
    invalidator.invalidate(&key("GET", "/a"));
    assert_eq!(flags(&invalidator), vec![false, true, true, false]);
}

#[test]
fn invalidate_all_for_hits_every_method() {
    let mut invalidator = three();
    invalidator.invalidate_all_for(&"/a".parse().unwrap());
    assert_eq!(flags(&invalidator), vec![false, false, true]);
}

#[test]
fn invalidate_all_for_matches_exactly() {
    let mut invalidator = three();
    invalidator.insert(key("GET", "/a/deeper"));
    invalidator.insert(key("GET", "/a?q=1"));
    invalidator.invalidate_all_for(&"/a".parse().unwrap());
    assert_eq!(flags(&invalidator), vec![false, false, true, true, true]);
}

#[test]
fn invalidate_with_predicate() {
    let mut invalidator = three();
    invalidator.insert(key("GET", "/a/deeper"));
    invalidator.invalidate_all_with_pred(|k| k.uri.path().starts_with("/a") && k.method == "GET");
    assert_eq!(flags(&invalidator), vec![false, true, true, false]);
}

#[test]
fn invalidating_twice_is_invalidating_once() {
    let mut invalidator = three();
    invalidator.invalidate(&key("GET", "/b"));
    invalidator.invalidate(&key("GET", "/b"));
    assert_eq!(flags(&invalidator), vec![true, true, false]);
}

#[test]
fn order_of_invalidations_does_not_matter() {
    let mut one = three();
    one.invalidate(&key("GET", "/b"));
    one.invalidate_all_for(&"/a".parse().unwrap());
    let mut other = three();
    other.invalidate_all_for(&"/a".parse().unwrap());
    other.invalidate(&key("GET", "/b"));
    assert_eq!(flags(&one), vec![false, false, false]);
    assert_eq!(flags(&one), flags(&other));
}

#[test]
fn flags_can_be_set_again() {
    let mut invalidator = three();
    invalidator.set_valid(0, false);
    assert_eq!(flags(&invalidator), vec![false, true, true]);
    invalidator.set_valid(0, true);
    assert_eq!(flags(&invalidator), vec![true, true, true]);
}

#[test]
fn many_flags() {
    let mut invalidator = Invalidator::default();
    for i in 0..100 {
        let uri = format!("/{}", i);
        assert_eq!(invalidator.insert(key("GET", &uri)), i);
    }
    invalidator.invalidate(&key("GET", "/63"));
    for i in 0..100 {
        assert_eq!(invalidator.is_valid(i), i != 63);
    }
}
