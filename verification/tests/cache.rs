use dashmap::DashMap;
use tower_cache::cache::{Cache, CopyCache, SendLinearMap};
use tower_cache::key::CacheKey;

fn key(method: &str, uri: &str) -> CacheKey {
    CacheKey { method: method.parse().unwrap(), uri: uri.parse().unwrap() }
}

#[test]
fn linear_map_starts_empty() {
    let map: SendLinearMap<u64, &str> = SendLinearMap::default();
    assert_eq!(map.get(&0), None);
    let map: SendLinearMap<u64, u64> = Cache::empty();
    assert_eq!(Cache::get(&map, &0), None);
}

#[test]
fn linear_map_finds_what_was_inserted() {
    let mut map = SendLinearMap::default();
    map.insert_if_not_exists(1u64, "one");
    map.insert_if_not_exists(2, "two");
    assert_eq!(map.get(&1), Some(&"one"));
    assert_eq!(map.get(&2), Some(&"two"));
    assert_eq!(map.get(&3), None);
}

#[test]
fn linear_map_first_insertion_stays() {
    let mut map = SendLinearMap::default();
    map.insert_if_not_exists(1u64, "first");
    map.insert_if_not_exists(1, "second");
    assert_eq!(map.get(&1), Some(&"first"));
    assert_eq!(map.remove(&1), Some("first"));
    assert_eq!(map.remove(&1), None);
}

#[test]
fn linear_map_writes_through_get_mut() {
    let mut map = SendLinearMap::default();
    map.insert_if_not_exists(1u64, 10u64);
    map.insert_if_not_exists(2, 20);
    *map.get_mut(&1).unwrap() = 11;
    assert!(map.get_mut(&3).is_none());
    assert_eq!(map.get(&1), Some(&11));
    assert_eq!(map.get(&2), Some(&20));
}

#[test]
fn linear_map_remove_undoes_insert() {
    let mut map = SendLinearMap::default();
    map.insert_if_not_exists(1u64, 'a');
    map.insert_if_not_exists(2, 'b');
    map.insert_if_not_exists(3, 'c');
    assert_eq!(map.remove(&3), Some('c'));
    assert_eq!(map.remove(&1), Some('a'));
    assert_eq!(map.get(&1), None);
    assert_eq!(map.get(&2), Some(&'b'));
    assert_eq!(map.get(&3), None);
    assert_eq!(map.remove(&4), None);
}

#[test]
fn linear_map_as_cache() {
    let mut map: SendLinearMap<u64, u64> = Cache::empty();
    Cache::insert_if_not_exists(&mut map, 7, 70);
    Cache::insert_if_not_exists(&mut map, 7, 71);
    assert_eq!(Cache::get(&map, &7), Some(70));
    assert!(Cache::set(&mut map, &7, 72));
    assert!(!Cache::set(&mut map, &8, 80));
    assert_eq!(Cache::get(&map, &7), Some(72));
    assert_eq!(Cache::get(&map, &8), None);
    assert_eq!(Cache::remove(&mut map, &7), Some(72));
    assert_eq!(Cache::remove(&mut map, &7), None);
}

#[test]
fn dash_map_as_cache() {
    let mut map: DashMap<CacheKey, usize> = Cache::empty();
    let a = key("GET", "/a");
    let b = key("POST", "/a");
    assert_eq!(Cache::get(&map, &a), None);
    Cache::insert_if_not_exists(&mut map, a.clone(), 1);
    Cache::insert_if_not_exists(&mut map, a.clone(), 2);
    assert_eq!(Cache::get(&map, &a), Some(1));
    assert_eq!(Cache::get(&map, &b), None);
    assert!(Cache::set(&mut map, &a, 5));
    assert!(!Cache::set(&mut map, &b, 6));
    assert_eq!(Cache::get(&map, &a), Some(5));
    assert_eq!(Cache::get(&map, &b), None);
    assert_eq!(Cache::remove(&mut map, &b), None);
    assert_eq!(Cache::remove(&mut map, &a), Some(5));
    assert_eq!(Cache::get(&map, &a), None);
}

#[test]
fn equal_keys_find_the_same_value() {
    let written = key("GET", "http://example.com/x?y=1");
    let asked = key("GET", "HTTP://EXAMPLE.com/x?y=1");
    assert_eq!(written, asked);
    let mut linear: SendLinearMap<CacheKey, usize> = Cache::empty();
    let mut dash: DashMap<CacheKey, usize> = Cache::empty();
    Cache::insert_if_not_exists(&mut linear, written.clone(), 3);
    Cache::insert_if_not_exists(&mut dash, written, 3);
    assert_eq!(Cache::get(&linear, &asked), Some(3));
    assert_eq!(Cache::get(&dash, &asked), Some(3));
    let other = key("GET", "http://example.com/X?y=1");
    assert_eq!(Cache::get(&linear, &other), None);
    assert_eq!(Cache::get(&dash, &other), None);
}

#[test]
fn keys_differ_in_method_or_uri() {
    let a = key("GET", "/a");
    assert_eq!(a, a.clone());
    assert_ne!(a, key("PUT", "/a"));
    assert_ne!(a, key("GET", "/b"));
    assert_ne!(a, key("GET", "/a?b"));
}

#[test]
fn copy_of_a_dash_map_goes_its_own_way() {
    let mut map: DashMap<CacheKey, usize> = Cache::empty();
    Cache::insert_if_not_exists(&mut map, key("GET", "/a"), 1);
    let mut copy = map.duplicate();
    assert_eq!(Cache::get(&copy, &key("GET", "/a")), Some(1));
    assert_eq!(Cache::get(&copy, &key("GET", "/b")), None);
    Cache::insert_if_not_exists(&mut copy, key("GET", "/b"), 2);
    assert_eq!(Cache::remove(&mut map, &key("GET", "/a")), Some(1));
    assert_eq!(Cache::get(&map, &key("GET", "/b")), None);
    assert_eq!(Cache::get(&copy, &key("GET", "/a")), Some(1));
}

struct Recorded {
    id: u64,
    compared: std::rc::Rc<std::cell::RefCell<Vec<(u64, u64)>>>,
}

impl PartialEq for Recorded {
    fn eq(&self, other: &Recorded) -> bool {
        self.compared.borrow_mut().push((self.id, other.id));
        self.id == other.id
    }
}

impl Eq for Recorded {}

#[test]
fn an_insertion_compares_the_new_key_with_those_stored() {
    let compared = std::rc::Rc::new(std::cell::RefCell::new(Vec::new()));
    let of = |id: u64| Recorded { id, compared: compared.clone() };
    let mut map = SendLinearMap::default();
    map.insert_if_not_exists(of(1), 'a');
    map.insert_if_not_exists(of(2), 'b');
    assert_eq!(compared.take(), vec![(2, 1)]);
    map.insert_if_not_exists(of(1), 'c');
    assert_eq!(compared.take(), vec![(1, 1)]);
    assert_eq!(map.get(&of(2)), Some(&'b'));
    assert_eq!(compared.take(), vec![(1, 2), (2, 2)]);
}
