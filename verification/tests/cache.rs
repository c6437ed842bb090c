use linkerd2_proxy::cache::{Cache, NoCapacity, Service};
use linkerd2_proxy::errors::{ErrorKind, Synthesis};

#[test]
fn capacity_one_refuses_second_key_until_first_is_evicted() {
    let make = |key: u64| key * 10;
    let mut cache = Service::new(make, 1, 100);
    assert_eq!(cache.call(1, 0), Ok(10));
    assert_eq!(cache.call(2, 1), Err(NoCapacity(1)));
    cache.release(&1);
    assert_eq!(cache.purge(50), 0);
    assert_eq!(cache.call(2, 51), Err(NoCapacity(1)));
    assert_eq!(cache.purge(101), 1);
    assert_eq!(cache.call(2, 102), Ok(20));
    assert_eq!(cache.table().len(), 1);
}

#[test]
fn no_capacity_is_surfaced_as_bad_gateway() {
    let make = |key: u64| key;
    let mut cache = Service::new(make, 0, 100);
    let err = cache.call(7, 0).unwrap_err();
    assert_eq!(err.capacity(), 0);
    let kind = ErrorKind::from_no_capacity(err);
    assert_eq!(kind.synthesize(), Synthesis::Respond(502));
}

#[test]
fn cache_never_holds_more_than_its_capacity() {
    let make = |key: u64| key;
    let mut cache = Service::new(make, 3, 10);
    let mut refused = 0;
    for key in 0..10u64 {
        if cache.call(key, key).is_err() {
            refused += 1;
        }
        assert!(cache.table().len() <= 3);
    }
    assert_eq!(refused, 7);
    assert_eq!(cache.table().len(), 3);
}

#[test]
fn same_key_gives_the_same_service_while_resident() {
    let make = |key: u64| vec![key, key + 1];
    let mut cache = Service::new(make, 2, 10);
    let first = cache.call(5, 0).unwrap();
    let other = cache.call(6, 1).unwrap();
    let second = cache.call(5, 2).unwrap();
    assert_eq!(first, second);
    assert_eq!(first, vec![5, 6]);
    assert_eq!(other, vec![6, 7]);
    assert_eq!(cache.table().len(), 2);
}

#[test]
fn purge_keeps_what_is_referenced_or_fresh() {
    let mut cache: Cache<u64, &'static str> = Cache::new(4, 10);
    cache.insert(1, "held", 0);
    cache.insert(2, "idle", 0);
    cache.insert(3, "fresh", 95);
    cache.release(&2);
    cache.release(&3);
    // Key 1 has a handle out; key 2 is unreferenced since 0; key 3 since 95.
    assert_eq!(cache.purge(100), 1);
    assert!(cache.contains(&1));
    assert!(!cache.contains(&2));
    assert!(cache.contains(&3));
    // An entry is evictable only when it is older than the idle age.
    assert_eq!(cache.purge(105), 0);
    assert_eq!(cache.purge(106), 1);
    assert!(!cache.contains(&3));
    assert_eq!(cache.len(), 1);
}

#[test]
fn access_refreshes_last_access_and_counts_a_handle() {
    let mut cache: Cache<u64, u64> = Cache::new(2, 10);
    cache.insert(1, 11, 0);
    cache.release(&1);
    assert_eq!(cache.access(&1, 50), Some(11));
    assert_eq!(cache.access(&9, 50), None);
    cache.release(&1);
    assert_eq!(cache.purge(60), 0);
    assert_eq!(cache.purge(61), 1);
    assert!(cache.can_insert());
    assert_eq!(cache.capacity(), 2);
    assert_eq!(cache.max_idle_age(), 10);
}
