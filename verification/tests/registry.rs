use moonbeam_node::registry::{Registry, FILTER_RETAIN_THRESHOLD, TRANSACTION_RETAIN_THRESHOLD};

#[test]
fn eviction_keeps_exactly_the_young_entries() {
    let mut pool = Registry::new(FILTER_RETAIN_THRESHOLD);
    pool.insert(1, 0);
    pool.insert(2, 1);
    pool.insert(3, 50);
    pool.insert(4, 101);

    pool.evict_pass(101);

    // age 101 exceeds the threshold; ages 100, 51 and 0 do not
    assert_eq!(pool.get(1), None);
    assert_eq!(pool.get(2), Some(1));
    assert_eq!(pool.get(3), Some(50));
    assert_eq!(pool.get(4), Some(101));
    assert_eq!(pool.len(), 3);
}

#[test]
fn eviction_is_idempotent() {
    let mut pool = Registry::new(FILTER_RETAIN_THRESHOLD);
    pool.insert(10, 0);
    pool.insert(11, 60);
    pool.insert(12, 140);

    pool.evict_pass(141);
    let after_once: Vec<Option<u64>> = vec![pool.get(10), pool.get(11), pool.get(12)];
    let len_once = pool.len();

    pool.evict_pass(141);
    assert_eq!(vec![pool.get(10), pool.get(11), pool.get(12)], after_once);
    assert_eq!(pool.len(), len_once);
    assert_eq!(pool.get(10), None);
    assert_eq!(pool.get(11), Some(60));
    assert_eq!(pool.get(12), Some(140));
}

#[test]
fn pending_transactions_age_out_after_five_blocks() {
    let mut cache = Registry::new(TRANSACTION_RETAIN_THRESHOLD);
    cache.insert(7, 10);

    cache.evict_pass(15);
    assert_eq!(cache.get(7), Some(10)); // age 5: still within the threshold

    cache.evict_pass(16);
    assert_eq!(cache.get(7), None); // age 6: evicted
}

#[test]
fn insert_replaces_an_existing_entry() {
    let mut cache = Registry::new(TRANSACTION_RETAIN_THRESHOLD);
    cache.insert(9, 1);
    cache.insert(9, 20);
    assert_eq!(cache.len(), 1);
    assert_eq!(cache.get(9), Some(20));

    // the refreshed creation height is what eviction sees
    cache.evict_pass(10);
    assert_eq!(cache.get(9), Some(20));
}

#[test]
fn eviction_on_an_empty_registry_is_a_no_op() {
    let mut pool = Registry::new(FILTER_RETAIN_THRESHOLD);
    pool.evict_pass(0);
    pool.evict_pass(u64::MAX);
    assert_eq!(pool.len(), 0);
    assert_eq!(pool.get(0), None);
}

#[test]
fn eviction_handles_extreme_heights() {
    let mut pool = Registry::new(FILTER_RETAIN_THRESHOLD);
    pool.insert(1, u64::MAX);
    pool.insert(2, 0);

    // an entry created above the pass height is not yet old
    pool.evict_pass(50);
    assert_eq!(pool.get(1), Some(u64::MAX));
    assert_eq!(pool.get(2), Some(0));

    pool.evict_pass(u64::MAX);
    assert_eq!(pool.get(1), Some(u64::MAX));
    assert_eq!(pool.get(2), None);
}

#[test]
fn thresholds_match_the_node_configuration() {
    assert_eq!(FILTER_RETAIN_THRESHOLD, 100);
    assert_eq!(TRANSACTION_RETAIN_THRESHOLD, 5);
}
