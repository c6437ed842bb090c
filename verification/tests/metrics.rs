use linkerd2_proxy::http_metrics::{LastUpdate, Registry, RequestMetrics, RetryMetrics};

#[derive(Clone, Debug, Hash, Eq, PartialEq)]
struct Target(usize);

#[test]
fn lib_expiry() {
    let mut registry: Registry<Target, RequestMetrics> = Registry::new();

    let before_update = 1_000;
    let metrics = registry.register(Target(123), RequestMetrics::new(1_001));
    assert_eq!(registry.len(), 1, "target should be registered");
    let after_update = 1_002;

    registry.retain_since(after_update);
    assert_eq!(registry.len(), 1, "target should not be evicted by time alone");

    let _ = metrics;
    registry.release(&Target(123));
    registry.retain_since(before_update);
    assert_eq!(
        registry.len(),
        1,
        "target should not be evicted by availability alone"
    );

    registry.retain_since(after_update);
    assert_eq!(
        registry.len(),
        0,
        "target should be evicted by time once the handle is dropped"
    );
}

#[test]
fn mod_expiry() {
    let mut registry: Registry<Target, RetryMetrics> = Registry::new();

    let before_update = 1_000;
    let metrics = registry.register(Target(123), RetryMetrics::new(1_001));
    assert_eq!(registry.len(), 1, "target should be registered");
    let after_update = 1_002;

    registry.retain_since(after_update);
    assert_eq!(registry.len(), 1, "target should not be evicted by time alone");

    let _ = metrics;
    registry.release(&Target(123));
    registry.retain_since(before_update);
    assert_eq!(
        registry.len(),
        1,
        "target should not be evicted by availability alone"
    );

    registry.retain_since(after_update);
    assert_eq!(
        registry.len(),
        0,
        "target should be evicted by time once the handle is dropped"
    );
}

#[test]
fn registry_keeps_order_and_counts_handles() {
    let mut registry: Registry<Target, RequestMetrics> = Registry::new();
    assert!(registry.is_empty());
    assert_eq!(registry.register(Target(1), RequestMetrics::new(0)), 0);
    assert_eq!(registry.register(Target(2), RequestMetrics::new(5)), 1);
    assert_eq!(registry.register(Target(3), RequestMetrics::new(9)), 2);
    // A second handle to the first target; the metrics given are dropped.
    assert_eq!(registry.register(Target(1), RequestMetrics::new(7)), 0);
    assert_eq!(registry.get(0).map(|e| (e.handles, e.metrics.last_update)), Some((2, 0)));
    assert_eq!(registry.find(&Target(3)), Some(2));
    assert_eq!(registry.find(&Target(4)), None);
    registry.release(&Target(2));
    registry.release(&Target(3));
    registry.release(&Target(4));
    // Target 2 is idle since 5, target 3 since 9; an update at the epoch stays.
    registry.retain_since(9);
    assert_eq!(registry.len(), 2);
    assert_eq!(registry.get(0).map(|e| e.target.clone()), Some(Target(1)));
    assert_eq!(registry.get(1).map(|e| e.target.clone()), Some(Target(3)));
    assert!(registry.get(2).is_none());
    registry.release(&Target(1));
    registry.retain_since(10);
    assert_eq!(registry.len(), 1);
    registry.release(&Target(1));
    registry.release(&Target(1));
    registry.retain_since(10);
    assert!(registry.is_empty());
}

#[test]
fn request_metrics_count_by_class() {
    let mut metrics = RequestMetrics::new(3);
    assert_eq!(metrics.last_update(), 3);
    metrics.incr_request(4);
    metrics.incr_request(5);
    metrics.incr_response(false, 6);
    metrics.incr_response(true, 7);
    metrics.incr_response(true, 8);
    assert_eq!(metrics.total, 2);
    assert_eq!(metrics.success.total, 1);
    assert_eq!(metrics.failure.total, 2);
    assert_eq!(metrics.last_update(), 8);
    metrics.total = u64::MAX;
    metrics.incr_request(9);
    assert_eq!(metrics.total, u64::MAX);
    let mut retries = RetryMetrics::new(1);
    retries.incr_skipped_body(2);
    assert_eq!(retries.skipped_body, 1);
    assert_eq!(retries.last_update(), 2);
}
