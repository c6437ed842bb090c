use linkerd2_proxy::addr::{Addr, NameAddr};
use linkerd2_proxy::classify::{ResponseClass, ResponseInfo, ResponseMatch};
use linkerd2_proxy::dst;
use linkerd2_proxy::http_metrics::RetryMetrics;
use linkerd2_proxy::metric_labels::Direction;
use linkerd2_proxy::proxy::http::profiles::Route;
use linkerd2_proxy::proxy::http::retry::{
    Decision, NoRetry, Policy, Retry as TargetRetry, Stats, TryClone,
};
use linkerd2_proxy::proxy::http::settings::Version;
use linkerd2_proxy::proxy::http::{Extensions, Request, Response, Tracker};
use linkerd2_proxy::retry::{NewPolicy, Next, Retry};
use linkerd2_proxy::route_retry::{decide, CloneRequest, NewRetry, Retryability};
use linkerd2_proxy::transport::{Addrs, Meta, PeerIdentity, ReasonForNoIdentity};
use linkerd2_proxy::addr::{IpAddr, SocketAddr};
use std::sync::Arc;
use std::time::Duration;
use tower::retry::budget::Budget;

#[derive(Clone, Debug, PartialEq)]
struct Body(&'static str);

impl TryClone for Body {
    fn try_clone(&self) -> Option<Self> {
        Some(self.clone())
    }
}

#[derive(Debug, PartialEq)]
struct Stream;

impl TryClone for Stream {
    fn try_clone(&self) -> Option<Self> {
        None
    }
}

struct ByTryClone;

impl<B: TryClone> CloneRequest<Request<B>> for ByTryClone {
    fn clone_request(req: &Request<B>) -> Option<Request<B>> {
        req.try_clone()
    }
}

fn request<B>(body: B) -> Request<B> {
    Request {
        method: "GET".to_string(),
        uri: "/users".to_string(),
        version: Version::Http11,
        headers: vec![("host".to_string(), "web".to_string())],
        extensions: Extensions::new(),
        body,
    }
}

fn response(status: u16) -> Response<()> {
    Response {
        status,
        grpc_status: None,
        trailer_grpc_status: None,
        body: (),
    }
}

fn retryable_route(budget: Arc<Budget>) -> dst::Route {
    let classes = vec![ResponseClass::new(
        true,
        ResponseMatch::Status { min: 500, max: 599 },
    )];
    let mut route = Route::new(vec![], classes);
    route.set_retries(budget);
    dst::Route::new(
        Addr::Name(NameAddr::new("web".to_string(), 80)),
        route,
        Direction::Out,
    )
}

/// Sends a request through a retrying proxy to an upstream that answers with
/// the given statuses in turn. Returns the attempts made and the final status.
fn exchange<B: TryClone>(
    proxy: &Retry<linkerd2_proxy::route_retry::Retry<ByTryClone>, ()>,
    body: B,
    upstream: &mut Vec<u16>,
    metrics: &mut RetryMetrics,
) -> (usize, u16) {
    let req = request(body);
    let mut future = proxy.proxy::<Request<B>, Response<()>, ()>(&req);
    metrics.observe(&future, 0);
    let mut attempts = 0;
    let mut sent = req;
    loop {
        let _ = &sent;
        attempts += 1;
        let status = upstream.remove(0);
        match future.response(Ok::<_, ()>(response(status))) {
            Next::Return(result) => return (attempts, result.unwrap().status),
            Next::Retry(again) => {
                metrics.incr_retryable(Retryability::Retryable, 0);
                sent = again;
            }
        }
    }
}

#[test]
fn failure_is_retried_once_within_the_budget() {
    let budget = Arc::new(Budget::new(Duration::from_secs(10), 10, 0.1));
    let route = retryable_route(budget);
    let policy = NewRetry::<ByTryClone>::new().new_policy(&route);
    assert!(policy.is_some());
    let proxy = Retry { policy, inner: () };
    let mut upstream = vec![503, 200, 200];
    let mut metrics = RetryMetrics::new(0);
    assert_eq!(exchange(&proxy, Body("a"), &mut upstream, &mut metrics), (2, 200));
    assert_eq!(exchange(&proxy, Body("b"), &mut upstream, &mut metrics), (1, 200));
    assert!(upstream.is_empty());
    assert_eq!(metrics.retryable, 1);
    assert_eq!(metrics.skipped_budget, 0);
    assert_eq!(metrics.skipped_body, 0);
}

#[test]
fn retry_is_not_retried() {
    let budget = Arc::new(Budget::new(Duration::from_secs(10), 10, 0.1));
    let route = retryable_route(budget);
    let proxy = Retry {
        policy: NewRetry::<ByTryClone>::new().new_policy(&route),
        inner: (),
    };
    let mut upstream = vec![503, 500, 200];
    let mut metrics = RetryMetrics::new(0);
    assert_eq!(exchange(&proxy, Body("a"), &mut upstream, &mut metrics), (2, 500));
    assert_eq!(upstream, vec![200]);
}

#[test]
fn request_that_cannot_be_cloned_is_not_retried() {
    let budget = Arc::new(Budget::new(Duration::from_secs(10), 10, 0.1));
    let route = retryable_route(budget);
    let proxy = Retry {
        policy: NewRetry::<ByTryClone>::new().new_policy(&route),
        inner: (),
    };
    let mut upstream = vec![500];
    let mut metrics = RetryMetrics::new(0);
    assert_eq!(exchange(&proxy, Stream, &mut upstream, &mut metrics), (1, 500));
    assert_eq!(metrics.skipped_body, 1);
    assert_eq!(metrics.retryable, 0);
}

#[test]
fn route_without_retries_has_no_policy() {
    let route = dst::Route::new(
        Addr::Name(NameAddr::new("web".to_string(), 80)),
        Route::empty(),
        Direction::Out,
    );
    let policy = NewRetry::<ByTryClone>::new().new_policy(&route);
    assert!(policy.is_none());
    let proxy = Retry { policy, inner: () };
    let mut upstream = vec![503];
    let mut metrics = RetryMetrics::new(0);
    assert_eq!(exchange(&proxy, Body("a"), &mut upstream, &mut metrics), (1, 503));
    assert_eq!(metrics, RetryMetrics::new(0));
}

#[test]
fn empty_budget_is_exhausted() {
    // No reserve and no credit for deposits: nothing can be withdrawn.
    let budget = Arc::new(Budget::new(Duration::from_secs(1), 0, 0.0));
    let route = retryable_route(budget);
    let policy = NewRetry::<ByTryClone>::new().new_policy(&route).unwrap();
    let failure = ResponseInfo {
        status: 503,
        grpc_status: None,
        trailer_grpc_status: None,
    };
    let success = ResponseInfo {
        status: 200,
        grpc_status: None,
        trailer_grpc_status: None,
    };
    assert!(policy.is_retryable(Some(failure)));
    assert!(!policy.is_retryable(Some(success)));
    assert!(!policy.is_retryable(None));
    assert_eq!(policy.retry(Some(success)), Retryability::NotRetryable);
    assert_eq!(policy.retry(None), Retryability::NotRetryable);
    assert_eq!(policy.retry(Some(failure)), Retryability::Exhausted);
    let mut metrics = RetryMetrics::new(0);
    metrics.incr_retryable(Retryability::Exhausted, 4);
    metrics.incr_retryable(Retryability::NotRetryable, 5);
    assert_eq!(metrics.skipped_budget, 1);
    assert_eq!(metrics.last_update, 4);
}

#[test]
fn budget_with_reserve_gives_retries_until_it_is_spent() {
    // A reserve of one retry per second over one second, and no credit.
    let budget = Arc::new(Budget::new(Duration::from_secs(1), 1, 0.0));
    let route = retryable_route(budget);
    let policy = NewRetry::<ByTryClone>::new().new_policy(&route).unwrap();
    let failure = ResponseInfo {
        status: 500,
        grpc_status: None,
        trailer_grpc_status: None,
    };
    assert_eq!(policy.retry(Some(failure)), Retryability::Retryable);
    assert_eq!(policy.clone().retry(Some(failure)), Retryability::Exhausted);
}

#[test]
fn decision_follows_failure_and_budget() {
    assert_eq!(decide(false, false), Retryability::NotRetryable);
    assert_eq!(decide(false, true), Retryability::NotRetryable);
    assert_eq!(decide(true, true), Retryability::Retryable);
    assert_eq!(decide(true, false), Retryability::Exhausted);
}

#[test]
fn clone_keeps_head_and_whitelisted_extensions() {
    let accepted = Meta::new(
        Addrs {
            local: SocketAddr::new(IpAddr::V4(0x0a00_0001), 4140),
            peer: SocketAddr::new(IpAddr::V4(0x0a00_0002), 50000),
            orig_dst: None,
        },
        PeerIdentity::Unknown(ReasonForNoIdentity::Disabled),
    );
    let mut req = request(Body("payload"));
    req.extensions.accepted = Some(accepted);
    req.extensions.handle_time = Some(Tracker { began: 17 });
    req.extensions.canonical_dst = Some("web.ns.svc.cluster.local".to_string());
    req.extensions.route = Some(dst::Route::new(
        Addr::Socket(SocketAddr::loopback(80)),
        Route::empty(),
        Direction::In,
    ));
    let clone = req.try_clone().expect("the body can be cloned");
    assert_eq!(clone.method, "GET");
    assert_eq!(clone.uri, "/users");
    assert_eq!(clone.version, Version::Http11);
    assert_eq!(clone.headers, req.headers);
    assert_eq!(clone.body, Body("payload"));
    assert_eq!(clone.extensions.handle_time, Some(Tracker { began: 17 }));
    let meta = clone.extensions.accepted.expect("the connection is kept");
    assert_eq!(meta.addrs.peer.port, 50000);
    assert!(clone.extensions.canonical_dst.is_none());
    assert!(clone.extensions.route.is_none());
    assert!(clone.extensions.classify.is_none());
    assert!(request(Stream).try_clone().is_none());
    // A request that changed protocols between proxies is not cloned.
    let mut upgraded = request(Body("payload"));
    upgraded.extensions.orig_proto = Some(Version::Http11);
    assert!(upgraded.try_clone().is_none());
}

#[derive(Clone)]
struct OnServerError {
    budget_left: bool,
}

impl TargetRetry for OnServerError {
    fn retry<B1, B2>(&self, _req: &Request<B1>, res: &Response<B2>) -> Result<(), NoRetry> {
        if res.status < 500 {
            Err(NoRetry::Success)
        } else if self.budget_left {
            Ok(())
        } else {
            Err(NoRetry::Budget)
        }
    }
}

#[derive(Clone)]
struct Skipped(std::rc::Rc<std::cell::Cell<usize>>);

impl Stats for Skipped {
    fn incr_retry_skipped_budget(&self) {
        self.0.set(self.0.get() + 1);
    }
}

#[test]
fn policy_counts_retries_skipped_for_budget() {
    let skipped = std::rc::Rc::new(std::cell::Cell::new(0));
    let req = request(Body("a"));
    let rich = Policy(OnServerError { budget_left: true }, Skipped(skipped.clone()));
    assert_eq!(
        rich.retry::<_, _, ()>(&req, Ok(&response(503))),
        Decision::Retry
    );
    assert_eq!(
        rich.retry::<_, _, ()>(&req, Ok(&response(200))),
        Decision::NoRetry
    );
    assert_eq!(
        rich.retry::<Body, (), ()>(&req, Err(&())),
        Decision::NoRetry
    );
    assert_eq!(skipped.get(), 0);
    let poor = Policy(OnServerError { budget_left: false }, Skipped(skipped.clone()));
    assert_eq!(
        poor.retry::<_, _, ()>(&req, Ok(&response(503))),
        Decision::SkippedBudget
    );
    assert_eq!(skipped.get(), 1);
    assert!(poor.clone_request(&req).is_some());
}

#[test]
fn decision_is_counted_with_the_policy() {
    let failure = ResponseInfo {
        status: 503,
        grpc_status: None,
        trailer_grpc_status: None,
    };
    let success = ResponseInfo {
        status: 200,
        grpc_status: None,
        trailer_grpc_status: None,
    };
    // A budget with a reserve gives a retry; one without gives none.
    let reserve = Arc::new(Budget::new(Duration::from_secs(10), 10, 0.1));
    let policy = NewRetry::<ByTryClone>::new()
        .new_policy(&retryable_route(reserve))
        .unwrap();
    let mut metrics = RetryMetrics::new(0);
    assert_eq!(
        policy.retry_counted(Some(failure), &mut metrics, 3),
        Retryability::Retryable
    );
    assert_eq!(
        policy.retry_counted(Some(success), &mut metrics, 4),
        Retryability::NotRetryable
    );
    assert_eq!(
        metrics,
        RetryMetrics {
            last_update: 3,
            retryable: 1,
            skipped_budget: 0,
            skipped_body: 0
        }
    );
    let empty = Arc::new(Budget::new(Duration::from_secs(1), 0, 0.0));
    let policy = NewRetry::<ByTryClone>::new()
        .new_policy(&retryable_route(empty))
        .unwrap();
    assert_eq!(
        policy.retry_counted(Some(failure), &mut metrics, 7),
        Retryability::Exhausted
    );
    assert_eq!(
        metrics,
        RetryMetrics {
            last_update: 7,
            retryable: 1,
            skipped_budget: 1,
            skipped_body: 0
        }
    );
}

#[test]
fn only_a_request_that_cannot_be_cloned_is_counted_as_skipped() {
    let budget = Arc::new(Budget::new(Duration::from_secs(10), 10, 0.1));
    let route = retryable_route(budget);
    let with_policy = Retry {
        policy: NewRetry::<ByTryClone>::new().new_policy(&route),
        inner: (),
    };
    let without: Retry<linkerd2_proxy::route_retry::Retry<ByTryClone>, ()> = Retry {
        policy: None,
        inner: (),
    };
    let mut metrics = RetryMetrics::new(0);
    let future = with_policy.proxy::<Request<Body>, Response<()>, ()>(&request(Body("a")));
    metrics.observe(&future, 1);
    assert_eq!(metrics.skipped_body, 0);
    let future = without.proxy::<Request<Stream>, Response<()>, ()>(&request(Stream));
    metrics.observe(&future, 2);
    assert_eq!(metrics.skipped_body, 0);
    assert_eq!(metrics.last_update, 0);
    let future = with_policy.proxy::<Request<Stream>, Response<()>, ()>(&request(Stream));
    metrics.observe(&future, 3);
    assert_eq!(metrics.skipped_body, 1);
    assert_eq!(metrics.last_update, 3);
}
