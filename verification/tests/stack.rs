use linkerd2_proxy::buffer::queue::{PushFuture, Wake};
use linkerd2_proxy::buffer::BufferFuture;
use linkerd2_proxy::cache::NoCapacity;
use linkerd2_proxy::concurrency_limit::{ConcurrencyLimit, Limited};
use linkerd2_proxy::errors::{ErrorKind, Synthesis};
use linkerd2_proxy::lock::{Layer as LockLayer, Lock, Locked, Poisoned, State, Step};
use linkerd2_proxy::poll::Async;
use linkerd2_proxy::router::{Key, NotRecognized, Router};
use linkerd2_proxy::stack::layer::{mk, Identity, Layer, Pair};
use linkerd2_proxy::stack::make::Make;
use linkerd2_proxy::stack::new_service::{into_make_service, NewService};
use linkerd2_proxy::stack::pending::Pending;
use linkerd2_proxy::stack::per_make;
use linkerd2_proxy::stack::proxy::{into_proxy, into_service, Proxy, Route};
use linkerd2_proxy::stack::ready::MakeReadyFuture;
use linkerd2_proxy::svc::load_shed::{Dispatch, LoadShed, Overloaded};
use linkerd2_proxy::svc::{layers, stack};
use linkerd2_proxy::timeout::ready::TimeoutReady;
use linkerd2_proxy::timeout::{Elapsed, Error as TimeoutError, Timeout, TimeoutLayer};

#[test]
fn pushing_two_layers_is_pushing_their_composition() {
    let double = || mk(|inner: u32| inner * 2);
    let label = || mk(|inner: u32| format!("svc-{}", inner));
    for inner in [0u32, 1, 21] {
        let one_by_one = stack(inner).push(double()).push(label()).into_inner();
        let composed = stack(inner)
            .push(Pair::new(double(), label()))
            .into_inner();
        let as_layers = stack(inner)
            .push(layers().push(double()).push(label()))
            .into_inner();
        assert_eq!(one_by_one, composed);
        assert_eq!(one_by_one, as_layers);
        assert_eq!(one_by_one, format!("svc-{}", inner * 2));
    }
}

#[test]
fn identity_changes_nothing() {
    assert_eq!(stack("svc").push(Identity::new()).into_inner(), "svc");
    assert_eq!(stack(5u8).push(layers()).into_inner(), 5);
    assert_eq!(mk(|x: u8| x + 1).layer(1), 2);
}

#[test]
fn per_make_applies_the_layer_to_each_service() {
    let make = |target: u32| target + 100;
    let wrapped = stack(make)
        .push_per_make(mk(|svc: u32| (svc, "limited")))
        .into_inner();
    assert_eq!(wrapped.make(1), (101, "limited"));
    assert_eq!(wrapped.make(2), (102, "limited"));
    let by_layers = layers().push(mk(|svc: u32| svc + 1)).per_make();
    let made = stack(make).push(by_layers).into_inner();
    assert_eq!(made.make(1), 102);
    let direct = per_make::layer(mk(|svc: u32| svc * 2)).layer(make);
    assert_eq!(direct.make(1), 202);
}

#[test]
fn stack_builders_wrap_the_inner() {
    assert_eq!(stack("s").push_pending().into_inner().inner, "s");
    assert_eq!(stack("s").push_ready::<()>().into_inner().inner, "s");
    assert_eq!(stack("s").push_spawn_ready().into_inner().inner, "s");
    let timed = stack("s").push_timeout(250).into_inner();
    assert_eq!((timed.inner, timed.timeout), ("s", 250));
    let ready = stack("s").push_ready_timeout(300).into_inner();
    assert_eq!((ready.inner, ready.timeout, ready.waiting_since), ("s", 300, None));
    let shed = stack("s").push_load_shed().into_inner();
    assert_eq!(shed.get_ref(), &"s");
    let limited = stack("s").push_concurrency_limit(3).into_inner();
    assert_eq!(limited.permits.capacity(), 3);
    assert_eq!(limited.permits.in_flight(), 0);
    assert_eq!(limited.service.get_ref(), &"s");
    let buffered = stack("s").push_buffer(4).into_inner();
    assert_eq!(buffered.service, "s");
    assert_eq!(buffered.queue.len(), 0);
    assert_eq!(buffered.queue.under_way(), 0);
    // The new buffer gave out no token yet: the first request gets the first.
    let mut queue = buffered.queue;
    let mut future = buffered.buffer.call(11);
    assert_eq!(buffered.buffer.poll(&mut future, &mut queue), Wake::Nobody);
    assert_eq!(
        future,
        BufferFuture::InFlight(PushFuture::Pending { token: 0 })
    );
    let mut future = buffered.buffer.call(12);
    assert_eq!(buffered.buffer.poll(&mut future, &mut queue), Wake::Nobody);
    assert_eq!(
        future,
        BufferFuture::InFlight(PushFuture::Pending { token: 1 })
    );
    assert_eq!(queue.len(), 2);
    let locked = stack("s").push_lock().into_inner();
    assert_eq!(locked.state.service(), Some(&"s"));
    let make = |target: u32| target + 1;
    let cached = stack(make).makes::<u32>().makes_clone::<u32>().spawn_cache(2, 10);
    let mut cached = cached.into_inner();
    assert_eq!(cached.call(1, 0), Ok(2));
    assert_eq!(stack(make).make(4), 5);
}

#[test]
fn load_shed_turns_not_ready_into_overloaded() {
    let mut shed = LoadShed::new(());
    // Called without the inner service having been ready: overloaded.
    assert_eq!(shed.call(), Dispatch::Overloaded);
    assert_eq!(shed.poll_ready::<()>(Ok(Async::NotReady)), Ok(Async::Ready(())));
    assert_eq!(shed.call(), Dispatch::Overloaded);
    assert_eq!(shed.poll_ready::<()>(Ok(Async::Ready(()))), Ok(Async::Ready(())));
    assert_eq!(shed.call(), Dispatch::Inner);
    // Readiness is spent by the call.
    assert_eq!(shed.call(), Dispatch::Overloaded);
    assert_eq!(shed.poll_ready(Err("broken")), Err("broken"));
    assert_eq!(
        ErrorKind::from_overloaded(Overloaded).synthesize(),
        Synthesis::Respond(503)
    );
}

#[test]
fn concurrency_limit_caps_the_requests_under_way() {
    let Limited {
        service: mut first,
        mut permits,
    } = linkerd2_proxy::concurrency_limit::Layer::new(1).layer("svc");
    let mut second: ConcurrencyLimit<&str> = first.duplicate();
    assert_eq!(first.poll_ready(&mut permits), Async::Ready(()));
    // Asking again does not take a second permit.
    assert_eq!(first.poll_ready(&mut permits), Async::Ready(()));
    assert_eq!(permits.in_flight(), 1);
    assert_eq!(second.poll_ready(&mut permits), Async::NotReady);
    assert!(!second.call());
    assert!(first.call());
    // The permit is out with the call until the call is done.
    assert_eq!(second.poll_ready(&mut permits), Async::NotReady);
    permits.release();
    assert_eq!(second.poll_ready(&mut permits), Async::Ready(()));
    assert!(second.call());
    assert_eq!(second.get_mut(), &mut "svc");
}

#[test]
fn lock_is_poisoned_by_a_failure() {
    let Locked {
        lock: mut first,
        mut state,
    }: Locked<&str, Poisoned> = LockLayer::new().layer("svc");
    let mut second: Lock<&str, Poisoned> = first.duplicate();
    assert_eq!(first.step(), Step::Acquire);
    assert!(first.acquired(&state).is_ok());
    assert_eq!(first.step(), Step::PollService);
    assert!(matches!(
        first.polled(&mut state, Ok(Async::NotReady)),
        Ok(Async::NotReady)
    ));
    assert_eq!(first.step(), Step::PollService);
    assert!(matches!(
        first.polled(&mut state, Ok(Async::Ready(()))),
        Ok(Async::Ready(()))
    ));
    assert!(first.call());
    assert!(!first.call());
    assert!(!state.is_poisoned());

    assert!(second.acquired(&state).is_ok());
    let failure = Poisoned::from("connection reset".to_string());
    let polled = second.polled(&mut state, Err(failure));
    assert_eq!(polled.unwrap_err().message(), "connection reset");
    assert_eq!(second.step(), Step::Acquire);
    assert!(state.is_poisoned());
    assert_eq!(state.service(), None);

    // Every later caller is given the failure.
    for _ in 0..3 {
        let err = first.acquired(&state).unwrap_err();
        assert_eq!(err.message(), "connection reset");
        assert_eq!(first.step(), Step::Acquire);
    }
    let kind = ErrorKind::from_poisoned(&Poisoned::from("x".to_string()));
    assert_eq!(kind.synthesize(), Synthesis::TearDown);
    let _other_errors = LockLayer::new().with_errors::<String>();
}

#[test]
fn timeouts_fire_at_the_deadline() {
    let timeout: Timeout<()> = TimeoutLayer::new(100).layer(());
    let by = timeout.call(1_000);
    assert_eq!(by, 1_100);
    assert!(matches!(
        timeout.poll::<u8, ()>(by, 1_099, Ok(Async::NotReady)),
        Ok(Async::NotReady)
    ));
    assert!(matches!(
        timeout.poll::<u8, ()>(by, 1_100, Ok(Async::NotReady)),
        Err(TimeoutError::Elapsed)
    ));
    assert!(matches!(
        timeout.poll::<u8, ()>(by, 5_000, Ok(Async::Ready(1))),
        Ok(Async::Ready(1))
    ));
    assert!(matches!(
        timeout.poll::<u8, u8>(by, 0, Err(9)),
        Err(TimeoutError::Inner(9))
    ));
    assert_eq!(timeout.call(u64::MAX - 5), u64::MAX);
    assert_eq!(
        ErrorKind::from_elapsed(Elapsed).synthesize(),
        Synthesis::Respond(504)
    );
}

#[test]
fn ready_timeout_counts_from_the_first_not_ready() {
    let mut service = TimeoutReady::new((), 50);
    assert!(matches!(
        service.poll_ready::<()>(10, Ok(Async::NotReady)),
        Ok(Async::NotReady)
    ));
    assert_eq!(service.waiting_since, Some(10));
    assert!(matches!(
        service.poll_ready::<()>(59, Ok(Async::NotReady)),
        Ok(Async::NotReady)
    ));
    assert!(matches!(
        service.poll_ready::<()>(60, Ok(Async::NotReady)),
        Err(TimeoutError::Elapsed)
    ));
    assert!(matches!(
        service.poll_ready::<()>(61, Ok(Async::Ready(()))),
        Ok(Async::Ready(()))
    ));
    assert_eq!(service.waiting_since, None);
    assert!(matches!(
        service.poll_ready::<u8>(70, Err(3)),
        Err(TimeoutError::Inner(3))
    ));
}

struct HostKey;

impl Key<&'static str> for HostKey {
    type Key = usize;

    fn key(&self, req: &&'static str) -> Option<usize> {
        if req.is_empty() {
            None
        } else {
            Some(req.len())
        }
    }
}

#[test]
fn router_sends_each_request_to_the_service_of_its_key() {
    let router = Router {
        key: HostKey,
        make: |key: usize| format!("svc-{}", key),
    };
    assert!(router.poll_ready());
    assert_eq!(router.call(&"web"), Ok("svc-3".to_string()));
    assert_eq!(router.call(&"api.ns"), Ok("svc-6".to_string()));
    assert_eq!(router.call(&""), Err(NotRecognized));
    assert_eq!(
        ErrorKind::from_not_recognized(NotRecognized).synthesize(),
        Synthesis::Respond(502)
    );
}

#[test]
fn router_passes_on_what_the_inner_maker_answers() {
    let full = |_key: u8| Err::<u8, NoCapacity>(NoCapacity(1));
    let by_closure = Router {
        key: |req: &u8| *req,
        make: full,
    };
    assert_eq!(by_closure.call(&7), Ok(Err(NoCapacity(1))));
}

#[test]
fn router_layer_makes_a_router_per_target() {
    let layer = linkerd2_proxy::router::Layer::new(|_target: ()| HostKey);
    let make_router = layer.layer(|key: usize| key * 2);
    let router = make_router.make(());
    assert_eq!(router.call(&"abcd"), Ok(8));
    let cached = linkerd2_proxy::router::layer::Layer::new(1, 5).layer(|key: u8| key);
    let mut cache = cached.spawn::<u8>();
    assert_eq!(cache.call(1, 0), Ok(1));
    assert_eq!(cache.call(2, 0), Err(NoCapacity(1)));
}

#[test]
fn pending_service_waits_for_its_making() {
    let mut pending: Pending<&str, u8> = Pending::Making("making");
    assert_eq!(pending.service(), None);
    assert!(matches!(
        pending.made::<()>(Ok(Async::NotReady)),
        Ok(Async::NotReady)
    ));
    assert!(matches!(pending.made::<u8>(Err(1)), Err(1)));
    assert!(matches!(
        pending.made::<()>(Ok(Async::Ready(9))),
        Ok(Async::Ready(()))
    ));
    assert_eq!(pending.service(), Some(&9));
}

#[test]
fn make_ready_hands_out_a_ready_service_once() {
    let mut future: MakeReadyFuture<(), &str> = MakeReadyFuture::Making(());
    assert!(matches!(
        future.ready::<()>(Ok(Async::Ready(()))),
        Ok(Async::NotReady)
    ));
    assert!(matches!(
        future.made::<()>(Ok(Async::Ready("svc"))),
        Ok(Async::Ready(()))
    ));
    assert!(matches!(
        future.ready::<()>(Ok(Async::NotReady)),
        Ok(Async::NotReady)
    ));
    assert!(matches!(
        future.ready::<()>(Ok(Async::Ready(()))),
        Ok(Async::Ready("svc"))
    ));
    assert!(matches!(
        future.ready::<()>(Ok(Async::Ready(()))),
        Ok(Async::NotReady)
    ));
}

struct AddHeader(&'static str);

impl Proxy<Vec<&'static str>> for AddHeader {
    type Request = Vec<&'static str>;

    fn proxy(&self, mut req: Vec<&'static str>) -> Vec<&'static str> {
        req.push(self.0);
        req
    }
}

struct ByLength;

impl Route<Vec<&'static str>> for ByLength {
    type Proxy = AddHeader;

    fn route(&self, req: &Vec<&'static str>) -> AddHeader {
        if req.is_empty() {
            AddHeader("empty")
        } else {
            AddHeader("some")
        }
    }
}

#[test]
fn route_proxy_sends_each_request_through_its_proxy() {
    let proxy = into_proxy(ByLength);
    assert_eq!(proxy.proxy(vec![]), vec!["empty"]);
    assert_eq!(proxy.proxy(vec!["a"]), vec!["a", "some"]);
    let mut service = into_service(AddHeader("x"), 5u8);
    assert_eq!(service.call(vec!["h"]), vec!["h", "x"]);
    assert_eq!(service.inner(), &5);
    *service.inner_mut() = 6;
    assert_eq!(service.inner, 6);
    assert_eq!(service.proxy().0, "x");
    service.proxy_mut().0 = "y";
    assert_eq!(service.call(vec![]), vec!["y"]);
    assert_eq!(().proxy(3u8), 3);
}

#[test]
fn new_service_builds_at_once() {
    let make = into_make_service(|target: u8| target + 1);
    assert!(make.poll_ready());
    assert_eq!(make.call(1), 2);
    assert_eq!(().new_service(5u8), ());
}
