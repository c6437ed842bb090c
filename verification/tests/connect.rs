use linkerd2_proxy::addr::{Addr, IpAddr, NameAddr, SocketAddr};
use linkerd2_proxy::outbound::endpoint::Target;
use linkerd2_proxy::poll::Async;
use linkerd2_proxy::proxy::discover::{Buffer, Update};
use linkerd2_proxy::proxy::http::canonicalize::{Begin, Layer, MakeFuture, Next, Refine};
use linkerd2_proxy::proxy::tcp::balance::{balance, prefer, Endpoints};
use linkerd2_proxy::proxy::tcp::forward::{self, ForwardFuture};
use linkerd2_proxy::reconnect::{self, Action, Outcome, State};
use linkerd2_proxy::stack::layer::Layer as StackLayer;
use linkerd2_proxy::stack::make::Make;
use linkerd2_proxy::stack::make_tuple;
use linkerd2_proxy::stack::map_request;
use rand::rngs::SmallRng;
use rand::SeedableRng;

fn named(name: &str, port: u16) -> Addr {
    Addr::Name(NameAddr::new(name.to_string(), port))
}

fn target(addr: Addr) -> Target<u8> {
    Target { addr, inner: 7 }
}

#[test]
fn name_is_refined_and_the_port_stays() {
    let canonicalize = Layer::new("resolver", 500).layer("inner");
    assert_eq!(canonicalize.timeout, 500);
    let mut making = match canonicalize.call(target(named("web", 8080))) {
        Begin::Refine(name, making) => {
            assert_eq!(name, "web");
            making
        }
        Begin::Make(..) => panic!("a name is refined first"),
    };
    assert!(matches!(
        making.refine::<(), ()>(Ok(Async::NotReady)),
        Next::Return(Ok(Async::NotReady))
    ));
    let refine = Refine {
        name: "web.example.com.".to_string(),
        valid_until: 1_000,
    };
    assert!(matches!(
        making.refine::<(), ()>(Ok(Async::Ready(refine))),
        Next::PollReady
    ));
    assert_eq!(making.service(), Some(&"inner"));
    assert!(matches!(
        making.ready::<()>(Ok(Async::NotReady)),
        Next::Return(Ok(Async::NotReady))
    ));
    match making.ready::<()>(Ok(Async::Ready(()))) {
        Next::Call(t) => {
            assert_eq!(t.addr, named("web.example.com.", 8080));
            assert_eq!(t.inner, 7);
        }
        other => panic!("unexpected {:?}", other),
    }
    assert!(matches!(making, MakeFuture::Make));
}

#[test]
fn failed_refinement_leaves_the_target_as_it_came() {
    let canonicalize = Layer::new((), 500).layer(());
    let mut making = match canonicalize.call(target(named("web", 80))) {
        Begin::Refine(_, making) => making,
        Begin::Make(..) => panic!("a name is refined first"),
    };
    assert!(matches!(
        making.refine::<(), &str>(Err("timed out")),
        Next::PollReady
    ));
    assert!(matches!(
        making.ready::<&str>(Err("inner failed")),
        Next::Return(Err("inner failed"))
    ));
    match making.ready::<()>(Ok(Async::Ready(()))) {
        Next::Call(t) => assert_eq!(t.addr, named("web", 80)),
        other => panic!("unexpected {:?}", other),
    }
}

#[test]
fn socket_address_is_not_refined() {
    let canonicalize = Layer::new((), 500).layer(());
    let socket = Addr::Socket(SocketAddr::new(IpAddr::V4(1), 80));
    match canonicalize.call(target(socket.clone())) {
        Begin::Make(t, making) => {
            assert_eq!(t.addr, socket);
            assert!(matches!(making, MakeFuture::Make));
        }
        Begin::Refine(..) => panic!("a socket address has no name"),
    }
    assert_eq!(
        canonicalize.poll_ready::<u8>(Ok(Async::Ready(())), Ok(Async::NotReady)),
        Ok(Async::NotReady)
    );
    assert_eq!(
        canonicalize.poll_ready::<u8>(Ok(Async::NotReady), Err(1)),
        Ok(Async::NotReady)
    );
    assert_eq!(
        canonicalize.poll_ready::<u8>(Err(2), Err(1)),
        Err(2)
    );
    assert_eq!(
        canonicalize.poll_ready::<u8>(Ok(Async::Ready(())), Ok(Async::Ready(()))),
        Ok(Async::Ready(()))
    );
}

#[test]
fn reconnect_backs_off_and_connects_again() {
    let make = reconnect::Layer::from("recover").layer("connect");
    let mut service = make.make("target");
    assert_eq!(service.state, State::Disconnected);
    assert_eq!(service.action(), Action::Connect);
    service.connecting();
    assert_eq!(service.action(), Action::PollPending);
    assert!(matches!(
        service.polled::<()>(Ok(Async::NotReady), true),
        Outcome::Return(Ok(Async::NotReady))
    ));
    assert!(matches!(
        service.polled::<()>(Ok(Async::Ready(())), true),
        Outcome::Continue
    ));
    assert_eq!(service.action(), Action::PollService);
    assert!(matches!(
        service.polled::<()>(Ok(Async::Ready(())), true),
        Outcome::Return(Ok(Async::Ready(())))
    ));

    // The connection fails: the service backs off and is not ready.
    assert!(matches!(
        service.polled(Err("reset"), true),
        Outcome::Continue
    ));
    assert_eq!(service.action(), Action::PollBackoff);
    assert!(matches!(
        service.polled::<&str>(Ok(Async::NotReady), true),
        Outcome::Return(Ok(Async::NotReady))
    ));
    assert!(matches!(
        service.polled::<&str>(Ok(Async::Ready(())), true),
        Outcome::Continue
    ));
    assert!(service.backoff_kept);
    assert_eq!(service.action(), Action::Connect);
    service.connecting();
    // Connecting fails again: the same backoff goes on.
    assert!(matches!(
        service.polled(Err("refused"), true),
        Outcome::Continue
    ));
    assert!(service.backoff_kept);
    assert_eq!(service.state, State::Backoff);
    assert!(matches!(
        service.polled::<&str>(Ok(Async::Ready(())), true),
        Outcome::Continue
    ));
    service.connecting();
    assert!(matches!(
        service.polled::<&str>(Ok(Async::Ready(())), true),
        Outcome::Continue
    ));
    assert!(matches!(
        service.polled::<&str>(Ok(Async::Ready(())), true),
        Outcome::Return(Ok(Async::Ready(())))
    ));
    assert!(!service.backoff_kept);
}

#[test]
fn unrecoverable_failure_is_surfaced() {
    let mut service = reconnect::Service::new((), (), ());
    service.connecting();
    assert!(matches!(
        service.polled(Err("fatal"), false),
        Outcome::Return(Err("fatal"))
    ));
    assert_eq!(service.state, State::Pending);
    assert!(matches!(
        service.polled(Err("again"), true),
        Outcome::Continue
    ));
    assert!(matches!(
        service.polled(Err("backoff failed"), true),
        Outcome::Return(Err("backoff failed"))
    ));
}

#[test]
fn lower_load_is_preferred_and_ties_go_to_the_lower_index() {
    let loads = vec![3usize, 1, 1, 5];
    assert_eq!(prefer(&loads, 0, 1), 1);
    assert_eq!(prefer(&loads, 1, 0), 1);
    assert_eq!(prefer(&loads, 2, 1), 1);
    assert_eq!(prefer(&loads, 1, 2), 1);
    assert_eq!(prefer(&loads, 3, 0), 0);
    assert_eq!(prefer(&loads, 2, 2), 2);
}

#[test]
fn balancer_serves_the_ready_endpoints() {
    let mut rng = SmallRng::seed_from_u64(42);
    assert_eq!(balance(&vec![], &mut rng), None);
    assert_eq!(balance(&vec![9], &mut rng), Some(0));
    // Of two endpoints both are drawn, so the less loaded one is taken.
    for _ in 0..100 {
        assert_eq!(balance(&vec![4, 2], &mut rng), Some(1));
        assert_eq!(balance(&vec![2, 2], &mut rng), Some(0));
    }
    // Of three, the most loaded one is never taken.
    let mut taken = [0usize; 3];
    for _ in 0..300 {
        let chosen = balance(&vec![1, 7, 3], &mut rng).unwrap();
        taken[chosen] += 1;
    }
    assert_eq!(taken[1], 0);
    assert!(taken[0] > 0 && taken[2] > 0);
    assert_eq!(taken[0] + taken[2], 300);
}

#[test]
fn forward_connects_then_joins_both_connections() {
    let make = forward::Layer::new().layer("connector");
    let service = make.make("10.0.0.1:5432");
    assert_eq!(service.target(), "10.0.0.1:5432");
    let mut future: ForwardFuture<&str, (), &str> = service.call("accepted", ());
    assert!(matches!(
        future.connected::<()>(Ok(Async::NotReady)),
        Ok(Async::NotReady)
    ));
    assert!(matches!(future.connected(Err("refused")), Err("refused")));
    assert!(matches!(
        future.connected::<()>(Ok(Async::Ready("made"))),
        Ok(Async::Ready(()))
    ));
    assert!(matches!(future, ForwardFuture::Duplex("accepted", "made")));
    assert!(matches!(
        future.connected::<()>(Ok(Async::Ready("again"))),
        Ok(Async::NotReady)
    ));
}

#[test]
fn make_tuple_serves_the_request_once_the_service_is_made() {
    let make = make_tuple::Layer::new().layer(());
    let mut future: make_tuple::ResponseFuture<(), &str, u8> = make.call((), 9);
    assert!(matches!(
        future.made::<()>(Ok(Async::NotReady)),
        Ok(Async::NotReady)
    ));
    assert!(matches!(future.made(Err("no service")), Err("no service")));
    assert!(matches!(
        future.made::<()>(Ok(Async::Ready("svc"))),
        Ok(Async::Ready(9))
    ));
    assert!(matches!(future, make_tuple::ResponseFuture::Serve("svc")));
}

#[test]
fn map_request_changes_each_request() {
    let layer = map_request::Layer::new(|req: u8| u16::from(req) * 2);
    let make = layer.layer(|target: &'static str| target.len());
    let service = make.make("abc");
    assert_eq!(service.inner, 3);
    assert_eq!(service.call(200), 400u16);
    let future = make.call("making");
    assert_eq!(future.inner, "making");
    assert_eq!(future.made("svc").call(1), 2u16);
}

#[test]
fn discovery_buffer_keeps_one_update_per_address() {
    let addr = |last: u32| SocketAddr::new(IpAddr::V4(last), 80);
    let mut buffer: Buffer<&str> = Buffer::new(2);
    assert!(buffer.push(Update::Add(addr(1), "a")).is_none());
    assert!(buffer.push(Update::Add(addr(2), "b")).is_none());
    // Without room an update for a new address is refused and comes back.
    assert!(matches!(
        buffer.push(Update::Add(addr(3), "c")),
        Some(Update::Add(_, "c"))
    ));
    assert_eq!(buffer.len(), 2);
    // A removal takes the place of the addition that waits.
    assert!(buffer.push(Update::Remove(addr(1))).is_none());
    // An addition takes the place of what waits, and keeps that place.
    assert!(buffer.push(Update::Add(addr(2), "b2")).is_none());
    assert!(buffer.push(Update::Remove(addr(2))).is_none());
    assert!(buffer.push(Update::Add(addr(2), "b3")).is_none());
    assert_eq!(buffer.len(), 2);
    assert!(matches!(buffer.pop(), Some(Update::Remove(a)) if a == addr(1)));
    assert!(matches!(buffer.pop(), Some(Update::Add(a, "b3")) if a == addr(2)));
    assert!(buffer.pop().is_none());
    assert!(buffer.push(Update::Add(addr(3), "c")).is_none());
    assert_eq!(Update::Add(addr(3), "c").addr(), addr(3));
}

#[test]
fn balancer_follows_discovery_and_takes_only_ready_endpoints() {
    let addr = |last: u32| SocketAddr::new(IpAddr::V4(last), 80);
    let mut endpoints: Endpoints<&str> = Endpoints::new();
    let mut rng = SmallRng::seed_from_u64(3);
    assert_eq!(endpoints.select(&vec![], &mut rng), None);
    endpoints.update(Update::Add(addr(1), "a"));
    endpoints.update(Update::Add(addr(2), "b"));
    endpoints.update(Update::Add(addr(3), "c"));
    endpoints.update(Update::Remove(addr(9)));
    assert_eq!(endpoints.len(), 3);
    // A new service takes the place of the old one at the same address.
    endpoints.update(Update::Add(addr(2), "b2"));
    assert_eq!(endpoints.len(), 3);
    assert_eq!(endpoints.get(1).map(|e| (e.addr, e.service)), Some((addr(2), "b2")));
    assert_eq!(endpoints.get_mut(1), Some(&mut "b2"));
    for _ in 0..100 {
        // Only the last endpoint is ready.
        assert_eq!(endpoints.select(&vec![None, None, Some(7)], &mut rng), Some(2));
        // Of the two that are ready, the less loaded one is taken.
        assert_eq!(endpoints.select(&vec![Some(5), None, Some(2)], &mut rng), Some(2));
        assert_eq!(endpoints.select(&vec![Some(1), None, Some(1)], &mut rng), Some(0));
        assert_eq!(endpoints.select(&vec![None, None, None], &mut rng), None);
    }
    endpoints.update(Update::Remove(addr(1)));
    assert_eq!(endpoints.len(), 2);
    assert_eq!(endpoints.get(0).map(|e| e.addr), Some(addr(2)));
    assert_eq!(endpoints.get(1).map(|e| e.addr), Some(addr(3)));
    assert!(endpoints.get(2).is_none());
}

#[test]
fn of_the_ready_endpoints_the_less_loaded_is_selected() {
    let mut endpoints: Endpoints<&str> = Endpoints::new();
    for (port, service) in [(1u16, "a"), (2, "b"), (3, "c")] {
        endpoints.update(Update::Add(
            SocketAddr::new(IpAddr::V4(0x0a00_0001), port),
            service,
        ));
    }
    let mut rng = SmallRng::seed_from_u64(7);
    for _ in 0..100 {
        // None is ready.
        assert_eq!(endpoints.select(&vec![None, None, None], &mut rng), None);
        // The one ready endpoint is taken as it is.
        assert_eq!(endpoints.select(&vec![None, Some(9), None], &mut rng), Some(1));
        // Of two ready endpoints both are drawn: the less loaded is taken,
        // and the first one not because it comes first.
        assert_eq!(
            endpoints.select(&vec![Some(5), None, Some(1)], &mut rng),
            Some(2)
        );
        // With equal loads the earlier one is taken.
        assert_eq!(
            endpoints.select(&vec![None, Some(2), Some(2)], &mut rng),
            Some(1)
        );
    }
}
