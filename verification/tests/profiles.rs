use linkerd2_proxy::addr::{Addr, NameAddr};
use linkerd2_proxy::proxy::http::profiles::concrete::{
    forward, InvalidSplit, LostService, Probe, Routes, Service, Update,
};
use linkerd2_proxy::proxy::http::profiles::recognize::RouteRecognize;
use linkerd2_proxy::proxy::http::profiles::requests::{Requests, Selected};
use linkerd2_proxy::proxy::http::profiles::service::{Concrete, Layer};
use linkerd2_proxy::proxy::http::profiles::{
    CanGetDestination, GetRoutes, Route, Routes as Profile, WeightedAddr, WithAddr, WithRoute,
};
use linkerd2_proxy::stack::layer::Layer as StackLayer;
use linkerd2_proxy::stack::make::Make;
use rand::rngs::SmallRng;
use rand::SeedableRng;

#[derive(Clone, Debug, PartialEq)]
struct Target(String);

impl WithAddr for Target {
    fn with_addr(&self, addr: NameAddr) -> Self {
        Target(format!("{}:{}", addr.name(), addr.port()))
    }
}

impl WithRoute for Target {
    type Output = (String, Option<u64>);

    fn with_route(&self, route: Route) -> Self::Output {
        (self.0.clone(), route.timeout())
    }
}

impl CanGetDestination for Target {
    fn get_destination(&self) -> Option<Addr> {
        Some(Addr::Name(NameAddr::new(self.0.clone(), 80)))
    }
}

#[derive(Clone)]
struct NoProfiles;

impl GetRoutes for NoProfiles {
    type Stream = ();

    fn get_routes(&self, _dst: &Addr) -> Option<()> {
        Some(())
    }
}

fn name(name: &str) -> NameAddr {
    NameAddr::new(name.to_string(), 80)
}

fn weighted(n: &str, weight: u32) -> WeightedAddr {
    WeightedAddr::new(name(n), weight)
}

type Made = (String, usize);

fn counting_maker() -> (
    impl Fn(Target) -> Made + Clone,
    std::rc::Rc<std::cell::Cell<usize>>,
) {
    let made = std::rc::Rc::new(std::cell::Cell::new(0));
    let count = made.clone();
    let make = move |target: Target| {
        count.set(count.get() + 1);
        (target.0, count.get())
    };
    (make, made)
}

fn dispatch_once<S>(service: &mut Service<S>) -> Option<usize> {
    service.begin();
    loop {
        match service.probe() {
            Probe::Ready => break,
            Probe::NotReady => return None,
            Probe::Poll(_) => {
                if service.polled(true) {
                    break;
                }
            }
        }
    }
    service.dispatch()
}

fn split(addrs: Vec<WeightedAddr>, seed: u64) -> (Service<Made>, Update<Target, impl Make<Target, Service = Made>>) {
    let (make, _) = counting_maker();
    let (mut service, mut update) = forward(
        Target("logical:80".to_string()),
        make,
        SmallRng::seed_from_u64(seed),
    );
    assert_eq!(update.set_split(addrs), Ok(true));
    service.update(update.table().duplicate());
    (service, update)
}

#[test]
fn forward_goes_to_the_logical_destination() {
    let (make, made) = counting_maker();
    let (mut service, update) = forward(
        Target("logical:80".to_string()),
        make,
        SmallRng::seed_from_u64(1),
    );
    assert_eq!(made.get(), 1);
    assert!(!update.table().is_split());
    assert_eq!(update.table().len(), 1);
    assert_eq!(
        update.table().get(0),
        Some(&("logical:80".to_string(), 1))
    );
    assert_eq!(update.table().get(1), None);
    assert_eq!(dispatch_once(&mut service), Some(0));
    assert_eq!(service.table().get(0), Some(&("logical:80".to_string(), 1)));
}

#[test]
fn forward_that_is_not_ready_is_asked_once() {
    let (make, _) = counting_maker();
    let (mut service, _update) = forward(
        Target("logical:80".to_string()),
        make,
        SmallRng::seed_from_u64(1),
    );
    service.begin();
    assert_eq!(service.probe(), Probe::Poll(0));
    assert!(!service.polled(false));
    assert_eq!(service.probe(), Probe::NotReady);
}

#[test]
fn split_to_a_single_destination_is_a_forward() {
    let (make, made) = counting_maker();
    let (_service, mut update) = forward(
        Target("logical:80".to_string()),
        make,
        SmallRng::seed_from_u64(1),
    );
    assert_eq!(update.set_split(vec![weighted("a.svc", 1)]), Ok(true));
    assert_eq!(made.get(), 2);
    assert!(!update.table().is_split());
    assert_eq!(update.table().get(0), Some(&("a.svc:80".to_string(), 2)));
    // The same destination again changes nothing and makes nothing.
    assert_eq!(update.set_split(vec![weighted("a.svc", 5)]), Ok(false));
    assert_eq!(made.get(), 2);
    // Going back to the logical destination makes a service anew.
    assert!(update.set_forward());
    assert_eq!(made.get(), 3);
    assert!(!update.set_forward());
    assert_eq!(made.get(), 3);
}

#[test]
fn split_reuses_services_by_name() {
    let (make, made) = counting_maker();
    let (_service, mut update) = forward(
        Target("logical:80".to_string()),
        make,
        SmallRng::seed_from_u64(1),
    );
    assert_eq!(
        update.set_split(vec![weighted("a.svc", 1), weighted("b.svc", 1)]),
        Ok(true)
    );
    assert_eq!(made.get(), 3);
    assert!(update.table().is_split());
    assert_eq!(update.table().len(), 2);
    assert_eq!(update.table().get(0), Some(&("a.svc:80".to_string(), 2)));
    assert_eq!(update.table().get(1), Some(&("b.svc:80".to_string(), 3)));
    // b.svc is kept, in its new place; c.svc is made.
    assert_eq!(
        update.set_split(vec![
            weighted("c.svc", 1),
            weighted("b.svc", 2),
        ]),
        Ok(true)
    );
    assert_eq!(made.get(), 4);
    assert_eq!(update.table().get(0), Some(&("c.svc:80".to_string(), 4)));
    assert_eq!(update.table().get(1), Some(&("b.svc:80".to_string(), 3)));
    assert_eq!(update.table().get(2), None);
    // A single destination that the split held is kept too.
    assert_eq!(update.set_split(vec![weighted("b.svc", 1)]), Ok(true));
    assert_eq!(made.get(), 4);
    assert_eq!(update.table().get(0), Some(&("b.svc:80".to_string(), 3)));
}

#[test]
fn names_differ_by_port_too() {
    let (make, made) = counting_maker();
    let (_service, mut update) = forward(
        Target("logical:80".to_string()),
        make,
        SmallRng::seed_from_u64(1),
    );
    let other_port = WeightedAddr::new(NameAddr::new("a.svc".to_string(), 8080), 1);
    assert_eq!(
        update.set_split(vec![weighted("a.svc", 1), other_port]),
        Ok(true)
    );
    assert_eq!(made.get(), 3);
    assert_eq!(update.table().get(1), Some(&("a.svc:8080".to_string(), 3)));
}

#[test]
fn invalid_splits_are_refused_and_change_nothing() {
    let (make, made) = counting_maker();
    let (_service, mut update) = forward(
        Target("logical:80".to_string()),
        make,
        SmallRng::seed_from_u64(1),
    );
    assert_eq!(update.set_split(vec![]), Err(InvalidSplit::NoDestinations));
    assert_eq!(
        update.set_split(vec![weighted("a.svc", u32::MAX), weighted("b.svc", 1)]),
        Err(InvalidSplit::WeightOverflow)
    );
    assert_eq!(
        update.set_split(vec![weighted("a.svc", 0), weighted("b.svc", 0)]),
        Err(InvalidSplit::NoWeight)
    );
    assert_eq!(
        update.set_split(vec![
            weighted("a.svc", 1),
            weighted("b.svc", 1),
            weighted("a.svc", 1),
        ]),
        Err(InvalidSplit::DuplicateName)
    );
    assert!(!update.table().is_split());
    assert_eq!(update.table().get(0), Some(&("logical:80".to_string(), 1)));
    assert!(made.get() >= 1);
    // The largest sum that is allowed.
    assert_eq!(
        update.set_split(vec![weighted("a.svc", u32::MAX - 1), weighted("b.svc", 1)]),
        Ok(true)
    );
    assert_eq!(LostService.message(), "services lost");
}

#[test]
fn zero_weight_destination_is_never_selected() {
    let (mut service, _update) = split(vec![weighted("a.svc", 1), weighted("b.svc", 0)], 7);
    for _ in 0..1000 {
        assert_eq!(dispatch_once(&mut service), Some(0));
    }
}

#[test]
fn zero_weight_destination_in_front_is_never_selected() {
    let (mut service, _update) = split(
        vec![weighted("a.svc", 0), weighted("b.svc", 2), weighted("c.svc", 0)],
        11,
    );
    for _ in 0..1000 {
        assert_eq!(dispatch_once(&mut service), Some(1));
    }
}

#[test]
fn split_follows_the_weights() {
    let (mut service, _update) = split(vec![weighted("a.svc", 3), weighted("b.svc", 1)], 0);
    let mut counts = [0usize; 2];
    for _ in 0..4000 {
        let slot = dispatch_once(&mut service).expect("a slot is ready");
        counts[slot] += 1;
    }
    assert_eq!(counts[0] + counts[1], 4000);
    // Two standard deviations of a binomial with n = 4000 and p = 3/4.
    let two_sigma = 2.0 * (4000.0f64 * 0.75 * 0.25).sqrt();
    assert!((counts[0] as f64 - 3000.0).abs() <= two_sigma, "{:?}", counts);
    assert!((counts[1] as f64 - 1000.0).abs() <= two_sigma, "{:?}", counts);
}

#[test]
fn split_asks_at_most_as_many_services_as_it_has() {
    let (mut service, _update) = split(
        vec![weighted("a.svc", 1), weighted("b.svc", 1), weighted("c.svc", 1)],
        3,
    );
    service.begin();
    let mut asked = 0;
    loop {
        match service.probe() {
            Probe::Poll(slot) => {
                assert!(slot < 3);
                asked += 1;
                assert!(!service.polled(false));
            }
            Probe::NotReady => break,
            Probe::Ready => panic!("no service was ready"),
        }
    }
    assert_eq!(asked, 3);
    // Nothing is cached, so there is nothing to dispatch to.
    assert_eq!(service.dispatch(), None);
}

#[test]
fn ready_slot_is_cached_until_dispatched() {
    let (mut service, _update) = split(vec![weighted("a.svc", 1), weighted("b.svc", 1)], 5);
    service.begin();
    let slot = match service.probe() {
        Probe::Poll(slot) => slot,
        other => panic!("unexpected {:?}", other),
    };
    assert!(service.polled(true));
    assert_eq!(service.probe(), Probe::Ready);
    let copy = service.duplicate();
    assert_eq!(copy.table().len(), 2);
    assert_eq!(service.dispatch(), Some(slot));
    assert_eq!(service.dispatch(), None);
}

#[test]
fn update_forgets_the_cached_slot() {
    let (mut service, mut update) = split(vec![weighted("a.svc", 1), weighted("b.svc", 1)], 5);
    service.begin();
    assert!(matches!(service.probe(), Probe::Poll(_)));
    assert!(service.polled(true));
    assert_eq!(update.set_split(vec![weighted("c.svc", 1)]), Ok(true));
    service.update(update.table().duplicate());
    assert!(!service.table().is_split());
    service.begin();
    assert_eq!(service.probe(), Probe::Poll(0));
    assert_eq!(service.table().get(0).map(|s| s.0.as_str()), Some("c.svc:80"));
}

fn is_get(req: &&str) -> bool {
    req.starts_with("GET ")
}

fn is_users(req: &&str) -> bool {
    req.ends_with("/users")
}

fn never(_req: &&str) -> bool {
    false
}

fn route_with_timeout(timeout: u64) -> Route {
    let mut route = Route::empty();
    route.set_timeout(timeout);
    route
}

type Condition = fn(&&str) -> bool;

#[test]
fn request_that_matches_no_route_takes_the_default_route() {
    let make = |target: (String, Option<u64>)| target.1;
    let mut requests: Requests<Target, _, Condition> =
        Requests::new(Target("web:80".to_string()), make, Route::empty());
    assert_eq!(requests.len(), 0);
    assert_eq!(requests.select(&"GET /"), Selected::Default);
    assert_eq!(requests.proxy(&"GET /"), &None);
    requests.set_routes(vec![
        (is_users as Condition, route_with_timeout(1)),
        (is_get as Condition, route_with_timeout(2)),
        (never as Condition, route_with_timeout(3)),
    ]);
    assert_eq!(requests.len(), 3);
    assert_eq!(requests.select(&"DELETE /orders"), Selected::Default);
    assert_eq!(requests.proxy(&"DELETE /orders"), &None);
    assert_eq!(requests.proxy_of(Selected::Default), &None);
}

#[test]
fn first_matching_route_wins() {
    let make = |target: (String, Option<u64>)| target.1;
    let mut requests: Requests<Target, _, Condition> =
        Requests::new(Target("web:80".to_string()), make, Route::empty());
    requests.set_routes(vec![
        (is_users as Condition, route_with_timeout(1)),
        (is_get as Condition, route_with_timeout(2)),
    ]);
    assert_eq!(requests.select(&"GET /users"), Selected::Route(0));
    assert_eq!(requests.select(&"POST /users"), Selected::Route(0));
    assert_eq!(requests.select(&"GET /orders"), Selected::Route(1));
    assert_eq!(requests.proxy(&"GET /orders"), &Some(2));
    assert_eq!(requests.proxy_of(Selected::Route(0)), &Some(1));
}

#[test]
fn recognize_gives_the_target_with_its_route() {
    let recognize: RouteRecognize<Target, Condition> = RouteRecognize::new(
        Target("web:80".to_string()),
        vec![(is_get as Condition, route_with_timeout(5))],
        route_with_timeout(9),
    );
    assert_eq!(
        recognize.recognize(&"GET /"),
        Some(("web:80".to_string(), Some(5)))
    );
    assert_eq!(
        recognize.recognize(&"PUT /"),
        Some(("web:80".to_string(), Some(9)))
    );
}

#[test]
fn profile_update_replaces_routes_and_split_together() {
    let (make_concrete, made) = counting_maker();
    let make_route = |target: (String, Option<u64>)| target.1;
    let layer: Layer<NoProfiles, _, Condition> = Layer::new(NoProfiles, make_route).with_split();
    let make = layer.layer(make_concrete);
    let mut service = make.make(Target("web:80".to_string()));
    assert_eq!(made.get(), 1);
    assert_eq!(service.routes().len(), 0);
    assert!(matches!(service.dispatcher(), Concrete::Split(_)));
    assert_eq!(service.dispatcher().get(0), Some(&("web:80".to_string(), 1)));

    // No update: nothing changes.
    assert_eq!(service.poll_update(vec![]), Ok(false));

    // Of several updates the most recent is applied.
    let older = Profile {
        routes: vec![],
        dst_overrides: vec![weighted("old.svc", 1)],
    };
    let latest = Profile {
        routes: vec![(is_get as Condition, route_with_timeout(7))],
        dst_overrides: vec![weighted("a.svc", 3), weighted("b.svc", 1)],
    };
    assert_eq!(service.poll_update(vec![older, latest]), Ok(true));
    assert_eq!(service.routes().len(), 1);
    assert_eq!(service.routes().proxy(&"GET /"), &Some(7));
    assert_eq!(
        service.dispatcher().get(0).map(|s| s.0.as_str()),
        Some("a.svc:80")
    );
    assert_eq!(
        service.dispatcher().get(1).map(|s| s.0.as_str()),
        Some("b.svc:80")
    );
    assert_eq!(service.dispatcher().get(2), None);

    // Overrides that give no split are refused, and the routes stay too.
    let invalid = Profile {
        routes: vec![],
        dst_overrides: vec![weighted("a.svc", 0), weighted("b.svc", 0)],
    };
    assert_eq!(service.apply(invalid), Err(InvalidSplit::NoWeight));
    assert_eq!(service.routes().len(), 1);
    assert_eq!(
        service.dispatcher().get(1).map(|s| s.0.as_str()),
        Some("b.svc:80")
    );

    // Without overrides the service goes back to its own address.
    let plain = Profile {
        routes: vec![],
        dst_overrides: vec![],
    };
    assert_eq!(service.apply(plain), Ok(()));
    assert_eq!(service.routes().len(), 0);
    assert_eq!(
        service.dispatcher().get(0).map(|s| s.0.as_str()),
        Some("web:80")
    );
    assert_eq!(service.dispatcher().get(1), None);
}

#[test]
fn service_that_cannot_split_ignores_overrides() {
    let (make_concrete, made) = counting_maker();
    let make_route = |target: (String, Option<u64>)| target.1;
    let layer: Layer<NoProfiles, _, Condition> = Layer::new(NoProfiles, make_route);
    let make = layer.layer(make_concrete);
    let mut service = make.make(Target("web:80".to_string()));
    assert!(matches!(service.dispatcher(), Concrete::Forward(_)));
    let update = Profile {
        routes: vec![(is_get as Condition, route_with_timeout(7))],
        dst_overrides: vec![weighted("a.svc", 0), weighted("b.svc", 0)],
    };
    assert_eq!(service.apply(update), Ok(()));
    assert_eq!(service.routes().len(), 1);
    assert_eq!(made.get(), 1);
    assert_eq!(service.dispatcher().get(0), Some(&("web:80".to_string(), 1)));
    assert!(service.profiles_mut().is_some());
}

#[test]
fn routes_table_is_copied_with_its_services() {
    let (_service, update) = split(vec![weighted("a.svc", 2), weighted("b.svc", 1)], 9);
    let copy: Routes<Made> = update.table().duplicate();
    assert!(copy.is_split());
    assert_eq!(copy.len(), 2);
    assert_eq!(copy.get(0), update.table().get(0));
    assert_eq!(copy.get(1), update.table().get(1));
}

#[test]
fn proxy_takes_the_first_of_two_matching_routes() {
    let make = |target: (String, Option<u64>)| target.1;
    let mut requests: Requests<Target, _, Condition> =
        Requests::new(Target("web:80".to_string()), make, route_with_timeout(9));
    requests.set_routes(vec![
        (never as Condition, route_with_timeout(1)),
        (is_get as Condition, route_with_timeout(2)),
        (is_users as Condition, route_with_timeout(3)),
    ]);
    // Both later conditions match: the earlier of them is taken.
    assert_eq!(requests.proxy(&"GET /users"), &Some(2));
    assert_eq!(requests.proxy(&"POST /users"), &Some(3));
    assert_eq!(requests.proxy(&"POST /orders"), &Some(9));
}

#[test]
fn recognize_takes_the_first_of_two_matching_routes() {
    let recognize: RouteRecognize<Target, Condition> = RouteRecognize::new(
        Target("web:80".to_string()),
        vec![
            (never as Condition, route_with_timeout(1)),
            (is_users as Condition, route_with_timeout(2)),
            (is_get as Condition, route_with_timeout(3)),
        ],
        route_with_timeout(9),
    );
    assert_eq!(
        recognize.recognize(&"GET /users"),
        Some(("web:80".to_string(), Some(2)))
    );
    assert_eq!(
        recognize.recognize(&"GET /orders"),
        Some(("web:80".to_string(), Some(3)))
    );
    assert_eq!(
        recognize.recognize(&"POST /orders"),
        Some(("web:80".to_string(), Some(9)))
    );
}

#[test]
fn update_keeps_each_service_under_its_name() {
    let (make_concrete, made) = counting_maker();
    let make_route = |target: (String, Option<u64>)| target.1;
    let layer: Layer<NoProfiles, _, Condition> = Layer::new(NoProfiles, make_route).with_split();
    let make = layer.layer(make_concrete);
    let mut service = make.make(Target("web:80".to_string()));
    assert_eq!(made.get(), 1);

    let first = Profile {
        routes: vec![],
        dst_overrides: vec![weighted("a.svc", 1), weighted("b.svc", 1)],
    };
    assert_eq!(service.apply(first), Ok(()));
    assert_eq!(service.dispatcher().get(0), Some(&("a.svc:80".to_string(), 2)));
    assert_eq!(service.dispatcher().get(1), Some(&("b.svc:80".to_string(), 3)));

    // The names change places and a third comes: the services that were
    // made stay with their names, and only the new name gets a new one.
    let second = Profile {
        routes: vec![],
        dst_overrides: vec![weighted("b.svc", 1), weighted("a.svc", 1), weighted("c.svc", 1)],
    };
    assert_eq!(service.poll_update(vec![second]), Ok(true));
    assert_eq!(made.get(), 4);
    assert_eq!(service.dispatcher().get(0), Some(&("b.svc:80".to_string(), 3)));
    assert_eq!(service.dispatcher().get(1), Some(&("a.svc:80".to_string(), 2)));
    assert_eq!(service.dispatcher().get(2), Some(&("c.svc:80".to_string(), 4)));
    assert_eq!(service.dispatcher().get(3), None);

    // What is done to the service at a slot shows at that slot only.
    match service.service_mut(1) {
        Some(at) => {
            assert_eq!(at, &("a.svc:80".to_string(), 2));
            at.1 = 20;
        }
        None => panic!("no service at the slot"),
    }
    assert!(service.service_mut(3).is_none());
    assert_eq!(service.dispatcher().get(0), Some(&("b.svc:80".to_string(), 3)));
    assert_eq!(service.dispatcher().get(1), Some(&("a.svc:80".to_string(), 20)));
}
