//! Recognizing the route of a request.

use crate::proxy::http::profiles::{Route, WithRoute};
use crate::router::Key;
use vstd::prelude::*;

verus! {

/// A target with its routes: gives each request the target combined with the
/// route that the request takes.
pub struct RouteRecognize<T, C> {
    target: T,
    routes: Vec<(C, Route)>,
    default_route: Route,
}

impl<T, C> RouteRecognize<T, C> {
    pub closed spec fn target(&self) -> T {
        self.target
    }

    pub closed spec fn routes(&self) -> Seq<(C, Route)> {
        self.routes@
    }

    pub closed spec fn default_route(&self) -> Route {
        self.default_route
    }

    pub fn new(target: T, routes: Vec<(C, Route)>, default_route: Route) -> (recognize: Self)
        ensures
            recognize.target() == target,
            recognize.routes() == routes@,
            recognize.default_route() == default_route,
    {
        RouteRecognize { target, routes, default_route }
    }

    /// Every condition can be asked about `req`.
    pub open spec fn can_ask<Req>(&self, req: &Req) -> bool where C: Fn(&Req) -> bool {
        forall|i: int| 0 <= i < self.routes().len() ==> call_requires(self.routes()[i].0, (req,))
    }

    /// The `i`-th condition may say of `req` that it matches.
    pub open spec fn may_match<Req>(&self, i: int, req: &Req) -> bool where C: Fn(&Req) -> bool {
        call_ensures(self.routes()[i].0, (req,), true)
    }

    /// The `i`-th condition may say of `req` that it does not match.
    pub open spec fn may_miss<Req>(&self, i: int, req: &Req) -> bool where C: Fn(&Req) -> bool {
        call_ensures(self.routes()[i].0, (req,), false)
    }

    /// The route of a request: that of the first condition that matches,
    /// every condition before it having said no; the default route where
    /// every condition said no. It is combined with the target; there always
    /// is a result.
    pub fn recognize<Req>(&self, req: &Req) -> (recognized: Option<T::Output>) where
        T: WithRoute,
        C: Fn(&Req) -> bool,

        requires
            self.can_ask(req),
        ensures
            recognized.is_some(),
            (exists|i: int|
                0 <= i < self.routes().len() && self.may_match(i, req) && (forall|k: int|
                    0 <= k < i ==> self.may_miss(k, req)) && self.target().routed(
                    (#[trigger] self.routes()[i]).1,
                    recognized.unwrap(),
                )) || ((forall|k: int| 0 <= k < self.routes().len() ==> self.may_miss(k, req))
                && self.target().routed(self.default_route(), recognized.unwrap())),
            (forall|k: int| 0 <= k < self.routes().len() ==> !self.may_match(k, req))
                ==> self.target().routed(self.default_route(), recognized.unwrap()),
    {
        let mut i: usize = 0;
        while i < self.routes.len()
            invariant
                i <= self.routes().len(),
                self.can_ask(req),
                forall|k: int| 0 <= k < i ==> self.may_miss(k, req),
            decreases self.routes().len() - i,
        {
            let condition = &self.routes[i].0;
            if condition(req) {
                let out = self.target.with_route(self.routes[i].1.duplicate());
                let ghost at = i as int;
                assert(0 <= at < self.routes().len() && self.may_match(at, req) && (forall|k: int|
                    0 <= k < at ==> self.may_miss(k, req)) && self.target().routed(
                    self.routes()[at].1,
                    out,
                ));
                return Some(out);
            }
            i += 1;
        }
        Some(self.target.with_route(self.default_route.duplicate()))
    }
}

/// A target with its routes keys each request by the target combined with
/// the request's route, so that a router finds the service of that route.
impl<Req, T: WithRoute, C: Fn(&Req) -> bool> Key<Req> for RouteRecognize<T, C> {
    type Key = T::Output;

    open spec fn can_key(&self, req: &Req) -> bool {
        self.can_ask(req)
    }

    /// Every request has a key: the target with the route of the first
    /// condition that matches, or with the default route where none does.
    open spec fn keys(&self, req: &Req, key: Option<T::Output>) -> bool {
        &&& key.is_some()
        &&& (exists|i: int|
            0 <= i < self.routes().len() && self.may_match(i, req) && (forall|k: int|
                0 <= k < i ==> self.may_miss(k, req)) && self.target().routed(
                (#[trigger] self.routes()[i]).1,
                key.unwrap(),
            )) || ((forall|k: int| 0 <= k < self.routes().len() ==> self.may_miss(k, req))
            && self.target().routed(self.default_route(), key.unwrap()))
    }

    fn key(&self, req: &Req) -> (key: Option<T::Output>) {
        self.recognize(req)
    }
}

} // verus!
