//! Per-request routes over a common inner service.

use crate::proxy::http::profiles::{Route, WithRoute};
use crate::stack::make::Make;
use vstd::prelude::*;

verus! {

/// Which route a request takes.
#[derive(Clone, Copy, Debug, PartialEq, Eq, Structural)]
pub enum Selected {
    /// The configured route at this place in the list.
    Route(usize),
    /// The default route.
    Default,
}

/// The routes of one target: a proxy per configured condition, and one for
/// the requests that match none.
#[derive(Debug)]
pub struct Requests<T: WithRoute, M: Make<T::Output>, C> {
    target: T,
    make: M,
    default: M::Service,
    routes: Vec<(C, M::Service)>,
}

impl<T: WithRoute, M: Make<T::Output>, C> Requests<T, M, C> {
    pub closed spec fn target(&self) -> T {
        self.target
    }

    pub closed spec fn maker(&self) -> M {
        self.make
    }

    /// The proxy of the default route.
    pub closed spec fn default_proxy(&self) -> M::Service {
        self.default
    }

    /// The configured routes: each condition with its proxy, in the order in
    /// which they are tried.
    pub closed spec fn routes(&self) -> Seq<(C, M::Service)> {
        self.routes@
    }

    /// `proxy` may have been made for the target combined with `route`.
    pub open spec fn builds(&self, route: Route, proxy: M::Service) -> bool {
        exists|t: T::Output| self.target().routed(route, t) && #[trigger] self.maker().makes(t, proxy)
    }

    /// The maker can be asked for the proxy of every route.
    pub open spec fn can_build(&self) -> bool {
        forall|route: Route, t: T::Output| #[trigger]
            self.target().routed(route, t) ==> self.maker().can_make(t)
    }

    /// The `i`-th condition may say of `req` that it matches.
    pub open spec fn may_match<Req>(&self, i: int, req: &Req) -> bool where C: Fn(&Req) -> bool {
        call_ensures(self.routes()[i].0, (req,), true)
    }

    /// The `i`-th condition may say of `req` that it does not match.
    pub open spec fn may_miss<Req>(&self, i: int, req: &Req) -> bool where C: Fn(&Req) -> bool {
        call_ensures(self.routes()[i].0, (req,), false)
    }

    /// Every condition can be asked about `req`.
    pub open spec fn can_ask<Req>(&self, req: &Req) -> bool where C: Fn(&Req) -> bool {
        forall|i: int| 0 <= i < self.routes().len() ==> call_requires(self.routes()[i].0, (req,))
    }

    /// The routes of `target`, with a proxy for the default route and no
    /// configured route yet.
    pub fn new(target: T, make: M, default: Route) -> (requests: Self)
        requires
            forall|t: T::Output| #[trigger] target.routed(default, t) ==> make.can_make(t),
        ensures
            requests.target() == target,
            requests.maker() == make,
            requests.routes().len() == 0,
            requests.builds(default, requests.default_proxy()),
    {
        let t = target.with_route(default);
        let ghost made_for = t;
        let proxy = make.make(t);
        let requests = Requests { target, make, default: proxy, routes: Vec::new() };
        proof {
            assert(requests.target().routed(default, made_for) && requests.maker().makes(
                made_for,
                requests.default_proxy(),
            ));
        }
        requests
    }

    /// Replaces the configured routes: each condition keeps its place, with
    /// a proxy made for its route.
    pub fn set_routes(&mut self, routes: Vec<(C, Route)>)
        requires
            old(self).can_build(),
        ensures
            final(self).target() == old(self).target(),
            final(self).maker() == old(self).maker(),
            final(self).default_proxy() == old(self).default_proxy(),
            final(self).routes().len() == routes@.len(),
            forall|i: int|
                0 <= i < routes@.len() ==> {
                    &&& (#[trigger] final(self).routes()[i]).0 == routes@[i].0
                    &&& old(self).builds(routes@[i].1, final(self).routes()[i].1)
                },
    {
        let ghost given = routes@;
        let mut pending = routes;
        let mut reversed: Vec<(C, Route)> = Vec::new();
        while pending.len() > 0
            invariant
                pending@.len() + reversed@.len() == given.len(),
                forall|k: int| 0 <= k < pending@.len() ==> pending@[k] == given[k],
                forall|k: int|
                    0 <= k < reversed@.len() ==> reversed@[k] == given[given.len() - 1 - k],
            decreases pending@.len(),
        {
            let last = pending.pop().unwrap();
            reversed.push(last);
        }
        let mut built: Vec<(C, M::Service)> = Vec::new();
        while reversed.len() > 0
            invariant
                *self == *old(self),
                self.can_build(),
                built@.len() + reversed@.len() == given.len(),
                forall|k: int|
                    0 <= k < reversed@.len() ==> reversed@[k] == given[given.len() - 1 - k],
                forall|k: int|
                    0 <= k < built@.len() ==> {
                        &&& (#[trigger] built@[k]).0 == given[k].0
                        &&& self.builds(given[k].1, built@[k].1)
                    },
            decreases reversed@.len(),
        {
            let ghost at = built@.len() as int;
            let (condition, route) = reversed.pop().unwrap();
            assert(route == given[at].1);
            let t = self.target.with_route(route);
            let ghost made_for = t;
            assert(self.target().routed(given[at].1, made_for));
            assert(self.maker().can_make(made_for));
            let proxy = self.make.make(t);
            proof {
                assert(self.target().routed(given[at].1, made_for) && self.maker().makes(
                    made_for,
                    proxy,
                ));
            }
            built.push((condition, proxy));
        }
        self.routes = built;
    }

    /// The number of configured routes.
    pub fn len(&self) -> (n: usize)
        ensures
            n == self.routes().len(),
    {
        self.routes.len()
    }

    /// Picks the route of a request: the first configured route whose
    /// condition matches, else the default route.
    ///
    /// The conditions are asked in order, each at most once, and none after
    /// the first that matches. A request that no condition can match takes
    /// the default route.
    pub fn select<Req>(&self, req: &Req) -> (selected: Selected) where C: Fn(&Req) -> bool
        requires
            self.can_ask(req),
        ensures
            match selected {
                Selected::Route(i) => {
                    &&& i < self.routes().len()
                    &&& self.may_match(i as int, req)
                    &&& forall|k: int| 0 <= k < i ==> self.may_miss(k, req)
                },
                Selected::Default => forall|k: int|
                    0 <= k < self.routes().len() ==> self.may_miss(k, req),
            },
            (forall|k: int| 0 <= k < self.routes().len() ==> !self.may_match(k, req)) ==> selected
                == Selected::Default,
    {
        let mut i: usize = 0;
        while i < self.routes.len()
            invariant
                i <= self.routes().len(),
                self.can_ask(req),
                forall|k: int| 0 <= k < i ==> self.may_miss(k, req),
            decreases self.routes().len() - i,
        {
            let condition = &self.routes[i].0;
            if condition(req) {
                return Selected::Route(i);
            }
            i += 1;
        }
        Selected::Default
    }

    /// The proxy of a selected route.
    pub fn proxy_of(&self, selected: Selected) -> (proxy: &M::Service)
        requires
            selected matches Selected::Route(i) ==> i < self.routes().len(),
        ensures
            *proxy == (match selected {
                Selected::Route(i) => self.routes()[i as int].1,
                Selected::Default => self.default_proxy(),
            }),
    {
        match selected {
            Selected::Route(i) => &self.routes[i].1,
            Selected::Default => &self.default,
        }
    }

    /// The proxy through which a request goes: that of the first configured
    /// route whose condition matches, every condition before it having said
    /// no; the default proxy where every condition said no.
    pub fn proxy<Req>(&self, req: &Req) -> (proxy: &M::Service) where C: Fn(&Req) -> bool
        requires
            self.can_ask(req),
        ensures
            (forall|k: int| 0 <= k < self.routes().len() ==> !self.may_match(k, req)) ==> *proxy
                == self.default_proxy(),
            (exists|i: int|
                0 <= i < self.routes().len() && self.may_match(i, req) && (forall|k: int|
                    0 <= k < i ==> self.may_miss(k, req)) && *proxy
                    == (#[trigger] self.routes()[i]).1) || ((forall|k: int|
                0 <= k < self.routes().len() ==> self.may_miss(k, req)) && *proxy
                == self.default_proxy()),
    {
        let selected = self.select(req);
        proof {
            if let Selected::Route(i) = selected {
                let at = i as int;
                assert(0 <= at < self.routes().len() && self.may_match(at, req) && (forall|k: int|
                    0 <= k < at ==> self.may_miss(k, req)));
            }
        }
        self.proxy_of(selected)
    }
}

} // verus!
