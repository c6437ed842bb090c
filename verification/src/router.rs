//! The router: gives each request a routing key and sends it to the service
//! that the inner maker holds for that key.
//!
//! The router does not buffer. A request whose key cannot be told fails as
//! not recognized; what the inner maker answers for a key, a failure too, is
//! the router's answer.

use crate::stack::layer::Layer as StackLayer;
use crate::stack::make::Make;
use vstd::prelude::*;

pub mod layer;

verus! {

/// Tells the routing key of a request.
///
/// `keys(t, key)` relates a request to the keys that `key` may give for it;
/// `None` stands for a request that has no key. `can_key(t)` says of which
/// requests `key` may be asked.
pub trait Key<T> {
    type Key;

    open spec fn can_key(&self, t: &T) -> bool {
        true
    }

    open spec fn keys(&self, t: &T, key: Option<Self::Key>) -> bool {
        true
    }

    fn key(&self, t: &T) -> (key: Option<Self::Key>)
        requires
            self.can_key(t),
        ensures
            self.keys(t, key),
    ;
}

/// A request has no routing key.
#[derive(Clone, Copy, Debug, PartialEq, Eq, Structural)]
pub struct NotRecognized;

#[derive(Clone, Debug)]
pub struct Layer<T> {
    pub make_key: T,
}

#[derive(Clone, Debug)]
pub struct MakeRouter<T, M> {
    pub make_key: T,
    pub make_route: M,
}

#[derive(Clone, Debug)]
pub struct Router<T, M> {
    pub key: T,
    pub make: M,
}

impl<K: Clone> Layer<K> {
    pub fn new(make_key: K) -> (layer: Self)
        ensures
            layer.make_key == make_key,
    {
        Layer { make_key }
    }
}

impl<K: Clone, M> StackLayer<M> for Layer<K> {
    type Service = MakeRouter<K, M>;

    open spec fn accepts(&self, inner: M) -> bool {
        true
    }

    open spec fn layers(&self, inner: M, outer: MakeRouter<K, M>) -> bool {
        outer.make_route == inner && cloned(self.make_key, outer.make_key)
    }

    fn layer(&self, make_route: M) -> (outer: MakeRouter<K, M>) {
        MakeRouter { make_route, make_key: self.make_key.clone() }
    }
}

impl<T, K, M> Make<T> for MakeRouter<K, M> where K: Make<T>, M: Clone {
    type Service = Router<K::Service, M>;

    open spec fn can_make(&self, t: T) -> bool {
        self.make_key.can_make(t)
    }

    open spec fn makes(&self, t: T, router: Router<K::Service, M>) -> bool {
        self.make_key.makes(t, router.key) && cloned(self.make_route, router.make)
    }

    fn make(&self, t: T) -> (router: Router<K::Service, M>) {
        Router { key: self.make_key.make(t), make: self.make_route.clone() }
    }
}

impl<K, M> Router<K, M> {
    /// `service` may be what the router gives for `req`: the inner maker's
    /// service for one of the request's keys.
    pub open spec fn routes<U>(&self, req: &U, service: M::Service) -> bool where
        K: Key<U>,
        M: Make<K::Key>,
     {
        exists|key: K::Key| #[trigger]
            self.key.keys(req, Some(key)) && self.make.makes(key, service)
    }

    /// Every request's key can be asked for, and the inner maker can be
    /// asked for the service of every key that may come.
    pub open spec fn can_route<U>(&self, req: &U) -> bool where K: Key<U>, M: Make<K::Key> {
        &&& self.key.can_key(req)
        &&& forall|key: K::Key| #[trigger]
            self.key.keys(req, Some(key)) ==> self.make.can_make(key)
    }

    /// The router is always ready.
    pub fn poll_ready(&self) -> (ready: bool)
        ensures
            ready,
    {
        true
    }

    /// The service for `req`, to be driven to readiness and called once
    /// with the request.
    pub fn call<U>(&self, req: &U) -> (res: Result<M::Service, NotRecognized>) where
        K: Key<U>,
        M: Make<K::Key>,

        requires
            self.can_route(req),
        ensures
            res is Err ==> self.key.keys(req, None),
            res is Ok ==> self.routes(req, res.unwrap()),
            !self.key.keys(req, None) ==> res is Ok,
    {
        match self.key.key(req) {
            None => Err(NotRecognized),
            Some(key) => {
                let ghost routed = key;
                let service = self.make.make(key);
                proof {
                    assert(self.key.keys(req, Some(routed)) && self.make.makes(routed, service));
                }
                Ok(service)
            },
        }
    }
}

/// A closure is a key extractor that always gives a key.
impl<T, K, F> Key<T> for F where F: Fn(&T) -> K {
    type Key = K;

    open spec fn can_key(&self, t: &T) -> bool {
        call_requires(*self, (t,))
    }

    open spec fn keys(&self, t: &T, key: Option<K>) -> bool {
        key.is_some() && call_ensures(*self, (t,), key.unwrap())
    }

    fn key(&self, t: &T) -> (key: Option<K>) {
        Some(self(t))
    }
}

} // verus!
