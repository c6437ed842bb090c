//! Changing requests on their way in.

use crate::stack::layer::Layer as StackLayer;
use crate::stack::make::Make as StackMake;
use vstd::prelude::*;

verus! {

#[derive(Clone, Copy, Debug)]
pub struct Layer<F>(pub F);

#[derive(Clone, Copy, Debug)]
pub struct Make<S, F> {
    pub inner: S,
    pub map_request: F,
}

/// A service on its way out of a `Make`.
#[derive(Clone, Copy, Debug)]
pub struct MakeFuture<Fut, F> {
    pub inner: Fut,
    pub map_request: F,
}

/// A service that is given every request changed by a function.
#[derive(Clone, Copy, Debug)]
pub struct MapRequest<S, F> {
    pub inner: S,
    pub map_request: F,
}

impl<F> Layer<F> {
    pub fn new(f: F) -> (layer: Self)
        ensures
            layer.0 == f,
    {
        Layer(f)
    }
}

impl<S, F: Clone> StackLayer<S> for Layer<F> {
    type Service = Make<S, F>;

    open spec fn accepts(&self, inner: S) -> bool {
        true
    }

    open spec fn layers(&self, inner: S, outer: Make<S, F>) -> bool {
        outer.inner == inner && cloned(self.0, outer.map_request)
    }

    fn layer(&self, inner: S) -> (outer: Make<S, F>) {
        Make { inner, map_request: self.0.clone() }
    }
}

impl<T, S, F> StackMake<T> for Make<S, F> where S: StackMake<T>, F: Clone {
    type Service = MapRequest<S::Service, F>;

    open spec fn can_make(&self, target: T) -> bool {
        self.inner.can_make(target)
    }

    open spec fn makes(&self, target: T, service: MapRequest<S::Service, F>) -> bool {
        self.inner.makes(target, service.inner) && cloned(self.map_request, service.map_request)
    }

    fn make(&self, target: T) -> (service: MapRequest<S::Service, F>) {
        MapRequest { inner: self.inner.make(target), map_request: self.map_request.clone() }
    }
}

impl<S, F> Make<S, F> {
    /// Begins the making of a service: the function goes with what the inner
    /// making gives.
    pub fn call<Fut>(&self, inner: Fut) -> (future: MakeFuture<Fut, F>) where F: Clone
        ensures
            future.inner == inner,
            cloned(self.map_request, future.map_request),
    {
        MakeFuture { inner, map_request: self.map_request.clone() }
    }
}

impl<Fut, F> MakeFuture<Fut, F> {
    /// Takes the service that the inner making gave.
    pub fn made<S>(&self, inner: S) -> (service: MapRequest<S, F>) where F: Clone
        ensures
            service.inner == inner,
            cloned(self.map_request, service.map_request),
    {
        MapRequest { inner, map_request: self.map_request.clone() }
    }
}

impl<S, F> MapRequest<S, F> {
    /// The request that the inner service is given in place of `req`.
    pub fn call<I, O>(&self, req: I) -> (mapped: O) where F: Fn(I) -> O
        requires
            call_requires(self.map_request, (req,)),
        ensures
            call_ensures(self.map_request, (req,), mapped),
    {
        (self.map_request)(req)
    }
}

} // verus!
