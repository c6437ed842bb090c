//! A layer that puts a cache in front of a maker of routes.

use crate::cache;
use crate::stack::layer::Layer as StackLayer;
use crate::stack::make::Make;
use vstd::prelude::*;

verus! {

#[derive(Clone, Copy, Debug, PartialEq, Eq, Structural)]
pub struct Config {
    pub capacity: usize,
    /// In milliseconds.
    pub max_idle_age: u64,
}

/// A layer that builds a routing service: targets that are not resident have
/// their service made by the inner maker and kept.
#[derive(Clone, Copy, Debug)]
pub struct Layer {
    pub config: Config,
}

#[derive(Clone, Debug)]
pub struct MakeRouter<M> {
    pub config: Config,
    pub inner: M,
}

impl Layer {
    pub fn new(capacity: usize, max_idle_age: u64) -> (layer: Self)
        ensures
            layer.config == (Config { capacity, max_idle_age }),
    {
        Layer { config: Config { capacity, max_idle_age } }
    }
}

impl<M> StackLayer<M> for Layer {
    type Service = MakeRouter<M>;

    open spec fn accepts(&self, inner: M) -> bool {
        true
    }

    open spec fn layers(&self, inner: M, outer: MakeRouter<M>) -> bool {
        outer.inner == inner && outer.config == self.config
    }

    fn layer(&self, inner: M) -> (outer: MakeRouter<M>) {
        MakeRouter { inner, config: self.config }
    }
}

impl<M> MakeRouter<M> {
    /// An empty cache over a clone of the inner maker, with the configured
    /// capacity and idle age. Purging it from time to time is the caller's
    /// part.
    pub fn spawn<T>(&self) -> (router: cache::Service<T, M>) where M: Make<T> + Clone
        ensures
            router.wf(),
            cloned(self.inner, router.maker()),
            router.cache().entries().len() == 0,
            router.cache().spec_capacity() == self.config.capacity,
            router.cache().spec_max_idle_age() == self.config.max_idle_age,
    {
        cache::Service::new(self.inner.clone(), self.config.capacity, self.config.max_idle_age)
    }
}

} // verus!
