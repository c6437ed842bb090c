//! Applying a layer to every service that a maker makes.

use crate::stack::layer::Layer as StackLayer;
use crate::stack::make::Make;
use vstd::prelude::*;

verus! {

/// Wraps a maker so that each of its services goes through a layer.
#[derive(Clone, Copy, Debug)]
pub struct Layer<L>(pub L);

/// A maker whose services go through a layer.
#[derive(Clone, Copy, Debug)]
pub struct PerMake<L, M> {
    pub layer: L,
    pub make: M,
}

pub fn layer<L>(per_make: L) -> (wrapped: Layer<L>)
    ensures
        wrapped.0 == per_make,
{
    Layer(per_make)
}

impl<L: Clone, M> StackLayer<M> for Layer<L> {
    type Service = PerMake<L, M>;

    open spec fn accepts(&self, inner: M) -> bool {
        true
    }

    open spec fn layers(&self, inner: M, outer: PerMake<L, M>) -> bool {
        outer.make == inner && cloned(self.0, outer.layer)
    }

    fn layer(&self, inner: M) -> (outer: PerMake<L, M>) {
        PerMake { layer: self.0.clone(), make: inner }
    }
}

impl<T, L, M> Make<T> for PerMake<L, M> where M: Make<T>, L: StackLayer<M::Service> {
    type Service = L::Service;

    open spec fn can_make(&self, target: T) -> bool {
        &&& self.make.can_make(target)
        &&& forall|made: M::Service| #[trigger]
            self.make.makes(target, made) ==> self.layer.accepts(made)
    }

    open spec fn makes(&self, target: T, service: L::Service) -> bool {
        exists|made: M::Service| #[trigger]
            self.make.makes(target, made) && self.layer.layers(made, service)
    }

    fn make(&self, target: T) -> (service: L::Service) {
        let made = self.make.make(target);
        self.layer.layer(made)
    }
}

} // verus!
