//! Restoring inbound requests to their original protocol.

use crate::proxy::http::orig_proto::Downgrade;
use crate::stack::layer::Layer as StackLayer;
use crate::stack::make::Make;
use vstd::prelude::*;

verus! {

#[derive(Clone, Copy, Debug)]
pub struct Layer(pub ());

#[derive(Clone, Copy, Debug)]
pub struct Stack<M> {
    pub inner: M,
}

pub fn layer() -> Layer {
    Layer(())
}

impl<M> StackLayer<M> for Layer {
    type Service = Stack<M>;

    open spec fn accepts(&self, inner: M) -> bool {
        true
    }

    open spec fn layers(&self, inner: M, outer: Stack<M>) -> bool {
        outer.inner == inner
    }

    fn layer(&self, inner: M) -> (outer: Stack<M>) {
        Stack { inner }
    }
}

impl<T, M> Make<T> for Stack<M> where M: Make<T> {
    type Service = Downgrade<M::Service>;

    open spec fn can_make(&self, target: T) -> bool {
        self.inner.can_make(target)
    }

    open spec fn makes(&self, target: T, service: Downgrade<M::Service>) -> bool {
        self.inner.makes(target, service.inner)
    }

    fn make(&self, target: T) -> (service: Downgrade<M::Service>) {
        Downgrade::new(self.inner.make(target))
    }
}

} // verus!
