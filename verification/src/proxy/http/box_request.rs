//! Hiding the type of request bodies.

use crate::stack::layer::Layer as StackLayer;
use vstd::prelude::*;

verus! {

#[derive(Clone, Copy, Debug)]
pub struct Layer(pub ());

/// A service that is given every request with the type of its body hidden.
#[derive(Clone, Copy, Debug)]
pub struct BoxRequest<S>(pub S);

impl Layer {
    pub fn new() -> Self {
        Layer(())
    }
}

impl<S> StackLayer<S> for Layer {
    type Service = BoxRequest<S>;

    open spec fn accepts(&self, inner: S) -> bool {
        true
    }

    open spec fn layers(&self, inner: S, outer: BoxRequest<S>) -> bool {
        outer.0 == inner
    }

    fn layer(&self, inner: S) -> (outer: BoxRequest<S>) {
        BoxRequest(inner)
    }
}

} // verus!
