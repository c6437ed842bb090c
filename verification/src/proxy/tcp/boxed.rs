//! Hiding the type of a forwarding service.

use crate::stack::layer::Layer as StackLayer;
use std::marker::PhantomData;
use vstd::prelude::*;

verus! {

#[derive(Debug)]
pub struct Layer<C>(pub PhantomData<C>);

/// A maker whose services have their type hidden when they are handed out.
#[derive(Debug)]
pub struct Make<C, M> {
    pub inner: M,
    pub marker: PhantomData<C>,
}

impl<C> Layer<C> {
    pub fn new() -> Self {
        Layer(PhantomData)
    }
}

impl<C> Clone for Layer<C> {
    fn clone(&self) -> (copy: Self) {
        Layer(PhantomData)
    }
}

impl<C, M> StackLayer<M> for Layer<C> {
    type Service = Make<C, M>;

    open spec fn accepts(&self, inner: M) -> bool {
        true
    }

    open spec fn layers(&self, inner: M, outer: Make<C, M>) -> bool {
        outer.inner == inner
    }

    fn layer(&self, inner: M) -> (outer: Make<C, M>) {
        Make { inner, marker: PhantomData }
    }
}

impl<C, M: Clone> Clone for Make<C, M> {
    fn clone(&self) -> (copy: Self)
        ensures
            cloned(self.inner, copy.inner),
    {
        Make { inner: self.inner.clone(), marker: PhantomData }
    }
}

} // verus!
