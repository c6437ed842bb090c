//! Load shedding: a request that finds the inner service not ready is not
//! kept waiting; it fails at once as overloaded.

use crate::poll::{Async, Poll};
use crate::stack::layer::Layer as StackLayer;
use vstd::prelude::*;

verus! {

/// The service had no room for the request.
#[derive(Clone, Copy, Debug, PartialEq, Eq, Structural)]
pub struct Overloaded;

#[derive(Copy, Clone, Debug)]
pub struct Layer;

/// A service that sheds load.
#[derive(Clone, Copy, Debug)]
pub struct LoadShed<S> {
    inner: S,
    is_ready: bool,
}

/// Where a call goes.
#[derive(Clone, Copy, Debug, PartialEq, Eq, Structural)]
pub enum Dispatch {
    /// To the inner service.
    Inner,
    /// Nowhere: the request fails as overloaded.
    Overloaded,
}

impl<S> StackLayer<S> for Layer {
    type Service = LoadShed<S>;

    open spec fn accepts(&self, inner: S) -> bool {
        true
    }

    open spec fn layers(&self, inner: S, outer: LoadShed<S>) -> bool {
        outer.inner() == inner && !outer.is_ready()
    }

    fn layer(&self, inner: S) -> (outer: LoadShed<S>) {
        LoadShed::new(inner)
    }
}

impl<S> LoadShed<S> {
    pub closed spec fn inner(&self) -> S {
        self.inner
    }

    /// Whether the inner service was ready when it was asked last, and was
    /// not called since.
    pub closed spec fn is_ready(&self) -> bool {
        self.is_ready
    }

    pub fn new(inner: S) -> (service: Self)
        ensures
            service.inner() == inner,
            !service.is_ready(),
    {
        LoadShed { inner, is_ready: false }
    }

    /// The inner service.
    pub fn get_ref(&self) -> (inner: &S)
        ensures
            *inner == self.inner(),
    {
        &self.inner
    }

    /// The inner service, to ask and call it.
    pub fn get_mut(&mut self) -> (inner: &mut S)
        ensures
            *inner == old(self).inner(),
            final(self).inner() == *final(inner),
            final(self).is_ready() == old(self).is_ready(),
    {
        &mut self.inner
    }

    /// Takes the inner service's answer on readiness. The shedding service
    /// is always ready itself; only a failure of the inner one is passed on.
    pub fn poll_ready<E>(&mut self, polled: Poll<(), E>) -> (res: Poll<(), E>)
        ensures
            final(self).inner() == old(self).inner(),
            match polled {
                Ok(inner) => res == Ok::<Async<()>, E>(Async::Ready(())) && final(self).is_ready()
                    == (inner is Ready),
                Err(e) => res == Err::<Async<()>, E>(e) && final(self).is_ready() == old(
                    self,
                ).is_ready(),
            },
    {
        match polled {
            Ok(inner) => {
                self.is_ready = inner.is_ready();
                Ok(Async::Ready(()))
            },
            Err(e) => Err(e),
        }
    }

    /// Where the next call goes: to the inner service if it was ready, else
    /// nowhere. Either way the inner service is to be asked again before the
    /// call after.
    pub fn call(&mut self) -> (dispatch: Dispatch)
        ensures
            final(self).inner() == old(self).inner(),
            !final(self).is_ready(),
            dispatch == (if old(self).is_ready() {
                Dispatch::Inner
            } else {
                Dispatch::Overloaded
            }),
    {
        let ready = self.is_ready;
        self.is_ready = false;
        if ready {
            Dispatch::Inner
        } else {
            Dispatch::Overloaded
        }
    }
}

} // verus!
