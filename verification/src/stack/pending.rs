//! Services that are still being made.
//!
//! A maker that takes time is turned into one that answers at once, with a
//! service that is not ready until the making is done.

use crate::poll::{Async, Poll};
use crate::stack::layer::Layer as StackLayer;
use vstd::prelude::*;

verus! {

#[derive(Clone, Copy, Debug)]
pub struct Layer(());

/// A maker whose services may still be in the making.
#[derive(Clone, Copy, Debug)]
pub struct MakePending<M> {
    pub inner: M,
}

/// A service that is being made, or was made.
#[derive(Debug)]
pub enum Pending<F, S> {
    /// The making is under way; `F` stands for it.
    Making(F),
    Made(S),
}

pub fn layer() -> Layer {
    Layer(())
}

impl<M> StackLayer<M> for Layer {
    type Service = MakePending<M>;

    open spec fn accepts(&self, inner: M) -> bool {
        true
    }

    open spec fn layers(&self, inner: M, outer: MakePending<M>) -> bool {
        outer.inner == inner
    }

    fn layer(&self, inner: M) -> (outer: MakePending<M>) {
        MakePending { inner }
    }
}

impl<M> MakePending<M> {
    /// The service for a making that has begun.
    pub fn call<F, S>(&self, making: F) -> (pending: Pending<F, S>)
        ensures
            pending == Pending::<F, S>::Making(making),
    {
        Pending::Making(making)
    }
}

impl<F, S> Pending<F, S> {
    /// Takes what the making gave. Once it gave a service, the service is
    /// what is asked from then on; until then the answer is the making's.
    /// Returns whether the service is there to be asked for readiness.
    pub fn made<E>(&mut self, polled: Poll<S, E>) -> (res: Poll<(), E>)
        ensures
            match polled {
                Ok(Async::Ready(service)) => *final(self) == Pending::<F, S>::Made(service) && res
                    == Ok::<Async<()>, E>(Async::Ready(())),
                Ok(Async::NotReady) => *final(self) == *old(self) && res == Ok::<Async<()>, E>(
                    Async::NotReady,
                ),
                Err(e) => *final(self) == *old(self) && res == Err::<Async<()>, E>(e),
            },
    {
        match polled {
            Ok(Async::Ready(service)) => {
                *self = Pending::Made(service);
                Ok(Async::Ready(()))
            },
            Ok(Async::NotReady) => Ok(Async::NotReady),
            Err(e) => Err(e),
        }
    }

    /// The service, once it was made.
    pub fn service(&self) -> (service: Option<&S>)
        ensures
            match *self {
                Pending::Made(s) => service == Some(&s),
                Pending::Making(_) => service.is_none(),
            },
    {
        match self {
            Pending::Made(s) => Some(s),
            Pending::Making(_) => None,
        }
    }
}

} // verus!
