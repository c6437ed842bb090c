//! Makers that hand a service out only once it is ready.

use crate::poll::{Async, Poll};
use crate::stack::layer::Layer as StackLayer;
use std::marker::PhantomData;
use vstd::prelude::*;

verus! {

#[derive(Debug)]
pub struct Layer<Req>(pub PhantomData<Req>);

/// A maker that hands a service out only once it is ready for a `Req`.
#[derive(Debug)]
pub struct MakeReady<M, Req> {
    pub inner: M,
    pub request: PhantomData<Req>,
}

/// A service on its way out of a `MakeReady`.
#[derive(Debug)]
pub enum MakeReadyFuture<F, S> {
    /// The service is being made; `F` stands for the making.
    Making(F),
    /// The service was made and is asked for readiness until it is ready.
    Ready(Option<S>),
}

impl<Req> Layer<Req> {
    pub fn new() -> Self {
        Layer(PhantomData)
    }
}

impl<M, Req> StackLayer<M> for Layer<Req> {
    type Service = MakeReady<M, Req>;

    open spec fn accepts(&self, inner: M) -> bool {
        true
    }

    open spec fn layers(&self, inner: M, outer: MakeReady<M, Req>) -> bool {
        outer.inner == inner
    }

    fn layer(&self, inner: M) -> (outer: MakeReady<M, Req>) {
        MakeReady { inner, request: PhantomData }
    }
}

impl<F, S> MakeReadyFuture<F, S> {
    /// Takes what the making gave: a service that was made is asked for
    /// readiness next.
    pub fn made<E>(&mut self, polled: Poll<S, E>) -> (res: Poll<(), E>)
        ensures
            match polled {
                Ok(Async::Ready(service)) => *final(self) == MakeReadyFuture::<F, S>::Ready(
                    Some(service),
                ) && res == Ok::<Async<()>, E>(Async::Ready(())),
                Ok(Async::NotReady) => *final(self) == *old(self) && res == Ok::<Async<()>, E>(
                    Async::NotReady,
                ),
                Err(e) => *final(self) == *old(self) && res == Err::<Async<()>, E>(e),
            },
    {
        match polled {
            Ok(Async::Ready(service)) => {
                *self = MakeReadyFuture::Ready(Some(service));
                Ok(Async::Ready(()))
            },
            Ok(Async::NotReady) => Ok(Async::NotReady),
            Err(e) => Err(e),
        }
    }

    /// Takes the service's answer on readiness: a ready service is handed
    /// out, once.
    pub fn ready<E>(&mut self, polled: Poll<(), E>) -> (res: Poll<S, E>)
        ensures
            match (polled, *old(self)) {
                (Ok(Async::Ready(())), MakeReadyFuture::Ready(Some(service))) => {
                    &&& res == Ok::<Async<S>, E>(Async::Ready(service))
                    &&& *final(self) == MakeReadyFuture::<F, S>::Ready(None)
                },
                (Err(e), _) => res == Err::<Async<S>, E>(e) && *final(self) == *old(self),
                _ => res == Ok::<Async<S>, E>(Async::NotReady) && *final(self) == *old(self),
            },
    {
        match polled {
            Ok(Async::Ready(())) => match self {
                MakeReadyFuture::Ready(slot) => match slot.take() {
                    Some(service) => Ok(Async::Ready(service)),
                    None => Ok(Async::NotReady),
                },
                MakeReadyFuture::Making(_) => Ok(Async::NotReady),
            },
            Ok(Async::NotReady) => Ok(Async::NotReady),
            Err(e) => Err(e),
        }
    }
}

} // verus!
