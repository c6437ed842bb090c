//! Making and serving in one step: a pair of a target and a request is
//! answered by the service that is made for the target.

use crate::poll::{Async, Poll};
use crate::stack::layer::Layer as StackLayer;
use vstd::prelude::*;

verus! {

#[derive(Clone, Copy, Debug)]
pub struct Layer(pub ());

#[derive(Clone, Copy, Debug)]
pub struct Make<S> {
    pub inner: S,
}

#[derive(Clone, Copy, Debug)]
pub struct Service<S> {
    pub inner: S,
}

/// The answer to a pair of a target and a request, as far as it has come.
#[derive(Debug)]
pub enum ResponseFuture<F, S, Req> {
    /// The service is being made; the request waits.
    Make(F, Option<Req>),
    /// The service was made and serves the request.
    Serve(S),
}

impl Layer {
    pub fn new() -> Self {
        Layer(())
    }
}

impl<S> StackLayer<S> for Layer {
    type Service = Make<S>;

    open spec fn accepts(&self, inner: S) -> bool {
        true
    }

    open spec fn layers(&self, inner: S, outer: Make<S>) -> bool {
        outer.inner == inner
    }

    fn layer(&self, inner: S) -> (outer: Make<S>) {
        Make { inner }
    }
}

impl<S> Make<S> {
    /// Begins the answer to a pair: the target goes to the maker, whose
    /// making `F` stands for, and the request waits.
    pub fn call<F, Svc, Req>(&self, making: F, req: Req) -> (future: ResponseFuture<F, Svc, Req>)
        ensures
            future == ResponseFuture::<F, Svc, Req>::Make(making, Some(req)),
    {
        ResponseFuture::Make(making, Some(req))
    }
}

impl<F, S, Req> ResponseFuture<F, S, Req> {
    /// Takes what the making gave: once the service is made, it serves, and
    /// the request that waited is handed out to be sent to it. "Not yet" and
    /// a failure are the answer; so is everything outside the first phase.
    pub fn made<E>(&mut self, polled: Poll<S, E>) -> (request: Poll<Req, E>)
        ensures
            match (*old(self), polled) {
                (ResponseFuture::Make(_, Some(req)), Ok(Async::Ready(service))) => {
                    &&& request == Ok::<Async<Req>, E>(Async::Ready(req))
                    &&& *final(self) == ResponseFuture::<F, S, Req>::Serve(service)
                },
                (_, Err(e)) => request == Err::<Async<Req>, E>(e) && *final(self) == *old(self),
                _ => request == Ok::<Async<Req>, E>(Async::NotReady) && *final(self) == *old(self),
            },
    {
        match polled {
            Err(e) => Err(e),
            Ok(Async::NotReady) => Ok(Async::NotReady),
            Ok(Async::Ready(service)) => {
                let waiting = match self {
                    ResponseFuture::Make(_, req) => req.is_some(),
                    ResponseFuture::Serve(_) => false,
                };
                if !waiting {
                    return Ok(Async::NotReady);
                }
                let taken = match self {
                    ResponseFuture::Make(_, req) => req.take(),
                    ResponseFuture::Serve(_) => None,
                };
                match taken {
                    Some(req) => {
                        *self = ResponseFuture::Serve(service);
                        Ok(Async::Ready(req))
                    },
                    None => Ok(Async::NotReady),
                }
            },
        }
    }
}

} // verus!
