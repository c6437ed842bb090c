//! Forwarding a connection: a connection to the target is made, and then
//! the bytes go both ways.

use crate::poll::{Async, Poll};
use crate::stack::layer::Layer as StackLayer;
use crate::stack::make::Make;
use vstd::prelude::*;

verus! {

#[derive(Clone, Copy, Debug)]
pub struct Layer(pub ());

#[derive(Clone, Copy, Debug)]
pub struct MakeForward<C> {
    pub connect: C,
}

#[derive(Clone, Copy, Debug)]
pub struct Forward<C, T> {
    pub connect: C,
    pub target: T,
}

/// A forwarding, as far as it has come. `F` stands for the connecting.
#[derive(Debug)]
pub enum ForwardFuture<I, F, O> {
    /// The connection to the target is being made; the accepted one waits.
    Connect { connect: F, io: Option<I> },
    /// Both connections are there: the accepted one and the one that was
    /// made.
    Duplex(I, O),
}

impl Layer {
    pub fn new() -> Self {
        Layer(())
    }
}

impl<C> StackLayer<C> for Layer {
    type Service = MakeForward<C>;

    open spec fn accepts(&self, inner: C) -> bool {
        true
    }

    open spec fn layers(&self, inner: C, outer: MakeForward<C>) -> bool {
        outer.connect == inner
    }

    fn layer(&self, connect: C) -> (outer: MakeForward<C>) {
        MakeForward { connect }
    }
}

impl<C: Clone, T> Make<T> for MakeForward<C> {
    type Service = Forward<C, T>;

    open spec fn can_make(&self, target: T) -> bool {
        true
    }

    open spec fn makes(&self, target: T, service: Forward<C, T>) -> bool {
        service.target == target && cloned(self.connect, service.connect)
    }

    fn make(&self, target: T) -> (service: Forward<C, T>) {
        Forward { connect: self.connect.clone(), target }
    }
}

impl<C, T> Forward<C, T> {
    /// Begins to forward an accepted connection: a connection to a clone of
    /// the target is to be made, which `connect` stands for.
    pub fn call<I, F, O>(&self, io: I, connect: F) -> (future: ForwardFuture<I, F, O>)
        ensures
            future == (ForwardFuture::<I, F, O>::Connect { connect, io: Some(io) }),
    {
        ForwardFuture::Connect { connect, io: Some(io) }
    }

    /// The target to connect to.
    pub fn target(&self) -> (target: T) where T: Clone
        ensures
            cloned(self.target, target),
    {
        self.target.clone()
    }
}

impl<I, F, O> ForwardFuture<I, F, O> {
    /// Takes what the connecting gave: once the connection is made, the
    /// bytes go both ways between it and the accepted one. Returns whether
    /// they do; "not yet" and a failure are passed on.
    pub fn connected<E>(&mut self, polled: Poll<O, E>) -> (res: Poll<(), E>)
        ensures
            match (*old(self), polled) {
                (ForwardFuture::Connect { io: Some(io), .. }, Ok(Async::Ready(made))) => {
                    &&& res == Ok::<Async<()>, E>(Async::Ready(()))
                    &&& *final(self) == ForwardFuture::<I, F, O>::Duplex(io, made)
                },
                (_, Err(e)) => res == Err::<Async<()>, E>(e) && *final(self) == *old(self),
                _ => res == Ok::<Async<()>, E>(Async::NotReady) && *final(self) == *old(self),
            },
    {
        match polled {
            Err(e) => Err(e),
            Ok(Async::NotReady) => Ok(Async::NotReady),
            Ok(Async::Ready(made)) => {
                let waiting = match self {
                    ForwardFuture::Connect { io, .. } => io.is_some(),
                    ForwardFuture::Duplex(_, _) => false,
                };
                if !waiting {
                    return Ok(Async::NotReady);
                }
                let taken = match self {
                    ForwardFuture::Connect { io, .. } => io.take(),
                    ForwardFuture::Duplex(_, _) => None,
                };
                match taken {
                    Some(io) => {
                        *self = ForwardFuture::Duplex(io, made);
                        Ok(Async::Ready(()))
                    },
                    None => Ok(Async::NotReady),
                }
            },
        }
    }
}

} // verus!
