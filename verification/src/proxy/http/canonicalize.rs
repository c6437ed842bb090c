//! Canonicalizing a target's name.
//!
//! A target that is addressed by name has its name refined before the inner
//! service is asked for it: an application may address `web:8080`, and the
//! refinement, which is the resolver's, may make `web.example.com.:8080` of
//! it. If refining fails or takes too long, the target is used as it came.
//! A target that is addressed by a socket address is not refined.

use crate::addr::{Addr, NameAddr};
use crate::poll::{Async, Poll};
use crate::stack::layer::Layer as StackLayer;
use vstd::prelude::*;

verus! {

/// A target with an address that can be replaced.
pub trait Target {
    open spec fn addr_of(&self) -> Addr {
        arbitrary()
    }

    /// What stays of the target when its address is replaced.
    open spec fn rest_of(&self, other: &Self) -> bool {
        true
    }

    fn addr(&self) -> (addr: &Addr)
        ensures
            *addr == self.addr_of(),
    ;

    fn set_addr(&mut self, addr: Addr)
        ensures
            final(self).addr_of() == addr,
            old(self).rest_of(final(self)),
    ;
}

impl<T> Target for crate::outbound::endpoint::Target<T> {
    open spec fn addr_of(&self) -> Addr {
        self.addr
    }

    open spec fn rest_of(&self, other: &Self) -> bool {
        other.inner == self.inner
    }

    fn addr(&self) -> (addr: &Addr) {
        &self.addr
    }

    fn set_addr(&mut self, addr: Addr) {
        self.addr = addr;
    }
}

#[derive(Debug, Clone)]
pub struct Layer<R> {
    pub resolver: R,
    /// How long refining may take, in milliseconds.
    pub timeout: u64,
}

#[derive(Clone, Debug)]
pub struct Canonicalize<R, M> {
    pub inner: M,
    pub resolver: R,
    pub timeout: u64,
}

/// What refining a name gives: the canonical name, and until when it holds.
#[derive(Clone, Debug)]
pub struct Refine {
    pub name: String,
    pub valid_until: u64,
}

/// The making of a service for a target that may have to be refined first.
#[derive(Debug)]
pub enum MakeFuture<T, M> {
    /// The name is being refined.
    Refine { make: Option<M>, original: Option<T> },
    /// The inner service is waited for, to be asked for this target.
    NotReady(M, Option<T>),
    /// The inner service is making.
    Make,
}

/// How a making begins.
#[derive(Debug)]
pub enum Begin<T, M> {
    /// With the inner service asked for the target at once; the future is
    /// in its last phase.
    Make(T, MakeFuture<T, M>),
    /// With the resolver asked to refine this name, within the timeout.
    Refine(String, MakeFuture<T, M>),
}

/// What a making does next.
#[derive(Debug)]
pub enum Next<T, E> {
    /// It answers its caller: "not yet", or an error.
    Return(Poll<(), E>),
    /// It asks the inner service for readiness.
    PollReady,
    /// It asks the inner service for the service of this target.
    Call(T),
}

impl<R> Layer<R> {
    pub fn new(resolver: R, timeout: u64) -> (layer: Self)
        ensures
            layer.resolver == resolver,
            layer.timeout == timeout,
    {
        Layer { resolver, timeout }
    }
}

impl<R: Clone, M> StackLayer<M> for Layer<R> {
    type Service = Canonicalize<R, M>;

    open spec fn accepts(&self, inner: M) -> bool {
        true
    }

    open spec fn layers(&self, inner: M, outer: Canonicalize<R, M>) -> bool {
        &&& outer.inner == inner
        &&& outer.timeout == self.timeout
        &&& cloned(self.resolver, outer.resolver)
    }

    fn layer(&self, inner: M) -> (outer: Canonicalize<R, M>) {
        Canonicalize { inner, timeout: self.timeout, resolver: self.resolver.clone() }
    }
}

/// The target with the refined name in place of its own, and its own port.
pub open spec fn refined<T: Target>(original: T, name: String, target: T) -> bool {
    &&& target.addr_of() == Addr::Name(NameAddr { name, port: addr_port(original.addr_of()) })
    &&& original.rest_of(&target)
}

/// The port of an address.
pub open spec fn addr_port(addr: Addr) -> u16 {
    match addr {
        Addr::Name(n) => n.port,
        Addr::Socket(s) => s.port,
    }
}

impl<R, M> Canonicalize<R, M> {
    /// Takes both answers on readiness: ready once the resolver and the
    /// inner service are; a failure of either is passed on, the resolver's
    /// first.
    pub fn poll_ready<E>(&self, resolver: Poll<(), E>, inner: Poll<(), E>) -> (ready: Poll<(), E>)
        ensures
            ready == (match resolver {
                Err(e) => Err::<Async<()>, E>(e),
                Ok(Async::NotReady) => Ok(Async::NotReady),
                Ok(Async::Ready(())) => inner,
            }),
    {
        match resolver {
            Err(e) => Err(e),
            Ok(Async::NotReady) => Ok(Async::NotReady),
            Ok(Async::Ready(())) => inner,
        }
    }

    /// Begins the making for `target`: a target addressed by name has its
    /// name refined first, another goes to the inner service as it is.
    pub fn call<T: Target>(&self, target: T) -> (begin: Begin<T, M>) where M: Clone
        ensures
            match target.addr_of() {
                Addr::Socket(_) => begin == Begin::<T, M>::Make(target, MakeFuture::Make),
                Addr::Name(name) => {
                    &&& begin is Refine
                    &&& begin->Refine_0 == name.name
                    &&& begin->Refine_1 is Refine
                    &&& begin->Refine_1->Refine_original == Some(target)
                    &&& begin->Refine_1->Refine_make.is_some()
                    &&& cloned(self.inner, begin->Refine_1->Refine_make.unwrap())
                },
            },
    {
        let name = match target.addr().name_addr() {
            None => None,
            Some(na) => Some(na.name().clone()),
        };
        match name {
            None => Begin::Make(target, MakeFuture::Make),
            Some(name) => Begin::Refine(
                name,
                MakeFuture::Refine { make: Some(self.inner.clone()), original: Some(target) },
            ),
        }
    }
}

impl<T: Target, M> MakeFuture<T, M> {
    /// Takes what refining gave.
    ///
    /// A refined name replaces the target's; the port stays. A failure,
    /// which a timeout is too, leaves the target as it came. Either way the
    /// inner service is waited for next. "Not yet" is the answer. Outside
    /// the first phase nothing is taken.
    pub fn refine<E, F>(&mut self, polled: Poll<Refine, F>) -> (next: Next<T, E>)
        ensures
            !(*old(self) matches MakeFuture::Refine { make: Some(_), original: Some(_) }) ==> {
                &&& next == Next::<T, E>::Return(Ok(Async::NotReady))
                &&& *final(self) == *old(self)
            },
            *old(self) matches MakeFuture::Refine { make: Some(make), original: Some(original) }
                ==> match polled {
                Ok(Async::NotReady) => {
                    &&& next == Next::<T, E>::Return(Ok(Async::NotReady))
                    &&& *final(self) == *old(self)
                },
                Ok(Async::Ready(refine)) => {
                    &&& next == Next::<T, E>::PollReady
                    &&& *final(self) matches MakeFuture::NotReady(m, Some(target))
                    &&& final(self)->NotReady_0 == make
                    &&& refined(original, refine.name, final(self)->NotReady_1.unwrap())
                },
                Err(_) => {
                    &&& next == Next::<T, E>::PollReady
                    &&& *final(self) == MakeFuture::<T, M>::NotReady(make, Some(original))
                },
            },
    {
        match polled {
            Ok(Async::NotReady) => {
                return Next::Return(Ok(Async::NotReady));
            },
            _ => {},
        }
        let taken = match self {
            MakeFuture::Refine { make, original } => {
                if make.is_some() && original.is_some() {
                    Some((make.take().unwrap(), original.take().unwrap()))
                } else {
                    None
                }
            },
            _ => None,
        };
        match taken {
            None => Next::Return(Ok(Async::NotReady)),
            Some((make, original)) => {
                match polled {
                    Ok(Async::Ready(refine)) => {
                        let mut target = original;
                        let port = target.addr().port();
                        target.set_addr(Addr::Name(NameAddr::new(refine.name, port)));
                        *self = MakeFuture::NotReady(make, Some(target));
                    },
                    _ => {
                        *self = MakeFuture::NotReady(make, Some(original));
                    },
                }
                Next::PollReady
            },
        }
    }

    /// Takes the inner service's answer on readiness: once it is ready it is
    /// asked for the target's service. "Not yet" and an error are the
    /// answer. Outside the second phase nothing is taken.
    pub fn ready<E>(&mut self, polled: Poll<(), E>) -> (next: Next<T, E>)
        ensures
            !(*old(self) matches MakeFuture::NotReady(_, Some(_))) ==> {
                &&& next == Next::<T, E>::Return(Ok(Async::NotReady))
                &&& *final(self) == *old(self)
            },
            *old(self) matches MakeFuture::NotReady(make, Some(target)) ==> match polled {
                Ok(Async::Ready(())) => {
                    &&& next == Next::<T, E>::Call(target)
                    &&& *final(self) is Make
                },
                Ok(Async::NotReady) => {
                    &&& next == Next::<T, E>::Return(Ok(Async::NotReady))
                    &&& *final(self) == *old(self)
                },
                Err(e) => {
                    &&& next == Next::<T, E>::Return(Err(e))
                    &&& *final(self) == *old(self)
                },
            },
    {
        let waiting = match self {
            MakeFuture::NotReady(_, target) => target.is_some(),
            _ => false,
        };
        if !waiting {
            return Next::Return(Ok(Async::NotReady));
        }
        match polled {
            Ok(Async::NotReady) => {
                return Next::Return(Ok(Async::NotReady));
            },
            Err(e) => {
                return Next::Return(Err(e));
            },
            Ok(Async::Ready(())) => {},
        }
        let taken = match self {
            MakeFuture::NotReady(_, target) => target.take(),
            _ => None,
        };
        match taken {
            Some(target) => {
                *self = MakeFuture::Make;
                Next::Call(target)
            },
            None => Next::Return(Ok(Async::NotReady)),
        }
    }

    /// The inner service that is waited for, in the second phase.
    pub fn service(&self) -> (service: Option<&M>)
        ensures
            match *self {
                MakeFuture::NotReady(m, _) => service == Some(&m),
                _ => service.is_none(),
            },
    {
        match self {
            MakeFuture::NotReady(m, _) => Some(m),
            _ => None,
        }
    }
}

} // verus!
