//! Fallback: two makers, of which the second is tried where the first fails
//! in a way that a predicate accepts.
//!
//! The primary maker is asked first. If its making fails with an error that
//! the predicate accepts, the fallback maker is waited for and then asked
//! for the same target; any other error is the answer.

use crate::poll::{Async, Poll};
use crate::stack::layer::Layer as StackLayer;
use vstd::prelude::*;

verus! {

/// A fallback layer composing two service builders.
#[derive(Clone, Debug)]
pub struct Layer<A, B, P> {
    pub primary: A,
    pub fallback: B,
    pub predicate: P,
}

#[derive(Clone, Debug)]
pub struct MakeSvc<A, B, P> {
    pub primary: A,
    pub fallback: B,
    pub predicate: P,
}

/// How far a making with fallback has come.
#[derive(Clone, Copy, Debug, PartialEq, Eq, Structural)]
pub enum FallbackState {
    /// Waiting for the primary making to complete.
    Primary,
    /// Waiting for the fallback maker to become ready.
    Waiting,
    /// Waiting for the fallback making to complete.
    Fallback,
}

/// A making with fallback.
#[derive(Debug)]
pub struct MakeFuture<T, P> {
    target: Option<T>,
    predicate: P,
    state: FallbackState,
}

/// What a making with fallback does next.
#[derive(Debug)]
pub enum Next<T, R, E> {
    /// It answers its caller.
    Return(Poll<R, E>),
    /// It asks the fallback maker for readiness.
    PollReady,
    /// It asks the fallback maker for the service of this target.
    Call(T),
}

/// What a making with fallback is told: the answer to what it asked last.
#[derive(Debug)]
pub enum Polled<R, E> {
    /// What the primary making gave.
    Primary(Poll<R, E>),
    /// What the fallback maker said of its readiness.
    Ready(Poll<(), E>),
    /// What the fallback making gave.
    Fallback(Poll<R, E>),
}

/// The predicate that accepts every error.
pub fn always<E>(error: &E) -> (fall_back: bool)
    ensures
        fall_back,
{
    true
}

/// A layer that falls back on the errors that `predicate` accepts.
pub fn layer<A, B, P>(primary: A, fallback: B, predicate: P) -> (layer: Layer<A, B, P>)
    ensures
        layer.primary == primary,
        layer.fallback == fallback,
        layer.predicate == predicate,
{
    Layer { primary, fallback, predicate }
}

impl<A, B, P> Layer<A, B, P> {
    /// The same layer with another predicate.
    pub fn with_predicate<Q>(self, predicate: Q) -> (layer: Layer<A, B, Q>)
        ensures
            layer.primary == self.primary,
            layer.fallback == self.fallback,
            layer.predicate == predicate,
    {
        Layer { primary: self.primary, fallback: self.fallback, predicate }
    }
}

impl<A, B, P, M> StackLayer<M> for Layer<A, B, P> where
    A: StackLayer<M>,
    B: StackLayer<M>,
    M: Clone,
    P: Clone,
 {
    type Service = MakeSvc<A::Service, B::Service, P>;

    open spec fn accepts(&self, inner: M) -> bool {
        &&& self.fallback.accepts(inner)
        &&& forall|copy: M| cloned(inner, copy) ==> #[trigger] self.primary.accepts(copy)
    }

    open spec fn layers(&self, inner: M, outer: MakeSvc<A::Service, B::Service, P>) -> bool {
        &&& self.fallback.layers(inner, outer.fallback)
        &&& cloned(self.predicate, outer.predicate)
        &&& exists|copy: M| cloned(inner, copy) && #[trigger] self.primary.layers(copy, outer.primary)
    }

    fn layer(&self, inner: M) -> (outer: MakeSvc<A::Service, B::Service, P>) {
        let copy = inner.clone();
        let ghost copied = copy;
        let primary = self.primary.layer(copy);
        let outer = MakeSvc {
            primary,
            fallback: self.fallback.layer(inner),
            predicate: self.predicate.clone(),
        };
        proof {
            assert(cloned(inner, copied) && self.primary.layers(copied, outer.primary));
        }
        outer
    }
}

impl<A, B, P> MakeSvc<A, B, P> {
    /// Begins a making for `target`: the primary maker is to be asked for it
    /// first, and the target is kept for the fallback.
    pub fn call<T: Clone>(&self, target: &T) -> (future: MakeFuture<T, P>) where P: Clone
        ensures
            future.wf(),
            future.state() == FallbackState::Primary,
            future.target().is_some(),
            cloned(*target, future.target().unwrap()),
            cloned(self.predicate, future.predicate()),
    {
        MakeFuture {
            target: Some(target.clone()),
            predicate: self.predicate.clone(),
            state: FallbackState::Primary,
        }
    }
}

impl<T, P> MakeFuture<T, P> {
    pub closed spec fn state(&self) -> FallbackState {
        self.state
    }

    /// The target, as long as it was not handed to the fallback maker.
    pub closed spec fn target(&self) -> Option<T> {
        self.target
    }

    pub closed spec fn predicate(&self) -> P {
        self.predicate
    }

    /// The target is there until the fallback maker is asked for it.
    pub open spec fn wf(&self) -> bool {
        self.state() != FallbackState::Fallback ==> self.target().is_some()
    }

    /// How far the making has come.
    pub fn phase(&self) -> (state: FallbackState)
        ensures
            state == self.state(),
    {
        self.state
    }

    /// Takes what the primary making gave.
    ///
    /// A service, or "not yet", is the answer. An error is the answer unless
    /// the predicate accepts it; then the fallback maker is waited for.
    /// Outside the first phase nothing is taken.
    pub fn primary<R, E>(&mut self, polled: Poll<R, E>) -> (next: Next<T, R, E>) where
        P: Fn(&E) -> bool,

        requires
            old(self).wf(),
            polled matches Err(e) ==> call_requires(old(self).predicate(), (&e,)),
        ensures
            final(self).wf(),
            final(self).target() == old(self).target(),
            final(self).predicate() == old(self).predicate(),
            old(self).state() != FallbackState::Primary ==> next == Next::<T, R, E>::Return(
                Ok(Async::NotReady),
            ) && final(self).state() == old(self).state(),
            old(self).state() == FallbackState::Primary ==> match polled {
                Ok(answer) => next == Next::<T, R, E>::Return(Ok(answer)) && final(self).state()
                    == FallbackState::Primary,
                Err(e) => {
                    ||| {
                        &&& call_ensures(old(self).predicate(), (&e,), true)
                        &&& next == Next::<T, R, E>::PollReady
                        &&& final(self).state() == FallbackState::Waiting
                    }
                    ||| {
                        &&& call_ensures(old(self).predicate(), (&e,), false)
                        &&& next == Next::<T, R, E>::Return(Err(e))
                        &&& final(self).state() == FallbackState::Primary
                    }
                },
            },
    {
        match self.state {
            FallbackState::Primary => {},
            _ => {
                return Next::Return(Ok(Async::NotReady));
            },
        }
        match polled {
            Ok(answer) => Next::Return(Ok(answer)),
            Err(error) => {
                let fall_back = (self.predicate)(&error);
                if fall_back {
                    self.state = FallbackState::Waiting;
                    Next::PollReady
                } else {
                    Next::Return(Err(error))
                }
            },
        }
    }

    /// Takes the fallback maker's answer on readiness.
    ///
    /// Once it is ready it is asked for the target's service; the target is
    /// handed over, once. "Not yet" and an error are the answer. Outside the
    /// second phase nothing is taken.
    pub fn ready<R, E>(&mut self, polled: Poll<(), E>) -> (next: Next<T, R, E>)
        requires
            old(self).wf(),
        ensures
            final(self).wf(),
            final(self).predicate() == old(self).predicate(),
            old(self).state() != FallbackState::Waiting ==> next == Next::<T, R, E>::Return(
                Ok(Async::NotReady),
            ) && final(self).state() == old(self).state() && final(self).target() == old(
                self,
            ).target(),
            old(self).state() == FallbackState::Waiting ==> match polled {
                Ok(Async::Ready(())) => {
                    &&& next == Next::<T, R, E>::Call(old(self).target().unwrap())
                    &&& final(self).state() == FallbackState::Fallback
                    &&& final(self).target().is_none()
                },
                Ok(Async::NotReady) => {
                    &&& next == Next::<T, R, E>::Return(Ok(Async::NotReady))
                    &&& final(self).state() == FallbackState::Waiting
                    &&& final(self).target() == old(self).target()
                },
                Err(e) => {
                    &&& next == Next::<T, R, E>::Return(Err(e))
                    &&& final(self).state() == FallbackState::Waiting
                    &&& final(self).target() == old(self).target()
                },
            },
    {
        match self.state {
            FallbackState::Waiting => {},
            _ => {
                return Next::Return(Ok(Async::NotReady));
            },
        }
        match polled {
            Ok(Async::Ready(())) => match self.target.take() {
                Some(target) => {
                    self.state = FallbackState::Fallback;
                    Next::Call(target)
                },
                None => Next::Return(Ok(Async::NotReady)),
            },
            Ok(Async::NotReady) => Next::Return(Ok(Async::NotReady)),
            Err(e) => Next::Return(Err(e)),
        }
    }

    /// Takes what the fallback making gave: it is the answer.
    pub fn fallback<R, E>(&self, polled: Poll<R, E>) -> (answer: Poll<R, E>)
        ensures
            answer == polled,
    {
        polled
    }

    /// Takes the answer to what the making asked last, and says what it
    /// does next.
    ///
    /// In the first phase the primary making's answer is taken as `primary`
    /// says, in the second the fallback maker's readiness as `ready` says,
    /// and in the third the fallback making's answer is the answer, whatever
    /// the primary's error was. An answer that does not belong to the phase
    /// is not taken.
    ///
    /// The fallback maker is asked for a service once at most: only at the
    /// end of the second phase, for the target that the making began with,
    /// and never after that.
    pub fn poll<R, E>(&mut self, polled: Polled<R, E>) -> (next: Next<T, R, E>) where
        P: Fn(&E) -> bool,

        requires
            old(self).wf(),
            polled matches Polled::Primary(Err(e)) ==> call_requires(old(self).predicate(), (&e,)),
        ensures
            final(self).wf(),
            final(self).predicate() == old(self).predicate(),
            match (old(self).state(), polled) {
                (FallbackState::Primary, Polled::Primary(Ok(answer))) => {
                    &&& next == Next::<T, R, E>::Return(Ok(answer))
                    &&& final(self).state() == FallbackState::Primary
                    &&& final(self).target() == old(self).target()
                },
                (FallbackState::Primary, Polled::Primary(Err(e))) => {
                    &&& final(self).target() == old(self).target()
                    &&& {
                        ||| {
                            &&& call_ensures(old(self).predicate(), (&e,), true)
                            &&& next == Next::<T, R, E>::PollReady
                            &&& final(self).state() == FallbackState::Waiting
                        }
                        ||| {
                            &&& call_ensures(old(self).predicate(), (&e,), false)
                            &&& next == Next::<T, R, E>::Return(Err(e))
                            &&& final(self).state() == FallbackState::Primary
                        }
                    }
                },
                (FallbackState::Waiting, Polled::Ready(Ok(Async::Ready(())))) => {
                    &&& next == Next::<T, R, E>::Call(old(self).target().unwrap())
                    &&& final(self).state() == FallbackState::Fallback
                    &&& final(self).target().is_none()
                },
                (FallbackState::Waiting, Polled::Ready(Ok(Async::NotReady))) => {
                    &&& next == Next::<T, R, E>::Return(Ok(Async::NotReady))
                    &&& final(self).state() == FallbackState::Waiting
                    &&& final(self).target() == old(self).target()
                },
                (FallbackState::Waiting, Polled::Ready(Err(e))) => {
                    &&& next == Next::<T, R, E>::Return(Err(e))
                    &&& final(self).state() == FallbackState::Waiting
                    &&& final(self).target() == old(self).target()
                },
                (FallbackState::Fallback, Polled::Fallback(answer)) => {
                    &&& next == Next::<T, R, E>::Return(answer)
                    &&& final(self).state() == FallbackState::Fallback
                    &&& final(self).target() == old(self).target()
                },
                _ => {
                    &&& next == Next::<T, R, E>::Return(Ok(Async::NotReady))
                    &&& final(self).state() == old(self).state()
                    &&& final(self).target() == old(self).target()
                },
            },
            next is Call ==> old(self).state() == FallbackState::Waiting && final(self).state()
                == FallbackState::Fallback,
            old(self).state() == FallbackState::Fallback ==> !(next is Call) && final(self).state()
                == FallbackState::Fallback,
    {
        match polled {
            Polled::Primary(polled) => self.primary(polled),
            Polled::Ready(polled) => self.ready(polled),
            Polled::Fallback(polled) => match self.state {
                FallbackState::Fallback => Next::Return(self.fallback(polled)),
                _ => Next::Return(Ok(Async::NotReady)),
            },
        }
    }
}

} // verus!
