//! The lock: makes the handles of one service take turns.
//!
//! A handle takes the lock before it asks the service for readiness, and
//! keeps it until its call is made. If the service fails for good while a
//! handle asks, the failure stays in the lock's state: the lock is poisoned,
//! and every handle that takes it later is given that failure.

use crate::poll::{Async, Poll};
use crate::stack::layer::Layer as StackLayer;
use std::marker::PhantomData;
use vstd::prelude::*;

verus! {

/// The lock was poisoned by a failure with this message.
#[derive(Clone, Debug)]
pub struct Poisoned(pub String);

impl Poisoned {
    /// The poison that a failure with this message leaves.
    pub fn from(message: String) -> (poisoned: Poisoned)
        ensures
            poisoned.0 == message,
    {
        Poisoned(message)
    }

    /// What a log line says of this error: the message of the failure.
    pub fn message(&self) -> (text: &String)
        ensures
            *text == self.0,
    {
        &self.0
    }
}

/// Errors that can be kept and handed out again.
pub trait CloneError {
    type Error;

    open spec fn copies(&self, err: Self::Error, copy: Self::Error) -> bool {
        true
    }

    fn clone_err(&self, err: &Self::Error) -> (copy: Self::Error)
        ensures
            self.copies(*err, copy),
    ;
}

#[derive(Debug)]
pub struct Layer<E> {
    pub marker: PhantomData<E>,
}

/// What the lock guards: the service, or the failure that ended it.
#[derive(Debug)]
pub enum State<S, E> {
    Service(S),
    Error(E),
}

/// A handle of a locked service. It says whether it holds the lock.
#[derive(Debug)]
pub struct Lock<S, E> {
    locked: bool,
    marker: PhantomData<(S, E)>,
}

/// A service behind its lock: the first handle and the guarded state.
#[derive(Debug)]
pub struct Locked<S, E> {
    pub lock: Lock<S, E>,
    pub state: State<S, E>,
}

/// What a handle does next to become ready.
#[derive(Clone, Copy, Debug, PartialEq, Eq, Structural)]
pub enum Step {
    /// It does not hold the lock: take it, then report with `acquired`.
    Acquire,
    /// It holds the lock: ask the service for readiness, then report with
    /// `polled`.
    PollService,
}

impl Layer<Poisoned> {
    pub fn new() -> Self {
        Layer { marker: PhantomData }
    }

    /// The same layer with another type for the failure that is kept.
    pub fn with_errors<E: Clone>(self) -> Layer<E> {
        Layer { marker: PhantomData }
    }
}

impl<S, E> StackLayer<S> for Layer<E> {
    type Service = Locked<S, E>;

    open spec fn accepts(&self, inner: S) -> bool {
        true
    }

    open spec fn layers(&self, inner: S, outer: Locked<S, E>) -> bool {
        outer.state == State::<S, E>::Service(inner) && !outer.lock.holds()
    }

    fn layer(&self, service: S) -> (outer: Locked<S, E>) {
        Locked { lock: Lock { locked: false, marker: PhantomData }, state: State::Service(service) }
    }
}

impl<S, E> State<S, E> {
    pub fn is_poisoned(&self) -> (poisoned: bool)
        ensures
            poisoned == (*self is Error),
    {
        match self {
            State::Service(_) => false,
            State::Error(_) => true,
        }
    }

    /// The service, while the lock is not poisoned.
    pub fn service(&self) -> (service: Option<&S>)
        ensures
            match *self {
                State::Service(s) => service == Some(&s),
                State::Error(_) => service.is_none(),
            },
    {
        match self {
            State::Service(s) => Some(s),
            State::Error(_) => None,
        }
    }
}

impl<S, E> Lock<S, E> {
    /// Whether this handle holds the lock.
    pub closed spec fn holds(&self) -> bool {
        self.locked
    }

    /// Another handle of the same service; it does not hold the lock.
    pub fn duplicate(&self) -> (other: Self)
        ensures
            !other.holds(),
    {
        Lock { locked: false, marker: PhantomData }
    }

    /// What to do next to become ready.
    pub fn step(&self) -> (step: Step)
        ensures
            step == (if self.holds() {
                Step::PollService
            } else {
                Step::Acquire
            }),
    {
        if self.locked {
            Step::PollService
        } else {
            Step::Acquire
        }
    }

    /// The handle took the lock and looks at the state.
    ///
    /// A poisoned lock gives its failure and is let go at once; the state
    /// is not touched. Else the handle holds the lock from now on.
    pub fn acquired(&mut self, state: &State<S, E>) -> (res: Result<(), E>) where E: Clone
        ensures
            match *state {
                State::Error(e) => res is Err && cloned(e, res->Err_0) && !final(self).holds(),
                State::Service(_) => res is Ok && final(self).holds(),
            },
    {
        match state {
            State::Error(e) => {
                self.locked = false;
                Err(e.clone())
            },
            State::Service(_) => {
                self.locked = true;
                Ok(())
            },
        }
    }

    /// The handle holds the lock and asked the service for readiness.
    ///
    /// The service's answer is the handle's. A failure poisons the lock: a
    /// clone of it becomes the state, and the handle lets the lock go.
    pub fn polled(&mut self, state: &mut State<S, E>, ready: Poll<(), E>) -> (res: Poll<(), E>) where
        E: Clone,

        requires
            old(self).holds(),
            *old(state) is Service,
        ensures
            res == ready,
            match ready {
                Ok(_) => final(self).holds() && *final(state) == *old(state),
                Err(e) => !final(self).holds() && *final(state) is Error && cloned(
                    e,
                    final(state)->Error_0,
                ),
            },
    {
        match ready {
            Ok(ok) => Ok(ok),
            Err(err) => {
                *state = State::Error(err.clone());
                self.locked = false;
                Err(err)
            },
        }
    }

    /// The call is made: the handle lets the lock go. Returns whether it
    /// held the lock; a call without the lock must not reach the service.
    pub fn call(&mut self) -> (held: bool)
        ensures
            held == old(self).holds(),
            !final(self).holds(),
    {
        let held = self.locked;
        self.locked = false;
        held
    }
}

} // verus!
