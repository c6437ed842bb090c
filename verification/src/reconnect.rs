//! Reconnecting: a service over a maker of connections that makes a new
//! connection when the one it has fails.
//!
//! After a failure the wrapper backs off, as long as the backoff says, and
//! then asks the maker again. While it has no connection it is not ready; it
//! never fails on account of a failure that can be recovered from, so
//! requests are kept waiting and none is dropped.

use crate::poll::{Async, Poll};
use crate::stack::layer::Layer as StackLayer;
use crate::stack::make::Make;
use vstd::prelude::*;

verus! {

#[derive(Clone, Debug)]
pub struct Layer<R> {
    pub recover: R,
}

#[derive(Clone, Debug)]
pub struct MakeService<R, M> {
    pub recover: R,
    pub make_service: M,
}

/// Where a reconnecting service stands.
#[derive(Clone, Copy, Debug, PartialEq, Eq, Structural)]
pub enum State {
    /// There is no connection, and none is being made.
    Disconnected,
    /// A connection is being made.
    Pending,
    /// There is a connection.
    Connected,
    /// The last connection failed; the backoff runs.
    Backoff,
}

/// A service that reconnects.
#[derive(Debug)]
pub struct Service<T, R, M> {
    pub target: T,
    pub make_service: M,
    pub recover: R,
    pub state: State,
    /// Whether a backoff is kept from earlier failures, to go on with.
    pub backoff_kept: bool,
}

/// What a reconnecting service does next to become ready.
#[derive(Clone, Copy, Debug, PartialEq, Eq, Structural)]
pub enum Action {
    /// It asks the maker for a connection to the target.
    Connect,
    /// It asks whether the connection is made.
    PollPending,
    /// It asks the connection for readiness.
    PollService,
    /// It asks the backoff whether it is over.
    PollBackoff,
}

/// What comes of an answer.
#[derive(Debug)]
pub enum Outcome<E> {
    /// The service goes on with its next action.
    Continue,
    /// The service answers its caller.
    Return(Poll<(), E>),
}

impl<R> Layer<R> {
    pub fn from(recover: R) -> (layer: Self)
        ensures
            layer.recover == recover,
    {
        Layer { recover }
    }
}

impl<R: Clone, M> StackLayer<M> for Layer<R> {
    type Service = MakeService<R, M>;

    open spec fn accepts(&self, inner: M) -> bool {
        true
    }

    open spec fn layers(&self, inner: M, outer: MakeService<R, M>) -> bool {
        outer.make_service == inner && cloned(self.recover, outer.recover)
    }

    fn layer(&self, make_service: M) -> (outer: MakeService<R, M>) {
        MakeService { make_service, recover: self.recover.clone() }
    }
}

impl<T, R, M> Make<T> for MakeService<R, M> where R: Clone, M: Clone {
    type Service = Service<T, R, M>;

    open spec fn can_make(&self, target: T) -> bool {
        true
    }

    open spec fn makes(&self, target: T, service: Service<T, R, M>) -> bool {
        &&& service.target == target
        &&& cloned(self.make_service, service.make_service)
        &&& cloned(self.recover, service.recover)
        &&& service.state() == State::Disconnected
        &&& !service.backoff_kept()
    }

    fn make(&self, target: T) -> (service: Service<T, R, M>) {
        Service::new(target, self.make_service.clone(), self.recover.clone())
    }
}

impl<T, R, M> Service<T, R, M> {
    pub open spec fn state(&self) -> State {
        self.state
    }

    pub open spec fn backoff_kept(&self) -> bool {
        self.backoff_kept
    }

    /// A service without a connection.
    pub fn new(target: T, make_service: M, recover: R) -> (service: Self)
        ensures
            service.target == target,
            service.make_service == make_service,
            service.recover == recover,
            service.state() == State::Disconnected,
            !service.backoff_kept(),
    {
        Service { target, make_service, recover, state: State::Disconnected, backoff_kept: false }
    }

    /// What to do next to become ready.
    pub fn action(&self) -> (action: Action)
        ensures
            action == (match self.state() {
                State::Disconnected => Action::Connect,
                State::Pending => Action::PollPending,
                State::Connected => Action::PollService,
                State::Backoff => Action::PollBackoff,
            }),
    {
        match self.state {
            State::Disconnected => Action::Connect,
            State::Pending => Action::PollPending,
            State::Connected => Action::PollService,
            State::Backoff => Action::PollBackoff,
        }
    }

    /// The maker was asked for a connection.
    pub fn connecting(&mut self)
        ensures
            final(self).target == old(self).target,
            final(self).make_service == old(self).make_service,
            final(self).recover == old(self).recover,
            final(self).backoff_kept() == old(self).backoff_kept(),
            final(self).state() == (if old(self).state() == State::Disconnected {
                State::Pending
            } else {
                old(self).state()
            }),
    {
        match self.state {
            State::Disconnected => {
                self.state = State::Pending;
            },
            _ => {},
        }
    }

    /// Takes the answer to the action that was due.
    ///
    /// `polled` is what was asked gave: `Ready` for a connection that was
    /// made, a connection that is ready, or a backoff that is over. For a
    /// failure, `recovered` says whether the failure can be recovered from;
    /// then the backoff runs, the one kept from earlier failures if there is
    /// one. A failure that cannot be recovered from, and a failure of the
    /// backoff itself, is the answer.
    ///
    /// The service answers "ready" only while it has a connection that is
    /// ready.
    pub fn polled<E>(&mut self, polled: Poll<(), E>, recovered: bool) -> (outcome: Outcome<E>)
        ensures
            final(self).target == old(self).target,
            final(self).make_service == old(self).make_service,
            final(self).recover == old(self).recover,
            match (old(self).state(), polled) {
                (State::Disconnected, _) => {
                    &&& outcome == Outcome::<E>::Continue
                    &&& final(self).state() == State::Disconnected
                    &&& final(self).backoff_kept() == old(self).backoff_kept()
                },
                (State::Pending, Ok(Async::Ready(()))) => {
                    &&& outcome == Outcome::<E>::Continue
                    &&& final(self).state() == State::Connected
                    &&& final(self).backoff_kept() == old(self).backoff_kept()
                },
                (State::Connected, Ok(Async::Ready(()))) => {
                    &&& outcome == Outcome::<E>::Return(Ok(Async::Ready(())))
                    &&& final(self).state() == State::Connected
                    &&& !final(self).backoff_kept()
                },
                (State::Backoff, Ok(Async::Ready(()))) => {
                    &&& outcome == Outcome::<E>::Continue
                    &&& final(self).state() == State::Disconnected
                    &&& final(self).backoff_kept()
                },
                (_, Ok(Async::NotReady)) => {
                    &&& outcome == Outcome::<E>::Return(Ok(Async::NotReady))
                    &&& final(self).state() == old(self).state()
                    &&& final(self).backoff_kept() == old(self).backoff_kept()
                },
                (State::Backoff, Err(e)) => {
                    &&& outcome == Outcome::<E>::Return(Err(e))
                    &&& final(self).state() == State::Backoff
                    &&& final(self).backoff_kept() == old(self).backoff_kept()
                },
                (_, Err(e)) => if recovered {
                    &&& outcome == Outcome::<E>::Continue
                    &&& final(self).state() == State::Backoff
                    &&& final(self).backoff_kept() == (old(self).state() == State::Pending && old(
                        self,
                    ).backoff_kept())
                } else {
                    &&& outcome == Outcome::<E>::Return(Err(e))
                    &&& final(self).state() == old(self).state()
                    &&& final(self).backoff_kept() == old(self).backoff_kept()
                },
            },
            outcome matches Outcome::Return(Ok(Async::Ready(()))) ==> old(self).state()
                == State::Connected,
    {
        match self.state {
            State::Disconnected => Outcome::Continue,
            State::Backoff => match polled {
                Ok(Async::Ready(())) => {
                    self.state = State::Disconnected;
                    self.backoff_kept = true;
                    Outcome::Continue
                },
                Ok(Async::NotReady) => Outcome::Return(Ok(Async::NotReady)),
                Err(e) => Outcome::Return(Err(e)),
            },
            State::Pending => match polled {
                Ok(Async::Ready(())) => {
                    self.state = State::Connected;
                    Outcome::Continue
                },
                Ok(Async::NotReady) => Outcome::Return(Ok(Async::NotReady)),
                Err(e) => {
                    if recovered {
                        self.state = State::Backoff;
                        Outcome::Continue
                    } else {
                        Outcome::Return(Err(e))
                    }
                },
            },
            State::Connected => match polled {
                Ok(Async::Ready(())) => {
                    self.backoff_kept = false;
                    Outcome::Return(Ok(Async::Ready(())))
                },
                Ok(Async::NotReady) => Outcome::Return(Ok(Async::NotReady)),
                Err(e) => {
                    if recovered {
                        self.state = State::Backoff;
                        self.backoff_kept = false;
                        Outcome::Continue
                    } else {
                        Outcome::Return(Err(e))
                    }
                },
            },
        }
    }
}

} // verus!
