//! Limits on time: on an answer, and on becoming ready.
//!
//! Time is a count of milliseconds that the caller reads from its clock.

use crate::poll::{Async, Poll};
use crate::stack::layer::Layer as StackLayer;
use vstd::prelude::*;

pub mod ready;

verus! {

/// An answer did not come within its time.
#[derive(Clone, Copy, Debug, PartialEq, Eq, Structural)]
pub struct Elapsed;

#[derive(Clone, Copy, Debug)]
pub struct TimeoutLayer {
    pub timeout: u64,
}

/// A service whose answers must come within `timeout`.
#[derive(Clone, Copy, Debug)]
pub struct Timeout<S> {
    pub inner: S,
    pub timeout: u64,
}

/// Why a limited answer failed.
#[derive(Debug)]
pub enum Error<E> {
    Elapsed,
    Inner(E),
}

impl TimeoutLayer {
    pub fn new(timeout: u64) -> (layer: TimeoutLayer)
        ensures
            layer.timeout == timeout,
    {
        TimeoutLayer { timeout }
    }
}

impl<S> StackLayer<S> for TimeoutLayer {
    type Service = Timeout<S>;

    open spec fn accepts(&self, inner: S) -> bool {
        true
    }

    open spec fn layers(&self, inner: S, outer: Timeout<S>) -> bool {
        outer.inner == inner && outer.timeout == self.timeout
    }

    fn layer(&self, inner: S) -> (outer: Timeout<S>) {
        Timeout { inner, timeout: self.timeout }
    }
}

/// The time by which something that began at `start` must be done: `limit`
/// later, or never where that is beyond what the clock counts.
pub open spec fn deadline(start: u64, limit: u64) -> u64 {
    if start + limit > u64::MAX {
        u64::MAX
    } else {
        (start + limit) as u64
    }
}

impl<S> Timeout<S> {
    /// The time by which the answer to a call made at `now` must come.
    pub fn call(&self, now: u64) -> (by: u64)
        ensures
            by == deadline(now, self.timeout),
    {
        now.saturating_add(self.timeout)
    }

    /// The answer as it stands at `now`: what the inner answer is, if it is
    /// there or has failed; else a failure once the deadline is reached.
    pub fn poll<R, E>(&self, by: u64, now: u64, polled: Poll<R, E>) -> (res: Poll<R, Error<E>>)
        ensures
            res == (match polled {
                Ok(Async::Ready(r)) => Ok::<Async<R>, Error<E>>(Async::Ready(r)),
                Err(e) => Err(Error::Inner(e)),
                Ok(Async::NotReady) => if now >= by {
                    Err(Error::Elapsed)
                } else {
                    Ok(Async::NotReady)
                },
            }),
    {
        match polled {
            Ok(Async::Ready(r)) => Ok(Async::Ready(r)),
            Err(e) => Err(Error::Inner(e)),
            Ok(Async::NotReady) => if now >= by {
                Err(Error::Elapsed)
            } else {
                Ok(Async::NotReady)
            },
        }
    }
}

} // verus!
