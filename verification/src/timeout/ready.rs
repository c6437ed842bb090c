//! A limit on the time that a service may take to become ready.

use crate::poll::{Async, Poll};
use crate::stack::layer::Layer as StackLayer;
use crate::timeout::Error;
use vstd::prelude::*;

verus! {

#[derive(Clone, Copy, Debug)]
pub struct Layer {
    pub timeout: u64,
}

/// A service that must become ready within `timeout` of being asked first.
#[derive(Clone, Copy, Debug)]
pub struct TimeoutReady<S> {
    pub inner: S,
    pub timeout: u64,
    /// When the service was first found not ready, while it still is not.
    pub waiting_since: Option<u64>,
}

impl Layer {
    pub fn new(timeout: u64) -> (layer: Layer)
        ensures
            layer.timeout == timeout,
    {
        Layer { timeout }
    }
}

impl<S> StackLayer<S> for Layer {
    type Service = TimeoutReady<S>;

    open spec fn accepts(&self, inner: S) -> bool {
        true
    }

    open spec fn layers(&self, inner: S, outer: TimeoutReady<S>) -> bool {
        outer.inner == inner && outer.timeout == self.timeout && outer.waiting_since.is_none()
    }

    fn layer(&self, inner: S) -> (outer: TimeoutReady<S>) {
        TimeoutReady::new(inner, self.timeout)
    }
}

impl<S> TimeoutReady<S> {
    pub fn new(inner: S, timeout: u64) -> (service: Self)
        ensures
            service.inner == inner,
            service.timeout == timeout,
            service.waiting_since.is_none(),
    {
        TimeoutReady { inner, timeout, waiting_since: None }
    }

    /// Takes the inner service's answer on readiness at `now`.
    ///
    /// A ready service, or a failed one, ends the wait. A service that is
    /// not ready begins the wait if none is on, and fails once the wait has
    /// lasted `timeout`; the wait stays on, so the failure stays until the
    /// service answers otherwise.
    pub fn poll_ready<E>(&mut self, now: u64, polled: Poll<(), E>) -> (res: Poll<(), Error<E>>)
        ensures
            final(self).inner == old(self).inner,
            final(self).timeout == old(self).timeout,
            match polled {
                Ok(Async::Ready(())) => {
                    &&& res == Ok::<Async<()>, Error<E>>(Async::Ready(()))
                    &&& final(self).waiting_since.is_none()
                },
                Err(e) => {
                    &&& res == Err::<Async<()>, Error<E>>(Error::Inner(e))
                    &&& final(self).waiting_since.is_none()
                },
                Ok(Async::NotReady) => {
                    let since = match old(self).waiting_since {
                        Some(since) => since,
                        None => now,
                    };
                    &&& final(self).waiting_since == Some(since)
                    &&& res == (if now >= crate::timeout::deadline(since, old(self).timeout) {
                        Err::<Async<()>, Error<E>>(Error::Elapsed)
                    } else {
                        Ok(Async::NotReady)
                    })
                },
            },
    {
        match polled {
            Ok(Async::Ready(())) => {
                self.waiting_since = None;
                Ok(Async::Ready(()))
            },
            Err(e) => {
                self.waiting_since = None;
                Err(Error::Inner(e))
            },
            Ok(Async::NotReady) => {
                let since = match self.waiting_since {
                    Some(since) => since,
                    None => now,
                };
                self.waiting_since = Some(since);
                if now >= since.saturating_add(self.timeout) {
                    Err(Error::Elapsed)
                } else {
                    Ok(Async::NotReady)
                }
            },
        }
    }
}

} // verus!
