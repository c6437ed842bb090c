//! The concurrency limit: a cap on the requests that are under way at once.
//!
//! A handle is ready once it holds a permit. The permit goes with the call
//! and comes back when the call's answer is done or given up.

use crate::poll::Async;
use crate::stack::layer::Layer as StackLayer;
use vstd::prelude::*;

verus! {

#[derive(Clone, Copy, Debug)]
pub struct Layer {
    pub max: usize,
}

/// The permits of one limit, shared by its handles.
#[derive(Clone, Copy, Debug, PartialEq, Eq, Structural)]
pub struct Permits {
    max: usize,
    out: usize,
}

/// A handle of a limited service.
#[derive(Debug)]
pub struct ConcurrencyLimit<S> {
    inner: S,
    permit: bool,
}

/// A service under its limit: the first handle and the permits.
#[derive(Debug)]
pub struct Limited<S> {
    pub service: ConcurrencyLimit<S>,
    pub permits: Permits,
}

impl Layer {
    pub fn new(max: usize) -> (layer: Layer)
        ensures
            layer.max == max,
    {
        Layer { max }
    }
}

impl<S> StackLayer<S> for Layer {
    type Service = Limited<S>;

    open spec fn accepts(&self, inner: S) -> bool {
        true
    }

    open spec fn layers(&self, inner: S, outer: Limited<S>) -> bool {
        &&& outer.service.inner() == inner
        &&& !outer.service.has_permit()
        &&& outer.permits.max() == self.max
        &&& outer.permits.out() == 0
    }

    fn layer(&self, inner: S) -> (outer: Limited<S>) {
        Limited {
            service: ConcurrencyLimit { inner, permit: false },
            permits: Permits { max: self.max, out: 0 },
        }
    }
}

impl Permits {
    /// How many requests may be under way at once.
    pub closed spec fn max(&self) -> usize {
        self.max
    }

    /// How many permits are out: held by a handle or by a call under way.
    pub closed spec fn out(&self) -> usize {
        self.out
    }

    /// No more permits are out than there are.
    pub open spec fn wf(&self) -> bool {
        self.out() <= self.max()
    }

    pub fn new(max: usize) -> (permits: Permits)
        ensures
            permits.wf(),
            permits.max() == max,
            permits.out() == 0,
    {
        Permits { max, out: 0 }
    }

    /// The number of permits that are out.
    pub fn in_flight(&self) -> (out: usize)
        ensures
            out == self.out(),
    {
        self.out
    }

    /// How many permits there are.
    pub fn capacity(&self) -> (max: usize)
        ensures
            max == self.max(),
    {
        self.max
    }

    /// Takes a permit, while one is left.
    pub fn acquire(&mut self) -> (taken: bool)
        requires
            old(self).wf(),
        ensures
            final(self).wf(),
            final(self).max() == old(self).max(),
            taken == (old(self).out() < old(self).max()),
            final(self).out() == (if taken {
                (old(self).out() + 1) as usize
            } else {
                old(self).out()
            }),
    {
        if self.out < self.max {
            self.out = self.out + 1;
            true
        } else {
            false
        }
    }

    /// A call is done or given up: its permit comes back.
    pub fn release(&mut self)
        requires
            old(self).wf(),
        ensures
            final(self).wf(),
            final(self).max() == old(self).max(),
            final(self).out() == (if old(self).out() > 0 {
                (old(self).out() - 1) as usize
            } else {
                0
            }),
    {
        if self.out > 0 {
            self.out = self.out - 1;
        }
    }
}

impl<S> ConcurrencyLimit<S> {
    /// Whether this handle holds a permit.
    pub closed spec fn has_permit(&self) -> bool {
        self.permit
    }

    /// The limited service.
    pub closed spec fn inner(&self) -> S {
        self.inner
    }

    /// The limited service.
    pub fn get_ref(&self) -> (inner: &S)
        ensures
            *inner == self.inner(),
    {
        &self.inner
    }

    /// The limited service, to call it.
    pub fn get_mut(&mut self) -> (inner: &mut S)
        ensures
            *inner == old(self).inner(),
            final(self).inner() == *final(inner),
            final(self).has_permit() == old(self).has_permit(),
    {
        &mut self.inner
    }

    /// Asks for a permit. A handle that holds one is ready; another takes
    /// one if one is left, and else is not ready.
    pub fn poll_ready(&mut self, permits: &mut Permits) -> (ready: Async<()>)
        requires
            old(permits).wf(),
        ensures
            final(permits).wf(),
            final(permits).max() == old(permits).max(),
            final(self).inner() == old(self).inner(),
            old(self).has_permit() ==> {
                &&& ready == Async::Ready(())
                &&& final(self).has_permit()
                &&& final(permits).out() == old(permits).out()
            },
            !old(self).has_permit() && old(permits).out() < old(permits).max() ==> {
                &&& ready == Async::Ready(())
                &&& final(self).has_permit()
                &&& final(permits).out() == old(permits).out() + 1
            },
            !old(self).has_permit() && old(permits).out() >= old(permits).max() ==> {
                &&& ready == Async::<()>::NotReady
                &&& !final(self).has_permit()
                &&& final(permits).out() == old(permits).out()
            },
    {
        if self.permit {
            return Async::Ready(());
        }
        if permits.acquire() {
            self.permit = true;
            Async::Ready(())
        } else {
            Async::NotReady
        }
    }

    /// The call is made: the permit goes with it. Returns whether the handle
    /// held one; a call without a permit must not reach the service.
    pub fn call(&mut self) -> (permitted: bool)
        ensures
            permitted == old(self).has_permit(),
            !final(self).has_permit(),
            final(self).inner() == old(self).inner(),
    {
        let permitted = self.permit;
        self.permit = false;
        permitted
    }

    /// Another handle of the same service; it holds no permit.
    pub fn duplicate(&self) -> (other: Self) where S: Clone
        ensures
            !other.has_permit(),
            cloned(self.inner(), other.inner()),
    {
        ConcurrencyLimit { inner: self.inner.clone(), permit: false }
    }
}

} // verus!
