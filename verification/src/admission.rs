//! Admission: which requests are let in, and which are turned away at the
//! edge.
//!
//! Load is shed outermost. Behind it a bounded buffer holds the requests that
//! were let in, in the order in which they came, and a concurrency limit caps
//! how many the daemon has under way at once. A request that comes while the
//! buffer has no place left is turned away at once, before it enters the
//! buffer.

use crate::buffer::queue::{channel, InFlight, Inner, Pop, Push, PushFuture};
use crate::concurrency_limit::Permits;
use crate::poll::Async;
use crate::svc::load_shed::Overloaded;
use vstd::prelude::*;

verus! {

/// The admission state in front of one service.
#[derive(Debug)]
pub struct Admission {
    push: Push,
    pop: Pop,
    queue: Inner,
    permits: Permits,
}

impl Admission {
    /// How many requests may hold a place at once: those that wait and those
    /// under way together.
    pub closed spec fn bound(&self) -> usize {
        self.push.capacity()
    }

    /// How many requests may be under way at once.
    pub closed spec fn max_concurrency(&self) -> usize {
        self.permits.max()
    }

    /// The requests that wait, oldest first, each as its token and its
    /// handle.
    pub closed spec fn waiting(&self) -> Seq<(usize, u64)> {
        self.queue.queue()
    }

    /// How many requests are under way.
    pub closed spec fn under_way(&self) -> usize {
        self.queue.dispatched()
    }

    /// The token that the next request gets.
    pub closed spec fn next_token(&self) -> usize {
        self.queue.next_token()
    }

    /// How many requests hold a place.
    pub open spec fn in_flight(&self) -> int {
        self.waiting().len() + self.under_way()
    }

    pub closed spec fn wf(&self) -> bool {
        &&& self.queue.wf()
        &&& self.permits.wf()
        &&& self.permits.out() == self.queue.dispatched()
    }

    /// Admission for up to `bound` requests in all, up to `max_concurrency`
    /// of them under way at once.
    pub fn new(bound: usize, max_concurrency: usize) -> (admission: Admission)
        ensures
            admission.wf(),
            admission.bound() == bound,
            admission.max_concurrency() == max_concurrency,
            admission.waiting().len() == 0,
            admission.under_way() == 0,
            admission.next_token() == 0,
    {
        let (push, pop, queue) = channel(bound);
        Admission { push, pop, queue, permits: Permits::new(max_concurrency) }
    }

    /// A request arrives.
    ///
    /// While fewer requests hold a place than the bound allows, it is let in
    /// behind those that wait. Else it is turned away as overloaded, and
    /// nothing changes: it does not enter the buffer.
    pub fn arrive(&mut self, request: u64) -> (res: Result<PushFuture, Overloaded>)
        requires
            old(self).wf(),
        ensures
            final(self).wf(),
            final(self).bound() == old(self).bound(),
            final(self).max_concurrency() == old(self).max_concurrency(),
            final(self).under_way() == old(self).under_way(),
            old(self).in_flight() >= old(self).bound() ==> {
                &&& res == Err::<PushFuture, Overloaded>(Overloaded)
                &&& final(self).waiting() == old(self).waiting()
                &&& final(self).next_token() == old(self).next_token()
            },
            old(self).in_flight() < old(self).bound() ==> {
                &&& res is Ok
                &&& old(self).next_token() < usize::MAX ==> {
                    &&& res == Ok::<PushFuture, Overloaded>(
                        PushFuture::Pending { token: old(self).next_token() },
                    )
                    &&& final(self).waiting() == old(self).waiting().push(
                        (old(self).next_token(), request),
                    )
                    &&& final(self).next_token() == old(self).next_token() + 1
                }
                &&& old(self).next_token() == usize::MAX ==> {
                    &&& res == Ok::<PushFuture, Overloaded>(PushFuture::Poisoned)
                    &&& final(self).waiting() == old(self).waiting()
                    &&& final(self).next_token() == old(self).next_token()
                }
            },
    {
        match self.push.poll_ready(&self.queue) {
            Ok(Async::Ready(())) => {
                let (future, _) = self.push.push(&mut self.queue, request);
                Ok(future)
            },
            _ => Err(Overloaded),
        }
    }

    /// The daemon asks for the next request to put under way: the oldest
    /// that waits, while fewer are under way than may be at once.
    pub fn dispatch(&mut self) -> (next: Option<InFlight>)
        requires
            old(self).wf(),
        ensures
            final(self).wf(),
            final(self).bound() == old(self).bound(),
            final(self).max_concurrency() == old(self).max_concurrency(),
            final(self).next_token() == old(self).next_token(),
            old(self).waiting().len() > 0 && old(self).under_way() < old(self).max_concurrency()
                ==> {
                &&& next == Some(
                    InFlight { token: old(self).waiting()[0].0, request: old(self).waiting()[0].1 },
                )
                &&& final(self).waiting() == old(self).waiting().remove(0)
                &&& final(self).under_way() == old(self).under_way() + 1
            },
            !(old(self).waiting().len() > 0 && old(self).under_way() < old(
                self,
            ).max_concurrency()) ==> {
                &&& next.is_none()
                &&& final(self).waiting() == old(self).waiting()
                &&& final(self).under_way() == old(self).under_way()
            },
    {
        if self.queue.len() == 0 || self.permits.in_flight() >= self.permits.capacity() {
            return None;
        }
        match self.pop.poll_pop(&mut self.queue) {
            Ok(Async::Ready(next)) => {
                self.permits.acquire();
                Some(next)
            },
            _ => None,
        }
    }

    /// A sender lets go of its answer: the request gives its place back, and
    /// its permit if it was under way.
    pub fn complete(&mut self, future: PushFuture)
        requires
            old(self).wf(),
        ensures
            final(self).wf(),
            final(self).bound() == old(self).bound(),
            final(self).max_concurrency() == old(self).max_concurrency(),
            final(self).next_token() == old(self).next_token(),
            future is Poisoned ==> {
                &&& final(self).waiting() == old(self).waiting()
                &&& final(self).under_way() == old(self).under_way()
            },
            future matches PushFuture::Pending { token } ==> {
                &&& final(self).waiting() == crate::index::without_key(old(self).waiting(), token)
                &&& final(self).under_way() == (if crate::index::has_key(
                    old(self).waiting(),
                    token,
                ) || old(self).under_way() == 0 {
                    old(self).under_way()
                } else {
                    (old(self).under_way() - 1) as usize
                })
            },
    {
        let before = self.queue.under_way();
        let _ = future.drop(&mut self.queue, 0);
        if self.queue.under_way() < before {
            self.permits.release();
        }
    }
}

/// Admission by a concurrency limit alone, with load shed in front of it: a
/// request that arrives is given a permit while one is left, and is turned
/// away as overloaded while none is; then nothing changes.
pub fn enter(permits: &mut Permits) -> (res: Result<(), Overloaded>)
    requires
        old(permits).wf(),
    ensures
        final(permits).wf(),
        final(permits).max() == old(permits).max(),
        old(permits).out() >= old(permits).max() ==> res == Err::<(), Overloaded>(Overloaded)
            && final(permits).out() == old(permits).out(),
        old(permits).out() < old(permits).max() ==> res == Ok::<(), Overloaded>(())
            && final(permits).out() == old(permits).out() + 1,
{
    if permits.in_flight() < permits.capacity() {
        permits.acquire();
        Ok(())
    } else {
        Err(Overloaded)
    }
}

} // verus!
