//! The buffer: a bounded queue in front of a service that a daemon task
//! owns and feeds, one request after the other, in the order in which they
//! came.

use crate::buffer::queue::{channel, Inner, Pop, Push, PushFuture, Wake};
use crate::poll::{Async, Poll};
use crate::stack::layer::Layer as StackLayer;
use vstd::prelude::*;

pub mod queue;

verus! {

/// The daemon that owned the buffered service is gone.
#[derive(Clone, Copy, Debug, PartialEq, Eq, Structural)]
pub struct LostDaemon;

impl LostDaemon {
    /// What a log line says of this error.
    pub fn message(&self) -> (text: String)
        ensures
            text@ == "buffer daemon task was lost"@,
    {
        "buffer daemon task was lost".to_owned()
    }
}

/// The sending side of a buffer.
#[derive(Clone, Copy, Debug)]
pub struct Buffer {
    queue: Push,
}

#[derive(Clone, Copy, Debug)]
pub struct Layer {
    pub capacity: usize,
}

/// A service behind its buffer: the sending side, and what the daemon owns,
/// which is the service, the taking side and the queue.
#[derive(Debug)]
pub struct Buffered<S> {
    pub buffer: Buffer,
    pub service: S,
    pub pop: Pop,
    pub queue: Inner,
}

impl Layer {
    pub fn new(capacity: usize) -> (layer: Layer)
        ensures
            layer.capacity == capacity,
    {
        Layer { capacity }
    }
}

impl<S> StackLayer<S> for Layer {
    type Service = Buffered<S>;

    open spec fn accepts(&self, inner: S) -> bool {
        true
    }

    open spec fn layers(&self, inner: S, outer: Buffered<S>) -> bool {
        &&& outer.service == inner
        &&& outer.buffer.capacity() == self.capacity
        &&& outer.queue.wf()
        &&& outer.queue.queue().len() == 0
        &&& outer.queue.dispatched() == 0
        &&& outer.queue.next_token() == 0
        &&& !outer.queue.pop_waits()
    }

    fn layer(&self, inner: S) -> (outer: Buffered<S>) {
        let (push, pop, queue) = channel(self.capacity);
        Buffered { buffer: Buffer::new(push), service: inner, pop, queue }
    }
}

/// The answer to a buffered request, as far as it has come.
#[derive(Debug, PartialEq, Eq, Structural)]
pub enum BufferFuture {
    /// The request waits to be queued.
    Push { req: Option<u64> },
    /// The request is queued or under way.
    InFlight(PushFuture),
}

impl Buffer {
    pub closed spec fn capacity(&self) -> usize {
        self.queue.capacity()
    }

    pub fn new(queue: Push) -> (buffer: Buffer)
        ensures
            buffer.capacity() == queue.capacity(),
    {
        Buffer { queue }
    }

    /// Whether a request may be sent.
    ///
    /// Without its daemon the buffer fails. Else it is ready where the queue
    /// could be looked at and fewer requests hold a place than the capacity
    /// allows; `queue` is `None` where the queue was in use by another task.
    pub fn poll_ready(&self, daemon_alive: bool, queue: Option<&Inner>) -> (ready: Poll<
        (),
        LostDaemon,
    >)
        requires
            queue matches Some(inner) ==> inner.wf(),
        ensures
            ready == (if !daemon_alive {
                Err::<Async<()>, LostDaemon>(LostDaemon)
            } else if queue.is_some() && queue.unwrap().occupancy() < self.capacity() {
                Ok(Async::Ready(()))
            } else {
                Ok(Async::NotReady)
            }),
    {
        if !daemon_alive {
            return Err(LostDaemon);
        }
        match queue {
            Some(inner) => self.queue.poll_ready(inner),
            None => Ok(Async::NotReady),
        }
    }

    /// Takes a request: it waits to be queued.
    pub fn call(&self, request: u64) -> (future: BufferFuture)
        ensures
            future == (BufferFuture::Push { req: Some(request) }),
    {
        BufferFuture::Push { req: Some(request) }
    }

    /// Queues the request of a future that waits for it, once the queue can
    /// be used: it goes to the end of the queue under the next token. Says
    /// whom to wake. A future that is past that point stays as it is, and so
    /// does the queue.
    pub fn poll(&self, future: &mut BufferFuture, inner: &mut Inner) -> (wake: Wake)
        requires
            old(inner).wf(),
        ensures
            final(inner).wf(),
            *old(future) matches BufferFuture::Push { req: Some(request) } ==> {
                &&& old(inner).next_token() < usize::MAX ==> {
                    &&& *final(future) == BufferFuture::InFlight(
                        PushFuture::Pending { token: old(inner).next_token() },
                    )
                    &&& final(inner).queue() == old(inner).queue().push(
                        (old(inner).next_token(), request),
                    )
                    &&& final(inner).next_token() == old(inner).next_token() + 1
                    &&& !final(inner).pop_waits()
                    &&& wake == (if old(inner).pop_waits() {
                        Wake::Pop
                    } else {
                        Wake::Nobody
                    })
                }
                &&& old(inner).next_token() == usize::MAX ==> {
                    &&& *final(future) == BufferFuture::InFlight(PushFuture::Poisoned)
                    &&& final(inner).queue() == old(inner).queue()
                    &&& final(inner).next_token() == old(inner).next_token()
                    &&& final(inner).pop_waits() == old(inner).pop_waits()
                    &&& wake == Wake::Nobody
                }
            },
            final(inner).dispatched() == old(inner).dispatched(),
            !(*old(future) matches BufferFuture::Push { req: Some(_) }) ==> {
                &&& *final(future) == *old(future)
                &&& final(inner).queue() == old(inner).queue()
                &&& final(inner).next_token() == old(inner).next_token()
                &&& final(inner).pop_waits() == old(inner).pop_waits()
                &&& wake == Wake::Nobody
            },
    {
        let request = match future {
            BufferFuture::Push { req: Some(request) } => Some(*request),
            _ => None,
        };
        match request {
            Some(request) => {
                let (pushed, wake) = self.queue.push(inner, request);
                *future = BufferFuture::InFlight(pushed);
                wake
            },
            None => Wake::Nobody,
        }
    }
}

} // verus!
