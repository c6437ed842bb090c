//! The queue of a buffer: requests wait here, in the order in which they
//! came, until the daemon takes them.
//!
//! A request holds its place in the buffer from the push until its sender
//! lets go of the answer: while it waits in the queue, and while the daemon
//! has it under way. The capacity bounds both together.
//!
//! A request stands in the queue as a handle, a number by which its owner
//! finds the request again, under a token that the queue gives out. Tasks that
//! wait on the queue are woken by the caller; the queue says when.

use crate::buffer::LostDaemon;
use crate::index::{
    tokens_insert, tokens_len, tokens_new, tokens_shift_remove, tokens_shift_remove_index,
};
use crate::poll::{Async, Poll};
use indexmap::IndexMap;
use std::collections::hash_map::RandomState;
use vstd::prelude::*;

verus! {

/// The names under which a queued request is known: its token and its handle.
#[derive(Clone, Copy, Debug, PartialEq, Eq, Structural)]
pub struct InFlight {
    pub token: usize,
    pub request: u64,
}

/// Whom to wake after a change of the queue.
#[derive(Clone, Copy, Debug, PartialEq, Eq, Structural)]
pub enum Wake {
    Nobody,
    /// The daemon, which waits for a request or for the last sender to go.
    Pop,
    /// Every sender that waits for room.
    Push,
}

/// The state that senders and the daemon share.
#[derive(Debug)]
pub struct Inner {
    next_token: usize,
    in_flight: IndexMap<usize, u64, RandomState>,
    dispatched: usize,
    pop_waits: bool,
}

/// The sending side of a queue.
#[derive(Clone, Copy, Debug)]
pub struct Push {
    capacity: usize,
}

/// The taking side of a queue: the daemon's.
#[derive(Debug)]
pub struct Pop(());

/// What a sender holds after it pushed a request.
#[derive(Debug, PartialEq, Eq, Structural)]
pub enum PushFuture {
    /// The request could not be queued: the queue is lost.
    Poisoned,
    /// The request is queued, or was taken, under this token.
    Pending { token: usize },
}

/// A queue for up to `capacity` requests: its two sides and the state that
/// they share.
pub fn channel(capacity: usize) -> (sides: (Push, Pop, Inner))
    ensures
        sides.0.capacity() == capacity,
        sides.2.wf(),
        sides.2.queue().len() == 0,
        sides.2.dispatched() == 0,
        sides.2.next_token() == 0,
        !sides.2.pop_waits(),
{
    let inner = Inner { next_token: 0, in_flight: tokens_new(), dispatched: 0, pop_waits: false };
    (Push { capacity }, Pop(()), inner)
}

impl Inner {
    /// The queued requests, oldest first, each as its token and its handle.
    pub closed spec fn queue(&self) -> Seq<(usize, u64)> {
        crate::index::token_entries(self.in_flight)
    }

    /// The token that the next request gets.
    pub closed spec fn next_token(&self) -> usize {
        self.next_token
    }

    /// Whether the daemon waits to be woken.
    pub closed spec fn pop_waits(&self) -> bool {
        self.pop_waits
    }

    /// How many requests the daemon took and has under way.
    pub closed spec fn dispatched(&self) -> usize {
        self.dispatched
    }

    /// How many requests hold a place: those queued and those under way.
    pub open spec fn occupancy(&self) -> int {
        self.queue().len() + self.dispatched()
    }

    /// No token stands twice, every token in the queue was given out before
    /// the next one, and no more requests hold a place than tokens were
    /// given out.
    pub open spec fn wf(&self) -> bool {
        &&& crate::index::distinct_keys(self.queue())
        &&& forall|i: int| 0 <= i < self.queue().len() ==> (#[trigger] self.queue()[i]).0
            < self.next_token()
        &&& self.occupancy() <= self.next_token()
    }

    /// The number of requests under way.
    pub fn under_way(&self) -> (n: usize)
        ensures
            n == self.dispatched(),
    {
        self.dispatched
    }

    /// The number of queued requests.
    pub fn len(&self) -> (n: usize)
        ensures
            n == self.queue().len(),
    {
        tokens_len(&self.in_flight)
    }
}

impl Push {
    pub closed spec fn capacity(&self) -> usize {
        self.capacity
    }

    /// Ready while fewer requests hold a place than the capacity allows. A
    /// sender that is told "not ready" waits to be woken.
    pub fn poll_ready(&self, inner: &Inner) -> (ready: Poll<(), LostDaemon>)
        requires
            inner.wf(),
        ensures
            ready == Ok::<Async<()>, LostDaemon>(
                if inner.occupancy() < self.capacity() {
                    Async::Ready(())
                } else {
                    Async::NotReady
                },
            ),
    {
        let queued = inner.len();
        if queued < self.capacity && inner.dispatched < self.capacity - queued {
            Ok(Async::Ready(()))
        } else {
            Ok(Async::NotReady)
        }
    }

    /// Puts a request at the end of the queue, under a new token, and wakes
    /// the daemon if it waits. Where no token is left the request is not
    /// queued and the future is poisoned.
    pub fn push(&self, inner: &mut Inner, request: u64) -> (pushed: (PushFuture, Wake))
        requires
            old(inner).wf(),
        ensures
            final(inner).wf(),
            final(inner).dispatched() == old(inner).dispatched(),
            old(inner).next_token() == usize::MAX ==> {
                &&& pushed.0 == PushFuture::Poisoned
                &&& pushed.1 == Wake::Nobody
                &&& final(inner).queue() == old(inner).queue()
                &&& final(inner).next_token() == old(inner).next_token()
                &&& final(inner).pop_waits() == old(inner).pop_waits()
            },
            old(inner).next_token() < usize::MAX ==> {
                &&& pushed.0 == PushFuture::Pending { token: old(inner).next_token() }
                &&& final(inner).queue() == old(inner).queue().push(
                    (old(inner).next_token(), request),
                )
                &&& final(inner).next_token() == old(inner).next_token() + 1
                &&& !final(inner).pop_waits()
                &&& pushed.1 == (if old(inner).pop_waits() {
                    Wake::Pop
                } else {
                    Wake::Nobody
                })
            },
    {
        if inner.next_token == usize::MAX {
            return (PushFuture::Poisoned, Wake::Nobody);
        }
        let token = inner.next_token;
        let ghost before = inner.queue();
        proof {
            if crate::index::has_key(before, token) {
                let p = crate::index::position_of(before, token);
                assert(before[p].0 < token);
            }
        }
        let _ = tokens_insert(&mut inner.in_flight, token, request);
        inner.next_token = token + 1;
        let wake = if inner.pop_waits {
            Wake::Pop
        } else {
            Wake::Nobody
        };
        inner.pop_waits = false;
        (PushFuture::Pending { token }, wake)
    }
}

impl Pop {
    /// Takes the oldest request off the queue: it is under way from now on.
    /// With an empty queue the daemon waits to be woken.
    pub fn poll_pop(&self, inner: &mut Inner) -> (popped: Poll<InFlight, LostDaemon>)
        requires
            old(inner).wf(),
        ensures
            final(inner).wf(),
            final(inner).next_token() == old(inner).next_token(),
            old(inner).queue().len() > 0 ==> {
                &&& popped == Ok::<Async<InFlight>, LostDaemon>(
                    Async::Ready(
                        InFlight { token: old(inner).queue()[0].0, request: old(inner).queue()[0].1 },
                    ),
                )
                &&& final(inner).queue() == old(inner).queue().remove(0)
                &&& final(inner).dispatched() == old(inner).dispatched() + 1
                &&& final(inner).pop_waits() == old(inner).pop_waits()
            },
            old(inner).queue().len() == 0 ==> {
                &&& popped == Ok::<Async<InFlight>, LostDaemon>(Async::NotReady)
                &&& final(inner).queue() == old(inner).queue()
                &&& final(inner).dispatched() == old(inner).dispatched()
                &&& final(inner).pop_waits()
            },
    {
        let ghost before = inner.queue();
        match tokens_shift_remove_index(&mut inner.in_flight, 0) {
            Some((token, request)) => {
                proof {
                    assert forall|i: int| 0 <= i < inner.queue().len() implies (
                    #[trigger] inner.queue()[i]).0 < inner.next_token() by {
                        assert(inner.queue()[i] == before[i + 1]);
                    }
                }
                inner.dispatched = inner.dispatched + 1;
                Ok(Async::Ready(InFlight { token, request }))
            },
            None => {
                inner.pop_waits = true;
                Ok(Async::NotReady)
            },
        }
    }

    /// Whether the daemon is done: it is once no sender is left. `holders`
    /// is the number of owners of the shared state, the daemon among them.
    /// Until then the daemon waits to be woken.
    pub fn poll_complete(&self, inner: &mut Inner, holders: usize) -> (done: Poll<(), LostDaemon>)
        ensures
            final(inner).queue() == old(inner).queue(),
            final(inner).next_token() == old(inner).next_token(),
            final(inner).dispatched() == old(inner).dispatched(),
            done == Ok::<Async<()>, LostDaemon>(
                if holders == 1 {
                    Async::Ready(())
                } else {
                    Async::NotReady
                },
            ),
            final(inner).pop_waits() == (if holders == 1 {
                old(inner).pop_waits()
            } else {
                true
            }),
    {
        if holders == 1 {
            return Ok(Async::Ready(()));
        }
        inner.pop_waits = true;
        Ok(Async::NotReady)
    }
}

impl PushFuture {
    /// A poisoned future fails at once; a pending one waits for its answer.
    pub fn poll(&self) -> (polled: Poll<(), LostDaemon>)
        ensures
            polled == (match *self {
                PushFuture::Poisoned => Err::<Async<()>, LostDaemon>(LostDaemon),
                PushFuture::Pending { .. } => Ok(Async::NotReady),
            }),
    {
        match self {
            PushFuture::Poisoned => Err(LostDaemon),
            PushFuture::Pending { .. } => Ok(Async::NotReady),
        }
    }

    /// The sender lets go of the answer, because it has it or because it
    /// gave up: the request gives its place back. A request that still
    /// stands in the queue leaves it, and the others keep their order; one
    /// that the daemon took is under way no longer. `holders` is the number
    /// of owners of the shared state, this future among them. With two, only
    /// the daemon is left besides, and it is woken if it waits; else the
    /// senders that wait for room are woken.
    pub fn drop(self, inner: &mut Inner, holders: usize) -> (wake: Wake)
        requires
            old(inner).wf(),
        ensures
            final(inner).wf(),
            final(inner).next_token() == old(inner).next_token(),
            self is Poisoned ==> {
                &&& wake == Wake::Nobody
                &&& final(inner).queue() == old(inner).queue()
                &&& final(inner).dispatched() == old(inner).dispatched()
                &&& final(inner).pop_waits() == old(inner).pop_waits()
            },
            self matches PushFuture::Pending { token } ==> {
                &&& final(inner).queue() == crate::index::without_key(old(inner).queue(), token)
                &&& final(inner).dispatched() == (if crate::index::has_key(
                    old(inner).queue(),
                    token,
                ) || old(inner).dispatched() == 0 {
                    old(inner).dispatched()
                } else {
                    (old(inner).dispatched() - 1) as usize
                })
                &&& wake == (if holders == 2 {
                    if old(inner).pop_waits() {
                        Wake::Pop
                    } else {
                        Wake::Nobody
                    }
                } else {
                    Wake::Push
                })
                &&& final(inner).pop_waits() == (old(inner).pop_waits() && holders != 2)
            },
    {
        match self {
            PushFuture::Poisoned => Wake::Nobody,
            PushFuture::Pending { token } => {
                let ghost before = inner.queue();
                let removed = tokens_shift_remove(&mut inner.in_flight, token);
                if removed.is_none() && inner.dispatched > 0 {
                    inner.dispatched = inner.dispatched - 1;
                }
                proof {
                    if crate::index::has_key(before, token) {
                        let p = crate::index::position_of(before, token);
                        assert forall|i: int| 0 <= i < inner.queue().len() implies (
                        #[trigger] inner.queue()[i]).0 < inner.next_token() by {
                            if i < p {
                                assert(inner.queue()[i] == before[i]);
                            } else {
                                assert(inner.queue()[i] == before[i + 1]);
                            }
                        }
                    }
                }
                if holders == 2 {
                    let wake = if inner.pop_waits {
                        Wake::Pop
                    } else {
                        Wake::Nobody
                    };
                    inner.pop_waits = false;
                    return wake;
                }
                Wake::Push
            },
        }
    }
}

/// The queue after each of `requests` was pushed in turn, the first under the
/// token `next`.
pub open spec fn pushed_all(queue: Seq<(usize, u64)>, next: int, requests: Seq<u64>) -> Seq<
    (usize, u64),
>
    decreases requests.len(),
{
    if requests.len() == 0 {
        queue
    } else {
        pushed_all(
            queue.push((next as usize, requests[0])),
            next + 1,
            requests.subrange(1, requests.len() as int),
        )
    }
}

/// The handles in the order in which popping hands them out, until the queue
/// is empty.
pub open spec fn popped_all(queue: Seq<(usize, u64)>) -> Seq<u64>
    decreases queue.len(),
{
    if queue.len() == 0 {
        Seq::empty()
    } else {
        seq![queue[0].1] + popped_all(queue.remove(0))
    }
}

/// Popping hands out the handles in the order in which they stand.
pub proof fn lemma_popped_in_standing_order(queue: Seq<(usize, u64)>)
    ensures
        popped_all(queue) == Seq::new(queue.len(), |i: int| queue[i].1),
    decreases queue.len(),
{
    if queue.len() > 0 {
        let rest = queue.remove(0);
        lemma_popped_in_standing_order(rest);
        assert(seq![queue[0].1] + Seq::new(rest.len(), |i: int| rest[i].1) =~= Seq::new(
            queue.len(),
            |i: int| queue[i].1,
        ));
    } else {
        assert(popped_all(queue) =~= Seq::new(queue.len(), |i: int| queue[i].1));
    }
}

/// The buffer is first in, first out: requests that are pushed in some order
/// are popped in that order, behind those that stood in the queue before.
pub proof fn lemma_fifo(queue: Seq<(usize, u64)>, next: int, requests: Seq<u64>)
    ensures
        popped_all(pushed_all(queue, next, requests)) == popped_all(queue) + requests,
    decreases requests.len(),
{
    if requests.len() == 0 {
        assert(popped_all(queue) + requests =~= popped_all(queue));
    } else {
        let longer = queue.push((next as usize, requests[0]));
        let rest = requests.subrange(1, requests.len() as int);
        lemma_fifo(longer, next + 1, rest);
        lemma_popped_in_standing_order(longer);
        lemma_popped_in_standing_order(queue);
        assert(popped_all(longer) + rest =~= popped_all(queue) + requests);
    }
}

} // verus!
