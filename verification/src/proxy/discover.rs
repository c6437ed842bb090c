//! Discovery: the endpoints of a destination, as a stream of additions and
//! removals, and the buffer that holds the updates which the balancer has not
//! taken yet.
//!
//! The buffer holds one update per address at most. An update for an address
//! that has one pending takes its place: an addition over a removal, so that
//! the endpoint stays, and a removal over an addition, so that the addition
//! is never seen. So a balancer that falls behind sees fewer updates, not
//! stale ones.

use crate::addr::SocketAddr;
use vstd::prelude::*;

verus! {

/// One update of a destination's endpoints.
#[derive(Clone, Debug)]
pub enum Update<M> {
    /// The endpoint at this address is there, with this metadata.
    Add(SocketAddr, M),
    /// The endpoint at this address is gone.
    Remove(SocketAddr),
}

impl<M> Update<M> {
    pub open spec fn spec_addr(&self) -> SocketAddr {
        match *self {
            Update::Add(addr, _) => addr,
            Update::Remove(addr) => addr,
        }
    }

    /// The address that the update is about.
    #[verifier::when_used_as_spec(spec_addr)]
    pub fn addr(&self) -> (addr: SocketAddr)
        ensures
            addr == self.spec_addr(),
    {
        match self {
            Update::Add(addr, _) => *addr,
            Update::Remove(addr) => *addr,
        }
    }
}

/// The updates that wait to be taken, oldest first.
#[derive(Debug)]
pub struct Buffer<M> {
    capacity: usize,
    pending: Vec<Update<M>>,
}

/// Whether an update for `addr` waits.
pub open spec fn waits<M>(pending: Seq<Update<M>>, addr: SocketAddr) -> bool {
    exists|i: int| 0 <= i < pending.len() && (#[trigger] pending[i]).spec_addr() == addr
}

/// The place of the update for `addr` that waits.
pub open spec fn place_of<M>(pending: Seq<Update<M>>, addr: SocketAddr) -> int {
    choose|i: int| 0 <= i < pending.len() && (#[trigger] pending[i]).spec_addr() == addr
}

/// No address has two updates.
pub open spec fn one_per_addr<M>(pending: Seq<Update<M>>) -> bool {
    forall|i: int, j: int|
        0 <= i < j < pending.len() ==> (#[trigger] pending[i]).spec_addr() != (
        #[trigger] pending[j]).spec_addr()
}

impl<M> Buffer<M> {
    pub closed spec fn capacity(&self) -> usize {
        self.capacity
    }

    pub closed spec fn pending(&self) -> Seq<Update<M>> {
        self.pending@
    }

    /// No more updates wait than the capacity allows, and one per address at
    /// most.
    pub open spec fn wf(&self) -> bool {
        self.pending().len() <= self.capacity() && one_per_addr(self.pending())
    }

    /// An empty buffer for up to `capacity` updates.
    pub fn new(capacity: usize) -> (buffer: Self)
        ensures
            buffer.wf(),
            buffer.capacity() == capacity,
            buffer.pending().len() == 0,
    {
        Buffer { capacity, pending: Vec::new() }
    }

    /// The number of updates that wait.
    pub fn len(&self) -> (n: usize)
        ensures
            n == self.pending().len(),
    {
        self.pending.len()
    }

    fn find(&self, addr: SocketAddr) -> (place: Option<usize>)
        ensures
            place.is_some() == waits(self.pending(), addr),
            place matches Some(i) ==> i < self.pending().len() && self.pending()[i as int].spec_addr()
                == addr,
    {
        let mut i: usize = 0;
        while i < self.pending.len()
            invariant
                i <= self.pending@.len(),
                forall|k: int| 0 <= k < i ==> (#[trigger] self.pending@[k]).spec_addr() != addr,
            decreases self.pending@.len() - i,
        {
            let at = self.pending[i].addr();
            if at.ip == addr.ip && at.port == addr.port {
                return Some(i);
            }
            i += 1;
        }
        None
    }

    /// Takes an update from the stream.
    ///
    /// An update for an address that has one waiting takes its place, and
    /// the buffer grows by nothing. Another update goes last while there is
    /// room. Without room it is refused and comes back: the stream is to be
    /// asked again once the balancer has taken an update.
    pub fn push(&mut self, update: Update<M>) -> (refused: Option<Update<M>>)
        requires
            old(self).wf(),
        ensures
            final(self).wf(),
            final(self).capacity() == old(self).capacity(),
            waits(old(self).pending(), update.spec_addr()) ==> {
                &&& refused.is_none()
                &&& final(self).pending() == old(self).pending().update(
                    place_of(old(self).pending(), update.spec_addr()),
                    update,
                )
            },
            !waits(old(self).pending(), update.spec_addr()) && old(self).pending().len() < old(
                self,
            ).capacity() ==> {
                &&& refused.is_none()
                &&& final(self).pending() == old(self).pending().push(update)
            },
            !waits(old(self).pending(), update.spec_addr()) && old(self).pending().len() >= old(
                self,
            ).capacity() ==> {
                &&& refused == Some(update)
                &&& final(self).pending() == old(self).pending()
            },
    {
        let addr = update.addr();
        match self.find(addr) {
            Some(place) => {
                let ghost before = self.pending@;
                proof {
                    let p = place_of(before, addr);
                    assert(p == place);
                }
                self.pending[place] = update;
                proof {
                    assert(self.pending@ =~= before.update(place as int, update));
                }
                None
            },
            None => {
                if self.pending.len() < self.capacity {
                    self.pending.push(update);
                    None
                } else {
                    Some(update)
                }
            },
        }
    }

    /// Hands the oldest update that waits to the balancer.
    pub fn pop(&mut self) -> (update: Option<Update<M>>)
        requires
            old(self).wf(),
        ensures
            final(self).wf(),
            final(self).capacity() == old(self).capacity(),
            old(self).pending().len() == 0 ==> update.is_none() && final(self).pending() == old(
                self,
            ).pending(),
            old(self).pending().len() > 0 ==> update == Some(old(self).pending()[0])
                && final(self).pending() == old(self).pending().remove(0),
    {
        if self.pending.len() == 0 {
            None
        } else {
            let ghost before = self.pending@;
            let update = self.pending.remove(0);
            proof {
                assert forall|i: int, j: int| 0 <= i < j < self.pending@.len() implies (
                #[trigger] self.pending@[i]).spec_addr() != (
                #[trigger] self.pending@[j]).spec_addr() by {
                    assert(self.pending@[i] == before[i + 1]);
                    assert(self.pending@[j] == before[j + 1]);
                }
            }
            Some(update)
        }
    }
}

} // verus!
