//! What the core records of requests, by target.
//!
//! A target's metrics stay registered as long as a handle to them is out or
//! they were updated recently; the rest is dropped when the report is next
//! made. The core only records: formatting is not its part.
//!
//! Time is a count of milliseconds that the caller reads from its clock.

use crate::retry::ResponseFuture;
use crate::route_retry::Retryability;
use vstd::prelude::*;

verus! {

/// Metrics that know when they were last updated.
pub trait LastUpdate {
    open spec fn updated(&self) -> u64 {
        arbitrary()
    }

    fn last_update(&self) -> (at: u64)
        ensures
            at == self.updated(),
    ;
}

/// The metrics of one target.
#[derive(Debug)]
pub struct Entry<T, M> {
    pub target: T,
    pub metrics: M,
    /// How many handles to the metrics are out.
    pub handles: usize,
}

/// The metrics of all targets, in the order in which they were registered.
#[derive(Debug)]
pub struct Registry<T, M> {
    by_target: Vec<Entry<T, M>>,
}

/// An entry stays at a report made for `epoch`: a handle is out, or the
/// metrics were updated at `epoch` or later.
pub open spec fn retained<T, M: LastUpdate>(epoch: u64) -> spec_fn(Entry<T, M>) -> bool {
    |entry: Entry<T, M>| entry.handles > 0 || entry.metrics.updated() >= epoch
}

impl<T, M> Registry<T, M> {
    pub closed spec fn by_target(&self) -> Seq<Entry<T, M>> {
        self.by_target@
    }

    /// Whether `target` is registered.
    pub open spec fn registers(&self, target: T) -> bool {
        exists|i: int| 0 <= i < self.by_target().len() && #[trigger] self.by_target()[i].target
            == target
    }

    /// The place of the first entry of `target`.
    pub open spec fn place_of(&self, target: T) -> int {
        choose|i: int|
            0 <= i < self.by_target().len() && #[trigger] self.by_target()[i].target == target
                && forall|k: int| 0 <= k < i ==> self.by_target()[k].target != target
    }

    /// A registry without entries.
    pub fn new() -> (registry: Self)
        ensures
            registry.by_target().len() == 0,
    {
        Registry { by_target: Vec::new() }
    }

    pub fn len(&self) -> (n: usize)
        ensures
            n == self.by_target().len(),
    {
        self.by_target.len()
    }

    pub fn is_empty(&self) -> (empty: bool)
        ensures
            empty == (self.by_target().len() == 0),
    {
        self.by_target.len() == 0
    }

    /// The entry at `place`.
    pub fn get(&self, place: usize) -> (entry: Option<&Entry<T, M>>)
        ensures
            place < self.by_target().len() ==> entry == Some(&self.by_target()[place as int]),
            place >= self.by_target().len() ==> entry.is_none(),
    {
        if place < self.by_target.len() {
            Some(&self.by_target[place])
        } else {
            None
        }
    }

    /// Drops the entries that no handle is out for and that were not updated
    /// since `epoch`; the others stay, in their order.
    pub fn retain_since(&mut self, epoch: u64) where M: LastUpdate
        ensures
            final(self).by_target() == old(self).by_target().filter(retained(epoch)),
    {
        let ghost before = self.by_target@;
        let ghost keep = retained::<T, M>(epoch);
        let mut reversed: Vec<Entry<T, M>> = Vec::new();
        while self.by_target.len() > 0
            invariant
                self.by_target@.len() + reversed@.len() == before.len(),
                forall|k: int| 0 <= k < self.by_target@.len() ==> self.by_target@[k] == before[k],
                forall|k: int|
                    0 <= k < reversed@.len() ==> reversed@[k] == before[before.len() - 1 - k],
            decreases self.by_target@.len(),
        {
            let last = self.by_target.pop().unwrap();
            reversed.push(last);
        }
        proof {
            reveal(Seq::filter);
            assert(before.take(0).filter(keep) =~= Seq::<Entry<T, M>>::empty());
        }
        while reversed.len() > 0
            invariant
                keep == retained::<T, M>(epoch),
                reversed@.len() <= before.len(),
                forall|k: int|
                    0 <= k < reversed@.len() ==> reversed@[k] == before[before.len() - 1 - k],
                self.by_target@ == before.take(before.len() - reversed@.len()).filter(keep),
            decreases reversed@.len(),
        {
            let ghost at = before.len() - reversed@.len();
            let entry = reversed.pop().unwrap();
            let stays = entry.handles > 0 || entry.metrics.last_update() >= epoch;
            proof {
                assert(entry == before[at]);
                assert(keep(entry) == stays);
                assert(before.take(at + 1) =~= before.take(at).push(entry));
                before.take(at).lemma_filter_push(entry, keep);
            }
            if stays {
                self.by_target.push(entry);
            }
        }
        proof {
            assert(before.take(before.len() as int) =~= before);
        }
    }
}

impl<T: PartialEq, M> Registry<T, M> {
    /// The place of the first entry of `target`, if it is registered.
    pub fn find(&self, target: &T) -> (place: Option<usize>)
        requires
            vstd::laws_eq::obeys_concrete_eq::<T>(),
        ensures
            place.is_some() == self.registers(*target),
            place matches Some(i) ==> i < self.by_target().len() && self.by_target()[i as int].target
                == *target && forall|k: int| 0 <= k < i ==> self.by_target()[k].target != *target,
    {
        proof {
            reveal(vstd::laws_eq::obeys_concrete_eq);
        }
        let mut i: usize = 0;
        while i < self.by_target.len()
            invariant
                i <= self.by_target@.len(),
                vstd::laws_eq::obeys_concrete_eq::<T>(),
                forall|k: int| 0 <= k < i ==> self.by_target@[k].target != *target,
            decreases self.by_target@.len() - i,
        {
            proof {
                reveal(vstd::laws_eq::obeys_concrete_eq);
            }
            if self.by_target[i].target == *target {
                return Some(i);
            }
            i += 1;
        }
        None
    }

    /// Hands out a handle to the metrics of `target`. A target that is not
    /// registered is registered last, with the metrics given; else the
    /// metrics given are dropped. Returns the place of the entry.
    pub fn register(&mut self, target: T, metrics: M) -> (place: usize)
        requires
            vstd::laws_eq::obeys_concrete_eq::<T>(),
        ensures
            place < final(self).by_target().len(),
            final(self).by_target()[place as int].target == target,
            !old(self).registers(target) ==> {
                &&& place == old(self).by_target().len()
                &&& final(self).by_target() == old(self).by_target().push(
                    Entry { target, metrics, handles: 1 },
                )
            },
            old(self).registers(target) ==> {
                &&& final(self).by_target().len() == old(self).by_target().len()
                &&& final(self).by_target() == old(self).by_target().update(
                    place as int,
                    Entry {
                        target: old(self).by_target()[place as int].target,
                        metrics: old(self).by_target()[place as int].metrics,
                        handles: if old(self).by_target()[place as int].handles < usize::MAX {
                            (old(self).by_target()[place as int].handles + 1) as usize
                        } else {
                            usize::MAX
                        },
                    },
                )
            },
    {
        match self.find(&target) {
            Some(place) => {
                let ghost before = self.by_target@;
                let handles = self.by_target[place].handles;
                if handles < usize::MAX {
                    self.by_target[place].handles = handles + 1;
                }
                proof {
                    assert(self.by_target@ =~= before.update(
                        place as int,
                        Entry {
                            target: before[place as int].target,
                            metrics: before[place as int].metrics,
                            handles: if before[place as int].handles < usize::MAX {
                                (before[place as int].handles + 1) as usize
                            } else {
                                usize::MAX
                            },
                        },
                    ));
                }
                place
            },
            None => {
                self.by_target.push(Entry { target, metrics, handles: 1 });
                self.by_target.len() - 1
            },
        }
    }

    /// Takes back a handle to the metrics of `target`.
    pub fn release(&mut self, target: &T)
        requires
            vstd::laws_eq::obeys_concrete_eq::<T>(),
        ensures
            final(self).by_target().len() == old(self).by_target().len(),
            forall|i: int|
                0 <= i < old(self).by_target().len() ==> {
                    &&& (#[trigger] final(self).by_target()[i]).target == old(
                        self,
                    ).by_target()[i].target
                    &&& final(self).by_target()[i].metrics == old(self).by_target()[i].metrics
                    &&& final(self).by_target()[i].handles == (if old(self).registers(*target) && i
                        == old(self).place_of(*target) && old(self).by_target()[i].handles > 0 {
                        (old(self).by_target()[i].handles - 1) as usize
                    } else {
                        old(self).by_target()[i].handles
                    })
                },
    {
        match self.find(target) {
            Some(place) => {
                proof {
                    let p = self.place_of(*target);
                    assert(p == place);
                }
                let handles = self.by_target[place].handles;
                if handles > 0 {
                    self.by_target[place].handles = handles - 1;
                }
            },
            None => {},
        }
    }
}

/// The counts of one route's retries.
#[derive(Clone, Copy, Debug, PartialEq, Eq, Structural)]
pub struct RetryMetrics {
    pub last_update: u64,
    /// Failures that were retried.
    pub retryable: u64,
    /// Failures that were not retried because the budget had no retry left.
    pub skipped_budget: u64,
    /// Requests that could not be retried because they could not be cloned.
    pub skipped_body: u64,
}

/// One more, unless the count is at its end.
pub open spec fn incremented(count: u64) -> u64 {
    if count < u64::MAX {
        (count + 1) as u64
    } else {
        count
    }
}

fn increment(count: u64) -> (next: u64)
    ensures
        next == incremented(count),
{
    if count < u64::MAX {
        count + 1
    } else {
        count
    }
}

impl RetryMetrics {
    /// No counts, as of `now`.
    pub fn new(now: u64) -> (metrics: RetryMetrics)
        ensures
            metrics == (RetryMetrics {
                last_update: now,
                retryable: 0,
                skipped_budget: 0,
                skipped_body: 0,
            }),
    {
        RetryMetrics { last_update: now, retryable: 0, skipped_budget: 0, skipped_body: 0 }
    }

    /// These counts after a retry policy said `decision` of a response, at
    /// `now`: a failure that is retried is counted, and so is one that is
    /// not for want of budget. What is no failure is not counted.
    pub open spec fn counted(self, decision: Retryability, now: u64) -> RetryMetrics {
        match decision {
            Retryability::Retryable => RetryMetrics {
                last_update: now,
                retryable: incremented(self.retryable),
                ..self
            },
            Retryability::Exhausted => RetryMetrics {
                last_update: now,
                skipped_budget: incremented(self.skipped_budget),
                ..self
            },
            Retryability::NotRetryable => self,
        }
    }

    /// These counts after a request that could not be cloned, at `now`.
    pub open spec fn counted_body(self, now: u64) -> RetryMetrics {
        RetryMetrics { last_update: now, skipped_body: incremented(self.skipped_body), ..self }
    }

    /// Counts what a retry policy said of a response, at `now`.
    pub fn incr_retryable(&mut self, decision: Retryability, now: u64)
        ensures
            *final(self) == old(self).counted(decision, now),
    {
        match decision {
            Retryability::Retryable => {
                self.retryable = increment(self.retryable);
                self.last_update = now;
            },
            Retryability::Exhausted => {
                self.skipped_budget = increment(self.skipped_budget);
                self.last_update = now;
            },
            Retryability::NotRetryable => {},
        }
    }

    /// Counts a request that cannot be retried because it cannot be cloned.
    pub fn incr_skipped_body(&mut self, now: u64)
        ensures
            *final(self) == old(self).counted_body(now),
    {
        self.skipped_body = increment(self.skipped_body);
        self.last_update = now;
    }

    /// Takes note of a request whose answer begins, at `now`: one that has a
    /// retry policy and could not be cloned is counted as skipped for its
    /// body. Any other request leaves the counts as they are.
    pub fn observe<Req, P>(&mut self, future: &ResponseFuture<Req, P>, now: u64)
        ensures
            *final(self) == (if future.skipped() {
                old(self).counted_body(now)
            } else {
                *old(self)
            }),
    {
        if future.is_skipped() {
            self.incr_skipped_body(now);
        }
    }
}

impl LastUpdate for RetryMetrics {
    open spec fn updated(&self) -> u64 {
        self.last_update
    }

    fn last_update(&self) -> (at: u64) {
        self.last_update
    }
}

/// The count of the responses of one class.
#[derive(Clone, Copy, Debug, Default, PartialEq, Eq, Structural)]
pub struct ClassMetrics {
    pub total: u64,
}

/// The counts of one target's requests.
#[derive(Clone, Copy, Debug, PartialEq, Eq, Structural)]
pub struct RequestMetrics {
    pub last_update: u64,
    /// Requests.
    pub total: u64,
    /// Responses that were classified as successes.
    pub success: ClassMetrics,
    /// Responses that were classified as failures.
    pub failure: ClassMetrics,
}

impl RequestMetrics {
    /// No counts, as of `now`.
    pub fn new(now: u64) -> (metrics: RequestMetrics)
        ensures
            metrics == (RequestMetrics {
                last_update: now,
                total: 0,
                success: ClassMetrics { total: 0 },
                failure: ClassMetrics { total: 0 },
            }),
    {
        RequestMetrics {
            last_update: now,
            total: 0,
            success: ClassMetrics { total: 0 },
            failure: ClassMetrics { total: 0 },
        }
    }

    /// Counts a request, at `now`.
    pub fn incr_request(&mut self, now: u64)
        ensures
            *final(self) == (RequestMetrics {
                last_update: now,
                total: incremented(old(self).total),
                ..*old(self)
            }),
    {
        self.total = increment(self.total);
        self.last_update = now;
    }

    /// Counts a response under its class, at `now`.
    pub fn incr_response(&mut self, failure: bool, now: u64)
        ensures
            *final(self) == (if failure {
                RequestMetrics {
                    last_update: now,
                    failure: ClassMetrics { total: incremented(old(self).failure.total) },
                    ..*old(self)
                }
            } else {
                RequestMetrics {
                    last_update: now,
                    success: ClassMetrics { total: incremented(old(self).success.total) },
                    ..*old(self)
                }
            }),
    {
        if failure {
            self.failure.total = increment(self.failure.total);
        } else {
            self.success.total = increment(self.success.total);
        }
        self.last_update = now;
    }
}

impl LastUpdate for RequestMetrics {
    open spec fn updated(&self) -> u64 {
        self.last_update
    }

    fn last_update(&self) -> (at: u64) {
        self.last_update
    }
}

} // verus!
