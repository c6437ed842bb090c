//! A bounded table from routing keys to services, with idle eviction.
//!
//! The cache is the one place where services are made: a key that is resident
//! always gives a clone of the service that was made for it first. It never
//! holds more entries than its capacity; a key that does not fit is refused,
//! not queued. An entry stays as long as a handle to its service is out or its
//! last access is recent; `purge` takes out the rest.
//!
//! Time is a count of milliseconds that the caller reads from its clock.

use crate::stack::make::Make;
use vstd::prelude::*;

verus! {

/// The cache is full: it holds as many entries as its capacity allows.
#[derive(Clone, Copy, Debug, PartialEq, Eq, Structural)]
pub struct NoCapacity(pub usize);

impl NoCapacity {
    /// The capacity that was reached.
    pub fn capacity(&self) -> (capacity: usize)
        ensures
            capacity == self.0,
    {
        self.0
    }
}

/// One entry of the cache.
#[derive(Debug)]
pub struct Node<K, V> {
    pub key: K,
    pub value: V,
    /// When the entry was last made or asked for.
    pub last_access: u64,
    /// How many handles to the value are out.
    pub handles: u64,
}

/// An entry may be taken out at `now`: no handle is out and its last access
/// is older than `max_idle_age`.
pub open spec fn evictable<K, V>(node: Node<K, V>, now: u64, max_idle_age: u64) -> bool {
    node.handles == 0 && now - node.last_access > max_idle_age
}

/// The entries that stay at `now`: those that may not be taken out.
pub open spec fn in_use<K, V>(now: u64, max_idle_age: u64) -> spec_fn(Node<K, V>) -> bool {
    |node: Node<K, V>| !evictable(node, now, max_idle_age)
}

/// Whether some entry has this key.
pub open spec fn holds<K, V>(entries: Seq<Node<K, V>>, key: K) -> bool {
    exists|i: int| 0 <= i < entries.len() && #[trigger] entries[i].key == key
}

/// The place of the entry with this key, where there is one.
pub open spec fn index_of<K, V>(entries: Seq<Node<K, V>>, key: K) -> int {
    choose|i: int| 0 <= i < entries.len() && #[trigger] entries[i].key == key
}

/// No key has two entries.
pub open spec fn distinct<K, V>(entries: Seq<Node<K, V>>) -> bool {
    forall|i: int, j: int| 0 <= i < j < entries.len() ==> entries[i].key != entries[j].key
}

/// The entry `node` after an access at `now`: one more handle is out.
pub open spec fn touched<K, V>(node: Node<K, V>, now: u64) -> Node<K, V> {
    Node {
        key: node.key,
        value: node.value,
        last_access: now,
        handles: if node.handles < u64::MAX {
            (node.handles + 1) as u64
        } else {
            node.handles
        },
    }
}

/// The entry `node` after a handle came back.
pub open spec fn released<K, V>(node: Node<K, V>) -> Node<K, V> {
    Node {
        key: node.key,
        value: node.value,
        last_access: node.last_access,
        handles: if node.handles > 0 {
            (node.handles - 1) as u64
        } else {
            node.handles
        },
    }
}

/// The table itself.
#[derive(Debug)]
pub struct Cache<K, V> {
    capacity: usize,
    max_idle_age: u64,
    entries: Vec<Node<K, V>>,
}

impl<K, V> Cache<K, V> {
    /// The entries, oldest first.
    pub closed spec fn entries(&self) -> Seq<Node<K, V>> {
        self.entries@
    }

    pub closed spec fn spec_capacity(&self) -> usize {
        self.capacity
    }

    pub closed spec fn spec_max_idle_age(&self) -> u64 {
        self.max_idle_age
    }

    /// The cache holds no more entries than its capacity, and no key twice.
    pub open spec fn wf(&self) -> bool {
        &&& self.entries().len() <= self.spec_capacity()
        &&& distinct(self.entries())
    }

    /// Whether `key` is resident.
    pub open spec fn resident(&self, key: K) -> bool {
        holds(self.entries(), key)
    }

    /// The entry of a resident key.
    pub open spec fn node(&self, key: K) -> Node<K, V> {
        self.entries()[index_of(self.entries(), key)]
    }

    /// An empty cache.
    pub fn new(capacity: usize, max_idle_age: u64) -> (cache: Self)
        ensures
            cache.wf(),
            cache.entries().len() == 0,
            cache.spec_capacity() == capacity,
            cache.spec_max_idle_age() == max_idle_age,
    {
        Cache { capacity, max_idle_age, entries: Vec::new() }
    }

    #[verifier::when_used_as_spec(spec_capacity)]
    pub fn capacity(&self) -> (capacity: usize)
        ensures
            capacity == self.spec_capacity(),
    {
        self.capacity
    }

    #[verifier::when_used_as_spec(spec_max_idle_age)]
    pub fn max_idle_age(&self) -> (age: u64)
        ensures
            age == self.spec_max_idle_age(),
    {
        self.max_idle_age
    }

    /// The number of entries.
    pub fn len(&self) -> (n: usize)
        ensures
            n == self.entries().len(),
    {
        self.entries.len()
    }

    /// Whether one more entry fits.
    pub fn can_insert(&self) -> (fits: bool)
        ensures
            fits == (self.entries().len() < self.spec_capacity()),
    {
        self.entries.len() < self.capacity
    }

    /// Takes out every entry that is idle and unreferenced at `now`; the
    /// others stay, in their order. Returns how many were taken out.
    pub fn purge(&mut self, now: u64) -> (evicted: usize)
        requires
            old(self).wf(),
        ensures
            final(self).wf(),
            final(self).spec_capacity() == old(self).spec_capacity(),
            final(self).spec_max_idle_age() == old(self).spec_max_idle_age(),
            final(self).entries() == old(self).entries().filter(
                in_use(now, old(self).spec_max_idle_age()),
            ),
            evicted == old(self).entries().len() - final(self).entries().len(),
            forall|i: int|
                0 <= i < final(self).entries().len() ==> !evictable(
                    #[trigger] final(self).entries()[i],
                    now,
                    final(self).spec_max_idle_age(),
                ),
    {
        let ghost before = self.entries@;
        let ghost max_idle_age = self.max_idle_age;
        let ghost keep = in_use::<K, V>(now, max_idle_age);
        let mut reversed: Vec<Node<K, V>> = Vec::new();
        while self.entries.len() > 0
            invariant
                self.capacity == old(self).capacity,
                self.max_idle_age == old(self).max_idle_age,
                self.entries@.len() + reversed@.len() == before.len(),
                forall|k: int| 0 <= k < self.entries@.len() ==> self.entries@[k] == before[k],
                forall|k: int|
                    0 <= k < reversed@.len() ==> reversed@[k] == before[before.len() - 1 - k],
            decreases self.entries@.len(),
        {
            let last = self.entries.pop().unwrap();
            reversed.push(last);
        }
        let mut evicted: usize = 0;
        proof {
            reveal(Seq::filter);
            assert(before.take(0).filter(keep) =~= Seq::<Node<K, V>>::empty());
        }
        while reversed.len() > 0
            invariant
                self.capacity == old(self).capacity,
                self.max_idle_age == old(self).max_idle_age,
                max_idle_age == self.max_idle_age,
                keep == in_use::<K, V>(now, max_idle_age),
                before.len() <= self.capacity,
                reversed@.len() <= before.len(),
                forall|k: int|
                    0 <= k < reversed@.len() ==> reversed@[k] == before[before.len() - 1 - k],
                self.entries@ == before.take(before.len() - reversed@.len()).filter(keep),
                evicted + self.entries@.len() == before.len() - reversed@.len(),
            decreases reversed@.len(),
        {
            let ghost at = before.len() - reversed@.len();
            let node = reversed.pop().unwrap();
            let idle = node.handles == 0 && now > node.last_access && now - node.last_access
                > self.max_idle_age;
            proof {
                assert(node == before[at]);
                assert(before.take(at + 1).drop_last() =~= before.take(at));
                assert(before.take(at + 1).last() == before[at]);
                assert(keep(node) == !idle);
                assert(before.take(at + 1) =~= before.take(at).push(node));
                before.take(at).lemma_filter_push(node, keep);
            }
            if idle {
                evicted = evicted + 1;
            } else {
                self.entries.push(node);
            }
        }
        proof {
            assert(before.take(before.len() as int) =~= before);
            lemma_filter_keeps_distinct(before, keep);
            before.lemma_filter_len(keep);
            assert forall|i: int| 0 <= i < before.filter(keep).len() implies !evictable(
                #[trigger] before.filter(keep)[i],
                now,
                max_idle_age,
            ) by {
                before.lemma_filter_pred(keep, i);
            }
        }
        evicted
    }
}

/// What is left of a table without a key twice has no key twice.
proof fn lemma_filter_keeps_distinct<K, V>(entries: Seq<Node<K, V>>, keep: spec_fn(Node<K, V>) -> bool)
    requires
        distinct(entries),
    ensures
        distinct(entries.filter(keep)),
    decreases entries.len(),
{
    if entries.len() == 0 {
        reveal(Seq::filter);
    } else {
        let front = entries.drop_last();
        let kept = front.filter(keep);
        assert(distinct(front)) by {
            assert forall|i: int, j: int| 0 <= i < j < front.len() implies front[i].key
                != front[j].key by {
                assert(front[i] == entries[i] && front[j] == entries[j]);
            }
        }
        lemma_filter_keeps_distinct(front, keep);
        assert(entries =~= front.push(entries.last()));
        front.lemma_filter_push(entries.last(), keep);
        if keep(entries.last()) {
            assert(entries.filter(keep) == kept.push(entries.last()));
            assert forall|i: int| 0 <= i < kept.len() implies kept[i].key
                != entries.last().key by {
                assert(kept.contains(kept[i]));
                front.lemma_filter_contains_rev(keep, kept[i]);
                let j = choose|j: int| 0 <= j < front.len() && front[j] == kept[i];
                assert(entries[j] == kept[i]);
            }
        } else {
            assert(entries.filter(keep) == kept);
        }
    }
}

impl<K: PartialEq, V> Cache<K, V> {
    /// The place of the entry with this key, if there is one.
    fn find(&self, key: &K) -> (found: Option<usize>)
        requires
            vstd::laws_eq::obeys_concrete_eq::<K>(),
        ensures
            found.is_some() == self.resident(*key),
            found matches Some(i) ==> i < self.entries().len() && self.entries()[i as int].key
                == *key,
    {
        proof {
            reveal(vstd::laws_eq::obeys_concrete_eq);
        }
        let mut i: usize = 0;
        while i < self.entries.len()
            invariant
                i <= self.entries@.len(),
                vstd::laws_eq::obeys_concrete_eq::<K>(),
                forall|k: int| 0 <= k < i ==> self.entries@[k].key != *key,
            decreases self.entries@.len() - i,
        {
            proof {
                reveal(vstd::laws_eq::obeys_concrete_eq);
            }
            if self.entries[i].key == *key {
                return Some(i);
            }
            i += 1;
        }
        None
    }

    /// Whether `key` is resident.
    pub fn contains(&self, key: &K) -> (resident: bool)
        requires
            vstd::laws_eq::obeys_concrete_eq::<K>(),
        ensures
            resident == self.resident(*key),
    {
        self.find(key).is_some()
    }

    /// Asks for the service of `key` at `now`.
    ///
    /// A resident key gives a clone of its service; its entry is marked as
    /// accessed at `now` and counts one more handle. Nothing else changes,
    /// and a key that is not resident changes nothing.
    pub fn access(&mut self, key: &K, now: u64) -> (service: Option<V>) where V: Clone
        requires
            old(self).wf(),
            vstd::laws_eq::obeys_concrete_eq::<K>(),
        ensures
            final(self).wf(),
            final(self).spec_capacity() == old(self).spec_capacity(),
            final(self).spec_max_idle_age() == old(self).spec_max_idle_age(),
            service.is_some() == old(self).resident(*key),
            !old(self).resident(*key) ==> final(self).entries() == old(self).entries(),
            old(self).resident(*key) ==> {
                &&& cloned(old(self).node(*key).value, service.unwrap())
                &&& final(self).entries() == old(self).entries().update(
                    index_of(old(self).entries(), *key),
                    touched(old(self).node(*key), now),
                )
            },
    {
        match self.find(key) {
            None => None,
            Some(i) => {
                let ghost before = self.entries@;
                proof {
                    let j = index_of(before, *key);
                    assert(i == j);
                }
                let service = self.entries[i].value.clone();
                let handles = self.entries[i].handles;
                self.entries[i].last_access = now;
                self.entries[i].handles = if handles < u64::MAX {
                    handles + 1
                } else {
                    handles
                };
                proof {
                    assert(self.entries@ =~= before.update(i as int, touched(before[i as int], now)));
                }
                Some(service)
            },
        }
    }

    /// Gives back one handle to the service of `key`.
    pub fn release(&mut self, key: &K)
        requires
            old(self).wf(),
            vstd::laws_eq::obeys_concrete_eq::<K>(),
        ensures
            final(self).wf(),
            final(self).spec_capacity() == old(self).spec_capacity(),
            final(self).spec_max_idle_age() == old(self).spec_max_idle_age(),
            !old(self).resident(*key) ==> final(self).entries() == old(self).entries(),
            old(self).resident(*key) ==> final(self).entries() == old(self).entries().update(
                index_of(old(self).entries(), *key),
                released(old(self).node(*key)),
            ),
    {
        match self.find(key) {
            None => {},
            Some(i) => {
                let ghost before = self.entries@;
                proof {
                    let j = index_of(before, *key);
                    assert(i == j);
                }
                let handles = self.entries[i].handles;
                self.entries[i].handles = if handles > 0 {
                    handles - 1
                } else {
                    handles
                };
                proof {
                    assert(self.entries@ =~= before.update(i as int, released(before[i as int])));
                }
            },
        }
    }

    /// Adds an entry for a key that is not resident, while there is room.
    /// One handle to the value counts as out: the caller's.
    pub fn insert(&mut self, key: K, value: V, now: u64)
        requires
            old(self).wf(),
            !old(self).resident(key),
            old(self).entries().len() < old(self).spec_capacity(),
        ensures
            final(self).wf(),
            final(self).spec_capacity() == old(self).spec_capacity(),
            final(self).spec_max_idle_age() == old(self).spec_max_idle_age(),
            final(self).entries() == old(self).entries().push(
                Node { key, value, last_access: now, handles: 1 },
            ),
    {
        self.entries.push(Node { key, value, last_access: now, handles: 1 });
    }
}

/// A maker with a cache in front of it.
#[derive(Debug)]
pub struct Service<T, M: Make<T>> {
    make: M,
    cache: Cache<T, M::Service>,
}

impl<T, M: Make<T>> Service<T, M> {
    pub closed spec fn maker(&self) -> M {
        self.make
    }

    pub closed spec fn cache(&self) -> Cache<T, M::Service> {
        self.cache
    }

    pub open spec fn wf(&self) -> bool {
        self.cache().wf()
    }

    /// `service` may have been made for a clone of `target`.
    pub open spec fn builds(&self, target: T, service: M::Service) -> bool where T: Clone {
        exists|t: T| cloned(target, t) && #[trigger] self.maker().makes(t, service)
    }

    /// The maker can be asked for a service for every clone of `target`.
    pub open spec fn can_build(&self, target: T) -> bool where T: Clone {
        forall|t: T| cloned(target, t) ==> #[trigger] self.maker().can_make(t)
    }

    /// A service over an empty cache.
    pub fn new(make: M, capacity: usize, max_idle_age: u64) -> (service: Self)
        ensures
            service.wf(),
            service.maker() == make,
            service.cache().entries().len() == 0,
            service.cache().spec_capacity() == capacity,
            service.cache().spec_max_idle_age() == max_idle_age,
    {
        Service { make, cache: Cache::new(capacity, max_idle_age) }
    }

    /// The cache, to read.
    pub fn table(&self) -> (cache: &Cache<T, M::Service>)
        ensures
            *cache == self.cache(),
    {
        &self.cache
    }

    /// Takes out what is idle and unreferenced at `now`, as `Cache::purge`
    /// says.
    pub fn purge(&mut self, now: u64) -> (evicted: usize)
        requires
            old(self).wf(),
        ensures
            final(self).wf(),
            final(self).maker() == old(self).maker(),
            final(self).cache().spec_capacity() == old(self).cache().spec_capacity(),
            final(self).cache().spec_max_idle_age() == old(self).cache().spec_max_idle_age(),
            final(self).cache().entries() == old(self).cache().entries().filter(
                in_use(now, old(self).cache().spec_max_idle_age()),
            ),
            evicted == old(self).cache().entries().len() - final(self).cache().entries().len(),
    {
        self.cache.purge(now)
    }
}

impl<T: PartialEq + Clone, M: Make<T>> Service<T, M> where M::Service: Clone {
    /// The service for `target` at `now`.
    ///
    /// A resident target gives a clone of its service, as `Cache::access`
    /// says. Another target has its service made and entered while there is
    /// room, and is refused with the capacity while there is none; a refusal
    /// changes nothing.
    pub fn call(&mut self, target: T, now: u64) -> (res: Result<M::Service, NoCapacity>)
        requires
            old(self).wf(),
            old(self).can_build(target),
            vstd::laws_eq::obeys_concrete_eq::<T>(),
        ensures
            final(self).wf(),
            final(self).maker() == old(self).maker(),
            final(self).cache().spec_capacity() == old(self).cache().spec_capacity(),
            final(self).cache().spec_max_idle_age() == old(self).cache().spec_max_idle_age(),
            res is Err == (!old(self).cache().resident(target) && old(self).cache().entries().len()
                >= old(self).cache().spec_capacity()),
            res is Err ==> res == Err::<M::Service, NoCapacity>(
                NoCapacity(old(self).cache().spec_capacity()),
            ) && final(self).cache().entries() == old(self).cache().entries(),
            old(self).cache().resident(target) ==> {
                &&& res is Ok
                &&& cloned(old(self).cache().node(target).value, res.unwrap())
                &&& final(self).cache().entries() == old(self).cache().entries().update(
                    index_of(old(self).cache().entries(), target),
                    touched(old(self).cache().node(target), now),
                )
            },
            res is Ok && !old(self).cache().resident(target) ==> {
                &&& final(self).cache().entries().len() == old(self).cache().entries().len() + 1
                &&& final(self).cache().entries().drop_last() == old(self).cache().entries()
                &&& final(self).cache().entries().last().key == target
                &&& final(self).cache().entries().last().last_access == now
                &&& final(self).cache().entries().last().handles == 1
                &&& old(self).builds(target, final(self).cache().entries().last().value)
                &&& cloned(final(self).cache().entries().last().value, res.unwrap())
            },
    {
        match self.cache.access(&target, now) {
            Some(service) => {
                return Ok(service);
            },
            None => {},
        }
        if !self.cache.can_insert() {
            return Err(NoCapacity(self.cache.capacity()));
        }
        let ghost before = self.cache.entries();
        let made_for = target.clone();
        let ghost given = made_for;
        assert(old(self).maker().can_make(given));
        let service = self.make.make(made_for);
        let handle = service.clone();
        self.cache.insert(target, service, now);
        proof {
            assert(cloned(target, given) && self.maker().makes(given, service));
            assert(self.cache.entries().drop_last() =~= before);
        }
        Ok(handle)
    }

    /// Gives back one handle to the service of `target`.
    pub fn release(&mut self, target: &T)
        requires
            old(self).wf(),
            vstd::laws_eq::obeys_concrete_eq::<T>(),
        ensures
            final(self).wf(),
            final(self).maker() == old(self).maker(),
            final(self).cache().spec_capacity() == old(self).cache().spec_capacity(),
            final(self).cache().spec_max_idle_age() == old(self).cache().spec_max_idle_age(),
            !old(self).cache().resident(*target) ==> final(self).cache().entries() == old(
                self,
            ).cache().entries(),
            old(self).cache().resident(*target) ==> final(self).cache().entries() == old(
                self,
            ).cache().entries().update(
                index_of(old(self).cache().entries(), *target),
                released(old(self).cache().node(*target)),
            ),
    {
        self.cache.release(target)
    }
}

/// While a key is resident, every access gives the same service: an access
/// leaves each resident key with the value it had, and so does giving a
/// handle back.
pub proof fn lemma_resident_service_is_stable<K, V>(
    entries: Seq<Node<K, V>>,
    key: K,
    other: K,
    now: u64,
)
    requires
        distinct(entries),
        holds(entries, key),
        holds(entries, other),
    ensures
        ({
            let after = entries.update(index_of(entries, other), touched(entries[index_of(entries, other)], now));
            &&& distinct(after)
            &&& holds(after, key)
            &&& after[index_of(after, key)].value == entries[index_of(entries, key)].value
        }),
        ({
            let after = entries.update(index_of(entries, other), released(entries[index_of(entries, other)]));
            &&& distinct(after)
            &&& holds(after, key)
            &&& after[index_of(after, key)].value == entries[index_of(entries, key)].value
        }),
{
    let i = index_of(entries, key);
    let j = index_of(entries, other);
    let touched_after = entries.update(j, touched(entries[j], now));
    assert(touched_after[i].key == key);
    let it = index_of(touched_after, key);
    assert(touched_after[it].key == entries[it].key);
    assert(it == i);
    let released_after = entries.update(j, released(entries[j]));
    assert(released_after[i].key == key);
    let ir = index_of(released_after, key);
    assert(released_after[ir].key == entries[ir].key);
    assert(ir == i);
}

/// Purging keeps what is in use: a key whose entry has a handle out, or was
/// accessed within the idle age, is resident afterwards with the same service.
pub proof fn lemma_purge_keeps_what_is_used<K, V>(
    entries: Seq<Node<K, V>>,
    key: K,
    now: u64,
    max_idle_age: u64,
)
    requires
        distinct(entries),
        holds(entries, key),
        !evictable(entries[index_of(entries, key)], now, max_idle_age),
    ensures
        ({
            let after = entries.filter(in_use(now, max_idle_age));
            &&& holds(after, key)
            &&& after[index_of(after, key)] == entries[index_of(entries, key)]
        }),
{
    let keep = in_use::<K, V>(now, max_idle_age);
    let after = entries.filter(keep);
    let i = index_of(entries, key);
    entries.lemma_filter_contains(keep, i);
    assert(after.contains(entries[i]));
    let a = choose|a: int| 0 <= a < after.len() && after[a] == entries[i];
    assert(after[a].key == key);
    let b = index_of(after, key);
    entries.lemma_filter_contains_rev(keep, after[b]);
    assert(after.contains(after[b]));
    let c = choose|c: int| 0 <= c < entries.len() && entries[c] == after[b];
    assert(entries[c].key == key);
    assert(c == i);
}

} // verus!
