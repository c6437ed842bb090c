//! Balancing over the endpoints of a destination: of two endpoints drawn at
//! random, the one with fewer requests under way is taken.

use crate::addr::SocketAddr;
use crate::proxy::discover::Update;
use crate::stack::layer::Layer as StackLayer;
use rand::rngs::SmallRng;
use std::marker::PhantomData;
use vstd::prelude::*;

verus! {

/// Configures a stack to balance requests over the endpoints that its inner
/// maker discovers for a target.
#[derive(Debug)]
pub struct Layer<I> {
    pub marker: PhantomData<I>,
}

/// Makes the balancer of a target over what the inner maker discovers.
#[derive(Debug)]
pub struct MakeSvc<M, I> {
    pub inner: M,
    pub marker: PhantomData<I>,
}

impl<I> Layer<I> {
    pub fn new() -> Self {
        Layer { marker: PhantomData }
    }
}

impl<I> Clone for Layer<I> {
    fn clone(&self) -> (copy: Self) {
        Layer { marker: PhantomData }
    }
}

impl<M, I> StackLayer<M> for Layer<I> {
    type Service = MakeSvc<M, I>;

    open spec fn accepts(&self, inner: M) -> bool {
        true
    }

    open spec fn layers(&self, inner: M, outer: MakeSvc<M, I>) -> bool {
        outer.inner == inner
    }

    fn layer(&self, inner: M) -> (outer: MakeSvc<M, I>) {
        MakeSvc { inner, marker: PhantomData }
    }
}

impl<M: Clone, I> Clone for MakeSvc<M, I> {
    fn clone(&self) -> (copy: Self)
        ensures
            cloned(self.inner, copy.inner),
    {
        MakeSvc { inner: self.inner.clone(), marker: PhantomData }
    }
}

/// `rand::seq::index::sample` with an amount of two: two indices below
/// `length`, drawn with the generator. Which two is not said; whichever they
/// are, they differ.
#[verifier::external_body]
pub(crate) fn sample_pair(rng: &mut SmallRng, length: usize) -> (pair: (usize, usize))
    requires
        length >= 2,
    ensures
        pair.0 < length,
        pair.1 < length,
        pair.0 != pair.1,
{
    let indices = rand::seq::index::sample(rng, length, 2);
    (indices.index(0), indices.index(1))
}

/// Of two endpoints, the one to take: the one with the lower load, and with
/// equal loads the one with the lower index.
pub open spec fn preferred(loads: Seq<usize>, a: int, b: int) -> int {
    if loads[a] < loads[b] {
        a
    } else if loads[b] < loads[a] {
        b
    } else if a <= b {
        a
    } else {
        b
    }
}

/// Of two ready endpoints among all, the one to take: as `preferred` says of
/// their loads and places.
pub open spec fn preferred_ready(loads: Seq<Option<usize>>, a: int, b: int) -> int {
    if loads[a].unwrap() < loads[b].unwrap() {
        a
    } else if loads[b].unwrap() < loads[a].unwrap() {
        b
    } else if a <= b {
        a
    } else {
        b
    }
}

/// Of two ready endpoints, the one to take.
pub fn prefer(loads: &Vec<usize>, a: usize, b: usize) -> (chosen: usize)
    requires
        a < loads@.len(),
        b < loads@.len(),
    ensures
        chosen == preferred(loads@, a as int, b as int),
        chosen == a || chosen == b,
        loads@[chosen as int] <= loads@[a as int],
        loads@[chosen as int] <= loads@[b as int],
{
    if loads[a] < loads[b] {
        a
    } else if loads[b] < loads[a] {
        b
    } else if a <= b {
        a
    } else {
        b
    }
}

/// The endpoint for the next request, among the ready endpoints, given by
/// their loads: the numbers of requests that each has under way.
///
/// Without a ready endpoint there is none. One ready endpoint is taken as
/// it is. Of more, two different ones are drawn, and the one that `prefer`
/// prefers is taken.
pub fn balance(loads: &Vec<usize>, rng: &mut SmallRng) -> (chosen: Option<usize>)
    ensures
        loads@.len() == 0 ==> chosen.is_none(),
        loads@.len() == 1 ==> chosen == Some(0usize),
        loads@.len() >= 2 ==> chosen.is_some() && exists|a: int, b: int|
            0 <= a < loads@.len() && 0 <= b < loads@.len() && a != b && chosen.unwrap()
                == #[trigger] preferred(loads@, a, b),
{
    if loads.len() == 0 {
        None
    } else if loads.len() == 1 {
        Some(0)
    } else {
        let (a, b) = sample_pair(rng, loads.len());
        let chosen = prefer(loads, a, b);
        proof {
            assert(chosen == preferred(loads@, a as int, b as int));
        }
        Some(chosen)
    }
}

/// One endpoint of a balancer.
#[derive(Debug)]
pub struct Endpoint<S> {
    pub addr: SocketAddr,
    pub service: S,
}

/// The endpoints that a balancer knows, in the order in which they came.
#[derive(Debug)]
pub struct Endpoints<S> {
    endpoints: Vec<Endpoint<S>>,
}

/// Whether an endpoint at `addr` is among `endpoints`.
pub open spec fn known<S>(endpoints: Seq<Endpoint<S>>, addr: SocketAddr) -> bool {
    exists|i: int| 0 <= i < endpoints.len() && (#[trigger] endpoints[i]).addr == addr
}

/// The place of the endpoint at `addr`.
pub open spec fn place_of<S>(endpoints: Seq<Endpoint<S>>, addr: SocketAddr) -> int {
    choose|i: int| 0 <= i < endpoints.len() && (#[trigger] endpoints[i]).addr == addr
}

/// No address has two endpoints.
pub open spec fn one_per_addr<S>(endpoints: Seq<Endpoint<S>>) -> bool {
    forall|i: int, j: int|
        0 <= i < j < endpoints.len() ==> (#[trigger] endpoints[i]).addr != (
        #[trigger] endpoints[j]).addr
}

impl<S> Endpoints<S> {
    pub closed spec fn endpoints(&self) -> Seq<Endpoint<S>> {
        self.endpoints@
    }

    pub open spec fn wf(&self) -> bool {
        one_per_addr(self.endpoints())
    }

    /// No endpoints.
    pub fn new() -> (endpoints: Self)
        ensures
            endpoints.wf(),
            endpoints.endpoints().len() == 0,
    {
        Endpoints { endpoints: Vec::new() }
    }

    pub fn len(&self) -> (n: usize)
        ensures
            n == self.endpoints().len(),
    {
        self.endpoints.len()
    }

    /// The endpoint at `place`.
    pub fn get(&self, place: usize) -> (endpoint: Option<&Endpoint<S>>)
        ensures
            place < self.endpoints().len() ==> endpoint == Some(&self.endpoints()[place as int]),
            place >= self.endpoints().len() ==> endpoint.is_none(),
    {
        if place < self.endpoints.len() {
            Some(&self.endpoints[place])
        } else {
            None
        }
    }

    /// The service of the endpoint at `place`, to ask and call it.
    pub fn get_mut(&mut self, place: usize) -> (service: Option<&mut S>)
        requires
            old(self).wf(),
        ensures
            place >= old(self).endpoints().len() ==> service.is_none() && final(self).endpoints()
                == old(self).endpoints(),
            place < old(self).endpoints().len() ==> {
                &&& service.is_some()
                &&& *service.unwrap() == old(self).endpoints()[place as int].service
                &&& final(self).endpoints() == old(self).endpoints().update(
                    place as int,
                    Endpoint {
                        addr: old(self).endpoints()[place as int].addr,
                        service: *final(service.unwrap()),
                    },
                )
            },
    {
        if place < self.endpoints.len() {
            Some(&mut self.endpoints[place].service)
        } else {
            None
        }
    }

    fn find(&self, addr: SocketAddr) -> (place: Option<usize>)
        ensures
            place.is_some() == known(self.endpoints(), addr),
            place matches Some(i) ==> i < self.endpoints().len() && self.endpoints()[i as int].addr
                == addr,
    {
        let mut i: usize = 0;
        while i < self.endpoints.len()
            invariant
                i <= self.endpoints@.len(),
                forall|k: int| 0 <= k < i ==> (#[trigger] self.endpoints@[k]).addr != addr,
            decreases self.endpoints@.len() - i,
        {
            let at = self.endpoints[i].addr;
            if at.ip == addr.ip && at.port == addr.port {
                return Some(i);
            }
            i += 1;
        }
        None
    }

    /// Takes an update from discovery.
    ///
    /// An added endpoint takes the place of the one at its address, or goes
    /// last where there is none. A removed endpoint leaves, and the others
    /// keep their order; the removal of an endpoint that is not known changes
    /// nothing.
    pub fn update(&mut self, update: Update<S>)
        requires
            old(self).wf(),
        ensures
            final(self).wf(),
            match update {
                Update::Add(addr, service) => if known(old(self).endpoints(), addr) {
                    final(self).endpoints() == old(self).endpoints().update(
                        place_of(old(self).endpoints(), addr),
                        Endpoint { addr, service },
                    )
                } else {
                    final(self).endpoints() == old(self).endpoints().push(Endpoint { addr, service })
                },
                Update::Remove(addr) => if known(old(self).endpoints(), addr) {
                    final(self).endpoints() == old(self).endpoints().remove(
                        place_of(old(self).endpoints(), addr),
                    )
                } else {
                    final(self).endpoints() == old(self).endpoints()
                },
            },
    {
        let ghost before = self.endpoints@;
        match update {
            Update::Add(addr, service) => match self.find(addr) {
                Some(place) => {
                    proof {
                        let p = place_of(before, addr);
                        assert(p == place);
                    }
                    self.endpoints[place] = Endpoint { addr, service };
                    proof {
                        assert(self.endpoints@ =~= before.update(
                            place as int,
                            Endpoint { addr, service },
                        ));
                    }
                },
                None => {
                    self.endpoints.push(Endpoint { addr, service });
                },
            },
            Update::Remove(addr) => match self.find(addr) {
                Some(place) => {
                    proof {
                        let p = place_of(before, addr);
                        assert(p == place);
                    }
                    let _ = self.endpoints.remove(place);
                    proof {
                        assert forall|i: int, j: int| 0 <= i < j < self.endpoints@.len() implies (
                        #[trigger] self.endpoints@[i]).addr != (
                        #[trigger] self.endpoints@[j]).addr by {
                            let a = if i < place {
                                i
                            } else {
                                i + 1
                            };
                            let b = if j < place {
                                j
                            } else {
                                j + 1
                            };
                            assert(self.endpoints@[i] == before[a]);
                            assert(self.endpoints@[j] == before[b]);
                        }
                    }
                },
                None => {},
            },
        }
    }

    /// The endpoint for the next request, given for each endpoint its load
    /// if it is ready, and `None` if it is not.
    ///
    /// Without a ready endpoint there is none. One ready endpoint is taken
    /// as it is. Of more, two different ready ones are drawn, and the one
    /// with the lower load is taken, the earlier one where the loads are
    /// equal.
    pub fn select(&self, loads: &Vec<Option<usize>>, rng: &mut SmallRng) -> (chosen: Option<usize>)
        requires
            loads@.len() == self.endpoints().len(),
        ensures
            chosen matches Some(place) ==> place < loads@.len() && loads@[place as int].is_some(),
            chosen.is_none() == (forall|i: int| 0 <= i < loads@.len() ==> loads@[i].is_none()),
            chosen matches Some(place) ==> (forall|i: int|
                0 <= i < loads@.len() && loads@[i].is_some() ==> i == place) || (exists|
                a: int,
                b: int,
            |
                0 <= a < loads@.len() && 0 <= b < loads@.len() && a != b && loads@[a].is_some()
                    && loads@[b].is_some() && place == #[trigger] preferred_ready(loads@, a, b)),
    {
        let mut places: Vec<usize> = Vec::new();
        let mut ready: Vec<usize> = Vec::new();
        let mut i: usize = 0;
        while i < loads.len()
            invariant
                i <= loads@.len(),
                places@.len() == ready@.len(),
                forall|k: int|
                    0 <= k < places@.len() ==> (#[trigger] places@[k]) < i && loads@[places@[k] as int]
                        == Some(ready@[k]),
                forall|j: int, k: int|
                    0 <= j < k < places@.len() ==> (#[trigger] places@[j]) < (#[trigger] places@[k]),
                forall|n: int|
                    0 <= n < i && (#[trigger] loads@[n]).is_some() ==> exists|k: int|
                        0 <= k < places@.len() && #[trigger] places@[k] == n,
            decreases loads@.len() - i,
        {
            let ghost before = places@;
            match loads[i] {
                Some(load) => {
                    places.push(i);
                    ready.push(load);
                    proof {
                        assert forall|n: int|
                            0 <= n < i + 1 && (#[trigger] loads@[n]).is_some() implies exists|k: int|
                            0 <= k < places@.len() && #[trigger] places@[k] == n by {
                            if n < i {
                                let k = choose|k: int|
                                    0 <= k < before.len() && #[trigger] before[k] == n;
                                assert(places@[k] == n);
                            } else {
                                assert(places@[places@.len() - 1] == n);
                            }
                        }
                    }
                },
                None => {},
            }
            i += 1;
        }
        match balance(&ready, rng) {
            Some(chosen) => {
                let place = places[chosen];
                proof {
                    if ready@.len() == 1 {
                        assert forall|n: int|
                            0 <= n < loads@.len() && loads@[n].is_some() implies n == place by {
                            let k = choose|k: int|
                                0 <= k < places@.len() && #[trigger] places@[k] == n;
                            assert(k == 0);
                        }
                    } else {
                        let (a, b) = choose|a: int, b: int|
                            0 <= a < ready@.len() && 0 <= b < ready@.len() && a != b && chosen
                                == #[trigger] preferred(ready@, a, b);
                        let pa = places@[a] as int;
                        let pb = places@[b] as int;
                        assert(loads@[pa] == Some(ready@[a]));
                        assert(loads@[pb] == Some(ready@[b]));
                        assert(pa != pb) by {
                            if a < b {
                                assert(places@[a] < places@[b]);
                            } else {
                                assert(places@[b] < places@[a]);
                            }
                        }
                        assert(place == preferred_ready(loads@, pa, pb));
                    }
                }
                Some(place)
            },
            None => {
                proof {
                    assert forall|n: int| 0 <= n < loads@.len() implies loads@[n].is_none() by {
                        if loads@[n].is_some() {
                            let k = choose|k: int|
                                0 <= k < places@.len() && #[trigger] places@[k] == n;
                        }
                    }
                }
                None
            },
        }
    }
}

} // verus!
