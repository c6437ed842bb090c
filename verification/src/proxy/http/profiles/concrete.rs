//! The concrete dispatcher of a profile: either a forward to one destination
//! or a weighted split across several named ones.
//!
//! `Update` is the writing side: it turns a list of weighted destinations
//! into a routing table, building services only for names it has not seen.
//! `Service` is the reading side: it takes tables as they are published and
//! decides which inner service to ask for readiness and which to dispatch to.

use crate::addr::NameAddr;
use crate::index::{names_clone, names_get, names_insert, names_new};
use crate::proxy::http::profiles::{WeightedAddr, WithAddr};
use crate::stack::make::Make;
use crate::weighted::{
    distribution_clone, distribution_new, distribution_sample, rng_clone, Weighted,
};
use indexmap::IndexMap;
use rand::rngs::SmallRng;
use std::collections::hash_map::RandomState;
use vstd::prelude::*;

verus! {

/// The writing side lost every reader of its tables.
#[derive(Clone, Copy, Debug, PartialEq, Eq, Structural)]
pub struct LostService;

impl LostService {
    /// What a log line says of this error.
    pub fn message(&self) -> (text: String)
        ensures
            text@ == "services lost"@,
    {
        "services lost".to_owned()
    }
}

/// Why a list of weighted destinations gives no split.
#[derive(Clone, Copy, Debug, PartialEq, Eq, Structural)]
pub enum InvalidSplit {
    /// The list is empty.
    NoDestinations,
    /// The weights sum to more than a `u32` holds.
    WeightOverflow,
    /// Every weight is zero.
    NoWeight,
    /// One name stands twice in the list.
    DuplicateName,
}

/// A routing table: one destination, or several with weights.
///
/// In a split, `names` gives each destination's slot in `services`, and
/// `distribution` draws a slot by weight.
#[derive(Debug)]
pub enum Routes<S> {
    Forward { addr: Option<NameAddr>, service: S },
    Split {
        distribution: Weighted,
        names: IndexMap<(String, u16), usize, RandomState>,
        services: Vec<S>,
    },
}

/// The names of the destinations, in their order.
pub open spec fn names_of(addrs: Seq<WeightedAddr>) -> Seq<(Seq<char>, u16)> {
    Seq::new(addrs.len(), |i: int| addrs[i].addr@)
}

/// The weights of the destinations, in their order.
pub open spec fn weights_of(addrs: Seq<WeightedAddr>) -> Seq<u32> {
    Seq::new(addrs.len(), |i: int| addrs[i].weight)
}

/// No name stands twice.
pub open spec fn distinct_names(addrs: Seq<WeightedAddr>) -> bool {
    forall|i: int, j: int| 0 <= i < j < addrs.len() ==> addrs[i].addr@ != addrs[j].addr@
}

/// What is wrong with a list of destinations as a split, if anything.
pub open spec fn split_defect(addrs: Seq<WeightedAddr>) -> Option<InvalidSplit> {
    if addrs.len() == 0 {
        Some(InvalidSplit::NoDestinations)
    } else if crate::weighted::total_weight(weights_of(addrs)) > u32::MAX {
        Some(InvalidSplit::WeightOverflow)
    } else if crate::weighted::total_weight(weights_of(addrs)) == 0 {
        Some(InvalidSplit::NoWeight)
    } else if !distinct_names(addrs) {
        Some(InvalidSplit::DuplicateName)
    } else {
        None
    }
}

/// The table `copy` is `table` again: the same kind, names and weights, and
/// in each slot a clone of the service that `table` has there.
pub open spec fn copy_of<S: Clone>(table: Routes<S>, copy: Routes<S>) -> bool {
    &&& copy is Split == (table is Split)
    &&& copy.names() == table.names()
    &&& copy.weights() == table.weights()
    &&& copy.services().len() == table.services().len()
    &&& forall|i: int|
        0 <= i < table.services().len() ==> cloned(table.services()[i], #[trigger] copy.services()[i])
}

impl<S> Routes<S> {
    /// The destination names of a split, in slot order; none for a forward.
    pub open spec fn names(&self) -> Seq<(Seq<char>, u16)> {
        match self {
            Routes::Forward { .. } => Seq::empty(),
            Routes::Split { names, .. } => Seq::new(
                crate::index::name_index(*names).len(),
                |i: int| crate::index::name_index(*names)[i].0,
            ),
        }
    }

    /// The weights of a split, in slot order; none for a forward.
    pub open spec fn weights(&self) -> Seq<u32> {
        match self {
            Routes::Forward { .. } => Seq::empty(),
            Routes::Split { distribution, .. } => crate::weighted::distribution_weights(
                *distribution,
            ),
        }
    }

    /// The services by slot; a forward has its one service at slot 0.
    pub open spec fn services(&self) -> Seq<S> {
        match self {
            Routes::Forward { service, .. } => seq![*service],
            Routes::Split { services, .. } => services@,
        }
    }

    /// The slot that holds the service for `name`, in a split that has it.
    pub open spec fn slot_of(&self, name: (Seq<char>, u16)) -> Option<int> {
        match self {
            Routes::Forward { .. } => None,
            Routes::Split { names, .. } => if crate::index::has_key(
                crate::index::name_index(*names),
                name,
            ) {
                Some(crate::index::position_of(crate::index::name_index(*names), name))
            } else {
                None
            },
        }
    }

    /// A split has at least two destinations, one name, one weight and one
    /// service per slot, and no name twice.
    pub open spec fn wf(&self) -> bool {
        match self {
            Routes::Forward { .. } => true,
            Routes::Split { distribution, names, services } => {
                &&& services@.len() >= 2
                &&& crate::index::name_index(*names).len() == services@.len()
                &&& crate::weighted::distribution_weights(*distribution).len() == services@.len()
                &&& crate::index::distinct_keys(crate::index::name_index(*names))
                &&& forall|i: int|
                    0 <= i < services@.len() ==> (#[trigger] crate::index::name_index(
                        *names,
                    )[i]).1 == i
            },
        }
    }

    /// Whether this table is a split.
    pub fn is_split(&self) -> (split: bool)
        ensures
            split == (*self is Split),
    {
        match self {
            Routes::Forward { .. } => false,
            Routes::Split { .. } => true,
        }
    }

    /// The number of slots.
    pub fn len(&self) -> (n: usize)
        ensures
            n == self.services().len(),
    {
        match self {
            Routes::Forward { .. } => 1,
            Routes::Split { services, .. } => services.len(),
        }
    }

    /// The service at `slot`.
    pub fn get(&self, slot: usize) -> (service: Option<&S>)
        ensures
            slot < self.services().len() ==> service == Some(&self.services()[slot as int]),
            slot >= self.services().len() ==> service.is_none(),
    {
        match self {
            Routes::Forward { service, .. } => if slot == 0 {
                Some(service)
            } else {
                None
            },
            Routes::Split { services, .. } => if slot < services.len() {
                Some(&services[slot])
            } else {
                None
            },
        }
    }
}

impl<S> Routes<S> {
    /// The service at `slot`, to ask and call it. The table stays as it is
    /// but for that service.
    pub fn get_mut(&mut self, slot: usize) -> (service: Option<&mut S>)
        requires
            old(self).wf(),
        ensures
            slot >= old(self).services().len() ==> service.is_none() && *final(self) == *old(self),
            slot < old(self).services().len() ==> {
                &&& service.is_some()
                &&& *service.unwrap() == old(self).services()[slot as int]
                &&& final(self).wf()
                &&& *final(self) is Split == (*old(self) is Split)
                &&& final(self).names() == old(self).names()
                &&& final(self).weights() == old(self).weights()
                &&& final(self).services() == old(self).services().update(
                    slot as int,
                    *final(service.unwrap()),
                )
            },
    {
        match self {
            Routes::Forward { service, .. } => if slot == 0 {
                Some(service)
            } else {
                None
            },
            Routes::Split { services, .. } => if slot < services.len() {
                Some(&mut services[slot])
            } else {
                None
            },
        }
    }
}

impl<S: Clone> Routes<S> {
    /// A copy of this table: the same names and weights, each service cloned.
    pub fn duplicate(&self) -> (copy: Routes<S>)
        requires
            self.wf(),
        ensures
            copy.wf(),
            copy is Split == (*self is Split),
            copy.names() == self.names(),
            copy.weights() == self.weights(),
            copy.services().len() == self.services().len(),
            forall|i: int|
                0 <= i < self.services().len() ==> cloned(
                    self.services()[i],
                    #[trigger] copy.services()[i],
                ),
            *self is Forward ==> {
                &&& self->Forward_addr.is_some() == copy->Forward_addr.is_some()
                &&& self->Forward_addr.is_some() ==> self->Forward_addr.unwrap()@
                    == copy->Forward_addr.unwrap()@
            },
    {
        match self {
            Routes::Forward { addr, service } => {
                let addr = match addr {
                    Some(addr) => Some(addr.duplicate()),
                    None => None,
                };
                Routes::Forward { addr, service: service.clone() }
            },
            Routes::Split { distribution, names, services } => {
                let mut copies: Vec<S> = Vec::new();
                let mut i: usize = 0;
                while i < services.len()
                    invariant
                        i <= services@.len(),
                        copies@.len() == i,
                        forall|k: int| 0 <= k < i ==> cloned(services@[k], #[trigger] copies@[k]),
                    decreases services@.len() - i,
                {
                    copies.push(services[i].clone());
                    i += 1;
                }
                Routes::Split {
                    distribution: distribution_clone(distribution),
                    names: names_clone(names),
                    services: copies,
                }
            },
        }
    }
}

/// The writing side of a concrete dispatcher.
#[derive(Debug)]
pub struct Update<T, M: Make<T>> {
    target: T,
    make: M,
    routes: Routes<M::Service>,
}

/// What `Service::probe` asks its caller to do.
#[derive(Clone, Copy, Debug, PartialEq, Eq, Structural)]
pub enum Probe {
    /// A slot was found ready earlier: dispatch may go on.
    Ready,
    /// Ask the service at this slot whether it is ready, then report with
    /// `Service::polled`.
    Poll(usize),
    /// Enough services were asked and none was ready.
    NotReady,
}

/// The reading side of a concrete dispatcher.
#[derive(Debug)]
pub struct Service<S> {
    routes: Routes<S>,
    next_split_index: Option<usize>,
    attempts: usize,
    probing: Option<usize>,
    rng: SmallRng,
}

/// A dispatcher that forwards to the service made for `target`, and the
/// handle that updates it.
pub fn forward<T, M>(target: T, make: M, rng: SmallRng) -> (pair: (Service<M::Service>, Update<T, M>)) where
    T: Clone + WithAddr,
    M: Make<T>,
    M::Service: Clone,

    requires
        forall|t: T| cloned(target, t) ==> #[trigger] make.can_make(t),
    ensures
        pair.0.wf(),
        pair.1.wf(),
        pair.0.routes() is Forward,
        pair.0.routes()->Forward_addr.is_none(),
        pair.1.routes() is Forward,
        pair.1.routes()->Forward_addr.is_none(),
        pair.1.target() == target,
        pair.1.maker() == make,
        pair.1.builds_default(pair.1.routes()->Forward_service),
        cloned(pair.1.routes()->Forward_service, pair.0.routes()->Forward_service),
        !pair.0.has_ready_slot(),
{
    let service = make.make(target.clone());
    let copy = service.clone();
    let concrete = Service {
        routes: Routes::Forward { addr: None, service: copy },
        next_split_index: None,
        attempts: 0,
        probing: None,
        rng,
    };
    let update = Update { target, make, routes: Routes::Forward { addr: None, service } };
    (concrete, update)
}

impl<T, M: Make<T>> Update<T, M> {
    /// The table that was last set.
    pub closed spec fn routes(&self) -> Routes<M::Service> {
        self.routes
    }

    /// The target that services are made for.
    pub closed spec fn target(&self) -> T {
        self.target
    }

    /// The maker of the services.
    pub closed spec fn maker(&self) -> M {
        self.make
    }

    pub open spec fn wf(&self) -> bool {
        self.routes().wf()
    }

    /// The maker can be asked for a service for the target as it stands and
    /// under every address.
    pub open spec fn can_build(&self) -> bool where T: Clone + WithAddr {
        &&& forall|t: T| cloned(self.target(), t) ==> #[trigger] self.maker().can_make(t)
        &&& forall|addr: NameAddr, t: T| #[trigger]
            self.target().readdressed(addr, t) ==> self.maker().can_make(t)
    }

    /// `service` may have been made for the target as it stands.
    pub open spec fn builds_default(&self, service: M::Service) -> bool where T: Clone {
        exists|t: T| cloned(self.target(), t) && #[trigger] self.maker().makes(t, service)
    }

    /// `service` may have been made for the target with its address replaced
    /// by `addr`.
    pub open spec fn builds_for(&self, addr: NameAddr, service: M::Service) -> bool where
        T: WithAddr,
     {
        exists|t: T| self.target().readdressed(addr, t) && #[trigger] self.maker().makes(t, service)
    }

    /// `service` is right for `addr` in a table that follows `prior`: a clone
    /// of the service that `prior` holds for that name, or a new one where
    /// `prior` holds none.
    pub open spec fn serves(
        &self,
        prior: Routes<M::Service>,
        addr: NameAddr,
        service: M::Service,
    ) -> bool where T: WithAddr, M::Service: Clone {
        match prior.slot_of(addr@) {
            Some(slot) => cloned(prior.services()[slot], service),
            None => self.builds_for(addr, service),
        }
    }

    /// The table to publish.
    pub fn table(&self) -> (routes: &Routes<M::Service>)
        ensures
            *routes == self.routes(),
    {
        &self.routes
    }
}

impl<T, M> Update<T, M> where T: Clone + WithAddr, M: Make<T>, M::Service: Clone {
    /// Goes back to forwarding to the target as it stands.
    ///
    /// Returns whether the table changed: it does unless it already was that
    /// forward.
    pub fn set_forward(&mut self) -> (changed: bool)
        requires
            old(self).wf(),
            old(self).can_build(),
        ensures
            final(self).wf(),
            final(self).target() == old(self).target(),
            final(self).maker() == old(self).maker(),
            changed == !(old(self).routes() is Forward && old(self).routes()->Forward_addr.is_none()),
            !changed ==> *final(self) == *old(self),
            changed ==> {
                &&& final(self).routes() is Forward
                &&& final(self).routes()->Forward_addr.is_none()
                &&& final(self).builds_default(final(self).routes()->Forward_service)
            },
    {
        let unchanged = match &self.routes {
            Routes::Forward { addr, .. } => addr.is_none(),
            Routes::Split { .. } => false,
        };
        if unchanged {
            return false;
        }
        let target = self.target.clone();
        let ghost made_for = target;
        assert(self.maker().can_make(made_for));
        let service = self.make.make(target);
        let ghost made = service;
        self.routes = Routes::Forward { addr: None, service };
        proof {
            assert(cloned(self.target(), made_for) && self.maker().makes(made_for, made));
        }
        true
    }

    /// A service for `addr`: the one that the current table holds for that
    /// name, cloned, or a new one.
    fn service_for(&self, addr: &NameAddr) -> (service: M::Service)
        requires
            self.wf(),
            self.can_build(),
        ensures
            self.serves(self.routes(), *addr, service),
    {
        let slot = match &self.routes {
            Routes::Forward { .. } => None,
            Routes::Split { names, .. } => names_get(names, addr),
        };
        match slot {
            Some(slot) => {
                match &self.routes {
                    Routes::Split { services, names, .. } => {
                        proof {
                            let entries = crate::index::name_index(*names);
                            let p = crate::index::position_of(entries, addr@);
                            assert(entries[p].1 == p);
                        }
                        services[slot].clone()
                    },
                    Routes::Forward { service, .. } => service.clone(),
                }
            },
            None => {
                let target = self.target.with_addr(addr.duplicate());
                let ghost made_for = target;
                assert(self.target().readdressed(*addr, made_for));
                assert(self.maker().can_make(made_for));
                let service = self.make.make(target);
                proof {
                    assert(self.target().readdressed(*addr, made_for) && self.maker().makes(
                        made_for,
                        service,
                    ));
                }
                service
            },
        }
    }

    /// Sets the table from a list of weighted destinations.
    ///
    /// One destination gives a forward to it; more give a split, in the
    /// list's order. A service that the current table holds under the same
    /// name is kept (cloned); others are made. A list that gives no split is
    /// refused and the table stays. Returns whether the table changed: it
    /// does unless it already forwards to the one destination named.
    pub fn set_split(&mut self, addrs: Vec<WeightedAddr>) -> (res: Result<bool, InvalidSplit>)
        requires
            old(self).wf(),
            old(self).can_build(),
        ensures
            final(self).wf(),
            final(self).target() == old(self).target(),
            final(self).maker() == old(self).maker(),
            addrs@.len() == 1 ==> res == Ok::<bool, InvalidSplit>(
                !(old(self).routes() is Forward && old(self).routes()->Forward_addr.is_some()
                    && old(self).routes()->Forward_addr.unwrap()@ == addrs@[0].addr@),
            ),
            addrs@.len() != 1 ==> res == (match split_defect(addrs@) {
                Some(defect) => Err::<bool, InvalidSplit>(defect),
                None => Ok(true),
            }),
            res != Ok::<bool, InvalidSplit>(true) ==> *final(self) == *old(self),
            res == Ok::<bool, InvalidSplit>(true) && addrs@.len() == 1 ==> {
                &&& final(self).routes() is Forward
                &&& final(self).routes()->Forward_addr.is_some()
                &&& final(self).routes()->Forward_addr.unwrap()@ == addrs@[0].addr@
                &&& old(self).serves(
                    old(self).routes(),
                    addrs@[0].addr,
                    final(self).routes()->Forward_service,
                )
            },
            res == Ok::<bool, InvalidSplit>(true) && addrs@.len() != 1 ==> {
                &&& final(self).routes() is Split
                &&& final(self).routes().names() == names_of(addrs@)
                &&& final(self).routes().weights() == weights_of(addrs@)
                &&& final(self).routes().services().len() == addrs@.len()
                &&& forall|i: int|
                    0 <= i < addrs@.len() ==> old(self).serves(
                        old(self).routes(),
                        addrs@[i].addr,
                        #[trigger] final(self).routes().services()[i],
                    )
            },
    {
        if addrs.len() == 1 {
            let new_addr = &addrs[0].addr;
            let same = match &self.routes {
                Routes::Forward { addr: Some(addr), .. } => addr == new_addr,
                _ => false,
            };
            if same {
                return Ok(false);
            }
            let service = self.service_for(new_addr);
            self.routes = Routes::Forward { addr: Some(new_addr.duplicate()), service };
            return Ok(true);
        }
        if addrs.len() == 0 {
            return Err(InvalidSplit::NoDestinations);
        }
        let weights = match checked_weights(&addrs) {
            Some(weights) => weights,
            None => {
                return Err(InvalidSplit::WeightOverflow);
            },
        };
        proof {
            lemma_total_weight_prefix(weights@, 0);
        }
        let distribution = match distribution_new(&weights) {
            Some(distribution) => distribution,
            None => {
                return Err(InvalidSplit::NoWeight);
            },
        };
        let mut names = names_new();
        let mut services: Vec<M::Service> = Vec::new();
        let mut i: usize = 0;
        while i < addrs.len()
            invariant
                i <= addrs@.len(),
                addrs@.len() >= 2,
                0 < crate::weighted::total_weight(weights_of(addrs@)) <= u32::MAX,
                crate::weighted::distribution_weights(distribution) == weights_of(addrs@),
                self.wf(),
                self.can_build(),
                *self == *old(self),
                services@.len() == i,
                crate::index::name_index(names) == Seq::new(
                    i as nat,
                    |k: int| (addrs@[k].addr@, k as usize),
                ),
                crate::index::distinct_keys(crate::index::name_index(names)),
                forall|k: int|
                    0 <= k < i ==> self.serves(self.routes(), addrs@[k].addr, #[trigger] services@[k]),
            decreases addrs@.len() - i,
        {
            let addr = &addrs[i].addr;
            let service = self.service_for(addr);
            let ghost before = crate::index::name_index(names);
            let prior = names_insert(&mut names, addr, i);
            if prior.is_some() {
                proof {
                    let p = crate::index::position_of(before, addr@);
                    assert(before[p].0 == addr@);
                    assert(addrs@[p].addr@ == addrs@[i as int].addr@);
                    assert(!distinct_names(addrs@));
                }
                return Err(InvalidSplit::DuplicateName);
            }
            services.push(service);
            proof {
                assert(crate::index::name_index(names) =~= Seq::new(
                    (i + 1) as nat,
                    |k: int| (addrs@[k].addr@, k as usize),
                ));
            }
            i += 1;
        }
        proof {
            let entries = crate::index::name_index(names);
            assert forall|a: int, b: int| 0 <= a < b < addrs@.len() implies addrs@[a].addr@
                != addrs@[b].addr@ by {
                assert(entries[a].0 == addrs@[a].addr@);
                assert(entries[b].0 == addrs@[b].addr@);
            }
            assert(distinct_names(addrs@));
        }
        let routes = Routes::Split { distribution, names, services };
        proof {
            assert(routes.names() =~= names_of(addrs@));
            assert(routes.weights() =~= weights_of(addrs@));
        }
        self.routes = routes;
        Ok(true)
    }
}

/// The sum of a prefix is the sum of the shorter prefix and the next weight.
proof fn lemma_total_weight_step(weights: Seq<u32>, n: int)
    requires
        0 <= n < weights.len(),
    ensures
        crate::weighted::total_weight(weights.take(n + 1)) == crate::weighted::total_weight(
            weights.take(n),
        ) + weights[n],
{
    assert(weights.take(n + 1).drop_last() =~= weights.take(n));
}

/// A prefix sums to no more than the whole.
proof fn lemma_total_weight_prefix(weights: Seq<u32>, n: int)
    requires
        0 <= n <= weights.len(),
    ensures
        crate::weighted::total_weight(weights.take(n)) <= crate::weighted::total_weight(weights),
    decreases weights.len() - n,
{
    if n == weights.len() {
        assert(weights.take(n) =~= weights);
    } else {
        lemma_total_weight_step(weights, n);
        lemma_total_weight_prefix(weights, n + 1);
    }
}

/// The weights of a list of destinations, unless they sum to more than a
/// `u32` holds.
fn checked_weights(addrs: &Vec<WeightedAddr>) -> (weights: Option<Vec<u32>>)
    ensures
        weights.is_some() == (crate::weighted::total_weight(weights_of(addrs@)) <= u32::MAX),
        weights.is_some() ==> weights.unwrap()@ == weights_of(addrs@),
{
    let ghost all = weights_of(addrs@);
    let mut weights: Vec<u32> = Vec::new();
    let mut total: u32 = 0;
    let mut i: usize = 0;
    while i < addrs.len()
        invariant
            i <= addrs@.len(),
            all == weights_of(addrs@),
            weights@ == all.take(i as int),
            total == crate::weighted::total_weight(all.take(i as int)),
        decreases addrs@.len() - i,
    {
        let w = addrs[i].weight;
        proof {
            lemma_total_weight_step(all, i as int);
            lemma_total_weight_prefix(all, i + 1);
        }
        if w > u32::MAX - total {
            return None;
        }
        total = total + w;
        weights.push(w);
        proof {
            assert(weights@ =~= all.take(i + 1));
        }
        i += 1;
    }
    proof {
        assert(all.take(i as int) =~= all);
    }
    Some(weights)
}

impl<S> Service<S> {
    /// The table in use.
    pub closed spec fn routes(&self) -> Routes<S> {
        self.routes
    }

    /// The slot found ready and not yet dispatched to, if any.
    pub closed spec fn ready_slot(&self) -> Option<usize> {
        self.next_split_index
    }

    /// Whether a slot was found ready and not yet dispatched to.
    pub open spec fn has_ready_slot(&self) -> bool {
        self.ready_slot().is_some()
    }

    /// How many services were asked since `begin`.
    pub closed spec fn attempts(&self) -> nat {
        self.attempts as nat
    }

    /// The slot whose answer is awaited, if any.
    pub closed spec fn probing(&self) -> Option<usize> {
        self.probing
    }

    /// Whether `slot` may be dispatched to: it is the one slot of a forward,
    /// or a slot of a split whose weight is not zero.
    pub open spec fn eligible(&self, slot: usize) -> bool {
        match self.routes() {
            Routes::Forward { .. } => slot == 0,
            Routes::Split { .. } => slot < self.routes().services().len()
                && self.routes().weights()[slot as int] > 0,
        }
    }

    /// The table is well formed; a slot that is cached or awaited is
    /// eligible, and only a split caches one.
    pub open spec fn wf(&self) -> bool {
        &&& self.routes().wf()
        &&& self.ready_slot() matches Some(slot) ==> self.routes() is Split && self.eligible(slot)
        &&& self.probing() matches Some(slot) ==> self.eligible(slot)
    }

    /// The table in use.
    pub fn table(&self) -> (routes: &Routes<S>)
        ensures
            *routes == self.routes(),
    {
        &self.routes
    }

    /// The service at `slot`, to ask and call it. Nothing else changes.
    pub fn get_mut(&mut self, slot: usize) -> (service: Option<&mut S>)
        requires
            old(self).wf(),
        ensures
            final(self).ready_slot() == old(self).ready_slot(),
            final(self).probing() == old(self).probing(),
            final(self).attempts() == old(self).attempts(),
            slot >= old(self).routes().services().len() ==> service.is_none() && final(self).routes() == old(self).routes(),
            slot < old(self).routes().services().len() ==> {
                &&& service.is_some()
                &&& *service.unwrap() == old(self).routes().services()[slot as int]
                &&& final(self).wf()
                &&& final(self).routes() is Split == (old(self).routes() is Split)
                &&& final(self).routes().names() == old(self).routes().names()
                &&& final(self).routes().weights() == old(self).routes().weights()
                &&& final(self).routes().services() == old(self).routes().services().update(
                    slot as int,
                    *final(service.unwrap()),
                )
            },
    {
        self.routes.get_mut(slot)
    }

    /// A copy of this dispatcher in the same state, with each service cloned.
    pub fn duplicate(&self) -> (copy: Service<S>) where S: Clone
        requires
            self.wf(),
        ensures
            copy.wf(),
            copy.routes() is Split == (self.routes() is Split),
            copy.routes().names() == self.routes().names(),
            copy.routes().weights() == self.routes().weights(),
            copy.routes().services().len() == self.routes().services().len(),
            forall|i: int|
                0 <= i < self.routes().services().len() ==> cloned(
                    self.routes().services()[i],
                    #[trigger] copy.routes().services()[i],
                ),
            copy.ready_slot() == self.ready_slot(),
            copy.probing() == self.probing(),
            copy.attempts() == self.attempts(),
    {
        Service {
            routes: self.routes.duplicate(),
            next_split_index: self.next_split_index,
            attempts: self.attempts,
            probing: self.probing,
            rng: rng_clone(&self.rng),
        }
    }

    /// Takes a published table: it replaces the one in use at once, and a
    /// slot found ready under the old table is forgotten.
    pub fn update(&mut self, routes: Routes<S>)
        requires
            old(self).wf(),
            routes.wf(),
        ensures
            final(self).wf(),
            final(self).routes() == routes,
            final(self).ready_slot().is_none(),
            final(self).probing().is_none(),
            final(self).attempts() == 0,
    {
        self.next_split_index = None;
        self.probing = None;
        self.attempts = 0;
        self.routes = routes;
    }

    /// Starts a readiness attempt: nothing was asked yet.
    pub fn begin(&mut self)
        requires
            old(self).wf(),
        ensures
            final(self).wf(),
            final(self).routes() == old(self).routes(),
            final(self).ready_slot() == old(self).ready_slot(),
            final(self).probing().is_none(),
            final(self).attempts() == 0,
    {
        self.attempts = 0;
        self.probing = None;
    }

    /// Says what to do next in a readiness attempt.
    ///
    /// A split with a cached slot is ready. Otherwise one more service is to
    /// be asked, as long as fewer were asked than there are slots: the one
    /// service of a forward, or a slot of the split drawn by weight, which is
    /// never a slot of weight zero. After that the answer is "not ready".
    pub fn probe(&mut self) -> (next: Probe)
        requires
            old(self).wf(),
        ensures
            final(self).wf(),
            final(self).routes() == old(self).routes(),
            final(self).ready_slot() == old(self).ready_slot(),
            old(self).has_ready_slot() ==> next == Probe::Ready && final(self).attempts() == old(
                self,
            ).attempts() && final(self).probing() == old(self).probing(),
            !old(self).has_ready_slot() && old(self).attempts() >= old(self).routes().services().len()
                ==> next == Probe::NotReady && final(self).attempts() == old(self).attempts()
                && final(self).probing().is_none(),
            !old(self).has_ready_slot() && old(self).attempts() < old(self).routes().services().len()
                ==> {
                &&& next is Poll
                &&& final(self).eligible(next->Poll_0)
                &&& final(self).probing() == Some(next->Poll_0)
                &&& final(self).attempts() == old(self).attempts() + 1
            },
    {
        if self.next_split_index.is_some() {
            return Probe::Ready;
        }
        let slots = self.routes.len();
        if self.attempts >= slots {
            self.probing = None;
            return Probe::NotReady;
        }
        let slot = match &self.routes {
            Routes::Forward { .. } => 0,
            Routes::Split { distribution, .. } => distribution_sample(distribution, &mut self.rng),
        };
        self.attempts = self.attempts + 1;
        self.probing = Some(slot);
        Probe::Poll(slot)
    }

    /// Takes the answer of the service that `probe` named: a split caches the
    /// slot of a service that is ready. Returns whether the dispatcher is
    /// ready now.
    pub fn polled(&mut self, ready: bool) -> (is_ready: bool)
        requires
            old(self).wf(),
        ensures
            final(self).wf(),
            final(self).routes() == old(self).routes(),
            final(self).attempts() == old(self).attempts(),
            final(self).probing().is_none(),
            is_ready == (ready && old(self).probing().is_some()),
            final(self).ready_slot() == (if is_ready && old(self).routes() is Split {
                old(self).probing()
            } else {
                old(self).ready_slot()
            }),
    {
        let probed = self.probing;
        self.probing = None;
        match probed {
            Some(slot) => {
                if ready {
                    if self.routes.is_split() {
                        self.next_split_index = Some(slot);
                    }
                    true
                } else {
                    false
                }
            },
            None => false,
        }
    }

    /// The slot to dispatch the next request to: the one service of a
    /// forward, or the cached slot of a split, which is then forgotten. A
    /// split without a cached slot was not found ready and gives none.
    pub fn dispatch(&mut self) -> (slot: Option<usize>)
        requires
            old(self).wf(),
        ensures
            final(self).wf(),
            final(self).routes() == old(self).routes(),
            final(self).ready_slot().is_none(),
            slot == (if old(self).routes() is Split {
                old(self).ready_slot()
            } else {
                Some(0usize)
            }),
            slot matches Some(s) ==> old(self).eligible(s),
    {
        match &self.routes {
            Routes::Forward { .. } => {
                self.next_split_index = None;
                Some(0)
            },
            Routes::Split { .. } => {
                let slot = self.next_split_index;
                self.next_split_index = None;
                slot
            },
        }
    }
}

} // verus!
