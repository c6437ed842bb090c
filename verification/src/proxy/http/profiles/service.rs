//! The service of one profile target: routes requests through the proxy of
//! their route, over a shared concrete dispatcher.
//!
//! The dispatcher picks a concrete destination from the profile's overrides
//! where it has any, and else serves the target's own address. Updates of the
//! profile replace the routes and the dispatcher's table together.

use crate::proxy::http::profiles::concrete;
use crate::proxy::http::profiles::concrete::{InvalidSplit, Probe};
use crate::proxy::http::profiles::requests::Requests;
use crate::proxy::http::profiles::{
    CanGetDestination, GetRoutes, Route, Routes, WeightedAddr, WithAddr, WithRoute,
};
use crate::stack::layer::Layer as StackLayer;
use crate::stack::make::Make;
use crate::weighted::{rng_clone, rng_from_entropy};
use rand::rngs::SmallRng;
use std::marker::PhantomData;
use vstd::prelude::*;

verus! {

/// Whether profiles may split traffic, and the generator that a split draws
/// with.
#[derive(Debug)]
pub enum TrafficSplit {
    Forward,
    Split(SmallRng),
}

impl TrafficSplit {
    fn duplicate(&self) -> (copy: TrafficSplit)
        ensures
            copy is Split == (*self is Split),
    {
        match self {
            TrafficSplit::Forward => TrafficSplit::Forward,
            TrafficSplit::Split(rng) => TrafficSplit::Split(rng_clone(rng)),
        }
    }
}

/// Builds profile services over a maker of concrete services.
#[derive(Debug)]
pub struct Layer<G, RMake, C> {
    get_routes: G,
    make_route: RMake,
    traffic_split: TrafficSplit,
    /// Kept so that every service shares the one default route.
    default_route: Route,
    _condition: PhantomData<C>,
}

/// Makes the profile service of a target.
#[derive(Debug)]
pub struct MakeSvc<G, RMake, CMake, C> {
    default_route: Route,
    get_routes: G,
    make_route: RMake,
    make_concrete: CMake,
    traffic_split: TrafficSplit,
    _condition: PhantomData<C>,
}

/// The concrete dispatcher of a profile service.
#[derive(Debug)]
pub enum Concrete<T, M: Make<T>> {
    /// Profiles cannot split: one service, made for the target.
    Forward(M::Service),
    /// Profiles can split: a dispatcher that follows the overrides.
    Split(concrete::Service<M::Service>),
}

/// The profile service of one target.
pub struct Service<T, P, RMake, CMake, C> where
    T: WithRoute,
    RMake: Make<T::Output>,
    CMake: Make<T>,
 {
    profiles: Option<P>,
    requests: Requests<T, RMake, C>,
    concrete: Concrete<T, CMake>,
    concrete_update: Option<concrete::Update<T, CMake>>,
}

impl<G, RMake, C> Layer<G, RMake, C> {
    pub closed spec fn get_routes(&self) -> G {
        self.get_routes
    }

    pub closed spec fn make_route(&self) -> RMake {
        self.make_route
    }

    pub closed spec fn default_route(&self) -> Route {
        self.default_route
    }

    /// Whether services made under this layer follow overrides.
    pub closed spec fn splits(&self) -> bool {
        self.traffic_split is Split
    }

    /// A layer whose services forward to the target's own address.
    pub fn new(get_routes: G, make_route: RMake) -> (layer: Self)
        ensures
            layer.get_routes() == get_routes,
            layer.make_route() == make_route,
            !layer.splits(),
            layer.default_route().spec_retries().is_none(),
            layer.default_route().spec_timeout().is_none(),
            layer.default_route().spec_response_classes()@.len() == 0,
            layer.default_route().spec_labels()@.len() == 0,
    {
        Layer {
            get_routes,
            make_route,
            default_route: Route::empty(),
            traffic_split: TrafficSplit::Forward,
            _condition: PhantomData,
        }
    }

    /// The same layer, with services that follow the profile's overrides
    /// and draw with copies of the generator given.
    pub fn with_split_rng(self, rng: SmallRng) -> (layer: Self)
        ensures
            layer.get_routes() == self.get_routes(),
            layer.make_route() == self.make_route(),
            layer.default_route() == self.default_route(),
            layer.splits(),
    {
        Layer {
            get_routes: self.get_routes,
            make_route: self.make_route,
            default_route: self.default_route,
            traffic_split: TrafficSplit::Split(rng),
            _condition: PhantomData,
        }
    }

    /// The same layer, with services that follow the profile's overrides
    /// and draw with a generator that the operating system seeds.
    pub fn with_split(self) -> (layer: Self)
        ensures
            layer.get_routes() == self.get_routes(),
            layer.make_route() == self.make_route(),
            layer.default_route() == self.default_route(),
            layer.splits(),
    {
        Layer {
            get_routes: self.get_routes,
            make_route: self.make_route,
            default_route: self.default_route,
            traffic_split: TrafficSplit::Split(rng_from_entropy()),
            _condition: PhantomData,
        }
    }
}

impl<G, RMake, CMake, C> MakeSvc<G, RMake, CMake, C> {
    pub closed spec fn get_routes(&self) -> G {
        self.get_routes
    }

    pub closed spec fn make_route(&self) -> RMake {
        self.make_route
    }

    pub closed spec fn make_concrete(&self) -> CMake {
        self.make_concrete
    }

    pub closed spec fn default_route(&self) -> Route {
        self.default_route
    }

    pub closed spec fn splits(&self) -> bool {
        self.traffic_split is Split
    }
}

impl<G, RMake, CMake, C> StackLayer<CMake> for Layer<G, RMake, C> where G: Clone, RMake: Clone {
    type Service = MakeSvc<G, RMake, CMake, C>;

    open spec fn accepts(&self, inner: CMake) -> bool {
        true
    }

    open spec fn layers(&self, inner: CMake, outer: MakeSvc<G, RMake, CMake, C>) -> bool {
        &&& outer.make_concrete() == inner
        &&& cloned(self.get_routes(), outer.get_routes())
        &&& cloned(self.make_route(), outer.make_route())
        &&& outer.default_route() == self.default_route()
        &&& outer.splits() == self.splits()
    }

    fn layer(&self, make_concrete: CMake) -> (outer: MakeSvc<G, RMake, CMake, C>) {
        MakeSvc {
            make_concrete,
            get_routes: self.get_routes.clone(),
            make_route: self.make_route.clone(),
            default_route: self.default_route.duplicate(),
            traffic_split: self.traffic_split.duplicate(),
            _condition: PhantomData,
        }
    }
}

impl<T, M: Make<T>> Concrete<T, M> {
    /// A dispatcher that can split is well formed.
    pub open spec fn wf(&self) -> bool {
        match self {
            Concrete::Forward(_) => true,
            Concrete::Split(service) => service.wf(),
        }
    }

    /// Starts a readiness attempt.
    pub fn begin(&mut self)
        requires
            old(self).wf(),
        ensures
            final(self).wf(),
            *final(self) is Split == (*old(self) is Split),
            *old(self) is Forward ==> *final(self) == *old(self),
            *old(self) is Split ==> {
                &&& final(self)->Split_0.routes() == old(self)->Split_0.routes()
                &&& final(self)->Split_0.ready_slot() == old(self)->Split_0.ready_slot()
                &&& final(self)->Split_0.probing().is_none()
                &&& final(self)->Split_0.attempts() == 0
            },
    {
        match self {
            Concrete::Forward(_) => {},
            Concrete::Split(service) => {
                service.begin();
            },
        }
    }

    /// Says what to do next in a readiness attempt. `asked` is the number of
    /// answers given since `begin`: a forward has its one service asked
    /// once, a split decides as `concrete::Service::probe` says.
    pub fn probe(&mut self, asked: usize) -> (next: Probe)
        requires
            old(self).wf(),
        ensures
            final(self).wf(),
            *final(self) is Split == (*old(self) is Split),
            *old(self) is Forward ==> *final(self) == *old(self) && next == (if asked == 0 {
                Probe::Poll(0)
            } else {
                Probe::NotReady
            }),
            *old(self) is Split ==> {
                &&& final(self)->Split_0.routes() == old(self)->Split_0.routes()
                &&& final(self)->Split_0.ready_slot() == old(self)->Split_0.ready_slot()
                &&& old(self)->Split_0.has_ready_slot() ==> next == Probe::Ready
                &&& !old(self)->Split_0.has_ready_slot() && old(self)->Split_0.attempts() >= old(self)->Split_0.routes().services().len() ==> next == Probe::NotReady
                &&& !old(self)->Split_0.has_ready_slot() && old(self)->Split_0.attempts() < old(self)->Split_0.routes().services().len() ==> next is Poll
                    && final(self)->Split_0.eligible(next->Poll_0)
            },
    {
        match self {
            Concrete::Forward(_) => if asked == 0 {
                Probe::Poll(0)
            } else {
                Probe::NotReady
            },
            Concrete::Split(service) => service.probe(),
        }
    }

    /// Takes the answer of the service that `probe` named. Returns whether
    /// the dispatcher is ready now.
    pub fn polled(&mut self, ready: bool) -> (is_ready: bool)
        requires
            old(self).wf(),
        ensures
            final(self).wf(),
            *final(self) is Split == (*old(self) is Split),
            *old(self) is Forward ==> *final(self) == *old(self) && is_ready == ready,
            *old(self) is Split ==> {
                &&& final(self)->Split_0.routes() == old(self)->Split_0.routes()
                &&& is_ready == (ready && old(self)->Split_0.probing().is_some())
            },
    {
        match self {
            Concrete::Forward(_) => ready,
            Concrete::Split(service) => service.polled(ready),
        }
    }

    /// The slot to dispatch the next request to: slot 0 of a forward, the
    /// slot found ready of a split.
    pub fn dispatch(&mut self) -> (slot: Option<usize>)
        requires
            old(self).wf(),
        ensures
            final(self).wf(),
            *final(self) is Split == (*old(self) is Split),
            *old(self) is Forward ==> *final(self) == *old(self) && slot == Some(0usize),
            *old(self) is Split ==> {
                &&& final(self)->Split_0.routes() == old(self)->Split_0.routes()
                &&& final(self)->Split_0.ready_slot().is_none()
                &&& slot == (if old(self)->Split_0.routes() is Split {
                    old(self)->Split_0.ready_slot()
                } else {
                    Some(0usize)
                })
                &&& slot matches Some(s) ==> old(self)->Split_0.eligible(s)
            },
    {
        match self {
            Concrete::Forward(_) => Some(0),
            Concrete::Split(service) => service.dispatch(),
        }
    }

    /// The services by slot: the one service of a forward at slot 0, those
    /// of a dispatcher's table in its order.
    pub open spec fn services(&self) -> Seq<M::Service> {
        match self {
            Concrete::Forward(service) => seq![*service],
            Concrete::Split(service) => service.routes().services(),
        }
    }

    /// This dispatcher is `before` but for its services: the same kind, and
    /// in a dispatcher that can split the same names, weights and state of
    /// the readiness attempt.
    pub open spec fn same_but_services(&self, before: Self) -> bool {
        match (before, *self) {
            (Concrete::Forward(_), Concrete::Forward(_)) => true,
            (Concrete::Split(b), Concrete::Split(a)) => {
                &&& a.routes() is Split == (b.routes() is Split)
                &&& a.routes().names() == b.routes().names()
                &&& a.routes().weights() == b.routes().weights()
                &&& a.ready_slot() == b.ready_slot()
                &&& a.probing() == b.probing()
                &&& a.attempts() == b.attempts()
            },
            _ => false,
        }
    }

    /// The service at `slot`, to ask and call it: there is one for each slot
    /// of the dispatcher. What the caller does to it shows at that slot, and
    /// nothing else changes.
    pub fn get_mut(&mut self, slot: usize) -> (service: Option<&mut M::Service>)
        requires
            old(self).wf(),
        ensures
            final(self).wf(),
            final(self).same_but_services(*old(self)),
            slot >= old(self).services().len() ==> service.is_none() && final(self).services()
                == old(self).services(),
            slot < old(self).services().len() ==> {
                &&& service.is_some()
                &&& *service.unwrap() == old(self).services()[slot as int]
                &&& final(self).services() == old(self).services().update(
                    slot as int,
                    *final(service.unwrap()),
                )
            },
    {
        match self {
            Concrete::Forward(service) => if slot == 0 {
                Some(service)
            } else {
                None
            },
            Concrete::Split(service) => service.get_mut(slot),
        }
    }

    /// The service at `slot`.
    pub fn get(&self, slot: usize) -> (service: Option<&M::Service>)
        ensures
            match *self {
                Concrete::Forward(s) => service == (if slot == 0 {
                    Some(&s)
                } else {
                    None
                }),
                Concrete::Split(s) => {
                    &&& slot < s.routes().services().len() ==> service == Some(
                        &s.routes().services()[slot as int],
                    )
                    &&& slot >= s.routes().services().len() ==> service.is_none()
                },
            },
    {
        match self {
            Concrete::Forward(service) => if slot == 0 {
                Some(service)
            } else {
                None
            },
            Concrete::Split(service) => service.table().get(slot),
        }
    }
}

impl<T, G, RMake, CMake, C> Make<T> for MakeSvc<G, RMake, CMake, C> where
    G: GetRoutes,
    T: CanGetDestination + WithRoute + WithAddr + Clone,
    RMake: Make<T::Output> + Clone,
    CMake: Make<T> + Clone,
    CMake::Service: Clone,
 {
    type Service = Service<T, G::Stream, RMake, CMake, C>;

    /// The makers can be asked for what a new service needs: clones of the
    /// route maker for the default route's proxy, and the maker of concrete
    /// services, or its clones, for the target's service.
    open spec fn can_make(&self, target: T) -> bool {
        &&& forall|t: T, make: RMake, out: T::Output|
            cloned(target, t) && cloned(self.make_route(), make) && #[trigger] t.routed(
                self.default_route(),
                out,
            ) ==> #[trigger] make.can_make(out)
        &&& !self.splits() ==> self.make_concrete().can_make(target)
        &&& self.splits() ==> forall|t: T, make: CMake|
            cloned(target, t) && cloned(self.make_concrete(), make) ==> #[trigger] make.can_make(t)
    }

    /// A new service has no configured route, forwards to a service made
    /// for the target as it stands, and can split where the layer says so;
    /// then its dispatcher holds a copy of the writer's table. Its stream of
    /// updates is what the source of profiles gives for the target's
    /// destination; a target that names no destination has none.
    open spec fn makes(&self, target: T, service: Service<T, G::Stream, RMake, CMake, C>) -> bool {
        &&& service.wf()
        &&& service.concrete() is Split == self.splits()
        &&& service.follows(Seq::empty())
        &&& service.requests().routes().len() == 0
        &&& cloned(target, service.requests().target())
        &&& cloned(self.make_route(), service.requests().maker())
        &&& service.requests().builds(self.default_route(), service.requests().default_proxy())
        &&& match target.destination() {
            None => service.profiles().is_none(),
            Some(dst) => self.get_routes().gives(dst, service.profiles()),
        }
        &&& match service.concrete() {
            Concrete::Forward(inner) => self.make_concrete().makes(target, inner),
            Concrete::Split(dispatcher) => {
                let writer = service.concrete_update().unwrap();
                &&& writer.target() == target
                &&& cloned(self.make_concrete(), writer.maker())
                &&& writer.builds_default(writer.routes()->Forward_service)
                &&& concrete::copy_of(writer.routes(), dispatcher.routes())
                &&& !dispatcher.has_ready_slot()
            },
        }
    }

    fn make(&self, target: T) -> (service: Service<T, G::Stream, RMake, CMake, C>) {
        let profiles = match target.get_destination() {
            Some(dst) => self.get_routes.get_routes(&dst),
            None => None,
        };
        let requests = Requests::new(
            target.clone(),
            self.make_route.clone(),
            self.default_route.duplicate(),
        );
        let (concrete, concrete_update) = match &self.traffic_split {
            TrafficSplit::Forward => {
                let service = self.make_concrete.make(target);
                (Concrete::Forward(service), None)
            },
            TrafficSplit::Split(rng) => {
                let (service, update) = concrete::forward(
                    target,
                    self.make_concrete.clone(),
                    rng_clone(rng),
                );
                (Concrete::Split(service), Some(update))
            },
        };
        Service { profiles, requests, concrete, concrete_update }
    }
}

impl<T, P, RMake, CMake, C> Service<T, P, RMake, CMake, C> where
    T: WithRoute,
    RMake: Make<T::Output>,
    CMake: Make<T>,
 {
    /// The stream of profile updates, where the target has a destination and
    /// the source a profile for it.
    pub closed spec fn profiles(&self) -> Option<P> {
        self.profiles
    }

    /// The routes by condition.
    pub closed spec fn requests(&self) -> Requests<T, RMake, C> {
        self.requests
    }

    /// The concrete dispatcher.
    pub closed spec fn concrete(&self) -> Concrete<T, CMake> {
        self.concrete
    }

    /// The writing side of the dispatcher, where profiles can split.
    pub closed spec fn concrete_update(&self) -> Option<concrete::Update<T, CMake>> {
        self.concrete_update
    }

    /// A service that can split has both sides of its dispatcher, and both
    /// hold the same table: the same kind, names and weights.
    pub open spec fn wf(&self) -> bool {
        &&& self.concrete().wf()
        &&& self.concrete() is Split == self.concrete_update().is_some()
        &&& self.concrete_update() matches Some(update) ==> {
            &&& update.wf()
            &&& self.concrete()->Split_0.routes() is Split == (update.routes() is Split)
            &&& self.concrete()->Split_0.routes().names() == update.routes().names()
            &&& self.concrete()->Split_0.routes().weights() == update.routes().weights()
        }
    }

    /// The dispatcher's table shows `overrides`: none give a forward to the
    /// target's own address, one gives a forward to it, more give a split
    /// over their names and weights, in their order.
    pub open spec fn follows(&self, overrides: Seq<WeightedAddr>) -> bool {
        match self.concrete_update() {
            None => true,
            Some(update) => if overrides.len() == 0 {
                update.routes() is Forward && update.routes()->Forward_addr.is_none()
            } else if overrides.len() == 1 {
                &&& update.routes() is Forward
                &&& update.routes()->Forward_addr.is_some()
                &&& update.routes()->Forward_addr.unwrap()@ == overrides[0].addr@
            } else {
                &&& update.routes() is Split
                &&& update.routes().names() == concrete::names_of(overrides)
                &&& update.routes().weights() == concrete::weights_of(overrides)
            },
        }
    }

    /// The stream of profile updates, for the caller to poll.
    pub fn profiles_mut(&mut self) -> (stream: &mut Option<P>)
        ensures
            *stream == old(self).profiles(),
            final(self).requests() == old(self).requests(),
            final(self).concrete() == old(self).concrete(),
            final(self).concrete_update() == old(self).concrete_update(),
            final(self).profiles() == *final(stream),
    {
        &mut self.profiles
    }

    /// The routes by condition.
    pub fn routes(&self) -> (requests: &Requests<T, RMake, C>)
        ensures
            *requests == self.requests(),
    {
        &self.requests
    }

    /// The concrete dispatcher.
    pub fn dispatcher(&self) -> (concrete: &Concrete<T, CMake>)
        ensures
            *concrete == self.concrete(),
    {
        &self.concrete
    }

    /// Starts a readiness attempt of the dispatcher: nothing was asked yet.
    /// A forward stays as it is; a split keeps its table and the slot that
    /// it found ready, and forgets what it was asking.
    pub fn begin(&mut self)
        requires
            old(self).wf(),
        ensures
            final(self).wf(),
            final(self).profiles() == old(self).profiles(),
            final(self).requests() == old(self).requests(),
            final(self).concrete_update() == old(self).concrete_update(),
            final(self).concrete() is Split == (old(self).concrete() is Split),
            old(self).concrete() is Forward ==> final(self).concrete() == old(self).concrete(),
            old(self).concrete() matches Concrete::Split(before) ==> {
                &&& final(self).concrete()->Split_0.routes() == before.routes()
                &&& final(self).concrete()->Split_0.ready_slot() == before.ready_slot()
                &&& final(self).concrete()->Split_0.probing().is_none()
                &&& final(self).concrete()->Split_0.attempts() == 0
            },
    {
        self.concrete.begin();
    }

    /// Says what the dispatcher does next in a readiness attempt, as
    /// `Concrete::probe` says.
    pub fn probe(&mut self, asked: usize) -> (next: Probe)
        requires
            old(self).wf(),
        ensures
            final(self).wf(),
            final(self).profiles() == old(self).profiles(),
            final(self).requests() == old(self).requests(),
            final(self).concrete_update() == old(self).concrete_update(),
            old(self).concrete() is Forward ==> next == (if asked == 0 {
                Probe::Poll(0)
            } else {
                Probe::NotReady
            }),
            old(self).concrete() matches Concrete::Split(s) ==> {
                &&& s.has_ready_slot() ==> next == Probe::Ready
                &&& !s.has_ready_slot() && s.attempts() >= s.routes().services().len() ==> next
                    == Probe::NotReady
                &&& !s.has_ready_slot() && s.attempts() < s.routes().services().len() ==> next is Poll
                    && final(self).concrete()->Split_0.eligible(next->Poll_0)
            },
    {
        self.concrete.probe(asked)
    }

    /// Takes the answer of the service that `probe` named. Returns whether
    /// the dispatcher is ready now.
    pub fn polled(&mut self, ready: bool) -> (is_ready: bool)
        requires
            old(self).wf(),
        ensures
            final(self).wf(),
            final(self).profiles() == old(self).profiles(),
            final(self).requests() == old(self).requests(),
            final(self).concrete_update() == old(self).concrete_update(),
            old(self).concrete() is Forward ==> is_ready == ready,
            old(self).concrete() matches Concrete::Split(s) ==> is_ready == (ready
                && s.probing().is_some()),
    {
        self.concrete.polled(ready)
    }

    /// The slot to dispatch the next request to.
    pub fn dispatch(&mut self) -> (slot: Option<usize>)
        requires
            old(self).wf(),
        ensures
            final(self).wf(),
            final(self).profiles() == old(self).profiles(),
            final(self).requests() == old(self).requests(),
            final(self).concrete_update() == old(self).concrete_update(),
            old(self).concrete() is Forward ==> slot == Some(0usize),
            old(self).concrete() matches Concrete::Split(s) ==> slot == (if s.routes() is Split {
                s.ready_slot()
            } else {
                Some(0usize)
            }),
    {
        self.concrete.dispatch()
    }

    /// The service at `slot` of the dispatcher, to ask and call it: there is
    /// one for each slot. What the caller does to it shows at that slot of
    /// the dispatcher, and nothing else changes.
    pub fn service_mut(&mut self, slot: usize) -> (service: Option<&mut CMake::Service>)
        requires
            old(self).wf(),
        ensures
            final(self).wf(),
            final(self).profiles() == old(self).profiles(),
            final(self).requests() == old(self).requests(),
            final(self).concrete_update() == old(self).concrete_update(),
            final(self).concrete().same_but_services(old(self).concrete()),
            slot >= old(self).concrete().services().len() ==> service.is_none() && final(self).concrete().services() == old(self).concrete().services(),
            slot < old(self).concrete().services().len() ==> {
                &&& service.is_some()
                &&& *service.unwrap() == old(self).concrete().services()[slot as int]
                &&& final(self).concrete().services() == old(self).concrete().services().update(
                    slot as int,
                    *final(service.unwrap()),
                )
            },
    {
        self.concrete.get_mut(slot)
    }
}

impl<T, P, RMake, CMake, C> Service<T, P, RMake, CMake, C> where
    T: WithRoute + WithAddr + Clone,
    RMake: Make<T::Output>,
    CMake: Make<T>,
    CMake::Service: Clone,
 {
    /// The makers can be asked for every proxy and every concrete service
    /// that an update may call for.
    pub open spec fn can_build(&self) -> bool {
        &&& self.requests().can_build()
        &&& self.concrete_update() matches Some(update) ==> update.can_build()
    }

    /// Whether `overrides` change the table of `writer`: they do unless it
    /// already is the forward that they call for.
    pub open spec fn changes(
        writer: concrete::Update<T, CMake>,
        overrides: Seq<WeightedAddr>,
    ) -> bool {
        if overrides.len() == 0 {
            !(writer.routes() is Forward && writer.routes()->Forward_addr.is_none())
        } else if overrides.len() == 1 {
            !(writer.routes() is Forward && writer.routes()->Forward_addr.is_some()
                && writer.routes()->Forward_addr.unwrap()@ == overrides[0].addr@)
        } else {
            true
        }
    }

    /// The writer `after` is `before` with `overrides` set.
    ///
    /// No override gives a forward to a service made for the target as it
    /// stands; one gives a forward to that destination; more give a split
    /// with one slot per override, in their order. The service of a
    /// destination is a clone of the one that `before` held under that name,
    /// or a new one made for it. A writer that already is the forward called
    /// for stays as it is.
    pub open spec fn written(
        before: concrete::Update<T, CMake>,
        overrides: Seq<WeightedAddr>,
        after: concrete::Update<T, CMake>,
    ) -> bool {
        &&& after.wf()
        &&& after.target() == before.target()
        &&& after.maker() == before.maker()
        &&& !Self::changes(before, overrides) ==> after == before
        &&& Self::changes(before, overrides) ==> if overrides.len() == 0 {
            &&& after.routes() is Forward
            &&& after.routes()->Forward_addr.is_none()
            &&& after.builds_default(after.routes()->Forward_service)
        } else if overrides.len() == 1 {
            &&& after.routes() is Forward
            &&& after.routes()->Forward_addr.is_some()
            &&& after.routes()->Forward_addr.unwrap()@ == overrides[0].addr@
            &&& before.serves(before.routes(), overrides[0].addr, after.routes()->Forward_service)
        } else {
            &&& after.routes() is Split
            &&& after.routes().names() == concrete::names_of(overrides)
            &&& after.routes().weights() == concrete::weights_of(overrides)
            &&& after.routes().services().len() == overrides.len()
            &&& forall|i: int|
                0 <= i < overrides.len() ==> before.serves(
                    before.routes(),
                    overrides[i].addr,
                    #[trigger] after.routes().services()[i],
                )
        }
    }

    /// The dispatcher and its writer in `after` are those of this service
    /// with `overrides` set.
    ///
    /// The writer is as `written` says. Where its table changed, the
    /// dispatcher holds a copy of the new table, slot by slot, and has
    /// forgotten the slot that it found ready; where it did not, the
    /// dispatcher stays as it is. A service that cannot split has no writer,
    /// and its dispatcher stays as it is.
    pub open spec fn dispatches(&self, overrides: Seq<WeightedAddr>, after: Self) -> bool {
        match self.concrete_update() {
            None => after.concrete_update().is_none() && after.concrete() == self.concrete(),
            Some(before) => {
                &&& after.concrete_update().is_some()
                &&& after.concrete() is Split
                &&& Self::written(before, overrides, after.concrete_update().unwrap())
                &&& !Self::changes(before, overrides) ==> after.concrete() == self.concrete()
                &&& Self::changes(before, overrides) ==> {
                    &&& concrete::copy_of(
                        after.concrete_update().unwrap().routes(),
                        after.concrete()->Split_0.routes(),
                    )
                    &&& after.concrete()->Split_0.ready_slot().is_none()
                    &&& after.concrete()->Split_0.probing().is_none()
                    &&& after.concrete()->Split_0.attempts() == 0
                }
            },
        }
    }

    /// Takes one update of the profile.
    ///
    /// The routes and the dispatcher's table change together: after a
    /// success the routes are those of the update, condition by condition,
    /// and the dispatcher and its writer are as `dispatches` says of the
    /// update's overrides. Overrides that give no split are refused, and then
    /// nothing changes. Without a dispatcher that can split, the overrides
    /// are not looked at.
    pub fn apply(&mut self, profile: Routes<C>) -> (res: Result<(), InvalidSplit>)
        requires
            old(self).wf(),
            old(self).can_build(),
        ensures
            final(self).wf(),
            final(self).profiles() == old(self).profiles(),
            res == (if old(self).concrete_update().is_some() && profile.dst_overrides@.len() >= 2 {
                match concrete::split_defect(profile.dst_overrides@) {
                    Some(defect) => Err::<(), InvalidSplit>(defect),
                    None => Ok(()),
                }
            } else {
                Ok(())
            }),
            res is Err ==> {
                &&& final(self).requests() == old(self).requests()
                &&& final(self).concrete() == old(self).concrete()
                &&& final(self).concrete_update() == old(self).concrete_update()
            },
            res is Ok ==> {
                &&& final(self).follows(profile.dst_overrides@)
                &&& old(self).dispatches(profile.dst_overrides@, *final(self))
                &&& final(self).requests().target() == old(self).requests().target()
                &&& final(self).requests().maker() == old(self).requests().maker()
                &&& final(self).requests().default_proxy() == old(self).requests().default_proxy()
                &&& final(self).requests().routes().len() == profile.routes@.len()
                &&& forall|i: int|
                    0 <= i < profile.routes@.len() ==> {
                        &&& (#[trigger] final(self).requests().routes()[i]).0 == profile.routes@[i].0
                        &&& old(self).requests().builds(
                            profile.routes@[i].1,
                            final(self).requests().routes()[i].1,
                        )
                    }
            },
    {
        let Routes { routes, dst_overrides } = profile;
        let mut updater = self.concrete_update.take();
        match &mut updater {
            Some(update) => {
                let changed = if dst_overrides.len() == 0 {
                    update.set_forward()
                } else {
                    match update.set_split(dst_overrides) {
                        Ok(changed) => changed,
                        Err(defect) => {
                            self.concrete_update = updater;
                            return Err(defect);
                        },
                    }
                };
                if changed {
                    let table = update.table().duplicate();
                    match &mut self.concrete {
                        Concrete::Split(service) => {
                            service.update(table);
                        },
                        _ => {},
                    }
                }
            },
            None => {},
        }
        self.concrete_update = updater;
        self.requests.set_routes(routes);
        Ok(())
    }

    /// Takes the updates that came since the service was last asked for
    /// readiness, oldest first: the most recent is applied, as `apply` says,
    /// and the others are dropped. Without an update nothing changes.
    /// Returns whether an update was applied.
    pub fn poll_update(&mut self, updates: Vec<Routes<C>>) -> (res: Result<bool, InvalidSplit>)
        requires
            old(self).wf(),
            old(self).can_build(),
        ensures
            final(self).wf(),
            final(self).profiles() == old(self).profiles(),
            updates@.len() == 0 ==> {
                &&& res == Ok::<bool, InvalidSplit>(false)
                &&& final(self).requests() == old(self).requests()
                &&& final(self).concrete() == old(self).concrete()
                &&& final(self).concrete_update() == old(self).concrete_update()
            },
            updates@.len() > 0 ==> {
                let latest = updates@.last();
                &&& res == (if old(self).concrete_update().is_some() && latest.dst_overrides@.len()
                    >= 2 {
                    match concrete::split_defect(latest.dst_overrides@) {
                        Some(defect) => Err::<bool, InvalidSplit>(defect),
                        None => Ok(true),
                    }
                } else {
                    Ok(true)
                })
                &&& res is Err ==> {
                    &&& final(self).requests() == old(self).requests()
                    &&& final(self).concrete() == old(self).concrete()
                    &&& final(self).concrete_update() == old(self).concrete_update()
                }
                &&& res is Ok ==> {
                    &&& final(self).follows(latest.dst_overrides@)
                    &&& old(self).dispatches(latest.dst_overrides@, *final(self))
                    &&& final(self).requests().target() == old(self).requests().target()
                    &&& final(self).requests().maker() == old(self).requests().maker()
                    &&& final(self).requests().default_proxy() == old(self).requests().default_proxy()
                    &&& final(self).requests().routes().len() == latest.routes@.len()
                    &&& forall|i: int|
                        0 <= i < latest.routes@.len() ==> {
                            &&& (#[trigger] final(self).requests().routes()[i]).0
                                == latest.routes@[i].0
                            &&& old(self).requests().builds(
                                latest.routes@[i].1,
                                final(self).requests().routes()[i].1,
                            )
                        }
                }
            },
    {
        let mut updates = updates;
        match updates.pop() {
            None => Ok(false),
            Some(latest) => match self.apply(latest) {
                Ok(()) => Ok(true),
                Err(defect) => Err(defect),
            },
        }
    }
}

} // verus!
