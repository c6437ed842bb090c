//! Building stacks: a service or maker at the bottom, and layers pushed over
//! it one by one.

use crate::buffer;
use crate::cache;
use crate::concurrency_limit;
use crate::lock;
use crate::spawn_ready::{MakeSpawnReady, SpawnReadyLayer};
use crate::stack::layer::{Identity, Layer, Pair};
use crate::stack::make::Make;
use crate::stack::pending;
use crate::stack::per_make;
use crate::stack::ready;
use crate::timeout;
use vstd::prelude::*;

pub mod load_shed;

verus! {

/// A stack of layers, to be put over a service later.
#[derive(Clone, Copy, Debug)]
pub struct Layers<L>(pub L);

/// A service or maker with layers over it.
#[derive(Clone, Copy, Debug)]
pub struct Stack<S>(pub S);

#[derive(Clone, Copy, Debug)]
pub struct Proxies<P>(pub P);

/// No layers yet.
pub fn layers() -> (layers: Layers<Identity>) {
    Layers(Identity::new())
}

/// A stack with `inner` at the bottom and nothing over it.
pub fn stack<S>(inner: S) -> (stack: Stack<S>)
    ensures
        stack.0 == inner,
{
    Stack(inner)
}

impl<L> Layers<L> {
    /// Puts `outer` over the layers that are there.
    pub fn push<O>(self, outer: O) -> (layers: Layers<Pair<L, O>>)
        ensures
            layers.0.inner == self.0,
            layers.0.outer == outer,
    {
        Layers(Pair::new(self.0, outer))
    }

    pub fn push_pending(self) -> (layers: Layers<Pair<L, pending::Layer>>)
        ensures
            layers.0.inner == self.0,
    {
        self.push(pending::layer())
    }

    /// Buffers requests while the next layer has no room, up to `bound`.
    pub fn push_buffer(self, bound: usize) -> (layers: Layers<Pair<L, buffer::Layer>>)
        ensures
            layers.0.inner == self.0,
            layers.0.outer.capacity == bound,
    {
        self.push(buffer::Layer::new(bound))
    }

    pub fn push_spawn_ready(self) -> (layers: Layers<Pair<L, SpawnReadyLayer>>)
        ensures
            layers.0.inner == self.0,
    {
        self.push(SpawnReadyLayer::new())
    }

    pub fn push_lock(self) -> (layers: Layers<Pair<L, lock::Layer<lock::Poisoned>>>)
        ensures
            layers.0.inner == self.0,
    {
        self.push(lock::Layer::new())
    }

    pub fn push_concurrency_limit(self, max: usize) -> (layers: Layers<
        Pair<L, concurrency_limit::Layer>,
    >)
        ensures
            layers.0.inner == self.0,
            layers.0.outer.max == max,
    {
        self.push(concurrency_limit::Layer::new(max))
    }

    pub fn push_load_shed(self) -> (layers: Layers<Pair<L, load_shed::Layer>>)
        ensures
            layers.0.inner == self.0,
    {
        self.push(load_shed::Layer)
    }

    pub fn push_ready_timeout(self, timeout: u64) -> (layers: Layers<
        Pair<L, timeout::ready::Layer>,
    >)
        ensures
            layers.0.inner == self.0,
            layers.0.outer.timeout == timeout,
    {
        self.push(timeout::ready::Layer::new(timeout))
    }

    /// Puts over the layers one that applies `layer` to each service made.
    pub fn push_per_make<O: Clone>(self, layer: O) -> (layers: Layers<Pair<L, per_make::Layer<O>>>)
        ensures
            layers.0.inner == self.0,
            layers.0.outer.0 == layer,
    {
        self.push(per_make::layer(layer))
    }

    /// Applies these layers to each service made, in place of the maker.
    pub fn per_make(self) -> (layers: Layers<per_make::Layer<L>>)
        ensures
            layers.0.0 == self.0,
    {
        Layers(per_make::layer(self.0))
    }
}

impl<M, L: Layer<M>> Layer<M> for Layers<L> {
    type Service = L::Service;

    open spec fn accepts(&self, inner: M) -> bool {
        self.0.accepts(inner)
    }

    open spec fn layers(&self, inner: M, outer: L::Service) -> bool {
        self.0.layers(inner, outer)
    }

    fn layer(&self, inner: M) -> (outer: L::Service) {
        self.0.layer(inner)
    }
}

impl<S> Stack<S> {
    /// Puts `layer` over the stack.
    pub fn push<L: Layer<S>>(self, layer: L) -> (stack: Stack<L::Service>)
        requires
            layer.accepts(self.0),
        ensures
            layer.layers(self.0, stack.0),
    {
        Stack(layer.layer(self.0))
    }

    pub fn push_pending(self) -> (stack: Stack<pending::MakePending<S>>)
        ensures
            stack.0.inner == self.0,
    {
        self.push(pending::layer())
    }

    pub fn push_ready<Req>(self) -> (stack: Stack<ready::MakeReady<S, Req>>)
        ensures
            stack.0.inner == self.0,
    {
        self.push(ready::Layer::new())
    }

    pub fn push_lock(self) -> (stack: Stack<lock::Locked<S, lock::Poisoned>>)
        ensures
            stack.0.state == lock::State::<S, lock::Poisoned>::Service(self.0),
            !stack.0.lock.holds(),
    {
        self.push(lock::Layer::new())
    }

    /// Buffers requests while the next layer has no room, up to `bound`.
    /// The buffer starts empty: nothing is queued or under way, no token was
    /// given out, and the daemon does not wait yet.
    pub fn push_buffer(self, bound: usize) -> (stack: Stack<buffer::Buffered<S>>)
        ensures
            stack.0.service == self.0,
            stack.0.buffer.capacity() == bound,
            stack.0.queue.wf(),
            stack.0.queue.queue().len() == 0,
            stack.0.queue.dispatched() == 0,
            stack.0.queue.next_token() == 0,
            !stack.0.queue.pop_waits(),
    {
        self.push(buffer::Layer::new(bound))
    }

    pub fn push_spawn_ready(self) -> (stack: Stack<MakeSpawnReady<S>>)
        ensures
            stack.0.inner == self.0,
    {
        self.push(SpawnReadyLayer::new())
    }

    pub fn push_concurrency_limit(self, max: usize) -> (stack: Stack<concurrency_limit::Limited<S>>)
        ensures
            stack.0.service.inner() == self.0,
            !stack.0.service.has_permit(),
            stack.0.permits.max() == max,
            stack.0.permits.out() == 0,
    {
        self.push(concurrency_limit::Layer::new(max))
    }

    pub fn push_load_shed(self) -> (stack: Stack<load_shed::LoadShed<S>>)
        ensures
            stack.0.inner() == self.0,
            !stack.0.is_ready(),
    {
        self.push(load_shed::Layer)
    }

    pub fn push_timeout(self, timeout: u64) -> (stack: Stack<timeout::Timeout<S>>)
        ensures
            stack.0.inner == self.0,
            stack.0.timeout == timeout,
    {
        self.push(timeout::TimeoutLayer::new(timeout))
    }

    pub fn push_ready_timeout(self, timeout: u64) -> (stack: Stack<timeout::ready::TimeoutReady<S>>)
        ensures
            stack.0.inner == self.0,
            stack.0.timeout == timeout,
            stack.0.waiting_since.is_none(),
    {
        self.push(timeout::ready::Layer::new(timeout))
    }

    pub fn push_per_make<L: Clone>(self, layer: L) -> (stack: Stack<per_make::PerMake<L, S>>)
        ensures
            stack.0.make == self.0,
            cloned(layer, stack.0.layer),
    {
        self.push(per_make::layer(layer))
    }

    /// Puts an empty cache over the maker. Purging it from time to time is
    /// the caller's part.
    pub fn spawn_cache<T>(self, capacity: usize, max_idle_age: u64) -> (stack: Stack<
        cache::Service<T, S>,
    >) where S: Make<T>
        ensures
            stack.0.wf(),
            stack.0.maker() == self.0,
            stack.0.cache().entries().len() == 0,
            stack.0.cache().spec_capacity() == capacity,
            stack.0.cache().spec_max_idle_age() == max_idle_age,
    {
        Stack(cache::Service::new(self.0, capacity, max_idle_age))
    }

    /// States that this stack makes services for `T`-typed targets.
    pub fn makes<T>(self) -> (stack: Self) where S: Make<T>
        ensures
            stack == self,
    {
        self
    }

    /// States that this stack makes services for `T`-typed targets, and that
    /// the services can be cloned.
    pub fn makes_clone<T>(self) -> (stack: Self) where S: Make<T>, S::Service: Clone
        ensures
            stack == self,
    {
        self
    }

    pub fn into_inner(self) -> (inner: S)
        ensures
            inner == self.0,
    {
        self.0
    }
}

impl<T, S> Make<T> for Stack<S> where S: Make<T> {
    type Service = S::Service;

    open spec fn can_make(&self, t: T) -> bool {
        self.0.can_make(t)
    }

    open spec fn makes(&self, t: T, service: S::Service) -> bool {
        self.0.makes(t, service)
    }

    fn make(&self, t: T) -> (service: S::Service) {
        self.0.make(t)
    }
}

/// Pushing two layers one after the other and pushing their composition are
/// the same: each may be done where the other may, and each may give what the
/// other may give.
pub proof fn lemma_push_composes<S, A: Layer<S>, B: Layer<A::Service>>(
    inner: S,
    first: A,
    second: B,
    outer: B::Service,
)
    ensures
        (Pair { inner: first, outer: second }).accepts(inner) <==> first.accepts(inner) && (forall|
            mid: A::Service,
        | #[trigger] first.layers(inner, mid) ==> second.accepts(mid)),
        (Pair { inner: first, outer: second }).layers(inner, outer) <==> (exists|mid: A::Service| #[trigger]
            first.layers(inner, mid) && second.layers(mid, outer)),
        (Layers(Pair { inner: first, outer: second })).layers(inner, outer) <==> (exists|
            mid: A::Service,
        | #[trigger] first.layers(inner, mid) && second.layers(mid, outer)),
{
    let pair = Pair { inner: first, outer: second };
    if pair.layers(inner, outer) {
        let mid = choose|mid: A::Service| #[trigger]
            pair.inner.layers(inner, mid) && pair.outer.layers(mid, outer);
        assert(first.layers(inner, mid) && second.layers(mid, outer));
    }
    if exists|mid: A::Service| #[trigger] first.layers(inner, mid) && second.layers(mid, outer) {
        let mid = choose|mid: A::Service| #[trigger]
            first.layers(inner, mid) && second.layers(mid, outer);
        assert(pair.inner.layers(inner, mid) && pair.outer.layers(mid, outer));
    }
    assert(Layers(pair).layers(inner, outer) == pair.layers(inner, outer));
}

/// The layer that changes nothing is neutral: composed with a layer, under
/// it or over it, it gives what the layer alone gives.
pub proof fn lemma_identity_is_neutral<S, A: Layer<S>>(inner: S, layer: A, outer: A::Service)
    ensures
        (Pair { inner: Identity, outer: layer }).layers(inner, outer) <==> layer.layers(inner, outer),
        (Pair { inner: layer, outer: Identity }).layers(inner, outer) <==> layer.layers(inner, outer),
        (Pair { inner: Identity, outer: layer }).accepts(inner) <==> layer.accepts(inner),
        (Pair { inner: layer, outer: Identity }).accepts(inner) <==> layer.accepts(inner),
{
    let under = Pair { inner: Identity, outer: layer };
    let over = Pair { inner: layer, outer: Identity };
    if layer.layers(inner, outer) {
        assert(under.inner.layers(inner, inner) && under.outer.layers(inner, outer));
        assert(over.inner.layers(inner, outer) && over.outer.layers(outer, outer));
    }
    if under.layers(inner, outer) {
        let mid = choose|mid: S| #[trigger]
            under.inner.layers(inner, mid) && under.outer.layers(mid, outer);
        assert(mid == inner);
    }
    if over.layers(inner, outer) {
        let mid = choose|mid: A::Service| #[trigger]
            over.inner.layers(inner, mid) && over.outer.layers(mid, outer);
        assert(mid == outer);
    }
    if layer.accepts(inner) {
        assert forall|mid: S| #[trigger] Identity.layers(inner, mid) implies layer.accepts(mid) by {
            assert(mid == inner);
        }
    }
    if (Pair { inner: Identity, outer: layer }).accepts(inner) {
        assert(Identity.layers(inner, inner));
    }
}

} // verus!
