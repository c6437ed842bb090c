use vstd::prelude::*;

verus! {

/// Transforms an inner service (or maker) into an outer one.
///
/// `layers(inner, outer)` is the relation between what goes in and what may
/// come out; `accepts(inner)` says on which inner values `layer` may be called.
pub trait Layer<S> {
    type Service;

    open spec fn accepts(&self, inner: S) -> bool {
        true
    }

    open spec fn layers(&self, inner: S, outer: Self::Service) -> bool {
        true
    }

    fn layer(&self, inner: S) -> (outer: Self::Service)
        requires
            self.accepts(inner),
        ensures
            self.layers(inner, outer),
    ;
}

/// A `Layer` made from a closure.
#[derive(Clone, Copy, Debug)]
pub struct LayerFn<F>(pub F);

/// Make a `Layer` from a closure.
pub fn mk<F>(f: F) -> (layer: LayerFn<F>)
    ensures
        layer.0 == f,
{
    LayerFn(f)
}

impl<F, S, Out> Layer<S> for LayerFn<F> where F: Fn(S) -> Out {
    type Service = Out;

    open spec fn accepts(&self, inner: S) -> bool {
        call_requires(self.0, (inner,))
    }

    open spec fn layers(&self, inner: S, outer: Out) -> bool {
        call_ensures(self.0, (inner,), outer)
    }

    fn layer(&self, inner: S) -> (outer: Out) {
        (self.0)(inner)
    }
}

/// More ways to use a layer.
pub trait LayerExt<S>: Layer<S> {
    /// Applies this layer to every service that a maker makes, in place of
    /// the maker itself.
    fn per_make(self) -> (layer: crate::stack::per_make::Layer<Self>) where Self: Clone + Sized
        ensures
            layer.0 == self,
    {
        crate::stack::per_make::layer(self)
    }
}

impl<L, S> LayerExt<S> for L where L: Layer<S> {

}

/// The layer that changes nothing.
#[derive(Clone, Copy, Debug)]
pub struct Identity;

impl Identity {
    pub fn new() -> (id: Identity) {
        Identity
    }
}

impl<S> Layer<S> for Identity {
    type Service = S;

    open spec fn accepts(&self, inner: S) -> bool {
        true
    }

    open spec fn layers(&self, inner: S, outer: S) -> bool {
        outer == inner
    }

    fn layer(&self, inner: S) -> (outer: S) {
        inner
    }
}

/// Two layers composed: `inner` is applied first, `outer` wraps its result.
#[derive(Clone, Copy, Debug)]
pub struct Pair<Inner, Outer> {
    pub inner: Inner,
    pub outer: Outer,
}

impl<Inner, Outer> Pair<Inner, Outer> {
    pub fn new(inner: Inner, outer: Outer) -> (pair: Self)
        ensures
            pair.inner == inner,
            pair.outer == outer,
    {
        Pair { inner, outer }
    }
}

impl<S, Inner, Outer> Layer<S> for Pair<Inner, Outer> where
    Inner: Layer<S>,
    Outer: Layer<Inner::Service>,
 {
    type Service = Outer::Service;

    open spec fn accepts(&self, inner: S) -> bool {
        &&& self.inner.accepts(inner)
        &&& forall|mid: Inner::Service| #[trigger]
            self.inner.layers(inner, mid) ==> self.outer.accepts(mid)
    }

    open spec fn layers(&self, inner: S, outer: Outer::Service) -> bool {
        exists|mid: Inner::Service| #[trigger]
            self.inner.layers(inner, mid) && self.outer.layers(mid, outer)
    }

    fn layer(&self, inner: S) -> (outer: Outer::Service) {
        let mid = self.inner.layer(inner);
        self.outer.layer(mid)
    }
}

} // verus!
