//! Services that are driven to readiness in the background.

use crate::stack::layer::Layer as StackLayer;
use vstd::prelude::*;

verus! {

#[derive(Clone, Copy, Debug)]
pub struct SpawnReadyLayer;

/// A maker whose services are driven to readiness by a task of their own.
#[derive(Clone, Copy, Debug)]
pub struct MakeSpawnReady<S> {
    pub inner: S,
}

impl SpawnReadyLayer {
    pub fn new() -> SpawnReadyLayer {
        SpawnReadyLayer
    }
}

impl<S> StackLayer<S> for SpawnReadyLayer {
    type Service = MakeSpawnReady<S>;

    open spec fn accepts(&self, inner: S) -> bool {
        true
    }

    open spec fn layers(&self, inner: S, outer: MakeSpawnReady<S>) -> bool {
        outer.inner == inner
    }

    fn layer(&self, inner: S) -> (outer: MakeSpawnReady<S>) {
        MakeSpawnReady { inner }
    }
}

} // verus!
