use vstd::prelude::*;

verus! {

/// Builds a service for a target; the building cannot fail.
///
/// `can_build(target)` says for which targets `new_service` may be called,
/// and `builds(target, service)` relates a target to the services that it may
/// give.
pub trait NewService<T> {
    type Service;

    open spec fn can_build(&self, target: T) -> bool {
        true
    }

    open spec fn builds(&self, target: T, service: Self::Service) -> bool {
        true
    }

    fn new_service(&self, target: T) -> (service: Self::Service)
        requires
            self.can_build(target),
        ensures
            self.builds(target, service),
    ;
}

/// A `NewService` seen as a maker that is always ready.
#[derive(Clone, Debug, Default)]
pub struct MakeService<N>(pub N);

/// Wraps a `NewService` so that it can stand where a maker is asked for.
pub fn into_make_service<N>(new_service: N) -> (make: MakeService<N>)
    ensures
        make.0 == new_service,
{
    MakeService(new_service)
}

/// Useful when building proxy stacks: the unit builds the unit.
impl<T> NewService<T> for () {
    type Service = ();

    open spec fn can_build(&self, target: T) -> bool {
        true
    }

    open spec fn builds(&self, target: T, service: ()) -> bool {
        true
    }

    fn new_service(&self, _target: T) -> (service: ()) {
        ()
    }
}

impl<N> MakeService<N> {
    /// A `MakeService` is always ready.
    pub fn poll_ready(&self) -> (ready: bool)
        ensures
            ready,
    {
        true
    }

    /// Builds the service for `target` at once.
    pub fn call<T>(&self, target: T) -> (service: N::Service) where N: NewService<T>
        requires
            self.0.can_build(target),
        ensures
            self.0.builds(target, service),
    {
        self.0.new_service(target)
    }
}

/// A closure builds services.
impl<F, T, S> NewService<T> for F where F: Fn(T) -> S {
    type Service = S;

    open spec fn can_build(&self, target: T) -> bool {
        call_requires(*self, (target,))
    }

    open spec fn builds(&self, target: T, service: S) -> bool {
        call_ensures(*self, (target,), service)
    }

    fn new_service(&self, target: T) -> (service: S) {
        self(target)
    }
}

} // verus!
