use vstd::prelude::*;

verus! {

/// A maker: produces a service for a target without waiting.
///
/// `can_make(target)` says for which targets `make` may be called, and
/// `makes(target, service)` relates a target to the services that `make` may
/// hand out for it.
pub trait Make<T> {
    type Service;

    open spec fn can_make(&self, target: T) -> bool {
        true
    }

    open spec fn makes(&self, target: T, service: Self::Service) -> bool {
        true
    }

    fn make(&self, target: T) -> (service: Self::Service)
        requires
            self.can_make(target),
        ensures
            self.makes(target, service),
    ;
}

/// A closure is a maker.
impl<T, S, F> Make<T> for F where F: Fn(T) -> S {
    type Service = S;

    open spec fn can_make(&self, target: T) -> bool {
        call_requires(*self, (target,))
    }

    open spec fn makes(&self, target: T, service: S) -> bool {
        call_ensures(*self, (target,), service)
    }

    fn make(&self, target: T) -> (service: S) {
        self(target)
    }
}

} // verus!
