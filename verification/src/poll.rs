//! The outcome of asking something whether it is done.

use vstd::prelude::*;

verus! {

/// Either a value that is ready, or the answer "not yet".
#[derive(Clone, Copy, Debug, PartialEq, Eq, Structural)]
pub enum Async<T> {
    Ready(T),
    NotReady,
}

/// What polling gives: a ready value, "not yet", or a failure.
pub type Poll<T, E> = Result<Async<T>, E>;

impl<T> Async<T> {
    pub fn is_ready(&self) -> (ready: bool)
        ensures
            ready == (*self is Ready),
    {
        match self {
            Async::Ready(_) => true,
            Async::NotReady => false,
        }
    }

    pub fn is_not_ready(&self) -> (waiting: bool)
        ensures
            waiting == (*self is NotReady),
    {
        !self.is_ready()
    }
}

} // verus!
