//! A route as a stack target: the profile's route with the destination it
//! belongs to.

use crate::addr::Addr;
use crate::classify;
use crate::metric_labels::Direction;
use crate::proxy::http::profiles;
use crate::sync::share;
use vstd::prelude::*;

verus! {

/// A route of a destination's profile.
#[derive(Clone, Debug)]
pub struct Route {
    pub target: Addr,
    pub route: profiles::Route,
    pub direction: Direction,
}

/// Whether a response may be tried again.
#[derive(Clone, Copy, Debug, PartialEq, Eq, Structural)]
pub enum Retryability {
    /// It failed, and the budget has no retry left.
    Exhausted,
    /// It is no failure.
    NotRetryable,
    /// It failed, and the budget gave a retry.
    Retryable,
}

impl Route {
    pub fn new(target: Addr, route: profiles::Route, direction: Direction) -> (dst: Route)
        ensures
            dst.target == target,
            dst.route == route,
            dst.direction == direction,
    {
        Route { target, route, direction }
    }

    /// The classifier for requests on this route: the route's classes decide.
    pub fn classify(&self) -> (policy: classify::Request)
        ensures
            policy == classify::Request::Profile(self.route.spec_response_classes()),
    {
        classify::Request::Profile(share(self.route.response_classes()))
    }

    /// The time that a request on this route may take, in milliseconds.
    pub fn timeout(&self) -> (timeout: Option<u64>)
        ensures
            timeout == self.route.spec_timeout(),
    {
        self.route.timeout()
    }

    /// The address that stands for this route in a log line.
    pub fn display(&self) -> (addr: &Addr)
        ensures
            *addr == self.target,
    {
        &self.target
    }

    pub fn duplicate(&self) -> (copy: Route)
        ensures
            copy == *self,
    {
        Route {
            target: self.target.duplicate(),
            route: self.route.duplicate(),
            direction: self.direction,
        }
    }
}

} // verus!
