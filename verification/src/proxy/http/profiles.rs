//! Per-destination profiles: routes and weighted traffic splits.

use crate::addr::{Addr, NameAddr};
use crate::classify::ResponseClass;
use crate::sync::share;
use std::sync::Arc;
use tower::retry::budget::Budget;
use vstd::prelude::*;

pub mod concrete;
pub mod recognize;
pub mod requests;
pub mod service;

verus! {

/// A concrete destination and its share of the traffic.
#[derive(Clone, Debug)]
pub struct WeightedAddr {
    pub addr: NameAddr,
    pub weight: u32,
}

impl WeightedAddr {
    pub fn new(addr: NameAddr, weight: u32) -> (weighted: WeightedAddr)
        ensures
            weighted.addr == addr,
            weighted.weight == weight,
    {
        WeightedAddr { addr, weight }
    }
}

/// A target whose address can be replaced by a concrete destination's.
///
/// `readdressed(addr, out)` relates the target and the new address to the
/// targets that `with_addr` may give.
pub trait WithAddr: Sized {
    open spec fn readdressed(&self, addr: NameAddr, out: Self) -> bool {
        true
    }

    fn with_addr(&self, addr: NameAddr) -> (out: Self)
        ensures
            self.readdressed(addr, out),
    ;
}

/// A route's retry policy: the budget that its retries are drawn from.
#[derive(Clone, Debug)]
pub struct Retries {
    budget: Arc<Budget>,
}

impl Retries {
    pub closed spec fn spec_budget(&self) -> Arc<Budget> {
        self.budget
    }

    pub fn new(budget: Arc<Budget>) -> (retries: Retries)
        ensures
            retries.spec_budget() == budget,
    {
        Retries { budget }
    }

    pub fn budget(&self) -> (budget: &Arc<Budget>)
        ensures
            *budget == self.spec_budget(),
    {
        &self.budget
    }

    pub fn duplicate(&self) -> (copy: Retries)
        ensures
            copy == *self,
    {
        Retries { budget: share(&self.budget) }
    }
}

/// What a profile says of the requests that match one of its conditions: how
/// their responses are classified, how long they may take, whether they may
/// be retried, and the labels their metrics carry.
#[derive(Clone, Debug)]
pub struct Route {
    labels: Arc<Vec<(String, String)>>,
    response_classes: Arc<Vec<ResponseClass>>,
    retries: Option<Retries>,
    timeout: Option<u64>,
}

impl Route {
    pub closed spec fn spec_labels(&self) -> Arc<Vec<(String, String)>> {
        self.labels
    }

    pub closed spec fn spec_response_classes(&self) -> Arc<Vec<ResponseClass>> {
        self.response_classes
    }

    pub closed spec fn spec_retries(&self) -> Option<Retries> {
        self.retries
    }

    pub closed spec fn spec_timeout(&self) -> Option<u64> {
        self.timeout
    }

    /// A route with the given labels and classes, without retries and
    /// without a timeout.
    pub fn new(labels: Vec<(String, String)>, response_classes: Vec<ResponseClass>) -> (route: Route)
        ensures
            *route.spec_labels() == labels,
            *route.spec_response_classes() == response_classes,
            route.spec_retries().is_none(),
            route.spec_timeout().is_none(),
    {
        Route {
            labels: Arc::new(labels),
            response_classes: Arc::new(response_classes),
            retries: None,
            timeout: None,
        }
    }

    /// The route for requests that match no condition: no labels, no
    /// classes, no retries, no timeout.
    pub fn empty() -> (route: Route)
        ensures
            route.spec_labels()@.len() == 0,
            route.spec_response_classes()@.len() == 0,
            route.spec_retries().is_none(),
            route.spec_timeout().is_none(),
    {
        Route::new(Vec::new(), Vec::new())
    }

    pub fn labels(&self) -> (labels: &Arc<Vec<(String, String)>>)
        ensures
            *labels == self.spec_labels(),
    {
        &self.labels
    }

    pub fn response_classes(&self) -> (classes: &Arc<Vec<ResponseClass>>)
        ensures
            *classes == self.spec_response_classes(),
    {
        &self.response_classes
    }

    pub fn retries(&self) -> (retries: Option<&Retries>)
        ensures
            retries.is_some() == self.spec_retries().is_some(),
            retries.is_some() ==> *retries.unwrap() == self.spec_retries().unwrap(),
    {
        self.retries.as_ref()
    }

    /// The time that a request on this route may take, in milliseconds.
    pub fn timeout(&self) -> (timeout: Option<u64>)
        ensures
            timeout == self.spec_timeout(),
    {
        self.timeout
    }

    /// Allows retries, drawn from `budget`.
    pub fn set_retries(&mut self, budget: Arc<Budget>)
        ensures
            final(self).spec_retries() == Some(Retries::new_spec(budget)),
            final(self).spec_labels() == old(self).spec_labels(),
            final(self).spec_response_classes() == old(self).spec_response_classes(),
            final(self).spec_timeout() == old(self).spec_timeout(),
    {
        self.retries = Some(Retries { budget });
    }

    /// Limits the time of a request on this route, in milliseconds.
    pub fn set_timeout(&mut self, timeout: u64)
        ensures
            final(self).spec_timeout() == Some(timeout),
            final(self).spec_labels() == old(self).spec_labels(),
            final(self).spec_response_classes() == old(self).spec_response_classes(),
            final(self).spec_retries() == old(self).spec_retries(),
    {
        self.timeout = Some(timeout);
    }

    /// A copy that shares the labels, the classes and the budget.
    pub fn duplicate(&self) -> (copy: Route)
        ensures
            copy == *self,
    {
        Route {
            labels: share(&self.labels),
            response_classes: share(&self.response_classes),
            retries: match &self.retries {
                Some(retries) => Some(retries.duplicate()),
                None => None,
            },
            timeout: self.timeout,
        }
    }
}

impl Retries {
    pub closed spec fn new_spec(budget: Arc<Budget>) -> Retries {
        Retries { budget }
    }
}

/// One update of a profile: the routes by condition, in the order in which
/// they are tried, and the weighted destinations that override the logical
/// one, if any.
#[derive(Debug)]
pub struct Routes<C> {
    pub routes: Vec<(C, Route)>,
    pub dst_overrides: Vec<WeightedAddr>,
}

/// A target that can be combined with a route.
///
/// `routed(route, out)` relates the target and the route to the values that
/// `with_route` may give.
pub trait WithRoute {
    type Output;

    open spec fn routed(&self, route: Route, out: Self::Output) -> bool {
        true
    }

    fn with_route(&self, route: Route) -> (out: Self::Output)
        ensures
            self.routed(route, out),
    ;
}

/// A target that may name the destination whose profile applies to it.
pub trait CanGetDestination {
    open spec fn destination(&self) -> Option<Addr> {
        arbitrary()
    }

    fn get_destination(&self) -> (dst: Option<Addr>)
        ensures
            dst == self.destination(),
    ;
}

/// A source of profiles: for a destination, the stream of its updates, where
/// there is one.
///
/// `gives(dst, stream)` relates a destination to what the source may answer
/// for it.
pub trait GetRoutes {
    type Stream;

    open spec fn gives(&self, dst: Addr, stream: Option<Self::Stream>) -> bool {
        true
    }

    fn get_routes(&self, dst: &Addr) -> (stream: Option<Self::Stream>)
        ensures
            self.gives(*dst, stream),
    ;
}

} // verus!
