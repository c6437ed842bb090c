//! Retries of HTTP requests.
//!
//! A target says whether its requests may be retried. A request is retried
//! only if it can be cloned: the method, the target, the version and the
//! headers are copied, the body where it can be, and of the extensions the
//! connection and the handle-time tracker; every other extension is left
//! behind. A request that changed protocols between proxies is never cloned,
//! and so never retried.

use crate::proxy::http::{Extensions, Request, Response};
use crate::retry::Policy as RetryPolicy;
use crate::stack::layer::Layer as StackLayer;
use crate::stack::make::Make;
use vstd::prelude::*;

verus! {

/// A target that may have a retry policy.
pub trait CanRetry {
    type Retry;

    open spec fn retry_of(&self, retry: Option<Self::Retry>) -> bool {
        true
    }

    fn can_retry(&self) -> (retry: Option<Self::Retry>)
        ensures
            self.retry_of(retry),
    ;
}

/// Why a response is not retried.
#[derive(Clone, Copy, Debug, PartialEq, Eq, Structural)]
pub enum NoRetry {
    /// It is no failure.
    Success,
    /// The budget has no retry left.
    Budget,
}

/// What a target's policy says of a response.
pub trait Retry: Sized {
    open spec fn decides<B1, B2>(
        &self,
        req: &Request<B1>,
        res: &Response<B2>,
        decision: Result<(), NoRetry>,
    ) -> bool {
        true
    }

    fn retry<B1, B2>(&self, req: &Request<B1>, res: &Response<B2>) -> (decision: Result<(), NoRetry>)
        ensures
            self.decides(req, res, decision),
    ;
}

/// Values that can be cloned at times.
///
/// `try_clones(copy)` relates a value to what `try_clone` may give.
pub trait TryClone: Sized {
    open spec fn try_clones(&self, copy: Option<Self>) -> bool {
        true
    }

    fn try_clone(&self) -> (copy: Option<Self>)
        ensures
            self.try_clones(copy),
    ;
}

/// Counts the retries that were skipped.
pub trait Stats {
    fn incr_retry_skipped_budget(&self);
}

/// Gives the stats under which a target is counted.
pub trait Scoped<T> {
    type Scope;

    fn scoped(&self, target: T) -> Self::Scope;
}

#[derive(Clone, Debug)]
pub struct Layer<R> {
    pub registry: R,
}

#[derive(Clone, Debug)]
pub struct Stack<M, R> {
    pub registry: R,
    pub inner: M,
}

/// A maker's service on its way out, with the policy that goes with it.
#[derive(Debug)]
pub struct MakeFuture<F, R> {
    pub inner: F,
    pub policy: Option<R>,
}

/// A service with or without retries.
#[derive(Debug)]
pub enum Service<R, S> {
    Inner(S),
    Retry(R, S),
}

/// A target's retry policy with the stats that it counts under.
#[derive(Clone, Debug)]
pub struct Policy<R, S>(pub R, pub S);

pub fn layer<R>(registry: R) -> (layer: Layer<R>)
    ensures
        layer.registry == registry,
{
    Layer { registry }
}

impl<M, R: Clone> StackLayer<M> for Layer<R> {
    type Service = Stack<M, R>;

    open spec fn accepts(&self, inner: M) -> bool {
        true
    }

    open spec fn layers(&self, inner: M, outer: Stack<M, R>) -> bool {
        outer.inner == inner && cloned(self.registry, outer.registry)
    }

    fn layer(&self, inner: M) -> (outer: Stack<M, R>) {
        Stack { inner, registry: self.registry.clone() }
    }
}

impl<T, M, R> Make<T> for Stack<M, R> where T: CanRetry + Clone, M: Make<T>, R: Scoped<T> {
    type Service = Service<Policy<T::Retry, R::Scope>, M::Service>;

    open spec fn can_make(&self, target: T) -> bool {
        self.inner.can_make(target)
    }

    /// A target with a retry policy has a service with retries, under that
    /// policy; another has the inner service as it is.
    open spec fn makes(
        &self,
        target: T,
        service: Service<Policy<T::Retry, R::Scope>, M::Service>,
    ) -> bool {
        match service {
            Service::Inner(inner) => target.retry_of(None) && self.inner.makes(target, inner),
            Service::Retry(policy, inner) => target.retry_of(Some(policy.0)) && self.inner.makes(
                target,
                inner,
            ),
        }
    }

    fn make(&self, target: T) -> (service: Service<Policy<T::Retry, R::Scope>, M::Service>) {
        match target.can_retry() {
            Some(retries) => {
                let policy = Policy(retries, self.registry.scoped(target.clone()));
                Service::Retry(policy, self.inner.make(target))
            },
            None => Service::Inner(self.inner.make(target)),
        }
    }
}

impl<M, R> Stack<M, R> {
    /// Begins the making of a service for `target`: the policy is settled
    /// now, and goes with what the inner making gives.
    pub fn call<T, F>(&self, target: &T, inner: F) -> (future: MakeFuture<
        F,
        Policy<T::Retry, R::Scope>,
    >) where T: CanRetry + Clone, R: Scoped<T>
        ensures
            future.inner == inner,
            match future.policy {
                None => target.retry_of(None),
                Some(policy) => target.retry_of(Some(policy.0)),
            },
    {
        let policy = match target.can_retry() {
            Some(retries) => Some(Policy(retries, self.registry.scoped(target.clone()))),
            None => None,
        };
        MakeFuture { inner, policy }
    }
}

impl<F, R> MakeFuture<F, R> {
    /// Takes the service that the inner making gave: it gets retries where
    /// there is a policy. The policy goes out once.
    pub fn made<S>(&mut self, inner: S) -> (service: Service<R, S>)
        ensures
            final(self).inner == old(self).inner,
            final(self).policy.is_none(),
            service == (match old(self).policy {
                None => Service::<R, S>::Inner(inner),
                Some(policy) => Service::Retry(policy, inner),
            }),
    {
        match self.policy.take() {
            None => Service::Inner(inner),
            Some(policy) => Service::Retry(policy, inner),
        }
    }
}

impl<R, S> Service<R, S> {
    /// The inner service.
    pub fn inner(&self) -> (inner: &S)
        ensures
            *inner == (match *self {
                Service::Inner(s) => s,
                Service::Retry(_, s) => s,
            }),
    {
        match self {
            Service::Inner(s) => s,
            Service::Retry(_, s) => s,
        }
    }

    /// Begins the answer to a request: without retries where the service
    /// has no policy, and else with a clone of the policy and, if the policy
    /// can make one, a clone of the request to send again.
    pub fn proxy<Req, Rsp, E>(&self, req: &Req) -> (future: crate::retry::ResponseFuture<
        Req,
        R,
    >) where R: RetryPolicy<Req, Rsp, E> + Clone
        ensures
            !future.retried,
            match *self {
                Service::Inner(_) => future.request.is_none() && future.policy.is_none(),
                Service::Retry(policy, _) => {
                    &&& future.policy.is_some()
                    &&& cloned(policy, future.policy.unwrap())
                    &&& policy.clones(req, future.request)
                },
            },
    {
        match self {
            Service::Inner(_) => crate::retry::ResponseFuture {
                request: None,
                policy: None,
                retried: false,
            },
            Service::Retry(policy, _) => crate::retry::ResponseFuture {
                request: policy.clone_request(req),
                policy: Some(policy.clone()),
                retried: false,
            },
        }
    }
}

/// What a policy with stats says of a response.
#[derive(Clone, Copy, Debug, PartialEq, Eq, Structural)]
pub enum Decision {
    /// The request is sent again.
    Retry,
    /// It is not: the response is no failure, or there is no response.
    NoRetry,
    /// It is not, for want of budget; this was counted.
    SkippedBudget,
}

impl<R, S> Policy<R, S> where R: Retry + Clone, S: Stats + Clone {
    /// Says whether a request is sent again, given its result. A request
    /// that failed without a response is not retried. A retry that the
    /// budget refuses is counted as skipped.
    pub fn retry<A, B, E>(&self, req: &Request<A>, result: Result<&Response<B>, &E>) -> (decision:
        Decision)
        ensures
            match result {
                Err(_) => decision == Decision::NoRetry,
                Ok(res) => match decision {
                    Decision::Retry => self.0.decides(req, res, Ok(())),
                    Decision::NoRetry => self.0.decides(req, res, Err(NoRetry::Success)),
                    Decision::SkippedBudget => self.0.decides(req, res, Err(NoRetry::Budget)),
                },
            },
    {
        match result {
            Ok(res) => match self.0.retry(req, res) {
                Ok(unit) => {
                    assert(unit == ());
                    Decision::Retry
                },
                Err(NoRetry::Budget) => {
                    self.1.incr_retry_skipped_budget();
                    Decision::SkippedBudget
                },
                Err(NoRetry::Success) => Decision::NoRetry,
            },
            Err(_) => Decision::NoRetry,
        }
    }

    /// A clone of the request to send again, where the request can be
    /// cloned.
    pub fn clone_request<A: TryClone>(&self, req: &Request<A>) -> (copy: Option<Request<A>>)
        ensures
            req.try_clones(copy),
    {
        req.try_clone()
    }
}

impl<R, S, A, B, E> RetryPolicy<Request<A>, Response<B>, E> for Policy<R, S> where
    R: Retry + Clone,
    S: Stats + Clone,
    A: TryClone,
 {
    /// The request is sent again exactly where the target's policy said so
    /// of a response: then the policy goes on as a clone of this one. It is
    /// not sent again where there is no response, or where the target's
    /// policy refused, for either reason.
    open spec fn retries(
        &self,
        req: &Request<A>,
        result: Result<&Response<B>, &E>,
        again: Option<Self>,
    ) -> bool {
        match again {
            Some(policy) => {
                &&& result is Ok
                &&& self.0.decides(req, result->Ok_0, Ok(()))
                &&& cloned(self.0, policy.0)
                &&& cloned(self.1, policy.1)
            },
            None => match result {
                Err(_) => true,
                Ok(res) => self.0.decides(req, res, Err(NoRetry::Success)) || self.0.decides(
                    req,
                    res,
                    Err(NoRetry::Budget),
                ),
            },
        }
    }

    fn retry(&self, req: &Request<A>, result: Result<&Response<B>, &E>) -> (again: Option<Self>) {
        match Policy::retry(self, req, result) {
            Decision::Retry => Some(Policy(self.0.clone(), self.1.clone())),
            _ => None,
        }
    }

    open spec fn clones(&self, req: &Request<A>, copy: Option<Request<A>>) -> bool {
        req.try_clones(copy)
    }

    fn clone_request(&self, req: &Request<A>) -> (copy: Option<Request<A>>) {
        req.try_clone()
    }
}

/// Whether `copy` is `text` again.
pub open spec fn same_headers(headers: Seq<(String, String)>, copy: Seq<(String, String)>) -> bool {
    &&& copy.len() == headers.len()
    &&& forall|i: int|
        0 <= i < headers.len() ==> (#[trigger] copy[i]).0@ == headers[i].0@ && copy[i].1@
            == headers[i].1@
}

/// The extensions that a clone keeps: the connection and the handle-time
/// tracker. All others are left behind.
pub open spec fn kept_extensions(extensions: Extensions, copy: Extensions) -> bool {
    &&& copy.accepted == extensions.accepted
    &&& copy.handle_time == extensions.handle_time
    &&& copy.route.is_none()
    &&& copy.classify.is_none()
    &&& copy.canonical_dst.is_none()
    &&& copy.orig_proto.is_none()
}

impl<B: TryClone> TryClone for Request<B> {
    /// A request can be cloned where its body can, unless it changed
    /// protocols between proxies. The clone has the same method, target,
    /// version and headers, a clone of the body, and of the extensions those
    /// that a clone keeps.
    open spec fn try_clones(&self, copy: Option<Self>) -> bool {
        match copy {
            None => self.extensions.orig_proto.is_some() || self.body.try_clones(None),
            Some(clone) => {
                &&& self.extensions.orig_proto.is_none()
                &&& self.body.try_clones(Some(clone.body))
                &&& clone.method@ == self.method@
                &&& clone.uri@ == self.uri@
                &&& clone.version == self.version
                &&& same_headers(self.headers@, clone.headers@)
                &&& kept_extensions(self.extensions, clone.extensions)
            },
        }
    }

    fn try_clone(&self) -> (copy: Option<Self>) {
        if self.extensions.orig_proto.is_some() {
            return None;
        }
        match self.body.try_clone() {
            None => None,
            Some(body) => {
                let mut headers: Vec<(String, String)> = Vec::new();
                let mut i: usize = 0;
                while i < self.headers.len()
                    invariant
                        i <= self.headers@.len(),
                        headers@.len() == i,
                        forall|k: int|
                            0 <= k < i ==> (#[trigger] headers@[k]).0@ == self.headers@[k].0@
                                && headers@[k].1@ == self.headers@[k].1@,
                    decreases self.headers@.len() - i,
                {
                    headers.push((self.headers[i].0.clone(), self.headers[i].1.clone()));
                    i += 1;
                }
                let accepted = match &self.extensions.accepted {
                    Some(meta) => Some(meta.duplicate()),
                    None => None,
                };
                let extensions = Extensions {
                    accepted,
                    handle_time: self.extensions.handle_time,
                    route: None,
                    classify: None,
                    canonical_dst: None,
                    orig_proto: None,
                };
                Some(
                    Request {
                        method: self.method.clone(),
                        uri: self.uri.clone(),
                        version: self.version,
                        headers,
                        extensions,
                        body,
                    },
                )
            },
        }
    }
}

} // verus!
