//! Retries: a route's proxy that may send a request again.
//!
//! A request has a clone made before it is sent, if its policy can make one.
//! When the first response is there the policy is asked once. If it says so,
//! the clone is sent, and that response is the answer whatever it is: a retry
//! is not retried. Without a policy, or without a clone, the first response
//! is the answer.

use crate::stack::layer::Layer as StackLayer;
use crate::stack::new_service::NewService;
use vstd::prelude::*;

verus! {

/// Says whether a request is sent again, and clones requests.
///
/// `retries(req, result, again)` relates a request and its result to what
/// `retry` may say: `Some` with the policy for the retry, or `None`.
/// `clones(req, copy)` relates a request to what `clone_request` may give.
pub trait Policy<Req, Rsp, E>: Sized {
    open spec fn retries(&self, req: &Req, result: Result<&Rsp, &E>, again: Option<Self>) -> bool {
        true
    }

    fn retry(&self, req: &Req, result: Result<&Rsp, &E>) -> (again: Option<Self>)
        ensures
            self.retries(req, result, again),
    ;

    open spec fn clones(&self, req: &Req, copy: Option<Req>) -> bool {
        true
    }

    fn clone_request(&self, req: &Req) -> (copy: Option<Req>)
        ensures
            self.clones(req, copy),
    ;
}

/// Makes the retry policy of a target, where the target has one.
pub trait NewPolicy<T> {
    type Policy;

    open spec fn policy_of(&self, target: &T, policy: Option<Self::Policy>) -> bool {
        true
    }

    fn new_policy(&self, target: &T) -> (policy: Option<Self::Policy>)
        ensures
            self.policy_of(target, policy),
    ;
}

#[derive(Clone, Debug)]
pub struct Layer<P> {
    pub new_policy: P,
}

#[derive(Clone, Debug)]
pub struct NewRetry<P, N> {
    pub new_policy: P,
    pub inner: N,
}

/// A proxy with the retry policy of its target, if the target has one.
#[derive(Clone, Debug)]
pub struct Retry<P, S> {
    pub policy: Option<P>,
    pub inner: S,
}

/// The answer to a request that may be retried, as far as it has come.
#[derive(Debug)]
pub struct ResponseFuture<Req, P> {
    pub request: Option<Req>,
    pub policy: Option<P>,
    pub retried: bool,
}

/// What is done with a response.
#[derive(Debug)]
pub enum Next<Req, Rsp, E> {
    /// It is the answer.
    Return(Result<Rsp, E>),
    /// It is dropped, and this request is sent in its place.
    Retry(Req),
}

impl<P> Layer<P> {
    pub fn new(new_policy: P) -> (layer: Self)
        ensures
            layer.new_policy == new_policy,
    {
        Layer { new_policy }
    }
}

impl<P: Clone, N> StackLayer<N> for Layer<P> {
    type Service = NewRetry<P, N>;

    open spec fn accepts(&self, inner: N) -> bool {
        true
    }

    open spec fn layers(&self, inner: N, outer: NewRetry<P, N>) -> bool {
        outer.inner == inner && cloned(self.new_policy, outer.new_policy)
    }

    fn layer(&self, inner: N) -> (outer: NewRetry<P, N>) {
        NewRetry { inner, new_policy: self.new_policy.clone() }
    }
}

impl<T, N, P> NewService<T> for NewRetry<P, N> where N: NewService<T>, P: NewPolicy<T> {
    type Service = Retry<P::Policy, N::Service>;

    open spec fn can_build(&self, target: T) -> bool {
        self.inner.can_build(target)
    }

    open spec fn builds(&self, target: T, service: Retry<P::Policy, N::Service>) -> bool {
        self.new_policy.policy_of(&target, service.policy) && self.inner.builds(target, service.inner)
    }

    fn new_service(&self, target: T) -> (service: Retry<P::Policy, N::Service>) {
        let policy = self.new_policy.new_policy(&target);
        let inner = self.inner.new_service(target);
        Retry { policy, inner }
    }
}

impl<P, S> Retry<P, S> {
    /// Begins the answer to a request: with a clone of the request and of
    /// the policy where there is a policy, and without where there is none.
    pub fn proxy<Req, Rsp, E>(&self, req: &Req) -> (future: ResponseFuture<Req, P>) where
        P: Policy<Req, Rsp, E> + Clone,

        ensures
            !future.retried,
            match self.policy {
                None => future.request.is_none() && future.policy.is_none(),
                Some(policy) => {
                    &&& future.policy.is_some()
                    &&& cloned(policy, future.policy.unwrap())
                    &&& policy.clones(req, future.request)
                },
            },
    {
        match &self.policy {
            None => ResponseFuture { request: None, policy: None, retried: false },
            Some(policy) => ResponseFuture {
                request: policy.clone_request(req),
                policy: Some(policy.clone()),
                retried: false,
            },
        }
    }
}

impl<Req, P> ResponseFuture<Req, P> {
    /// Whether the policy is asked about the next response: it is as long as
    /// there is a policy and a clone, and no retry was made.
    pub open spec fn may_retry(&self) -> bool {
        !self.retried && self.request.is_some() && self.policy.is_some()
    }

    /// A retry is ruled out because the request could not be cloned: there
    /// is a policy, and no clone, and no retry was made.
    pub open spec fn skipped(&self) -> bool {
        self.policy.is_some() && self.request.is_none() && !self.retried
    }

    /// Whether a retry is ruled out because the request could not be cloned.
    pub fn is_skipped(&self) -> (skipped: bool)
        ensures
            skipped == self.skipped(),
    {
        self.policy.is_some() && self.request.is_none() && !self.retried
    }

    /// Takes a response, or the failure that came in its place.
    ///
    /// Where the policy is not asked, the response is the answer. Else the
    /// policy decides: on its word the clone is sent in the response's
    /// place, once; without its word the response is the answer.
    pub fn response<Rsp, E>(&mut self, result: Result<Rsp, E>) -> (next: Next<Req, Rsp, E>) where
        P: Policy<Req, Rsp, E>,

        ensures
            final(self).policy == old(self).policy,
            !old(self).may_retry() ==> next == Next::<Req, Rsp, E>::Return(result) && *final(self)
                == *old(self),
            old(self).may_retry() ==> {
                ||| {
                    &&& next == Next::<Req, Rsp, E>::Retry(old(self).request.unwrap())
                    &&& exists|again: P| #[trigger]
                        old(self).policy.unwrap().retries(
                            &old(self).request.unwrap(),
                            as_refs(&result),
                            Some(again),
                        )
                    &&& final(self).retried
                    &&& final(self).request.is_none()
                }
                ||| {
                    &&& next == Next::<Req, Rsp, E>::Return(result)
                    &&& old(self).policy.unwrap().retries(
                        &old(self).request.unwrap(),
                        as_refs(&result),
                        None,
                    )
                    &&& *final(self) == *old(self)
                }
            },
            next is Retry ==> !final(self).may_retry(),
    {
        if self.retried {
            return Next::Return(result);
        }
        let again = match (&self.policy, &self.request) {
            (Some(policy), Some(request)) => {
                let refs = match &result {
                    Ok(rsp) => Ok(rsp),
                    Err(e) => Err(e),
                };
                assert(refs == as_refs(&result));
                policy.retry(request, refs)
            },
            _ => {
                return Next::Return(result);
            },
        };
        match again {
            None => Next::Return(result),
            Some(policy) => {
                proof {
                    assert(old(self).policy.unwrap().retries(
                        &old(self).request.unwrap(),
                        as_refs(&result),
                        Some(policy),
                    ));
                }
                match self.request.take() {
                    Some(request) => {
                        self.retried = true;
                        Next::Retry(request)
                    },
                    None => Next::Return(result),
                }
            },
        }
    }
}

/// A result seen by reference.
pub open spec fn as_refs<Rsp, E>(result: &Result<Rsp, E>) -> Result<&Rsp, &E> {
    match result {
        Ok(rsp) => Ok(rsp),
        Err(e) => Err(e),
    }
}

} // verus!
