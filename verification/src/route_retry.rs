//! The retry policy of a route: which responses are failures worth a retry,
//! and whether the route's budget has a retry left for them.

use crate::budget::{deposit, withdraw};
use crate::classify;
use crate::classify::ResponseInfo;
use crate::dst::Route;
use crate::http_metrics::RetryMetrics;
use crate::proxy::http::profiles::Retries;
use crate::retry::{NewPolicy, Policy};
use crate::sync::share;
use std::marker::PhantomData;
use std::sync::Arc;
use tower::retry::budget::Budget;
use vstd::prelude::*;

verus! {

pub use crate::dst::Retryability;

/// Clones requests, where they can be cloned.
///
/// `clones(req, copy)` relates a request to what `clone_request` may give:
/// `None` for a request that cannot be cloned.
pub trait CloneRequest<Req> {
    open spec fn clones(req: &Req, copy: Option<Req>) -> bool {
        true
    }

    fn clone_request(req: &Req) -> (copy: Option<Req>)
        ensures
            Self::clones(req, copy),
    ;
}

/// Makes the retry policies of routes.
#[derive(Debug)]
pub struct NewRetry<C> {
    pub clone_request: PhantomData<C>,
}

/// The retry policy of one route.
#[derive(Debug)]
pub struct Retry<C> {
    pub budget: Arc<Budget>,
    pub response_classes: Arc<Vec<classify::ResponseClass>>,
    pub clone_request: PhantomData<C>,
}

/// What is decided of a response: one that is no failure is not retried, and
/// a failure is retried where the budget gave a retry.
pub open spec fn decision(failure: bool, withdrawn: bool) -> Retryability {
    if !failure {
        Retryability::NotRetryable
    } else if withdrawn {
        Retryability::Retryable
    } else {
        Retryability::Exhausted
    }
}

/// Decides of a response, given whether it is a failure and, if it is, what
/// the budget answered.
pub fn decide(failure: bool, withdrawn: bool) -> (decided: Retryability)
    ensures
        decided == decision(failure, withdrawn),
{
    if !failure {
        Retryability::NotRetryable
    } else if withdrawn {
        Retryability::Retryable
    } else {
        Retryability::Exhausted
    }
}

/// How many of the responses are retried. Each response is given as whether
/// it is a failure and what the budget answered for it.
pub open spec fn retried(responses: Seq<(bool, bool)>) -> nat
    decreases responses.len(),
{
    if responses.len() == 0 {
        0
    } else {
        retried(responses.drop_last()) + (if decision(responses.last().0, responses.last().1)
            == Retryability::Retryable {
            1nat
        } else {
            0nat
        })
    }
}

/// How many of the responses the budget gave a retry for.
pub open spec fn withdrawn(responses: Seq<(bool, bool)>) -> nat
    decreases responses.len(),
{
    if responses.len() == 0 {
        0
    } else {
        withdrawn(responses.drop_last()) + (if responses.last().0 && responses.last().1 {
            1nat
        } else {
            0nat
        })
    }
}

/// Retries stay within the budget: over any run of responses, as many are
/// retried as are failures for which the budget gave a retry, and no more.
pub proof fn lemma_retries_within_budget(responses: Seq<(bool, bool)>)
    ensures
        retried(responses) == withdrawn(responses),
        retried(responses) <= responses.len(),
    decreases responses.len(),
{
    if responses.len() > 0 {
        lemma_retries_within_budget(responses.drop_last());
    }
}

/// The counts after a run of responses, each counted as it was decided.
pub open spec fn counted_run(start: RetryMetrics, responses: Seq<(bool, bool)>, now: u64) -> RetryMetrics
    decreases responses.len(),
{
    if responses.len() == 0 {
        start
    } else {
        counted_run(start, responses.drop_last(), now).counted(
            decision(responses.last().0, responses.last().1),
            now,
        )
    }
}

/// The count of retries follows the budget: over any run of responses that
/// the counter has room for, it grows by the number of failures for which
/// the budget gave a retry, and the count of those skipped for want of
/// budget by the number of the other failures at most.
pub proof fn lemma_counts_within_budget(start: RetryMetrics, responses: Seq<(bool, bool)>, now: u64)
    requires
        start.retryable + responses.len() <= u64::MAX,
    ensures
        counted_run(start, responses, now).retryable == start.retryable + withdrawn(responses),
        counted_run(start, responses, now).retryable == start.retryable + retried(responses),
        counted_run(start, responses, now).skipped_body == start.skipped_body,
    decreases responses.len(),
{
    lemma_retries_within_budget(responses);
    if responses.len() > 0 {
        lemma_retries_within_budget(responses.drop_last());
        lemma_counts_within_budget(start, responses.drop_last(), now);
    }
}

impl<C> NewRetry<C> {
    pub fn new() -> Self {
        NewRetry { clone_request: PhantomData }
    }
}

impl<C> Clone for NewRetry<C> {
    fn clone(&self) -> (copy: Self) {
        NewRetry { clone_request: PhantomData }
    }
}

impl<C> NewPolicy<Route> for NewRetry<C> {
    type Policy = Retry<C>;

    /// A route has a policy where its profile allows retries: then the
    /// policy has the route's budget and its classes.
    open spec fn policy_of(&self, route: &Route, policy: Option<Retry<C>>) -> bool {
        match route.route.spec_retries() {
            None => policy.is_none(),
            Some(retries) => {
                &&& policy.is_some()
                &&& policy.unwrap().budget == retries.spec_budget()
                &&& policy.unwrap().response_classes == route.route.spec_response_classes()
            },
        }
    }

    fn new_policy(&self, route: &Route) -> (policy: Option<Retry<C>>) {
        match route.route.retries() {
            None => None,
            Some(retries) => Some(
                Retry {
                    budget: share(retries.budget()),
                    response_classes: share(route.route.response_classes()),
                    clone_request: PhantomData,
                },
            ),
        }
    }
}

impl<C> Retry<C> {
    /// Whether a result is a failure worth a retry: a response that the
    /// route's classes, or the status where none matches, make a failure. A
    /// request that got no response at all is not retried.
    pub open spec fn retryable(&self, result: Option<ResponseInfo>) -> bool {
        match result {
            None => false,
            Some(response) => classify::class_of(
                classify::Request::Profile(self.response_classes),
                false,
                response,
            ).verdict() == classify::SuccessOrFailure::Failure,
        }
    }

    /// Whether a result is a failure worth a retry.
    pub fn is_retryable(&self, result: Option<ResponseInfo>) -> (retryable: bool)
        ensures
            retryable == self.retryable(result),
    {
        match result {
            None => false,
            Some(response) => {
                let policy = classify::Request::Profile(share(&self.response_classes));
                classify::classify_response(&policy, false, response).is_failure()
            },
        }
    }

    /// Says whether a request is sent again, given its result.
    ///
    /// What is no failure credits the budget and is not retried. A failure
    /// asks the budget for a retry, and is retried where the budget gives
    /// one; what the budget answers is its own matter.
    pub fn retry(&self, result: Option<ResponseInfo>) -> (decided: Retryability)
        ensures
            !self.retryable(result) ==> decided == Retryability::NotRetryable,
            self.retryable(result) ==> decided == Retryability::Retryable || decided
                == Retryability::Exhausted,
    {
        if !self.is_retryable(result) {
            deposit(&self.budget);
            return decide(false, false);
        }
        let withdrawn = withdraw(&self.budget);
        decide(true, withdrawn)
    }

    /// Decides as `retry` does, and counts what was decided, at `now`: a
    /// failure that is retried, or one that is not for want of budget.
    pub fn retry_counted(
        &self,
        result: Option<ResponseInfo>,
        metrics: &mut RetryMetrics,
        now: u64,
    ) -> (decided: Retryability)
        ensures
            !self.retryable(result) ==> decided == Retryability::NotRetryable,
            self.retryable(result) ==> decided == Retryability::Retryable || decided
                == Retryability::Exhausted,
            *final(metrics) == old(metrics).counted(decided, now),
    {
        let decided = self.retry(result);
        metrics.incr_retryable(decided, now);
        decided
    }

    pub fn duplicate(&self) -> (copy: Self)
        ensures
            copy.budget == self.budget,
            copy.response_classes == self.response_classes,
    {
        Retry {
            budget: share(&self.budget),
            response_classes: share(&self.response_classes),
            clone_request: PhantomData,
        }
    }
}

impl<C> Clone for Retry<C> {
    fn clone(&self) -> (copy: Self)
        ensures
            copy.budget == self.budget,
            copy.response_classes == self.response_classes,
    {
        self.duplicate()
    }
}

/// A response that a retry policy can look at.
pub trait HasResponseInfo {
    open spec fn response_info(&self) -> ResponseInfo {
        arbitrary()
    }

    fn info(&self) -> (info: ResponseInfo)
        ensures
            info == self.response_info(),
    ;
}

impl<C, Req, Rsp, E> Policy<Req, Rsp, E> for Retry<C> where C: CloneRequest<Req>, Rsp: HasResponseInfo {
    /// A retry is made only of a response that is a failure; what is no
    /// failure is never retried.
    open spec fn retries(&self, req: &Req, result: Result<&Rsp, &E>, again: Option<Self>) -> bool {
        let info = match result {
            Ok(rsp) => Some(rsp.response_info()),
            Err(_) => None,
        };
        &&& !self.retryable(info) ==> again.is_none()
        &&& again matches Some(policy) ==> policy.budget == self.budget && policy.response_classes
            == self.response_classes
    }

    fn retry(&self, req: &Req, result: Result<&Rsp, &E>) -> (again: Option<Self>) {
        let info = match result {
            Ok(rsp) => Some(rsp.info()),
            Err(_) => None,
        };
        match self.retry(info) {
            Retryability::Retryable => Some(self.duplicate()),
            _ => None,
        }
    }

    open spec fn clones(&self, req: &Req, copy: Option<Req>) -> bool {
        C::clones(req, copy)
    }

    fn clone_request(&self, req: &Req) -> (copy: Option<Req>) {
        C::clone_request(req)
    }
}

} // verus!
