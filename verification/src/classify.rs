//! Response classification: whether a response counts as a success or as a
//! failure.
//!
//! A route's policy is a list of classes, each a condition on the response
//! and the verdict it gives; the first class whose condition holds decides.
//! Without a policy, or where no class matches, the status decides: a server
//! error is a failure. A gRPC status, in the headers or in the trailers,
//! decides for gRPC traffic: every code but zero is a failure.

use crate::sync::share;
use std::sync::Arc;
use vstd::prelude::*;
use vstd::string::*;

verus! {

/// The verdict on a response.
#[derive(Clone, Copy, Debug, PartialEq, Eq, Hash, Structural)]
pub enum SuccessOrFailure {
    Success,
    Failure,
}

/// The class of a response: the verdict and what it was taken from.
#[derive(Clone, Copy, Debug, PartialEq, Eq, Hash, Structural)]
pub enum Class {
    /// From the HTTP status, or from a class of the route's policy.
    Default(SuccessOrFailure),
    /// From a gRPC status code.
    Grpc(SuccessOrFailure, u32),
    /// The stream failed before it ended.
    Stream(SuccessOrFailure),
}

impl Class {
    pub open spec fn verdict(&self) -> SuccessOrFailure {
        match *self {
            Class::Default(v) => v,
            Class::Grpc(v, _) => v,
            Class::Stream(v) => v,
        }
    }

    pub fn is_failure(&self) -> (failure: bool)
        ensures
            failure == (self.verdict() == SuccessOrFailure::Failure),
    {
        match self {
            Class::Default(SuccessOrFailure::Failure) => true,
            Class::Grpc(SuccessOrFailure::Failure, _) => true,
            Class::Stream(SuccessOrFailure::Failure) => true,
            _ => false,
        }
    }
}

/// A condition on a response.
#[derive(Clone, Copy, Debug, PartialEq, Eq, Hash, Structural)]
pub enum ResponseMatch {
    /// The status lies in `min ..= max`.
    Status { min: u16, max: u16 },
    /// The status lies outside `min ..= max`.
    NotStatus { min: u16, max: u16 },
}

impl ResponseMatch {
    pub open spec fn matches(&self, status: u16) -> bool {
        match *self {
            ResponseMatch::Status { min, max } => min <= status <= max,
            ResponseMatch::NotStatus { min, max } => !(min <= status <= max),
        }
    }

    pub fn is_match(&self, status: u16) -> (matched: bool)
        ensures
            matched == self.matches(status),
    {
        match *self {
            ResponseMatch::Status { min, max } => min <= status && status <= max,
            ResponseMatch::NotStatus { min, max } => !(min <= status && status <= max),
        }
    }
}

/// One class of a route's policy.
#[derive(Clone, Copy, Debug, PartialEq, Eq, Hash, Structural)]
pub struct ResponseClass {
    pub is_failure: bool,
    pub condition: ResponseMatch,
}

impl ResponseClass {
    pub fn new(is_failure: bool, condition: ResponseMatch) -> (class: ResponseClass)
        ensures
            class.is_failure == is_failure,
            class.condition == condition,
    {
        ResponseClass { is_failure, condition }
    }

    /// The class that this policy entry gives to a response it matches.
    pub open spec fn class(&self) -> Class {
        Class::Default(
            if self.is_failure {
                SuccessOrFailure::Failure
            } else {
                SuccessOrFailure::Success
            },
        )
    }
}

/// The class that the status alone gives: a server error is a failure.
pub open spec fn status_class(status: u16) -> Class {
    Class::Default(
        if 500 <= status <= 599 {
            SuccessOrFailure::Failure
        } else {
            SuccessOrFailure::Success
        },
    )
}

/// The class that a gRPC status code gives, where there is a code.
pub open spec fn grpc_class(code: Option<u32>) -> Option<Class> {
    match code {
        Some(code) => Some(
            Class::Grpc(
                if code == 0 {
                    SuccessOrFailure::Success
                } else {
                    SuccessOrFailure::Failure
                },
                code,
            ),
        ),
        None => None,
    }
}

/// The class given by the first entry of the policy that matches, if any.
pub open spec fn profile_class(classes: Seq<ResponseClass>, status: u16) -> Option<Class>
    decreases classes.len(),
{
    if classes.len() == 0 {
        None
    } else if classes[0].condition.matches(status) {
        Some(classes[0].class())
    } else {
        profile_class(classes.subrange(1, classes.len() as int), status)
    }
}

fn status_class_of(status: u16) -> (class: Class)
    ensures
        class == status_class(status),
{
    if 500 <= status && status <= 599 {
        Class::Default(SuccessOrFailure::Failure)
    } else {
        Class::Default(SuccessOrFailure::Success)
    }
}

fn grpc_class_of(code: Option<u32>) -> (class: Option<Class>)
    ensures
        class == grpc_class(code),
{
    match code {
        Some(code) => if code == 0 {
            Some(Class::Grpc(SuccessOrFailure::Success, code))
        } else {
            Some(Class::Grpc(SuccessOrFailure::Failure, code))
        },
        None => None,
    }
}

fn match_class(classes: &Vec<ResponseClass>, status: u16) -> (class: Option<Class>)
    ensures
        class == profile_class(classes@, status),
{
    let mut i: usize = 0;
    assert(classes@.subrange(0, classes@.len() as int) =~= classes@);
    while i < classes.len()
        invariant
            i <= classes@.len(),
            profile_class(classes@, status) == profile_class(
                classes@.subrange(i as int, classes@.len() as int),
                status,
            ),
        decreases classes@.len() - i,
    {
        let ghost rest = classes@.subrange(i as int, classes@.len() as int);
        if classes[i].condition.is_match(status) {
            let found = if classes[i].is_failure {
                Class::Default(SuccessOrFailure::Failure)
            } else {
                Class::Default(SuccessOrFailure::Success)
            };
            assert(rest[0] == classes@[i as int]);
            return Some(found);
        }
        proof {
            assert(rest[0] == classes@[i as int]);
            assert(rest.subrange(1, rest.len() as int) =~= classes@.subrange(
                i + 1,
                classes@.len() as int,
            ));
        }
        i += 1;
    }
    None
}

/// Whether `text` begins with `prefix`.
pub open spec fn has_prefix(text: Seq<char>, prefix: Seq<char>) -> bool {
    text.len() >= prefix.len() && text.subrange(0, prefix.len() as int) == prefix
}

pub(crate) fn starts_with(text: &str, prefix: &str) -> (begins: bool)
    ensures
        begins == has_prefix(text@, prefix@),
{
    let n = prefix.unicode_len();
    if text.unicode_len() < n {
        return false;
    }
    let mut i: usize = 0;
    while i < n
        invariant
            n == prefix@.len(),
            n <= text@.len(),
            i <= n,
            forall|k: int| 0 <= k < i ==> text@[k] == prefix@[k],
        decreases n - i,
    {
        if text.get_char(i) != prefix.get_char(i) {
            proof {
                assert(text@.subrange(0, n as int)[i as int] != prefix@[i as int]);
            }
            return false;
        }
        i += 1;
    }
    proof {
        assert(text@.subrange(0, n as int) =~= prefix@);
    }
    true
}

/// Whether a request with this content type is a gRPC call: the content
/// type begins with `application/grpc`.
pub fn is_grpc(content_type: &str) -> (grpc: bool)
    ensures
        grpc == has_prefix(content_type@, "application/grpc"@),
{
    starts_with(content_type, "application/grpc")
}

/// How the responses to a request are to be classified.
#[derive(Clone, Debug)]
pub enum Request {
    /// By status, or by gRPC status where the request is a gRPC call.
    Default,
    /// By the route's policy.
    Profile(Arc<Vec<ResponseClass>>),
}

/// The classifier of one response, before the response is seen.
#[derive(Clone, Debug)]
pub enum Response {
    Default,
    Grpc,
    Profile(Arc<Vec<ResponseClass>>),
}

/// The classifier of one response after its head was seen: what is known
/// while the stream runs.
#[derive(Clone, Copy, Debug, PartialEq, Eq, Structural)]
pub enum Eos {
    /// The status decides at the end of the stream.
    Default(u16),
    /// The trailers' gRPC status decides, and the status where they have none.
    Grpc(u16),
    /// The class is settled already.
    Profile(Class),
}

impl Request {
    /// The response classifier that this policy gives for a request.
    pub open spec fn response(&self, grpc_request: bool) -> Response {
        match *self {
            Request::Profile(classes) => Response::Profile(classes),
            Request::Default => if grpc_request {
                Response::Grpc
            } else {
                Response::Default
            },
        }
    }

    /// Makes the classifier from a route's classes.
    pub fn from(classes: Arc<Vec<ResponseClass>>) -> (policy: Request)
        ensures
            policy == Request::Profile(classes),
    {
        Request::Profile(classes)
    }

    /// The classifier for the response to one request. `grpc_request` says
    /// whether the request's content type is a gRPC one.
    pub fn classify(&self, grpc_request: bool) -> (classifier: Response)
        ensures
            classifier == self.response(grpc_request),
    {
        match self {
            Request::Profile(classes) => Response::Profile(share(classes)),
            Request::Default => if grpc_request {
                Response::Grpc
            } else {
                Response::Default
            },
        }
    }
}

impl Response {
    /// What the head of the response settles.
    pub open spec fn started(&self, status: u16, grpc_status: Option<u32>) -> Eos {
        match *self {
            Response::Default => match grpc_class(grpc_status) {
                Some(class) => Eos::Profile(class),
                None => Eos::Default(status),
            },
            Response::Grpc => match grpc_class(grpc_status) {
                Some(class) => Eos::Profile(class),
                None => Eos::Grpc(status),
            },
            Response::Profile(classes) => match profile_class(classes@, status) {
                Some(class) => Eos::Profile(class),
                None => Eos::Default(status),
            },
        }
    }

    /// Takes the head of the response: its status and the gRPC status among
    /// its headers, if there is one.
    pub fn start(&self, status: u16, grpc_status: Option<u32>) -> (eos: Eos)
        ensures
            eos == self.started(status, grpc_status),
    {
        match self {
            Response::Default => match grpc_class_of(grpc_status) {
                Some(class) => Eos::Profile(class),
                None => Eos::Default(status),
            },
            Response::Grpc => match grpc_class_of(grpc_status) {
                Some(class) => Eos::Profile(class),
                None => Eos::Grpc(status),
            },
            Response::Profile(classes) => match match_class(classes, status) {
                Some(class) => Eos::Profile(class),
                None => Eos::Default(status),
            },
        }
    }

    /// The class of a response that never came: a failure.
    pub fn error(&self) -> (class: Class)
        ensures
            class == Class::Stream(SuccessOrFailure::Failure),
    {
        Class::Stream(SuccessOrFailure::Failure)
    }
}

impl Eos {
    /// The class at the end of the stream.
    pub open spec fn ended(&self, trailer_grpc_status: Option<u32>) -> Class {
        match *self {
            Eos::Default(status) => status_class(status),
            Eos::Grpc(status) => match grpc_class(trailer_grpc_status) {
                Some(class) => class,
                None => status_class(status),
            },
            Eos::Profile(class) => class,
        }
    }

    /// Takes the end of the stream: the gRPC status among the trailers, if
    /// there are trailers and they hold one.
    pub fn eos(&self, trailer_grpc_status: Option<u32>) -> (class: Class)
        ensures
            class == self.ended(trailer_grpc_status),
    {
        match *self {
            Eos::Default(status) => status_class_of(status),
            Eos::Grpc(status) => match grpc_class_of(trailer_grpc_status) {
                Some(class) => class,
                None => status_class_of(status),
            },
            Eos::Profile(class) => class,
        }
    }

    /// The class of a stream that failed before its end: a failure.
    pub fn error(&self) -> (class: Class)
        ensures
            class == Class::Stream(SuccessOrFailure::Failure),
    {
        Class::Stream(SuccessOrFailure::Failure)
    }
}

/// What a response is to a classifier: the status, the gRPC status among the
/// headers and the one among the trailers.
#[derive(Clone, Copy, Debug, PartialEq, Eq, Structural)]
pub struct ResponseInfo {
    pub status: u16,
    pub grpc_status: Option<u32>,
    pub trailer_grpc_status: Option<u32>,
}

/// The class that a policy gives to a whole response.
pub open spec fn class_of(policy: Request, grpc_request: bool, response: ResponseInfo) -> Class {
    policy.response(grpc_request).started(response.status, response.grpc_status).ended(
        response.trailer_grpc_status,
    )
}

/// Classifies a whole response at once.
pub fn classify_response(policy: &Request, grpc_request: bool, response: ResponseInfo) -> (class:
    Class)
    ensures
        class == class_of(*policy, grpc_request, response),
{
    policy.classify(grpc_request).start(response.status, response.grpc_status).eos(
        response.trailer_grpc_status,
    )
}

/// Classifying is repeatable: the class of a response depends on the policy,
/// on whether the request was a gRPC call and on the response, and on
/// nothing else. Two requests that agree in these, such as a request and its
/// clone, have their responses classified alike; and where no class of a
/// profile matches, the profile classifies as the default does for a request
/// that is no gRPC call.
pub proof fn lemma_classification_repeats(
    policy: Request,
    grpc_request: bool,
    first: ResponseInfo,
    second: ResponseInfo,
)
    requires
        first == second,
    ensures
        class_of(policy, grpc_request, first) == class_of(policy, grpc_request, second),
        Eos::Profile(class_of(policy, grpc_request, first)).ended(second.trailer_grpc_status)
            == class_of(policy, grpc_request, first),
{
}

} // verus!
