//! Attaching a classifier to each request.

use crate::classify;
use crate::proxy::http::Request;
use crate::stack::layer::Layer as StackLayer;
use crate::stack::new_service::NewService;
use crate::stack::proxy::Proxy as StackProxy;
use vstd::prelude::*;

verus! {

/// A target that says how the responses to its requests are classified.
pub trait CanClassify {
    open spec fn classifier(&self) -> classify::Request {
        arbitrary()
    }

    fn classify(&self) -> (policy: classify::Request)
        ensures
            policy == self.classifier(),
    ;
}

impl CanClassify for crate::dst::Route {
    open spec fn classifier(&self) -> classify::Request {
        classify::Request::Profile(self.route.spec_response_classes())
    }

    fn classify(&self) -> (policy: classify::Request) {
        crate::dst::Route::classify(self)
    }
}

impl CanClassify for crate::inbound::endpoint::Target {
    open spec fn classifier(&self) -> classify::Request {
        classify::Request::Default
    }

    fn classify(&self) -> (policy: classify::Request) {
        classify::Request::Default
    }
}

#[derive(Debug, Clone, Copy)]
pub struct Layer(pub ());

#[derive(Clone, Copy, Debug)]
pub struct NewProxy<N> {
    pub inner: N,
}

/// A proxy that attaches its target's classifier to each request.
#[derive(Clone, Debug)]
pub struct Proxy<P> {
    pub classify: classify::Request,
    pub inner: P,
}

impl Layer {
    pub fn new() -> Self {
        Layer(())
    }
}

impl<N> StackLayer<N> for Layer {
    type Service = NewProxy<N>;

    open spec fn accepts(&self, inner: N) -> bool {
        true
    }

    open spec fn layers(&self, inner: N, outer: NewProxy<N>) -> bool {
        outer.inner == inner
    }

    fn layer(&self, inner: N) -> (outer: NewProxy<N>) {
        NewProxy { inner }
    }
}

impl<T, N> NewService<T> for NewProxy<N> where T: CanClassify, N: NewService<T> {
    type Service = Proxy<N::Service>;

    open spec fn can_build(&self, target: T) -> bool {
        self.inner.can_build(target)
    }

    open spec fn builds(&self, target: T, service: Proxy<N::Service>) -> bool {
        service.classify == target.classifier() && self.inner.builds(target, service.inner)
    }

    fn new_service(&self, target: T) -> (service: Proxy<N::Service>) {
        let classify = target.classify();
        let inner = self.inner.new_service(target);
        Proxy { classify, inner }
    }
}

/// The request with the classifier for its response attached, and nothing
/// else changed.
pub open spec fn classified<B>(policy: classify::Request, grpc_request: bool, req: Request<B>) -> Request<
    B,
> {
    Request {
        extensions: crate::proxy::http::Extensions {
            classify: Some(policy.response(grpc_request)),
            ..req.extensions
        },
        ..req
    }
}

impl<P> Proxy<P> {
    /// Attaches to the request the classifier for its response, and passes
    /// the request on through the inner proxy. `grpc_request` says whether
    /// the request's content type is a gRPC one.
    pub fn proxy<B>(&self, grpc_request: bool, req: Request<B>) -> (out: P::Request) where
        P: StackProxy<Request<B>>,

        requires
            self.inner.can_proxy(classified(self.classify, grpc_request, req)),
        ensures
            self.inner.proxies(classified(self.classify, grpc_request, req), out),
    {
        let mut req = req;
        req.extensions.classify = Some(self.classify.classify(grpc_request));
        self.inner.proxy(req)
    }
}

} // verus!
