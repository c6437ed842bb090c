//! Proxies: what stands between a request and the service that answers it.
//!
//! A proxy takes a request and says what the inner service is asked in its
//! place. A route picks the proxy of each request.

use vstd::prelude::*;

verus! {

/// Turns a request into what the inner service is asked.
///
/// `can_proxy(req)` says for which requests `proxy` may be called, and
/// `proxies(req, out)` relates a request to what may be asked in its place.
pub trait Proxy<Req> {
    type Request;

    open spec fn can_proxy(&self, req: Req) -> bool {
        true
    }

    open spec fn proxies(&self, req: Req, out: Self::Request) -> bool {
        true
    }

    fn proxy(&self, req: Req) -> (out: Self::Request)
        requires
            self.can_proxy(req),
        ensures
            self.proxies(req, out),
    ;
}

/// Picks the proxy of each request.
pub trait Route<Req> {
    type Proxy: Proxy<Req>;

    open spec fn routes(&self, req: &Req, proxy: Self::Proxy) -> bool {
        true
    }

    fn route(&self, req: &Req) -> (proxy: Self::Proxy)
        ensures
            self.routes(req, proxy),
    ;
}

/// A proxy over the service that it asks.
#[derive(Clone, Copy, Debug)]
pub struct Service<P, S> {
    pub proxy: P,
    pub inner: S,
}

/// A route seen as a proxy: each request goes through the proxy that the
/// route picks for it.
#[derive(Clone, Copy, Debug)]
pub struct RouteProxy<R>(pub R);

/// Puts a proxy over a service.
pub fn into_service<P, S>(proxy: P, inner: S) -> (service: Service<P, S>)
    ensures
        service.proxy == proxy,
        service.inner == inner,
{
    Service { proxy, inner }
}

/// Sees a route as a proxy.
pub fn into_proxy<R>(route: R) -> (proxy: RouteProxy<R>)
    ensures
        proxy.0 == route,
{
    RouteProxy(route)
}

/// The unit is the proxy that changes nothing.
impl<Req> Proxy<Req> for () {
    type Request = Req;

    open spec fn can_proxy(&self, req: Req) -> bool {
        true
    }

    open spec fn proxies(&self, req: Req, out: Req) -> bool {
        out == req
    }

    fn proxy(&self, req: Req) -> (out: Req) {
        req
    }
}

impl<Req, R> Proxy<Req> for RouteProxy<R> where R: Route<Req> {
    type Request = <R::Proxy as Proxy<Req>>::Request;

    open spec fn can_proxy(&self, req: Req) -> bool {
        forall|proxy: R::Proxy| #[trigger] self.0.routes(&req, proxy) ==> proxy.can_proxy(req)
    }

    open spec fn proxies(&self, req: Req, out: <R::Proxy as Proxy<Req>>::Request) -> bool {
        exists|proxy: R::Proxy| #[trigger] self.0.routes(&req, proxy) && proxy.proxies(req, out)
    }

    fn proxy(&self, req: Req) -> (out: <R::Proxy as Proxy<Req>>::Request) {
        let proxy = self.0.route(&req);
        let out = proxy.proxy(req);
        proof {
            assert(self.0.routes(&req, proxy) && proxy.proxies(req, out));
        }
        out
    }
}

impl<P, S> Service<P, S> {
    pub fn proxy(&self) -> (proxy: &P)
        ensures
            *proxy == self.proxy,
    {
        &self.proxy
    }

    pub fn proxy_mut(&mut self) -> (proxy: &mut P)
        ensures
            *proxy == old(self).proxy,
            final(self).proxy == *final(proxy),
            final(self).inner == old(self).inner,
    {
        &mut self.proxy
    }

    pub fn inner(&self) -> (inner: &S)
        ensures
            *inner == self.inner,
    {
        &self.inner
    }

    pub fn inner_mut(&mut self) -> (inner: &mut S)
        ensures
            *inner == old(self).inner,
            final(self).inner == *final(inner),
            final(self).proxy == old(self).proxy,
    {
        &mut self.inner
    }

    /// What the inner service is asked in place of `req`.
    pub fn call<Req>(&self, req: Req) -> (out: P::Request) where P: Proxy<Req>
        requires
            self.proxy.can_proxy(req),
        ensures
            self.proxy.proxies(req, out),
    {
        self.proxy.proxy(req)
    }
}

} // verus!
