//! Upgrading outbound HTTP/1 requests to travel over HTTP/2, where the
//! endpoint is known to take them so.

use crate::outbound::endpoint::HttpEndpoint;
use crate::proxy::api_resolve::ProtocolHint;
use crate::proxy::http::orig_proto::Upgrade;
use crate::proxy::http::settings::Settings;
use crate::stack::layer::Layer as StackLayer;
use crate::stack::make::Make;
use vstd::prelude::*;

verus! {

#[derive(Clone, Copy, Debug)]
pub struct Layer(pub ());

#[derive(Clone, Copy, Debug)]
pub struct MakeSvc<M> {
    pub inner: M,
}

/// A service on its way out of a `MakeSvc`, with what was settled of it.
#[derive(Clone, Copy, Debug)]
pub struct MakeFuture<F> {
    pub can_upgrade: bool,
    pub inner: F,
}

/// One of two services.
#[derive(Clone, Copy, Debug)]
pub enum Either<A, B> {
    A(A),
    B(B),
}

pub fn layer() -> Layer {
    Layer(())
}

impl<M> StackLayer<M> for Layer {
    type Service = MakeSvc<M>;

    open spec fn accepts(&self, inner: M) -> bool {
        true
    }

    open spec fn layers(&self, inner: M, outer: MakeSvc<M>) -> bool {
        outer.inner == inner
    }

    fn layer(&self, inner: M) -> (outer: MakeSvc<M>) {
        MakeSvc { inner }
    }
}

/// The endpoint as the inner maker is asked for it: with HTTP/2 settings
/// where requests are upgraded, else as it is.
pub open spec fn upgraded(endpoint: HttpEndpoint) -> HttpEndpoint {
    if can_upgrade(endpoint) {
        HttpEndpoint { settings: Settings::Http2, ..endpoint }
    } else {
        endpoint
    }
}

/// Whether requests to the endpoint are upgraded.
pub open spec fn can_upgrade(endpoint: HttpEndpoint) -> bool {
    endpoint.metadata.spec_protocol_hint() == ProtocolHint::Http2
        && endpoint.settings matches Settings::Http1 { wants_h1_upgrade: false, .. }
}

impl<M> Make<HttpEndpoint> for MakeSvc<M> where M: Make<HttpEndpoint> {
    type Service = Either<Upgrade<M::Service>, M::Service>;

    open spec fn can_make(&self, endpoint: HttpEndpoint) -> bool {
        self.inner.can_make(upgraded(endpoint))
    }

    /// An endpoint whose requests can be upgraded has its service made
    /// with HTTP/2 settings, and upgrading put over it; the upgrade takes the
    /// requests' targets not to have been in absolute form. Another endpoint
    /// has the inner service as it is.
    open spec fn makes(
        &self,
        endpoint: HttpEndpoint,
        service: Either<Upgrade<M::Service>, M::Service>,
    ) -> bool {
        match service {
            Either::A(upgrade) => {
                &&& can_upgrade(endpoint)
                &&& !upgrade.absolute_form
                &&& self.inner.makes(upgraded(endpoint), upgrade.inner)
            },
            Either::B(inner) => !can_upgrade(endpoint) && self.inner.makes(endpoint, inner),
        }
    }

    fn make(&self, endpoint: HttpEndpoint) -> (service: Either<Upgrade<M::Service>, M::Service>) {
        let mut endpoint = endpoint;
        let can_upgrade = endpoint.can_use_orig_proto();
        if can_upgrade {
            endpoint.settings = Settings::Http2;
        }
        let was_absolute = endpoint.settings.was_absolute_form();
        let inner = self.inner.make(endpoint);
        if can_upgrade {
            let mut upgrade = Upgrade::new(inner);
            upgrade.absolute_form = was_absolute;
            Either::A(upgrade)
        } else {
            Either::B(inner)
        }
    }
}

impl<M> MakeSvc<M> {
    /// Settles whether the endpoint's requests are upgraded, and gives the
    /// endpoint as the inner maker is to be asked for it.
    pub fn call(&self, endpoint: HttpEndpoint) -> (settled: (bool, HttpEndpoint))
        ensures
            settled.0 == can_upgrade(endpoint),
            settled.1 == upgraded(endpoint),
    {
        let mut endpoint = endpoint;
        let can_upgrade = endpoint.can_use_orig_proto();
        if can_upgrade {
            endpoint.settings = Settings::Http2;
        }
        (can_upgrade, endpoint)
    }
}

impl<F> MakeFuture<F> {
    /// Takes the service that the inner making gave: upgrading is put over
    /// it where that was settled.
    pub fn made<S>(&self, inner: S) -> (service: Either<Upgrade<S>, S>)
        ensures
            service == (if self.can_upgrade {
                Either::<Upgrade<S>, S>::A(Upgrade { inner, absolute_form: false })
            } else {
                Either::B(inner)
            }),
    {
        if self.can_upgrade {
            Either::A(Upgrade::new(inner))
        } else {
            Either::B(inner)
        }
    }
}

} // verus!
