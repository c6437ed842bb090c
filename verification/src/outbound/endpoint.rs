//! Outbound targets: what a request is routed by, and what an endpoint is.

use crate::addr::{Addr, SocketAddr};
use crate::dst;
use crate::metric_labels::{Direction, EndpointLabels, TlsStatus};
use crate::proxy::api_resolve::{Metadata, ProtocolHint};
use crate::proxy::http::profiles;
use crate::proxy::http::profiles::{CanGetDestination, WithRoute};
use crate::proxy::http::settings::{HasSettings, RequestHead, Settings};
use crate::router::Key;
use crate::transport::{Meta, PeerIdentity, ReasonForNoIdentity, ReasonForNoPeerName};
use vstd::prelude::*;
use vstd::std_specs::cmp::PartialEqSpecImpl;

verus! {

/// Makes endpoints from what discovery tells.
#[derive(Clone, Copy, Debug)]
pub struct FromMetadata;

/// The target of a request before discovery: where it is addressed to, and
/// the endpoint that its connection was for.
pub type Logical = Target<HttpEndpoint>;

/// A logical target under the name of one concrete destination.
pub type Concrete = Target<Logical>;

/// Tells the target of each request on one accepted connection.
#[derive(Clone, Debug)]
pub struct RequestTarget(pub Meta);

/// The destination whose profile applies.
#[derive(Clone, Debug)]
pub struct Profile(pub Addr);

/// Tells the profile that applies to a target.
#[derive(Clone, Copy, Debug)]
pub struct TargetProfile;

/// An address with what is routed under it.
#[derive(Clone, Debug)]
pub struct Target<T> {
    pub addr: Addr,
    pub inner: T,
}

/// An HTTP endpoint. Two endpoints are the same where the address, the
/// identity and the settings agree; the metadata does not count.
#[derive(Clone, Debug)]
pub struct HttpEndpoint {
    pub addr: SocketAddr,
    pub settings: Settings,
    pub identity: PeerIdentity,
    pub metadata: Metadata,
}

/// An endpoint of a connection that is forwarded as bytes.
#[derive(Clone, Debug)]
pub struct TcpEndpoint {
    pub addr: SocketAddr,
    pub identity: PeerIdentity,
}

impl<T> Target<T> {
    /// The same address over what `map` makes of the inner value.
    pub fn map<U, F: Fn(T) -> U>(self, map: F) -> (mapped: Target<U>)
        requires
            call_requires(map, (self.inner,)),
        ensures
            mapped.addr == self.addr,
            call_ensures(map, (self.inner,), mapped.inner),
    {
        Target { addr: self.addr, inner: map(self.inner) }
    }

    /// The address under which the target is canonicalized.
    pub fn addr(&self) -> (addr: &Addr)
        ensures
            *addr == self.addr,
    {
        &self.addr
    }

    /// Replaces the address, as canonicalization and destination overrides
    /// do.
    pub fn set_addr(&mut self, addr: Addr)
        ensures
            final(self).addr == addr,
            final(self).inner == old(self).inner,
    {
        self.addr = addr;
    }
}

impl<T: HasSettings> HasSettings for Target<T> {
    open spec fn settings(&self) -> Settings {
        self.inner.settings()
    }

    fn http_settings(&self) -> (settings: &Settings) {
        self.inner.http_settings()
    }
}

impl<T: HasSettings> Target<T> {
    /// The address whose authority a request's target is rewritten to: that
    /// of the target, for an HTTP/1 request whose target was not in absolute
    /// form. Other requests are left as they are.
    pub fn should_normalize_uri(&self) -> (authority: Option<&Addr>)
        ensures
            match self.inner.settings() {
                Settings::Http1 { was_absolute_form: false, .. } => authority == Some(&self.addr),
                _ => authority.is_none(),
            },
    {
        match self.inner.http_settings() {
            Settings::Http1 { was_absolute_form: false, .. } => Some(&self.addr),
            _ => None,
        }
    }
}

impl PartialEq for HttpEndpoint {
    fn eq(&self, other: &HttpEndpoint) -> (equal: bool) {
        self.addr == other.addr && self.identity == other.identity && self.settings
            == other.settings
    }
}

impl Eq for HttpEndpoint {

}

impl PartialEqSpecImpl for HttpEndpoint {
    open spec fn obeys_eq_spec() -> bool {
        true
    }

    open spec fn eq_spec(&self, other: &HttpEndpoint) -> bool {
        self.addr == other.addr && self.identity.same(other.identity) && self.settings
            == other.settings
    }
}

impl HasSettings for HttpEndpoint {
    open spec fn settings(&self) -> Settings {
        self.settings
    }

    fn http_settings(&self) -> (settings: &Settings) {
        &self.settings
    }
}

impl HttpEndpoint {
    /// Whether requests to this endpoint may travel as HTTP/2 with their
    /// original protocol noted: discovery must hint at it, and the request
    /// must be HTTP/1 without a wish to change protocols.
    pub fn can_use_orig_proto(&self) -> (can: bool)
        ensures
            can == (self.metadata.spec_protocol_hint() == ProtocolHint::Http2
                && self.settings matches Settings::Http1 { wants_h1_upgrade: false, .. }),
    {
        match self.metadata.protocol_hint() {
            ProtocolHint::Unknown => {
                return false;
            },
            ProtocolHint::Http2 => {},
        }
        match self.settings {
            Settings::Http2 => false,
            Settings::NotHttp => false,
            Settings::Http1 { keep_alive: _, wants_h1_upgrade, was_absolute_form: _ } => {
                !wants_h1_upgrade
            },
        }
    }

    /// The address that stands for this endpoint in a log line.
    pub fn display(&self) -> (addr: SocketAddr)
        ensures
            addr == self.addr,
    {
        self.addr
    }

    pub fn peer_identity(&self) -> (identity: PeerIdentity)
        ensures
            identity == self.identity,
    {
        self.identity.duplicate()
    }

    pub fn connect_addr(&self) -> (addr: SocketAddr)
        ensures
            addr == self.addr,
    {
        self.addr
    }

    /// The address of the request's source: the peer of the accepted
    /// connection, where the request carries it.
    pub fn src_addr(&self, accepted: Option<&Meta>) -> (addr: Option<SocketAddr>)
        ensures
            addr == (match accepted {
                Some(meta) => Some(meta.addrs.peer),
                None => None,
            }),
    {
        match accepted {
            Some(meta) => Some(meta.addrs.peer()),
            None => None,
        }
    }

    /// The identity of the request's source: none, it is the local
    /// application.
    pub fn src_tls(&self) -> (identity: PeerIdentity)
        ensures
            identity == PeerIdentity::Unknown(
                ReasonForNoIdentity::NoPeerName(ReasonForNoPeerName::Loopback),
            ),
    {
        PeerIdentity::Unknown(ReasonForNoIdentity::NoPeerName(ReasonForNoPeerName::Loopback))
    }

    pub fn dst_addr(&self) -> (addr: Option<SocketAddr>)
        ensures
            addr == Some(self.addr),
    {
        Some(self.addr)
    }

    pub fn dst_labels(&self) -> (labels: Option<&Vec<(String, String)>>)
        ensures
            labels == Some(&self.metadata.spec_labels()),
    {
        Some(self.metadata.labels())
    }

    pub fn dst_tls(&self) -> (identity: &PeerIdentity)
        ensures
            *identity == self.identity,
    {
        &self.identity
    }

    /// The labels of the route that the request takes, where it carries its
    /// route.
    pub fn route_labels<'a>(&self, route: Option<&'a dst::Route>) -> (labels: Option<
        &'a std::sync::Arc<Vec<(String, String)>>,
    >)
        ensures
            match route {
                Some(r) => labels == Some(&r.route.spec_labels()),
                None => labels.is_none(),
            },
    {
        match route {
            Some(r) => Some(r.route.labels()),
            None => None,
        }
    }

    pub fn is_outbound(&self) -> (outbound: bool)
        ensures
            outbound,
    {
        true
    }
}

impl FromMetadata {
    /// The endpoint at `addr` for a target: the target's address and
    /// settings, the identity that discovery gives, and the metadata.
    pub fn map_endpoint(&self, target: &Target<Settings>, addr: SocketAddr, metadata: Metadata) -> (endpoint:
        Target<HttpEndpoint>)
        ensures
            endpoint.addr == target.addr,
            endpoint.inner.addr == addr,
            endpoint.inner.settings == target.inner,
            endpoint.inner.metadata == metadata,
            endpoint.inner.identity == (match metadata.spec_identity() {
                Some(name) => PeerIdentity::Known(name),
                None => PeerIdentity::Unknown(
                    ReasonForNoIdentity::NoPeerName(
                        ReasonForNoPeerName::NotProvidedByServiceDiscovery,
                    ),
                ),
            }),
    {
        let identity = match metadata.identity() {
            Some(name) => PeerIdentity::Known(name.duplicate()),
            None => PeerIdentity::Unknown(
                ReasonForNoIdentity::NoPeerName(ReasonForNoPeerName::NotProvidedByServiceDiscovery),
            ),
        };
        Target {
            addr: target.addr.duplicate(),
            inner: HttpEndpoint { addr, identity, metadata, settings: target.inner },
        }
    }
}

/// The identity under which an endpoint is counted.
fn server_id(identity: &PeerIdentity) -> (status: TlsStatus)
    ensures
        status == (match *identity {
            PeerIdentity::Known(name) => TlsStatus::ServerId(name),
            PeerIdentity::Unknown(reason) => TlsStatus::NoIdentity(reason),
        }),
{
    match identity {
        PeerIdentity::Known(name) => TlsStatus::ServerId(name.duplicate()),
        PeerIdentity::Unknown(reason) => TlsStatus::NoIdentity(*reason),
    }
}

impl Target<HttpEndpoint> {
    /// The labels under which this endpoint is counted.
    pub fn into_labels(self) -> (labels: EndpointLabels)
        ensures
            labels.authority == Some(self.addr),
            labels.direction == Direction::Out,
            labels.tls_id == (match self.inner.identity {
                PeerIdentity::Known(name) => TlsStatus::ServerId(name),
                PeerIdentity::Unknown(reason) => TlsStatus::NoIdentity(reason),
            }),
            labels.labels.is_some(),
            labels.labels.unwrap()@ == self.inner.metadata.spec_labels()@,
            labels.dst_logical.is_none(),
            labels.dst_concrete.is_none(),
    {
        let tls_id = server_id(&self.inner.identity);
        let mut copied: Vec<(String, String)> = Vec::new();
        let given = self.inner.metadata.labels();
        let mut i: usize = 0;
        while i < given.len()
            invariant
                i <= given@.len(),
                copied@ == given@.take(i as int),
            decreases given@.len() - i,
        {
            copied.push((given[i].0.clone(), given[i].1.clone()));
            proof {
                assert(copied@ =~= given@.take(i + 1));
            }
            i += 1;
        }
        proof {
            assert(given@.take(given@.len() as int) =~= given@);
            assert(copied@ == given@);
        }
        EndpointLabels {
            authority: Some(self.addr),
            direction: Direction::Out,
            tls_id,
            labels: Some(copied),
            dst_logical: None,
            dst_concrete: None,
        }
    }

    /// The concrete target that stands for this logical one at first: the
    /// same address over the whole logical target.
    pub fn into_concrete(self) -> (concrete: Concrete)
        ensures
            concrete.addr == self.addr,
            concrete.inner == self,
    {
        Target { addr: self.addr.duplicate(), inner: self }
    }
}

impl PartialEq for TcpEndpoint {
    fn eq(&self, other: &TcpEndpoint) -> (equal: bool) {
        self.addr == other.addr && self.identity == other.identity
    }
}

impl Eq for TcpEndpoint {

}

impl PartialEqSpecImpl for TcpEndpoint {
    open spec fn obeys_eq_spec() -> bool {
        true
    }

    open spec fn eq_spec(&self, other: &TcpEndpoint) -> bool {
        self.addr == other.addr && self.identity.same(other.identity)
    }
}

impl TcpEndpoint {
    /// The endpoint of a forwarded connection: no identity, it is no HTTP.
    pub fn from(addr: SocketAddr) -> (endpoint: TcpEndpoint)
        ensures
            endpoint.addr == addr,
            endpoint.identity == PeerIdentity::Unknown(
                ReasonForNoIdentity::NoPeerName(ReasonForNoPeerName::NotHttp),
            ),
    {
        TcpEndpoint {
            addr,
            identity: PeerIdentity::Unknown(
                ReasonForNoIdentity::NoPeerName(ReasonForNoPeerName::NotHttp),
            ),
        }
    }

    pub fn connect_addr(&self) -> (addr: SocketAddr)
        ensures
            addr == self.addr,
    {
        self.addr
    }

    pub fn peer_identity(&self) -> (identity: PeerIdentity)
        ensures
            identity == self.identity,
    {
        self.identity.duplicate()
    }

    /// The labels under which this endpoint is counted.
    pub fn into_labels(self) -> (labels: EndpointLabels)
        ensures
            labels.direction == Direction::Out,
            labels.tls_id == (match self.identity {
                PeerIdentity::Known(name) => TlsStatus::ServerId(name),
                PeerIdentity::Unknown(reason) => TlsStatus::NoIdentity(reason),
            }),
            labels.authority.is_none(),
            labels.labels.is_none(),
            labels.dst_logical.is_none(),
            labels.dst_concrete.is_none(),
    {
        EndpointLabels {
            direction: Direction::Out,
            tls_id: server_id(&self.identity),
            authority: None,
            labels: None,
            dst_logical: None,
            dst_concrete: None,
        }
    }
}

impl RequestTarget {
    pub fn from(accept: Meta) -> (target: RequestTarget)
        ensures
            target.0 == accept,
    {
        RequestTarget(accept)
    }

    /// The address that a request is for: the one its override header names,
    /// else the authority of its target, else its `host` header, else the
    /// address that the connection was for.
    pub open spec fn addr_of(&self, req: RequestHead) -> Addr {
        match req.dst_override {
            crate::proxy::http::settings::Named::Addr(addr) => addr,
            _ => match req.authority {
                crate::proxy::http::settings::Named::Addr(addr) => addr,
                _ => match req.host {
                    crate::proxy::http::settings::Named::Addr(addr) => addr,
                    _ => Addr::Socket(self.0.addrs.spec_target_addr()),
                },
            },
        }
    }

    /// The target of a request: its address, over the endpoint that the
    /// connection was for with the request's settings, the identity that the
    /// request requires of the server, and no metadata.
    pub open spec fn target_of(&self, req: RequestHead, target: Target<HttpEndpoint>) -> bool {
        &&& target.addr == self.addr_of(req)
        &&& target.inner.settings == Settings::of(req)
        &&& target.inner.addr == self.0.addrs.spec_target_addr()
        &&& target.inner.metadata.spec_labels()@.len() == 0
        &&& target.inner.metadata.spec_protocol_hint() == ProtocolHint::Unknown
        &&& target.inner.metadata.spec_identity().is_none()
        &&& target.inner.identity == (match req.require_identity {
            Some(name) => PeerIdentity::Known(name),
            None => PeerIdentity::Unknown(
                ReasonForNoIdentity::NoPeerName(ReasonForNoPeerName::NotProvidedByServiceDiscovery),
            ),
        })
    }
}

impl Key<RequestHead> for RequestTarget {
    type Key = Target<HttpEndpoint>;

    open spec fn can_key(&self, req: &RequestHead) -> bool {
        true
    }

    open spec fn keys(&self, req: &RequestHead, key: Option<Target<HttpEndpoint>>) -> bool {
        key.is_some() && self.target_of(*req, key.unwrap())
    }

    fn key(&self, req: &RequestHead) -> (key: Option<Target<HttpEndpoint>>) {
        let addr = match req.dst_override.addr() {
            Some(addr) => addr.duplicate(),
            None => match req.authority.addr() {
                Some(addr) => addr.duplicate(),
                None => match req.host.addr() {
                    Some(addr) => addr.duplicate(),
                    None => Addr::Socket(self.0.addrs.target_addr()),
                },
            },
        };
        let settings = Settings::from_request(req);
        let identity = match &req.require_identity {
            Some(name) => PeerIdentity::Known(name.duplicate()),
            None => PeerIdentity::Unknown(
                ReasonForNoIdentity::NoPeerName(ReasonForNoPeerName::NotProvidedByServiceDiscovery),
            ),
        };
        let inner = HttpEndpoint {
            settings,
            addr: self.0.addrs.target_addr(),
            metadata: Metadata::empty(),
            identity,
        };
        Some(Target { addr, inner })
    }
}

impl<T> Key<Target<T>> for TargetProfile {
    type Key = Profile;

    open spec fn can_key(&self, t: &Target<T>) -> bool {
        true
    }

    open spec fn keys(&self, t: &Target<T>, key: Option<Profile>) -> bool {
        key.is_some() && key.unwrap().0 == t.addr
    }

    fn key(&self, t: &Target<T>) -> (key: Option<Profile>) {
        Some(Profile(t.addr.duplicate()))
    }
}

impl CanGetDestination for Profile {
    open spec fn destination(&self) -> Option<Addr> {
        Some(self.0)
    }

    fn get_destination(&self) -> (dst: Option<Addr>) {
        Some(self.0.duplicate())
    }
}

impl WithRoute for Profile {
    type Output = dst::Route;

    open spec fn routed(&self, route: profiles::Route, out: dst::Route) -> bool {
        out.route == route && out.target == self.0 && out.direction == Direction::Out
    }

    fn with_route(&self, route: profiles::Route) -> (out: dst::Route) {
        dst::Route { route, target: self.0.duplicate(), direction: Direction::Out }
    }
}

} // verus!
