//! Inbound targets: what a request is routed by, and the local endpoint it
//! ends at.

use crate::addr::{Addr, NameAddr, SocketAddr};
use crate::classify;
use crate::dst;
use crate::metric_labels::{Direction, EndpointLabels, TlsStatus};
use crate::proxy::http::profiles;
use crate::proxy::http::profiles::{CanGetDestination, WithRoute};
use crate::proxy::http::settings::{HasSettings, Named, RequestHead, Settings};
use crate::router::Key;
use crate::transport::{Meta, PeerIdentity, ReasonForNoIdentity, ReasonForNoPeerName};
use vstd::prelude::*;

verus! {

/// The target of an inbound request.
#[derive(Clone, Debug)]
pub struct Target {
    /// The address that the connection was for.
    pub addr: SocketAddr,
    /// The name that the request gives its destination, if it gives one.
    pub dst_name: Option<NameAddr>,
    pub http_settings: Settings,
    /// Who sent the request.
    pub tls_client_id: PeerIdentity,
}

/// The destination whose profile applies.
#[derive(Clone, Debug)]
pub struct Profile(pub Addr);

/// The local endpoint: a port of the loopback interface.
#[derive(Clone, Copy, Debug, PartialEq, Eq, Hash, Structural)]
pub struct Endpoint {
    pub port: u16,
    pub settings: Settings,
}

/// Tells the target of each request on one accepted connection.
#[derive(Clone, Debug)]
pub struct RequestTarget {
    pub accept: Meta,
}

/// Tells the profile that applies to a target.
#[derive(Copy, Clone, Debug)]
pub struct ProfileTarget;

impl Endpoint {
    /// The address to connect to: the loopback address with the endpoint's
    /// port.
    pub fn peer_addr(&self) -> (addr: SocketAddr)
        ensures
            addr.ip == crate::addr::IpAddr::V4(0x7f00_0001),
            addr.port == self.port,
    {
        SocketAddr::loopback(self.port)
    }

    /// The endpoint of a target: its port and its settings.
    pub fn from_target(target: Target) -> (endpoint: Endpoint)
        ensures
            endpoint.port == target.addr.port,
            endpoint.settings == target.http_settings,
    {
        Endpoint { port: target.addr.port(), settings: target.http_settings }
    }

    /// The endpoint of a connection that is forwarded as bytes.
    pub fn from_addr(addr: SocketAddr) -> (endpoint: Endpoint)
        ensures
            endpoint.port == addr.port,
            endpoint.settings == Settings::NotHttp,
    {
        Endpoint { port: addr.port(), settings: Settings::NotHttp }
    }

    /// The local application has no identity.
    pub fn peer_identity(&self) -> (identity: PeerIdentity)
        ensures
            identity == PeerIdentity::Unknown(
                ReasonForNoIdentity::NoPeerName(ReasonForNoPeerName::Loopback),
            ),
    {
        PeerIdentity::Unknown(ReasonForNoIdentity::NoPeerName(ReasonForNoPeerName::Loopback))
    }
}

impl HasSettings for Endpoint {
    open spec fn settings(&self) -> Settings {
        self.settings
    }

    fn http_settings(&self) -> (settings: &Settings) {
        &self.settings
    }
}

/// The address that names a target's destination: its name where it has one,
/// else the address that the connection was for.
pub open spec fn profile_addr(target: Target) -> Addr {
    match target.dst_name {
        Some(name) => Addr::Name(name),
        None => Addr::Socket(target.addr),
    }
}

fn profile_addr_of(target: &Target) -> (addr: Addr)
    ensures
        addr == profile_addr(*target),
{
    match &target.dst_name {
        Some(name) => Addr::Name(name.duplicate()),
        None => Addr::Socket(target.addr),
    }
}

impl Profile {
    /// The profile destination of a target.
    pub fn from(target: Target) -> (profile: Profile)
        ensures
            profile.0 == profile_addr(target),
    {
        Profile(profile_addr_of(&target))
    }
}

impl CanGetDestination for Profile {
    open spec fn destination(&self) -> Option<Addr> {
        Some(self.0)
    }

    fn get_destination(&self) -> (dst: Option<Addr>) {
        Some(self.0.duplicate())
    }
}

impl WithRoute for Profile {
    type Output = dst::Route;

    open spec fn routed(&self, route: profiles::Route, out: dst::Route) -> bool {
        out.route == route && out.target == self.0 && out.direction == Direction::In
    }

    fn with_route(&self, route: profiles::Route) -> (out: dst::Route) {
        dst::Route { route, target: self.0.duplicate(), direction: Direction::In }
    }
}

impl HasSettings for Target {
    open spec fn settings(&self) -> Settings {
        self.http_settings
    }

    fn http_settings(&self) -> (settings: &Settings) {
        &self.http_settings
    }
}

impl Target {
    /// The local application has no identity.
    pub fn peer_identity(&self) -> (identity: PeerIdentity)
        ensures
            identity == PeerIdentity::Unknown(
                ReasonForNoIdentity::NoPeerName(ReasonForNoPeerName::Loopback),
            ),
    {
        PeerIdentity::Unknown(ReasonForNoIdentity::NoPeerName(ReasonForNoPeerName::Loopback))
    }

    /// The labels under which this target is counted.
    pub fn into_labels(self) -> (labels: EndpointLabels)
        ensures
            labels.dst_logical == self.dst_name,
            labels.dst_concrete == self.dst_name,
            labels.direction == Direction::In,
            labels.tls_id == (match self.tls_client_id {
                PeerIdentity::Known(name) => TlsStatus::ClientId(name),
                PeerIdentity::Unknown(reason) => TlsStatus::NoIdentity(reason),
            }),
            labels.labels.is_none(),
            labels.authority.is_none(),
    {
        let dst_logical = match &self.dst_name {
            Some(name) => Some(name.duplicate()),
            None => None,
        };
        EndpointLabels {
            dst_logical,
            dst_concrete: self.dst_name,
            direction: Direction::In,
            tls_id: match self.tls_client_id {
                PeerIdentity::Known(name) => TlsStatus::ClientId(name),
                PeerIdentity::Unknown(reason) => TlsStatus::NoIdentity(reason),
            },
            labels: None,
            authority: None,
        }
    }

    /// Inbound responses are classified by status, or by gRPC status.
    pub fn classify(&self) -> (policy: classify::Request)
        ensures
            policy == classify::Request::Default,
    {
        classify::Request::Default
    }

    /// The address of the request's source: the peer of the accepted
    /// connection, where the request carries it.
    pub fn src_addr(&self, accepted: Option<&Meta>) -> (addr: Option<SocketAddr>)
        ensures
            addr == (match accepted {
                Some(meta) => Some(meta.addrs.peer),
                None => None,
            }),
    {
        match accepted {
            Some(meta) => Some(meta.addrs.peer()),
            None => None,
        }
    }

    /// The identity of the request's source: that of the accepted
    /// connection's peer. A request that does not carry its connection has
    /// none, as if identity were switched off.
    pub fn src_tls(&self, accepted: Option<&Meta>) -> (identity: PeerIdentity)
        ensures
            identity == (match accepted {
                Some(meta) => meta.peer_identity,
                None => PeerIdentity::Unknown(ReasonForNoIdentity::Disabled),
            }),
    {
        match accepted {
            Some(meta) => meta.peer_identity.duplicate(),
            None => PeerIdentity::Unknown(ReasonForNoIdentity::Disabled),
        }
    }

    pub fn dst_addr(&self) -> (addr: Option<SocketAddr>)
        ensures
            addr == Some(self.addr),
    {
        Some(self.addr)
    }

    /// The local application has no labels.
    pub fn dst_labels(&self) -> (labels: Option<&Vec<(String, String)>>)
        ensures
            labels.is_none(),
    {
        None
    }

    /// The local application has no identity.
    pub fn dst_tls(&self) -> (identity: PeerIdentity)
        ensures
            identity == PeerIdentity::Unknown(
                ReasonForNoIdentity::NoPeerName(ReasonForNoPeerName::Loopback),
            ),
    {
        PeerIdentity::Unknown(ReasonForNoIdentity::NoPeerName(ReasonForNoPeerName::Loopback))
    }

    /// The labels of the route that the request takes, where it carries its
    /// route.
    pub fn route_labels<'a>(&self, route: Option<&'a dst::Route>) -> (labels: Option<
        &'a std::sync::Arc<Vec<(String, String)>>,
    >)
        ensures
            match route {
                Some(r) => labels == Some(&r.route.spec_labels()),
                None => labels.is_none(),
            },
    {
        match route {
            Some(r) => Some(r.route.labels()),
            None => None,
        }
    }

    pub fn is_outbound(&self) -> (outbound: bool)
        ensures
            !outbound,
    {
        false
    }

    /// The address that stands for this target in a log line.
    pub fn display(&self) -> (addr: SocketAddr)
        ensures
            addr == self.addr,
    {
        self.addr
    }
}

/// The address that a request names as its destination: the first that is
/// there of the canonical-destination header, the override header, the
/// authority of the request's target and the `host` header.
pub open spec fn named_dst(req: RequestHead) -> Option<Addr> {
    match req.dst_canonical {
        Named::Addr(addr) => Some(addr),
        _ => match req.dst_override {
            Named::Addr(addr) => Some(addr),
            _ => match req.authority {
                Named::Addr(addr) => Some(addr),
                _ => match req.host {
                    Named::Addr(addr) => Some(addr),
                    _ => None,
                },
            },
        },
    }
}

/// The name of a request's destination: what `named_dst` gives, where that is
/// a name. An address that is no name gives none, whatever the sources
/// behind it hold.
pub open spec fn dst_name(req: RequestHead) -> Option<NameAddr> {
    match named_dst(req) {
        Some(Addr::Name(name)) => Some(name),
        _ => None,
    }
}

impl RequestTarget {
    pub fn from(accept: Meta) -> (target: RequestTarget)
        ensures
            target.accept == accept,
    {
        RequestTarget { accept }
    }

    /// The target of a request: the address that the connection was for, the
    /// name that the request gives its destination, the sender's identity
    /// and the request's settings.
    pub fn target(&self, req: &RequestHead) -> (target: Target)
        ensures
            target.dst_name == dst_name(*req),
            target.addr == self.accept.addrs.spec_target_addr(),
            target.tls_client_id == self.accept.peer_identity,
            target.http_settings == Settings::of(*req),
    {
        let named = match req.dst_canonical.addr() {
            Some(addr) => Some(addr),
            None => match req.dst_override.addr() {
                Some(addr) => Some(addr),
                None => match req.authority.addr() {
                    Some(addr) => Some(addr),
                    None => req.host.addr(),
                },
            },
        };
        let dst_name = match named {
            Some(addr) => match addr.name_addr() {
                Some(name) => Some(name.duplicate()),
                None => None,
            },
            None => None,
        };
        Target {
            dst_name,
            addr: self.accept.addrs.target_addr(),
            tls_client_id: self.accept.peer_identity.duplicate(),
            http_settings: Settings::from_request(req),
        }
    }
}

impl Key<RequestHead> for RequestTarget {
    type Key = Target;

    open spec fn can_key(&self, req: &RequestHead) -> bool {
        true
    }

    open spec fn keys(&self, req: &RequestHead, key: Option<Target>) -> bool {
        &&& key.is_some()
        &&& key.unwrap().dst_name == dst_name(*req)
        &&& key.unwrap().addr == self.accept.addrs.spec_target_addr()
        &&& key.unwrap().tls_client_id == self.accept.peer_identity
        &&& key.unwrap().http_settings == Settings::of(*req)
    }

    fn key(&self, req: &RequestHead) -> (key: Option<Target>) {
        Some(self.target(req))
    }
}

impl ProfileTarget {
    /// The profile destination of a target.
    pub fn target(&self, t: &Target) -> (profile: Profile)
        ensures
            profile.0 == profile_addr(*t),
    {
        Profile(profile_addr_of(t))
    }
}

impl Key<Target> for ProfileTarget {
    type Key = Profile;

    open spec fn can_key(&self, t: &Target) -> bool {
        true
    }

    open spec fn keys(&self, t: &Target, key: Option<Profile>) -> bool {
        key.is_some() && key.unwrap().0 == profile_addr(*t)
    }

    fn key(&self, t: &Target) -> (key: Option<Profile>) {
        Some(self.target(t))
    }
}

} // verus!
