//! The outbound side: traffic from the local application to the network.
//!
//! Each request is routed by its logical destination, let in or turned away,
//! sent through the route that its destination's profile gives it, split
//! over the concrete destinations that the profile names, and balanced over
//! the endpoints that discovery gives; where discovery refuses a
//! destination, the request is forwarded to the address that its connection
//! was for.

use crate::concurrency_limit;
use crate::errors::ErrorKind;
use crate::metric_labels::{Direction, TransportKey};
use crate::outbound::endpoint::{HttpEndpoint, TcpEndpoint};
use crate::router;
use crate::stack::layer::{Identity, Pair};
use crate::svc::{layers, load_shed, Layers};
use crate::timeout::TimeoutLayer;
use crate::transport::PeerIdentity;
use vstd::prelude::*;

pub mod endpoint;
pub mod orig_proto_upgrade;

verus! {

/// The round-trip time that a new endpoint is taken to have, in
/// milliseconds.
pub const EWMA_DEFAULT_RTT: u64 = 30;

/// The time over which an endpoint's measured round-trip times fade, in
/// milliseconds.
pub const EWMA_DECAY: u64 = 10000;

/// How many updates of a discovery are kept while the balancer is behind.
pub const BUFFER_CAPACITY: usize = 10;

/// The settings of the outbound side. Times are in milliseconds.
#[derive(Clone, Copy, Debug, PartialEq, Eq, Structural)]
pub struct Config {
    /// How many services each cache holds.
    pub cache_capacity: usize,
    /// How long a service that nobody uses stays in a cache.
    pub cache_max_idle_age: u64,
    /// How many requests may be under way at once.
    pub max_in_flight_requests: usize,
    /// How long a request may wait for its service to become ready.
    pub service_acquisition_timeout: u64,
    /// How long the canonicalization of a name may take.
    pub canonicalize_timeout: u64,
    /// How long connecting may take.
    pub connect_timeout: u64,
}

/// The layers of admission: a concurrency limit, and load shed over it.
pub type Admission = Layers<Pair<Pair<Identity, concurrency_limit::Layer>, load_shed::Layer>>;

/// The parts of the outbound stack that the settings decide.
#[derive(Clone, Copy, Debug)]
pub struct Outbound {
    /// The limit on the time of connecting.
    pub connect_timeout: TimeoutLayer,
    /// The cache of balancers, by concrete destination.
    pub balancer_cache: router::layer::Layer,
    /// The cache of profile services, by profile destination.
    pub profile_cache: router::layer::Layer,
    /// The cache of name refinements, by name.
    pub dns_refine_cache: router::layer::Layer,
    /// The cache of clients that bypass discovery, by endpoint.
    pub forward_cache: router::layer::Layer,
    /// How long the canonicalization of a name may take.
    pub canonicalize_timeout: u64,
    /// How many updates of a discovery are kept.
    pub discover_buffer: usize,
    /// The limit on the time that a request waits for its service.
    pub service_acquisition: TimeoutLayer,
    /// Admission, for each accepted connection's requests.
    pub admission: Admission,
}

impl Config {
    /// The parts of the stack that these settings decide: every cache with
    /// the capacity and the idle age set, the timeouts as set, and admission
    /// with as many permits as requests may be under way, load being shed
    /// outermost.
    pub fn build(self) -> (outbound: Outbound)
        ensures
            outbound.connect_timeout.timeout == self.connect_timeout,
            outbound.balancer_cache.config == (router::layer::Config {
                capacity: self.cache_capacity,
                max_idle_age: self.cache_max_idle_age,
            }),
            outbound.profile_cache.config == outbound.balancer_cache.config,
            outbound.dns_refine_cache.config == outbound.balancer_cache.config,
            outbound.forward_cache.config == outbound.balancer_cache.config,
            outbound.canonicalize_timeout == self.canonicalize_timeout,
            outbound.discover_buffer == BUFFER_CAPACITY,
            outbound.service_acquisition.timeout == self.service_acquisition_timeout,
            outbound.admission.0.inner.outer.max == self.max_in_flight_requests,
    {
        let cache = router::layer::Layer::new(self.cache_capacity, self.cache_max_idle_age);
        Outbound {
            connect_timeout: TimeoutLayer::new(self.connect_timeout),
            balancer_cache: cache,
            profile_cache: cache,
            dns_refine_cache: cache,
            forward_cache: cache,
            canonicalize_timeout: self.canonicalize_timeout,
            discover_buffer: BUFFER_CAPACITY,
            service_acquisition: TimeoutLayer::new(self.service_acquisition_timeout),
            admission: layers().push_concurrency_limit(self.max_in_flight_requests).push_load_shed(),
        }
    }
}

/// Gives transports their labels.
#[derive(Copy, Clone, Debug)]
pub struct TransportLabels;

impl TransportLabels {
    /// The labels of a connection to an HTTP endpoint.
    pub fn http_endpoint(&self, endpoint: &HttpEndpoint) -> (key: TransportKey)
        ensures
            key.direction == Direction::Out,
            key.peer == crate::metric_labels::Peer::Dst,
            key.tls_status == endpoint.identity,
    {
        TransportKey::connect(Direction::Out, &endpoint.identity)
    }

    /// The labels of a connection to an endpoint that bytes are forwarded to.
    pub fn tcp_endpoint(&self, endpoint: &TcpEndpoint) -> (key: TransportKey)
        ensures
            key.direction == Direction::Out,
            key.peer == crate::metric_labels::Peer::Dst,
            key.tls_status == endpoint.identity,
    {
        TransportKey::connect(Direction::Out, &endpoint.identity)
    }

    /// The labels of an accepted connection, whose peer has this identity.
    pub fn accepted(&self, peer_identity: &PeerIdentity) -> (key: TransportKey)
        ensures
            key.direction == Direction::Out,
            key.peer == crate::metric_labels::Peer::Src,
            key.tls_status == *peer_identity,
    {
        TransportKey::accept(Direction::Out, peer_identity)
    }
}

/// The labels that outbound traces carry: the direction, `outbound`.
pub fn trace_labels() -> (labels: Vec<(String, String)>)
    ensures
        labels@.len() == 1,
        labels@[0].0@ == "direction"@,
        labels@[0].1@ == "outbound"@,
{
    let mut l: Vec<(String, String)> = Vec::new();
    l.push(("direction".to_owned(), "outbound".to_owned()));
    l
}

/// Why a logical destination gave no service.
#[derive(Clone, Debug)]
pub enum LogicalError {
    DiscoveryRejected,
    Inner(String),
}

impl LogicalError {
    /// The logical error that a failure is: discovery's refusal as itself,
    /// and every other failure by its message.
    pub fn from(orig: &ErrorKind) -> (error: LogicalError)
        ensures
            *orig is DiscoveryRejected ==> error is DiscoveryRejected,
            !(*orig is DiscoveryRejected) ==> error is Inner && error->Inner_0@
                == crate::errors::message_of(*orig),
    {
        match orig {
            ErrorKind::DiscoveryRejected => LogicalError::DiscoveryRejected,
            other => LogicalError::Inner(other.message()),
        }
    }

    /// Whether a failure is discovery's refusal: the one failure that the
    /// outbound stack falls back on.
    pub fn is_discovery_rejected(err: &LogicalError) -> (rejected: bool)
        ensures
            rejected == (*err is DiscoveryRejected),
    {
        match err {
            LogicalError::DiscoveryRejected => true,
            LogicalError::Inner(_) => false,
        }
    }

    /// What a log line says of this error.
    pub fn message(&self) -> (text: String)
        ensures
            match *self {
                LogicalError::DiscoveryRejected => text@ == "discovery rejected"@,
                LogicalError::Inner(inner) => text == inner,
            },
    {
        match self {
            LogicalError::DiscoveryRejected => "discovery rejected".to_owned(),
            LogicalError::Inner(inner) => inner.clone(),
        }
    }
}

/// Discovery refused to resolve a destination.
#[derive(Clone, Copy, Debug, PartialEq, Eq, Structural)]
pub struct DiscoveryRejected;

impl DiscoveryRejected {
    pub fn new() -> Self {
        DiscoveryRejected
    }

    /// What a log line says of this error.
    pub fn message(&self) -> (text: String)
        ensures
            text@ == "discovery rejected"@,
    {
        "discovery rejected".to_owned()
    }
}

} // verus!
