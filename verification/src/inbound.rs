//! The inbound side: traffic from the network to the local application.
//!
//! Each request is routed by the target that it names, restored to its
//! original protocol, let in or turned away, sent through the route that its
//! destination's profile gives it, and handed to the local application over
//! the loopback interface.

use crate::concurrency_limit;
use crate::inbound::endpoint::Endpoint;
use crate::metric_labels::{Direction, TransportKey};
use crate::router;
use crate::stack::layer::{Identity, Pair};
use crate::svc::{layers, load_shed, Layers};
use crate::timeout::TimeoutLayer;
use crate::transport::{PeerIdentity, ReasonForNoIdentity, ReasonForNoPeerName};
use vstd::prelude::*;

pub mod endpoint;
pub mod orig_proto_downgrade;

verus! {

/// The settings of the inbound side. Times are in milliseconds.
#[derive(Clone, Copy, Debug, PartialEq, Eq, Structural)]
pub struct Config {
    /// How many services each cache holds.
    pub cache_capacity: usize,
    /// How long a service that nobody uses stays in a cache.
    pub cache_max_idle_age: u64,
    /// How many requests may be under way at once.
    pub max_in_flight_requests: usize,
    /// How long a request may wait for its service to become ready.
    pub service_acquisition_timeout: u64,
    /// How long connecting may take.
    pub connect_timeout: u64,
}

/// The layers of admission: restoring the original protocol innermost, then
/// a concurrency limit, and load shed over it.
pub type Admission = Layers<
    Pair<
        Pair<Pair<Identity, orig_proto_downgrade::Layer>, concurrency_limit::Layer>,
        load_shed::Layer,
    >,
>;

/// The parts of the inbound stack that the settings decide.
#[derive(Clone, Copy, Debug)]
pub struct Inbound {
    /// The limit on the time of connecting.
    pub connect_timeout: TimeoutLayer,
    /// The cache of clients, by local endpoint.
    pub endpoint_cache: router::layer::Layer,
    /// The cache of profile services, by profile destination.
    pub profile_cache: router::layer::Layer,
    /// The limit on the time that a request waits for its service.
    pub service_acquisition: TimeoutLayer,
    /// Admission, for each accepted connection's requests.
    pub admission: Admission,
}

impl Config {
    /// The parts of the stack that these settings decide: every cache with
    /// the capacity and the idle age set, the timeouts as set, and admission
    /// with as many permits as requests may be under way, load being shed
    /// outermost.
    pub fn build(self) -> (inbound: Inbound)
        ensures
            inbound.connect_timeout.timeout == self.connect_timeout,
            inbound.endpoint_cache.config == (router::layer::Config {
                capacity: self.cache_capacity,
                max_idle_age: self.cache_max_idle_age,
            }),
            inbound.profile_cache.config == inbound.endpoint_cache.config,
            inbound.service_acquisition.timeout == self.service_acquisition_timeout,
            inbound.admission.0.inner.outer.max == self.max_in_flight_requests,
    {
        let cache = router::layer::Layer::new(self.cache_capacity, self.cache_max_idle_age);
        Inbound {
            connect_timeout: TimeoutLayer::new(self.connect_timeout),
            endpoint_cache: cache,
            profile_cache: cache,
            service_acquisition: TimeoutLayer::new(self.service_acquisition_timeout),
            admission: layers().push(orig_proto_downgrade::layer()).push_concurrency_limit(
                self.max_in_flight_requests,
            ).push_load_shed(),
        }
    }
}

/// Gives transports their labels.
#[derive(Copy, Clone, Debug)]
pub struct TransportLabels;

impl TransportLabels {
    /// The labels of a connection to the local application: it has no
    /// identity.
    pub fn endpoint(&self, endpoint: &Endpoint) -> (key: TransportKey)
        ensures
            key.direction == Direction::In,
            key.peer == crate::metric_labels::Peer::Dst,
            key.tls_status == PeerIdentity::Unknown(
                ReasonForNoIdentity::NoPeerName(ReasonForNoPeerName::Loopback),
            ),
    {
        TransportKey::connect(
            Direction::In,
            &PeerIdentity::Unknown(ReasonForNoIdentity::NoPeerName(ReasonForNoPeerName::Loopback)),
        )
    }

    /// The labels of an accepted connection, whose peer has this identity.
    pub fn accepted(&self, peer_identity: &PeerIdentity) -> (key: TransportKey)
        ensures
            key.direction == Direction::In,
            key.peer == crate::metric_labels::Peer::Src,
            key.tls_status == *peer_identity,
    {
        TransportKey::accept(Direction::In, peer_identity)
    }
}

/// The labels that inbound traces carry: the direction, `inbound`.
pub fn trace_labels() -> (labels: Vec<(String, String)>)
    ensures
        labels@.len() == 1,
        labels@[0].0@ == "direction"@,
        labels@[0].1@ == "inbound"@,
{
    let mut l: Vec<(String, String)> = Vec::new();
    l.push(("direction".to_owned(), "inbound".to_owned()));
    l
}

} // verus!
