//! The labels under which endpoints and routes are counted.

use crate::addr::{Addr, NameAddr};
use crate::transport::{Name, ReasonForNoIdentity};
use vstd::prelude::*;

verus! {

/// Whether traffic comes in to the local application or goes out from it.
#[derive(Clone, Copy, Debug, PartialEq, Eq, Hash, Structural)]
pub enum Direction {
    In,
    Out,
}

/// The identity that a connection's labels carry, or why there is none.
#[derive(Clone, Debug)]
pub enum TlsStatus {
    /// The peer is a client with this identity.
    ClientId(Name),
    /// The peer is a server with this identity.
    ServerId(Name),
    /// No identity.
    NoIdentity(ReasonForNoIdentity),
}

/// The labels of an endpoint.
#[derive(Clone, Debug)]
pub struct EndpointLabels {
    pub direction: Direction,
    pub tls_id: TlsStatus,
    /// The authority that requests were addressed to.
    pub authority: Option<Addr>,
    /// The logical destination's name.
    pub dst_logical: Option<NameAddr>,
    /// The concrete destination's name.
    pub dst_concrete: Option<NameAddr>,
    /// The labels that discovery gave, each to be written with the prefix
    /// `dst`; `None` where discovery gave no metadata at all.
    pub labels: Option<Vec<(String, String)>>,
}

/// Which end of a connection the local proxy is.
#[derive(Clone, Copy, Debug, PartialEq, Eq, Hash, Structural)]
pub enum Peer {
    /// The proxy accepted the connection: the peer is its source.
    Src,
    /// The proxy made the connection: the peer is its destination.
    Dst,
}

/// The labels of a transport: its direction, which end the peer is, and the
/// peer's identity.
#[derive(Clone, Debug)]
pub struct TransportKey {
    pub direction: Direction,
    pub peer: Peer,
    pub tls_status: crate::transport::PeerIdentity,
}

impl TransportKey {
    /// The labels of a connection that the proxy accepted.
    pub fn accept(direction: Direction, identity: &crate::transport::PeerIdentity) -> (key: TransportKey)
        ensures
            key.direction == direction,
            key.peer == Peer::Src,
            key.tls_status == *identity,
    {
        TransportKey { direction, peer: Peer::Src, tls_status: identity.duplicate() }
    }

    /// The labels of a connection that the proxy made.
    pub fn connect(direction: Direction, identity: &crate::transport::PeerIdentity) -> (key: TransportKey)
        ensures
            key.direction == direction,
            key.peer == Peer::Dst,
            key.tls_status == *identity,
    {
        TransportKey { direction, peer: Peer::Dst, tls_status: identity.duplicate() }
    }
}

} // verus!
