//! What the transport tells of a connection: its addresses and who the peer
//! is.

use crate::addr::authority::{is_dns_name, to_ascii_lowercase};
use crate::addr::SocketAddr;
use vstd::prelude::*;
use vstd::string::*;
use vstd::std_specs::cmp::PartialEqSpecImpl;

verus! {

/// Why a peer has no name.
#[derive(Clone, Copy, Debug, PartialEq, Eq, Hash, Structural)]
pub enum ReasonForNoPeerName {
    /// The connection is not HTTP.
    NotHttp,
    /// The HTTP request has no authority.
    NoAuthorityInHttpRequest,
    /// Discovery gave no identity for the endpoint.
    NotProvidedByServiceDiscovery,
    /// The peer is the local application.
    Loopback,
    /// The remote peer presented no identity.
    NotProvidedByRemote,
}

/// Why a connection has no identity.
#[derive(Clone, Copy, Debug, PartialEq, Eq, Hash, Structural)]
pub enum ReasonForNoIdentity {
    /// Identity is switched off.
    Disabled,
    NoPeerName(ReasonForNoPeerName),
}

/// The name of an identity.
#[derive(Clone, Debug, Eq, Hash)]
pub struct Name(pub String);

impl View for Name {
    type V = Seq<char>;

    open spec fn view(&self) -> Seq<char> {
        self.0@
    }
}

impl PartialEq for Name {
    fn eq(&self, other: &Name) -> (equal: bool) {
        self.0 == other.0
    }
}

impl PartialEqSpecImpl for Name {
    open spec fn obeys_eq_spec() -> bool {
        true
    }

    open spec fn eq_spec(&self, other: &Name) -> bool {
        self.0@ == other.0@
    }
}

impl Name {
    /// The identity that a host name names: a DNS name, taken in lower case.
    /// What is no DNS name names none.
    pub fn from_hostname(hostname: &str) -> (name: Option<Name>)
        ensures
            name.is_some() == (vstd::utf8::is_ascii_chars(hostname@) && crate::addr::authority::is_name(
                crate::addr::authority::bytes(hostname@),
            )),
            name.is_some() ==> name.unwrap()@ == crate::addr::authority::lowered(hostname@),
    {
        if hostname.is_ascii() && is_dns_name(hostname) {
            Some(Name(to_ascii_lowercase(hostname)))
        } else {
            None
        }
    }

    pub fn duplicate(&self) -> (copy: Name)
        ensures
            copy == *self,
    {
        Name(self.0.clone())
    }
}

/// The identity of a peer, or the reason why it has none.
#[derive(Clone, Debug, Eq, Hash)]
pub enum PeerIdentity {
    Known(Name),
    Unknown(ReasonForNoIdentity),
}

impl PartialEq for PeerIdentity {
    fn eq(&self, other: &PeerIdentity) -> (equal: bool) {
        match (self, other) {
            (PeerIdentity::Known(a), PeerIdentity::Known(b)) => a == b,
            (PeerIdentity::Unknown(a), PeerIdentity::Unknown(b)) => a == b,
            _ => false,
        }
    }
}

impl PartialEqSpecImpl for PeerIdentity {
    open spec fn obeys_eq_spec() -> bool {
        true
    }

    open spec fn eq_spec(&self, other: &PeerIdentity) -> bool {
        self.same(*other)
    }
}

impl PeerIdentity {
    /// Both name the same identity, or both give the same reason.
    pub open spec fn same(self, other: PeerIdentity) -> bool {
        match (self, other) {
            (PeerIdentity::Known(a), PeerIdentity::Known(b)) => a@ == b@,
            (PeerIdentity::Unknown(a), PeerIdentity::Unknown(b)) => a == b,
            _ => false,
        }
    }

    /// The identity that a name gives, or the reason why there is no name.
    pub fn from_name(name: Option<Name>, reason: ReasonForNoPeerName) -> (identity: PeerIdentity)
        ensures
            identity == (match name {
                Some(name) => PeerIdentity::Known(name),
                None => PeerIdentity::Unknown(ReasonForNoIdentity::NoPeerName(reason)),
            }),
    {
        match name {
            Some(name) => PeerIdentity::Known(name),
            None => PeerIdentity::Unknown(ReasonForNoIdentity::NoPeerName(reason)),
        }
    }

    pub fn name(&self) -> (name: Option<&Name>)
        ensures
            match *self {
                PeerIdentity::Known(n) => name == Some(&n),
                PeerIdentity::Unknown(_) => name.is_none(),
            },
    {
        match self {
            PeerIdentity::Known(name) => Some(name),
            PeerIdentity::Unknown(_) => None,
        }
    }

    pub fn duplicate(&self) -> (copy: PeerIdentity)
        ensures
            copy == *self,
    {
        match self {
            PeerIdentity::Known(name) => PeerIdentity::Known(name.duplicate()),
            PeerIdentity::Unknown(reason) => PeerIdentity::Unknown(*reason),
        }
    }
}

/// The addresses of an accepted connection.
#[derive(Clone, Copy, Debug, PartialEq, Eq, Hash, Structural)]
pub struct Addrs {
    /// The address that the listener accepted on.
    pub local: SocketAddr,
    /// The address of the peer.
    pub peer: SocketAddr,
    /// The address that the peer meant to reach, where the connection was
    /// redirected to the listener.
    pub orig_dst: Option<SocketAddr>,
}

impl Addrs {
    pub open spec fn spec_target_addr(&self) -> SocketAddr {
        match self.orig_dst {
            Some(addr) => addr,
            None => self.local,
        }
    }

    /// The address that the connection is for: the original destination
    /// where there is one, else the listener's.
    #[verifier::when_used_as_spec(spec_target_addr)]
    pub fn target_addr(&self) -> (addr: SocketAddr)
        ensures
            addr == self.spec_target_addr(),
    {
        match self.orig_dst {
            Some(addr) => addr,
            None => self.local,
        }
    }

    pub open spec fn spec_target_addr_if_not_local(&self) -> Option<SocketAddr> {
        match self.orig_dst {
            Some(addr) => if addr.ip == self.local.ip && addr.port == self.local.port {
                None
            } else {
                Some(addr)
            },
            None => None,
        }
    }

    /// The original destination, unless it is the listener itself.
    #[verifier::when_used_as_spec(spec_target_addr_if_not_local)]
    pub fn target_addr_if_not_local(&self) -> (addr: Option<SocketAddr>)
        ensures
            addr == self.spec_target_addr_if_not_local(),
    {
        match self.orig_dst {
            Some(addr) => if addr.ip == self.local.ip && addr.port == self.local.port {
                None
            } else {
                Some(addr)
            },
            None => None,
        }
    }

    pub fn peer(&self) -> (addr: SocketAddr)
        ensures
            addr == self.peer,
    {
        self.peer
    }
}

/// What is known of an accepted connection.
#[derive(Clone, Debug)]
pub struct Meta {
    pub addrs: Addrs,
    pub peer_identity: PeerIdentity,
}

impl Meta {
    pub fn new(addrs: Addrs, peer_identity: PeerIdentity) -> (meta: Meta)
        ensures
            meta.addrs == addrs,
            meta.peer_identity == peer_identity,
    {
        Meta { addrs, peer_identity }
    }

    pub fn duplicate(&self) -> (copy: Meta)
        ensures
            copy == *self,
    {
        Meta { addrs: self.addrs, peer_identity: self.peer_identity.duplicate() }
    }
}

} // verus!
