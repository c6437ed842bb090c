//! Addresses: named destinations and socket addresses, as plain values.

use vstd::prelude::*;
use vstd::std_specs::cmp::PartialEqSpecImpl;

pub mod authority;

verus! {

/// An IP address, by its bits.
#[derive(Clone, Copy, Debug, PartialEq, Eq, Hash, Structural)]
pub enum IpAddr {
    V4(u32),
    V6(u128),
}

/// An IP address and a port.
#[derive(Clone, Copy, Debug, PartialEq, Eq, Hash, Structural)]
pub struct SocketAddr {
    pub ip: IpAddr,
    pub port: u16,
}

impl SocketAddr {
    pub fn new(ip: IpAddr, port: u16) -> (addr: SocketAddr)
        ensures
            addr.ip == ip,
            addr.port == port,
    {
        SocketAddr { ip, port }
    }

    /// The loopback address `127.0.0.1` with the given port.
    pub fn loopback(port: u16) -> (addr: SocketAddr)
        ensures
            addr.ip == IpAddr::V4(0x7f00_0001),
            addr.port == port,
    {
        SocketAddr { ip: IpAddr::V4(0x7f00_0001), port }
    }

    pub fn port(&self) -> (port: u16)
        ensures
            port == self.port,
    {
        self.port
    }
}

/// A DNS name and a port.
#[derive(Clone, Debug, Eq, Hash)]
pub struct NameAddr {
    pub name: String,
    pub port: u16,
}

impl View for NameAddr {
    type V = (Seq<char>, u16);

    open spec fn view(&self) -> (Seq<char>, u16) {
        (self.name@, self.port)
    }
}

impl PartialEq for NameAddr {
    fn eq(&self, other: &NameAddr) -> (equal: bool) {
        self.name == other.name && self.port == other.port
    }
}

impl PartialEqSpecImpl for NameAddr {
    open spec fn obeys_eq_spec() -> bool {
        true
    }

    open spec fn eq_spec(&self, other: &NameAddr) -> bool {
        self.name@ == other.name@ && self.port == other.port
    }
}

impl NameAddr {
    pub fn new(name: String, port: u16) -> (addr: NameAddr)
        ensures
            addr.name == name,
            addr.port == port,
    {
        NameAddr { name, port }
    }

    pub fn name(&self) -> (name: &String)
        ensures
            name == self.name,
    {
        &self.name
    }

    pub fn port(&self) -> (port: u16)
        ensures
            port == self.port,
    {
        self.port
    }

    /// A copy with the same name and port.
    pub fn duplicate(&self) -> (copy: NameAddr)
        ensures
            copy == *self,
    {
        NameAddr { name: self.name.clone(), port: self.port }
    }
}

/// Either a named address or a socket address.
#[derive(Clone, Debug, Eq, Hash)]
pub enum Addr {
    Name(NameAddr),
    Socket(SocketAddr),
}

impl PartialEq for Addr {
    fn eq(&self, other: &Addr) -> (equal: bool) {
        match (self, other) {
            (Addr::Name(a), Addr::Name(b)) => a == b,
            (Addr::Socket(a), Addr::Socket(b)) => a == b,
            _ => false,
        }
    }
}

impl PartialEqSpecImpl for Addr {
    open spec fn obeys_eq_spec() -> bool {
        true
    }

    open spec fn eq_spec(&self, other: &Addr) -> bool {
        match (self, other) {
            (Addr::Name(a), Addr::Name(b)) => a@ == b@,
            (Addr::Socket(a), Addr::Socket(b)) => a == b,
            _ => false,
        }
    }
}

impl Addr {
    /// The named address, if this is one.
    pub fn name_addr(&self) -> (name: Option<&NameAddr>)
        ensures
            match *self {
                Addr::Name(n) => name == Some(&n),
                Addr::Socket(_) => name.is_none(),
            },
    {
        match self {
            Addr::Name(n) => Some(n),
            Addr::Socket(_) => None,
        }
    }

    pub fn port(&self) -> (port: u16)
        ensures
            port == match *self {
                Addr::Name(n) => n.port,
                Addr::Socket(s) => s.port,
            },
    {
        match self {
            Addr::Name(n) => n.port,
            Addr::Socket(s) => s.port,
        }
    }

    /// A copy of this address.
    pub fn duplicate(&self) -> (copy: Addr)
        ensures
            copy == *self,
    {
        match self {
            Addr::Name(n) => Addr::Name(n.duplicate()),
            Addr::Socket(s) => Addr::Socket(*s),
        }
    }
}

} // verus!
