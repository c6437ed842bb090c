//! What the head of a request tells the router: the protocol settings and
//! the addresses that the request names.

use crate::addr::authority::{from_authority_and_default_port, DEFAULT_PORT};
use crate::addr::{Addr, IpAddr, SocketAddr};
use crate::transport::Name;
use vstd::prelude::*;
use vstd::string::*;

verus! {

/// The HTTP version of a request.
#[derive(Clone, Copy, Debug, PartialEq, Eq, Hash, Structural)]
pub enum Version {
    Http10,
    Http11,
    Http2,
}

/// An address taken from a header or from the request's target.
#[derive(Clone, Debug)]
pub enum Named {
    /// The request has no such header.
    Absent,
    /// The header is there and empty.
    Empty,
    /// The header is there and holds no address.
    Invalid,
    /// The address that it holds; a port it does not give was taken as 80.
    Addr(Addr),
}

/// Whether `named` is what a header with this value names: nothing where
/// the header is absent or empty, the address that the value holds, and else
/// a value that holds none.
pub open spec fn header_names(value: Option<&str>, named: Named) -> bool {
    match value {
        None => named is Absent,
        Some(text) => if text@.len() == 0 {
            named is Empty
        } else {
            match crate::addr::authority::authority_of(text@, DEFAULT_PORT) {
                None => named is Invalid,
                Some(crate::addr::authority::Named::Socket(ip, port)) => named == Named::Addr(
                    Addr::Socket(SocketAddr { ip: IpAddr::V4(ip as u32), port }),
                ),
                Some(crate::addr::authority::Named::Socket6(ip, port)) => named == Named::Addr(
                    Addr::Socket(SocketAddr { ip: IpAddr::V6(ip as u128), port }),
                ),
                Some(crate::addr::authority::Named::Name(name, port)) => {
                    &&& named matches Named::Addr(Addr::Name(n))
                    &&& named->Addr_0->Name_0.name@ == name
                    &&& named->Addr_0->Name_0.port == port
                },
            }
        },
    }
}

/// Whether `name` is the identity that a header with this value requires:
/// the value in lower case where it is a DNS name, and else none.
pub open spec fn identity_names(value: Option<&str>, name: Option<Name>) -> bool {
    match value {
        None => name.is_none(),
        Some(text) => {
            &&& name.is_some() == (vstd::utf8::is_ascii_chars(text@)
                && crate::addr::authority::is_name(crate::addr::authority::bytes(text@)))
            &&& name.is_some() ==> name.unwrap()@ == crate::addr::authority::lowered(text@)
        },
    }
}

impl Named {
    /// What the value of a header names, or the authority of a request's
    /// target: an address where it holds one, with port 80 where it gives no
    /// port.
    pub fn from_header(value: Option<&str>) -> (named: Named)
        ensures
            header_names(value, named),
    {
        match value {
            None => Named::Absent,
            Some(text) => {
                if text.unicode_len() == 0 {
                    Named::Empty
                } else {
                    match from_authority_and_default_port(text, DEFAULT_PORT) {
                        Some(addr) => Named::Addr(addr),
                        None => Named::Invalid,
                    }
                }
            },
        }
    }

    pub open spec fn spec_addr(&self) -> Option<Addr> {
        match *self {
            Named::Addr(addr) => Some(addr),
            _ => None,
        }
    }

    /// The address, where there is one.
    pub fn addr(&self) -> (addr: Option<&Addr>)
        ensures
            match *self {
                Named::Addr(a) => addr == Some(&a),
                _ => addr.is_none(),
            },
    {
        match self {
            Named::Addr(addr) => Some(addr),
            _ => None,
        }
    }

    /// Whether the request names something here, be it an address or not.
    pub fn is_named(&self) -> (named: bool)
        ensures
            named == (*self is Invalid || *self is Addr),
    {
        match self {
            Named::Invalid => true,
            Named::Addr(_) => true,
            _ => false,
        }
    }
}

/// What the router reads of a request's head.
#[derive(Clone, Debug)]
pub struct RequestHead {
    pub version: Version,
    /// The method is `CONNECT`.
    pub connect: bool,
    /// There is an `upgrade` header, and this is whether it asks for `h2c`.
    pub upgrade_h2c: Option<bool>,
    /// The request target is in absolute form: it has a scheme.
    pub absolute_form: bool,
    /// The content type is a gRPC one.
    pub grpc: bool,
    /// The authority of the request target.
    pub authority: Named,
    /// The `host` header.
    pub host: Named,
    /// The `l5d-dst-override` header.
    pub dst_override: Named,
    /// The `l5d-dst-canonical` header.
    pub dst_canonical: Named,
    /// The identity that the `l5d-require-id` header asks of the server.
    pub require_identity: Option<Name>,
}

/// The texts of a request's head that the router reads: the method, and
/// the headers by their values where the request has them.
#[derive(Clone, Copy, Debug)]
pub struct HeadParts<'a> {
    pub version: Version,
    pub method: &'a str,
    /// Whether the request target has a scheme.
    pub scheme: bool,
    /// The authority of the request target.
    pub authority: Option<&'a str>,
    pub host: Option<&'a str>,
    pub content_type: Option<&'a str>,
    pub upgrade: Option<&'a str>,
    /// The `l5d-dst-override` header.
    pub dst_override: Option<&'a str>,
    /// The `l5d-dst-canonical` header.
    pub dst_canonical: Option<&'a str>,
    /// The `l5d-require-id` header.
    pub require_id: Option<&'a str>,
}

fn same_text(a: &str, b: &str) -> (same: bool)
    ensures
        same == (a@ == b@),
{
    if a.unicode_len() != b.unicode_len() {
        return false;
    }
    let same = crate::classify::starts_with(a, b);
    proof {
        assert(a@.subrange(0, a@.len() as int) =~= a@);
    }
    same
}

impl RequestHead {
    /// Reads the head of a request: the method is compared with `CONNECT`
    /// and the upgrade with `h2c`, the content type is looked at for gRPC,
    /// the addresses are read out of their texts, and the required identity
    /// is taken where it is a DNS name.
    pub fn from_parts(parts: HeadParts<'_>) -> (head: RequestHead)
        ensures
            head.version == parts.version,
            head.connect == (parts.method@ == "CONNECT"@),
            head.upgrade_h2c == (match parts.upgrade {
                Some(upgrade) => Some(upgrade@ == "h2c"@),
                None => None,
            }),
            head.absolute_form == parts.scheme,
            head.grpc == (match parts.content_type {
                Some(content_type) => crate::classify::has_prefix(
                    content_type@,
                    "application/grpc"@,
                ),
                None => false,
            }),
            header_names(parts.authority, head.authority),
            header_names(parts.host, head.host),
            header_names(parts.dst_override, head.dst_override),
            header_names(parts.dst_canonical, head.dst_canonical),
            identity_names(parts.require_id, head.require_identity),
    {
        RequestHead {
            version: parts.version,
            connect: same_text(parts.method, "CONNECT"),
            upgrade_h2c: match parts.upgrade {
                Some(upgrade) => Some(same_text(upgrade, "h2c")),
                None => None,
            },
            absolute_form: parts.scheme,
            grpc: match parts.content_type {
                Some(content_type) => crate::classify::is_grpc(content_type),
                None => false,
            },
            authority: Named::from_header(parts.authority),
            host: Named::from_header(parts.host),
            dst_override: Named::from_header(parts.dst_override),
            dst_canonical: Named::from_header(parts.dst_canonical),
            require_identity: match parts.require_id {
                Some(name) => Name::from_hostname(name),
                None => None,
            },
        }
    }
}

/// The protocol settings of a request.
#[derive(Clone, Copy, Debug, PartialEq, Eq, Hash, Structural)]
pub enum Settings {
    NotHttp,
    Http1 {
        /// Whether the connection may be kept for later requests.
        keep_alive: bool,
        /// Whether the request asks to change protocols.
        wants_h1_upgrade: bool,
        /// Whether the request target was in absolute form.
        was_absolute_form: bool,
    },
    Http2,
}

/// An HTTP/1.1 request asks to change protocols where it has an `upgrade`
/// header that does not ask for `h2c`, or, without that header, where its
/// method is `CONNECT`. HTTP/1.0 knows no upgrades.
pub open spec fn wants_upgrade(head: RequestHead) -> bool {
    head.version == Version::Http11 && match head.upgrade_h2c {
        Some(h2c) => !h2c,
        None => head.connect,
    }
}

/// A request names no authority where its target has none and its `host`
/// header is absent or empty.
pub open spec fn is_missing_authority(head: RequestHead) -> bool {
    !(head.authority is Invalid || head.authority is Addr) && !(head.host is Invalid
        || head.host is Addr)
}

impl Settings {
    pub open spec fn of(head: RequestHead) -> Settings {
        if head.version == Version::Http2 {
            Settings::Http2
        } else {
            Settings::Http1 {
                keep_alive: !is_missing_authority(head),
                wants_h1_upgrade: wants_upgrade(head),
                was_absolute_form: head.absolute_form,
            }
        }
    }

    /// The settings of a request. An HTTP/1 connection is kept alive only
    /// for requests that name an authority.
    pub fn from_request(head: &RequestHead) -> (settings: Settings)
        ensures
            settings == Settings::of(*head),
    {
        match head.version {
            Version::Http2 => Settings::Http2,
            _ => {
                let missing = !head.authority.is_named() && !head.host.is_named();
                let upgrade = match head.version {
                    Version::Http11 => match head.upgrade_h2c {
                        Some(h2c) => !h2c,
                        None => head.connect,
                    },
                    _ => false,
                };
                Settings::Http1 {
                    keep_alive: !missing,
                    wants_h1_upgrade: upgrade,
                    was_absolute_form: head.absolute_form,
                }
            },
        }
    }

    pub fn is_http2(&self) -> (http2: bool)
        ensures
            http2 == (*self is Http2),
    {
        match self {
            Settings::Http2 => true,
            _ => false,
        }
    }

    /// Whether an HTTP/1 request's target was in absolute form.
    pub fn was_absolute_form(&self) -> (absolute: bool)
        ensures
            absolute == (*self matches Settings::Http1 { was_absolute_form: true, .. }),
    {
        match self {
            Settings::Http1 { was_absolute_form, .. } => *was_absolute_form,
            _ => false,
        }
    }
}

/// A target that has protocol settings.
pub trait HasSettings {
    open spec fn settings(&self) -> Settings {
        arbitrary()
    }

    fn http_settings(&self) -> (settings: &Settings)
        ensures
            *settings == self.settings(),
    ;
}

} // verus!
