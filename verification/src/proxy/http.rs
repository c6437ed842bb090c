//! HTTP routing: profiles, retries and name canonicalization.

use crate::classify::ResponseInfo;
use crate::dst;
use crate::proxy::http::settings::Version;
use crate::route_retry::HasResponseInfo;
use crate::transport::Meta;
use vstd::prelude::*;

pub mod box_request;
pub mod canonicalize;
pub mod orig_proto;
pub mod profiles;
pub mod retry;
pub mod settings;

verus! {

/// When the handling of a request began, for the metrics of handle time.
#[derive(Clone, Copy, Debug, PartialEq, Eq, Structural)]
pub struct Tracker {
    pub began: u64,
}

/// What the core attaches to a request for the layers further in.
#[derive(Debug)]
pub struct Extensions {
    /// The connection that the request came on.
    pub accepted: Option<Meta>,
    /// When its handling began.
    pub handle_time: Option<Tracker>,
    /// The route that it takes.
    pub route: Option<dst::Route>,
    /// How responses to it are classified.
    pub classify: Option<crate::classify::Response>,
    /// The canonical name of its destination.
    pub canonical_dst: Option<String>,
    /// The protocol that it had before it was sent on as HTTP/2 between
    /// proxies, or restored from that.
    pub orig_proto: Option<Version>,
}

impl Extensions {
    /// No extensions.
    pub fn new() -> (extensions: Extensions)
        ensures
            extensions.accepted.is_none(),
            extensions.handle_time.is_none(),
            extensions.route.is_none(),
            extensions.classify.is_none(),
            extensions.canonical_dst.is_none(),
            extensions.orig_proto.is_none(),
    {
        Extensions {
            accepted: None,
            handle_time: None,
            route: None,
            classify: None,
            canonical_dst: None,
            orig_proto: None,
        }
    }
}

/// A request, as far as the core reads and copies it.
#[derive(Debug)]
pub struct Request<B> {
    pub method: String,
    pub uri: String,
    pub version: Version,
    pub headers: Vec<(String, String)>,
    pub extensions: Extensions,
    pub body: B,
}

/// A response, as far as the core reads it.
#[derive(Debug)]
pub struct Response<B> {
    pub status: u16,
    /// The gRPC status among the headers, if there is one.
    pub grpc_status: Option<u32>,
    /// The gRPC status among the trailers, if the body is at its end and
    /// there is one.
    pub trailer_grpc_status: Option<u32>,
    pub body: B,
}

impl<B> HasResponseInfo for Response<B> {
    open spec fn response_info(&self) -> ResponseInfo {
        ResponseInfo {
            status: self.status,
            grpc_status: self.grpc_status,
            trailer_grpc_status: self.trailer_grpc_status,
        }
    }

    fn info(&self) -> (info: ResponseInfo) {
        ResponseInfo {
            status: self.status,
            grpc_status: self.grpc_status,
            trailer_grpc_status: self.trailer_grpc_status,
        }
    }
}

} // verus!
