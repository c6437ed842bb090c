//! What discovery tells of an endpoint besides its address.

use crate::transport::Name;
use vstd::prelude::*;

verus! {

/// Whether an endpoint is known to speak HTTP/2 whatever the request.
#[derive(Clone, Copy, Debug, PartialEq, Eq, Hash, Structural)]
pub enum ProtocolHint {
    /// Nothing is known: the request's own protocol is used.
    Unknown,
    /// The endpoint is a proxy that takes HTTP/2 and restores the original
    /// protocol.
    Http2,
}

/// The metadata of a discovered endpoint.
#[derive(Clone, Debug)]
pub struct Metadata {
    labels: Vec<(String, String)>,
    protocol_hint: ProtocolHint,
    identity: Option<Name>,
}

impl Metadata {
    pub closed spec fn spec_labels(&self) -> Vec<(String, String)> {
        self.labels
    }

    pub closed spec fn spec_protocol_hint(&self) -> ProtocolHint {
        self.protocol_hint
    }

    pub closed spec fn spec_identity(&self) -> Option<Name> {
        self.identity
    }

    /// The metadata of an endpoint that discovery knows nothing of.
    pub fn empty() -> (metadata: Metadata)
        ensures
            metadata.spec_labels()@.len() == 0,
            metadata.spec_protocol_hint() == ProtocolHint::Unknown,
            metadata.spec_identity().is_none(),
    {
        Metadata { labels: Vec::new(), protocol_hint: ProtocolHint::Unknown, identity: None }
    }

    pub fn new(labels: Vec<(String, String)>, protocol_hint: ProtocolHint, identity: Option<Name>) -> (metadata:
        Metadata)
        ensures
            metadata.spec_labels() == labels,
            metadata.spec_protocol_hint() == protocol_hint,
            metadata.spec_identity() == identity,
    {
        Metadata { labels, protocol_hint, identity }
    }

    pub fn labels(&self) -> (labels: &Vec<(String, String)>)
        ensures
            *labels == self.spec_labels(),
    {
        &self.labels
    }

    #[verifier::when_used_as_spec(spec_protocol_hint)]
    pub fn protocol_hint(&self) -> (hint: ProtocolHint)
        ensures
            hint == self.spec_protocol_hint(),
    {
        self.protocol_hint
    }

    pub fn identity(&self) -> (identity: Option<&Name>)
        ensures
            identity.is_some() == self.spec_identity().is_some(),
            identity.is_some() ==> *identity.unwrap() == self.spec_identity().unwrap(),
    {
        self.identity.as_ref()
    }
}

} // verus!
