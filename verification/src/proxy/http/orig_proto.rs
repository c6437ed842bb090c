//! Carrying HTTP/1 requests over HTTP/2 between proxies.

use vstd::prelude::*;

verus! {

/// The header that names a request's original protocol.
pub fn l5d_orig_proto() -> (name: &'static str)
    ensures
        name@ == "l5d-orig-proto"@,
{
    "l5d-orig-proto"
}

/// A service whose HTTP/1 requests are sent as HTTP/2, with their original
/// protocol noted.
#[derive(Clone, Copy, Debug)]
pub struct Upgrade<S> {
    pub inner: S,
    /// Whether the requests' targets were in absolute form.
    pub absolute_form: bool,
}

/// A service whose requests are restored to their original protocol.
#[derive(Clone, Copy, Debug)]
pub struct Downgrade<S> {
    pub inner: S,
}

impl<S> Upgrade<S> {
    pub fn new(inner: S) -> (upgrade: Self)
        ensures
            upgrade.inner == inner,
            !upgrade.absolute_form,
    {
        Upgrade { inner, absolute_form: false }
    }
}

impl<S> Downgrade<S> {
    pub fn new(inner: S) -> (downgrade: Self)
        ensures
            downgrade.inner == inner,
    {
        Downgrade { inner }
    }
}

} // verus!
