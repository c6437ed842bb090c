//! Forwarding connections as bytes, and balancing over endpoints.

pub mod balance;
pub mod boxed;
pub mod forward;
