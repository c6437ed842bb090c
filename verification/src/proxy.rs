//! The proxy's protocol-aware parts.

pub mod api_resolve;
pub mod discover;
pub mod http;
pub mod tcp;
