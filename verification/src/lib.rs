//! The request-plane core of a transparent L4/L7 mesh sidecar proxy.
//!
//! Every component is written as plain data and total functions: a component
//! that waits on a socket, a timer or a lock elsewhere is here the state
//! machine that decides what to do with each outcome of that wait.
//!
//! - `stack` and `svc`: makers, layers and their composition.
//! - `cache` and `router`: a bounded table from routing keys to services.
//! - `lock` and `reconnect`: taking turns at a service, and making a new
//!   connection when one fails.
//! - `buffer`, `concurrency_limit`, `svc::load_shed` and `admission`: which
//!   requests are let in.
//! - `classify`, `retry` and `route_retry`: failures, and which are retried.
//! - `proxy::http::profiles`: routes and weighted splits per destination.
//! - `proxy::discover`, `proxy::tcp::balance` and `fallback`: endpoints.
//! - `inbound` and `outbound`: targets, endpoints and the settings of each
//!   side.

pub mod addr;
pub mod admission;
pub mod budget;
pub mod buffer;
pub mod cache;
pub mod classify;
pub mod concurrency_limit;
pub mod dst;
pub mod errors;
pub mod fallback;
pub mod http_classify;
pub mod http_metrics;
pub mod inbound;
pub mod index;
pub mod lock;
pub mod metric_labels;
pub mod outbound;
pub mod poll;
pub mod proxy;
pub mod reconnect;
pub mod retry;
pub mod route_retry;
pub mod router;
pub mod spawn_ready;
pub mod stack;
pub mod svc;
pub mod sync;
pub mod timeout;
pub mod transport;
pub mod weighted;
