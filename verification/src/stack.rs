//! The stack algebra: makers, layers and their composition.

pub mod layer;
pub mod make;
pub mod make_tuple;
pub mod map_request;
pub mod new_service;
pub mod pending;
pub mod per_make;
pub mod proxy;
pub mod ready;
