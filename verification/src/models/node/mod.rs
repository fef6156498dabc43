//! The `BottlerocketShadow` custom resource and what is done with it.

pub mod client;
pub mod crd;
pub mod drain;
pub mod error;
