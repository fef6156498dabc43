//! The resources that the components share.

pub mod agent;
pub mod apiserver;
pub mod constants;
pub mod controller;
pub mod crypto;
pub mod manifest;
pub mod meta;
pub mod namespace;
pub mod node;
pub mod telemetry;
