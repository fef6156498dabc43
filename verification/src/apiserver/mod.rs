//! The apiserver: it changes resources on behalf of the agents, once they have shown which node
//! they run on.

pub mod api;
pub mod api_error;
pub mod auth;
pub mod client;
pub mod constants;
pub mod tls;
pub mod webhook;
