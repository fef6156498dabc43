//! The rules of the Bottlerocket update operator: the node state machine, the
//! decisions of the agent, the apiserver and the controller, the resources that
//! are installed in the cluster, and the plans of the integration test tool.

pub mod text;
pub mod version;
pub mod time;
pub mod retry;
pub mod string_map;
pub mod models;
pub mod controller;
pub mod agent;
pub mod apiserver;
pub mod integ;
pub mod laws;
