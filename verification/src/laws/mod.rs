//! What holds of the operator as a whole. Each law is stated of the fields, states and numbers
//! that go into an operation and come out of it.

pub mod agent_loop;
pub mod agent_setup;
pub mod authorization;
pub mod certificates;
pub mod cluster;
pub mod contents;
pub mod controller_loop;
pub mod conversion;
pub mod definitions;
pub mod deployment;
pub mod draining;
pub mod instances;
pub mod integration;
pub mod metrics;
pub mod monitoring;
pub mod nodegroups;
pub mod operations;
pub mod requests;
pub mod schedule;
pub mod settings;
pub mod shadows;
pub mod telemetry;
pub mod texts;
pub mod update_api;
pub mod update_order;
pub mod update_process;
pub mod words;
