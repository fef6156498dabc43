//! The controller: which node is updated next, and when.

pub mod controller;
pub mod controllerclient_error;
pub mod metrics;
pub mod metrics_error;
pub mod scheduler;
pub mod scheduler_error;
pub mod sorting;
pub mod statemachine;
