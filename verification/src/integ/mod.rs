//! What the integration test tool decides: the nodes it creates, the commands it runs, and when
//! a test is over.

pub mod cluster_info;
pub mod ec2_provider;
pub mod eks_provider;
pub mod error;
pub mod monitor;
pub mod nodegroup_provider;
pub mod run;
pub mod updater;
