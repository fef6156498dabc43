//! The agent: it runs on each node, reports the state of the node and carries out what the
//! controller asks for.

pub mod agentclient;
pub mod agentclient_error;
pub mod apiclient;
pub mod apiclient_error;
pub mod run;
