//! Commands of the node's client.
pub mod command;
pub mod json;
pub mod request;
pub mod rpc_url;
pub mod run;
pub mod schema;
