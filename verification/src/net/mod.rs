//! The peers of a node.
pub mod accept;
pub mod channel;
pub mod connect;
pub mod dial;
pub mod error;
pub mod known;
pub mod peer_message;
pub mod peers;
pub mod redial;
pub mod seed;
pub mod startup;
pub mod tls;
