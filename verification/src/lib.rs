//! Peer networking and command line of a blind merge mined sidechain node.
//!
//! `net` holds the rules by which a node keeps its peers: which seed nodes a
//! network has, when a peer is dialed, recorded, accepted, refused or forgotten,
//! and how long the node waits before it dials again. `cli` turns a command into
//! the remote call that serves it, and the reply into what is printed. Sockets,
//! databases and timers are driven from outside by the actions stated here.
pub mod cli;
pub mod net;
pub mod text;
pub mod types;
