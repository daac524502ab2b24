//! Peer-to-peer text chat over UDP for two endpoints behind NAT.
//!
//! The crate holds the decisions of the program, each with a contract:
//! the STUN Binding exchange that discovers the public address of the local
//! endpoint, the life cycle of the socket that is first pointed at the STUN
//! server and then at the peer, the receive loop that turns datagrams into
//! messages, and the line editor of the console. Sockets, threads and the
//! terminal belong to the program that drives these state machines.

pub mod console;
pub mod discovery;
pub mod edit_line;
pub mod engine;
pub mod session;
pub mod stun;
pub mod wire;
