//! The negotiation rules and relay decisions of a SOCKS5 proxy that serves the
//! CONNECT command over IPv4 and domain-name destinations.
//!
//! Every function here is a pure decision over plain values: the bytes a peer
//! sent, or the outcome of a connect, a read or a write. Sockets, tasks and
//! timers belong to the program that drives these functions.


pub mod address;
pub mod error;
pub mod handlers;
pub mod relay;
pub mod session;



pub mod wire;


pub use address::{S5Addr, S5Request};
pub use error::S5Error;
pub use wire::get_port;
