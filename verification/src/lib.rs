//! Outbound data plane of a per-workload mesh proxy: the routing decision for
//! one connection, the dispatch plan that follows from it, the accept loop's
//! life cycle and the SOCKS5 front end's handshake, each as a verified
//! function from plain values to plain values.

pub mod acceptor;
pub mod addr;
pub mod directory;
pub mod dispatch;
pub mod model;
pub mod request;
pub mod resolve;
pub mod socks5;
