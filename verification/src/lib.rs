//! A SOCKS5 proxy core: the handshake state machine, the bookkeeping of the
//! clients that authenticated, a cache of name resolutions, and the parsing of
//! the proxy's configuration lists.
//!
//! Everything here is plain computation; the sockets, files, threads and
//! channels that drive it live with the caller.

pub mod address;
pub mod basic_session;
pub mod client_tracker;
pub mod configuration;
pub mod dns_cache;
pub mod session;
pub mod session_laws;
pub mod wire;
