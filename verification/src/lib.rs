//! The SOCKS5 protocol as a verified library: the wire constants and codes,
//! the built-in user table, address encoding and decoding, and the two
//! handshakes (server and client) as state machines that say which bytes to
//! read next, which bytes to send, and when to connect or give up.
pub mod options;
pub mod socks;
pub mod users;
pub mod address;
pub mod server;
pub mod client;
pub mod laws;
