//! The two kinds of remote device and the byte framing they share.

mod journal;
pub mod smartsocket;
pub mod termo;
pub mod wire;
