//! Clipboard synchronisation between networked peers: the wire codec, the
//! echo guard, per-connection followers and the hub that fans a local
//! clipboard change out to every peer but the one it came from.

pub mod client;
pub mod clipboard;
pub mod codec;
pub mod follower;
pub mod guard;
pub mod listener;
pub mod session;
