//! Core of a two-peer performance-capture session: a recorder drives a
//! runner over a framed TCP protocol through a handshake-with-restart, a
//! build download, and an optional profile transfer.
//!
//! This crate holds the verified logic: the frame codec, the typed message
//! layer, both peers' procedure state machines, the artifact expiry rules,
//! and the reconnect retry schedule. Sockets, files and zip extraction live
//! outside, behind thin capabilities.

pub mod codec;
pub mod messages;
pub mod recorder;
pub mod retry;
pub mod runner;
