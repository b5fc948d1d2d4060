//! Supervision core for a small fleet of external worker processes.
//!
//! The crate models three coupled subsystems: a process registry that maps
//! worker names to supervised worker entries, a correlation-tagged UDP
//! control-plane client for the network-edge worker, and a NAT classification
//! state machine driven by STUN probe outcomes. All protocol decisions,
//! registry bookkeeping and classification rules live here as verified code;
//! the operating-system work (spawning, sockets, HTTP) is performed by a thin
//! runtime layer that feeds plain values in and carries actions out.

pub mod config;
pub mod controller;
pub mod errors;
pub mod members;
pub mod nat_detect;
pub mod numfmt;
pub mod protocol;
pub mod registry;
pub mod strutil;
pub mod worker;
