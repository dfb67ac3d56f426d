//! GhostMesh: the decision logic of a peer-to-peer mesh node.
//!
//! The node replicates a grow-only log across its peers, routes
//! encrypted direct messages and keeps track of its connections. This
//! crate holds the rules of that node as functions from plain values to
//! plain values; the program around it performs the input and output.

pub mod action;
pub mod command;
pub mod ble;
pub mod dm;
pub mod http;
pub mod identity;
pub mod invariants;
pub mod node;
pub mod shared_log;
pub mod state;
pub mod storage;
pub mod telemetry;
pub mod transport;
pub mod text;
