//! A sans-I/O client core for a blockchain node's JSON-RPC interface.
//!
//! The crate holds everything that can be decided without touching the
//! network, the clock or a key store: the catalogue of node methods and the
//! shape of each request, the computation of an operation's validity window,
//! and the step function that drives the build, sign and submit pipeline.
//! A thin driver performs the requested actions and feeds the outcomes back.

pub mod address;
pub mod amount;
pub mod keys;
pub mod slot;
pub mod operation;
pub mod method;
pub mod rpc;
pub mod error;
pub mod send;
pub mod policy;
