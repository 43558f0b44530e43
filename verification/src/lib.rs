//! A runtime measurement pipeline: it discovers artifacts on the host,
//! computes a cryptographic digest of each, and hands each digest to a
//! remote attestation agent so it can be extended into an append-only,
//! order-sensitive measurement log.
//!
//! The crate holds the decision core of the pipeline: the error taxonomy,
//! the configuration value object, digest computation and encoding, the
//! deterministic ordering of discovered artifacts, the protocol client's
//! request construction and reply classification, the measurer state
//! machine, and the orchestrator state machine. The surrounding process
//! (filesystem reads, the RPC transport, logging) drives these components
//! and performs the actions they request.

pub mod config;
pub mod digest;
pub mod error;
pub mod modules;
pub mod orchestrator;
pub mod paths;
pub mod record;
pub mod rpc_client;
