//! The configuration value object.
//!
//! Configuration is loaded and validated by an external collaborator; the
//! pipeline receives it as an immutable value and never mutates it. It
//! carries the remote agent's address and, per measurer, an enabled flag
//! and the measurer-specific parameters.

use vstd::prelude::*;

verus! {

/// Parameters of the file measurer: which files to measure, how to digest
/// them, and how to label the resulting records.
pub struct FileMeasurerConfig {
    /// Whether the file measurer runs at all.
    pub enabled: bool,
    /// Glob patterns naming the files to measure.
    pub patterns: Vec<String>,
    /// Name of the digest algorithm, validated against a closed set.
    pub hash_algorithm: String,
    /// Classification label attached to every record of this measurer.
    pub domain: String,
    /// Classification label attached to every record of this measurer.
    pub operation: String,
    /// Integrity register the remote log must extend, if any.
    pub register_index: Option<u64>,
}

/// The whole run's configuration: the agent's address plus one block per
/// measurer.
pub struct Config {
    /// Address of the remote attestation agent's socket; required and
    /// non-empty.
    pub attestation_agent_socket: String,
    /// Parameters of the file measurer.
    pub file_measurer: FileMeasurerConfig,
}

impl Config {
    /// A configuration is well formed when the agent address and the
    /// classification labels are non-empty.
    pub open spec fn wf(&self) -> bool {
        &&& self.attestation_agent_socket@.len() > 0
        &&& self.file_measurer.domain@.len() > 0
        &&& self.file_measurer.operation@.len() > 0
    }

    /// Executable form of the well-formedness predicate, for callers that
    /// receive a configuration from an unverified loader.
    pub fn wf_check(&self) -> (r: bool)
        ensures
            r == self.wf(),
    {
        !self.attestation_agent_socket.as_str().is_empty()
            && !self.file_measurer.domain.as_str().is_empty()
            && !self.file_measurer.operation.as_str().is_empty()
    }
}

} // verus!
