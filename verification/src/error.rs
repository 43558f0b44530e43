//! The error taxonomy of the measurement pipeline.
//!
//! Fatal kinds (configuration, connection) abort the run before any
//! measurement; per-file and per-record kinds are recorded at the measurer
//! boundary and converted into a measurer-level failure without stopping
//! iteration over the remaining artifacts.

use vstd::prelude::*;
use vstd::string::StringExecFns;

verus! {

/// One error kind per failure class of the pipeline. Every variant carries
/// a plain-text cause so the operator can diagnose a failed run from the
/// diagnostic output alone.
#[derive(Debug)]
pub enum MeasurementError {
    /// A file could not be read (missing, permission denied, I/O error).
    Io(String),
    /// A configured glob pattern is syntactically malformed; the payload
    /// is the position within the pattern and the parser's message.
    Pattern(usize, String),
    /// The RPC client could not be constructed (for example, an empty
    /// agent address).
    RpcClient(String),
    /// The configured hash algorithm is not in the supported set.
    UnsupportedHashAlgorithm(String),
    /// The attestation agent rejected an extension, the transport failed,
    /// or the call timed out.
    AttestationAgentClient(String),
    /// A failure of a collaborator that fits no other kind.
    Other(String),
}

impl MeasurementError {
    /// A diagnostic message naming the error kind and carrying its cause.
    pub fn message(&self) -> (r: String)
        ensures
            match self {
                MeasurementError::Io(m) => r@ == "IO error: "@ + m@,
                MeasurementError::Pattern(_, m) => r@ == "Glob pattern error: "@ + m@,
                MeasurementError::RpcClient(m) => r@ == "RPC client error: "@ + m@,
                MeasurementError::UnsupportedHashAlgorithm(m) => r@ == "Unsupported hash algorithm: "@
                    + m@,
                MeasurementError::AttestationAgentClient(m) => r@
                    == "Attestation agent client error: "@ + m@,
                MeasurementError::Other(m) => r@ == m@,
            },
    {
        match self {
            MeasurementError::Io(m) => "IO error: ".to_owned().concat(m.as_str()),
            MeasurementError::Pattern(_, m) => "Glob pattern error: ".to_owned().concat(m.as_str()),
            MeasurementError::RpcClient(m) => "RPC client error: ".to_owned().concat(m.as_str()),
            MeasurementError::UnsupportedHashAlgorithm(m) => "Unsupported hash algorithm: "
                .to_owned()
                .concat(m.as_str()),
            MeasurementError::AttestationAgentClient(m) => "Attestation agent client error: "
                .to_owned()
                .concat(m.as_str()),
            MeasurementError::Other(m) => m.clone(),
        }
    }
}

} // verus!
