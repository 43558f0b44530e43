//! The protocol client's decision core.
//!
//! The client owns the sole channel by which a record becomes part of the
//! remote measurement log. Establishing the connection and carrying the
//! call over the wire are outside work performed by the surrounding
//! process; what is decided here, and verified, is the shape of each call
//! (the four record fields under the fixed per-call timeout) and the
//! translation of every protocol-level outcome into the typed error
//! taxonomy. No failed call is ever retried.

use vstd::prelude::*;

use crate::error::MeasurementError;

verus! {

/// Fixed timeout of one extension call, in nanoseconds. It is not
/// configurable per measurer and is not extended for batches.
pub const EXTEND_TIMEOUT_NANO: u64 = 5_000_000_000;

/// One extension call, ready for the transport: the record's four fields
/// and the timeout the call runs under.
pub struct ExtendCall {
    /// The integrity register to extend, if any.
    pub register_index: Option<u64>,
    /// Classification label of the record.
    pub domain: String,
    /// Classification label of the record.
    pub operation: String,
    /// The digest string of the record.
    pub content: String,
    /// Per-call timeout in nanoseconds.
    pub timeout_nano: u64,
}

/// The outcome the transport reports for one extension call.
pub enum ExtendReply {
    /// The remote agent acknowledged the extension; the value is durably
    /// part of the log.
    Acknowledged,
    /// The call did not complete within the fixed timeout.
    TimedOut,
    /// The transport failed before an answer arrived.
    Transport(String),
    /// The remote agent answered with an application-level rejection.
    Rejected(String),
}

/// The client proper: the agent's address and the per-call timeout. The
/// open connection handle itself lives with the transport that drives
/// this core.
pub struct AAClient {
    /// Address of the remote attestation agent's socket.
    pub socket_address: String,
    /// Per-call timeout in nanoseconds.
    pub timeout_nano: u64,
}

impl AAClient {
    /// Prepares a client for the given agent address. An absent (empty)
    /// address is rejected at once: no measurement can proceed without a
    /// connection, so the whole run must abort.
    pub fn new(socket_addr: &str) -> (r: Result<AAClient, MeasurementError>)
        ensures
            match r {
                Ok(c) => {
                    &&& socket_addr@.len() > 0
                    &&& c.socket_address@ == socket_addr@
                    &&& c.timeout_nano == EXTEND_TIMEOUT_NANO
                },
                Err(e) => {
                    &&& socket_addr@.len() == 0
                    &&& e matches MeasurementError::RpcClient(m)
                        && m@ == "attestation agent address is empty"@
                },
            },
    {
        if socket_addr.is_empty() {
            Err(MeasurementError::RpcClient("attestation agent address is empty".to_owned()))
        } else {
            Ok(AAClient { socket_address: socket_addr.to_owned(), timeout_nano: EXTEND_TIMEOUT_NANO })
        }
    }

    /// Builds the single RPC call that extends one labeled digest into
    /// the remote log: exactly the four record fields, under this
    /// client's fixed timeout.
    pub fn extend_runtime_measurement(
        &self,
        pcr_index_opt: Option<u64>,
        domain: &str,
        operation: &str,
        content: &str,
    ) -> (r: ExtendCall)
        ensures
            r.register_index == pcr_index_opt,
            r.domain@ == domain@,
            r.operation@ == operation@,
            r.content@ == content@,
            r.timeout_nano == self.timeout_nano,
    {
        ExtendCall {
            register_index: pcr_index_opt,
            domain: domain.to_owned(),
            operation: operation.to_owned(),
            content: content.to_owned(),
            timeout_nano: self.timeout_nano,
        }
    }

    /// Classifies the transport's outcome for one call: an
    /// acknowledgment is success, and every failure — timeout, transport
    /// fault, or application-level rejection — surfaces as the agent
    /// client error kind carrying the underlying cause. Nothing is
    /// retried.
    pub fn interpret_reply(&self, reply: ExtendReply) -> (r: Result<(), MeasurementError>)
        ensures
            match reply {
                ExtendReply::Acknowledged => r is Ok,
                ExtendReply::TimedOut => r matches Err(
                    MeasurementError::AttestationAgentClient(m),
                ) && m@ == "extend call timed out"@,
                ExtendReply::Transport(c) => r matches Err(
                    MeasurementError::AttestationAgentClient(m),
                ) && m@ == c@,
                ExtendReply::Rejected(c) => r matches Err(
                    MeasurementError::AttestationAgentClient(m),
                ) && m@ == c@,
            },
    {
        match reply {
            ExtendReply::Acknowledged => Ok(()),
            ExtendReply::TimedOut => Err(
                MeasurementError::AttestationAgentClient("extend call timed out".to_owned()),
            ),
            ExtendReply::Transport(c) => Err(MeasurementError::AttestationAgentClient(c)),
            ExtendReply::Rejected(c) => Err(MeasurementError::AttestationAgentClient(c)),
        }
    }
}

} // verus!
