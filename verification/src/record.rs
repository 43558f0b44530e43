//! The measurement record: one labeled digest, constructed per artifact
//! immediately before submission and discarded after the call returns.

use vstd::prelude::*;

verus! {

/// One measurement: classification labels, the digest string of the
/// measured content, and the integrity register to extend, if any.
pub struct MeasurementRecord {
    /// Classification label understood by the remote agent; non-empty.
    pub domain: String,
    /// Classification label understood by the remote agent; non-empty.
    pub operation: String,
    /// The measured value, encoded as a lowercase hexadecimal digest
    /// string; deterministic in the content bytes and the algorithm.
    pub content: String,
    /// The integrity register the remote log must extend; when absent the
    /// record is logged without register extension semantics.
    pub register_index: Option<u64>,
}

impl MeasurementRecord {
    /// A record is well formed when both classification labels are
    /// non-empty.
    pub open spec fn wf(&self) -> bool {
        &&& self.domain@.len() > 0
        &&& self.operation@.len() > 0
    }

    /// Builds a record carrying exactly the given labels, content and
    /// register.
    pub fn new(
        domain: &String,
        operation: &String,
        content: String,
        register_index: Option<u64>,
    ) -> (r: MeasurementRecord)
        requires
            domain@.len() > 0,
            operation@.len() > 0,
        ensures
            r.domain@ == domain@,
            r.operation@ == operation@,
            r.content == content,
            r.register_index == register_index,
            r.wf(),
    {
        MeasurementRecord {
            domain: domain.clone(),
            operation: operation.clone(),
            content,
            register_index,
        }
    }
}

} // verus!
