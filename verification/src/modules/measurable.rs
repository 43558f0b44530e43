//! The measurer capability interface.
//!
//! A measurer discovers artifacts of one class and produces their
//! measurement records; the interface decouples what to measure from how
//! records are shipped, so new artifact classes can be added without
//! touching the orchestrator or the protocol client. Because discovery
//! and submission suspend on outside work, the measurement operation
//! hands back an in-progress procedure value that the surrounding process
//! drives, rather than performing the work itself.

use vstd::prelude::*;

use crate::config::Config;
use crate::error::MeasurementError;

verus! {

/// A pluggable measurer: a stable name, a pure enablement predicate over
/// configuration, and the measurement operation.
pub trait Measurable: Sized {
    /// The in-progress measurement procedure this measurer drives.
    type Session;

    /// The measurer's name, as a mathematical value.
    spec fn spec_name(&self) -> Seq<char>;

    /// Whether this measurer is enabled, as a pure predicate over the
    /// configuration.
    spec fn spec_enabled(&self, config: Config) -> bool;

    /// What the measurement operation guarantees of its result.
    spec fn measure_post(&self, config: Config, r: Result<Self::Session, MeasurementError>) -> bool;

    /// Stable identifier, used only for diagnostics; no side effects.
    fn name(&self) -> (r: String)
        ensures
            r@ == self.spec_name(),
    ;

    /// Checks whether this measurer is enabled in the configuration;
    /// pure, performs no discovery.
    fn is_enabled(&self, config: &Config) -> (r: bool)
        ensures
            r == self.spec_enabled(*config),
    ;

    /// Begins the measurement of this measurer's artifact class:
    /// validates its parameters and returns the procedure that sequences
    /// discovery, digesting and submission.
    fn measure(&self, config: &Config) -> (r: Result<Self::Session, MeasurementError>)
        requires
            config.wf(),
        ensures
            self.measure_post(*config, r),
    ;
}

} // verus!
