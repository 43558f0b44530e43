//! The orchestrator: the process-level control loop as a state machine.
//!
//! One run connects to the attestation agent exactly once, then runs each
//! registered measurer in registration order, and finally reports one
//! process-level outcome. A connection failure is fatal: no measurer is
//! ever invoked without an established connection, because a measurement
//! that cannot be extended provides no integrity value and must not be
//! silently dropped. One measurer's failure never prevents a later
//! measurer's attempt, but any failure makes the run's final status a
//! failure.

use vstd::prelude::*;

verus! {

/// How one measurer's turn ended.
#[derive(Clone, Copy, PartialEq, Eq, Structural, Debug)]
pub enum MeasurerOutcome {
    /// The measurer was disabled in the configuration and was not run.
    Skipped,
    /// The measurer ran and every submission succeeded.
    Succeeded,
    /// The measurer ran and at least one step failed.
    Failed,
}

/// What the run must do next.
#[derive(Clone, Copy, PartialEq, Eq, Structural, Debug)]
pub enum OrchestratorAction {
    /// Connect to the attestation agent.
    EstablishConnection,
    /// Run (or skip, if disabled) the measurer with this registration
    /// index.
    RunMeasurer(usize),
    /// Every measurer ran and succeeded or was skipped: exit reporting
    /// success.
    ExitSuccess,
    /// The run failed — fatally before any measurement, or through at
    /// least one failing measurer: exit reporting failure.
    ExitFailure,
}

/// The run's state: how many measurers are registered, whether the agent
/// connection stands, which measurer is next, and whether everything so
/// far succeeded.
pub struct Orchestrator {
    /// Number of registered measurers.
    pub n_measurers: usize,
    /// Whether the connection to the agent is established.
    pub connected: bool,
    /// Whether the run aborted fatally before any measurement.
    pub aborted: bool,
    /// Registration index of the next measurer to run.
    pub next_measurer: usize,
    /// Whether every measurer so far succeeded or was skipped.
    pub all_ok: bool,
}

impl Orchestrator {
    /// The state is well formed: measurers only ever ran under an
    /// established connection, and a fatal abort precludes one.
    pub open spec fn wf(&self) -> bool {
        &&& self.next_measurer <= self.n_measurers
        &&& (!self.connected ==> self.next_measurer == 0)
        &&& (self.aborted ==> !self.connected)
    }

    /// A fresh run over the given registration list: nothing connected,
    /// nothing run, nothing failed.
    pub fn new(n_measurers: usize) -> (r: Orchestrator)
        ensures
            r.wf(),
            r.n_measurers == n_measurers,
            !r.connected,
            !r.aborted,
            r.next_measurer == 0,
            r.all_ok,
    {
        Orchestrator {
            n_measurers,
            connected: false,
            aborted: false,
            next_measurer: 0,
            all_ok: true,
        }
    }

    /// The action the run takes in this state.
    pub open spec fn spec_next_action(&self) -> OrchestratorAction {
        if self.aborted {
            OrchestratorAction::ExitFailure
        } else if !self.connected {
            OrchestratorAction::EstablishConnection
        } else if self.next_measurer < self.n_measurers {
            OrchestratorAction::RunMeasurer(self.next_measurer)
        } else if self.all_ok {
            OrchestratorAction::ExitSuccess
        } else {
            OrchestratorAction::ExitFailure
        }
    }

    /// Decides the next step. A measurer is only ever run under an
    /// established, un-aborted connection, and success is only ever
    /// reported when every measurer ran and none failed.
    pub fn next_action(&self) -> (a: OrchestratorAction)
        requires
            self.wf(),
        ensures
            a == self.spec_next_action(),
            a matches OrchestratorAction::RunMeasurer(i) ==> self.connected && !self.aborted && i
                == self.next_measurer && i < self.n_measurers,
            a == OrchestratorAction::ExitSuccess ==> self.connected && self.all_ok
                && self.next_measurer == self.n_measurers,
    {
        if self.aborted {
            OrchestratorAction::ExitFailure
        } else if !self.connected {
            OrchestratorAction::EstablishConnection
        } else if self.next_measurer < self.n_measurers {
            OrchestratorAction::RunMeasurer(self.next_measurer)
        } else if self.all_ok {
            OrchestratorAction::ExitSuccess
        } else {
            OrchestratorAction::ExitFailure
        }
    }

    /// The agent acknowledged the connection: measurement may begin.
    pub fn connection_established(&mut self)
        requires
            old(self).wf(),
            old(self).spec_next_action() == OrchestratorAction::EstablishConnection,
        ensures
            final(self).wf(),
            final(self).connected,
            !final(self).aborted,
            final(self).n_measurers == old(self).n_measurers,
            final(self).next_measurer == 0,
            final(self).all_ok == old(self).all_ok,
    {
        self.connected = true;
    }

    /// The connection could not be established. The run aborts fatally:
    /// from here the only action is a failure exit, and no measurer was
    /// or will be invoked.
    pub fn connection_failed(&mut self)
        requires
            old(self).wf(),
            old(self).spec_next_action() == OrchestratorAction::EstablishConnection,
        ensures
            final(self).wf(),
            final(self).aborted,
            !final(self).connected,
            final(self).next_measurer == 0,
            final(self).spec_next_action() == OrchestratorAction::ExitFailure,
    {
        self.aborted = true;
    }

    /// The state after one measurer's turn: the run moves to the next
    /// registered measurer whatever the outcome was, and the run's
    /// success stands only while no measurer has failed.
    pub open spec fn spec_after_measurer(&self, outcome: MeasurerOutcome) -> Orchestrator {
        Orchestrator {
            next_measurer: (self.next_measurer + 1) as usize,
            all_ok: self.all_ok && outcome != MeasurerOutcome::Failed,
            ..*self
        }
    }

    /// Records one measurer's outcome and moves on to the next.
    pub fn measurer_finished(&mut self, outcome: MeasurerOutcome)
        requires
            old(self).wf(),
            old(self).spec_next_action() matches OrchestratorAction::RunMeasurer(_),
        ensures
            final(self).wf(),
            *final(self) == old(self).spec_after_measurer(outcome),
            final(self).next_measurer == old(self).next_measurer + 1,
            final(self).all_ok == (old(self).all_ok && outcome != MeasurerOutcome::Failed),
            final(self).connected && !final(self).aborted,
    {
        self.next_measurer = self.next_measurer + 1;
        if matches!(outcome, MeasurerOutcome::Failed) {
            self.all_ok = false;
        }
    }

    /// Whether the exit action reports success, as the process exit code
    /// boundary needs it.
    pub fn exits_with_success(&self) -> (r: bool)
        requires
            self.spec_next_action() == OrchestratorAction::ExitSuccess || self.spec_next_action()
                == OrchestratorAction::ExitFailure,
        ensures
            r == (self.spec_next_action() == OrchestratorAction::ExitSuccess),
    {
        !self.aborted && self.connected && self.all_ok
    }
}

/// A fatal connection failure ends the run with a failure exit and no
/// measurer is ever invoked: in an aborted state the only action is
/// `ExitFailure`, never `RunMeasurer`.
pub proof fn lemma_fatal_abort_runs_no_measurer(o: Orchestrator)
    requires
        o.wf(),
        o.aborted,
    ensures
        o.spec_next_action() == OrchestratorAction::ExitFailure,
        !(o.spec_next_action() matches OrchestratorAction::RunMeasurer(_)),
        o.next_measurer == 0,
{
}

/// One measurer's failure neither prevents the next registered measurer
/// from running nor lets the run end successfully: afterwards the next
/// action is still `RunMeasurer` for the following index while one
/// remains, and whatever the remaining outcomes are, the final action is
/// `ExitFailure`.
pub proof fn lemma_failure_does_not_stop_the_run(o: Orchestrator, outcome: MeasurerOutcome)
    requires
        o.wf(),
        o.spec_next_action() matches OrchestratorAction::RunMeasurer(_),
        outcome == MeasurerOutcome::Failed,
    ensures
        o.spec_after_measurer(outcome).wf(),
        o.next_measurer + 1 < o.n_measurers ==> o.spec_after_measurer(outcome).spec_next_action()
            == OrchestratorAction::RunMeasurer((o.next_measurer + 1) as usize),
        !o.spec_after_measurer(outcome).all_ok,
        forall|later: MeasurerOutcome|
            !(#[trigger] o.spec_after_measurer(outcome).spec_after_measurer(later)).all_ok,
        o.next_measurer + 1 == o.n_measurers ==> o.spec_after_measurer(outcome).spec_next_action()
            == OrchestratorAction::ExitFailure,
{
}

} // verus!
