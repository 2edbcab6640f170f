use vstd::prelude::*;
use crate::method::{plan_hardware, select_method, spec_method, spec_plan, HardwarePlan, Method, Profile};
use crate::registry::not_found_message;
use vstd::string::{StringExecFns, StringSliceAdditionalSpecFns};

verus! {

/// Why a job failed: an unrecoverable precondition on its target.
#[derive(Clone, Copy, Debug, PartialEq, Eq, Structural)]
pub enum FailReason {
    /// The target does not exist.
    Missing,
    /// The target exists but cannot be opened for writing.
    Unwritable,
}

impl FailReason {
    pub open spec fn spec_message(self, path: Seq<char>) -> Seq<char> {
        match self {
            FailReason::Missing => "path not found: "@ + path,
            FailReason::Unwritable => "cannot open for writing: "@ + path,
        }
    }

    /// The failed job's message for a target at `path`.
    pub fn message(&self, path: &str) -> (r: String)
        ensures
            r@ == self.spec_message(path@),
    {
        match self {
            FailReason::Missing => not_found_message(path),
            FailReason::Unwritable => {
                let mut s = String::from_str("cannot open for writing: ");
                s.append(path);
                s
            },
        }
    }
}

/// Where the execution of a running job stands. Each phase names the work
/// its runner is to do next.
#[derive(Clone, Copy, Debug, PartialEq, Eq, Structural)]
pub enum Phase {
    /// Check that the target exists.
    Starting,
    /// Run the planned hardware erase and report whether it erased the target.
    Hardware(HardwarePlan),
    /// Open the target for writing and overwrite it; the method is the
    /// overwrite of the profile.
    Overwriting(Method),
    /// Read the target back, digest it, emit the certificate and notify.
    Certifying(Method),
    /// A precondition failed: the job is recorded as failed.
    Failed(FailReason),
    /// The job is recorded as finished.
    Finished,
}

/// What the runner reports after doing a phase's work.
#[derive(Clone, Copy, Debug, PartialEq, Eq, Structural)]
pub enum Event {
    TargetChecked(bool),
    HardwareDone(bool),
    OverwriteDone,
    /// The target could not be opened for writing; nothing was written.
    TargetUnwritable,
    Certified,
}

/// The phase after `event` in `phase`. An event that does not belong to the
/// phase leaves it as it is.
pub open spec fn spec_next(phase: Phase, event: Event, profile: Profile, path: Seq<u8>, authorized: bool) -> Phase {
    match (phase, event) {
        (Phase::Starting, Event::TargetChecked(exists)) => if exists {
            Phase::Hardware(spec_plan(path, authorized))
        } else {
            Phase::Failed(FailReason::Missing)
        },
        (Phase::Hardware(plan), Event::HardwareDone(ok)) => {
            let m = spec_method(plan, ok, profile);
            if m.is_hardware() { Phase::Certifying(m) } else { Phase::Overwriting(m) }
        },
        (Phase::Overwriting(m), Event::OverwriteDone) => Phase::Certifying(m),
        (Phase::Overwriting(_), Event::TargetUnwritable) => Phase::Failed(FailReason::Unwritable),
        (Phase::Certifying(_), Event::Certified) => Phase::Finished,
        _ => phase,
    }
}

impl Phase {
    /// Whether the job has reached a terminal phase.
    pub open spec fn is_terminal(self) -> bool {
        self is Failed || self == Phase::Finished
    }

    /// The phase after `event`, for a job on `target` under `profile`.
    pub fn next(self, event: Event, profile: Profile, target: &str, authorized: bool) -> (r: Phase)
        ensures
            r == spec_next(self, event, profile, target.spec_bytes(), authorized),
    {
        match (self, event) {
            (Phase::Starting, Event::TargetChecked(exists)) => if exists {
                Phase::Hardware(plan_hardware(target, authorized))
            } else {
                Phase::Failed(FailReason::Missing)
            },
            (Phase::Hardware(plan), Event::HardwareDone(ok)) => {
                let m = select_method(plan, ok, profile);
                if m.uses_hardware() { Phase::Certifying(m) } else { Phase::Overwriting(m) }
            },
            (Phase::Overwriting(m), Event::OverwriteDone) => Phase::Certifying(m),
            (Phase::Overwriting(_), Event::TargetUnwritable) => Phase::Failed(FailReason::Unwritable),
            (Phase::Certifying(_), Event::Certified) => Phase::Finished,
            _ => self,
        }
    }

    pub fn terminal(&self) -> (r: bool)
        ensures
            r == self.is_terminal(),
    {
        match self {
            Phase::Failed(_) | Phase::Finished => true,
            _ => false,
        }
    }
}

/// Without authorization, a job whose target exists goes on to overwrite
/// under its profile, whatever the target path holds and whatever a
/// hardware command would report.
pub proof fn lemma_unauthorized_run_overwrites(path: Seq<u8>, ok: bool, profile: Profile)
    ensures
        spec_next(Phase::Starting, Event::TargetChecked(true), profile, path, false)
            == Phase::Hardware(HardwarePlan::Skip),
        spec_next(Phase::Hardware(HardwarePlan::Skip), Event::HardwareDone(ok), profile, path, false)
            == Phase::Overwriting(Method::Overwrite(profile)),
{
}

/// A terminal phase is left by no event, only a certifying phase leads to a
/// finished one, a missing target is found only at the start, and an
/// unwritable one only when overwriting.
pub proof fn lemma_terminal_and_finish(phase: Phase, event: Event, profile: Profile, path: Seq<u8>, authorized: bool)
    ensures
        phase.is_terminal() ==> spec_next(phase, event, profile, path, authorized) == phase,
        spec_next(phase, event, profile, path, authorized) == Phase::Finished
            ==> phase == Phase::Finished || phase is Certifying,
        spec_next(phase, event, profile, path, authorized) == Phase::Failed(FailReason::Missing)
            ==> phase == Phase::Failed(FailReason::Missing) || phase == Phase::Starting,
        spec_next(phase, event, profile, path, authorized) == Phase::Failed(FailReason::Unwritable)
            ==> phase == Phase::Failed(FailReason::Unwritable) || phase is Overwriting,
{
}

} // verus!
