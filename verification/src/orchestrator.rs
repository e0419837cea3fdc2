//! Proof orchestrator: the state machine that drives backend attempts and
//! the at-most-once fallback from the network backend to the local one.
//!
//! The orchestrator never runs a proving computation itself. It hands the
//! caller the next backend to attempt; the caller constructs that backend
//! (from an explicit per-attempt configuration), runs it, and feeds the
//! outcome back. On a failure the diagnostic is classified: a recoverable
//! failure moves to the next backend in the plan if one is left, anything
//! else concludes the request. Setup failures are reported the same way as
//! proving failures. Exactly one terminal action is produced per request.

use vstd::prelude::*;

use crate::classify::{is_recoverable, spec_is_recoverable};
use crate::config::ConfigSnapshot;
use crate::request::{validate, InputError, ProofInput, ProofRequest};
use crate::select::{select, spec_plan, valid_plan, BackendId};

verus! {

/// Opaque result of successful proving: proof bytes plus the public values
/// the proof commits to.
#[derive(Clone, Debug, PartialEq, Eq)]
pub struct ProofArtifact {
    /// The serialized proof.
    pub proof_bytes: Vec<u8>,
    /// The public values the proof attests to.
    pub public_values: Vec<u8>,
}

/// One failed attempt: which backend failed, and the diagnostic it gave.
/// A failure of backend construction is reported the same way.
#[derive(Clone, Debug, PartialEq, Eq)]
pub struct BackendFailure {
    /// The backend the attempt ran against.
    pub backend: BackendId,
    /// The diagnostic text of the failure, as UTF-8 bytes.
    pub diagnostic: Vec<u8>,
}

/// What one backend attempt came to.
#[derive(Clone, Debug, PartialEq, Eq)]
pub enum AttemptOutcome {
    /// The attempt produced a proof.
    Succeeded(ProofArtifact),
    /// The attempt failed, with a diagnostic.
    Failed(BackendFailure),
}

/// Why a request ended without a proof.
#[derive(Clone, Copy, Debug, PartialEq, Eq, Structural)]
pub enum FatalReason {
    /// The diagnostic matched no recoverable pattern.
    NotRecoverable,
    /// The failure was recoverable, but no backend was left to try.
    NoBackendLeft,
}

/// A terminal failure, surfaced to the caller as a structured error.
#[derive(Clone, Debug, PartialEq, Eq)]
pub struct FatalError {
    /// Why the request ended.
    pub reason: FatalReason,
    /// The failure that ended it.
    pub failure: BackendFailure,
}

/// The single outcome of a request: a proof, or a classified failure.
#[derive(Clone, Debug, PartialEq, Eq)]
pub enum Terminal {
    /// The request produced a proof artifact.
    Success(ProofArtifact),
    /// The request ended with a classified failure.
    Fatal(FatalError),
}

/// What the caller must do next.
#[derive(Clone, Debug, PartialEq, Eq)]
pub enum Action {
    /// Construct the named backend, run it, and report the outcome.
    Attempt(BackendId),
    /// The request is over; hand this to the caller.
    Conclude(Terminal),
}

/// State machine coordinating backend attempts for one request.
#[derive(Debug)]
pub struct Orchestrator {
    /// The ordering of backends to try, from the selector.
    pub plan: Vec<BackendId>,
    /// How many attempts have been issued so far.
    pub issued: usize,
    /// Whether a terminal action has been produced.
    pub finished: bool,
}

/// The state and action that follow from an attempt outcome: success
/// concludes with the artifact untouched; a recoverable failure moves to the
/// next backend if one is left; everything else concludes fatally.
pub open spec fn spec_on_outcome(st: Orchestrator, outcome: AttemptOutcome) -> (Orchestrator,
    Action) {
    match outcome {
        AttemptOutcome::Succeeded(artifact) => (
            Orchestrator { finished: true, ..st },
            Action::Conclude(Terminal::Success(artifact)),
        ),
        AttemptOutcome::Failed(failure) => {
            if spec_is_recoverable(failure.diagnostic@) {
                if st.issued < st.plan@.len() {
                    (
                        Orchestrator { issued: (st.issued + 1) as usize, ..st },
                        Action::Attempt(st.plan@[st.issued as int]),
                    )
                } else {
                    (
                        Orchestrator { finished: true, ..st },
                        Action::Conclude(
                            Terminal::Fatal(
                                FatalError { reason: FatalReason::NoBackendLeft, failure },
                            ),
                        ),
                    )
                }
            } else {
                (
                    Orchestrator { finished: true, ..st },
                    Action::Conclude(
                        Terminal::Fatal(FatalError { reason: FatalReason::NotRecoverable, failure }),
                    ),
                )
            }
        },
    }
}

impl Orchestrator {
    /// The state is one the machine can reach: a selector plan, at least one
    /// attempt issued, never more than the plan holds.
    pub open spec fn wf(&self) -> bool {
        &&& valid_plan(self.plan@)
        &&& 1 <= self.issued <= self.plan@.len()
    }

    /// Begin a request over a selector plan. The first attempt goes to the
    /// plan's first backend.
    pub fn start(plan: Vec<BackendId>) -> (r: (Orchestrator, BackendId))
        requires
            valid_plan(plan@),
        ensures
            r.0.wf(),
            r.0.plan@ == plan@,
            r.0.issued == 1,
            !r.0.finished,
            r.1 == plan@[0],
    {
        let first = plan[0];
        (Orchestrator { plan, issued: 1, finished: false }, first)
    }

    /// Feed back the outcome of the attempt last issued. At most one
    /// fallback ever occurs, and a successful artifact is passed through
    /// unchanged, so the caller cannot tell which backend served it.
    pub fn on_outcome(&mut self, outcome: AttemptOutcome) -> (action: Action)
        requires
            old(self).wf(),
            !old(self).finished,
        ensures
            (*final(self), action) == spec_on_outcome(*old(self), outcome),
            final(self).wf(),
            final(self).plan@ == old(self).plan@,
            final(self).issued <= 2,
            outcome matches AttemptOutcome::Succeeded(artifact) ==> action == Action::Conclude(
                Terminal::Success(artifact),
            ),
            !final(self).finished ==> action is Attempt,
    {
        match outcome {
            AttemptOutcome::Succeeded(artifact) => {
                self.finished = true;
                Action::Conclude(Terminal::Success(artifact))
            },
            AttemptOutcome::Failed(failure) => {
                if is_recoverable(failure.diagnostic.as_slice()) {
                    if self.issued < self.plan.len() {
                        let next = self.plan[self.issued];
                        self.issued = self.issued + 1;
                        Action::Attempt(next)
                    } else {
                        self.finished = true;
                        Action::Conclude(
                            Terminal::Fatal(
                                FatalError { reason: FatalReason::NoBackendLeft, failure },
                            ),
                        )
                    }
                } else {
                    self.finished = true;
                    Action::Conclude(
                        Terminal::Fatal(FatalError { reason: FatalReason::NotRecoverable, failure }),
                    )
                }
            },
        }
    }
}

/// Validate a request and, if it is well formed, start the orchestrator over
/// the snapshot's plan. An invalid request fails before any backend exists.
pub fn begin_request(request: ProofRequest, snapshot: &ConfigSnapshot) -> (r: Result<
    (ProofInput, Orchestrator, BackendId),
    InputError,
>)
    ensures
        request.offset is None ==> (r matches Err(e) && e == InputError::MissingOffset),
        (request.offset matches Some(v) && v > u32::MAX) ==> (r matches Err(e) && e
            == InputError::OffsetOverflow),
        (request.offset matches Some(v) && v <= u32::MAX) ==> ({
            &&& r is Ok
            &&& r->Ok_0.0.pdf_bytes == request.pdf_bytes
            &&& r->Ok_0.0.page_number == request.page_number
            &&& r->Ok_0.0.offset == request.offset->0
            &&& r->Ok_0.0.substring == request.sub_string
            &&& r->Ok_0.1.wf()
            &&& r->Ok_0.1.plan@ == spec_plan(snapshot.effective)
            &&& r->Ok_0.1.issued == 1
            &&& !r->Ok_0.1.finished
            &&& r->Ok_0.2 == spec_plan(snapshot.effective)[0]
        }),
{
    let input = match validate(request) {
        Ok(input) => input,
        Err(e) => {
            return Err(e);
        },
    };
    let plan = select(snapshot);
    let (orchestrator, first) = Orchestrator::start(plan);
    Ok((input, orchestrator, first))
}

} // verus!
