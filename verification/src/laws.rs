//! Orchestration laws: proofs that the classifier, selector and state
//! machine together behave as the design promises, for every input.

use vstd::prelude::*;

use crate::classify::{contains_subseq, pat_insufficient_balance, pat_timeout, spec_classify,
    spec_is_recoverable};
use crate::config::{credential_view, spec_attempt_config, spec_credential_usable,
    spec_effective_mode, ConfigSnapshot, ProvingMode};
use crate::orchestrator::{spec_on_outcome, Action, AttemptOutcome, BackendFailure, FatalError,
    FatalReason, Orchestrator, ProofArtifact, Terminal};
use crate::select::{spec_plan, valid_plan, BackendId};

verus! {

/// With effective mode local the plan holds the local backend alone, so the
/// orchestrator issues exactly one attempt, never against the network
/// backend, and whatever that attempt's outcome is, the next action
/// concludes the request.
pub proof fn lemma_local_mode_attempts_once(st: Orchestrator, outcome: AttemptOutcome)
    requires
        st.plan@ == spec_plan(ProvingMode::Local),
        st.issued == 1,
        !st.finished,
    ensures
        spec_plan(ProvingMode::Local) =~= seq![BackendId::Local],
        forall|i: int| 0 <= i < st.plan@.len() ==> st.plan@[i] != BackendId::Network,
        spec_on_outcome(st, outcome).1 is Conclude,
        spec_on_outcome(st, outcome).0.issued == 1,
{
}

/// A network attempt failing with a diagnostic that contains `timeout` is
/// recoverable: exactly one fallback attempt goes to the local backend, and
/// the request returns that attempt's result — the artifact on success, a
/// fatal error carrying the local failure otherwise.
pub proof fn lemma_timeout_falls_back_once(
    st: Orchestrator,
    failure: BackendFailure,
    second: AttemptOutcome,
)
    requires
        st.plan@ == spec_plan(ProvingMode::Network),
        st.issued == 1,
        !st.finished,
        contains_subseq(failure.diagnostic@, pat_timeout()),
    ensures
        spec_on_outcome(st, AttemptOutcome::Failed(failure)).1 == Action::Attempt(BackendId::Local),
        second matches AttemptOutcome::Succeeded(artifact) ==> spec_on_outcome(
            spec_on_outcome(st, AttemptOutcome::Failed(failure)).0,
            second,
        ).1 == Action::Conclude(Terminal::Success(artifact)),
        second matches AttemptOutcome::Failed(local_failure) ==> spec_on_outcome(
            spec_on_outcome(st, AttemptOutcome::Failed(failure)).0,
            second,
        ).1 == Action::Conclude(
            Terminal::Fatal(
                FatalError {
                    reason: if spec_is_recoverable(local_failure.diagnostic@) {
                        FatalReason::NoBackendLeft
                    } else {
                        FatalReason::NotRecoverable
                    },
                    failure: local_failure,
                },
            ),
        ),
        spec_on_outcome(spec_on_outcome(st, AttemptOutcome::Failed(failure)).0, second).1
            is Conclude,
{
    assert(spec_is_recoverable(failure.diagnostic@));
    assert(spec_plan(ProvingMode::Network)[1] == BackendId::Local);
}

/// A failure whose diagnostic matches no recoverable pattern concludes the
/// request fatally at once: no fallback attempt occurs, whatever backends
/// the plan still holds.
pub proof fn lemma_fatal_diagnostic_aborts(st: Orchestrator, failure: BackendFailure)
    requires
        st.wf(),
        !st.finished,
        !spec_is_recoverable(failure.diagnostic@),
    ensures
        spec_on_outcome(st, AttemptOutcome::Failed(failure)).1 == Action::Conclude(
            Terminal::Fatal(FatalError { reason: FatalReason::NotRecoverable, failure }),
        ),
        spec_on_outcome(st, AttemptOutcome::Failed(failure)).0.finished,
        spec_on_outcome(st, AttemptOutcome::Failed(failure)).0.issued == st.issued,
{
}

/// No attempt is ever retried against the same backend identity: every plan
/// the selector can produce holds pairwise distinct backends, and the
/// orchestrator walks it strictly forward.
pub proof fn lemma_plan_backends_distinct(plan: Seq<BackendId>)
    requires
        valid_plan(plan),
    ensures
        forall|i: int, j: int| 0 <= i < j < plan.len() ==> plan[i] != plan[j],
{
}

/// Classification is a function of the diagnostic text alone: the same text
/// always receives the same category.
pub proof fn lemma_classification_idempotent(first: Seq<u8>, second: Seq<u8>)
    requires
        first == second,
    ensures
        spec_classify(first) == spec_classify(second),
{
}

/// Fallback threads an explicit per-attempt configuration instead of
/// touching shared state: every request's local fallback constructs from the
/// same credential-free configuration, whatever credential either snapshot
/// holds, so concurrent fallbacks cannot leave a configuration that a later
/// request could observe changed.
pub proof fn lemma_fallback_configs_isolated(first: ConfigSnapshot, second: ConfigSnapshot)
    ensures
        spec_attempt_config(first, BackendId::Local) == spec_attempt_config(
            second,
            BackendId::Local,
        ),
        spec_attempt_config(first, BackendId::Local).credential is None,
        spec_attempt_config(first, BackendId::Local).mode is Local,
{
}

/// A network request without a usable credential silently downgrades: the
/// effective mode is local, the plan holds one local attempt, and a
/// successful attempt returns its artifact.
pub proof fn lemma_unusable_credential_downgrades(
    credential: Option<Vec<u8>>,
    st: Orchestrator,
    artifact: ProofArtifact,
)
    requires
        !(credential_view(credential) matches Some(c) && spec_credential_usable(c)),
        st.plan@ == spec_plan(spec_effective_mode(ProvingMode::Network, credential_view(credential))),
        st.issued == 1,
        !st.finished,
    ensures
        spec_effective_mode(ProvingMode::Network, credential_view(credential))
            == ProvingMode::Local,
        st.plan@ =~= seq![BackendId::Local],
        spec_on_outcome(st, AttemptOutcome::Succeeded(artifact)).1 == Action::Conclude(
            Terminal::Success(artifact),
        ),
        spec_on_outcome(st, AttemptOutcome::Succeeded(artifact)).0.issued == 1,
{
}

/// With a usable credential the effective mode stays network; a network
/// attempt failing with `insufficient balance` falls back exactly once to
/// the local backend, and when the local attempt succeeds the caller
/// receives its artifact unchanged — nothing in the result says a fallback
/// occurred.
pub proof fn lemma_insufficient_balance_fallback_transparent(
    credential: Vec<u8>,
    st: Orchestrator,
    failure: BackendFailure,
    artifact: ProofArtifact,
)
    requires
        spec_credential_usable(credential@),
        st.plan@ == spec_plan(spec_effective_mode(ProvingMode::Network, Some(credential@))),
        st.issued == 1,
        !st.finished,
        contains_subseq(failure.diagnostic@, pat_insufficient_balance()),
    ensures
        spec_effective_mode(ProvingMode::Network, Some(credential@)) == ProvingMode::Network,
        spec_on_outcome(st, AttemptOutcome::Failed(failure)).1 == Action::Attempt(BackendId::Local),
        spec_on_outcome(
            spec_on_outcome(st, AttemptOutcome::Failed(failure)).0,
            AttemptOutcome::Succeeded(artifact),
        ).1 == Action::Conclude(Terminal::Success(artifact)),
{
    assert(spec_is_recoverable(failure.diagnostic@));
    assert(spec_plan(ProvingMode::Network)[1] == BackendId::Local);
}

} // verus!
