use zkpdf_prover::config::{resolve, ProvingMode};
use zkpdf_prover::orchestrator::{
    begin_request, Action, AttemptOutcome, BackendFailure, FatalReason, Orchestrator,
    ProofArtifact, Terminal,
};
use zkpdf_prover::request::{validate, InputError, ProofRequest};
use zkpdf_prover::select::{select, BackendId};

fn request_with_offset(offset: Option<u64>) -> ProofRequest {
    ProofRequest {
        pdf_bytes: vec![37, 80, 68, 70],
        page_number: 1,
        sub_string: "hello".to_string(),
        offset,
    }
}

fn artifact() -> ProofArtifact {
    ProofArtifact { proof_bytes: vec![1, 2, 3], public_values: vec![9, 9] }
}

#[test]
fn missing_offset_fails_before_any_backend() {
    assert_eq!(
        validate(request_with_offset(None)).unwrap_err(),
        InputError::MissingOffset
    );
    let snap = resolve(ProvingMode::Network, Some(b"0x123456789abcdef".to_vec()));
    let r = begin_request(request_with_offset(None), &snap);
    assert_eq!(r.unwrap_err(), InputError::MissingOffset);
}

#[test]
fn offset_just_past_u32_overflows() {
    let r = validate(request_with_offset(Some(4294967296)));
    assert_eq!(r.unwrap_err(), InputError::OffsetOverflow);
}

#[test]
fn begin_request_rejects_overflowing_offset() {
    let snap = resolve(ProvingMode::Local, None);
    let r = begin_request(request_with_offset(Some(4294967296)), &snap);
    assert_eq!(r.unwrap_err(), InputError::OffsetOverflow);
}

#[test]
fn offset_at_u32_max_is_accepted() {
    let input = validate(request_with_offset(Some(4294967295))).unwrap();
    assert_eq!(input.offset, 4294967295u32);
    assert_eq!(input.pdf_bytes, vec![37, 80, 68, 70]);
    assert_eq!(input.page_number, 1);
    assert_eq!(input.substring, "hello");
}

#[test]
fn local_mode_attempts_local_exactly_once() {
    let snap = resolve(ProvingMode::Local, None);
    let (mut orch, first) = Orchestrator::start(select(&snap));
    assert_eq!(first, BackendId::Local);
    assert_eq!(orch.issued, 1);
    let action = orch.on_outcome(AttemptOutcome::Succeeded(artifact()));
    assert_eq!(action, Action::Conclude(Terminal::Success(artifact())));
    assert_eq!(orch.issued, 1);
    assert!(orch.finished);
}

#[test]
fn local_mode_recoverable_failure_has_no_fallback_target() {
    let snap = resolve(ProvingMode::Local, None);
    let (mut orch, first) = Orchestrator::start(select(&snap));
    assert_eq!(first, BackendId::Local);
    let failure = BackendFailure { backend: BackendId::Local, diagnostic: b"timeout".to_vec() };
    let action = orch.on_outcome(AttemptOutcome::Failed(failure.clone()));
    match action {
        Action::Conclude(Terminal::Fatal(e)) => {
            assert_eq!(e.reason, FatalReason::NoBackendLeft);
            assert_eq!(e.failure, failure);
        }
        other => panic!("expected a fatal conclusion, got {:?}", other),
    }
}

#[test]
fn network_timeout_falls_back_to_local_and_returns_its_result() {
    let snap = resolve(ProvingMode::Network, Some(b"0x123456789abcdef".to_vec()));
    let (mut orch, first) = Orchestrator::start(select(&snap));
    assert_eq!(first, BackendId::Network);
    let failure = BackendFailure {
        backend: BackendId::Network,
        diagnostic: b"timeout while waiting for the proving service".to_vec(),
    };
    let action = orch.on_outcome(AttemptOutcome::Failed(failure));
    assert_eq!(action, Action::Attempt(BackendId::Local));
    assert_eq!(orch.issued, 2);
    let action = orch.on_outcome(AttemptOutcome::Succeeded(artifact()));
    assert_eq!(action, Action::Conclude(Terminal::Success(artifact())));
}

#[test]
fn network_fatal_failure_never_falls_back() {
    let snap = resolve(ProvingMode::Network, Some(b"0x123456789abcdef".to_vec()));
    let (mut orch, _) = Orchestrator::start(select(&snap));
    let failure = BackendFailure {
        backend: BackendId::Network,
        diagnostic: b"circuit constraint unsatisfied".to_vec(),
    };
    let action = orch.on_outcome(AttemptOutcome::Failed(failure.clone()));
    match action {
        Action::Conclude(Terminal::Fatal(e)) => {
            assert_eq!(e.reason, FatalReason::NotRecoverable);
            assert_eq!(e.failure, failure);
        }
        other => panic!("expected a fatal conclusion, got {:?}", other),
    }
    assert_eq!(orch.issued, 1);
    assert!(orch.finished);
}

#[test]
fn both_backends_failing_recoverably_ends_fatally() {
    let snap = resolve(ProvingMode::Network, Some(b"0x123456789abcdef".to_vec()));
    let (mut orch, _) = Orchestrator::start(select(&snap));
    let first = BackendFailure {
        backend: BackendId::Network,
        diagnostic: b"connection reset".to_vec(),
    };
    assert_eq!(orch.on_outcome(AttemptOutcome::Failed(first)), Action::Attempt(BackendId::Local));
    let second = BackendFailure {
        backend: BackendId::Local,
        diagnostic: b"ResourceExhausted: out of memory".to_vec(),
    };
    let action = orch.on_outcome(AttemptOutcome::Failed(second.clone()));
    match action {
        Action::Conclude(Terminal::Fatal(e)) => {
            assert_eq!(e.reason, FatalReason::NoBackendLeft);
            assert_eq!(e.failure, second);
        }
        other => panic!("expected a fatal conclusion, got {:?}", other),
    }
}

#[test]
fn unusable_credential_downgrades_and_serves_locally() {
    // End to end: network requested, credential too short, so the request
    // silently runs one local attempt and returns its artifact.
    let snap = resolve(ProvingMode::Network, Some(b"0x1234".to_vec()));
    assert_eq!(snap.effective, ProvingMode::Local);
    let r = begin_request(request_with_offset(Some(42)), &snap).unwrap();
    let (input, mut orch, first) = r;
    assert_eq!(input.offset, 42);
    assert_eq!(first, BackendId::Local);
    let action = orch.on_outcome(AttemptOutcome::Succeeded(artifact()));
    assert_eq!(action, Action::Conclude(Terminal::Success(artifact())));
    assert_eq!(orch.issued, 1);
}

#[test]
fn insufficient_balance_fallback_is_transparent_to_the_caller() {
    // End to end: usable credential, network attempt fails over billing,
    // the local fallback succeeds, and the caller sees only the artifact.
    let snap = resolve(ProvingMode::Network, Some(b"0x123456789abcdef".to_vec()));
    assert_eq!(snap.effective, ProvingMode::Network);
    let (input, mut orch, first) =
        begin_request(request_with_offset(Some(7)), &snap).unwrap();
    assert_eq!(input.offset, 7);
    assert_eq!(first, BackendId::Network);
    let failure = BackendFailure {
        backend: BackendId::Network,
        diagnostic: b"proving failed: insufficient balance".to_vec(),
    };
    assert_eq!(orch.on_outcome(AttemptOutcome::Failed(failure)), Action::Attempt(BackendId::Local));
    let action = orch.on_outcome(AttemptOutcome::Succeeded(artifact()));
    assert_eq!(action, Action::Conclude(Terminal::Success(artifact())));
}
