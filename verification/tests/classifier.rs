use zkpdf_prover::classify::{classify, is_recoverable, Category};

#[test]
fn insufficient_balance_is_recoverable() {
    assert_eq!(
        classify(b"request failed: insufficient balance for account"),
        Category::Recoverable
    );
}

#[test]
fn resource_exhausted_is_recoverable() {
    assert_eq!(classify(b"rpc error: ResourceExhausted"), Category::Recoverable);
}

#[test]
fn network_is_recoverable() {
    assert_eq!(classify(b"network unreachable"), Category::Recoverable);
}

#[test]
fn timeout_is_recoverable() {
    assert_eq!(classify(b"deadline exceeded: timeout after 30s"), Category::Recoverable);
}

#[test]
fn connection_is_recoverable() {
    assert_eq!(classify(b"connection refused"), Category::Recoverable);
}

#[test]
fn unknown_diagnostic_is_fatal() {
    assert_eq!(classify(b"proof constraint system unsatisfiable"), Category::Fatal);
}

#[test]
fn empty_diagnostic_is_fatal() {
    assert_eq!(classify(b""), Category::Fatal);
}

#[test]
fn match_is_case_sensitive() {
    assert_eq!(classify(b"Timeout waiting for server"), Category::Fatal);
    assert_eq!(classify(b"NETWORK down"), Category::Fatal);
    assert_eq!(classify(b"resourceexhausted"), Category::Fatal);
}

#[test]
fn pattern_inside_longer_word_still_matches() {
    // The rule is substring containment, not word match.
    assert_eq!(classify(b"subnetworking layer failure"), Category::Recoverable);
}

#[test]
fn classification_is_idempotent() {
    let diagnostics: [&[u8]; 4] = [
        b"timeout",
        b"insufficient balance",
        b"some totally novel failure",
        b"",
    ];
    for d in diagnostics {
        assert_eq!(classify(d), classify(d));
        assert_eq!(is_recoverable(d), is_recoverable(d));
    }
}

#[test]
fn exact_pattern_alone_matches() {
    assert_eq!(classify(b"timeout"), Category::Recoverable);
    assert_eq!(classify(b"connection"), Category::Recoverable);
}

#[test]
fn pattern_prefix_alone_does_not_match() {
    assert_eq!(classify(b"timeou"), Category::Fatal);
    assert_eq!(classify(b"onnection"), Category::Fatal);
}

#[test]
fn recoverable_agrees_with_classify() {
    assert!(is_recoverable(b"timeout"));
    assert!(!is_recoverable(b"panic in prover"));
}
