//! Verification service: the stateless path that checks a previously
//! produced proof artifact.
//!
//! Exactly one backend is consulted — the one matching the current
//! configuration — with no fallback and no retry. The check's result is
//! always shaped into a [`VerificationOutcome`]: a failed check is data
//! (`valid == false` with a message), never an error of the service itself.

use vstd::prelude::*;

use crate::config::ConfigSnapshot;
use crate::select::{backend_of_mode, BackendId};

verus! {

/// Result of checking an artifact. Always produced; a failed check carries
/// `valid == false` and a message.
#[derive(Clone, Debug, PartialEq, Eq)]
pub struct VerificationOutcome {
    /// Whether the artifact checked out.
    pub valid: bool,
    /// Present exactly when the check failed: a prefixed diagnostic.
    pub error: Option<Vec<u8>>,
}

/// The bytes of `Verification failed: `, prefixed to a check's diagnostic.
pub open spec fn verify_failed_prefix() -> Seq<u8> {
    seq![86u8, 101, 114, 105, 102, 105, 99, 97, 116, 105, 111, 110, 32, 102, 97, 105, 108, 101, 100, 58, 32]
}

/// The backend that checks artifacts under the current configuration: the
/// one matching the effective mode, and no other.
pub fn verification_backend(snapshot: &ConfigSnapshot) -> (backend: BackendId)
    ensures
        backend == backend_of_mode(snapshot.effective),
{
    match snapshot.effective {
        crate::config::ProvingMode::Network => BackendId::Network,
        crate::config::ProvingMode::Local => BackendId::Local,
    }
}

/// Shape a backend's check result into the outcome returned to the caller:
/// valid exactly when the check passed, and on failure a message holding the
/// prefix followed by the backend's diagnostic.
pub fn verification_outcome(check: Result<(), Vec<u8>>) -> (outcome: VerificationOutcome)
    ensures
        outcome.valid == check is Ok,
        check is Ok ==> outcome.error is None,
        check matches Err(diagnostic) ==> (outcome.error matches Some(message) && message@
            == verify_failed_prefix() + diagnostic@),
{
    match check {
        Ok(()) => VerificationOutcome { valid: true, error: None },
        Err(diagnostic) => {
            let mut message: Vec<u8> = Vec::new();
            let prefix: [u8; 21] = [86u8, 101, 114, 105, 102, 105, 99, 97, 116, 105, 111, 110, 32, 102, 97, 105, 108, 101, 100, 58, 32];
            proof {
                assert(prefix@ =~= verify_failed_prefix());
            }
            proof {
                assert(message@ =~= prefix@.subrange(0, 0));
            }
            let mut i: usize = 0;
            while i < 21
                invariant
                    0 <= i <= 21,
                    prefix@.len() == 21,
                    message@ == prefix@.subrange(0, i as int),
                decreases 21 - i,
            {
                message.push(prefix[i]);
                proof {
                    assert(message@ =~= prefix@.subrange(0, i + 1));
                }
                i = i + 1;
            }
            proof {
                assert(message@ =~= prefix@);
            }
            let n = diagnostic.len();
            proof {
                assert(message@ =~= prefix@ + diagnostic@.subrange(0, 0));
            }
            let mut j: usize = 0;
            while j < n
                invariant
                    0 <= j <= n,
                    n == diagnostic@.len(),
                    message@ == prefix@ + diagnostic@.subrange(0, j as int),
                decreases n - j,
            {
                message.push(diagnostic[j]);
                proof {
                    assert(message@ =~= prefix@ + diagnostic@.subrange(0, j + 1));
                }
                j = j + 1;
            }
            proof {
                assert(message@ =~= verify_failed_prefix() + diagnostic@);
            }
            VerificationOutcome { valid: false, error: Some(message) }
        },
    }
}

} // verus!
