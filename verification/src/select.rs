//! Backend selector: from a configuration snapshot, the ordered list of
//! backend identities a request will try.
//!
//! Effective mode network yields `[Network, Local]` — fallback enabled;
//! effective mode local yields `[Local]` alone — there is nothing to fall
//! back to. The selector only orders identities; it constructs no backend.

use vstd::prelude::*;

use crate::config::{ConfigSnapshot, ProvingMode};

verus! {

/// Identity of a proving backend: the remote metered service, or the
/// on-machine prover.
#[derive(Clone, Copy, Debug, PartialEq, Eq, Structural)]
pub enum BackendId {
    Network,
    Local,
}

/// The backend that serves a given effective mode first.
pub open spec fn backend_of_mode(mode: ProvingMode) -> BackendId {
    match mode {
        ProvingMode::Network => BackendId::Network,
        ProvingMode::Local => BackendId::Local,
    }
}

/// The ordering of backends to try for an effective mode.
pub open spec fn spec_plan(effective: ProvingMode) -> Seq<BackendId> {
    match effective {
        ProvingMode::Network => seq![BackendId::Network, BackendId::Local],
        ProvingMode::Local => seq![BackendId::Local],
    }
}

/// A plan is one the selector can produce.
pub open spec fn valid_plan(plan: Seq<BackendId>) -> bool {
    ||| plan == spec_plan(ProvingMode::Network)
    ||| plan == spec_plan(ProvingMode::Local)
}

/// Order the backends a request should attempt, first entry first.
pub fn select(snapshot: &ConfigSnapshot) -> (plan: Vec<BackendId>)
    ensures
        plan@ == spec_plan(snapshot.effective),
        valid_plan(plan@),
        1 <= plan@.len() <= 2,
        plan@[0] == backend_of_mode(snapshot.effective),
{
    let mut plan: Vec<BackendId> = Vec::new();
    match snapshot.effective {
        ProvingMode::Network => {
            plan.push(BackendId::Network);
            plan.push(BackendId::Local);
            proof {
                assert(plan@ =~= spec_plan(ProvingMode::Network));
            }
        },
        ProvingMode::Local => {
            plan.push(BackendId::Local);
            proof {
                assert(plan@ =~= spec_plan(ProvingMode::Local));
            }
        },
    }
    plan
}

} // verus!
