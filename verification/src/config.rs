//! Configuration snapshot: the proving mode and credential resolved once at
//! request start and passed by value to every downstream step.
//!
//! A request for network proving is honored only when a usable credential is
//! present; otherwise the effective mode silently downgrades to local and the
//! snapshot carries a human-readable note. Shared configuration is never
//! re-read or mutated mid-request: each backend construction receives an
//! explicit, immutable [`AttemptConfig`] derived from the snapshot alone.

use vstd::prelude::*;

use crate::select::BackendId;

verus! {

/// The proving mode a request asks for, and the mode actually used.
#[derive(Clone, Copy, Debug, PartialEq, Eq, Structural)]
pub enum ProvingMode {
    Network,
    Local,
}

/// A credential is usable exactly when it is longer than ten bytes and
/// begins with `0x` (which also makes it non-empty).
pub open spec fn spec_credential_usable(credential: Seq<u8>) -> bool {
    credential.len() > 10 && credential[0] == 48u8 && credential[1] == 120u8
}

/// Whether a credential may be honored for network proving.
pub fn credential_usable(credential: &[u8]) -> (usable: bool)
    ensures
        usable == spec_credential_usable(credential@),
{
    credential.len() > 10 && credential[0] == 48u8 && credential[1] == 120u8
}

/// The byte sequences of an optional credential.
pub open spec fn credential_view(credential: Option<Vec<u8>>) -> Option<Seq<u8>> {
    match credential {
        Some(c) => Some(c@),
        None => None,
    }
}

/// The mode actually used: the requested one, downgraded to local when
/// network proving is requested without a usable credential.
pub open spec fn spec_effective_mode(
    requested: ProvingMode,
    credential: Option<Seq<u8>>,
) -> ProvingMode {
    if requested is Network && (credential matches Some(c) && spec_credential_usable(c)) {
        ProvingMode::Network
    } else {
        ProvingMode::Local
    }
}

/// Text of the note recorded when a network request is downgraded.
pub open spec fn downgrade_note_text() -> Seq<char> {
    "network credential missing or unusable; proving locally instead"@
}

/// Immutable, request-scoped view of the proving configuration.
pub struct ConfigSnapshot {
    /// The mode the environment asked for.
    pub requested: ProvingMode,
    /// The mode actually used, after the credential check.
    pub effective: ProvingMode,
    /// The credential as it was found, kept for network backend construction.
    pub credential: Option<Vec<u8>>,
    /// Present exactly when a network request was downgraded to local.
    pub downgrade_note: Option<String>,
}

impl ConfigSnapshot {
    /// The snapshot records the downgrade rule faithfully.
    pub open spec fn wf(&self) -> bool {
        &&& self.effective == spec_effective_mode(
            self.requested,
            credential_view(self.credential),
        )
        &&& (self.downgrade_note is Some <==> (self.requested is Network
            && self.effective is Local))
        &&& (self.downgrade_note matches Some(n) ==> n@ == downgrade_note_text())
    }
}

/// Resolve the proving configuration for one request. Happens once; the
/// result is never mutated and never re-read from shared state.
pub fn resolve(requested: ProvingMode, credential: Option<Vec<u8>>) -> (snapshot: ConfigSnapshot)
    ensures
        snapshot.wf(),
        snapshot.requested == requested,
        snapshot.credential == credential,
        snapshot.effective == spec_effective_mode(requested, credential_view(credential)),
{
    let usable = match &credential {
        Some(c) => credential_usable(c.as_slice()),
        None => false,
    };
    let network = match requested {
        ProvingMode::Network => usable,
        ProvingMode::Local => false,
    };
    if network {
        ConfigSnapshot {
            requested,
            effective: ProvingMode::Network,
            credential,
            downgrade_note: None,
        }
    } else {
        let downgrade_note = match requested {
            ProvingMode::Network => Some(
                "network credential missing or unusable; proving locally instead".to_owned(),
            ),
            ProvingMode::Local => None,
        };
        ConfigSnapshot { requested, effective: ProvingMode::Local, credential, downgrade_note }
    }
}

/// The keyword that selects network proving in the mode setting.
pub open spec fn network_keyword() -> Seq<u8> {
    seq![110u8, 101, 116, 119, 111, 114, 107]
}

/// The mode a setting string requests: `network` asks for network proving,
/// anything else means local.
pub open spec fn spec_requested_mode(setting: Seq<u8>) -> ProvingMode {
    if setting == network_keyword() {
        ProvingMode::Network
    } else {
        ProvingMode::Local
    }
}

/// Two byte strings hold the same bytes.
pub fn bytes_eq(a: &[u8], b: &[u8]) -> (r: bool)
    ensures
        r == (a@ == b@),
{
    if a.len() != b.len() {
        return false;
    }
    let n = a.len();
    let mut i: usize = 0;
    while i < n
        invariant
            n == a@.len(),
            n == b@.len(),
            0 <= i <= n,
            forall|k: int| 0 <= k < i ==> a@[k] == b@[k],
        decreases n - i,
    {
        if a[i] != b[i] {
            return false;
        }
        i = i + 1;
    }
    proof {
        assert(a@ =~= b@);
    }
    true
}

/// Parse the mode setting found in the environment.
pub fn requested_mode(setting: &[u8]) -> (mode: ProvingMode)
    ensures
        mode == spec_requested_mode(setting@),
{
    let keyword: [u8; 7] = [110u8, 101, 116, 119, 111, 114, 107];
    proof {
        assert(keyword@ =~= network_keyword());
    }
    if bytes_eq(setting, keyword.as_slice()) {
        ProvingMode::Network
    } else {
        ProvingMode::Local
    }
}

/// Explicit configuration for one backend construction. Passing this value
/// in place of mutating shared state removes any cross-request race.
pub struct AttemptConfig {
    /// The mode the backend is constructed in.
    pub mode: ProvingMode,
    /// The credential handed to construction; absent for local backends so
    /// a local constructor never picks up network settings.
    pub credential: Option<Vec<u8>>,
}

/// The configuration a given backend construction must receive.
pub open spec fn spec_attempt_config(snapshot: ConfigSnapshot, backend: BackendId) -> AttemptConfig {
    match backend {
        BackendId::Network => AttemptConfig {
            mode: ProvingMode::Network,
            credential: snapshot.credential,
        },
        BackendId::Local => AttemptConfig { mode: ProvingMode::Local, credential: None },
    }
}

/// Build the per-attempt configuration for constructing `backend`. A local
/// attempt carries no network signaling, whatever the snapshot holds.
pub fn attempt_config(snapshot: &ConfigSnapshot, backend: BackendId) -> (config: AttemptConfig)
    ensures
        config.mode == spec_attempt_config(*snapshot, backend).mode,
        credential_view(config.credential) == credential_view(
            spec_attempt_config(*snapshot, backend).credential,
        ),
{
    match backend {
        BackendId::Network => AttemptConfig {
            mode: ProvingMode::Network,
            credential: clone_credential(&snapshot.credential),
        },
        BackendId::Local => AttemptConfig { mode: ProvingMode::Local, credential: None },
    }
}

/// Copy of an optional credential, byte for byte.
fn clone_credential(credential: &Option<Vec<u8>>) -> (c: Option<Vec<u8>>)
    ensures
        credential_view(c) == credential_view(*credential),
{
    match credential {
        Some(v) => {
            let mut out: Vec<u8> = Vec::new();
            let n = v.len();
            let mut i: usize = 0;
            while i < n
                invariant
                    n == v@.len(),
                    0 <= i <= n,
                    out@ == v@.subrange(0, i as int),
                decreases n - i,
            {
                out.push(v[i]);
                proof {
                    assert(out@ =~= v@.subrange(0, i + 1));
                }
                i = i + 1;
            }
            proof {
                assert(out@ =~= v@);
            }
            Some(out)
        },
        None => None,
    }
}

/// The port to listen on: the configured one, or 3002 by default.
pub fn listen_port(configured: Option<u16>) -> (port: u16)
    ensures
        configured matches Some(p) ==> port == p,
        configured is None ==> port == 3002,
{
    match configured {
        Some(p) => p,
        None => 3002,
    }
}

} // verus!
