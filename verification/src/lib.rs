//! Proof-backend orchestration for a zero-knowledge PDF prover.
//!
//! The crate decides which proving backend (remote network service or local
//! machine) serves a request, classifies backend failures as recoverable or
//! fatal, and drives the at-most-once fallback from the network backend to
//! the local one. The proving computation itself is an external capability;
//! callers run it and feed its outcomes back into the state machine here.
//!
//! - [`config`] resolves the request-scoped configuration snapshot and the
//!   explicit per-attempt configuration each backend construction receives.
//! - [`select`] orders the backends a request will try.
//! - [`classify`] sorts failure diagnostics into recoverable and fatal.
//! - [`request`] validates incoming proof requests.
//! - [`orchestrator`] runs the attempt/fallback state machine.
//! - [`verification`] shapes the stateless artifact check's outcome.
//! - [`laws`] proves the properties the design promises.

pub mod classify;
pub mod config;
pub mod laws;
pub mod orchestrator;
pub mod request;
pub mod select;
pub mod verification;
