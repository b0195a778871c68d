//! Startup sequencing for a password-protected secret store.
//!
//! At process start a host environment must be brought from "not configured"
//! to "ready for its event loop" by a short, fail-fast sequence: attach a
//! diagnostic logger in debug builds only, resolve the application's local
//! data directory, derive the salt-file path under it, and initialize the
//! secret store seeded with that salt file. Every step either succeeds or
//! aborts the whole startup; there is no partial-success state.
//!
//! The sequencing decisions live here as a verified transition function over
//! plain values; a thin unverified driver performs the actual side effects
//! (logging, directory resolution, salt-file access) and feeds the observed
//! outcomes back in as events.

pub mod error;
pub mod laws;
pub mod model;
pub mod paths;
pub mod sequencer;
pub mod severity;
