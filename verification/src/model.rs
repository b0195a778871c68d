//! The mathematical model of the startup sequence: abstract states, events,
//! actions, and the transition function the executable sequencer refines.
//!
//! The sequence is linear and fail-fast. From `Start` it attaches a logger in
//! debug mode only, then asks for the app-local data directory, then asks for
//! secret-store initialization with the derived salt path, and finally hands
//! control to the event loop. Any failure moves to `Aborted`, which absorbs
//! every further event without emitting an action.

use vstd::prelude::*;
use crate::error::FatalError;
use crate::paths::spec_salt_path;
use crate::severity::Severity;

verus! {

/// Whether the process was built for debugging or for release. Immutable for
/// the process lifetime.
#[derive(Debug, Clone, Copy, PartialEq, Eq, Structural)]
pub enum BuildMode {
    Debug,
    Release,
}

/// An outcome the driver reports back to the sequencer.
pub enum SpecEvent {
    /// The sequence is asked to start.
    Begin,
    /// The diagnostic logger was attached.
    LoggerAttached,
    /// The app-local data directory was resolved to `dir`.
    AppDirResolved { dir: Seq<char> },
    /// No app-local data directory is available on this host.
    AppDirUnavailable,
    /// The secret store initialized with the supplied salt path.
    SecretStoreReady,
    /// The secret store failed to initialize (for example, a malformed salt
    /// file or a permission error).
    SecretStoreFailed,
}

/// A side effect the sequencer asks the driver to perform.
#[verifier::ext_equal]
pub enum SpecAction {
    /// Attach the diagnostic logger, suppressing messages finer than
    /// `min_severity`.
    AttachLogger { min_severity: Severity },
    /// Resolve the app-local data directory.
    ResolveAppDir,
    /// Initialize the secret store, seeded with the salt file at `salt_path`.
    InitSecretStore { salt_path: Seq<char> },
    /// Startup is complete: hand control to the host event loop.
    EnterEventLoop,
    /// Abort the process with the diagnostic for `error`.
    AbortProcess { error: FatalError },
}

/// A position in the startup sequence.
#[verifier::ext_equal]
pub enum SpecState {
    /// Nothing has happened yet.
    Start { mode: BuildMode },
    /// Waiting for the diagnostic logger to be attached (debug mode only).
    AwaitingLogger,
    /// Waiting for the app-local data directory to be resolved.
    AwaitingAppDir,
    /// Waiting for the secret store to initialize with `salt_path`.
    AwaitingSecretStore { salt_path: Seq<char> },
    /// Startup completed; the event loop may run.
    Ready,
    /// Startup failed; the process aborts and no further step runs.
    Aborted { error: FatalError },
}

/// One step of the sequence: the state after an event, and the side effect,
/// if any, the driver must perform next.
#[verifier::ext_equal]
pub struct SpecTransition {
    pub next: SpecState,
    pub action: Option<SpecAction>,
}

/// The state in which a process of build mode `mode` starts.
pub open spec fn spec_initial(mode: BuildMode) -> SpecState {
    SpecState::Start { mode }
}

/// The transition function. Expected events advance the sequence; a failure
/// event moves to `Aborted`; any other event leaves the state unchanged and
/// asks for nothing.
pub open spec fn spec_step(s: SpecState, e: SpecEvent) -> SpecTransition {
    match (s, e) {
        (SpecState::Start { mode }, SpecEvent::Begin) => if mode is Debug {
            SpecTransition {
                next: SpecState::AwaitingLogger,
                action: Some(SpecAction::AttachLogger { min_severity: Severity::Info }),
            }
        } else {
            SpecTransition {
                next: SpecState::AwaitingAppDir,
                action: Some(SpecAction::ResolveAppDir),
            }
        },
        (SpecState::AwaitingLogger, SpecEvent::LoggerAttached) => SpecTransition {
            next: SpecState::AwaitingAppDir,
            action: Some(SpecAction::ResolveAppDir),
        },
        (SpecState::AwaitingAppDir, SpecEvent::AppDirResolved { dir }) => SpecTransition {
            next: SpecState::AwaitingSecretStore { salt_path: spec_salt_path(dir) },
            action: Some(SpecAction::InitSecretStore { salt_path: spec_salt_path(dir) }),
        },
        (SpecState::AwaitingAppDir, SpecEvent::AppDirUnavailable) => SpecTransition {
            next: SpecState::Aborted { error: FatalError::PathResolutionFailure },
            action: Some(SpecAction::AbortProcess { error: FatalError::PathResolutionFailure }),
        },
        (SpecState::AwaitingSecretStore { .. }, SpecEvent::SecretStoreReady) => SpecTransition {
            next: SpecState::Ready,
            action: Some(SpecAction::EnterEventLoop),
        },
        (SpecState::AwaitingSecretStore { .. }, SpecEvent::SecretStoreFailed) => SpecTransition {
            next: SpecState::Aborted { error: FatalError::SecretStoreInitFailure },
            action: Some(SpecAction::AbortProcess { error: FatalError::SecretStoreInitFailure }),
        },
        (unchanged, _) => SpecTransition { next: unchanged, action: None },
    }
}

} // verus!
