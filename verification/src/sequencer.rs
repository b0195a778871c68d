//! The executable startup sequencer: concrete events, actions and states,
//! each viewed as its abstract counterpart, and the verified transition
//! function `step`, proved to refine the model's `spec_step` exactly.

use vstd::prelude::*;
use crate::error::FatalError;
use crate::model::{BuildMode, SpecAction, SpecEvent, SpecState, SpecTransition, spec_initial, spec_step};
use crate::paths::salt_path_in;
use crate::severity::Severity;

verus! {

/// An outcome the driver reports back to the sequencer.
#[derive(Debug, PartialEq, Eq)]
pub enum StartupEvent {
    /// The sequence is asked to start.
    Begin,
    /// The diagnostic logger was attached.
    LoggerAttached,
    /// The app-local data directory was resolved to `dir`.
    AppDirResolved { dir: String },
    /// No app-local data directory is available on this host.
    AppDirUnavailable,
    /// The secret store initialized with the supplied salt path.
    SecretStoreReady,
    /// The secret store failed to initialize.
    SecretStoreFailed,
}

impl View for StartupEvent {
    type V = SpecEvent;

    open spec fn view(&self) -> SpecEvent {
        match self {
            StartupEvent::Begin => SpecEvent::Begin,
            StartupEvent::LoggerAttached => SpecEvent::LoggerAttached,
            StartupEvent::AppDirResolved { dir } => SpecEvent::AppDirResolved { dir: dir@ },
            StartupEvent::AppDirUnavailable => SpecEvent::AppDirUnavailable,
            StartupEvent::SecretStoreReady => SpecEvent::SecretStoreReady,
            StartupEvent::SecretStoreFailed => SpecEvent::SecretStoreFailed,
        }
    }
}

/// A side effect the sequencer asks the driver to perform.
#[derive(Debug, PartialEq, Eq)]
pub enum StartupAction {
    /// Attach the diagnostic logger, suppressing messages finer than
    /// `min_severity`.
    AttachLogger { min_severity: Severity },
    /// Resolve the app-local data directory.
    ResolveAppDir,
    /// Initialize the secret store, seeded with the salt file at `salt_path`.
    InitSecretStore { salt_path: String },
    /// Startup is complete: hand control to the host event loop.
    EnterEventLoop,
    /// Abort the process with the diagnostic for `error`.
    AbortProcess { error: FatalError },
}

impl View for StartupAction {
    type V = SpecAction;

    open spec fn view(&self) -> SpecAction {
        match self {
            StartupAction::AttachLogger { min_severity } => SpecAction::AttachLogger {
                min_severity: *min_severity,
            },
            StartupAction::ResolveAppDir => SpecAction::ResolveAppDir,
            StartupAction::InitSecretStore { salt_path } => SpecAction::InitSecretStore {
                salt_path: salt_path@,
            },
            StartupAction::EnterEventLoop => SpecAction::EnterEventLoop,
            StartupAction::AbortProcess { error } => SpecAction::AbortProcess { error: *error },
        }
    }
}

/// A position in the startup sequence.
#[derive(Debug, PartialEq, Eq)]
pub enum SequencerState {
    /// Nothing has happened yet.
    Start { mode: BuildMode },
    /// Waiting for the diagnostic logger to be attached (debug mode only).
    AwaitingLogger,
    /// Waiting for the app-local data directory to be resolved.
    AwaitingAppDir,
    /// Waiting for the secret store to initialize with `salt_path`.
    AwaitingSecretStore { salt_path: String },
    /// Startup completed; the event loop may run.
    Ready,
    /// Startup failed; the process aborts and no further step runs.
    Aborted { error: FatalError },
}

impl View for SequencerState {
    type V = SpecState;

    open spec fn view(&self) -> SpecState {
        match self {
            SequencerState::Start { mode } => SpecState::Start { mode: *mode },
            SequencerState::AwaitingLogger => SpecState::AwaitingLogger,
            SequencerState::AwaitingAppDir => SpecState::AwaitingAppDir,
            SequencerState::AwaitingSecretStore { salt_path } => SpecState::AwaitingSecretStore {
                salt_path: salt_path@,
            },
            SequencerState::Ready => SpecState::Ready,
            SequencerState::Aborted { error } => SpecState::Aborted { error: *error },
        }
    }
}

/// One step of the sequence: the state after an event, and the side effect,
/// if any, the driver must perform next.
#[derive(Debug, PartialEq, Eq)]
pub struct Transition {
    pub next: SequencerState,
    pub action: Option<StartupAction>,
}

impl View for Transition {
    type V = SpecTransition;

    open spec fn view(&self) -> SpecTransition {
        SpecTransition {
            next: self.next@,
            action: match self.action {
                Some(a) => Some(a@),
                None => None,
            },
        }
    }
}

/// The state in which a process of build mode `mode` starts.
pub fn initial_state(mode: BuildMode) -> (s: SequencerState)
    ensures
        s@ == spec_initial(mode),
{
    SequencerState::Start { mode }
}

/// Advances the sequence by one event and says which side effect, if any,
/// the driver must perform next. Refines the model's transition function on
/// every state and every event.
pub fn step(state: SequencerState, event: StartupEvent) -> (t: Transition)
    ensures
        t@ == spec_step(state@, event@),
{
    match (state, event) {
        (SequencerState::Start { mode }, StartupEvent::Begin) => match mode {
            BuildMode::Debug => Transition {
                next: SequencerState::AwaitingLogger,
                action: Some(StartupAction::AttachLogger { min_severity: Severity::Info }),
            },
            BuildMode::Release => Transition {
                next: SequencerState::AwaitingAppDir,
                action: Some(StartupAction::ResolveAppDir),
            },
        },
        (SequencerState::AwaitingLogger, StartupEvent::LoggerAttached) => Transition {
            next: SequencerState::AwaitingAppDir,
            action: Some(StartupAction::ResolveAppDir),
        },
        (SequencerState::AwaitingAppDir, StartupEvent::AppDirResolved { dir }) => {
            let salt_path = salt_path_in(dir.as_str());
            Transition {
                next: SequencerState::AwaitingSecretStore { salt_path: salt_path.clone() },
                action: Some(StartupAction::InitSecretStore { salt_path }),
            }
        },
        (SequencerState::AwaitingAppDir, StartupEvent::AppDirUnavailable) => Transition {
            next: SequencerState::Aborted { error: FatalError::PathResolutionFailure },
            action: Some(
                StartupAction::AbortProcess { error: FatalError::PathResolutionFailure },
            ),
        },
        (SequencerState::AwaitingSecretStore { .. }, StartupEvent::SecretStoreReady) => Transition {
            next: SequencerState::Ready,
            action: Some(StartupAction::EnterEventLoop),
        },
        (SequencerState::AwaitingSecretStore { .. }, StartupEvent::SecretStoreFailed) => Transition {
            next: SequencerState::Aborted { error: FatalError::SecretStoreInitFailure },
            action: Some(
                StartupAction::AbortProcess { error: FatalError::SecretStoreInitFailure },
            ),
        },
        (unchanged, _) => Transition { next: unchanged, action: None },
    }
}

} // verus!
