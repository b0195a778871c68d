use startup_sequencer::error::FatalError;
use startup_sequencer::model::BuildMode;
use startup_sequencer::paths::salt_path_in;
use startup_sequencer::sequencer::{
    initial_state, step, SequencerState, StartupAction, StartupEvent,
};
use startup_sequencer::severity::{meets_threshold, Severity};

/// Drives a full run: starting from `mode`, performs no real side effects but
/// answers every requested action with its success event, resolving the data
/// directory to `dir`. Returns every action the sequencer requested.
fn drive_successful_run(mode: BuildMode, dir: &str) -> (SequencerState, Vec<StartupAction>) {
    let mut state = initial_state(mode);
    let mut pending = Some(StartupEvent::Begin);
    let mut actions = Vec::new();
    while let Some(event) = pending.take() {
        let t = step(state, event);
        state = t.next;
        if let Some(action) = t.action {
            pending = match &action {
                StartupAction::AttachLogger { .. } => Some(StartupEvent::LoggerAttached),
                StartupAction::ResolveAppDir => Some(StartupEvent::AppDirResolved {
                    dir: String::from(dir),
                }),
                StartupAction::InitSecretStore { .. } => Some(StartupEvent::SecretStoreReady),
                StartupAction::EnterEventLoop => None,
                StartupAction::AbortProcess { .. } => None,
            };
            actions.push(action);
        }
    }
    (state, actions)
}

#[test]
fn salt_path_is_dir_join_fixed_name() {
    let p = salt_path_in("/home/user/.local/share/app");
    assert_eq!(p, "/home/user/.local/share/app/salt.txt");
}

#[test]
fn salt_path_keeps_trailing_separator() {
    let p = salt_path_in("/var/data/");
    assert_eq!(p, "/var/data/salt.txt");
}

#[test]
fn salt_path_of_empty_dir() {
    let p = salt_path_in("");
    assert_eq!(p, "/salt.txt");
}

#[test]
fn salt_path_is_deterministic_across_calls() {
    let first = salt_path_in("/opt/app");
    let second = salt_path_in("/opt/app");
    assert_eq!(first, second);
}

#[test]
fn debug_begin_attaches_logger_at_info() {
    let t = step(initial_state(BuildMode::Debug), StartupEvent::Begin);
    assert_eq!(t.next, SequencerState::AwaitingLogger);
    assert_eq!(
        t.action,
        Some(StartupAction::AttachLogger { min_severity: Severity::Info })
    );
}

#[test]
fn release_begin_never_attaches_logger() {
    let t = step(initial_state(BuildMode::Release), StartupEvent::Begin);
    assert_eq!(t.next, SequencerState::AwaitingAppDir);
    assert_eq!(t.action, Some(StartupAction::ResolveAppDir));
}

#[test]
fn logger_attached_moves_on_to_resolution() {
    let t = step(SequencerState::AwaitingLogger, StartupEvent::LoggerAttached);
    assert_eq!(t.next, SequencerState::AwaitingAppDir);
    assert_eq!(t.action, Some(StartupAction::ResolveAppDir));
}

#[test]
fn resolved_dir_inits_store_with_derived_salt_path() {
    let t = step(
        SequencerState::AwaitingAppDir,
        StartupEvent::AppDirResolved { dir: String::from("/tmp/appdata") },
    );
    assert_eq!(
        t.next,
        SequencerState::AwaitingSecretStore { salt_path: String::from("/tmp/appdata/salt.txt") }
    );
    assert_eq!(
        t.action,
        Some(StartupAction::InitSecretStore { salt_path: String::from("/tmp/appdata/salt.txt") })
    );
}

#[test]
fn unresolved_dir_aborts_before_any_store_init() {
    let t = step(SequencerState::AwaitingAppDir, StartupEvent::AppDirUnavailable);
    assert_eq!(
        t.next,
        SequencerState::Aborted { error: FatalError::PathResolutionFailure }
    );
    assert_eq!(
        t.action,
        Some(StartupAction::AbortProcess { error: FatalError::PathResolutionFailure })
    );
    // The aborted sequence absorbs further events without requesting anything,
    // so secret-store initialization is never reached.
    let after = step(t.next, StartupEvent::SecretStoreReady);
    assert_eq!(
        after.next,
        SequencerState::Aborted { error: FatalError::PathResolutionFailure }
    );
    assert_eq!(after.action, None);
}

#[test]
fn corrupt_salt_fails_closed() {
    let waiting = SequencerState::AwaitingSecretStore {
        salt_path: String::from("/tmp/appdata/salt.txt"),
    };
    let t = step(waiting, StartupEvent::SecretStoreFailed);
    assert_eq!(
        t.next,
        SequencerState::Aborted { error: FatalError::SecretStoreInitFailure }
    );
    assert_eq!(
        t.action,
        Some(StartupAction::AbortProcess { error: FatalError::SecretStoreInitFailure })
    );
    // The event loop is never requested after the failure.
    let after = step(t.next, StartupEvent::SecretStoreReady);
    assert_eq!(after.action, None);
}

#[test]
fn store_ready_enters_event_loop() {
    let waiting = SequencerState::AwaitingSecretStore {
        salt_path: String::from("/tmp/appdata/salt.txt"),
    };
    let t = step(waiting, StartupEvent::SecretStoreReady);
    assert_eq!(t.next, SequencerState::Ready);
    assert_eq!(t.action, Some(StartupAction::EnterEventLoop));
}

#[test]
fn unexpected_event_is_ignored() {
    let t = step(initial_state(BuildMode::Debug), StartupEvent::SecretStoreReady);
    assert_eq!(t.next, SequencerState::Start { mode: BuildMode::Debug });
    assert_eq!(t.action, None);
}

#[test]
fn debug_run_requests_exact_actions_in_order() {
    let (state, actions) = drive_successful_run(BuildMode::Debug, "/srv/app");
    assert_eq!(state, SequencerState::Ready);
    assert_eq!(
        actions,
        vec![
            StartupAction::AttachLogger { min_severity: Severity::Info },
            StartupAction::ResolveAppDir,
            StartupAction::InitSecretStore { salt_path: String::from("/srv/app/salt.txt") },
            StartupAction::EnterEventLoop,
        ]
    );
}

#[test]
fn release_run_requests_exact_actions_in_order() {
    let (state, actions) = drive_successful_run(BuildMode::Release, "/srv/app");
    assert_eq!(state, SequencerState::Ready);
    assert_eq!(
        actions,
        vec![
            StartupAction::ResolveAppDir,
            StartupAction::InitSecretStore { salt_path: String::from("/srv/app/salt.txt") },
            StartupAction::EnterEventLoop,
        ]
    );
}

#[test]
fn rerun_with_same_dir_is_identical() {
    let (first_state, first_actions) = drive_successful_run(BuildMode::Debug, "/srv/app");
    let (second_state, second_actions) = drive_successful_run(BuildMode::Debug, "/srv/app");
    assert_eq!(first_state, SequencerState::Ready);
    assert_eq!(second_state, SequencerState::Ready);
    assert_eq!(first_actions, second_actions);
}

#[test]
fn successful_run_touches_exactly_one_file_path() {
    let (_, actions) = drive_successful_run(BuildMode::Release, "/srv/app");
    let mut paths = Vec::new();
    for action in &actions {
        if let StartupAction::InitSecretStore { salt_path } = action {
            paths.push(salt_path.clone());
        }
    }
    assert_eq!(paths, vec![String::from("/srv/app/salt.txt")]);
}

#[test]
fn store_init_is_requested_at_most_once() {
    // Even if the driver reported a second resolved directory after the
    // store came up, the sequence is past resolution and asks for nothing.
    let t = step(
        SequencerState::AwaitingAppDir,
        StartupEvent::AppDirResolved { dir: String::from("/first") },
    );
    let again = step(
        t.next,
        StartupEvent::AppDirResolved { dir: String::from("/second") },
    );
    assert_eq!(again.action, None);
    assert_eq!(
        again.next,
        SequencerState::AwaitingSecretStore { salt_path: String::from("/first/salt.txt") }
    );
}

#[test]
fn fatal_error_messages() {
    assert_eq!(
        FatalError::PathResolutionFailure.message(),
        "could not resolve app local data path"
    );
    assert_eq!(
        FatalError::SecretStoreInitFailure.message(),
        "could not initialize the secret store"
    );
}

#[test]
fn info_threshold_suppresses_finer_severities() {
    assert!(!meets_threshold(Severity::Trace, Severity::Info));
    assert!(!meets_threshold(Severity::Debug, Severity::Info));
    assert!(meets_threshold(Severity::Info, Severity::Info));
    assert!(meets_threshold(Severity::Warn, Severity::Info));
    assert!(meets_threshold(Severity::Error, Severity::Info));
}
