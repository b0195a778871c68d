//! Laws of the startup sequence, stated and proved over the model that the
//! executable sequencer refines: debug-only logger gating, the ordering of
//! resolution before secret-store initialization, salt-path determinism,
//! fail-closed aborts, and the exact side effects of a successful run.

use vstd::prelude::*;
use crate::error::FatalError;
use crate::model::{BuildMode, SpecAction, SpecEvent, SpecState, SpecTransition, spec_initial, spec_step};
use crate::paths::spec_salt_path;
use crate::severity::Severity;

verus! {

/// The state after delivering `events` in order, starting from `s`.
pub open spec fn state_after(s: SpecState, events: Seq<SpecEvent>) -> SpecState
    decreases events.len(),
{
    if events.len() == 0 {
        s
    } else {
        state_after(spec_step(s, events[0]).next, events.drop_first())
    }
}

/// The actions requested while delivering `events` in order, starting from
/// `s`: one entry per event, `None` where the event asked for nothing.
pub open spec fn actions_after(s: SpecState, events: Seq<SpecEvent>) -> Seq<Option<SpecAction>>
    decreases events.len(),
{
    if events.len() == 0 {
        Seq::<Option<SpecAction>>::empty()
    } else {
        seq![spec_step(s, events[0]).action] + actions_after(
            spec_step(s, events[0]).next,
            events.drop_first(),
        )
    }
}

/// Debug/release gating: begun in debug mode, the sequence first attaches the
/// diagnostic logger with minimum severity `Info`; begun in release mode it
/// resolves the data directory at once and attaches no logger. Exactly one of
/// the two behaviors occurs for every build mode.
pub proof fn lemma_logger_gating(mode: BuildMode)
    ensures
        mode is Debug ==> spec_step(spec_initial(mode), SpecEvent::Begin).action == Some(
            SpecAction::AttachLogger { min_severity: Severity::Info },
        ),
        mode is Release ==> spec_step(spec_initial(mode), SpecEvent::Begin).action == Some(
            SpecAction::ResolveAppDir,
        ),
{
}

/// The diagnostic logger is requested only as the very first step of a
/// debug-mode sequence, and then always with minimum severity `Info`: no
/// other state, event or build mode ever attaches it.
pub proof fn lemma_logger_only_from_debug_start(s: SpecState, e: SpecEvent)
    ensures
        spec_step(s, e).action matches Some(SpecAction::AttachLogger { min_severity }) ==> s
            matches SpecState::Start { mode } && mode is Debug && e is Begin && min_severity
            is Info,
{
}

/// Ordering: secret-store initialization is requested only in response to a
/// successful directory resolution, and then with the salt path derived from
/// the resolved directory. No run can reach the secret store without first
/// resolving the app-local data directory.
pub proof fn lemma_store_init_needs_resolution(s: SpecState, e: SpecEvent)
    ensures
        spec_step(s, e).action matches Some(SpecAction::InitSecretStore { salt_path }) ==> e
            matches SpecEvent::AppDirResolved { dir } && s is AwaitingAppDir && salt_path
            == spec_salt_path(dir),
{
}

/// Salt path determinism: a resolved directory `dir` always produces the one
/// salt path `spec_salt_path(dir)`, both in the requested action and in the
/// state that awaits the store.
pub proof fn lemma_salt_path_deterministic(dir: Seq<char>)
    ensures
        spec_step(SpecState::AwaitingAppDir, SpecEvent::AppDirResolved { dir }) == (SpecTransition {
            next: SpecState::AwaitingSecretStore { salt_path: spec_salt_path(dir) },
            action: Some(SpecAction::InitSecretStore { salt_path: spec_salt_path(dir) }),
        }),
{
}

/// Fail closed on a failed resolution: when no app-local data directory is
/// available, the sequence aborts at once with `PathResolutionFailure`.
pub proof fn lemma_resolution_failure_aborts()
    ensures
        spec_step(SpecState::AwaitingAppDir, SpecEvent::AppDirUnavailable) == (SpecTransition {
            next: SpecState::Aborted { error: FatalError::PathResolutionFailure },
            action: Some(SpecAction::AbortProcess { error: FatalError::PathResolutionFailure }),
        }),
{
}

/// Fail closed on a corrupt salt: when the secret store reports failure —
/// for example on a malformed existing salt file — the sequence aborts at
/// once with `SecretStoreInitFailure`.
pub proof fn lemma_store_failure_aborts(salt_path: Seq<char>)
    ensures
        spec_step(
            SpecState::AwaitingSecretStore { salt_path },
            SpecEvent::SecretStoreFailed,
        ) == (SpecTransition {
            next: SpecState::Aborted { error: FatalError::SecretStoreInitFailure },
            action: Some(SpecAction::AbortProcess { error: FatalError::SecretStoreInitFailure }),
        }),
{
}

/// The event loop is reached only through a successful secret-store
/// initialization: no state and event other than `AwaitingSecretStore` with
/// `SecretStoreReady` ever requests `EnterEventLoop` or newly reaches
/// `Ready`.
pub proof fn lemma_ready_needs_store_success(s: SpecState, e: SpecEvent)
    ensures
        spec_step(s, e).action == Some(SpecAction::EnterEventLoop) ==> s is AwaitingSecretStore
            && e is SecretStoreReady,
        spec_step(s, e).next is Ready ==> (s is AwaitingSecretStore && e is SecretStoreReady) || s
            is Ready,
{
}

/// An aborted sequence is absorbing: whatever events are still delivered, the
/// state stays `Aborted` with the same error and no further side effect is
/// ever requested.
pub proof fn lemma_aborted_absorbs(error: FatalError, events: Seq<SpecEvent>)
    ensures
        state_after(SpecState::Aborted { error }, events) == (SpecState::Aborted { error }),
        actions_after(SpecState::Aborted { error }, events).len() == events.len(),
        forall|i: int|
            0 <= i < events.len() ==> actions_after(SpecState::Aborted { error }, events)[i] is None,
    decreases events.len(),
{
    if events.len() > 0 {
        let head = spec_step(SpecState::Aborted { error }, events[0]);
        assert(head.next == (SpecState::Aborted { error }));
        assert(head.action is None);
        lemma_aborted_absorbs(error, events.drop_first());
    }
}

/// Fatal path resolution, over whole runs: once directory resolution has
/// failed, no later event can make the sequence request secret-store
/// initialization — or any other side effect — and `Ready` is never reached.
pub proof fn lemma_no_store_init_after_failed_resolution(events: Seq<SpecEvent>)
    ensures
        state_after(
            spec_step(SpecState::AwaitingAppDir, SpecEvent::AppDirUnavailable).next,
            events,
        ) == (SpecState::Aborted { error: FatalError::PathResolutionFailure }),
        forall|i: int|
            0 <= i < events.len() ==> actions_after(
                spec_step(SpecState::AwaitingAppDir, SpecEvent::AppDirUnavailable).next,
                events,
            )[i] is None,
{
    lemma_aborted_absorbs(FatalError::PathResolutionFailure, events);
}

/// The position of a state in the linear sequence: later states rank higher.
/// An aborted sequence ranks highest of all — nothing follows it.
pub open spec fn phase(s: SpecState) -> nat {
    match s {
        SpecState::Start { .. } => 0,
        SpecState::AwaitingLogger => 1,
        SpecState::AwaitingAppDir => 2,
        SpecState::AwaitingSecretStore { .. } => 3,
        SpecState::Ready => 4,
        SpecState::Aborted { .. } => 5,
    }
}

/// The phase a step that requests `a` always lands in.
pub open spec fn phase_after(a: SpecAction) -> nat {
    match a {
        SpecAction::AttachLogger { .. } => 1,
        SpecAction::ResolveAppDir => 2,
        SpecAction::InitSecretStore { .. } => 3,
        SpecAction::EnterEventLoop => 4,
        SpecAction::AbortProcess { .. } => 5,
    }
}

/// The sequence is linear: no step ever moves backwards, and every step that
/// requests a side effect makes strict progress, landing in the one phase
/// that side effect belongs to.
pub proof fn lemma_progress(s: SpecState, e: SpecEvent)
    ensures
        phase(spec_step(s, e).next) >= phase(s),
        spec_step(s, e).action matches Some(a) ==> phase(spec_step(s, e).next) == phase_after(a)
            && phase_after(a) > phase(s),
{
}

/// `actions_after` has one entry per event.
pub proof fn lemma_actions_len(s: SpecState, events: Seq<SpecEvent>)
    ensures
        actions_after(s, events).len() == events.len(),
    decreases events.len(),
{
    if events.len() > 0 {
        lemma_actions_len(spec_step(s, events[0]).next, events.drop_first());
    }
}

/// A trace, step by step: the action recorded for the `i`-th event is the one
/// of the step taken from the state after the first `i` events, and that step
/// yields the state after the first `i + 1` events.
pub proof fn lemma_trace_indexing(s: SpecState, events: Seq<SpecEvent>, i: int)
    requires
        0 <= i < events.len(),
    ensures
        actions_after(s, events)[i] == spec_step(
            state_after(s, events.take(i)),
            events[i],
        ).action,
        state_after(s, events.take(i + 1)) == spec_step(
            state_after(s, events.take(i)),
            events[i],
        ).next,
    decreases events.len(),
{
    let next = spec_step(s, events[0]).next;
    let rest = events.drop_first();
    lemma_actions_len(next, rest);
    if i == 0 {
        reveal_with_fuel(state_after, 3);
        reveal_with_fuel(actions_after, 3);
        assert(events.take(0) =~= Seq::<SpecEvent>::empty());
        assert(state_after(s, events.take(0)) == s);
        assert(events.take(1).len() == 1 && events.take(1)[0] == events[0]);
        assert(events.take(1).drop_first() =~= Seq::<SpecEvent>::empty());
        assert(state_after(s, events.take(1)) == spec_step(s, events[0]).next);
    } else {
        lemma_trace_indexing(next, rest, i - 1);
        assert(events.take(i)[0] == events[0] && events.take(i).len() == i);
        assert(events.take(i + 1)[0] == events[0] && events.take(i + 1).len() == i + 1);
        assert(rest.take(i - 1) =~= events.take(i).drop_first());
        assert(rest.take(i) =~= events.take(i + 1).drop_first());
        assert(state_after(s, events.take(i)) == state_after(next, rest.take(i - 1)));
        assert(state_after(s, events.take(i + 1)) == state_after(next, rest.take(i)));
        assert(rest[i - 1] == events[i]);
        assert(actions_after(s, events)[i] == actions_after(next, rest)[i - 1]);
    }
}

/// Along any trace, the phase never decreases.
pub proof fn lemma_phase_monotone(s: SpecState, events: Seq<SpecEvent>, i: int, j: int)
    requires
        0 <= i <= j <= events.len(),
    ensures
        phase(state_after(s, events.take(i))) <= phase(state_after(s, events.take(j))),
    decreases j - i,
{
    if i < j {
        lemma_trace_indexing(s, events, i);
        lemma_progress(state_after(s, events.take(i)), events[i]);
        lemma_phase_monotone(s, events, i + 1, j);
    }
}

/// No side effect is ever requested twice in one run: each requested action
/// lands the sequence in that action's own phase, and phases only grow, so a
/// later step can never request the same action again.
pub proof fn lemma_no_side_effect_twice(s: SpecState, events: Seq<SpecEvent>, i: int, j: int)
    requires
        0 <= i < j < events.len(),
        actions_after(s, events)[i] is Some,
    ensures
        actions_after(s, events)[j] != actions_after(s, events)[i],
{
    lemma_trace_indexing(s, events, i);
    lemma_trace_indexing(s, events, j);
    lemma_progress(state_after(s, events.take(i)), events[i]);
    lemma_progress(state_after(s, events.take(j)), events[j]);
    lemma_phase_monotone(s, events, i + 1, j);
}

/// Secret-store initialization is requested at most once in any run, against
/// at most one salt path: whatever the events, no two steps both request it.
pub proof fn lemma_store_init_at_most_once(s: SpecState, events: Seq<SpecEvent>, i: int, j: int)
    requires
        0 <= i < j < events.len(),
        actions_after(s, events)[i] matches Some(SpecAction::InitSecretStore { .. }),
    ensures
        !(actions_after(s, events)[j] matches Some(SpecAction::InitSecretStore { .. })),
{
    lemma_trace_indexing(s, events, i);
    lemma_trace_indexing(s, events, j);
    lemma_progress(state_after(s, events.take(i)), events[i]);
    lemma_progress(state_after(s, events.take(j)), events[j]);
    lemma_phase_monotone(s, events, i + 1, j);
}

/// The events of a fully successful run in build mode `mode`, with the data
/// directory resolved to `dir`.
pub open spec fn success_events(mode: BuildMode, dir: Seq<char>) -> Seq<SpecEvent> {
    if mode is Debug {
        seq![
            SpecEvent::Begin,
            SpecEvent::LoggerAttached,
            SpecEvent::AppDirResolved { dir },
            SpecEvent::SecretStoreReady,
        ]
    } else {
        seq![SpecEvent::Begin, SpecEvent::AppDirResolved { dir }, SpecEvent::SecretStoreReady]
    }
}

/// A fully successful run ends `Ready` and requests exactly these side
/// effects, in order: the logger (debug mode only), one directory
/// resolution, one secret-store initialization against the single file path
/// `spec_salt_path(dir)`, and the event loop. No other action — in
/// particular no second file path and no network action, of which the action
/// vocabulary has none — is ever requested; and since the actions are a
/// function of the build mode and the resolved directory alone, a rerun
/// against the same directory requests exactly the same ones.
pub proof fn lemma_successful_run(mode: BuildMode, dir: Seq<char>)
    ensures
        state_after(spec_initial(mode), success_events(mode, dir)) is Ready,
        actions_after(spec_initial(mode), success_events(mode, dir)) =~= (if mode is Debug {
            seq![
                Some(SpecAction::AttachLogger { min_severity: Severity::Info }),
                Some(SpecAction::ResolveAppDir),
                Some(SpecAction::InitSecretStore { salt_path: spec_salt_path(dir) }),
                Some(SpecAction::EnterEventLoop),
            ]
        } else {
            seq![
                Some(SpecAction::ResolveAppDir),
                Some(SpecAction::InitSecretStore { salt_path: spec_salt_path(dir) }),
                Some(SpecAction::EnterEventLoop),
            ]
        }),
{
    reveal_with_fuel(state_after, 6);
    reveal_with_fuel(actions_after, 6);
    let events = success_events(mode, dir);
    if mode is Debug {
        assert(events.drop_first() =~= seq![
            SpecEvent::LoggerAttached,
            SpecEvent::AppDirResolved { dir },
            SpecEvent::SecretStoreReady,
        ]);
        assert(events.drop_first().drop_first() =~= seq![
            SpecEvent::AppDirResolved { dir },
            SpecEvent::SecretStoreReady,
        ]);
        assert(events.drop_first().drop_first().drop_first() =~= seq![SpecEvent::SecretStoreReady]);
        assert(events.drop_first().drop_first().drop_first().drop_first()
            =~= Seq::<SpecEvent>::empty());
    } else {
        assert(events.drop_first() =~= seq![
            SpecEvent::AppDirResolved { dir },
            SpecEvent::SecretStoreReady,
        ]);
        assert(events.drop_first().drop_first() =~= seq![SpecEvent::SecretStoreReady]);
        assert(events.drop_first().drop_first().drop_first() =~= Seq::<SpecEvent>::empty());
    }
}

} // verus!
