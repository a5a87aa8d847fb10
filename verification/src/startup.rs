//! The start-up sequence as a machine: the caller performs each action and
//! reports back; the machine decides what comes next.

use vstd::prelude::*;
use vstd::string::StringExecFns;
use crate::platform::PlatformProbe;

verus! {

/// Error with which start-up ends where the web runtime is missing.
pub const MISSING_RUNTIME_ERROR: &'static str =
    "WebView2 is not installed. This is required for EvolveApp to run on Windows.";

/// Log filter that applies where the environment sets none.
pub const DEFAULT_LOG_FILTER: &'static str = "info,tauri=debug,evolve_desktop=debug";

/// Where start-up stands.
#[derive(Clone, Copy, Debug, PartialEq, Eq, Structural)]
pub enum StartupState {
    /// Nothing has happened yet.
    Starting,
    /// Logging was set up, or could not be and start-up goes on without.
    LoggingReady,
    /// The report was collected; the flag tells whether the web runtime is
    /// available.
    DiagnosticsCollected(bool),
    /// The web runtime is missing: start-up ends here.
    FatalAbort,
    /// The preconditions hold; the shell is being set up.
    ContinuingStartup,
    /// The background tasks were handed to the scheduler.
    AsyncBackgroundTasksDispatched,
    /// Start-up is over and the shell runs.
    Running,
}

/// What the caller reports back.
#[derive(Clone, Copy, Debug, PartialEq, Eq, Structural)]
pub enum StartupEvent {
    /// Logging was attempted; `true` where it was set up.
    LoggingInitialized(bool),
    /// A report was collected; the flag is its availability of the web
    /// runtime.
    DiagnosticsCollected(bool),
    /// The report was written to the log.
    DiagnosticsLogged,
    /// The shell has entered its set-up phase.
    ShellSetupEntered,
    /// The background tasks were spawned.
    BackgroundTasksDispatched,
}

/// What the caller is to do next.
#[derive(Clone, Copy, Debug, PartialEq, Eq, Structural)]
pub enum StartupAction {
    /// Set up the logging sink.
    InitLogging,
    /// Log name and version, then collect a report.
    CollectDiagnostics,
    /// Write the report to the log.
    LogDiagnostics,
    /// Write a crash report, tell the user, and end the process abnormally.
    ReportCrashAndTerminate,
    /// Register the bridge commands and start the shell.
    StartShell,
    /// Spawn the background tasks, without waiting for them.
    DispatchBackgroundTasks,
    /// Log that set-up is complete.
    LogSetupCompleted,
    /// Nothing: the event does not belong here, or start-up is over.
    Nothing,
}

/// Whether a collected report makes start-up fatal: only on Windows, and
/// only where the web runtime is missing.
pub open spec fn is_fatal(probe: PlatformProbe, webview2_available: bool) -> bool {
    probe == PlatformProbe::Windows && !webview2_available
}

/// The state after `event` in `state`, and the action it calls for. An
/// event that the state does not await changes nothing.
pub open spec fn step(probe: PlatformProbe, state: StartupState, event: StartupEvent) -> (
    StartupState,
    StartupAction,
) {
    match (state, event) {
        (StartupState::Starting, StartupEvent::LoggingInitialized(_)) => (
            StartupState::LoggingReady,
            StartupAction::CollectDiagnostics,
        ),
        (StartupState::LoggingReady, StartupEvent::DiagnosticsCollected(available)) => (
            StartupState::DiagnosticsCollected(available),
            StartupAction::LogDiagnostics,
        ),
        (StartupState::DiagnosticsCollected(available), StartupEvent::DiagnosticsLogged) => if is_fatal(
            probe,
            available,
        ) {
            (StartupState::FatalAbort, StartupAction::ReportCrashAndTerminate)
        } else {
            (StartupState::ContinuingStartup, StartupAction::StartShell)
        },
        (StartupState::ContinuingStartup, StartupEvent::ShellSetupEntered) => (
            StartupState::AsyncBackgroundTasksDispatched,
            StartupAction::DispatchBackgroundTasks,
        ),
        (
            StartupState::AsyncBackgroundTasksDispatched,
            StartupEvent::BackgroundTasksDispatched,
        ) => (StartupState::Running, StartupAction::LogSetupCompleted),
        _ => (state, StartupAction::Nothing),
    }
}

/// The state that a sequence of events leads to from `state`.
pub open spec fn run(probe: PlatformProbe, state: StartupState, events: Seq<StartupEvent>) -> StartupState
    decreases events.len(),
{
    if events.len() == 0 {
        state
    } else {
        run(probe, step(probe, state, events[0]).0, events.subrange(1, events.len() as int))
    }
}

/// The position of a state in the sequence; the abort stands apart.
pub open spec fn rank(state: StartupState) -> nat {
    match state {
        StartupState::Starting => 0,
        StartupState::LoggingReady => 1,
        StartupState::DiagnosticsCollected(_) => 2,
        StartupState::ContinuingStartup => 3,
        StartupState::AsyncBackgroundTasksDispatched => 4,
        StartupState::Running => 5,
        StartupState::FatalAbort => 6,
    }
}

/// The first thing to do: start-up begins with the logging sink.
pub fn begin() -> (first: (StartupState, StartupAction))
    ensures
        first == (StartupState::Starting, StartupAction::InitLogging),
{
    (StartupState::Starting, StartupAction::InitLogging)
}

/// Takes one step of start-up: the state after `event`, and what to do next.
pub fn advance(probe: PlatformProbe, state: StartupState, event: StartupEvent) -> (next: (
    StartupState,
    StartupAction,
))
    ensures
        next == step(probe, state, event),
{
    match (state, event) {
        (StartupState::Starting, StartupEvent::LoggingInitialized(_)) => (
            StartupState::LoggingReady,
            StartupAction::CollectDiagnostics,
        ),
        (StartupState::LoggingReady, StartupEvent::DiagnosticsCollected(available)) => (
            StartupState::DiagnosticsCollected(available),
            StartupAction::LogDiagnostics,
        ),
        (StartupState::DiagnosticsCollected(available), StartupEvent::DiagnosticsLogged) => {
            if fatal_precondition(probe, available) {
                (StartupState::FatalAbort, StartupAction::ReportCrashAndTerminate)
            } else {
                (StartupState::ContinuingStartup, StartupAction::StartShell)
            }
        },
        (StartupState::ContinuingStartup, StartupEvent::ShellSetupEntered) => (
            StartupState::AsyncBackgroundTasksDispatched,
            StartupAction::DispatchBackgroundTasks,
        ),
        (
            StartupState::AsyncBackgroundTasksDispatched,
            StartupEvent::BackgroundTasksDispatched,
        ) => (StartupState::Running, StartupAction::LogSetupCompleted),
        _ => (state, StartupAction::Nothing),
    }
}

/// Decides whether start-up must end: on Windows without the web runtime.
pub fn fatal_precondition(probe: PlatformProbe, webview2_available: bool) -> (fatal: bool)
    ensures
        fatal == is_fatal(probe, webview2_available),
{
    probe == PlatformProbe::Windows && !webview2_available
}

/// The message that is shown to the user before the process ends.
pub open spec fn fatal_notice_text(error_message: Seq<char>) -> Seq<char> {
    "EvolveApp Error: "@ + error_message
        + "\n\nDownload WebView2 from:\nhttps://developer.microsoft.com/en-us/microsoft-edge/webview2/"@
}

/// Writes the message that tells the user of a fatal start-up error.
pub fn fatal_notice(error_message: &str) -> (notice: String)
    ensures
        notice@ == fatal_notice_text(error_message@),
{
    let mut notice = String::from_str("EvolveApp Error: ");
    notice.append(error_message);
    notice.append(
        "\n\nDownload WebView2 from:\nhttps://developer.microsoft.com/en-us/microsoft-edge/webview2/",
    );
    notice
}

/// The abort is final: whatever is reported afterwards, the state stays and
/// nothing more is asked for. In particular the shell is never started.
pub proof fn abort_is_final(probe: PlatformProbe, event: StartupEvent)
    ensures
        step(probe, StartupState::FatalAbort, event) == (
            StartupState::FatalAbort,
            StartupAction::Nothing,
        ),
{
}

/// After an abort no sequence of events leads anywhere else.
pub proof fn abort_is_final_for_ever(probe: PlatformProbe, events: Seq<StartupEvent>)
    ensures
        run(probe, StartupState::FatalAbort, events) == StartupState::FatalAbort,
    decreases events.len(),
{
    if events.len() > 0 {
        abort_is_final_for_ever(probe, events.subrange(1, events.len() as int));
    }
}

/// The shell is started, and the abort entered, only by the decision on a
/// collected report: the abort exactly when the report is fatal, and then
/// with the order to write the crash report; the shell exactly when it is
/// not.
pub proof fn decision_is_exclusive(probe: PlatformProbe, state: StartupState, event: StartupEvent)
    ensures
        step(probe, state, event).1 == StartupAction::ReportCrashAndTerminate <==> (exists|
            available: bool,
        |
            state == StartupState::DiagnosticsCollected(available) && event
                == StartupEvent::DiagnosticsLogged && is_fatal(probe, available)),
        step(probe, state, event).1 == StartupAction::StartShell <==> (exists|available: bool|
            state == StartupState::DiagnosticsCollected(available) && event
                == StartupEvent::DiagnosticsLogged && !is_fatal(probe, available)),
        state != StartupState::FatalAbort && step(probe, state, event).0
            == StartupState::FatalAbort ==> step(probe, state, event).1
            == StartupAction::ReportCrashAndTerminate,
{
    match state {
        StartupState::DiagnosticsCollected(available) => {
            assert(state == StartupState::DiagnosticsCollected(available));
        },
        _ => {},
    }
}

/// On a platform whose probe is vacuous start-up never aborts, whatever the
/// host reports.
pub proof fn vacuous_probe_never_aborts(state: StartupState, events: Seq<StartupEvent>)
    requires
        state != StartupState::FatalAbort,
    ensures
        run(PlatformProbe::Vacuous, state, events) != StartupState::FatalAbort,
    decreases events.len(),
{
    if events.len() > 0 {
        vacuous_probe_never_aborts(
            step(PlatformProbe::Vacuous, state, events[0]).0,
            events.subrange(1, events.len() as int),
        );
    }
}

/// Start-up never goes back: a step keeps the state or moves it forward in
/// the sequence.
pub proof fn steps_go_forward(probe: PlatformProbe, state: StartupState, event: StartupEvent)
    ensures
        rank(state) <= rank(step(probe, state, event).0),
        step(probe, state, event).1 == StartupAction::Nothing <==> step(probe, state, event).0
            == state,
{
}

} // verus!
