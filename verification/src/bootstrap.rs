//! The bootstrap sequencer: the ordered, one-shot startup procedure of the
//! application shell, written as a state machine.
//!
//! Each [`BootState`] names the next step the host must perform: register a
//! capability plugin, register the command handlers, look up the main window,
//! show it, or run the event loop. The host performs the step and reports its
//! outcome as a [`BootEvent`]; [`boot_step`] then decides the next state. The
//! decisions carry the whole startup policy: a missing main window is fatal, a
//! window that will not show is tolerated, and a returning event loop is a
//! terminal failure.

use vstd::prelude::*;

verus! {

/// The capability plugins the sequencer registers, in the fixed order
/// shell execution, persistent store, self-update.
#[derive(Clone, Copy, Debug, PartialEq, Eq, Structural)]
pub enum Plugin {
    Shell,
    Store,
    Updater,
}

/// The fatal startup failures: the main window was not configured, or the
/// event loop returned.
#[derive(Clone, Copy, Debug, PartialEq, Eq, Structural)]
pub enum StartupError {
    MainWindowMissing,
    EventLoopFailed,
}

/// The sequencer's state. Every state but `Failed` names the outside step
/// the host performs next.
#[derive(Clone, Copy, Debug, PartialEq, Eq, Structural)]
pub enum BootState {
    RegisterShell,
    RegisterStore,
    RegisterUpdater,
    RegisterHandlers,
    LookUpMainWindow,
    ShowMainWindow,
    RunEventLoop,
    Failed(StartupError),
}

/// The outcome the host reports after performing a step.
#[derive(Clone, Copy, Debug, PartialEq, Eq, Structural)]
pub enum BootEvent {
    StepCompleted,
    WindowFound,
    WindowMissing,
    WindowShown,
    WindowShowFailed,
    EventLoopReturned,
}

/// The sequencer's transition relation. Registration steps follow one
/// another in the fixed order; a missing main window fails the startup; a
/// failed show is tolerated and the event loop runs anyway; a returning
/// event loop fails; an event that does not belong to the current state
/// changes nothing.
pub open spec fn spec_boot_step(s: BootState, e: BootEvent) -> BootState {
    match (s, e) {
        (BootState::RegisterShell, BootEvent::StepCompleted) => BootState::RegisterStore,
        (BootState::RegisterStore, BootEvent::StepCompleted) => BootState::RegisterUpdater,
        (BootState::RegisterUpdater, BootEvent::StepCompleted) => BootState::RegisterHandlers,
        (BootState::RegisterHandlers, BootEvent::StepCompleted) => BootState::LookUpMainWindow,
        (BootState::LookUpMainWindow, BootEvent::WindowFound) => BootState::ShowMainWindow,
        (BootState::LookUpMainWindow, BootEvent::WindowMissing) => BootState::Failed(
            StartupError::MainWindowMissing,
        ),
        (BootState::ShowMainWindow, BootEvent::WindowShown) => BootState::RunEventLoop,
        (BootState::ShowMainWindow, BootEvent::WindowShowFailed) => BootState::RunEventLoop,
        (BootState::RunEventLoop, BootEvent::EventLoopReturned) => BootState::Failed(
            StartupError::EventLoopFailed,
        ),
        _ => s,
    }
}

/// The logical name under which the configuration layer must declare the
/// main window; the lookup in the setup step matches it exactly.
pub open spec fn main_window_label() -> Seq<char> {
    "main"@
}

/// The main window's logical name, for the host to pass to the window
/// lookup.
pub fn main_window_name() -> (r: String)
    ensures
        r@ == main_window_label(),
{
    "main".to_owned()
}

/// Where every startup begins: the first plugin registration.
pub fn initial_state() -> (r: BootState)
    ensures
        r == BootState::RegisterShell,
{
    BootState::RegisterShell
}

/// Advances the sequencer by one reported outcome, exactly as
/// [`spec_boot_step`] decides.
pub fn boot_step(s: BootState, e: BootEvent) -> (r: BootState)
    ensures
        r == spec_boot_step(s, e),
{
    match (s, e) {
        (BootState::RegisterShell, BootEvent::StepCompleted) => BootState::RegisterStore,
        (BootState::RegisterStore, BootEvent::StepCompleted) => BootState::RegisterUpdater,
        (BootState::RegisterUpdater, BootEvent::StepCompleted) => BootState::RegisterHandlers,
        (BootState::RegisterHandlers, BootEvent::StepCompleted) => BootState::LookUpMainWindow,
        (BootState::LookUpMainWindow, BootEvent::WindowFound) => BootState::ShowMainWindow,
        (BootState::LookUpMainWindow, BootEvent::WindowMissing) => BootState::Failed(
            StartupError::MainWindowMissing,
        ),
        (BootState::ShowMainWindow, BootEvent::WindowShown) => BootState::RunEventLoop,
        (BootState::ShowMainWindow, BootEvent::WindowShowFailed) => BootState::RunEventLoop,
        (BootState::RunEventLoop, BootEvent::EventLoopReturned) => BootState::Failed(
            StartupError::EventLoopFailed,
        ),
        (_, _) => s,
    }
}

/// The plugins in registration order: shell execution first, then the
/// persistent store, then the updater.
pub fn plugin_order() -> (r: Vec<Plugin>)
    ensures
        r@ == seq![Plugin::Shell, Plugin::Store, Plugin::Updater],
{
    let mut order: Vec<Plugin> = Vec::new();
    order.push(Plugin::Shell);
    order.push(Plugin::Store);
    order.push(Plugin::Updater);
    proof {
        assert(order@ =~= seq![Plugin::Shell, Plugin::Store, Plugin::Updater]);
    }
    order
}

/// The state the sequencer reaches from `s` after the host reports the
/// outcomes `events`, one at a time and in order.
pub open spec fn run_boot(s: BootState, events: Seq<BootEvent>) -> BootState
    decreases events.len(),
{
    if events.len() == 0 {
        s
    } else {
        run_boot(spec_boot_step(s, events[0]), events.drop_first())
    }
}

/// A fatal startup failure is terminal: no sequence of later outcomes
/// leaves it.
pub proof fn lemma_failure_terminal(err: StartupError, events: Seq<BootEvent>)
    ensures
        run_boot(BootState::Failed(err), events) == BootState::Failed(err),
    decreases events.len(),
{
    if events.len() > 0 {
        lemma_failure_terminal(err, events.drop_first());
    }
}

/// When the main window is absent, startup fails at once, and no sequence
/// of later outcomes ever reaches the event loop: the process never runs
/// silently without its window.
pub proof fn lemma_missing_window_aborts(events: Seq<BootEvent>)
    ensures
        spec_boot_step(BootState::LookUpMainWindow, BootEvent::WindowMissing) == BootState::Failed(
            StartupError::MainWindowMissing,
        ),
        run_boot(
            spec_boot_step(BootState::LookUpMainWindow, BootEvent::WindowMissing),
            events,
        ) != BootState::RunEventLoop,
{
    lemma_failure_terminal(StartupError::MainWindowMissing, events);
}

/// A main window that cannot be shown is no reason to stop: whatever the
/// show attempt reports, the sequencer proceeds to the event loop.
pub proof fn lemma_show_failure_non_fatal()
    ensures
        spec_boot_step(BootState::ShowMainWindow, BootEvent::WindowShowFailed)
            == BootState::RunEventLoop,
        spec_boot_step(BootState::ShowMainWindow, BootEvent::WindowShown)
            == BootState::RunEventLoop,
{
}

} // verus!
