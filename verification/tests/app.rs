use nyoworks_desktop::bootstrap::{
    boot_step, initial_state, main_window_name, plugin_order, BootEvent, BootState, Plugin,
    StartupError,
};
use nyoworks_desktop::system::{command_names, dispatch_command, get_app_info};

#[test]
fn app_info_has_constant_name_and_declared_version() {
    let info = get_app_info();
    assert_eq!(info.name, "NYOWORKS");
    assert_eq!(info.version, "0.1.0");
}

#[test]
fn app_info_is_identical_across_calls() {
    let first = get_app_info();
    let second = get_app_info();
    assert_eq!(first.name, second.name);
    assert_eq!(first.version, second.version);
}

#[test]
fn command_table_has_one_entry() {
    let names = command_names();
    assert_eq!(names.len(), 1);
    assert_eq!(names[0], "get_app_info");
}

#[test]
fn dispatch_reaches_the_handler() {
    let reply = dispatch_command("get_app_info");
    let info = reply.expect("the known command must be dispatched");
    assert_eq!(info.name, "NYOWORKS");
    assert_eq!(info.version, "0.1.0");
}

#[test]
fn dispatch_rejects_unknown_names() {
    assert!(dispatch_command("").is_none());
    assert!(dispatch_command("get_app_inf").is_none());
    assert!(dispatch_command("get_app_info ").is_none());
    assert!(dispatch_command("GET_APP_INFO").is_none());
}

#[test]
fn main_window_is_looked_up_by_its_fixed_name() {
    assert_eq!(main_window_name(), "main");
}

#[test]
fn plugins_register_in_fixed_order() {
    let order = plugin_order();
    assert_eq!(order, vec![Plugin::Shell, Plugin::Store, Plugin::Updater]);
}

#[test]
fn missing_main_window_is_fatal_before_the_event_loop() {
    let state = boot_step(BootState::LookUpMainWindow, BootEvent::WindowMissing);
    assert_eq!(state, BootState::Failed(StartupError::MainWindowMissing));
    // No later outcome revives a failed startup; the event loop is never reached.
    let mut state = state;
    for event in [
        BootEvent::StepCompleted,
        BootEvent::WindowFound,
        BootEvent::WindowShown,
        BootEvent::EventLoopReturned,
    ] {
        state = boot_step(state, event);
        assert_eq!(state, BootState::Failed(StartupError::MainWindowMissing));
    }
}

#[test]
fn failed_window_show_is_not_fatal() {
    let state = boot_step(BootState::ShowMainWindow, BootEvent::WindowShowFailed);
    assert_eq!(state, BootState::RunEventLoop);
}

#[test]
fn returning_event_loop_is_fatal() {
    let state = boot_step(BootState::RunEventLoop, BootEvent::EventLoopReturned);
    assert_eq!(state, BootState::Failed(StartupError::EventLoopFailed));
}

#[test]
fn out_of_place_events_change_nothing() {
    assert_eq!(
        boot_step(BootState::RegisterShell, BootEvent::WindowFound),
        BootState::RegisterShell
    );
    assert_eq!(
        boot_step(BootState::LookUpMainWindow, BootEvent::StepCompleted),
        BootState::LookUpMainWindow
    );
    assert_eq!(
        boot_step(BootState::RunEventLoop, BootEvent::WindowShown),
        BootState::RunEventLoop
    );
}

#[test]
fn fresh_start_to_visible_window_to_answered_command() {
    // A correctly configured process: every registration succeeds, the main
    // window is found and shown, and the event loop takes over.
    let mut state = initial_state();
    assert_eq!(state, BootState::RegisterShell);
    for _plugin in plugin_order() {
        state = boot_step(state, BootEvent::StepCompleted);
    }
    assert_eq!(state, BootState::RegisterHandlers);
    state = boot_step(state, BootEvent::StepCompleted);
    assert_eq!(state, BootState::LookUpMainWindow);
    state = boot_step(state, BootEvent::WindowFound);
    assert_eq!(state, BootState::ShowMainWindow);
    state = boot_step(state, BootEvent::WindowShown);
    assert_eq!(state, BootState::RunEventLoop);
    // The front-end now asks for the build metadata and gets it.
    let info = dispatch_command("get_app_info").expect("the command surface must answer");
    assert_eq!(info.name, "NYOWORKS");
    assert_eq!(info.version, "0.1.0");
}
