use zweidraehte_device::objects::tables::{
    Application, HasLoadStateMachine, HasRunStateMachine, LoadAction, LoadEvent, LoadState, RunAction, RunEvent,
    RunState, RunnableApplication,
};

fn load_and_start(app: &mut Application<0>) {
    app.write_lsm(&[LoadEvent::StartLoading.into()], None);
    app.write_lsm(&[LoadEvent::LoadCompleted.into()], None);
    app.handle_run_event(RunEvent::Loaded);
    app.handle_run_event(RunEvent::ReadyToRun);
}

#[test]
fn test_initial_state() {
    let app: Application<0> = Application::new();
    assert_eq!(app.read_lsm()[0], LoadState::Unloaded.into());
    assert_eq!(app.run_state(), RunState::Halted);
}

#[test]
fn test_restart_when_not_loaded() {
    let mut app: Application<0> = Application::new();
    app.write_rsm(&[RunEvent::Restart.into()]);
    assert_eq!(app.run_state(), RunState::Halted);
}

#[test]
fn test_stop_when_unloaded_stays_halted() {
    let mut app: Application<0> = Application::new();
    assert!(!app.is_loaded());

    app.write_rsm(&[RunEvent::Stop.into()]);
    assert_eq!(app.run_state(), RunState::Halted);
}

#[test]
fn test_stop_when_loaded_transitions_to_terminated() {
    let mut app: Application<0> = Application::new();
    load_and_start(&mut app);

    app.write_rsm(&[RunEvent::Stop.into()]);
    assert_eq!(app.run_state(), RunState::Terminated);
}

#[test]
fn test_load_completes_to_running() {
    let mut app: Application<0> = Application::new();

    app.write_lsm(&[LoadEvent::StartLoading.into()], None);
    assert_eq!(app.read_lsm()[0], LoadState::Loading.into());
    assert_eq!(app.run_state(), RunState::Halted);

    app.write_lsm(&[LoadEvent::LoadCompleted.into()], None);
    assert_eq!(app.read_lsm()[0], LoadState::Loaded.into());
    assert_eq!(app.run_state(), RunState::Halted);

    app.handle_run_event(RunEvent::Loaded);
    assert_eq!(app.run_state(), RunState::Ready);
    app.handle_run_event(RunEvent::ReadyToRun);
    assert_eq!(app.run_state(), RunState::Running);
}

#[test]
fn test_restart_when_loaded_goes_to_running() {
    let mut app: Application<0> = Application::new();
    load_and_start(&mut app);
    assert_eq!(app.run_state(), RunState::Running);

    app.write_rsm(&[RunEvent::Restart.into()]);
    assert_eq!(app.run_state(), RunState::Running);
}

#[test]
fn test_restart_from_terminated_when_loaded() {
    let mut app: Application<0> = Application::new();
    load_and_start(&mut app);

    app.write_rsm(&[RunEvent::Stop.into()]);
    assert_eq!(app.run_state(), RunState::Terminated);

    app.write_rsm(&[RunEvent::Restart.into()]);
    assert_eq!(app.run_state(), RunState::Running);
}

#[test]
fn test_unload_resets_run_state() {
    let mut app: Application<0> = Application::new();
    load_and_start(&mut app);
    assert_eq!(app.run_state(), RunState::Running);

    app.handle_run_event(RunEvent::Unloaded);
    assert_eq!(app.run_state(), RunState::Halted);

    app.write_lsm(&[LoadEvent::Unload.into()], None);
    assert_eq!(app.read_lsm()[0], LoadState::Unloaded.into());
}

#[test]
fn test_ready_preserves_state() {
    let mut app: Application<0> = Application::new();

    app.write_rsm(&[RunEvent::Ready.into()]);
    assert_eq!(app.run_state(), RunState::Halted);

    load_and_start(&mut app);
    assert_eq!(app.run_state(), RunState::Running);

    app.write_rsm(&[RunEvent::Ready.into()]);
    assert_eq!(app.run_state(), RunState::Running);
}

#[test]
fn test_unknown_event_preserves_state() {
    let mut app: Application<0> = Application::new();

    app.write_rsm(&[0xFF]);
    assert_eq!(app.run_state(), RunState::Halted);
}

#[test]
fn test_restart_from_terminated_when_not_loaded() {
    let mut app: Application<0> = Application::new();

    load_and_start(&mut app);
    app.write_rsm(&[RunEvent::Stop.into()]);
    assert_eq!(app.run_state(), RunState::Terminated);

    app.write_lsm(&[LoadEvent::Unload.into()], None);
    assert!(!app.is_loaded());
    assert_eq!(app.run_state(), RunState::Terminated);

    app.write_rsm(&[RunEvent::Restart.into()]);
    assert_eq!(app.run_state(), RunState::Halted);
}

#[test]
fn test_internal_run_events_are_not_writable_from_the_bus() {
    let mut app: Application<0> = Application::new();
    load_and_start(&mut app);
    assert_eq!(app.run_state(), RunState::Running);

    assert_eq!(app.write_rsm(&[0x04]), None);
    assert_eq!(app.run_state(), RunState::Running);

    for byte in [0x03u8, 0x05, 0x06, 0x7F, 0xFF] {
        assert_eq!(app.write_rsm(&[byte]), None, "0x{byte:02X} should be ignored");
        assert_eq!(app.run_state(), RunState::Running);
    }
}

#[test]
fn test_write_lsm_returns_load_action() {
    let mut app: Application<0> = Application::new();

    assert_eq!(app.write_lsm(&[LoadEvent::StartLoading.into()], None), LoadAction::LoadStart);
    assert_eq!(app.write_lsm(&[LoadEvent::LoadCompleted.into()], None), LoadAction::LoadEnd);
}

#[test]
fn test_write_lsm_does_not_cascade_to_rsm() {
    let mut app: Application<0> = Application::new();

    app.write_lsm(&[LoadEvent::StartLoading.into()], None);
    app.write_lsm(&[LoadEvent::LoadCompleted.into()], None);
    assert!(app.is_loaded());
    assert_eq!(app.run_state(), RunState::Halted);
}

#[test]
fn test_handle_run_event_loaded_then_ready_to_run() {
    let mut app: Application<0> = Application::new();

    app.write_lsm(&[LoadEvent::StartLoading.into()], None);
    app.write_lsm(&[LoadEvent::LoadCompleted.into()], None);
    assert!(app.is_loaded());
    assert_eq!(app.run_state(), RunState::Halted);

    let ev = app.handle_run_event(RunEvent::Loaded);
    assert_eq!(app.run_state(), RunState::Ready);
    assert_eq!(ev, None);

    let ev = app.handle_run_event(RunEvent::ReadyToRun);
    assert_eq!(app.run_state(), RunState::Running);
    assert_eq!(ev, Some(RunAction::Started));
}

#[test]
fn test_handle_run_event_unloaded() {
    let mut app: Application<0> = Application::new();

    app.write_lsm(&[LoadEvent::StartLoading.into()], None);
    app.write_lsm(&[LoadEvent::LoadCompleted.into()], None);
    app.handle_run_event(RunEvent::Loaded);
    app.handle_run_event(RunEvent::ReadyToRun);
    assert!(app.is_running());

    let ev = app.handle_run_event(RunEvent::Unloaded);
    assert_eq!(app.run_state(), RunState::Halted);
    assert_eq!(ev, Some(RunAction::Stopped));
}

#[test]
fn test_write_rsm_stop_produces_stopped() {
    let mut app: Application<0> = Application::new();

    app.write_lsm(&[LoadEvent::StartLoading.into()], None);
    app.write_lsm(&[LoadEvent::LoadCompleted.into()], None);
    app.handle_run_event(RunEvent::Loaded);
    app.handle_run_event(RunEvent::ReadyToRun);
    assert!(app.is_running());

    let ev = app.write_rsm(&[RunEvent::Stop.into()]);
    assert_eq!(app.run_state(), RunState::Terminated);
    assert_eq!(ev, Some(RunAction::Stopped));
}

#[test]
fn test_restart_of_running_app_still_produces_started() {
    let mut app: Application<0> = Application::new();
    load_and_start(&mut app);
    assert!(app.is_running());

    assert_eq!(app.write_rsm(&[RunEvent::Restart.into()]), Some(RunAction::Started));
    assert_eq!(app.run_state(), RunState::Running);
}

#[test]
fn test_noop_transitions_produce_no_action() {
    let mut app: Application<0> = Application::new();

    assert_eq!(app.write_rsm(&[RunEvent::Ready.into()]), None);
    assert_eq!(app.write_rsm(&[RunEvent::Restart.into()]), None);
    assert_eq!(app.write_rsm(&[0xFF]), None);
}

#[test]
fn test_startup_cascade_on_preloaded_app() {
    let mut app: Application<0> = Application::new();

    app.write_lsm(&[LoadEvent::StartLoading.into()], None);
    app.write_lsm(&[LoadEvent::LoadCompleted.into()], None);
    app.handle_run_event(RunEvent::Loaded);
    app.handle_run_event(RunEvent::ReadyToRun);
    app.write_rsm(&[RunEvent::Stop.into()]);
    assert!(!app.is_running());
    assert!(app.is_loaded());

    let mut app2 = RunnableApplication::from_table(app.inner().clone());
    assert!(!app2.is_running());
    assert!(app2.is_loaded());

    app2.handle_run_event(RunEvent::Loaded);
    let ev = app2.handle_run_event(RunEvent::ReadyToRun);
    assert!(app2.is_running());
    assert_eq!(ev, Some(RunAction::Started));
}

#[test]
fn test_inner_mut_changes_table_not_run_state() {
    let mut app: Application<4> = Application::new();
    app.write_lsm(&[LoadEvent::StartLoading.into()], None);
    app.write_lsm(&[LoadEvent::LoadCompleted.into()], None);
    app.handle_run_event(RunEvent::Loaded);
    app.handle_run_event(RunEvent::ReadyToRun);
    app.inner_mut().write(0, &[0xAB]);
    assert_eq!(app.data_ref()[0], 0xAB);
    assert_eq!(app.run_state(), RunState::Running);
}
