use zweidraehte_device::objects::interface::{
    ApplicationProgramObject, PeiProgramObject, WriteResponse,
};
use zweidraehte_device::objects::tables::{
    Application, HasLoadStateMachine, HasRunStateMachine, LoadEvent, LoadState, PeiApplication, RunAction, RunEvent,
    RunState,
};

fn echoed(r: &WriteResponse) -> Vec<u8> {
    r.as_slice().expect("a state control write answers with data").to_vec()
}

#[test]
fn test_program_object_defaults() {
    let mut app: Application<0> = Application::new();
    let obj = ApplicationProgramObject::new(&mut app, 0x400);
    assert_eq!(obj.alloc_address, 0x400);
    assert_eq!(*obj.program_version(), [0u8; 5]);
    assert_eq!(*obj.pei_type(), 0);
    assert_eq!(obj.load_state_control(), [LoadState::Unloaded.into()]);
    assert_eq!(obj.run_state_control(), [RunState::Halted.into()]);
    assert_eq!(obj.error_code(), [0]);
    assert_eq!(obj.table_reference(), [0, 0, 0, 0]);
}

#[test]
fn test_program_object_info_setters() {
    let mut app: Application<0> = Application::new();
    let mut obj = ApplicationProgramObject::with_info(&mut app, 0, [1, 2, 3, 4, 5], 7);
    assert_eq!(*obj.program_version(), [1, 2, 3, 4, 5]);
    assert_eq!(*obj.pei_type(), 7);
    obj.set_program_version([9, 8, 7, 6, 5]);
    obj.set_pei_type(0x10);
    assert_eq!(*obj.program_version(), [9, 8, 7, 6, 5]);
    assert_eq!(*obj.pei_type(), 0x10);
}

#[test]
fn test_program_object_load_cascades_into_run_state() {
    let mut app: Application<0> = Application::new();
    {
        let mut obj = ApplicationProgramObject::new(&mut app, 0x400);
        let (resp, action) = obj.write_load_state_control(&[LoadEvent::StartLoading.into()]);
        assert_eq!(echoed(&resp), vec![u8::from(LoadState::Loading)]);
        assert_eq!(action, None);

        let (resp, action) = obj.write_load_state_control(&[LoadEvent::LoadCompleted.into()]);
        assert_eq!(echoed(&resp), vec![u8::from(LoadState::Loaded)]);
        assert_eq!(action, None);
        assert_eq!(obj.run_state_control(), [RunState::Ready.into()]);
    }
    assert!(app.is_loaded());
    assert_eq!(app.run_state(), RunState::Ready);
    let ev = app.handle_run_event(RunEvent::ReadyToRun);
    assert_eq!(ev, Some(RunAction::Started));
}

#[test]
fn test_program_object_unload_stops_running_program() {
    let mut app: Application<0> = Application::new();
    app.write_lsm(&[LoadEvent::StartLoading.into()], None);
    app.write_lsm(&[LoadEvent::LoadCompleted.into()], None);
    app.handle_run_event(RunEvent::Loaded);
    app.handle_run_event(RunEvent::ReadyToRun);
    assert!(app.is_running());

    let mut obj = ApplicationProgramObject::new(&mut app, 0x400);
    let (resp, action) = obj.write_load_state_control(&[LoadEvent::Unload.into()]);
    assert_eq!(echoed(&resp), vec![u8::from(LoadState::Unloaded)]);
    assert_eq!(action, Some(RunAction::Stopped));
    assert_eq!(obj.run_state_control(), [RunState::Halted.into()]);
}

#[test]
fn test_program_object_run_state_control() {
    let mut app: Application<0> = Application::new();
    app.write_lsm(&[LoadEvent::StartLoading.into()], None);
    app.write_lsm(&[LoadEvent::LoadCompleted.into()], None);
    app.handle_run_event(RunEvent::Loaded);
    app.handle_run_event(RunEvent::ReadyToRun);

    let mut obj = ApplicationProgramObject::new(&mut app, 0);
    let (resp, action) = obj.write_run_state_control(&[RunEvent::Stop.into()]);
    assert_eq!(echoed(&resp), vec![u8::from(RunState::Terminated)]);
    assert_eq!(action, Some(RunAction::Stopped));

    let (resp, action) = obj.write_run_state_control(&[RunEvent::Restart.into()]);
    assert_eq!(echoed(&resp), vec![u8::from(RunState::Running)]);
    assert_eq!(action, Some(RunAction::Started));

    let (resp, action) = obj.write_run_state_control(&[]);
    assert_eq!(echoed(&resp), vec![u8::from(RunState::Running)]);
    assert_eq!(action, None);
}

#[test]
fn test_pei_program_object_has_no_pei_type_requirement() {
    let mut pei: PeiApplication = PeiApplication::new();
    let mut obj = PeiProgramObject::new(&mut pei, 0, [0, 0, 0, 0, 0]);
    assert_eq!(obj.pei_type, 0);
    assert_eq!(*obj.program_version(), [0u8; 5]);
    let (resp, _) = obj.write_load_state_control(&[LoadEvent::StartLoading.into()]);
    assert_eq!(echoed(&resp), vec![u8::from(LoadState::Loading)]);
    let (resp, action) = obj.write_load_state_control(&[LoadEvent::LoadCompleted.into()]);
    assert_eq!(echoed(&resp), vec![u8::from(LoadState::Loaded)]);
    assert_eq!(action, None);
    let (resp, action) = obj.write_run_state_control(&[RunEvent::Restart.into()]);
    assert_eq!(echoed(&resp), vec![u8::from(RunState::Running)]);
    assert_eq!(action, Some(RunAction::Started));
    assert_eq!(obj.table_reference(), [0, 0, 0, 0]);
}
