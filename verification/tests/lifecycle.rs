use gi_toolkit::environment::IslandState;
use gi_toolkit::lifecycle::{
    controller_step, module_setup_step, ControllerAction, ControllerEvent, ControllerState,
    ModuleSetupEvent, ModuleSetupPhase,
};

#[test]
fn controller_happy_path_reaches_running() {
    let (s, a) = controller_step(ControllerState::NotStarted, ControllerEvent::LaunchRequested);
    assert_eq!(s, ControllerState::Launching);
    assert_eq!(a, ControllerAction::CreateTargetProcess);
    let (s, a) = controller_step(s, ControllerEvent::ProcessCreated);
    assert_eq!(s, ControllerState::Configuring);
    assert_eq!(a, ControllerAction::ConfigureEnvironment);
    let (s, a) = controller_step(s, ControllerEvent::EnvironmentConfigured);
    assert_eq!(s, ControllerState::Configuring);
    assert_eq!(a, ControllerAction::WaitSettleDelay);
    let (s, a) = controller_step(s, ControllerEvent::SettleDelayElapsed);
    assert_eq!(s, ControllerState::Injecting);
    assert_eq!(a, ControllerAction::PerformInjection);
    let (s, a) = controller_step(s, ControllerEvent::InjectionSucceeded);
    assert_eq!(s, ControllerState::Running);
    assert_eq!(a, ControllerAction::NoAction);
}

#[test]
fn controller_failures_stop_and_release() {
    let (s, a) = controller_step(
        ControllerState::Launching,
        ControllerEvent::ProcessCreationFailed { code: 2 },
    );
    assert_eq!(s, ControllerState::Stopped);
    assert_eq!(a, ControllerAction::ReleaseResources);
    let (s, a) = controller_step(
        ControllerState::Configuring,
        ControllerEvent::ConfigurationFailed,
    );
    assert_eq!(s, ControllerState::Stopped);
    assert_eq!(a, ControllerAction::ReleaseResources);
    let (s, a) = controller_step(ControllerState::Injecting, ControllerEvent::InjectionFailed);
    assert_eq!(s, ControllerState::Stopped);
    assert_eq!(a, ControllerAction::ReleaseResources);
}

#[test]
fn controller_shutdown_reverts_then_stops() {
    let (s, a) = controller_step(ControllerState::Running, ControllerEvent::StopRequested);
    assert_eq!(s, ControllerState::ShuttingDown);
    assert_eq!(a, ControllerAction::RevertAndRelease);
    let (s, a) = controller_step(s, ControllerEvent::TeardownComplete);
    assert_eq!(s, ControllerState::Stopped);
    assert_eq!(a, ControllerAction::NoAction);
}

#[test]
fn controller_ignores_undefined_transitions() {
    let (s, a) = controller_step(ControllerState::NotStarted, ControllerEvent::StopRequested);
    assert_eq!(s, ControllerState::NotStarted);
    assert_eq!(a, ControllerAction::NoAction);
    let (s, a) = controller_step(ControllerState::Stopped, ControllerEvent::LaunchRequested);
    assert_eq!(s, ControllerState::Stopped);
    assert_eq!(a, ControllerAction::NoAction);
}

#[test]
fn module_setup_happy_path_reports_active_then_resident() {
    let t = module_setup_step(
        ModuleSetupPhase::OpeningSegment,
        ModuleSetupEvent::SegmentOpened { segment: 0x30 },
    );
    assert_eq!(t.next, ModuleSetupPhase::MappingView { segment: 0x30 });
    assert_eq!(t.set_state, None);
    let t = module_setup_step(t.next, ModuleSetupEvent::ViewMapped { view: 0x40 });
    assert_eq!(
        t.next,
        ModuleSetupPhase::InstallingHooks { segment: 0x30, view: 0x40 }
    );
    assert_eq!(t.set_state, Some(IslandState::Active));
    let t = module_setup_step(t.next, ModuleSetupEvent::HooksInstalled);
    assert_eq!(t.next, ModuleSetupPhase::Resident { segment: 0x30, view: 0x40 });
    assert_eq!(t.set_state, None);
    assert_eq!(t.unmap_view, None);
    assert_eq!(t.close_segment, None);
}

#[test]
fn module_setup_missing_segment_fails_fast() {
    let t = module_setup_step(
        ModuleSetupPhase::OpeningSegment,
        ModuleSetupEvent::SegmentUnavailable { code: 2 },
    );
    assert_eq!(t.next, ModuleSetupPhase::Detached { exit_code: 2 });
    assert_eq!(t.set_state, None);
    assert_eq!(t.unmap_view, None);
    assert_eq!(t.close_segment, None);
}

#[test]
fn module_setup_map_failure_closes_the_handle() {
    let t = module_setup_step(
        ModuleSetupPhase::MappingView { segment: 0x30 },
        ModuleSetupEvent::MapFailed { code: 6 },
    );
    assert_eq!(t.next, ModuleSetupPhase::Detached { exit_code: 6 });
    assert_eq!(t.close_segment, Some(0x30));
    assert_eq!(t.unmap_view, None);
}

#[test]
fn module_setup_hook_failure_reports_fault_and_releases() {
    let t = module_setup_step(
        ModuleSetupPhase::InstallingHooks { segment: 0x30, view: 0x40 },
        ModuleSetupEvent::HookSetupFailed { code: 998 },
    );
    assert_eq!(t.next, ModuleSetupPhase::Detached { exit_code: 998 });
    assert_eq!(t.set_state, Some(IslandState::Faulted));
    assert_eq!(t.set_last_error, Some(998));
    assert_eq!(t.unmap_view, Some(0x40));
    assert_eq!(t.close_segment, Some(0x30));
}

#[test]
fn module_setup_detach_reports_terminated_and_releases() {
    let t = module_setup_step(
        ModuleSetupPhase::Resident { segment: 0x30, view: 0x40 },
        ModuleSetupEvent::DetachRequested,
    );
    assert_eq!(t.next, ModuleSetupPhase::Detached { exit_code: 0 });
    assert_eq!(t.set_state, Some(IslandState::Terminated));
    assert_eq!(t.set_last_error, None);
    assert_eq!(t.unmap_view, Some(0x40));
    assert_eq!(t.close_segment, Some(0x30));
}
