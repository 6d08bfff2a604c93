//! Process lifecycle.
//!
//! The controller walks a fixed state machine: launch the target (optionally
//! suspended), create and populate the shared segment, wait a fixed settle
//! delay, inject the patch module, then run until an explicit stop. Any
//! step's failure moves straight to the stopped state after releasing the
//! partially-acquired resources. Shutting down reverts the shared record to
//! inert values, marks it terminated, and releases the segment and the
//! process handle; the target itself is not force-terminated.
//!
//! Inside the target, the patch module's own setup walks a second machine:
//! open the named segment (failing fast if the controller has not created it
//! yet), map it, report itself active, install the hooks, and stay resident
//! until detach. Its failures never propagate into the host process: they are
//! reported through the shared record's state and error fields, the partially
//! acquired view and handle are released, and the module's thread exits
//! quietly.

use vstd::prelude::*;

use crate::environment::IslandState;

verus! {

/// The controller's lifecycle states.
#[derive(Clone, Copy, Debug, PartialEq, Eq, Structural)]
pub enum ControllerState {
    NotStarted,
    Launching,
    Configuring,
    Injecting,
    Running,
    ShuttingDown,
    Stopped,
}

/// What the controller observed or was asked to do.
#[derive(Clone, Copy, Debug, PartialEq, Eq, Structural)]
pub enum ControllerEvent {
    /// A launch was requested.
    LaunchRequested,
    /// The target process exists and its handle is valid.
    ProcessCreated,
    /// The target process could not be created.
    ProcessCreationFailed { code: u32 },
    /// The shared segment exists and holds the initial record; the target
    /// was resumed if it was created suspended.
    EnvironmentConfigured,
    /// The shared segment could not be created or written.
    ConfigurationFailed,
    /// The fixed settle delay has passed.
    SettleDelayElapsed,
    /// The patch module is loaded and running inside the target.
    InjectionSucceeded,
    /// Injection failed; the strategy already released its own resources.
    InjectionFailed,
    /// An explicit stop, or the controller process is exiting.
    StopRequested,
    /// The shared record was reverted and every handle released.
    TeardownComplete,
}

/// What the controller must do next.
#[derive(Clone, Copy, Debug, PartialEq, Eq, Structural)]
pub enum ControllerAction {
    /// Create the target process, optionally suspended, with its working
    /// directory set to the target's own directory.
    CreateTargetProcess,
    /// Create the shared segment, write the initial record, and resume the
    /// target if it was created suspended.
    ConfigureEnvironment,
    /// Wait the fixed settle delay before injecting.
    WaitSettleDelay,
    /// Run an injection strategy.
    PerformInjection,
    /// A step failed: release the partially-acquired resources (process
    /// handle, segment handle, remote buffers) and surface the failure as a
    /// single status message.
    ReleaseResources,
    /// Revert the shared record to inert values, mark it terminated, unmap
    /// the segment, and close the process handle.
    RevertAndRelease,
    /// Nothing to do.
    NoAction,
}

/// One guarded transition of the controller's state machine. An event that
/// has no transition from the current state leaves the state unchanged and
/// asks for nothing.
pub fn controller_step(state: ControllerState, event: ControllerEvent) -> (r: (
    ControllerState,
    ControllerAction,
))
    ensures
        state is NotStarted && event is LaunchRequested ==> r == (
            ControllerState::Launching,
            ControllerAction::CreateTargetProcess,
        ),
        state is Launching && event is ProcessCreated ==> r == (
            ControllerState::Configuring,
            ControllerAction::ConfigureEnvironment,
        ),
        state is Launching && event is ProcessCreationFailed ==> r == (
            ControllerState::Stopped,
            ControllerAction::ReleaseResources,
        ),
        state is Configuring && event is EnvironmentConfigured ==> r == (
            ControllerState::Configuring,
            ControllerAction::WaitSettleDelay,
        ),
        state is Configuring && event is SettleDelayElapsed ==> r == (
            ControllerState::Injecting,
            ControllerAction::PerformInjection,
        ),
        state is Configuring && event is ConfigurationFailed ==> r == (
            ControllerState::Stopped,
            ControllerAction::ReleaseResources,
        ),
        state is Injecting && event is InjectionSucceeded ==> r == (
            ControllerState::Running,
            ControllerAction::NoAction,
        ),
        state is Injecting && event is InjectionFailed ==> r == (
            ControllerState::Stopped,
            ControllerAction::ReleaseResources,
        ),
        state is Running && event is StopRequested ==> r == (
            ControllerState::ShuttingDown,
            ControllerAction::RevertAndRelease,
        ),
        state is ShuttingDown && event is TeardownComplete ==> r == (
            ControllerState::Stopped,
            ControllerAction::NoAction,
        ),
        !controller_transition_defined(state, event) ==> r == (
            state,
            ControllerAction::NoAction,
        ),
{
    match (state, event) {
        (ControllerState::NotStarted, ControllerEvent::LaunchRequested) => (
            ControllerState::Launching,
            ControllerAction::CreateTargetProcess,
        ),
        (ControllerState::Launching, ControllerEvent::ProcessCreated) => (
            ControllerState::Configuring,
            ControllerAction::ConfigureEnvironment,
        ),
        (ControllerState::Launching, ControllerEvent::ProcessCreationFailed { .. }) => (
            ControllerState::Stopped,
            ControllerAction::ReleaseResources,
        ),
        (ControllerState::Configuring, ControllerEvent::EnvironmentConfigured) => (
            ControllerState::Configuring,
            ControllerAction::WaitSettleDelay,
        ),
        (ControllerState::Configuring, ControllerEvent::SettleDelayElapsed) => (
            ControllerState::Injecting,
            ControllerAction::PerformInjection,
        ),
        (ControllerState::Configuring, ControllerEvent::ConfigurationFailed) => (
            ControllerState::Stopped,
            ControllerAction::ReleaseResources,
        ),
        (ControllerState::Injecting, ControllerEvent::InjectionSucceeded) => (
            ControllerState::Running,
            ControllerAction::NoAction,
        ),
        (ControllerState::Injecting, ControllerEvent::InjectionFailed) => (
            ControllerState::Stopped,
            ControllerAction::ReleaseResources,
        ),
        (ControllerState::Running, ControllerEvent::StopRequested) => (
            ControllerState::ShuttingDown,
            ControllerAction::RevertAndRelease,
        ),
        (ControllerState::ShuttingDown, ControllerEvent::TeardownComplete) => (
            ControllerState::Stopped,
            ControllerAction::NoAction,
        ),
        _ => (state, ControllerAction::NoAction),
    }
}

/// Whether the controller's machine has a transition for this state and
/// event.
pub open spec fn controller_transition_defined(
    state: ControllerState,
    event: ControllerEvent,
) -> bool {
    ||| state is NotStarted && event is LaunchRequested
    ||| state is Launching && (event is ProcessCreated || event is ProcessCreationFailed)
    ||| state is Configuring && (event is EnvironmentConfigured || event is SettleDelayElapsed
        || event is ConfigurationFailed)
    ||| state is Injecting && (event is InjectionSucceeded || event is InjectionFailed)
    ||| state is Running && event is StopRequested
    ||| state is ShuttingDown && event is TeardownComplete
}

/// Where the patch module's setup stands inside the target.
#[derive(Clone, Copy, Debug, PartialEq, Eq, Structural)]
pub enum ModuleSetupPhase {
    /// Opening the named shared segment.
    OpeningSegment,
    /// Mapping a view of the opened segment.
    MappingView { segment: u64 },
    /// Resolving addresses and installing the hooks.
    InstallingHooks { segment: u64, view: u64 },
    /// Hooks are live; the module stays resident until detach.
    Resident { segment: u64, view: u64 },
    /// The module's thread exited with this code; partially-acquired
    /// resources were ordered released first.
    Detached { exit_code: u32 },
}

/// Outcome of the outside operation the current phase asked for.
#[derive(Clone, Copy, Debug, PartialEq, Eq, Structural)]
pub enum ModuleSetupEvent {
    SegmentOpened { segment: u64 },
    /// The segment does not exist yet: the controller has not created it.
    /// The module fails fast rather than block.
    SegmentUnavailable { code: u32 },
    ViewMapped { view: u64 },
    MapFailed { code: u32 },
    HooksInstalled,
    HookSetupFailed { code: u32 },
    DetachRequested,
}

/// Whether the event reports on the operation the phase is waiting for.
pub open spec fn module_setup_event_fits(phase: ModuleSetupPhase, event: ModuleSetupEvent) -> bool {
    match phase {
        ModuleSetupPhase::OpeningSegment => event is SegmentOpened || event is SegmentUnavailable,
        ModuleSetupPhase::MappingView { .. } => event is ViewMapped || event is MapFailed,
        ModuleSetupPhase::InstallingHooks { .. } => event is HooksInstalled
            || event is HookSetupFailed,
        ModuleSetupPhase::Resident { .. } => event is DetachRequested,
        ModuleSetupPhase::Detached { .. } => false,
    }
}

/// What to do after a setup step: the next phase, the state and error to
/// report through the shared record (if any), the view to unmap, and the
/// segment handle to close.
#[derive(Clone, Copy, Debug, PartialEq, Eq, Structural)]
pub struct ModuleSetupTransition {
    pub next: ModuleSetupPhase,
    pub set_state: Option<IslandState>,
    pub set_last_error: Option<u32>,
    pub unmap_view: Option<u64>,
    pub close_segment: Option<u64>,
}

/// Advance the patch module's setup by one observed outcome.
///
/// Once the view is mapped the module reports itself active. A hook failure
/// reports the faulted state with the platform error code, then releases the
/// view and the handle; the module never lets its own failure propagate as a
/// fault into the host. Detach reports the terminated state and releases
/// everything. An event that does not answer the current phase changes
/// nothing.
pub fn module_setup_step(phase: ModuleSetupPhase, event: ModuleSetupEvent) -> (t:
    ModuleSetupTransition)
    ensures
        !module_setup_event_fits(phase, event) ==> t == (ModuleSetupTransition {
            next: phase,
            set_state: None::<IslandState>,
            set_last_error: None::<u32>,
            unmap_view: None::<u64>,
            close_segment: None::<u64>,
        }),
        phase is OpeningSegment ==> (event matches ModuleSetupEvent::SegmentOpened { segment }
            ==> t == (ModuleSetupTransition {
            next: ModuleSetupPhase::MappingView { segment },
            set_state: None::<IslandState>,
            set_last_error: None::<u32>,
            unmap_view: None::<u64>,
            close_segment: None::<u64>,
        })),
        phase is OpeningSegment ==> (event matches ModuleSetupEvent::SegmentUnavailable { code }
            ==> t == (ModuleSetupTransition {
            next: ModuleSetupPhase::Detached { exit_code: code },
            set_state: None::<IslandState>,
            set_last_error: None::<u32>,
            unmap_view: None::<u64>,
            close_segment: None::<u64>,
        })),
        phase matches ModuleSetupPhase::MappingView { segment } ==> (event
            matches ModuleSetupEvent::ViewMapped { view } ==> t == (ModuleSetupTransition {
            next: ModuleSetupPhase::InstallingHooks { segment, view },
            set_state: Some(IslandState::Active),
            set_last_error: None::<u32>,
            unmap_view: None::<u64>,
            close_segment: None::<u64>,
        })),
        phase matches ModuleSetupPhase::MappingView { segment } ==> (event
            matches ModuleSetupEvent::MapFailed { code } ==> t == (ModuleSetupTransition {
            next: ModuleSetupPhase::Detached { exit_code: code },
            set_state: None::<IslandState>,
            set_last_error: None::<u32>,
            unmap_view: None::<u64>,
            close_segment: Some(segment),
        })),
        phase matches ModuleSetupPhase::InstallingHooks { segment, view } ==> (event
            is HooksInstalled ==> t == (ModuleSetupTransition {
            next: ModuleSetupPhase::Resident { segment, view },
            set_state: None::<IslandState>,
            set_last_error: None::<u32>,
            unmap_view: None::<u64>,
            close_segment: None::<u64>,
        })),
        phase matches ModuleSetupPhase::InstallingHooks { segment, view } ==> (event
            matches ModuleSetupEvent::HookSetupFailed { code } ==> t == (ModuleSetupTransition {
            next: ModuleSetupPhase::Detached { exit_code: code },
            set_state: Some(IslandState::Faulted),
            set_last_error: Some(code),
            unmap_view: Some(view),
            close_segment: Some(segment),
        })),
        phase matches ModuleSetupPhase::Resident { segment, view } ==> (event is DetachRequested
            ==> t == (ModuleSetupTransition {
            next: ModuleSetupPhase::Detached { exit_code: 0u32 },
            set_state: Some(IslandState::Terminated),
            set_last_error: None::<u32>,
            unmap_view: Some(view),
            close_segment: Some(segment),
        })),
{
    let unchanged = ModuleSetupTransition {
        next: phase,
        set_state: None,
        set_last_error: None,
        unmap_view: None,
        close_segment: None,
    };
    match phase {
        ModuleSetupPhase::OpeningSegment => match event {
            ModuleSetupEvent::SegmentOpened { segment } => ModuleSetupTransition {
                next: ModuleSetupPhase::MappingView { segment },
                set_state: None,
                set_last_error: None,
                unmap_view: None,
                close_segment: None,
            },
            ModuleSetupEvent::SegmentUnavailable { code } => ModuleSetupTransition {
                next: ModuleSetupPhase::Detached { exit_code: code },
                set_state: None,
                set_last_error: None,
                unmap_view: None,
                close_segment: None,
            },
            _ => unchanged,
        },
        ModuleSetupPhase::MappingView { segment } => match event {
            ModuleSetupEvent::ViewMapped { view } => ModuleSetupTransition {
                next: ModuleSetupPhase::InstallingHooks { segment, view },
                set_state: Some(IslandState::Active),
                set_last_error: None,
                unmap_view: None,
                close_segment: None,
            },
            ModuleSetupEvent::MapFailed { code } => ModuleSetupTransition {
                next: ModuleSetupPhase::Detached { exit_code: code },
                set_state: None,
                set_last_error: None,
                unmap_view: None,
                close_segment: Some(segment),
            },
            _ => unchanged,
        },
        ModuleSetupPhase::InstallingHooks { segment, view } => match event {
            ModuleSetupEvent::HooksInstalled => ModuleSetupTransition {
                next: ModuleSetupPhase::Resident { segment, view },
                set_state: None,
                set_last_error: None,
                unmap_view: None,
                close_segment: None,
            },
            ModuleSetupEvent::HookSetupFailed { code } => ModuleSetupTransition {
                next: ModuleSetupPhase::Detached { exit_code: code },
                set_state: Some(IslandState::Faulted),
                set_last_error: Some(code),
                unmap_view: Some(view),
                close_segment: Some(segment),
            },
            _ => unchanged,
        },
        ModuleSetupPhase::Resident { segment, view } => match event {
            ModuleSetupEvent::DetachRequested => ModuleSetupTransition {
                next: ModuleSetupPhase::Detached { exit_code: 0 },
                set_state: Some(IslandState::Terminated),
                set_last_error: None,
                unmap_view: Some(view),
                close_segment: Some(segment),
            },
            _ => unchanged,
        },
        ModuleSetupPhase::Detached { .. } => unchanged,
    }
}

} // verus!
