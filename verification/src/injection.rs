//! Injection: getting the patch module loaded and running inside the target.
//!
//! Two interchangeable strategies exist. The loader-thread strategy allocates
//! a buffer in the target, writes the module's file path into it, and starts
//! a thread in the target at the system loader's entry point. The
//! message-hook strategy loads the module locally, registers a message hook
//! on the target's main thread, and posts a no-op message so the target loads
//! the module while processing it.
//!
//! Each strategy is a sequence of outside operations with a failure point at
//! every step. The decision logic — which step follows which outcome, and
//! which partially-acquired resource must be released on which failure — is a
//! transition function here; the caller performs the operations and feeds the
//! outcomes back in.

use vstd::prelude::*;
use vstd::string::StringExecFns;

use crate::errors::InjectionError;

verus! {

/// Where the loader-thread strategy stands.
#[derive(Clone, Copy, Debug, PartialEq, Eq, Structural)]
pub enum LoaderPhase {
    /// Allocating the remote buffer for the module path.
    Allocating,
    /// Writing the path bytes into the allocated buffer.
    Writing { buffer: u64 },
    /// Creating the remote thread at the loader entry point.
    Starting { buffer: u64 },
    /// The loader thread is running; the module is being loaded.
    Completed,
    /// The strategy failed; any allocated buffer was ordered released.
    Failed { error: InjectionError },
}

/// Outcome of the outside operation the current phase asked for.
#[derive(Clone, Copy, Debug, PartialEq, Eq, Structural)]
pub enum LoaderEvent {
    Allocated { buffer: u64 },
    AllocationFailed { code: u32 },
    PathWritten,
    WriteFailed { code: u32 },
    ThreadCreated,
    ThreadCreationFailed { code: u32 },
}

/// Whether the event reports on the operation the phase is waiting for.
pub open spec fn loader_event_fits(phase: LoaderPhase, event: LoaderEvent) -> bool {
    match phase {
        LoaderPhase::Allocating => event is Allocated || event is AllocationFailed,
        LoaderPhase::Writing { .. } => event is PathWritten || event is WriteFailed,
        LoaderPhase::Starting { .. } => event is ThreadCreated || event is ThreadCreationFailed,
        _ => false,
    }
}

/// What to do after a step: the next phase, and the remote buffer to free
/// first, if any.
#[derive(Clone, Copy, Debug, PartialEq, Eq, Structural)]
pub struct LoaderTransition {
    pub next: LoaderPhase,
    pub release_buffer: Option<u64>,
}

/// Advance the loader-thread strategy by one observed outcome.
///
/// A failed allocation aborts the strategy before anything was changed in
/// the target: no buffer exists, nothing is released, and the failure is
/// reported as an injection error. A failure after allocation orders the
/// remote buffer freed before the strategy returns. An event that does not
/// answer the current phase changes nothing.
pub fn loader_step(phase: LoaderPhase, event: LoaderEvent) -> (t: LoaderTransition)
    ensures
        !loader_event_fits(phase, event) ==> t == (LoaderTransition {
            next: phase,
            release_buffer: None::<u64>,
        }),
        phase is Allocating ==> (event matches LoaderEvent::Allocated { buffer } ==> t == (
        LoaderTransition { next: LoaderPhase::Writing { buffer }, release_buffer: None::<u64> })),
        phase is Allocating ==> (event matches LoaderEvent::AllocationFailed { code } ==> t == (
        LoaderTransition {
            next: LoaderPhase::Failed { error: InjectionError::AllocationFailed { code } },
            release_buffer: None::<u64>,
        })),
        phase matches LoaderPhase::Writing { buffer } ==> (event is PathWritten ==> t == (
        LoaderTransition { next: LoaderPhase::Starting { buffer }, release_buffer: None::<u64> })),
        phase matches LoaderPhase::Writing { buffer } ==> (event matches LoaderEvent::WriteFailed {
            code,
        } ==> t == (LoaderTransition {
            next: LoaderPhase::Failed { error: InjectionError::WriteFailed { code } },
            release_buffer: Some(buffer),
        })),
        phase matches LoaderPhase::Starting { buffer } ==> (event is ThreadCreated ==> t == (
        LoaderTransition { next: LoaderPhase::Completed, release_buffer: None::<u64> })),
        phase matches LoaderPhase::Starting { buffer }
            ==> (event matches LoaderEvent::ThreadCreationFailed { code } ==> t == (LoaderTransition {
            next: LoaderPhase::Failed { error: InjectionError::ThreadCreationFailed { code } },
            release_buffer: Some(buffer),
        })),
{
    match phase {
        LoaderPhase::Allocating => match event {
            LoaderEvent::Allocated { buffer } => LoaderTransition {
                next: LoaderPhase::Writing { buffer },
                release_buffer: None,
            },
            LoaderEvent::AllocationFailed { code } => LoaderTransition {
                next: LoaderPhase::Failed { error: InjectionError::AllocationFailed { code } },
                release_buffer: None,
            },
            _ => LoaderTransition { next: phase, release_buffer: None },
        },
        LoaderPhase::Writing { buffer } => match event {
            LoaderEvent::PathWritten => LoaderTransition {
                next: LoaderPhase::Starting { buffer },
                release_buffer: None,
            },
            LoaderEvent::WriteFailed { code } => LoaderTransition {
                next: LoaderPhase::Failed { error: InjectionError::WriteFailed { code } },
                release_buffer: Some(buffer),
            },
            _ => LoaderTransition { next: phase, release_buffer: None },
        },
        LoaderPhase::Starting { buffer } => match event {
            LoaderEvent::ThreadCreated => LoaderTransition {
                next: LoaderPhase::Completed,
                release_buffer: None,
            },
            LoaderEvent::ThreadCreationFailed { code } => LoaderTransition {
                next: LoaderPhase::Failed { error: InjectionError::ThreadCreationFailed { code } },
                release_buffer: Some(buffer),
            },
            _ => LoaderTransition { next: phase, release_buffer: None },
        },
        _ => LoaderTransition { next: phase, release_buffer: None },
    }
}

/// Where the message-hook strategy stands.
#[derive(Clone, Copy, Debug, PartialEq, Eq, Structural)]
pub enum MessageHookPhase {
    /// Loading the patch module into the controller itself.
    LoadingModule,
    /// Probing the module's accepted hook-registration export names in order.
    ProbingExport { module: u64 },
    /// Asking the export for its message-hook callback.
    QueryingHookProc { module: u64 },
    /// Determining the target's main thread (earliest creation timestamp).
    FindingMainThread { module: u64 },
    /// Installing the message hook on that thread.
    InstallingHook { module: u64, thread_id: u32 },
    /// Posting the no-op message that makes the target run the hook chain.
    Triggering { module: u64, hook: u64, thread_id: u32 },
    /// The hook was removed and the local module copy unloaded.
    Completed,
    /// The strategy failed; the local module copy was ordered unloaded.
    Failed { error: InjectionError },
}

/// Outcome of the outside operation the current phase asked for.
#[derive(Clone, Copy, Debug, PartialEq, Eq, Structural)]
pub enum MessageHookEvent {
    ModuleLoaded { module: u64 },
    ModuleLoadFailed { code: u32 },
    ExportFound,
    ExportMissing,
    HookProcReturned,
    HookProcMissing,
    MainThreadFound { thread_id: u32 },
    MainThreadUnknown,
    HookInstalled { hook: u64 },
    HookRejected { code: u32 },
    MessagePosted,
}

/// Whether the event reports on the operation the phase is waiting for.
pub open spec fn message_hook_event_fits(phase: MessageHookPhase, event: MessageHookEvent) -> bool {
    match phase {
        MessageHookPhase::LoadingModule => event is ModuleLoaded || event is ModuleLoadFailed,
        MessageHookPhase::ProbingExport { .. } => event is ExportFound || event is ExportMissing,
        MessageHookPhase::QueryingHookProc { .. } => event is HookProcReturned
            || event is HookProcMissing,
        MessageHookPhase::FindingMainThread { .. } => event is MainThreadFound
            || event is MainThreadUnknown,
        MessageHookPhase::InstallingHook { .. } => event is HookInstalled || event is HookRejected,
        MessageHookPhase::Triggering { .. } => event is MessagePosted,
        _ => false,
    }
}

/// What to do after a step: the next phase, the message hook to remove
/// first, if any, and the local module copy to unload, if any.
#[derive(Clone, Copy, Debug, PartialEq, Eq, Structural)]
pub struct MessageHookTransition {
    pub next: MessageHookPhase,
    pub remove_hook: Option<u64>,
    pub unload_module: Option<u64>,
}

/// Advance the message-hook strategy by one observed outcome.
///
/// Every failure after the local load orders the local module copy unloaded.
/// On the success path, posting the trigger message completes the strategy
/// and orders the message hook removed and the local copy unloaded, in that
/// order. An event that does not answer the current phase changes nothing.
pub fn message_hook_step(phase: MessageHookPhase, event: MessageHookEvent) -> (t:
    MessageHookTransition)
    ensures
        !message_hook_event_fits(phase, event) ==> t == (MessageHookTransition {
            next: phase,
            remove_hook: None::<u64>,
            unload_module: None::<u64>,
        }),
        phase is LoadingModule ==> (event matches MessageHookEvent::ModuleLoaded { module } ==> t
            == (MessageHookTransition {
            next: MessageHookPhase::ProbingExport { module },
            remove_hook: None::<u64>,
            unload_module: None::<u64>,
        })),
        phase is LoadingModule ==> (event matches MessageHookEvent::ModuleLoadFailed { code } ==> t
            == (MessageHookTransition {
            next: MessageHookPhase::Failed { error: InjectionError::ModuleLoadFailed { code } },
            remove_hook: None::<u64>,
            unload_module: None::<u64>,
        })),
        phase matches MessageHookPhase::ProbingExport { module } ==> (event is ExportFound ==> t
            == (MessageHookTransition {
            next: MessageHookPhase::QueryingHookProc { module },
            remove_hook: None::<u64>,
            unload_module: None::<u64>,
        })),
        phase matches MessageHookPhase::ProbingExport { module } ==> (event is ExportMissing ==> t
            == (MessageHookTransition {
            next: MessageHookPhase::Failed { error: InjectionError::ExportNotFound },
            remove_hook: None::<u64>,
            unload_module: Some(module),
        })),
        phase matches MessageHookPhase::QueryingHookProc { module } ==> (event is HookProcReturned
            ==> t == (MessageHookTransition {
            next: MessageHookPhase::FindingMainThread { module },
            remove_hook: None::<u64>,
            unload_module: None::<u64>,
        })),
        phase matches MessageHookPhase::QueryingHookProc { module } ==> (event is HookProcMissing
            ==> t == (MessageHookTransition {
            next: MessageHookPhase::Failed { error: InjectionError::HookProcUnavailable },
            remove_hook: None::<u64>,
            unload_module: Some(module),
        })),
        phase matches MessageHookPhase::FindingMainThread { module }
            ==> (event matches MessageHookEvent::MainThreadFound { thread_id } ==> t == (
        MessageHookTransition {
            next: MessageHookPhase::InstallingHook { module, thread_id },
            remove_hook: None::<u64>,
            unload_module: None::<u64>,
        })),
        phase matches MessageHookPhase::FindingMainThread { module } ==> (event
            is MainThreadUnknown ==> t == (MessageHookTransition {
            next: MessageHookPhase::Failed { error: InjectionError::MainThreadUnknown },
            remove_hook: None::<u64>,
            unload_module: Some(module),
        })),
        phase matches MessageHookPhase::InstallingHook { module, thread_id }
            ==> (event matches MessageHookEvent::HookInstalled { hook } ==> t == (
        MessageHookTransition {
            next: MessageHookPhase::Triggering { module, hook, thread_id },
            remove_hook: None::<u64>,
            unload_module: None::<u64>,
        })),
        phase matches MessageHookPhase::InstallingHook { module, thread_id }
            ==> (event matches MessageHookEvent::HookRejected { code } ==> t == (
        MessageHookTransition {
            next: MessageHookPhase::Failed { error: InjectionError::HookRejected { code } },
            remove_hook: None::<u64>,
            unload_module: Some(module),
        })),
        phase matches MessageHookPhase::Triggering { module, hook, thread_id }
            ==> (event is MessagePosted ==> t == (MessageHookTransition {
            next: MessageHookPhase::Completed,
            remove_hook: Some(hook),
            unload_module: Some(module),
        })),
{
    match phase {
        MessageHookPhase::LoadingModule => match event {
            MessageHookEvent::ModuleLoaded { module } => MessageHookTransition {
                next: MessageHookPhase::ProbingExport { module },
                remove_hook: None,
                unload_module: None,
            },
            MessageHookEvent::ModuleLoadFailed { code } => MessageHookTransition {
                next: MessageHookPhase::Failed {
                    error: InjectionError::ModuleLoadFailed { code },
                },
                remove_hook: None,
                unload_module: None,
            },
            _ => MessageHookTransition { next: phase, remove_hook: None, unload_module: None },
        },
        MessageHookPhase::ProbingExport { module } => match event {
            MessageHookEvent::ExportFound => MessageHookTransition {
                next: MessageHookPhase::QueryingHookProc { module },
                remove_hook: None,
                unload_module: None,
            },
            MessageHookEvent::ExportMissing => MessageHookTransition {
                next: MessageHookPhase::Failed { error: InjectionError::ExportNotFound },
                remove_hook: None,
                unload_module: Some(module),
            },
            _ => MessageHookTransition { next: phase, remove_hook: None, unload_module: None },
        },
        MessageHookPhase::QueryingHookProc { module } => match event {
            MessageHookEvent::HookProcReturned => MessageHookTransition {
                next: MessageHookPhase::FindingMainThread { module },
                remove_hook: None,
                unload_module: None,
            },
            MessageHookEvent::HookProcMissing => MessageHookTransition {
                next: MessageHookPhase::Failed { error: InjectionError::HookProcUnavailable },
                remove_hook: None,
                unload_module: Some(module),
            },
            _ => MessageHookTransition { next: phase, remove_hook: None, unload_module: None },
        },
        MessageHookPhase::FindingMainThread { module } => match event {
            MessageHookEvent::MainThreadFound { thread_id } => MessageHookTransition {
                next: MessageHookPhase::InstallingHook { module, thread_id },
                remove_hook: None,
                unload_module: None,
            },
            MessageHookEvent::MainThreadUnknown => MessageHookTransition {
                next: MessageHookPhase::Failed { error: InjectionError::MainThreadUnknown },
                remove_hook: None,
                unload_module: Some(module),
            },
            _ => MessageHookTransition { next: phase, remove_hook: None, unload_module: None },
        },
        MessageHookPhase::InstallingHook { module, thread_id } => match event {
            MessageHookEvent::HookInstalled { hook } => MessageHookTransition {
                next: MessageHookPhase::Triggering { module, hook, thread_id },
                remove_hook: None,
                unload_module: None,
            },
            MessageHookEvent::HookRejected { code } => MessageHookTransition {
                next: MessageHookPhase::Failed { error: InjectionError::HookRejected { code } },
                remove_hook: None,
                unload_module: Some(module),
            },
            _ => MessageHookTransition { next: phase, remove_hook: None, unload_module: None },
        },
        MessageHookPhase::Triggering { module, hook, thread_id } => match event {
            MessageHookEvent::MessagePosted => MessageHookTransition {
                next: MessageHookPhase::Completed,
                remove_hook: Some(hook),
                unload_module: Some(module),
            },
            _ => MessageHookTransition { next: phase, remove_hook: None, unload_module: None },
        },
        _ => MessageHookTransition { next: phase, remove_hook: None, unload_module: None },
    }
}

/// The hook-registration export names the patch module may carry, probed in
/// this order; the second exists for backward compatibility.
pub fn hook_export_names() -> (names: Vec<String>)
    ensures
        names@.len() == 2,
        names@[0]@ == "DllGetWindowsHookForHutao"@,
        names@[1]@ == "IslandGetWindowHook"@,
{
    let mut names: Vec<String> = Vec::new();
    names.push(String::from_str("DllGetWindowsHookForHutao"));
    names.push(String::from_str("IslandGetWindowHook"));
    names
}

/// The first candidate of an ordered resolution list that resolved, if any:
/// candidates are tried in sequence and the first hit wins.
pub fn first_resolved(resolved: &Vec<bool>) -> (r: Option<usize>)
    ensures
        r matches Some(i) ==> i < resolved@.len() && resolved@[i as int] && forall|j: int|
            0 <= j < i ==> !resolved@[j],
        r is None ==> forall|j: int| 0 <= j < resolved@.len() ==> !resolved@[j],
{
    let mut i: usize = 0;
    while i < resolved.len()
        invariant
            i <= resolved@.len(),
            forall|j: int| 0 <= j < i ==> !resolved@[j],
        decreases resolved@.len() - i,
    {
        if resolved[i] {
            return Some(i);
        }
        i = i + 1;
    }
    None
}

} // verus!
