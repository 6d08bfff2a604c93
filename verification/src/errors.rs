//! Error taxonomy of the patch engine.
//!
//! Every failure surfaces as one of these values; the controller turns each
//! into a single status message and aborts the operation at hand. Platform
//! error codes ride along where the operating system reported one.

use vstd::prelude::*;

verus! {

/// A required target function's address could not be computed.
#[derive(Clone, Copy, Debug, PartialEq, Eq, Structural)]
pub enum ResolutionError {
    /// The load base plus the table offset does not fit in an address.
    OffsetOutOfRange,
}

/// Installing an inline hook failed.
#[derive(Clone, Copy, Debug, PartialEq, Eq, Structural)]
pub enum HookInstallError {
    /// A hook is already installed at the target address; at most one hook
    /// per address may exist at a time.
    AlreadyHooked,
    /// The target address could not be read.
    TargetUnreadable,
    /// The function at the target address is too short to rewrite safely.
    TooShort,
}

/// Toggling an installed hook failed.
#[derive(Clone, Copy, Debug, PartialEq, Eq, Structural)]
pub enum HookEnableError {
    /// No hook is installed at the given target address.
    NotInstalled,
}

/// Creating the named shared segment failed.
#[derive(Clone, Copy, Debug, PartialEq, Eq, Structural)]
pub enum SegmentCreateError {
    /// A segment of the same name but a different size already exists.
    NameCollision,
    /// The platform could not allocate the mapping.
    ResourceExhausted { code: u32 },
}

/// Opening the named shared segment from inside the target failed.
#[derive(Clone, Copy, Debug, PartialEq, Eq, Structural)]
pub enum SegmentMapError {
    /// No segment of that name exists yet; the opener fails fast rather
    /// than block waiting for the controller.
    NotFound,
}

/// Getting the patch module loaded and running inside the target failed.
#[derive(Clone, Copy, Debug, PartialEq, Eq, Structural)]
pub enum InjectionError {
    /// The remote buffer for the module path could not be allocated.
    AllocationFailed { code: u32 },
    /// The module path could not be written into the target.
    WriteFailed { code: u32 },
    /// The loader thread could not be created in the target.
    ThreadCreationFailed { code: u32 },
    /// The patch module could not be loaded into the controller.
    ModuleLoadFailed { code: u32 },
    /// Neither accepted hook-registration export name resolved.
    ExportNotFound,
    /// The module's hook-registration export returned no callback.
    HookProcUnavailable,
    /// The target's main thread could not be determined.
    MainThreadUnknown,
    /// The platform rejected the message-hook installation.
    HookRejected { code: u32 },
}

/// The target process had not progressed far enough for the operation; the
/// fixed settle delay is a heuristic, not a readiness signal.
#[derive(Clone, Copy, Debug, PartialEq, Eq, Structural)]
pub enum RaceError {
    /// The target was not sufficiently initialized when injection ran.
    TargetNotReady,
}

} // verus!
