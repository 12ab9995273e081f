use vstd::prelude::*;

use crate::efi::EfiStatus;

verus! {

/// Failure to resolve a firmware protocol on a handle.
#[derive(Clone, Copy, Debug, PartialEq, Eq, Structural)]
pub enum ProtocolError {
    NotFound,
    Unsupported,
    AccessDenied,
}

/// Failure of a file operation on the boot volume.
#[derive(Clone, Copy, Debug, PartialEq, Eq, Structural)]
pub enum IoError {
    OpenFailed,
    ShortRead,
    ShortWrite,
}

/// Failure to claim physical pages.
#[derive(Clone, Copy, Debug, PartialEq, Eq, Structural)]
pub enum AllocationError {
    AddressUnavailable,
    OutOfResources,
}

/// Conditions from which the loader cannot recover.
#[derive(Clone, Copy, Debug, PartialEq, Eq, Structural)]
pub enum FatalError {
    /// The kernel entry call came back.
    EntryReturned,
    /// Every attempt to terminate boot services met a stale map key.
    RetriesExhausted,
    /// An outcome arrived that the current stage did not ask for.
    UnexpectedEvent,
}

/// Why a boot attempt stopped.
#[derive(Clone, Copy, Debug, PartialEq, Eq, Structural)]
pub enum BootError {
    Protocol { error: ProtocolError },
    Io { error: IoError },
    Allocation { error: AllocationError },
    MemoryMap { status: EfiStatus },
    MapKeyStale,
    /// Termination of boot services failed for a reason other than a stale key.
    ExitRefused { status: EfiStatus },
    Fatal { error: FatalError },
}

/// The status code returned to firmware for `e`.
pub open spec fn spec_status_of(e: BootError) -> EfiStatus {
    match e {
        BootError::Protocol { error } => match error {
            ProtocolError::NotFound => EfiStatus::NotFound,
            ProtocolError::Unsupported => EfiStatus::Unsupported,
            ProtocolError::AccessDenied => EfiStatus::AccessDenied,
        },
        BootError::Io { error } => match error {
            IoError::OpenFailed => EfiStatus::NotFound,
            IoError::ShortRead => EfiStatus::LoadError,
            IoError::ShortWrite => EfiStatus::DeviceError,
        },
        BootError::Allocation { error } => match error {
            AllocationError::AddressUnavailable => EfiStatus::LoadError,
            AllocationError::OutOfResources => EfiStatus::OutOfResources,
        },
        BootError::MemoryMap { status } => status,
        BootError::MapKeyStale => EfiStatus::InvalidParameter,
        BootError::ExitRefused { status } => status,
        BootError::Fatal { .. } => EfiStatus::Aborted,
    }
}

/// The protocol error for a failed protocol lookup with status `s`.
pub open spec fn spec_protocol_error(s: EfiStatus) -> ProtocolError {
    match s {
        EfiStatus::Unsupported => ProtocolError::Unsupported,
        EfiStatus::AccessDenied => ProtocolError::AccessDenied,
        _ => ProtocolError::NotFound,
    }
}

/// The allocation error for a failed page allocation with status `s`:
/// firmware reports a claimed or missing range as anything but a lack of
/// resources.
pub open spec fn spec_allocation_error(s: EfiStatus) -> AllocationError {
    match s {
        EfiStatus::OutOfResources => AllocationError::OutOfResources,
        _ => AllocationError::AddressUnavailable,
    }
}

/// The error for a refused termination of boot services with status `s`:
/// firmware answers `InvalidParameter` when the map key is stale.
pub open spec fn spec_exit_error(s: EfiStatus) -> BootError {
    match s {
        EfiStatus::InvalidParameter => BootError::MapKeyStale,
        _ => BootError::ExitRefused { status: s },
    }
}

impl ProtocolError {
    /// The protocol error for a failed protocol lookup with status `s`.
    pub fn from_status(s: EfiStatus) -> (r: ProtocolError)
        ensures
            r == spec_protocol_error(s),
    {
        match s {
            EfiStatus::Unsupported => ProtocolError::Unsupported,
            EfiStatus::AccessDenied => ProtocolError::AccessDenied,
            _ => ProtocolError::NotFound,
        }
    }
}

impl AllocationError {
    /// The allocation error for a failed page allocation with status `s`.
    pub fn from_status(s: EfiStatus) -> (r: AllocationError)
        ensures
            r == spec_allocation_error(s),
    {
        match s {
            EfiStatus::OutOfResources => AllocationError::OutOfResources,
            _ => AllocationError::AddressUnavailable,
        }
    }
}

/// The error for a refused termination of boot services with status `s`.
pub fn exit_error(s: EfiStatus) -> (r: BootError)
    ensures
        r == spec_exit_error(s),
{
    match s {
        EfiStatus::InvalidParameter => BootError::MapKeyStale,
        _ => BootError::ExitRefused { status: s },
    }
}

impl BootError {
    /// The status code returned to firmware when a boot attempt stops on
    /// this error.
    pub fn status(&self) -> (r: EfiStatus)
        ensures
            r == spec_status_of(*self),
    {
        match self {
            BootError::Protocol { error } => match error {
                ProtocolError::NotFound => EfiStatus::NotFound,
                ProtocolError::Unsupported => EfiStatus::Unsupported,
                ProtocolError::AccessDenied => EfiStatus::AccessDenied,
            },
            BootError::Io { error } => match error {
                IoError::OpenFailed => EfiStatus::NotFound,
                IoError::ShortRead => EfiStatus::LoadError,
                IoError::ShortWrite => EfiStatus::DeviceError,
            },
            BootError::Allocation { error } => match error {
                AllocationError::AddressUnavailable => EfiStatus::LoadError,
                AllocationError::OutOfResources => EfiStatus::OutOfResources,
            },
            BootError::MemoryMap { status } => *status,
            BootError::MapKeyStale => EfiStatus::InvalidParameter,
            BootError::ExitRefused { status } => *status,
            BootError::Fatal { .. } => EfiStatus::Aborted,
        }
    }
}

} // verus!
