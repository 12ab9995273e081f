use vstd::prelude::*;

use crate::efi::EfiStatus;
use crate::errors::{
    AllocationError, BootError, FatalError, IoError, ProtocolError, exit_error, spec_exit_error,
    spec_status_of,
};
use crate::handoff::{
    FrameBufferDescriptor, KERNEL_BASE_ADDR, KERNEL_HEADER_LEN, entry_address, page_count,
    pages_for, select_graphics_handle, spec_entry_address,
};
use crate::memory_map::{MapError, regrown_capacity, spec_regrown_capacity};

verus! {

/// Capacity of the first memory-map buffer offered to firmware.
pub const INITIAL_MAP_CAPACITY: usize = 16384;

/// Attempts at terminating boot services before giving up.
pub const MAX_EXIT_ATTEMPTS: u32 = 3;

/// Where the boot sequence stands. Each non-terminal stage waits for the
/// outcome of the one firmware action it asked for.
#[derive(Clone, Copy, Debug, PartialEq, Eq, Structural)]
pub enum BootStage {
    /// Nothing done yet.
    Init,
    /// Console set up; waiting for the first memory map.
    ConsoleReady,
    /// First memory map held; waiting for the boot volume's root directory.
    MemoryMapAcquired,
    /// Root directory open; waiting for the kernel file to open.
    RootOpened,
    /// Kernel file open with a known size; waiting for its pages.
    KernelOpened,
    /// Pages claimed at the load address; waiting for the read.
    KernelPlaced,
    /// Kernel read and its entry decoded; waiting for graphics handles.
    KernelLoaded,
    /// A graphics handle chosen; waiting for it to open.
    GraphicsSelected,
    /// Framebuffer settled; waiting for a fresh memory map.
    GraphicsResolved,
    /// Termination of boot services requested with the latest map key.
    ExitPending,
    /// Boot services gone; control handed to the kernel.
    Running,
    /// Stopped on `error`.
    Aborted { error: BootError },
}

/// The outcome of the action that the sequencer last asked for.
pub enum Event {
    /// The loader was entered and its console set up.
    Started,
    /// A memory-map query ended: the new map key, or why there is none.
    MapAcquired { result: Result<usize, MapError> },
    /// The boot volume's root directory was opened, or not.
    RootOpened { root: Result<(), ProtocolError> },
    /// The kernel file was opened with this size, or could not be.
    KernelOpened { file_size: Option<u64> },
    /// Pages at the load address were claimed, or not.
    PagesAllocated { pages: Result<(), AllocationError> },
    /// The kernel read ended: the bytes firmware reports read, `None` when
    /// the read failed, and the leading bytes of the loaded image.
    KernelRead { bytes_read: Option<u64>, head: Vec<u8> },
    /// Handles offering graphics output, in enumeration order.
    GraphicsHandles { handles: Vec<u64> },
    /// The chosen graphics handle opened with this framebuffer, or failed.
    GraphicsOpened { frame_buffer: Option<FrameBufferDescriptor> },
    /// Termination of boot services succeeded, or failed with this status.
    ExitDone { result: Result<(), EfiStatus> },
    /// The kernel entry call returned.
    EntryReturned,
}

/// The firmware work the sequencer asks for next.
#[derive(Clone, Copy, Debug, PartialEq, Eq, Structural)]
pub enum Action {
    QueryMemoryMap { capacity: usize },
    OpenRoot,
    OpenKernel,
    AllocatePages { address: u64, pages: u64 },
    ReadKernel { address: u64, len: u64 },
    LocateGraphics,
    OpenGraphics { handle: u64 },
    ExitBootServices { map_key: usize },
    Jump { entry: u64, frame_buffer_base: u64, frame_buffer_size: u64 },
    /// Report and return this status to firmware.
    Abort { status: EfiStatus },
    /// Stop the processor; nothing else may be called.
    Halt,
}

/// The boot sequencer's state.
#[derive(Clone, Copy, Debug, PartialEq, Eq, Structural)]
pub struct Sequencer {
    pub stage: BootStage,
    pub map_capacity: usize,
    pub map_key: usize,
    pub kernel_size: u64,
    pub entry: u64,
    pub frame_buffer: FrameBufferDescriptor,
    pub exit_attempts: u32,
}

/// The state a boot attempt starts in.
pub open spec fn initial() -> Sequencer {
    Sequencer {
        stage: BootStage::Init,
        map_capacity: INITIAL_MAP_CAPACITY,
        map_key: 0,
        kernel_size: 0,
        entry: 0,
        frame_buffer: FrameBufferDescriptor { base: 0, size: 0 },
        exit_attempts: 0,
    }
}

/// Stopping on `e`: the stage records it and firmware gets its status.
pub open spec fn aborting(s: Sequencer, e: BootError) -> (Sequencer, Action) {
    (Sequencer { stage: BootStage::Aborted { error: e }, ..s }, Action::Abort { status: spec_status_of(e) })
}

/// A memory-map outcome while waiting for a map: regrow on a small buffer,
/// stop on a failure, or go on with the new key. The first snapshot leads
/// to opening the boot volume; the one taken before termination (`last`)
/// leads to terminating boot services with its key.
pub open spec fn on_map(s: Sequencer, result: Result<usize, MapError>, last: bool) -> (
    Sequencer,
    Action,
) {
    match result {
        Ok(key) => if last {
            (
                Sequencer { stage: BootStage::ExitPending, map_key: key, ..s },
                Action::ExitBootServices { map_key: key },
            )
        } else {
            (Sequencer { stage: BootStage::MemoryMapAcquired, map_key: key, ..s }, Action::OpenRoot)
        },
        Err(MapError::BufferTooSmall { required }) => {
            let cap = spec_regrown_capacity(required);
            (Sequencer { map_capacity: cap, ..s }, Action::QueryMemoryMap { capacity: cap })
        },
        Err(MapError::Firmware { status }) => aborting(s, BootError::MemoryMap { status }),
    }
}

/// The step taken from state `s` on outcome `e`: the next state and the
/// action it asks for.
pub open spec fn transition(s: Sequencer, e: Event) -> (Sequencer, Action) {
    match (s.stage, e) {
        (BootStage::Init, Event::Started) => (
            Sequencer { stage: BootStage::ConsoleReady, ..s },
            Action::QueryMemoryMap { capacity: s.map_capacity },
        ),
        (BootStage::ConsoleReady, Event::MapAcquired { result }) => on_map(s, result, false),
        (BootStage::MemoryMapAcquired, Event::RootOpened { root }) => match root {
            Ok(()) => (Sequencer { stage: BootStage::RootOpened, ..s }, Action::OpenKernel),
            Err(error) => aborting(s, BootError::Protocol { error }),
        },
        (BootStage::RootOpened, Event::KernelOpened { file_size }) => match file_size {
            Some(len) => (
                Sequencer { stage: BootStage::KernelOpened, kernel_size: len, ..s },
                Action::AllocatePages { address: KERNEL_BASE_ADDR, pages: pages_for(len as nat) as u64 },
            ),
            None => aborting(s, BootError::Io { error: IoError::OpenFailed }),
        },
        (BootStage::KernelOpened, Event::PagesAllocated { pages }) => match pages {
            Ok(()) => (
                Sequencer { stage: BootStage::KernelPlaced, ..s },
                Action::ReadKernel { address: KERNEL_BASE_ADDR, len: s.kernel_size },
            ),
            Err(error) => aborting(s, BootError::Allocation { error }),
        },
        (BootStage::KernelPlaced, Event::KernelRead { bytes_read, head }) => {
            if bytes_read != Some(s.kernel_size) || head@.len() < KERNEL_HEADER_LEN {
                aborting(s, BootError::Io { error: IoError::ShortRead })
            } else {
                (
                    Sequencer { stage: BootStage::KernelLoaded, entry: spec_entry_address(head@), ..s },
                    Action::LocateGraphics,
                )
            }
        },
        (BootStage::KernelLoaded, Event::GraphicsHandles { handles }) => {
            if handles@.len() == 0 {
                (
                    Sequencer {
                        stage: BootStage::GraphicsResolved,
                        frame_buffer: FrameBufferDescriptor { base: 0, size: 0 },
                        ..s
                    },
                    Action::QueryMemoryMap { capacity: s.map_capacity },
                )
            } else {
                (
                    Sequencer { stage: BootStage::GraphicsSelected, ..s },
                    Action::OpenGraphics { handle: handles@[0] },
                )
            }
        },
        (BootStage::GraphicsSelected, Event::GraphicsOpened { frame_buffer }) => (
            Sequencer {
                stage: BootStage::GraphicsResolved,
                frame_buffer: match frame_buffer {
                    Some(fb) => fb,
                    None => FrameBufferDescriptor { base: 0, size: 0 },
                },
                ..s
            },
            Action::QueryMemoryMap { capacity: s.map_capacity },
        ),
        (BootStage::GraphicsResolved, Event::MapAcquired { result }) => on_map(s, result, true),
        (BootStage::ExitPending, Event::ExitDone { result }) => match result {
            Ok(()) => {
                (
                    Sequencer { stage: BootStage::Running, ..s },
                    Action::Jump {
                        entry: s.entry,
                        frame_buffer_base: s.frame_buffer.base,
                        frame_buffer_size: s.frame_buffer.size,
                    },
                )
            },
            Err(status) => if spec_exit_error(status) != BootError::MapKeyStale {
                aborting(s, spec_exit_error(status))
            } else if s.exit_attempts + 1 >= MAX_EXIT_ATTEMPTS {
                aborting(s, BootError::Fatal { error: FatalError::RetriesExhausted })
            } else {
                (
                    Sequencer {
                        stage: BootStage::GraphicsResolved,
                        exit_attempts: (s.exit_attempts + 1) as u32,
                        ..s
                    },
                    Action::QueryMemoryMap { capacity: s.map_capacity },
                )
            },
        },
        (BootStage::Running, Event::EntryReturned) => (
            Sequencer {
                stage: BootStage::Aborted { error: BootError::Fatal { error: FatalError::EntryReturned } },
                ..s
            },
            Action::Halt,
        ),
        (BootStage::Aborted { error }, _) => (s, Action::Halt),
        (BootStage::Running, _) => (s, Action::Halt),
        (_, _) => aborting(s, BootError::Fatal { error: FatalError::UnexpectedEvent }),
    }
}

impl Sequencer {
    /// A sequencer at the start of a boot attempt.
    pub fn new() -> (r: Sequencer)
        ensures
            r == initial(),
    {
        Sequencer {
            stage: BootStage::Init,
            map_capacity: INITIAL_MAP_CAPACITY,
            map_key: 0,
            kernel_size: 0,
            entry: 0,
            frame_buffer: FrameBufferDescriptor::absent(),
            exit_attempts: 0,
        }
    }

    fn abort(&mut self, e: BootError) -> (a: Action)
        ensures
            (*final(self), a) == aborting(*old(self), e),
    {
        self.stage = BootStage::Aborted { error: e };
        Action::Abort { status: e.status() }
    }

    fn take_map(&mut self, result: Result<usize, MapError>, last: bool) -> (a: Action)
        ensures
            (*final(self), a) == on_map(*old(self), result, last),
    {
        match result {
            Ok(key) => {
                self.map_key = key;
                if last {
                    self.stage = BootStage::ExitPending;
                    Action::ExitBootServices { map_key: key }
                } else {
                    self.stage = BootStage::MemoryMapAcquired;
                    Action::OpenRoot
                }
            },
            Err(MapError::BufferTooSmall { required }) => {
                let cap = regrown_capacity(required);
                self.map_capacity = cap;
                Action::QueryMemoryMap { capacity: cap }
            },
            Err(MapError::Firmware { status }) => self.abort(BootError::MemoryMap { status }),
        }
    }

    /// Takes the outcome of the last action and returns the next one.
    pub fn step(&mut self, event: Event) -> (a: Action)
        ensures
            (*final(self), a) == transition(*old(self), event),
    {
        match (self.stage, event) {
            (BootStage::Init, Event::Started) => {
                self.stage = BootStage::ConsoleReady;
                Action::QueryMemoryMap { capacity: self.map_capacity }
            },
            (BootStage::ConsoleReady, Event::MapAcquired { result }) => {
                self.take_map(result, false)
            },
            (BootStage::MemoryMapAcquired, Event::RootOpened { root }) => match root {
                Ok(()) => {
                    self.stage = BootStage::RootOpened;
                    Action::OpenKernel
                },
                Err(error) => self.abort(BootError::Protocol { error }),
            },
            (BootStage::RootOpened, Event::KernelOpened { file_size }) => match file_size {
                Some(len) => {
                    self.stage = BootStage::KernelOpened;
                    self.kernel_size = len;
                    Action::AllocatePages { address: KERNEL_BASE_ADDR, pages: page_count(len) }
                },
                None => self.abort(BootError::Io { error: IoError::OpenFailed }),
            },
            (BootStage::KernelOpened, Event::PagesAllocated { pages }) => match pages {
                Ok(()) => {
                    self.stage = BootStage::KernelPlaced;
                    Action::ReadKernel { address: KERNEL_BASE_ADDR, len: self.kernel_size }
                },
                Err(error) => self.abort(BootError::Allocation { error }),
            },
            (BootStage::KernelPlaced, Event::KernelRead { bytes_read, head }) => {
                if bytes_read != Some(self.kernel_size) {
                    self.abort(BootError::Io { error: IoError::ShortRead })
                } else {
                    match entry_address(head.as_slice()) {
                        Some(entry) => {
                            self.stage = BootStage::KernelLoaded;
                            self.entry = entry;
                            Action::LocateGraphics
                        },
                        None => self.abort(BootError::Io { error: IoError::ShortRead }),
                    }
                }
            },
            (BootStage::KernelLoaded, Event::GraphicsHandles { handles }) => {
                match select_graphics_handle(&handles) {
                    Some(handle) => {
                        self.stage = BootStage::GraphicsSelected;
                        Action::OpenGraphics { handle }
                    },
                    None => {
                        self.stage = BootStage::GraphicsResolved;
                        self.frame_buffer = FrameBufferDescriptor::absent();
                        Action::QueryMemoryMap { capacity: self.map_capacity }
                    },
                }
            },
            (BootStage::GraphicsSelected, Event::GraphicsOpened { frame_buffer }) => {
                self.stage = BootStage::GraphicsResolved;
                self.frame_buffer = FrameBufferDescriptor::resolve(frame_buffer);
                Action::QueryMemoryMap { capacity: self.map_capacity }
            },
            (BootStage::GraphicsResolved, Event::MapAcquired { result }) => {
                self.take_map(result, true)
            },
            (BootStage::ExitPending, Event::ExitDone { result }) => match result {
                Ok(()) => {
                    self.stage = BootStage::Running;
                    Action::Jump {
                        entry: self.entry,
                        frame_buffer_base: self.frame_buffer.base,
                        frame_buffer_size: self.frame_buffer.size,
                    }
                },
                Err(status) => {
                    let e = exit_error(status);
                    if e != BootError::MapKeyStale {
                        self.abort(e)
                    } else if self.exit_attempts >= MAX_EXIT_ATTEMPTS - 1 {
                        self.abort(BootError::Fatal { error: FatalError::RetriesExhausted })
                    } else {
                        self.stage = BootStage::GraphicsResolved;
                        self.exit_attempts = self.exit_attempts + 1;
                        Action::QueryMemoryMap { capacity: self.map_capacity }
                    }
                },
            },
            (BootStage::Running, Event::EntryReturned) => {
                self.stage = BootStage::Aborted {
                    error: BootError::Fatal { error: FatalError::EntryReturned },
                };
                Action::Halt
            },
            (BootStage::Aborted { .. }, _) => Action::Halt,
            (BootStage::Running, _) => Action::Halt,
            (_, _) => self.abort(BootError::Fatal { error: FatalError::UnexpectedEvent }),
        }
    }

    /// Whether the sequence has ended: control handed over, or stopped.
    pub fn is_finished(&self) -> (r: bool)
        ensures
            r == (self.stage is Running || self.stage is Aborted),
    {
        match self.stage {
            BootStage::Running | BootStage::Aborted { .. } => true,
            _ => false,
        }
    }
}

} // verus!
