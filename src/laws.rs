use vstd::prelude::*;

use crate::efi::EfiStatus;
use crate::errors::{BootError, FatalError, IoError, spec_status_of};
use crate::handoff::{
    FrameBufferDescriptor, KERNEL_BASE_ADDR, KERNEL_HEADER_LEN, pages_for, spec_entry_address,
};
use crate::memory_map::MapError;
use crate::sequencer::{
    Action, BootStage, Event, MAX_EXIT_ATTEMPTS, Sequencer, initial, transition,
};

verus! {

/// Once the kernel file is open with `len` bytes, the sequencer asks for
/// exactly `ceil(len / 4096)` pages at the fixed load address, and once they
/// are claimed it asks for one read of exactly `len` bytes into them.
pub proof fn lemma_kernel_placement(s: Sequencer, len: u64)
    requires
        s.stage == BootStage::RootOpened,
    ensures
        ({
            let (s1, a1) = transition(s, Event::KernelOpened { file_size: Some(len) });
            let (s2, a2) = transition(s1, Event::PagesAllocated { pages: Ok(()) });
            &&& a1 == Action::AllocatePages { address: KERNEL_BASE_ADDR, pages: pages_for(len as nat) as u64 }
            &&& a2 == Action::ReadKernel { address: KERNEL_BASE_ADDR, len }
            &&& s2.stage == BootStage::KernelPlaced
        }),
{
}

/// A read of the kernel is asked for only once its pages are claimed, always
/// of the opened file's length, and the stage then moves on, so no second
/// read follows.
pub proof fn lemma_single_kernel_read(s: Sequencer, e: Event)
    ensures
        transition(s, e).1 is ReadKernel ==> {
            &&& s.stage == BootStage::KernelOpened
            &&& transition(s, e).1 == Action::ReadKernel { address: KERNEL_BASE_ADDR, len: s.kernel_size }
            &&& transition(s, e).0.stage == BootStage::KernelPlaced
        },
        s.stage == BootStage::KernelPlaced ==> !(transition(s, e).1 is ReadKernel),
{
}

/// Boot services are only ever asked to terminate right after a memory map
/// was acquired, and with that map's key.
pub proof fn lemma_exit_uses_fresh_key(s: Sequencer, e: Event)
    ensures
        transition(s, e).1 is ExitBootServices ==> {
            &&& s.stage == BootStage::GraphicsResolved
            &&& e == (Event::MapAcquired {
                result: Ok::<usize, MapError>(transition(s, e).0.map_key),
            })
            &&& transition(s, e).1 == (Action::ExitBootServices {
                map_key: transition(s, e).0.map_key,
            })
        },
{
}

/// A stale key with attempts left makes the sequencer ask for a fresh memory
/// map, not for a second termination; with none left it stops on
/// `RetriesExhausted`.
pub proof fn lemma_stale_key(s: Sequencer)
    requires
        s.stage == BootStage::ExitPending,
    ensures
        s.exit_attempts + 1 < MAX_EXIT_ATTEMPTS ==> {
            let (s1, a1) = transition(s, Event::ExitDone { result: Err(EfiStatus::InvalidParameter) });
            &&& s1.stage == BootStage::GraphicsResolved
            &&& a1 == Action::QueryMemoryMap { capacity: s.map_capacity }
            &&& s1.exit_attempts == s.exit_attempts + 1
        },
        s.exit_attempts + 1 >= MAX_EXIT_ATTEMPTS ==> {
            let (s1, a1) = transition(s, Event::ExitDone { result: Err(EfiStatus::InvalidParameter) });
            let err = BootError::Fatal { error: FatalError::RetriesExhausted };
            &&& s1.stage == BootStage::Aborted { error: err }
            &&& a1 == Action::Abort { status: spec_status_of(err) }
        },
{
}

/// A termination refused for any reason but a stale key stops the sequence
/// at once on that refusal, without a retry.
pub proof fn lemma_other_exit_failure_aborts(s: Sequencer, status: EfiStatus)
    requires
        s.stage == BootStage::ExitPending,
        status != EfiStatus::InvalidParameter,
    ensures
        ({
            let (s1, a1) = transition(s, Event::ExitDone { result: Err(status) });
            &&& s1.stage == BootStage::Aborted { error: BootError::ExitRefused { status } }
            &&& a1 == Action::Abort { status }
        }),
{
}

/// After a stale-key refusal, the next termination attempt carries the key
/// of the snapshot taken after the refusal, so whenever firmware reports a
/// new key for that snapshot, the two attempts carry different keys.
pub proof fn lemma_retry_carries_new_key(s: Sequencer, k: usize)
    requires
        s.stage == BootStage::ExitPending,
        s.exit_attempts + 1 < MAX_EXIT_ATTEMPTS,
    ensures
        ({
            let (s1, a1) = transition(s, Event::ExitDone { result: Err(EfiStatus::InvalidParameter) });
            let (s2, a2) = transition(s1, Event::MapAcquired { result: Ok(k) });
            &&& a2 == Action::ExitBootServices { map_key: k }
            &&& k != s.map_key ==> a2 != (Action::ExitBootServices { map_key: s.map_key })
        }),
{
}

/// Starting from the first termination attempt, stale keys on every attempt
/// lead to a fresh snapshot before each new attempt, each attempt carries
/// the key of the snapshot just taken, and the third refusal stops the
/// sequence on `RetriesExhausted`.
pub proof fn lemma_retries_exhausted(s: Sequencer, k1: usize, k2: usize)
    requires
        s.stage == BootStage::ExitPending,
        s.exit_attempts == 0,
    ensures
        ({
            let (s1, a1) = transition(s, Event::ExitDone { result: Err(EfiStatus::InvalidParameter) });
            let (s2, a2) = transition(s1, Event::MapAcquired { result: Ok(k1) });
            let (s3, a3) = transition(s2, Event::ExitDone { result: Err(EfiStatus::InvalidParameter) });
            let (s4, a4) = transition(s3, Event::MapAcquired { result: Ok(k2) });
            let (s5, a5) = transition(s4, Event::ExitDone { result: Err(EfiStatus::InvalidParameter) });
            &&& a1 is QueryMemoryMap
            &&& a2 == Action::ExitBootServices { map_key: k1 }
            &&& a3 is QueryMemoryMap
            &&& a4 == Action::ExitBootServices { map_key: k2 }
            &&& s5.stage == BootStage::Aborted {
                error: BootError::Fatal { error: FatalError::RetriesExhausted },
            }
            &&& a5 is Abort
        }),
{
}

/// With no graphics handle the framebuffer resolves to zero base and size
/// and the sequence goes on; with one or more, the handle at index 0 is the
/// one opened.
pub proof fn lemma_graphics_selection(s: Sequencer, handles: Vec<u64>)
    requires
        s.stage == BootStage::KernelLoaded,
    ensures
        (handles@.len() == 0 ==> {
            let (s1, a1) = transition(s, Event::GraphicsHandles { handles });
            &&& s1.stage == BootStage::GraphicsResolved
            &&& s1.frame_buffer == (FrameBufferDescriptor { base: 0, size: 0 })
            &&& a1 is QueryMemoryMap
        }),
        (handles@.len() > 0 ==> transition(s, Event::GraphicsHandles { handles }).1
            == (Action::OpenGraphics { handle: handles@[0] })),
        (transition(s, Event::GraphicsHandles { handles: handles }).0.stage
            == BootStage::GraphicsResolved ==> handles@.len() == 0),
{
}

/// A graphics handle that fails to open leaves the kernel a zero-sized
/// framebuffer rather than stopping the boot.
pub proof fn lemma_graphics_degrades(s: Sequencer)
    requires
        s.stage == BootStage::GraphicsSelected,
    ensures
        (transition(s, Event::GraphicsOpened { frame_buffer: None }).0.stage
            == BootStage::GraphicsResolved),
        (transition(s, Event::GraphicsOpened { frame_buffer: None }).0.frame_buffer
            == (FrameBufferDescriptor { base: 0, size: 0 })),
{
}

/// End to end: on a firmware that answers every request successfully, with
/// a kernel file of `len` bytes whose loaded image starts with `head` and a
/// graphics handle that opens with framebuffer `fb`, the sequencer reaches
/// `Running` and jumps to the decoded entry with exactly `fb`'s base and
/// size.
pub proof fn lemma_boot_reaches_running(
    k1: usize,
    k2: usize,
    len: u64,
    head: Vec<u8>,
    handles: Vec<u64>,
    fb: FrameBufferDescriptor,
)
    requires
        head@.len() >= KERNEL_HEADER_LEN,
        handles@.len() > 0,
    ensures
        ({
            let (s1, a1) = transition(initial(), Event::Started);
            let (s2, a2) = transition(s1, Event::MapAcquired { result: Ok(k1) });
            let (s3, a3) = transition(s2, Event::RootOpened { root: Ok(()) });
            let (s4, a4) = transition(s3, Event::KernelOpened { file_size: Some(len) });
            let (s5, a5) = transition(s4, Event::PagesAllocated { pages: Ok(()) });
            let (s6, a6) = transition(s5, Event::KernelRead { bytes_read: Some(len), head });
            let (s7, a7) = transition(s6, Event::GraphicsHandles { handles });
            let (s8, a8) = transition(s7, Event::GraphicsOpened { frame_buffer: Some(fb) });
            let (s9, a9) = transition(s8, Event::MapAcquired { result: Ok(k2) });
            let (s10, a10) = transition(s9, Event::ExitDone { result: Ok(()) });
            &&& s8.stage == BootStage::GraphicsResolved
            &&& s8.frame_buffer == fb
            &&& a9 == Action::ExitBootServices { map_key: k2 }
            &&& s10.stage == BootStage::Running
            &&& a10 == Action::Jump {
                entry: spec_entry_address(head@),
                frame_buffer_base: s8.frame_buffer.base,
                frame_buffer_size: s8.frame_buffer.size,
            }
            &&& a10 == Action::Jump {
                entry: spec_entry_address(head@),
                frame_buffer_base: fb.base,
                frame_buffer_size: fb.size,
            }
        }),
{
}

/// End to end: when the kernel file cannot be opened, the sequence stops at
/// `Aborted` with `OpenFailed`, and termination of boot services was never
/// asked for.
pub proof fn lemma_missing_kernel_aborts(k1: usize)
    ensures
        ({
            let (s1, a1) = transition(initial(), Event::Started);
            let (s2, a2) = transition(s1, Event::MapAcquired { result: Ok(k1) });
            let (s3, a3) = transition(s2, Event::RootOpened { root: Ok(()) });
            let (s4, a4) = transition(s3, Event::KernelOpened { file_size: None });
            &&& s4.stage == BootStage::Aborted { error: BootError::Io { error: IoError::OpenFailed } }
            &&& a4 == Action::Abort {
                status: spec_status_of(BootError::Io { error: IoError::OpenFailed }),
            }
            &&& !(a1 is ExitBootServices) && !(a2 is ExitBootServices)
            &&& !(a3 is ExitBootServices) && !(a4 is ExitBootServices)
        }),
{
}

/// Once stopped, the sequencer stays stopped and only asks to halt.
pub proof fn lemma_aborted_is_final(s: Sequencer, e: Event)
    requires
        s.stage is Aborted,
    ensures
        transition(s, e) == (s, Action::Halt),
{
}

} // verus!
