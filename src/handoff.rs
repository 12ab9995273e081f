use vstd::prelude::*;

use crate::bytes::{le_value, read_le};

verus! {

/// Physical address the kernel is linked to run at.
pub const KERNEL_BASE_ADDR: u64 = 0x10_0000;

/// Size of one firmware page.
pub const PAGE_SIZE: u64 = 4096;

/// Byte offset, within the loaded image, of the little-endian entry address.
pub const KERNEL_ENTRY_OFFSET: usize = 24;

/// Bytes of the image that must be present to read the entry address.
pub const KERNEL_HEADER_LEN: usize = 32;

/// Pages needed to hold `len` bytes: `ceil(len / 4096)`.
pub open spec fn pages_for(len: nat) -> nat {
    (len + 4095) / 4096
}

/// Number of pages to request for a kernel file of `len` bytes.
pub fn page_count(len: u64) -> (r: u64)
    ensures
        r == pages_for(len as nat),
{
    let whole = len / PAGE_SIZE;
    if len % PAGE_SIZE == 0 {
        whole
    } else {
        whole + 1
    }
}

/// The entry address stored in the image that starts with `head`.
pub open spec fn spec_entry_address(head: Seq<u8>) -> u64 {
    le_value(head.subrange(KERNEL_ENTRY_OFFSET as int, KERNEL_HEADER_LEN as int)) as u64
}

/// Reads the little-endian entry address at bytes `[24, 32)` of the loaded
/// image; `None` when fewer than 32 bytes are present.
pub fn entry_address(head: &[u8]) -> (r: Option<u64>)
    ensures
        head@.len() < KERNEL_HEADER_LEN ==> r is None,
        head@.len() >= KERNEL_HEADER_LEN ==> r == Some(spec_entry_address(head@)),
{
    if head.len() < KERNEL_HEADER_LEN {
        None
    } else {
        Some(read_le(head, KERNEL_ENTRY_OFFSET, 8))
    }
}

/// The kernel as placed in memory: its length, where it was loaded, and the
/// entry address read from it.
#[derive(Clone, Copy, Debug, PartialEq, Eq, Structural)]
pub struct KernelImage {
    pub file_size: u64,
    pub load_address: u64,
    pub entry: u64,
}

impl KernelImage {
    /// The image of `file_size` bytes at the fixed load address whose first
    /// bytes are `head`; `None` when `head` is too short to hold the entry.
    pub fn from_loaded(file_size: u64, head: &[u8]) -> (r: Option<KernelImage>)
        ensures
            head@.len() < KERNEL_HEADER_LEN ==> r is None,
            head@.len() >= KERNEL_HEADER_LEN ==> r == Some(
                KernelImage {
                    file_size,
                    load_address: KERNEL_BASE_ADDR,
                    entry: spec_entry_address(head@),
                },
            ),
    {
        match entry_address(head) {
            Some(entry) => Some(KernelImage { file_size, load_address: KERNEL_BASE_ADDR, entry }),
            None => None,
        }
    }

    /// Pages the image occupies at its load address.
    pub fn pages(&self) -> (r: u64)
        ensures
            r == pages_for(self.file_size as nat),
    {
        page_count(self.file_size)
    }
}

/// Base and size of a linear framebuffer; both zero when none was found.
#[derive(Clone, Copy, Debug, PartialEq, Eq, Structural)]
pub struct FrameBufferDescriptor {
    pub base: u64,
    pub size: u64,
}

impl FrameBufferDescriptor {
    /// The descriptor handed to the kernel when no framebuffer is available.
    pub fn absent() -> (r: FrameBufferDescriptor)
        ensures
            r.base == 0,
            r.size == 0,
    {
        FrameBufferDescriptor { base: 0, size: 0 }
    }

    /// The descriptor of an opened graphics interface, or the absent one.
    pub fn resolve(opened: Option<FrameBufferDescriptor>) -> (r: FrameBufferDescriptor)
        ensures
            r == match opened {
                Some(fb) => fb,
                None => FrameBufferDescriptor { base: 0, size: 0 },
            },
    {
        match opened {
            Some(fb) => fb,
            None => FrameBufferDescriptor::absent(),
        }
    }
}

/// The graphics handle to open among those enumerated: the first one, or
/// none when the enumeration is empty.
pub fn select_graphics_handle(handles: &Vec<u64>) -> (r: Option<u64>)
    ensures
        handles@.len() == 0 ==> r is None,
        handles@.len() > 0 ==> r == Some(handles@[0]),
{
    if handles.len() == 0 {
        None
    } else {
        Some(handles[0])
    }
}

} // verus!
