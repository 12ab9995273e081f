use vstd::prelude::*;

use crate::handoff::FrameBufferDescriptor;

verus! {

/// Status codes that firmware returns, and that the loader returns to it.
#[derive(Clone, Copy, Debug, PartialEq, Eq, Structural)]
pub enum EfiStatus {
    Success,
    LoadError,
    InvalidParameter,
    Unsupported,
    BadBufferSize,
    BufferTooSmall,
    NotReady,
    DeviceError,
    WriteProtected,
    OutOfResources,
    VolumeCorrupted,
    VolumeFull,
    NoMedia,
    MediaChanged,
    NotFound,
    AccessDenied,
    NoResponse,
    NoMapping,
    Timeout,
    NotStarted,
    AlreadyStarted,
    Aborted,
}

} // verus!

verus! {

/// A 128-bit protocol identifier.
#[derive(Clone, Copy, Debug)]
pub struct EfiGuid {
    pub data_1: u32,
    pub data_2: u16,
    pub data_3: u16,
    pub data_4: [u8; 8],
}

/// Header common to firmware service tables.
#[derive(Clone, Copy, Debug, PartialEq, Eq, Structural)]
pub struct EfiTableHeader {
    pub signature: u64,
    pub revision: u32,
    pub header_size: u32,
    pub crc32: u32,
    pub reserved: u32,
}

/// Kinds of physical memory region, in the order of their numeric codes.
#[derive(Clone, Copy, Debug, PartialEq, Eq, Structural)]
pub enum EfiMemoryType {
    EfiReservedMemoryType,
    EfiLoaderCode,
    EfiLoaderData,
    EfiBootServicesCode,
    EfiBootServicesData,
    EfiRuntimeServicesCode,
    EfiRuntimeServicesData,
    EfiConventionalMemory,
    EfiUnusableMemory,
    EfiACPIReclaimMemory,
    EfiACPIMemoryNVS,
    EfiMemoryMappedIO,
    EfiMemoryMappedIOPortSpace,
    EfiPalCode,
    EfiPersistentMemory,
    EfiUnacceptedMemoryType,
    EfiMaxMemoryType,
}

impl EfiMemoryType {
    /// The numeric code firmware uses for this kind.
    pub open spec fn spec_code(self) -> u32 {
        match self {
            EfiMemoryType::EfiReservedMemoryType => 0,
            EfiMemoryType::EfiLoaderCode => 1,
            EfiMemoryType::EfiLoaderData => 2,
            EfiMemoryType::EfiBootServicesCode => 3,
            EfiMemoryType::EfiBootServicesData => 4,
            EfiMemoryType::EfiRuntimeServicesCode => 5,
            EfiMemoryType::EfiRuntimeServicesData => 6,
            EfiMemoryType::EfiConventionalMemory => 7,
            EfiMemoryType::EfiUnusableMemory => 8,
            EfiMemoryType::EfiACPIReclaimMemory => 9,
            EfiMemoryType::EfiACPIMemoryNVS => 10,
            EfiMemoryType::EfiMemoryMappedIO => 11,
            EfiMemoryType::EfiMemoryMappedIOPortSpace => 12,
            EfiMemoryType::EfiPalCode => 13,
            EfiMemoryType::EfiPersistentMemory => 14,
            EfiMemoryType::EfiUnacceptedMemoryType => 15,
            EfiMemoryType::EfiMaxMemoryType => 16,
        }
    }

    /// The numeric code firmware uses for this kind.
    pub fn code(&self) -> (r: u32)
        ensures
            r == self.spec_code(),
    {
        match self {
            EfiMemoryType::EfiReservedMemoryType => 0,
            EfiMemoryType::EfiLoaderCode => 1,
            EfiMemoryType::EfiLoaderData => 2,
            EfiMemoryType::EfiBootServicesCode => 3,
            EfiMemoryType::EfiBootServicesData => 4,
            EfiMemoryType::EfiRuntimeServicesCode => 5,
            EfiMemoryType::EfiRuntimeServicesData => 6,
            EfiMemoryType::EfiConventionalMemory => 7,
            EfiMemoryType::EfiUnusableMemory => 8,
            EfiMemoryType::EfiACPIReclaimMemory => 9,
            EfiMemoryType::EfiACPIMemoryNVS => 10,
            EfiMemoryType::EfiMemoryMappedIO => 11,
            EfiMemoryType::EfiMemoryMappedIOPortSpace => 12,
            EfiMemoryType::EfiPalCode => 13,
            EfiMemoryType::EfiPersistentMemory => 14,
            EfiMemoryType::EfiUnacceptedMemoryType => 15,
            EfiMemoryType::EfiMaxMemoryType => 16,
        }
    }

    /// The kind with numeric code `code`, if there is one.
    pub fn from_code(code: u32) -> (r: Option<EfiMemoryType>)
        ensures
            code <= 16 <==> r is Some,
            r matches Some(t) ==> t.spec_code() == code,
    {
        match code {
            0 => Some(EfiMemoryType::EfiReservedMemoryType),
            1 => Some(EfiMemoryType::EfiLoaderCode),
            2 => Some(EfiMemoryType::EfiLoaderData),
            3 => Some(EfiMemoryType::EfiBootServicesCode),
            4 => Some(EfiMemoryType::EfiBootServicesData),
            5 => Some(EfiMemoryType::EfiRuntimeServicesCode),
            6 => Some(EfiMemoryType::EfiRuntimeServicesData),
            7 => Some(EfiMemoryType::EfiConventionalMemory),
            8 => Some(EfiMemoryType::EfiUnusableMemory),
            9 => Some(EfiMemoryType::EfiACPIReclaimMemory),
            10 => Some(EfiMemoryType::EfiACPIMemoryNVS),
            11 => Some(EfiMemoryType::EfiMemoryMappedIO),
            12 => Some(EfiMemoryType::EfiMemoryMappedIOPortSpace),
            13 => Some(EfiMemoryType::EfiPalCode),
            14 => Some(EfiMemoryType::EfiPersistentMemory),
            15 => Some(EfiMemoryType::EfiUnacceptedMemoryType),
            16 => Some(EfiMemoryType::EfiMaxMemoryType),
            _ => None,
        }
    }
}

/// Modes for opening a file on the boot volume.
#[derive(Clone, Copy, Debug, PartialEq, Eq, Structural)]
pub enum EfiFileOpenMode {
    Read,
    ReadWrite,
    CreateReadWrite,
}

impl EfiFileOpenMode {
    /// The mode bits firmware expects.
    pub fn bits(&self) -> (r: u64)
        ensures
            r == match *self {
                EfiFileOpenMode::Read => 0x1u64,
                EfiFileOpenMode::ReadWrite => 0x3u64,
                EfiFileOpenMode::CreateReadWrite => 0x8000_0000_0000_0003u64,
            },
    {
        match self {
            EfiFileOpenMode::Read => 0x1,
            EfiFileOpenMode::ReadWrite => 0x3,
            EfiFileOpenMode::CreateReadWrite => 0x8000_0000_0000_0003,
        }
    }
}

/// Attributes given to a file created on the boot volume.
#[derive(Clone, Copy, Debug, PartialEq, Eq, Structural)]
pub enum EfiFileAttribute {
    Normal,
    ReadOnly,
    Hidden,
    System,
    Reserved,
    Directory,
    Archive,
    ValidAttributes,
}

impl EfiFileAttribute {
    /// The attribute bits firmware expects.
    pub fn bits(&self) -> (r: u64)
        ensures
            r == match *self {
                EfiFileAttribute::Normal => 0x0u64,
                EfiFileAttribute::ReadOnly => 0x1u64,
                EfiFileAttribute::Hidden => 0x2u64,
                EfiFileAttribute::System => 0x4u64,
                EfiFileAttribute::Reserved => 0x8u64,
                EfiFileAttribute::Directory => 0x10u64,
                EfiFileAttribute::Archive => 0x20u64,
                EfiFileAttribute::ValidAttributes => 0x37u64,
            },
    {
        match self {
            EfiFileAttribute::Normal => 0x0,
            EfiFileAttribute::ReadOnly => 0x1,
            EfiFileAttribute::Hidden => 0x2,
            EfiFileAttribute::System => 0x4,
            EfiFileAttribute::Reserved => 0x8,
            EfiFileAttribute::Directory => 0x10,
            EfiFileAttribute::Archive => 0x20,
            EfiFileAttribute::ValidAttributes => 0x37,
        }
    }
}

/// A calendar time as firmware reports it.
#[derive(Clone, Copy, Debug, PartialEq, Eq, Structural)]
pub struct EfiTime {
    pub year: u16,
    pub month: u8,
    pub day: u8,
    pub hour: u8,
    pub minute: u8,
    pub second: u8,
    pub nanosecond: u32,
    pub time_zone: i16,
    pub daylight: u8,
}

/// Metadata of a file on the boot volume.
#[derive(Clone, Copy, Debug, PartialEq, Eq, Structural)]
pub struct EfiFileInfo {
    pub size: u64,
    pub file_size: u64,
    pub physical_size: u64,
    pub create_time: EfiTime,
    pub last_access_time: EfiTime,
    pub modification_time: EfiTime,
    pub attribute: u64,
}

/// How a page allocation picks its address.
#[derive(Clone, Copy, Debug, PartialEq, Eq, Structural)]
pub enum EfiAllocateType {
    AllocateAnyPages,
    AllocateMaxAddress,
    AllocateAddress,
    MaxAllocateType,
}

/// How a handle search selects handles.
#[derive(Clone, Copy, Debug, PartialEq, Eq, Structural)]
pub enum EfiLocateSearchType {
    AllHandles,
    ByRegisterNotify,
    ByProtocol,
    ByHandle,
    ByDevicePath,
}

/// Pixel layouts of a graphics mode.
#[derive(Clone, Copy, Debug, PartialEq, Eq, Structural)]
pub enum EfiGraphicsPixelFormat {
    PixelRedGreenBlueReserved8BitPerColor,
    PixelBlueGreenRedReserved8BitPerColor,
    PixelBitMask,
    PixelBltOnly,
    PixelFormatMax,
}

/// Block-transfer operations of graphics output.
#[derive(Clone, Copy, Debug, PartialEq, Eq, Structural)]
pub enum EfiGraphicsOutputBltOperation {
    BltVideoFill,
    BltVideoToBltBuffer,
    BltBufferToVideo,
    BltVideoToVideo,
    GraphicsOutputBltOperationMax,
}

/// One pixel of a block transfer.
#[derive(Clone, Copy, Debug, PartialEq, Eq, Structural)]
pub struct EfiGraphicsOutputBltPixel {
    pub blue: u8,
    pub green: u8,
    pub red: u8,
    pub reserved: u8,
}

/// Channel masks of a bit-mask pixel format.
#[derive(Clone, Copy, Debug, PartialEq, Eq, Structural)]
pub struct EfiPixelBitmask {
    pub red_mask: u32,
    pub green_mask: u32,
    pub blue_mask: u32,
    pub reserved_mask: u32,
}

/// Geometry and pixel layout of a graphics mode.
#[derive(Clone, Copy, Debug, PartialEq, Eq, Structural)]
pub struct EfiGraphicsOutputModeInformation {
    pub version: u32,
    pub horizontal_resolution: u32,
    pub vertical_resolution: u32,
    pub pixel_format: EfiGraphicsPixelFormat,
    pub pixel_information: EfiPixelBitmask,
    pub pixels_per_scan_line: u32,
}

/// The current mode of a graphics output device and its framebuffer.
#[derive(Clone, Copy, Debug, PartialEq, Eq, Structural)]
pub struct EfiGraphicsOutputProtocolMode {
    pub max_mode: u32,
    pub mode: u32,
    pub info: EfiGraphicsOutputModeInformation,
    pub size_of_info: usize,
    pub frame_buffer_base: u64,
    pub frame_buffer_size: u64,
}

/// What the loader reads from an opened graphics output interface.
#[derive(Clone, Copy, Debug, PartialEq, Eq, Structural)]
pub struct EfiGraphicsOutputProtocol {
    pub mode: EfiGraphicsOutputProtocolMode,
}

impl EfiGraphicsOutputProtocol {
    /// The linear framebuffer of the current mode.
    pub fn frame_buffer(&self) -> (r: FrameBufferDescriptor)
        ensures
            r.base == self.mode.frame_buffer_base,
            r.size == self.mode.frame_buffer_size,
    {
        FrameBufferDescriptor { base: self.mode.frame_buffer_base, size: self.mode.frame_buffer_size }
    }
}

/// Token of an asynchronous file operation; the loader uses none.
#[derive(Clone, Copy, Debug, PartialEq, Eq, Structural)]
pub struct EfiFileIoToken {}

/// Device path of a loaded image; the loader does not walk it.
#[derive(Clone, Copy, Debug, PartialEq, Eq, Structural)]
pub struct EfiDevicePathProtocol {}

/// Console input; the loader reads no keys.
#[derive(Clone, Copy, Debug, PartialEq, Eq, Structural)]
pub struct EfiSimpleTextInputProtocol {}

/// Runtime services table; the loader calls none of them.
#[derive(Clone, Copy, Debug, PartialEq, Eq, Structural)]
pub struct EfiRuntimeService {}

/// Configuration table entry; the loader reads none.
#[derive(Clone, Copy, Debug, PartialEq, Eq, Structural)]
pub struct EfiConfigurationTable {}

} // verus!
