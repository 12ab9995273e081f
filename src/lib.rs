//! Firmware-to-kernel handoff logic of a UEFI boot loader: memory-map
//! snapshots walked by stride, kernel image placement and entry decoding,
//! framebuffer selection, and the boot sequencer that orders the firmware
//! calls up to the final jump into the kernel.

pub mod allocator;
pub mod bytes;
pub mod efi;
pub mod errors;
pub mod fixed_buffer;
pub mod handoff;
pub mod laws;
pub mod memmap_csv;
pub mod memory_map;
pub mod sequencer;
pub mod text;
