use bootloader::allocator::Allocator;
use bootloader::efi::{EfiFileAttribute, EfiFileOpenMode, EfiMemoryType};
use bootloader::errors::AllocationError;
use bootloader::handoff::{
    entry_address, page_count, select_graphics_handle, FrameBufferDescriptor, KernelImage,
    KERNEL_BASE_ADDR,
};
use bootloader::fixed_buffer::{encode_utf16_null_terminated as encode_into, FixedBuffer};
use bootloader::text::encode_utf16_null_terminated;

#[test]
fn pages_round_up() {
    assert_eq!(page_count(0), 0);
    assert_eq!(page_count(1), 1);
    assert_eq!(page_count(4096), 1);
    assert_eq!(page_count(4097), 2);
    assert_eq!(page_count(u64::MAX), (u64::MAX / 4096) + 1);
}

#[test]
fn entry_is_little_endian_at_offset_24() {
    let mut head = vec![0u8; 32];
    head[24..32].copy_from_slice(&[0x20, 0x11, 0x10, 0, 0, 0, 0, 0x80]);
    assert_eq!(entry_address(&head), Some(0x8000_0000_0010_1120));
    assert_eq!(entry_address(&head[..31]), None);
    let k = KernelImage::from_loaded(5000, &head).unwrap();
    assert_eq!(k.load_address, KERNEL_BASE_ADDR);
    assert_eq!(k.entry, 0x8000_0000_0010_1120);
    assert_eq!(k.pages(), 2);
}

#[test]
fn first_graphics_handle_selected() {
    assert_eq!(select_graphics_handle(&vec![]), None);
    assert_eq!(select_graphics_handle(&vec![5, 3, 1]), Some(5));
    assert_eq!(FrameBufferDescriptor::resolve(None), FrameBufferDescriptor { base: 0, size: 0 });
}

#[test]
fn utf16_encoding_with_terminator() {
    assert_eq!(encode_utf16_null_terminated(""), vec![0]);
    assert_eq!(encode_utf16_null_terminated("\\memmap.csv")[0], 0x5c);
    assert_eq!(encode_utf16_null_terminated("Aé"), vec![0x41, 0xe9, 0]);
    assert_eq!(encode_utf16_null_terminated("\u{1F600}"), vec![0xD83D, 0xDE00, 0]);
}

#[test]
fn fixed_buffer_accepts_what_fits() {
    let mut fb = FixedBuffer::new(vec![0u8; 8]);
    assert!(fb.is_empty());
    assert_eq!(fb.capacity(), 8);
    assert!(fb.write_str("abc").is_ok());
    assert!(fb.write_str("defgh").is_ok());
    assert_eq!(fb.as_bytes(), b"abcdefgh".to_vec());
    assert!(fb.write_str("i").is_err());
    assert_eq!(fb.len(), 8);
    fb.clear();
    assert!(fb.is_empty());
    assert!(fb.write_str("toolongtext").is_err());
    assert_eq!(fb.len(), 0);
}

#[test]
fn allocator_refuses_after_retirement() {
    let mut a = Allocator::new();
    assert!(a.is_backed());
    assert_eq!(a.pool_request(64, 8), Ok(64));
    assert_eq!(a.pool_request(64, 1), Ok(64));
    assert!(a.may_free());
    a.retire();
    assert!(!a.is_backed());
    assert!(!a.may_free());
    assert_eq!(a.pool_request(64, 8), Err(AllocationError::OutOfResources));
}

#[test]
fn firmware_codes() {
    assert_eq!(EfiMemoryType::EfiLoaderData.code(), 2);
    assert_eq!(EfiMemoryType::from_code(7), Some(EfiMemoryType::EfiConventionalMemory));
    assert_eq!(EfiMemoryType::from_code(17), None);
    assert_eq!(EfiFileOpenMode::CreateReadWrite.bits(), 0x8000_0000_0000_0003);
    assert_eq!(EfiFileOpenMode::Read.bits(), 1);
    assert_eq!(EfiFileAttribute::Directory.bits(), 0x10);
}

#[test]
fn utf16_into_buffer() {
    let mut buf = [0xFFFFu16; 4];
    assert_eq!(encode_into("ab", &mut buf), Some(3));
    assert_eq!(buf, [0x61, 0x62, 0, 0xFFFF]);
    let mut exact = [7u16; 3];
    assert_eq!(encode_into("abc", &mut exact), None);
    assert_eq!(exact, [7, 7, 7]);
    let mut one = [9u16; 1];
    assert_eq!(encode_into("", &mut one), Some(1));
    assert_eq!(one, [0]);
    let mut none: [u16; 0] = [];
    assert_eq!(encode_into("", &mut none), None);
}
