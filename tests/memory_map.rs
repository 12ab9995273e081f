use bootloader::memmap_csv::{
    check_written, get_memory_type_name, memory_map_table, parse_memory_map_table, MemoryRow,
    CSV_HEADER, ROW_LEN,
};
use bootloader::errors::IoError;
use bootloader::efi::EfiStatus;
use bootloader::memory_map::{
    regrown_capacity, EfiMemoryDescriptor, MapError, MapReport, MemoryMap, MAP_SLACK,
};

fn put(buf: &mut Vec<u8>, off: usize, v: u64, n: usize) {
    for k in 0..n {
        buf[off + k] = ((v >> (8 * k)) & 0xff) as u8;
    }
}

fn sample() -> Vec<EfiMemoryDescriptor> {
    vec![
        EfiMemoryDescriptor {
            memory_type: 7,
            physical_start: 0x1000,
            virtual_start: 0,
            number_of_pages: 0x9f,
            attribute: 0xf,
        },
        EfiMemoryDescriptor {
            memory_type: 2,
            physical_start: 0x10_0000,
            virtual_start: 0x5,
            number_of_pages: 0x3,
            attribute: 0x8000_0000_0000_000f,
        },
        EfiMemoryDescriptor {
            memory_type: 99,
            physical_start: 0xffff_ffff_ffff_f000,
            virtual_start: 0,
            number_of_pages: 1,
            attribute: 0,
        },
    ]
}

fn encode(ds: &[EfiMemoryDescriptor], stride: usize, capacity: usize) -> Vec<u8> {
    let mut buf = vec![0xAAu8; capacity];
    for (i, d) in ds.iter().enumerate() {
        let off = i * stride;
        put(&mut buf, off, d.memory_type as u64, 4);
        put(&mut buf, off + 8, d.physical_start, 8);
        put(&mut buf, off + 16, d.virtual_start, 8);
        put(&mut buf, off + 24, d.number_of_pages, 8);
        put(&mut buf, off + 32, d.attribute, 8);
    }
    buf
}

#[test]
fn new_map_is_empty() {
    let m = MemoryMap::new(vec![0u8; 16384]);
    assert_eq!(m.capacity(), 16384);
    assert_eq!(m.map_size(), 0);
    assert_eq!(m.descriptor_count(), 0);
    assert!(m.descriptors().is_empty());
}

#[test]
fn walk_by_stride_larger_than_descriptor() {
    let ds = sample();
    let stride = 48;
    let bytes = encode(&ds, stride, 4096);
    let mut m = MemoryMap::new(vec![0u8; 4096]);
    let r = m.acquire(MapReport::Filled {
        bytes,
        map_size: 3 * stride,
        map_key: 77,
        desc_size: stride,
        desc_version: 1,
    });
    assert_eq!(r, Ok(()));
    assert_eq!(m.map_key(), 77);
    assert_eq!(m.descriptor_size(), 48);
    assert_eq!(m.descriptor_version(), 1);
    assert_eq!(m.map_size() % m.descriptor_size(), 0);
    assert_eq!(m.descriptor_count(), 3);
    assert_eq!(m.descriptors(), ds);
    assert_eq!(m.descriptor(1), ds[1]);
}

#[test]
fn size_not_multiple_of_stride_is_rejected() {
    let ds = sample();
    let bytes = encode(&ds, 48, 4096);
    let mut m = MemoryMap::new(vec![0u8; 4096]);
    let r = m.acquire(MapReport::Filled {
        bytes,
        map_size: 100,
        map_key: 1,
        desc_size: 48,
        desc_version: 1,
    });
    assert_eq!(r, Err(MapError::Firmware { status: EfiStatus::LoadError }));
    assert_eq!(m.descriptor_count(), 0);
}

#[test]
fn stride_below_descriptor_width_is_rejected() {
    let mut m = MemoryMap::new(vec![0u8; 64]);
    let r = m.acquire(MapReport::Filled {
        bytes: vec![0u8; 64],
        map_size: 64,
        map_key: 1,
        desc_size: 32,
        desc_version: 1,
    });
    assert_eq!(r, Err(MapError::Firmware { status: EfiStatus::LoadError }));
}

#[test]
fn size_beyond_buffer_is_rejected() {
    let mut m = MemoryMap::new(vec![0u8; 96]);
    let r = m.acquire(MapReport::Filled {
        bytes: vec![0u8; 96],
        map_size: 144,
        map_key: 1,
        desc_size: 48,
        desc_version: 1,
    });
    assert_eq!(r, Err(MapError::Firmware { status: EfiStatus::LoadError }));
}

#[test]
fn too_small_and_failure_reports() {
    let mut m = MemoryMap::new(vec![0u8; 16]);
    assert_eq!(
        m.acquire(MapReport::TooSmall { required: 5000 }),
        Err(MapError::BufferTooSmall { required: 5000 })
    );
    assert_eq!(
        m.acquire(MapReport::Failed { status: EfiStatus::DeviceError }),
        Err(MapError::Firmware { status: EfiStatus::DeviceError })
    );
    assert_eq!(m.map_size(), 0);
}

#[test]
fn regrowth_adds_slack_and_saturates() {
    assert_eq!(MAP_SLACK, 512);
    assert_eq!(regrown_capacity(5000), 5512);
    assert_eq!(regrown_capacity(0), 512);
    assert_eq!(regrown_capacity(usize::MAX - 10), usize::MAX);
}

#[test]
fn memory_type_names() {
    assert_eq!(get_memory_type_name(0), "Reserved Memory Type");
    assert_eq!(get_memory_type_name(7), "Conventional Memory");
    assert_eq!(get_memory_type_name(12), "Memory Mapped I/O Port Space");
    assert_eq!(get_memory_type_name(16), "Max Memory Type");
    assert_eq!(get_memory_type_name(17), "Unknown Memory Type");
}

#[test]
fn table_rows_have_fixed_layout() {
    let ds = sample();
    let t = memory_map_table(&ds);
    let text = String::from_utf8(t.clone()).unwrap();
    assert!(text.starts_with(CSV_HEADER));
    assert_eq!(t.len(), CSV_HEADER.len() + 3 * ROW_LEN);
    let first = &text[CSV_HEADER.len()..CSV_HEADER.len() + ROW_LEN];
    assert_eq!(
        first,
        "0x0000000000000000, 0x00000007, Conventional Memory         , \
         0x0000000000001000, 0x000000000000009f, 0x000000000000000f\n"
    );
}

#[test]
fn table_round_trip() {
    let ds = sample();
    let t = memory_map_table(&ds);
    let rows = parse_memory_map_table(&t).unwrap();
    let expected: Vec<MemoryRow> = ds
        .iter()
        .map(|d| MemoryRow {
            memory_type: d.memory_type,
            physical_start: d.physical_start,
            number_of_pages: d.number_of_pages,
            attribute: d.attribute,
        })
        .collect();
    assert_eq!(rows, expected);
}

#[test]
fn empty_table_round_trip() {
    let t = memory_map_table(&Vec::new());
    assert_eq!(t, CSV_HEADER.as_bytes().to_vec());
    assert_eq!(parse_memory_map_table(&t), Some(Vec::new()));
}

#[test]
fn damaged_tables_are_refused() {
    let ds = sample();
    let t = memory_map_table(&ds);
    let mut cut = t.clone();
    cut.pop();
    assert_eq!(parse_memory_map_table(&cut), None);
    let mut bad = t.clone();
    bad[CSV_HEADER.len() + 70] = b'z';
    assert_eq!(parse_memory_map_table(&bad), None);
    let mut header = t.clone();
    header[0] = b'i';
    assert_eq!(parse_memory_map_table(&header), None);
}

#[test]
fn short_write_is_an_error() {
    assert_eq!(check_written(10, 10), Ok(()));
    assert_eq!(check_written(10, 9), Err(IoError::ShortWrite));
}
