use vstd::prelude::*;

use crate::bytes::{le_value, lemma_le_value_bound, pow256, read_le};
use crate::efi::EfiStatus;

verus! {

/// Bytes that the fields of one descriptor occupy; firmware may report a
/// larger stride, never a smaller one.
pub const DESCRIPTOR_WIDTH: usize = 40;

/// One physical memory region as firmware reports it.
#[derive(Clone, Copy, Debug, PartialEq, Eq, Structural)]
pub struct EfiMemoryDescriptor {
    pub memory_type: u32,
    pub physical_start: u64,
    pub virtual_start: u64,
    pub number_of_pages: u64,
    pub attribute: u64,
}

/// The descriptor whose fields start at byte `off` of `b`.
pub open spec fn descriptor_at_offset(b: Seq<u8>, off: int) -> EfiMemoryDescriptor {
    EfiMemoryDescriptor {
        memory_type: le_value(b.subrange(off, off + 4)) as u32,
        physical_start: le_value(b.subrange(off + 8, off + 16)) as u64,
        virtual_start: le_value(b.subrange(off + 16, off + 24)) as u64,
        number_of_pages: le_value(b.subrange(off + 24, off + 32)) as u64,
        attribute: le_value(b.subrange(off + 32, off + 40)) as u64,
    }
}

/// Decodes the descriptor whose fields start at byte `off`.
pub fn decode_descriptor(b: &[u8], off: usize) -> (d: EfiMemoryDescriptor)
    requires
        off + DESCRIPTOR_WIDTH <= b@.len(),
    ensures
        d == descriptor_at_offset(b@, off as int),
{
    let _len = b.len();
    let t = read_le(b, off, 4);
    proof {
        lemma_le_value_bound(b@.subrange(off as int, off + 4));
        reveal_with_fuel(pow256, 5);
    }
    EfiMemoryDescriptor {
        memory_type: t as u32,
        physical_start: read_le(b, off + 8, 8),
        virtual_start: read_le(b, off + 16, 8),
        number_of_pages: read_le(b, off + 24, 8),
        attribute: read_le(b, off + 32, 8),
    }
}

/// What firmware answered to one memory-map query.
pub enum MapReport {
    /// The map was written: `bytes` is the caller's buffer as firmware left it.
    Filled { bytes: Vec<u8>, map_size: usize, map_key: usize, desc_size: usize, desc_version: u32 },
    /// The buffer was too small; firmware needs `required` bytes.
    TooSmall { required: usize },
    /// Any other failure.
    Failed { status: EfiStatus },
}

/// Why a memory-map query yielded no snapshot.
#[derive(Clone, Copy, Debug, PartialEq, Eq, Structural)]
pub enum MapError {
    /// Regrow the buffer to at least `required` bytes and ask again.
    BufferTooSmall { required: usize },
    /// Firmware failed, or reported sizes that cannot describe a map.
    Firmware { status: EfiStatus },
}

/// A snapshot of the physical memory map with its freshness token.
pub struct MemoryMap {
    buf: Vec<u8>,
    map_size: usize,
    map_key: usize,
    desc_size: usize,
    desc_version: u32,
}

/// Sizes that describe a map held in `len` bytes with the given stride.
pub open spec fn valid_layout(len: int, map_size: int, desc_size: int) -> bool {
    &&& desc_size >= DESCRIPTOR_WIDTH
    &&& map_size % desc_size == 0
    &&& map_size <= len
}

impl MemoryMap {
    /// Well-formed: either still empty, or holding a valid layout.
    pub open spec fn wf(&self) -> bool {
        ||| (self.spec_map_size() == 0 && self.spec_stride() == 0)
        ||| valid_layout(
            self.spec_bytes().len() as int,
            self.spec_map_size() as int,
            self.spec_stride() as int,
        )
    }

    pub closed spec fn spec_bytes(&self) -> Seq<u8> {
        self.buf@
    }

    pub closed spec fn spec_map_size(&self) -> nat {
        self.map_size as nat
    }

    pub closed spec fn spec_stride(&self) -> nat {
        self.desc_size as nat
    }

    pub closed spec fn spec_map_key(&self) -> nat {
        self.map_key as nat
    }

    pub closed spec fn spec_version(&self) -> u32 {
        self.desc_version
    }

    /// Number of descriptors the snapshot holds.
    pub open spec fn spec_count(&self) -> nat {
        if self.spec_stride() == 0 {
            0
        } else {
            self.spec_map_size() / self.spec_stride()
        }
    }

    /// The descriptors, visited in stride-sized steps.
    pub open spec fn spec_descriptors(&self) -> Seq<EfiMemoryDescriptor> {
        Seq::new(
            self.spec_count(),
            |i: int| descriptor_at_offset(self.spec_bytes(), i * self.spec_stride()),
        )
    }

    /// An empty snapshot over `buffer`, whose length is the capacity offered
    /// to firmware.
    pub fn new(buffer: Vec<u8>) -> (m: Self)
        ensures
            m.wf(),
            m.spec_bytes() == buffer@,
            m.spec_map_size() == 0,
            m.spec_stride() == 0,
            m.spec_map_key() == 0,
            m.spec_version() == 0,
            m.spec_count() == 0,
    {
        MemoryMap { buf: buffer, map_size: 0, map_key: 0, desc_size: 0, desc_version: 0 }
    }

    pub fn capacity(&self) -> (r: usize)
        ensures
            r == self.spec_bytes().len(),
    {
        self.buf.len()
    }

    pub fn map_size(&self) -> (r: usize)
        ensures
            r == self.spec_map_size(),
    {
        self.map_size
    }

    pub fn map_key(&self) -> (r: usize)
        ensures
            r == self.spec_map_key(),
    {
        self.map_key
    }

    pub fn descriptor_size(&self) -> (r: usize)
        ensures
            r == self.spec_stride(),
    {
        self.desc_size
    }

    pub fn descriptor_version(&self) -> (r: u32)
        ensures
            r == self.spec_version(),
    {
        self.desc_version
    }

    /// Takes in firmware's answer to a memory-map query. A filled map whose
    /// sizes are consistent becomes the new snapshot; anything else leaves the
    /// snapshot as it was and reports why.
    pub fn acquire(&mut self, report: MapReport) -> (r: Result<(), MapError>)
        requires
            old(self).wf(),
        ensures
            final(self).wf(),
            match report {
                MapReport::Filled { bytes, map_size, map_key, desc_size, desc_version } => {
                    if valid_layout(bytes@.len() as int, map_size as int, desc_size as int) {
                        &&& r is Ok
                        &&& final(self).spec_bytes() == bytes@
                        &&& final(self).spec_map_size() == map_size
                        &&& final(self).spec_map_key() == map_key
                        &&& final(self).spec_stride() == desc_size
                        &&& final(self).spec_version() == desc_version
                    } else {
                        &&& r == Err::<(), MapError>(
                            MapError::Firmware { status: EfiStatus::LoadError },
                        )
                        &&& *final(self) == *old(self)
                    }
                },
                MapReport::TooSmall { required } => {
                    &&& r == Err::<(), MapError>(MapError::BufferTooSmall { required })
                    &&& *final(self) == *old(self)
                },
                MapReport::Failed { status } => {
                    &&& r == Err::<(), MapError>(MapError::Firmware { status })
                    &&& *final(self) == *old(self)
                },
            },
    {
        match report {
            MapReport::Filled { bytes, map_size, map_key, desc_size, desc_version } => {
                if desc_size >= DESCRIPTOR_WIDTH && map_size % desc_size == 0 && map_size
                    <= bytes.len() {
                    self.buf = bytes;
                    self.map_size = map_size;
                    self.map_key = map_key;
                    self.desc_size = desc_size;
                    self.desc_version = desc_version;
                    Ok(())
                } else {
                    Err(MapError::Firmware { status: EfiStatus::LoadError })
                }
            },
            MapReport::TooSmall { required } => Err(MapError::BufferTooSmall { required }),
            MapReport::Failed { status } => Err(MapError::Firmware { status }),
        }
    }

    /// Number of descriptors: the map size divided by the stride.
    pub fn descriptor_count(&self) -> (r: usize)
        requires
            self.wf(),
        ensures
            r == self.spec_count(),
    {
        if self.desc_size == 0 {
            0
        } else {
            self.map_size / self.desc_size
        }
    }

    /// The descriptor at position `i`, read at byte `i * stride`.
    pub fn descriptor(&self, i: usize) -> (d: EfiMemoryDescriptor)
        requires
            self.wf(),
            i < self.spec_count(),
        ensures
            d == self.spec_descriptors()[i as int],
    {
        proof {
            lemma_stride_walk_in_bounds(
                self.map_size as int,
                self.desc_size as int,
                i as int,
            );
        }
        decode_descriptor(self.buf.as_slice(), i * self.desc_size)
    }

    /// All descriptors, walking the buffer in stride-sized steps.
    pub fn descriptors(&self) -> (r: Vec<EfiMemoryDescriptor>)
        requires
            self.wf(),
        ensures
            r@ == self.spec_descriptors(),
    {
        let n = self.descriptor_count();
        let mut out: Vec<EfiMemoryDescriptor> = Vec::new();
        let mut i: usize = 0;
        while i < n
            invariant
                self.wf(),
                n == self.spec_count(),
                i <= n,
                out@ == self.spec_descriptors().subrange(0, i as int),
            decreases n - i,
        {
            let d = self.descriptor(i);
            out.push(d);
            i = i + 1;
            assert(out@ =~= self.spec_descriptors().subrange(0, i as int));
        }
        assert(out@ =~= self.spec_descriptors());
        out
    }
}

/// Stepping by `stride` through `map_size` bytes, where the stride divides the
/// size, every step `i < map_size / stride` keeps a whole descriptor inside the
/// map: the walk visits exactly `map_size / stride` descriptors and never
/// reads past `map_size`.
pub proof fn lemma_stride_walk_in_bounds(map_size: int, stride: int, i: int)
    requires
        stride >= DESCRIPTOR_WIDTH,
        map_size >= 0,
        map_size % stride == 0,
        0 <= i < map_size / stride,
    ensures
        0 <= i * stride,
        i * stride + stride <= map_size,
        i * stride + DESCRIPTOR_WIDTH <= map_size,
        (map_size / stride) * stride == map_size,
{
    assert((map_size / stride) * stride == map_size) by (nonlinear_arith)
        requires
            stride > 0,
            map_size % stride == 0,
    ;
    assert(i * stride + stride <= map_size) by (nonlinear_arith)
        requires
            0 <= i < map_size / stride,
            (map_size / stride) * stride == map_size,
            stride > 0,
    ;
    assert(0 <= i * stride) by (nonlinear_arith)
        requires
            0 <= i,
            stride > 0,
    ;
}

/// Byte just past the `i`-th stride-sized step.
pub open spec fn step_end(i: int, stride: int) -> int {
    i * stride + stride
}

/// A well-formed snapshot has a stride that divides its total size, and the
/// walk visits `total / stride` descriptors, each read wholly within the map.
pub proof fn lemma_snapshot_walk(m: MemoryMap)
    requires
        m.wf(),
    ensures
        m.spec_stride() > 0 ==> m.spec_map_size() % m.spec_stride() == 0,
        m.spec_descriptors().len() == m.spec_count(),
        m.spec_count() * m.spec_stride() == m.spec_map_size(),
        forall|i: int|
            0 <= i < m.spec_count() ==> #[trigger] step_end(i, m.spec_stride() as int)
                <= m.spec_map_size() <= m.spec_bytes().len(),
{
    if m.spec_stride() > 0 {
        assert forall|i: int| 0 <= i < m.spec_count() implies #[trigger] step_end(
            i,
            m.spec_stride() as int,
        ) <= m.spec_map_size() by {
            lemma_stride_walk_in_bounds(
                m.spec_map_size() as int,
                m.spec_stride() as int,
                i,
            );
        }
        let (n, st) = (m.spec_map_size() as int, m.spec_stride() as int);
        assert((n / st) * st == n) by (nonlinear_arith)
            requires
                st > 0,
                n % st == 0,
        ;
    }
}

/// Bytes added to a reported map size when regrowing the buffer, since
/// growing it may itself add entries to the map.
pub const MAP_SLACK: usize = 512;

/// Buffer size to ask for after firmware reported `required` bytes.
pub open spec fn spec_regrown_capacity(required: usize) -> usize {
    if required + MAP_SLACK <= usize::MAX {
        (required + MAP_SLACK) as usize
    } else {
        usize::MAX
    }
}

/// Buffer size to ask for after firmware reported `required` bytes: the
/// report plus slack, saturating at `usize::MAX`.
pub fn regrown_capacity(required: usize) -> (r: usize)
    ensures
        r == spec_regrown_capacity(required),
        r >= required,
{
    if required > usize::MAX - MAP_SLACK {
        usize::MAX
    } else {
        required + MAP_SLACK
    }
}

} // verus!
