use vstd::prelude::*;
use vstd::string::StringSliceAdditionalSpecFns;

use crate::errors::IoError;
use crate::memory_map::{EfiMemoryDescriptor, MemoryMap};

verus! {

/// First line of the memory-map table.
pub const CSV_HEADER: &'static str = "Index, Type, Type(name), PhysicalStart, NumberOfPages, Attribute\n";

/// Width the type name is padded or cut to.
pub const NAME_WIDTH: usize = 28;

/// Length of every row of the table, newline included.
pub const ROW_LEN: usize = 121;

/// Human-readable name of a memory type code.
pub open spec fn spec_memory_type_name(memory_type: u32) -> &'static str {
    if memory_type == 0 {
        "Reserved Memory Type"
    } else if memory_type == 1 {
        "Loader Code"
    } else if memory_type == 2 {
        "Loader Data"
    } else if memory_type == 3 {
        "Boot Services Code"
    } else if memory_type == 4 {
        "Boot Services Data"
    } else if memory_type == 5 {
        "Runtime Services Code"
    } else if memory_type == 6 {
        "Runtime Services Data"
    } else if memory_type == 7 {
        "Conventional Memory"
    } else if memory_type == 8 {
        "Unusable Memory"
    } else if memory_type == 9 {
        "ACPI Reclaim Memory"
    } else if memory_type == 10 {
        "ACPI Memory NVS"
    } else if memory_type == 11 {
        "Memory Mapped I/O"
    } else if memory_type == 12 {
        "Memory Mapped I/O Port Space"
    } else if memory_type == 13 {
        "Pal Code"
    } else if memory_type == 14 {
        "Persistent Memory"
    } else if memory_type == 15 {
        "Unassigned Memory Type"
    } else if memory_type == 16 {
        "Max Memory Type"
    } else {
        "Unknown Memory Type"
    }
}

/// Human-readable name of a memory type code.
pub fn get_memory_type_name(memory_type: u32) -> (r: &'static str)
    ensures
        r == spec_memory_type_name(memory_type),
{
    match memory_type {
        0 => "Reserved Memory Type",
        1 => "Loader Code",
        2 => "Loader Data",
        3 => "Boot Services Code",
        4 => "Boot Services Data",
        5 => "Runtime Services Code",
        6 => "Runtime Services Data",
        7 => "Conventional Memory",
        8 => "Unusable Memory",
        9 => "ACPI Reclaim Memory",
        10 => "ACPI Memory NVS",
        11 => "Memory Mapped I/O",
        12 => "Memory Mapped I/O Port Space",
        13 => "Pal Code",
        14 => "Persistent Memory",
        15 => "Unassigned Memory Type",
        16 => "Max Memory Type",
        _ => "Unknown Memory Type",
    }
}

/// ASCII lower-case hex digit for `d < 16`.
pub open spec fn hex_digit(d: nat) -> u8 {
    if d < 10 {
        (48 + d) as u8
    } else {
        (87 + d) as u8
    }
}

/// Value of an ASCII hex digit, upper or lower case.
pub open spec fn digit_value(b: u8) -> Option<nat> {
    if 48 <= b <= 57 {
        Some((b - 48) as nat)
    } else if 97 <= b <= 102 {
        Some((b - 87) as nat)
    } else if 65 <= b <= 70 {
        Some((b - 55) as nat)
    } else {
        None
    }
}

/// The `n` lowest hex digits of `v`, most significant first.
pub open spec fn hex_digits(v: nat, n: nat) -> Seq<u8>
    decreases n,
{
    if n == 0 {
        Seq::empty()
    } else {
        hex_digits(v / 16, (n - 1) as nat).push(hex_digit(v % 16))
    }
}

/// Value of a run of hex digits; `None` if one is not a digit.
pub open spec fn hex_value(s: Seq<u8>) -> Option<nat>
    decreases s.len(),
{
    if s.len() == 0 {
        Some(0)
    } else {
        match (hex_value(s.drop_last()), digit_value(s.last())) {
            (Some(high), Some(low)) => Some(high * 16 + low),
            _ => None,
        }
    }
}

pub open spec fn pow16(n: nat) -> nat
    decreases n,
{
    if n == 0 {
        1
    } else {
        16 * pow16((n - 1) as nat)
    }
}

/// `"0x"` followed by `n` hex digits of `v`.
pub open spec fn hex_field(v: nat, n: nat) -> Seq<u8> {
    seq![48u8, 120u8] + hex_digits(v, n)
}

/// `s` cut or padded with spaces to exactly `w` bytes.
pub open spec fn padded(s: Seq<u8>, w: nat) -> Seq<u8> {
    if s.len() >= w {
        s.take(w as int)
    } else {
        s + Seq::new((w - s.len()) as nat, |i: int| 32u8)
    }
}

/// Field separator.
pub open spec fn sep() -> Seq<u8> {
    seq![44u8, 32u8]
}

/// One row of the table for the descriptor at position `index`.
pub open spec fn csv_row(index: nat, d: EfiMemoryDescriptor) -> Seq<u8> {
    hex_field(index, 16) + sep() + hex_field(d.memory_type as nat, 8) + sep() + padded(
        spec_memory_type_name(d.memory_type).spec_bytes(),
        NAME_WIDTH as nat,
    ) + sep() + hex_field(d.physical_start as nat, 16) + sep() + hex_field(
        d.number_of_pages as nat,
        16,
    ) + sep() + hex_field(d.attribute as nat, 16) + seq![10u8]
}

/// The rows of the table for `ds`, in order.
pub open spec fn csv_rows(ds: Seq<EfiMemoryDescriptor>) -> Seq<u8>
    decreases ds.len(),
{
    if ds.len() == 0 {
        Seq::empty()
    } else {
        csv_rows(ds.drop_last()) + csv_row((ds.len() - 1) as nat, ds.last())
    }
}

/// The whole table: the header, then one row per descriptor.
pub open spec fn csv_table(ds: Seq<EfiMemoryDescriptor>) -> Seq<u8> {
    CSV_HEADER.spec_bytes() + csv_rows(ds)
}

/// The fields of one row that a reader of the table gets back.
#[derive(Clone, Copy, Debug, PartialEq, Eq, Structural)]
pub struct MemoryRow {
    pub memory_type: u32,
    pub physical_start: u64,
    pub number_of_pages: u64,
    pub attribute: u64,
}

/// The row fields of a descriptor.
pub open spec fn row_of(d: EfiMemoryDescriptor) -> MemoryRow {
    MemoryRow {
        memory_type: d.memory_type,
        physical_start: d.physical_start,
        number_of_pages: d.number_of_pages,
        attribute: d.attribute,
    }
}

/// Whether the row starting at `off` ends in a newline and has hex digits
/// in each of its numeric columns.
pub open spec fn row_readable(b: Seq<u8>, off: int) -> bool {
    &&& b[off + 120] == 10u8
    &&& hex_value(b.subrange(off + 2, off + 18)) is Some
    &&& hex_value(b.subrange(off + 22, off + 30)) is Some
    &&& hex_value(b.subrange(off + 64, off + 80)) is Some
    &&& hex_value(b.subrange(off + 84, off + 100)) is Some
    &&& hex_value(b.subrange(off + 104, off + 120)) is Some
}

/// The fields read from the row starting at `off`.
pub open spec fn row_value(b: Seq<u8>, off: int) -> MemoryRow {
    MemoryRow {
        memory_type: hex_value(b.subrange(off + 22, off + 30))->0 as u32,
        physical_start: hex_value(b.subrange(off + 64, off + 80))->0 as u64,
        number_of_pages: hex_value(b.subrange(off + 84, off + 100))->0 as u64,
        attribute: hex_value(b.subrange(off + 104, off + 120))->0 as u64,
    }
}

/// Offset of row `i` in a table whose header is `h` bytes long.
pub open spec fn row_offset(h: int, i: int) -> int {
    h + i * ROW_LEN
}

/// What a reader gets from table text `b`: the rows after the header, or
/// `None` when the header differs, the rows are not whole, or a numeric
/// column holds something other than hex digits.
pub open spec fn parse_table(b: Seq<u8>) -> Option<Seq<MemoryRow>> {
    let h = CSV_HEADER.spec_bytes().len() as int;
    let n = (b.len() - h) / ROW_LEN as int;
    if b.len() >= h && b.subrange(0, h) == CSV_HEADER.spec_bytes() && (b.len() - h) % ROW_LEN as int
        == 0 && forall|i: int| 0 <= i < n ==> #[trigger] row_readable(b, row_offset(h, i)) {
        Some(Seq::new(n as nat, |i: int| row_value(b, row_offset(h, i))))
    } else {
        None
    }
}

proof fn lemma_hex_digits_len(v: nat, n: nat)
    ensures
        hex_digits(v, n).len() == n,
    decreases n,
{
    if n > 0 {
        lemma_hex_digits_len(v / 16, (n - 1) as nat);
    }
}

/// Reading back `n` rendered hex digits of `v < 16^n` gives `v`.
pub proof fn lemma_hex_round_trip(v: nat, n: nat)
    requires
        v < pow16(n),
    ensures
        hex_value(hex_digits(v, n)) == Some(v),
    decreases n,
{
    if n == 0 {
    } else {
        let p = pow16((n - 1) as nat);
        assert(v / 16 < p) by (nonlinear_arith)
            requires
                v < 16 * p,
        ;
        lemma_hex_round_trip(v / 16, (n - 1) as nat);
        let s = hex_digits(v, n);
        assert(s.drop_last() =~= hex_digits(v / 16, (n - 1) as nat));
        assert(digit_value(hex_digit(v % 16)) == Some(v % 16));
        assert((v / 16) * 16 + v % 16 == v);
    }
}

proof fn lemma_pow16_facts()
    ensures
        pow16(8) == 0x1_0000_0000,
        pow16(16) == 0x1_0000_0000_0000_0000,
{
    reveal_with_fuel(pow16, 17);
}

/// Where each field of a row lies.
proof fn lemma_row_layout(index: nat, d: EfiMemoryDescriptor)
    ensures
        csv_row(index, d).len() == ROW_LEN,
        csv_row(index, d)[120] == 10u8,
        csv_row(index, d).subrange(2, 18) == hex_digits(index, 16),
        csv_row(index, d).subrange(22, 30) == hex_digits(d.memory_type as nat, 8),
        csv_row(index, d).subrange(64, 80) == hex_digits(d.physical_start as nat, 16),
        csv_row(index, d).subrange(84, 100) == hex_digits(d.number_of_pages as nat, 16),
        csv_row(index, d).subrange(104, 120) == hex_digits(d.attribute as nat, 16),
{
    let name = spec_memory_type_name(d.memory_type).spec_bytes();
    let w = NAME_WIDTH as nat;
    assert(padded(name, w).len() == w);
    lemma_hex_digits_len(index, 16);
    lemma_hex_digits_len(d.memory_type as nat, 8);
    lemma_hex_digits_len(d.physical_start as nat, 16);
    lemma_hex_digits_len(d.number_of_pages as nat, 16);
    lemma_hex_digits_len(d.attribute as nat, 16);
    let r = csv_row(index, d);
    assert(r.subrange(2, 18) =~= hex_digits(index, 16));
    assert(r.subrange(22, 30) =~= hex_digits(d.memory_type as nat, 8));
    assert(r.subrange(64, 80) =~= hex_digits(d.physical_start as nat, 16));
    assert(r.subrange(84, 100) =~= hex_digits(d.number_of_pages as nat, 16));
    assert(r.subrange(104, 120) =~= hex_digits(d.attribute as nat, 16));
}

/// Row `i` of the rendered rows is the rendering of descriptor `i`.
proof fn lemma_rows_layout(ds: Seq<EfiMemoryDescriptor>)
    ensures
        csv_rows(ds).len() == ds.len() * ROW_LEN,
        forall|i: int|
            0 <= i < ds.len() ==> csv_rows(ds).subrange(i * ROW_LEN, i * ROW_LEN + ROW_LEN)
                == #[trigger] csv_row(i as nat, ds[i]),
    decreases ds.len(),
{
    if ds.len() > 0 {
        let init = ds.drop_last();
        lemma_rows_layout(init);
        let last = (ds.len() - 1) as nat;
        lemma_row_layout(last, ds.last());
        let r = csv_rows(ds);
        assert(r == csv_rows(init) + csv_row(last, ds.last()));
        assert(r.len() == ds.len() * ROW_LEN) by (nonlinear_arith)
            requires
                r.len() == init.len() * ROW_LEN + ROW_LEN,
                init.len() == ds.len() - 1,
        ;
        assert forall|i: int| 0 <= i < ds.len() implies r.subrange(i * ROW_LEN, i * ROW_LEN + ROW_LEN)
            == #[trigger] csv_row(i as nat, ds[i]) by {
            if i < ds.len() - 1 {
                assert(i * ROW_LEN + ROW_LEN <= init.len() * ROW_LEN) by (nonlinear_arith)
                    requires
                        i < init.len(),
                ;
                assert(0 <= i * ROW_LEN) by (nonlinear_arith)
                    requires
                        0 <= i,
                ;
                assert(init[i] == ds[i]);
                assert(r.subrange(i * ROW_LEN, i * ROW_LEN + ROW_LEN) =~= csv_rows(init).subrange(
                    i * ROW_LEN,
                    i * ROW_LEN + ROW_LEN,
                ));
            } else {
                assert(i * ROW_LEN == init.len() * ROW_LEN);
                assert(r.subrange(i * ROW_LEN, i * ROW_LEN + ROW_LEN) =~= csv_row(last, ds.last()));
            }
        }
    }
}

/// Rendering the descriptors of a snapshot as the diagnostic table and
/// reading the table back yields each descriptor's type, start, page count
/// and attributes, in the same order.
pub proof fn lemma_table_round_trip(ds: Seq<EfiMemoryDescriptor>)
    requires
        ds.len() <= usize::MAX,
    ensures
        parse_table(csv_table(ds)) == Some(ds.map_values(|d: EfiMemoryDescriptor| row_of(d))),
{
    let hb = CSV_HEADER.spec_bytes();
    let h = hb.len() as int;
    let b = csv_table(ds);
    let n = ds.len() as int;
    lemma_rows_layout(ds);
    lemma_pow16_facts();
    assert(b.subrange(0, h) =~= hb);
    assert(b.len() - h == n * ROW_LEN);
    assert((n * ROW_LEN) / (ROW_LEN as int) == n && (n * ROW_LEN) % (ROW_LEN as int) == 0) by (nonlinear_arith)
        requires
            n >= 0,
    ;
    assert forall|i: int|
        #![trigger row_readable(b, row_offset(h, i))]
        #![trigger row_value(b, row_offset(h, i))]
        0 <= i < n implies row_readable(b, row_offset(h, i)) && row_value(b, row_offset(h, i))
            == row_of(ds[i]) by {
        let off = row_offset(h, i);
        let d = ds[i];
        assert(0 <= i * ROW_LEN && i * ROW_LEN + ROW_LEN <= n * ROW_LEN) by (nonlinear_arith)
            requires
                0 <= i < n,
        ;
        let row = csv_row(i as nat, d);
        assert(row == csv_rows(ds).subrange(i * ROW_LEN, i * ROW_LEN + ROW_LEN));
        lemma_row_layout(i as nat, d);
        assert(b.subrange(off, off + ROW_LEN) =~= row);
        assert(b[off + 120] == row[120]);
        assert(b.subrange(off + 2, off + 18) =~= row.subrange(2, 18));
        assert(b.subrange(off + 22, off + 30) =~= row.subrange(22, 30));
        assert(b.subrange(off + 64, off + 80) =~= row.subrange(64, 80));
        assert(b.subrange(off + 84, off + 100) =~= row.subrange(84, 100));
        assert(b.subrange(off + 104, off + 120) =~= row.subrange(104, 120));
        lemma_hex_round_trip(i as nat, 16);
        lemma_hex_round_trip(d.memory_type as nat, 8);
        lemma_hex_round_trip(d.physical_start as nat, 16);
        lemma_hex_round_trip(d.number_of_pages as nat, 16);
        lemma_hex_round_trip(d.attribute as nat, 16);
    }
    assert(Seq::new(n as nat, |i: int| row_value(b, row_offset(h, i))) =~= ds.map_values(
        |d: EfiMemoryDescriptor| row_of(d),
    ));
}

fn hex_digit_byte(d: u64) -> (r: u8)
    requires
        d < 16,
    ensures
        r == hex_digit(d as nat),
{
    if d < 10 {
        (48 + d) as u8
    } else {
        (87 + d) as u8
    }
}

fn push_hex_digits(out: &mut Vec<u8>, v: u64, n: usize)
    ensures
        final(out)@ == old(out)@ + hex_digits(v as nat, n as nat),
    decreases n,
{
    if n > 0 {
        push_hex_digits(out, v / 16, n - 1);
        out.push(hex_digit_byte(v % 16));
        proof {
            assert(final(out)@ =~= old(out)@ + hex_digits(v as nat, n as nat));
        }
    } else {
        assert(old(out)@ + hex_digits(v as nat, 0) =~= old(out)@);
    }
}

fn push_hex_field(out: &mut Vec<u8>, v: u64, n: usize)
    ensures
        final(out)@ == old(out)@ + hex_field(v as nat, n as nat),
{
    out.push(48u8);
    out.push(120u8);
    push_hex_digits(out, v, n);
    assert(final(out)@ =~= old(out)@ + hex_field(v as nat, n as nat));
}

fn push_sep(out: &mut Vec<u8>)
    ensures
        final(out)@ == old(out)@ + sep(),
{
    out.push(44u8);
    out.push(32u8);
    assert(final(out)@ =~= old(out)@ + sep());
}

fn push_bytes(out: &mut Vec<u8>, b: &[u8])
    ensures
        final(out)@ == old(out)@ + b@,
{
    let mut i: usize = 0;
    while i < b.len()
        invariant
            i <= b@.len(),
            out@ == old(out)@ + b@.take(i as int),
        decreases b@.len() - i,
    {
        out.push(b[i]);
        i = i + 1;
        assert(out@ =~= old(out)@ + b@.take(i as int));
    }
    assert(b@.take(i as int) =~= b@);
}

fn push_padded(out: &mut Vec<u8>, s: &str, w: usize)
    ensures
        final(out)@ == old(out)@ + padded(s.spec_bytes(), w as nat),
{
    let b = s.as_bytes();
    let take = if b.len() < w {
        b.len()
    } else {
        w
    };
    let mut i: usize = 0;
    while i < take
        invariant
            take <= b@.len(),
            take <= w,
            i <= take,
            out@ == old(out)@ + b@.take(i as int),
        decreases take - i,
    {
        out.push(b[i]);
        i = i + 1;
        assert(out@ =~= old(out)@ + b@.take(i as int));
    }
    let ghost mid = out@;
    while i < w
        invariant
            take <= i <= w,
            mid == old(out)@ + b@.take(take as int),
            out@ == mid + Seq::new((i - take) as nat, |k: int| 32u8),
        decreases w - i,
    {
        out.push(32u8);
        i = i + 1;
        assert(out@ =~= mid + Seq::new((i - take) as nat, |k: int| 32u8));
    }
    if b.len() >= w {
        assert(out@ =~= old(out)@ + padded(s.spec_bytes(), w as nat));
    } else {
        assert(b@.take(take as int) =~= b@);
        assert(out@ =~= old(out)@ + padded(s.spec_bytes(), w as nat));
    }
}

/// Appends the table row for descriptor `d` at position `index`.
fn push_row(out: &mut Vec<u8>, index: u64, d: &EfiMemoryDescriptor)
    ensures
        final(out)@ == old(out)@ + csv_row(index as nat, *d),
{
    push_hex_field(out, index, 16);
    push_sep(out);
    push_hex_field(out, d.memory_type as u64, 8);
    push_sep(out);
    push_padded(out, get_memory_type_name(d.memory_type), NAME_WIDTH);
    push_sep(out);
    push_hex_field(out, d.physical_start, 16);
    push_sep(out);
    push_hex_field(out, d.number_of_pages, 16);
    push_sep(out);
    push_hex_field(out, d.attribute, 16);
    out.push(10u8);
    assert(final(out)@ =~= old(out)@ + csv_row(index as nat, *d));
}

/// The diagnostic table for `descriptors`: the header line, then one
/// fixed-width row per descriptor with its position, type code, padded type
/// name, start address, page count and attributes, numbers in hex.
pub fn memory_map_table(descriptors: &Vec<EfiMemoryDescriptor>) -> (r: Vec<u8>)
    ensures
        r@ == csv_table(descriptors@),
{
    let mut out: Vec<u8> = Vec::new();
    push_bytes(&mut out, CSV_HEADER.as_bytes());
    let mut i: usize = 0;
    while i < descriptors.len()
        invariant
            i <= descriptors@.len(),
            out@ == CSV_HEADER.spec_bytes() + csv_rows(descriptors@.take(i as int)),
        decreases descriptors@.len() - i,
    {
        let ghost before = out@;
        push_row(&mut out, i as u64, &descriptors[i]);
        proof {
            let t = descriptors@.take(i + 1);
            assert(t.drop_last() =~= descriptors@.take(i as int));
            assert(t.last() == descriptors@[i as int]);
            assert(out@ =~= CSV_HEADER.spec_bytes() + csv_rows(t));
        }
        i = i + 1;
    }
    assert(descriptors@.take(i as int) =~= descriptors@);
    out
}

/// The diagnostic table of a snapshot's descriptors.
pub fn save_memory_map(map: &MemoryMap) -> (r: Vec<u8>)
    requires
        map.wf(),
    ensures
        r@ == csv_table(map.spec_descriptors()),
{
    let ds = map.descriptors();
    memory_map_table(&ds)
}

proof fn lemma_hex_value_bound(s: Seq<u8>)
    requires
        hex_value(s) is Some,
    ensures
        hex_value(s)->0 < pow16(s.len()),
    decreases s.len(),
{
    if s.len() > 0 {
        lemma_hex_value_bound(s.drop_last());
        let high = hex_value(s.drop_last())->0;
        let low = digit_value(s.last())->0;
        let p = pow16((s.len() - 1) as nat);
        assert(high * 16 + low < 16 * p) by (nonlinear_arith)
            requires
                high < p,
                low < 16,
        ;
    }
}

fn digit_value_exec(b: u8) -> (r: Option<u64>)
    ensures
        r matches Some(v) ==> digit_value(b) == Some(v as nat),
        r is None ==> digit_value(b) is None,
{
    if 48 <= b && b <= 57 {
        Some((b - 48) as u64)
    } else if 97 <= b && b <= 102 {
        Some((b - 87) as u64)
    } else if 65 <= b && b <= 70 {
        Some((b - 55) as u64)
    } else {
        None
    }
}

/// Reads `n <= 16` hex digits at `off`.
fn parse_hex(b: &[u8], off: usize, n: usize) -> (r: Option<u64>)
    requires
        n <= 16,
        off + n <= b@.len(),
    ensures
        r matches Some(v) ==> hex_value(b@.subrange(off as int, off + n)) == Some(v as nat),
        r is None ==> hex_value(b@.subrange(off as int, off + n)) is None,
{
    let len = b.len();
    let mut acc: u64 = 0;
    let mut k: usize = 0;
    proof {
        lemma_pow16_facts();
        assert(b@.subrange(off as int, off as int).len() == 0);
    }
    while k < n
        invariant
            n <= 16,
            off + n <= b@.len(),
            b@.len() == len,
            k <= n,
            hex_value(b@.subrange(off as int, off + k)) == Some(acc as nat),
            pow16(16) == 0x1_0000_0000_0000_0000,
        decreases n - k,
    {
        let ghost s = b@.subrange(off as int, off + k + 1);
        assert(s.drop_last() =~= b@.subrange(off as int, off + k));
        match digit_value_exec(b[off + k]) {
            Some(d) => {
                proof {
                    assert(s.last() == b@[off + k]);
                    lemma_hex_value_bound(s);
                    lemma_pow16_mono(s.len(), 16);
                }
                acc = acc * 16 + d;
                k = k + 1;
            },
            None => {
                proof {
                    assert(s.last() == b@[off + k]);
                    let full = b@.subrange(off as int, off + n);
                    assert(full.subrange(0, k + 1) =~= s);
                    lemma_hex_value_prefix_none(full, k + 1);
                }
                return None;
            },
        }
    }
    Some(acc)
}

/// A run of digits with a non-digit in a prefix has no value.
proof fn lemma_hex_value_prefix_none(s: Seq<u8>, m: int)
    requires
        0 <= m <= s.len(),
        hex_value(s.subrange(0, m)) is None,
    ensures
        hex_value(s) is None,
    decreases s.len(),
{
    if s.len() > m {
        assert(s.drop_last().subrange(0, m) =~= s.subrange(0, m));
        lemma_hex_value_prefix_none(s.drop_last(), m);
    } else {
        assert(s.subrange(0, m) =~= s);
    }
}

proof fn lemma_pow16_mono(a: nat, b: nat)
    requires
        a <= b,
    ensures
        pow16(a) <= pow16(b),
    decreases b,
{
    if a < b {
        lemma_pow16_mono(a, (b - 1) as nat);
    }
}

/// Reads back the rows of a diagnostic table: `None` when the header
/// differs, the rows are not whole, or a numeric column holds something
/// other than hex digits.
pub fn parse_memory_map_table(b: &[u8]) -> (r: Option<Vec<MemoryRow>>)
    ensures
        r is Some <==> parse_table(b@) is Some,
        r matches Some(rows) ==> parse_table(b@) == Some(rows@),
{
    let header = CSV_HEADER.as_bytes();
    let h = header.len();
    let len = b.len();
    if len < h {
        return None;
    }
    let mut k: usize = 0;
    while k < h
        invariant
            h == header@.len(),
            header@ == CSV_HEADER.spec_bytes(),
            h <= b@.len(),
            k <= h,
            b@.subrange(0, k as int) == header@.subrange(0, k as int),
        decreases h - k,
    {
        if b[k] != header[k] {
            assert(b@.subrange(0, h as int)[k as int] != header@[k as int]);
            return None;
        }
        k = k + 1;
        assert(b@.subrange(0, k as int) =~= header@.subrange(0, k as int));
    }
    assert(header@.subrange(0, h as int) =~= header@);
    if (len - h) % ROW_LEN != 0 {
        return None;
    }
    let n = (len - h) / ROW_LEN;
    let ghost hh = h as int;
    let mut rows: Vec<MemoryRow> = Vec::new();
    let mut i: usize = 0;
    while i < n
        invariant
            h == CSV_HEADER.spec_bytes().len(),
            b@.len() == len,
            len >= h,
            (len - h) % (ROW_LEN as int) == 0,
            n == (len - h) / (ROW_LEN as int),
            i <= n,
            forall|j: int| 0 <= j < i ==> #[trigger] row_readable(b@, row_offset(h as int, j)),
            rows@ == Seq::new(i as nat, |j: int| row_value(b@, row_offset(h as int, j))),
        decreases n - i,
    {
        assert(i * ROW_LEN + ROW_LEN <= len - h) by (nonlinear_arith)
            requires
                i < n,
                n == (len - h) / (ROW_LEN as int),
                len >= h,
        ;
        let off = h + i * ROW_LEN;
        assert(off == row_offset(h as int, i as int));
        if b[off + 120] != 10u8 {
            assert(!row_readable(b@, row_offset(h as int, i as int)));
            return None;
        }
        let index = parse_hex(b, off + 2, 16);
        let t = parse_hex(b, off + 22, 8);
        let start = parse_hex(b, off + 64, 16);
        let pages = parse_hex(b, off + 84, 16);
        let attr = parse_hex(b, off + 104, 16);
        match (index, t, start, pages, attr) {
            (Some(_), Some(t), Some(start), Some(pages), Some(attr)) => {
                let ghost prev = rows@;
                rows.push(
                    MemoryRow {
                        memory_type: t as u32,
                        physical_start: start,
                        number_of_pages: pages,
                        attribute: attr,
                    },
                );
                proof {
                    assert(row_readable(b@, row_offset(h as int, i as int)));
                    assert(rows@ =~= Seq::new(
                        (i + 1) as nat,
                        |j: int| row_value(b@, row_offset(h as int, j)),
                    ));
                }
                i = i + 1;
            },
            _ => {
                assert(!row_readable(b@, row_offset(h as int, i as int)));
                return None;
            },
        }
    }
    Some(rows)
}

/// Outcome of writing `requested` bytes of the table when firmware reports
/// `written`: anything short of the request is a short write.
pub fn check_written(requested: usize, written: usize) -> (r: Result<(), IoError>)
    ensures
        r == if written == requested {
            Ok::<(), IoError>(())
        } else {
            Err(IoError::ShortWrite)
        },
{
    if written == requested {
        Ok(())
    } else {
        Err(IoError::ShortWrite)
    }
}

} // verus!
