use vstd::prelude::*;
use crate::crc::{crc32_of, crc32_range};

verus! {

/// Bytes taken by a table header.
pub const HEADER_BYTES: usize = 24;

/// Offset of the `header_size` field inside a table.
pub const HEADER_SIZE_OFFSET: usize = 12;

/// Offset of the `crc32` field inside a table.
pub const CRC32_OFFSET: usize = 16;

/// The prologue shared by every standard firmware table.
#[derive(Clone, Copy, Debug, PartialEq, Eq, Structural)]
pub struct EFITableHeader {
    /// Tag that identifies the kind of table that follows.
    pub signature: u64,
    /// Major revision in the upper 16 bits, minor as two decimal digits in
    /// the lower 16 bits.
    pub revision: u32,
    /// Size of the whole table in bytes, header included.
    pub header_size: u32,
    /// CRC of `header_size` bytes of the table, computed with this field zero.
    pub crc32: u32,
    /// Always zero.
    pub reserved: u32,
}

/// The little-endian value of the four bytes at `at`.
pub open spec fn u32_at(t: Seq<u8>, at: int) -> u32 {
    (t[at] as u32) | ((t[at + 1] as u32) << 8u32) | ((t[at + 2] as u32) << 16u32) | ((
    t[at + 3] as u32) << 24u32)
}

/// The little-endian value of the eight bytes at `at`.
pub open spec fn u64_at(t: Seq<u8>, at: int) -> u64 {
    (u32_at(t, at) as u64) | ((u32_at(t, at + 4) as u64) << 32u64)
}

/// The four little-endian bytes of `x`.
pub open spec fn u32_bytes(x: u32) -> Seq<u8> {
    seq![
        #[verifier::truncate] (x as u8),
        #[verifier::truncate] ((x >> 8u32) as u8),
        #[verifier::truncate] ((x >> 16u32) as u8),
        #[verifier::truncate] ((x >> 24u32) as u8),
    ]
}

/// `t` with the four bytes at `at` replaced by those of `x`.
pub open spec fn put_u32(t: Seq<u8>, at: int, x: u32) -> Seq<u8> {
    t.subrange(0, at) + u32_bytes(x) + t.subrange(at + 4, t.len() as int)
}

/// The table's bytes as its CRC is computed: the `crc32` field reads zero.
pub open spec fn crc_zeroed(t: Seq<u8>) -> Seq<u8> {
    put_u32(t, CRC32_OFFSET as int, 0)
}

/// The `header_size` field stored in a table's bytes.
pub open spec fn stored_header_size(t: Seq<u8>) -> u32 {
    u32_at(t, HEADER_SIZE_OFFSET as int)
}

/// The `crc32` field stored in a table's bytes.
pub open spec fn stored_crc(t: Seq<u8>) -> u32 {
    u32_at(t, CRC32_OFFSET as int)
}

/// A table whose `header_size` covers its header and lies within its bytes.
pub open spec fn crc_span_ok(t: Seq<u8>) -> bool {
    HEADER_BYTES <= t.len() && HEADER_BYTES <= stored_header_size(t) <= t.len()
}

/// The CRC that a table's `crc32` field ought to hold.
pub open spec fn expected_crc(t: Seq<u8>) -> u32 {
    crc32_of(crc_zeroed(t).subrange(0, stored_header_size(t) as int))
}

proof fn lemma_u32_round_trip(x: u32)
    ensures
        u32_at(u32_bytes(x), 0) == x,
{
    let b0 = x as u8;
    let b1 = (x >> 8u32) as u8;
    let b2 = (x >> 16u32) as u8;
    let b3 = (x >> 24u32) as u8;
    assert((b0 as u32) | ((b1 as u32) << 8u32) | ((b2 as u32) << 16u32) | ((b3 as u32)
        << 24u32) == x) by (bit_vector)
        requires
            b0 == x as u8,
            b1 == (x >> 8u32) as u8,
            b2 == (x >> 16u32) as u8,
            b3 == (x >> 24u32) as u8,
    ;
}

fn read_u32(t: &[u8], at: usize) -> (r: u32)
    requires
        at + 4 <= t@.len(),
    ensures
        r == u32_at(t@, at as int),
{
    (t[at] as u32) | ((t[at + 1] as u32) << 8u32) | ((t[at + 2] as u32) << 16u32) | ((t[at
        + 3] as u32) << 24u32)
}

fn write_u32(t: &mut Vec<u8>, at: usize, x: u32)
    requires
        at + 4 <= old(t)@.len(),
    ensures
        final(t)@ == put_u32(old(t)@, at as int, x),
{
    // Reading the length tells the verifier that it, and so `at + 3`, fits.
    let _len = t.len();
    let (a1, a2, a3) = (at + 1, at + 2, at + 3);
    t.set(at, #[verifier::truncate] (x as u8));
    t.set(a1, #[verifier::truncate] ((x >> 8u32) as u8));
    t.set(a2, #[verifier::truncate] ((x >> 16u32) as u8));
    t.set(a3, #[verifier::truncate] ((x >> 24u32) as u8));
    assert(t@ =~= put_u32(old(t)@, at as int, x));
}

fn copy_bytes(t: &[u8]) -> (r: Vec<u8>)
    ensures
        r@ == t@,
{
    let mut r: Vec<u8> = Vec::with_capacity(t.len());
    let mut i: usize = 0;
    while i < t.len()
        invariant
            i <= t@.len(),
            r@ == t@.subrange(0, i as int),
        decreases t@.len() - i,
    {
        r.push(t[i]);
        i = i + 1;
        assert(r@ =~= t@.subrange(0, i as int));
    }
    assert(t@.subrange(0, t@.len() as int) =~= t@);
    r
}

impl EFITableHeader {
    /// The major revision: the upper 16 bits.
    pub fn major_revision(&self) -> (r: u16)
        ensures
            r as u32 == self.revision >> 16u32,
    {
        let v = self.revision;
        assert(v >> 16u32 <= 0xFFFFu32) by (bit_vector);
        (v >> 16u32) as u16
    }

    /// The minor revision: the lower 16 bits.
    pub fn minor_revision(&self) -> (r: u16)
        ensures
            r as u32 == self.revision & 0xFFFFu32,
    {
        let v = self.revision;
        assert(v & 0xFFFFu32 <= 0xFFFFu32) by (bit_vector);
        (v & 0xFFFFu32) as u16
    }

    /// True when this table conforms to at least the revision `required`.
    pub fn is_compatible_with(&self, required: u32) -> (r: bool)
        ensures
            r <==> self.revision >= required,
    {
        self.revision >= required
    }

    /// Reads a header from the first bytes of a table; `None` when fewer than
    /// a header's bytes are given.
    pub fn from_bytes(t: &[u8]) -> (r: Option<EFITableHeader>)
        ensures
            t@.len() < HEADER_BYTES ==> r.is_none(),
            t@.len() >= HEADER_BYTES ==> r == Some(
                EFITableHeader {
                    signature: u64_at(t@, 0),
                    revision: u32_at(t@, 8),
                    header_size: u32_at(t@, 12),
                    crc32: u32_at(t@, 16),
                    reserved: u32_at(t@, 20),
                },
            ),
    {
        if t.len() < HEADER_BYTES {
            return None;
        }
        let low = read_u32(t, 0);
        let high = read_u32(t, 4);
        Some(
            EFITableHeader {
                signature: (low as u64) | ((high as u64) << 32u64),
                revision: read_u32(t, 8),
                header_size: read_u32(t, 12),
                crc32: read_u32(t, 16),
                reserved: read_u32(t, 20),
            },
        )
    }
}

/// The CRC that a table's `crc32` field ought to hold, or `None` when its
/// `header_size` does not cover the header or runs past its bytes.
pub fn table_crc(t: &[u8]) -> (r: Option<u32>)
    ensures
        r.is_some() <==> crc_span_ok(t@),
        r.is_some() ==> r == Some(expected_crc(t@)),
{
    if t.len() < HEADER_BYTES {
        return None;
    }
    let size = read_u32(t, HEADER_SIZE_OFFSET);
    if (size as usize) < HEADER_BYTES || (size as usize) > t.len() {
        return None;
    }
    let mut work: Vec<u8> = copy_bytes(t);
    write_u32(&mut work, CRC32_OFFSET, 0);
    let c = crc32_range(work.as_slice(), 0, size as usize);
    Some(c)
}

/// True when the table's `crc32` field matches the CRC of its bytes.
pub fn verify_table_crc(t: &[u8]) -> (r: bool)
    ensures
        r <==> crc_span_ok(t@) && stored_crc(t@) == expected_crc(t@),
{
    match table_crc(t) {
        Some(c) => read_u32(t, CRC32_OFFSET) == c,
        None => false,
    }
}

/// Stores in the `crc32` field the CRC of the table; leaves the table as it
/// is and returns false when its `header_size` is out of range.
pub fn seal_table(t: &mut Vec<u8>) -> (r: bool)
    ensures
        r <==> crc_span_ok(old(t)@),
        r ==> final(t)@ == put_u32(old(t)@, CRC32_OFFSET as int, expected_crc(old(t)@)),
        !r ==> final(t)@ == old(t)@,
{
    match table_crc(t.as_slice()) {
        Some(c) => {
            write_u32(t, CRC32_OFFSET, c);
            true
        },
        None => false,
    }
}


proof fn lemma_put_overwrites(t: Seq<u8>, x: u32, y: u32)
    requires
        HEADER_BYTES <= t.len(),
    ensures
        put_u32(put_u32(t, CRC32_OFFSET as int, x), CRC32_OFFSET as int, y) =~= put_u32(
            t,
            CRC32_OFFSET as int,
            y,
        ),
        put_u32(t, CRC32_OFFSET as int, x).len() == t.len(),
        stored_header_size(put_u32(t, CRC32_OFFSET as int, x)) == stored_header_size(t),
        stored_crc(put_u32(t, CRC32_OFFSET as int, x)) == x,
{
    let p = put_u32(t, CRC32_OFFSET as int, x);
    assert(p.subrange(16, 20) =~= u32_bytes(x));
    lemma_u32_round_trip(x);
    assert(u32_at(p, 16) == u32_at(u32_bytes(x), 0));
}

/// The CRC that a table ought to hold does not depend on what its `crc32`
/// field holds: a value recorded once is reproduced after it is stored back.
pub proof fn lemma_crc_ignores_field(t: Seq<u8>, x: u32)
    requires
        HEADER_BYTES <= t.len(),
    ensures
        expected_crc(put_u32(t, CRC32_OFFSET as int, x)) == expected_crc(t),
        crc_span_ok(put_u32(t, CRC32_OFFSET as int, x)) == crc_span_ok(t),
{
    lemma_put_overwrites(t, x, 0);
}

/// A table sealed with its own CRC verifies.
pub proof fn lemma_sealed_table_verifies(t: Seq<u8>)
    requires
        crc_span_ok(t),
    ensures
        crc_span_ok(put_u32(t, CRC32_OFFSET as int, expected_crc(t))),
        stored_crc(put_u32(t, CRC32_OFFSET as int, expected_crc(t))) == expected_crc(
            put_u32(t, CRC32_OFFSET as int, expected_crc(t)),
        ),
{
    lemma_put_overwrites(t, expected_crc(t), 0);
    lemma_crc_ignores_field(t, expected_crc(t));
}

} // verus!
