use vstd::prelude::*;

verus! {

/// The reflected generator polynomial of the standard 32-bit CRC.
pub const CRC32_POLY: u32 = 0xEDB8_8320;

/// One shift of the CRC register: the low bit decides whether the polynomial
/// is folded in.
pub open spec fn crc_shift(c: u32) -> u32 {
    if c & 1 == 1 {
        (c >> 1u32) ^ CRC32_POLY
    } else {
        c >> 1u32
    }
}

/// The register after one byte has been fed in, low bit first.
pub open spec fn crc_feed(c: u32, b: u8) -> u32 {
    crc_shift(crc_shift(crc_shift(crc_shift(crc_shift(crc_shift(crc_shift(crc_shift(
        c ^ (b as u32),
    ))))))))
}

/// The register after a sequence of bytes, from the all-ones start value.
pub open spec fn crc_register(s: Seq<u8>) -> u32
    decreases s.len(),
{
    if s.len() == 0 {
        0xFFFF_FFFFu32
    } else {
        crc_feed(crc_register(s.drop_last()), s.last())
    }
}

/// The standard 32-bit CRC of a byte sequence.
pub open spec fn crc32_of(s: Seq<u8>) -> u32 {
    crc_register(s) ^ 0xFFFF_FFFFu32
}

fn shift(c: u32) -> (r: u32)
    ensures
        r == crc_shift(c),
{
    if c & 1 == 1 {
        (c >> 1u32) ^ CRC32_POLY
    } else {
        c >> 1u32
    }
}

fn feed(c: u32, b: u8) -> (r: u32)
    ensures
        r == crc_feed(c, b),
{
    let mut x: u32 = c ^ (b as u32);
    x = shift(x);
    x = shift(x);
    x = shift(x);
    x = shift(x);
    x = shift(x);
    x = shift(x);
    x = shift(x);
    shift(x)
}

/// The standard 32-bit CRC of the bytes `data[start..end]`.
pub fn crc32_range(data: &[u8], start: usize, end: usize) -> (r: u32)
    requires
        start <= end <= data@.len(),
    ensures
        r == crc32_of(data@.subrange(start as int, end as int)),
{
    let mut c: u32 = 0xFFFF_FFFF;
    let mut i: usize = start;
    proof {
        assert(data@.subrange(start as int, start as int) =~= Seq::<u8>::empty());
    }
    while i < end
        invariant
            start <= i <= end <= data@.len(),
            c == crc_register(data@.subrange(start as int, i as int)),
        decreases end - i,
    {
        proof {
            let next = data@.subrange(start as int, i + 1);
            assert(next.drop_last() =~= data@.subrange(start as int, i as int));
            assert(next.last() == data@[i as int]);
        }
        c = feed(c, data[i]);
        i = i + 1;
    }
    c ^ 0xFFFF_FFFF
}

/// The standard 32-bit CRC of a whole byte sequence.
pub fn crc32(data: &[u8]) -> (r: u32)
    ensures
        r == crc32_of(data@),
{
    proof {
        assert(data@.subrange(0, data@.len() as int) =~= data@);
    }
    crc32_range(data, 0, data.len())
}

} // verus!
