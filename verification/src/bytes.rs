//! Memory as runs of bytes: little-endian reads of what is there, and zeros
//! for what is not.

use vstd::prelude::*;

verus! {

/// The byte of `mem` at `addr`, or zero where `mem` holds none.
pub open spec fn byte_at(mem: Seq<u8>, addr: int) -> u8 {
    if 0 <= addr < mem.len() {
        mem[addr]
    } else {
        0
    }
}

/// The little-endian value of the two bytes at `base`.
pub open spec fn le_16_at(mem: Seq<u8>, base: int) -> u16 {
    byte_at(mem, base) as u16 | (byte_at(mem, base + 1) as u16) << 8
}

/// The little-endian value of the four bytes at `base`.
pub open spec fn le_32_at(mem: Seq<u8>, base: int) -> u32 {
    byte_at(mem, base) as u32 | (byte_at(mem, base + 1) as u32) << 8 | (byte_at(
        mem,
        base + 2,
    ) as u32) << 16 | (byte_at(mem, base + 3) as u32) << 24
}

/// The little-endian value of the eight bytes at `base`.
pub open spec fn le_64_at(mem: Seq<u8>, base: int) -> u64 {
    le_32_at(mem, base) as u64 | (le_32_at(mem, base + 4) as u64) << 32
}

/// Byte `k` of a word, counted from the lowest.
pub open spec fn nth_byte(word: u64, k: u32) -> u8 {
    (word >> (8 * k) as u64) as u8
}

/// Four-bit group `k` of a word, counted from the lowest.
pub open spec fn nth_nibble(word: u32, k: u32) -> u8 {
    ((word >> (4 * k) as u32) & 0xF) as u8
}

/// Reads the byte at `addr`.
pub fn read_8(mem: &Vec<u8>, addr: usize) -> (r: u8)
    ensures
        r == byte_at(mem@, addr as int),
{
    if addr < mem.len() {
        mem[addr]
    } else {
        0
    }
}

/// Reads the two bytes at `base`.
pub fn read_le_16(mem: &Vec<u8>, base: usize) -> (r: u16)
    requires
        base <= usize::MAX - 1,
    ensures
        r == le_16_at(mem@, base as int),
{
    read_8(mem, base) as u16 | (read_8(mem, base + 1) as u16) << 8
}

/// Reads the four bytes at `base`.
pub fn read_le_32(mem: &Vec<u8>, base: usize) -> (r: u32)
    requires
        base <= usize::MAX - 3,
    ensures
        r == le_32_at(mem@, base as int),
{
    read_8(mem, base) as u32 | (read_8(mem, base + 1) as u32) << 8 | (read_8(mem, base + 2) as u32)
        << 16 | (read_8(mem, base + 3) as u32) << 24
}

/// Reads the eight bytes at `base`.
pub fn read_le_64(mem: &Vec<u8>, base: usize) -> (r: u64)
    requires
        base <= usize::MAX - 7,
    ensures
        r == le_64_at(mem@, base as int),
{
    read_le_32(mem, base) as u64 | (read_le_32(mem, base + 4) as u64) << 32
}

/// The bytes of a little-endian word are the bytes it was read from.
pub proof fn lemma_le_64_bytes(mem: Seq<u8>, base: int, k: u32)
    requires
        k < 8,
    ensures
        nth_byte(le_64_at(mem, base), k) == byte_at(mem, base + k),
{
    let b0 = byte_at(mem, base);
    let b1 = byte_at(mem, base + 1);
    let b2 = byte_at(mem, base + 2);
    let b3 = byte_at(mem, base + 3);
    let b4 = byte_at(mem, base + 4);
    let b5 = byte_at(mem, base + 5);
    let b6 = byte_at(mem, base + 6);
    let b7 = byte_at(mem, base + 7);
    let w = le_64_at(mem, base);
    assert((w >> (8 * k) as u64) as u8 == (if k == 0 {
        b0
    } else if k == 1 {
        b1
    } else if k == 2 {
        b2
    } else if k == 3 {
        b3
    } else if k == 4 {
        b4
    } else if k == 5 {
        b5
    } else if k == 6 {
        b6
    } else {
        b7
    })) by (bit_vector)
        requires
            k < 8,
            w == (b0 as u32 | (b1 as u32) << 8 | (b2 as u32) << 16 | (b3 as u32) << 24) as u64 | ((
            b4 as u32 | (b5 as u32) << 8 | (b6 as u32) << 16 | (b7 as u32) << 24) as u64) << 32,
    ;
}

/// The four-bit groups of a little-endian word are the halves of the bytes it
/// was read from, the low half first.
pub proof fn lemma_le_32_nibbles(mem: Seq<u8>, base: int, k: u32)
    requires
        k < 8,
    ensures
        nth_nibble(le_32_at(mem, base), k) == (byte_at(mem, base + (k / 2)) >> (4 * (k % 2)) as u8)
            & 0xF,
{
    let b0 = byte_at(mem, base);
    let b1 = byte_at(mem, base + 1);
    let b2 = byte_at(mem, base + 2);
    let b3 = byte_at(mem, base + 3);
    let w = le_32_at(mem, base);
    let b = byte_at(mem, base + (k / 2));
    assert(((w >> (4 * k) as u32) & 0xF) as u8 == (b >> (4 * (k % 2)) as u8) & 0xF) by (bit_vector)
        requires
            k < 8,
            w == b0 as u32 | (b1 as u32) << 8 | (b2 as u32) << 16 | (b3 as u32) << 24,
            b == (if k / 2 == 0 {
                b0
            } else if k / 2 == 1 {
                b1
            } else if k / 2 == 2 {
                b2
            } else {
                b3
            }),
    ;
}

/// A masked address lies within its mask, whatever low bits are cleared.
pub proof fn lemma_masked_address(addr: u32, mask: u32, low: u32)
    by (bit_vector)
    ensures
        addr & mask & !low <= mask,
        addr & mask <= mask,
{
}


/// A masked offset lies within its mask.
pub proof fn lemma_masked_offset(offset: usize, mask: usize)
    by (bit_vector)
    ensures
        offset & mask <= mask,
{
}

} // verus!
