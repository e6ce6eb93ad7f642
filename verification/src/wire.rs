//! Byte-level views of the wire protocol: 4-byte words in big-endian order
//! (the serial protocol) and in little-endian order (the network bridge).

use vstd::prelude::*;

verus! {

/// The unsigned word held by four big-endian bytes starting at `off`.
pub open spec fn be_word_at(b: Seq<u8>, off: int) -> nat
    recommends
        0 <= off,
        off + 4 <= b.len(),
{
    (b[off] as nat) * 0x1000000 + (b[off + 1] as nat) * 0x10000 + (b[off + 2] as nat) * 0x100
        + (b[off + 3] as nat)
}

/// The unsigned word held by four little-endian bytes starting at `off`.
pub open spec fn le_word_at(b: Seq<u8>, off: int) -> nat
    recommends
        0 <= off,
        off + 4 <= b.len(),
{
    (b[off + 3] as nat) * 0x1000000 + (b[off + 2] as nat) * 0x10000 + (b[off + 1] as nat) * 0x100
        + (b[off] as nat)
}

/// The four big-endian bytes of a word below 2^32.
pub open spec fn be_bytes_of(w: nat) -> Seq<u8>
    recommends
        w < 0x100000000,
{
    seq![
        ((w / 0x1000000) % 0x100) as u8,
        ((w / 0x10000) % 0x100) as u8,
        ((w / 0x100) % 0x100) as u8,
        (w % 0x100) as u8,
    ]
}

/// The two's-complement wire word of a signed 32-bit value.
pub open spec fn word_of_i32(x: i32) -> nat {
    if x >= 0 {
        x as nat
    } else {
        (x + 0x100000000) as nat
    }
}

/// Read one big-endian word from `buf` at `off`.
pub fn read_be_u32(buf: &[u8], off: usize) -> (w: u32)
    requires
        off + 4 <= buf@.len(),
    ensures
        w == be_word_at(buf@, off as int),
{
    // Taking the length as a machine word bounds the index arithmetic below.
    let _len: usize = buf.len();
    (buf[off] as u32) * 0x1000000 + (buf[off + 1] as u32) * 0x10000 + (buf[off + 2] as u32) * 0x100
        + (buf[off + 3] as u32)
}

/// Read one little-endian word from `buf` at `off`.
pub fn read_le_u32(buf: &[u8], off: usize) -> (w: u32)
    requires
        off + 4 <= buf@.len(),
    ensures
        w == le_word_at(buf@, off as int),
{
    // Taking the length as a machine word bounds the index arithmetic below.
    let _len: usize = buf.len();
    (buf[off + 3] as u32) * 0x1000000 + (buf[off + 2] as u32) * 0x10000 + (buf[off + 1] as u32)
        * 0x100 + (buf[off] as u32)
}

/// The two's-complement wire word of `x`, as a machine value.
pub fn word_from_i32(x: i32) -> (w: u32)
    ensures
        w == word_of_i32(x),
{
    let wide: i64 = x as i64;
    if wide >= 0 {
        wide as u32
    } else {
        (wide + 0x100000000i64) as u32
    }
}

/// Append the four big-endian bytes of `w` to `out`.
pub fn push_be_u32(out: &mut Vec<u8>, w: u32)
    ensures
        final(out)@ == old(out)@ + be_bytes_of(w as nat),
{
    out.push(((w / 0x1000000) % 0x100) as u8);
    out.push(((w / 0x10000) % 0x100) as u8);
    out.push(((w / 0x100) % 0x100) as u8);
    out.push((w % 0x100) as u8);
    proof {
        assert(out@ =~= old(out)@ + be_bytes_of(w as nat));
    }
}

} // verus!
