//! Fixed-width integers as bytes on the wire.

use vstd::prelude::*;

verus! {

/// The two bytes of `x`, most significant first.
pub open spec fn be16(x: u16) -> Seq<u8> {
    seq![(x / 0x100) as u8, (x % 0x100) as u8]
}

/// The low 24 bits of `x` as three bytes, most significant first.
pub open spec fn be24(x: u32) -> Seq<u8> {
    seq![((x / 0x1_0000) % 0x100) as u8, ((x / 0x100) % 0x100) as u8, (x % 0x100) as u8]
}

/// The four bytes of `x`, most significant first.
pub open spec fn be32(x: u32) -> Seq<u8> {
    seq![
        (x / 0x100_0000) as u8,
        ((x / 0x1_0000) % 0x100) as u8,
        ((x / 0x100) % 0x100) as u8,
        (x % 0x100) as u8,
    ]
}

/// The 16-bit value whose more significant byte is `hi`.
pub open spec fn word(hi: u8, lo: u8) -> u16 {
    (hi * 0x100 + lo) as u16
}

pub fn u16_to_be_bytes(x: u16) -> (b: [u8; 2])
    ensures
        b@ == be16(x),
{
    let b: [u8; 2] = [(x / 0x100) as u8, (x % 0x100) as u8];
    assert(b@ =~= be16(x));
    b
}

pub fn u24_to_be_bytes(x: u32) -> (b: [u8; 3])
    ensures
        b@ == be24(x),
{
    let b: [u8; 3] = [
        ((x / 0x1_0000) % 0x100) as u8,
        ((x / 0x100) % 0x100) as u8,
        (x % 0x100) as u8,
    ];
    assert(b@ =~= be24(x));
    b
}

pub fn u32_to_be_bytes(x: u32) -> (b: [u8; 4])
    ensures
        b@ == be32(x),
{
    let b: [u8; 4] = [
        (x / 0x100_0000) as u8,
        ((x / 0x1_0000) % 0x100) as u8,
        ((x / 0x100) % 0x100) as u8,
        (x % 0x100) as u8,
    ];
    assert(b@ =~= be32(x));
    b
}

pub fn u16_from_bytes(hi: u8, lo: u8) -> (x: u16)
    ensures
        x == word(hi, lo),
{
    let h: u16 = hi as u16;
    let l: u16 = lo as u16;
    h * 0x100 + l
}

/// Splitting a 16-bit value into bytes and joining them again changes nothing.
pub proof fn lemma_word_of_be16(x: u16)
    ensures
        word(be16(x)[0], be16(x)[1]) == x,
{
}

/// Joining two bytes and splitting the result gives the two bytes back.
pub proof fn lemma_be16_of_word(hi: u8, lo: u8)
    ensures
        be16(word(hi, lo)) == seq![hi, lo],
{
    assert(be16(word(hi, lo)) =~= seq![hi, lo]);
}

} // verus!
