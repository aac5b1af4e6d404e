//! Little-endian integers in a byte buffer, and the word encoding that the
//! record layouts are built from.
use vstd::prelude::*;

verus! {

/// The little-endian `u16` stored in the two bytes at `i`.
pub open spec fn u16_at(s: Seq<u8>, i: int) -> u16 {
    (s[i] as int + 256 * s[i + 1] as int) as u16
}

/// The little-endian `u32` stored in the four bytes at `i`.
pub open spec fn u32_at(s: Seq<u8>, i: int) -> u32 {
    (s[i] as int + 256 * s[i + 1] as int + 65536 * s[i + 2] as int + 16777216 * s[i
        + 3] as int) as u32
}

/// Byte `j` (0 is the least significant) of the little-endian form of `w`.
pub open spec fn byte_of(w: u32, j: int) -> u8 {
    if j == 0 {
        (w % 256) as u8
    } else if j == 1 {
        ((w / 256) % 256) as u8
    } else if j == 2 {
        ((w / 65536) % 256) as u8
    } else {
        (w / 16777216) as u8
    }
}

/// The bytes of a sequence of 32-bit words, each stored little-endian.
pub open spec fn word_bytes(w: Seq<u32>) -> Seq<u8> {
    Seq::new(4 * w.len(), |i: int| byte_of(w[i / 4], i % 4))
}

/// Reads the byte at `i`.
pub fn read_u8(data: &[u8], i: usize) -> (r: u8)
    requires
        i < data@.len(),
    ensures
        r == data@[i as int],
{
    data[i]
}

/// Reads the little-endian `u16` at `i`.
pub fn read_u16(data: &[u8], i: usize) -> (r: u16)
    requires
        i + 2 <= data@.len(),
    ensures
        r == u16_at(data@, i as int),
{
    let b0 = data[i] as u16;
    let b1 = data[i + 1] as u16;
    b0 + 256 * b1
}

/// Reads the little-endian `u32` at `i`.
pub fn read_u32(data: &[u8], i: usize) -> (r: u32)
    requires
        i + 4 <= data@.len(),
    ensures
        r == u32_at(data@, i as int),
{
    let b0 = data[i] as u32;
    let b1 = data[i + 1] as u32;
    let b2 = data[i + 2] as u32;
    let b3 = data[i + 3] as u32;
    b0 + 256 * b1 + 65536 * b2 + 16777216 * b3
}

proof fn lemma_split_word(x: u32)
    ensures
        x as int == (x % 256) as int + 256 * ((x / 256) % 256) as int + 65536 * ((x / 65536)
            % 256) as int + 16777216 * (x / 16777216) as int,
        (x % 65536) as int == (x % 256) as int + 256 * ((x / 256) % 256) as int,
        (x / 65536) as int == ((x / 65536) % 256) as int + 256 * (x / 16777216) as int,
        x / 16777216 < 256,
{
    assert(x as int == (x % 256) as int + 256 * ((x / 256) % 256) as int + 65536 * ((x
        / 65536) % 256) as int + 16777216 * (x / 16777216) as int) by (bit_vector);
    assert((x % 65536) as int == (x % 256) as int + 256 * ((x / 256) % 256) as int)
        by (bit_vector);
    assert((x / 65536) as int == ((x / 65536) % 256) as int + 256 * (x / 16777216) as int)
        by (bit_vector);
    assert(x / 16777216 < 256) by (bit_vector);
}

/// Reading the words back out of their encoding gives the words, and each
/// half and byte of a word is where the little-endian layout puts it.
pub proof fn lemma_word_bytes(w: Seq<u32>)
    ensures
        word_bytes(w).len() == 4 * w.len(),
        forall|i: int|
            0 <= i < 4 * w.len() && i % 4 == 0 ==> #[trigger] u32_at(word_bytes(w), i) == w[i
                / 4],
        forall|i: int|
            0 <= i < 4 * w.len() && i % 4 == 0 ==> #[trigger] u16_at(word_bytes(w), i) == w[i
                / 4] % 65536,
        forall|i: int|
            0 <= i < 4 * w.len() && i % 4 == 2 ==> #[trigger] u16_at(word_bytes(w), i) == w[i
                / 4] / 65536,
{
    let b = word_bytes(w);
    assert forall|i: int| 0 <= i < 4 * w.len() && i % 4 == 0 implies #[trigger] u32_at(b, i)
        == w[i / 4] && u16_at(b, i) == w[i / 4] % 65536 by {
        let x = w[i / 4];
        assert((i + 1) / 4 == i / 4 && (i + 1) % 4 == 1);
        assert((i + 2) / 4 == i / 4 && (i + 2) % 4 == 2);
        assert((i + 3) / 4 == i / 4 && (i + 3) % 4 == 3);
        lemma_split_word(x);
    }
    assert forall|i: int| 0 <= i < 4 * w.len() && i % 4 == 2 implies #[trigger] u16_at(b, i)
        == w[i / 4] / 65536 by {
        let x = w[i / 4];
        assert((i + 1) / 4 == i / 4 && (i + 1) % 4 == 3);
        lemma_split_word(x);
    }
}

/// A word holding two `u16` halves, `lo` in the low bytes.
pub open spec fn pack_u16s(lo: u16, hi: u16) -> u32 {
    (lo as int + 65536 * hi as int) as u32
}

/// A word holding a `u16` in its low bytes and two more bytes above it.
pub open spec fn pack_u16_u8s(lo: u16, b2: u8, b3: u8) -> u32 {
    (lo as int + 65536 * b2 as int + 16777216 * b3 as int) as u32
}

/// A word holding four bytes, `b0` the least significant.
pub open spec fn pack_u8s(b0: u8, b1: u8, b2: u8, b3: u8) -> u32 {
    (b0 as int + 256 * b1 as int + 65536 * b2 as int + 16777216 * b3 as int) as u32
}

pub proof fn lemma_pack_u16s(lo: u16, hi: u16)
    ensures
        pack_u16s(lo, hi) % 65536 == lo,
        pack_u16s(lo, hi) / 65536 == hi,
{
    let p = pack_u16s(lo, hi);
    assert(p as int == lo as int + 65536 * hi as int) by (nonlinear_arith)
        requires
            p == (lo as int + 65536 * hi as int) as u32,
            0 <= lo < 65536,
            0 <= hi < 65536,
    ;
    assert(p % 65536 == lo && p / 65536 == hi) by (nonlinear_arith)
        requires
            p as int == lo as int + 65536 * hi as int,
            0 <= lo < 65536,
    ;
}

pub proof fn lemma_pack_u16_u8s(lo: u16, b2: u8, b3: u8)
    ensures
        pack_u16_u8s(lo, b2, b3) % 65536 == lo,
        byte_of(pack_u16_u8s(lo, b2, b3), 2) == b2,
        byte_of(pack_u16_u8s(lo, b2, b3), 3) == b3,
{
    let p = pack_u16_u8s(lo, b2, b3);
    let hi = (b2 as int + 256 * b3 as int) as u16;
    assert(p == pack_u16s(lo, hi));
    lemma_pack_u16s(lo, hi);
    assert((hi % 256) as u8 == b2 && (hi / 256) as u8 == b3) by (nonlinear_arith)
        requires
            hi as int == b2 as int + 256 * b3 as int,
            0 <= b2 < 256,
    ;
}

pub proof fn lemma_pack_u8s(b0: u8, b1: u8, b2: u8, b3: u8)
    ensures
        byte_of(pack_u8s(b0, b1, b2, b3), 0) == b0,
        byte_of(pack_u8s(b0, b1, b2, b3), 1) == b1,
        byte_of(pack_u8s(b0, b1, b2, b3), 2) == b2,
        byte_of(pack_u8s(b0, b1, b2, b3), 3) == b3,
{
    let p = pack_u8s(b0, b1, b2, b3);
    let lo = (b0 as int + 256 * b1 as int) as u16;
    assert(p == pack_u16_u8s(lo, b2, b3));
    lemma_pack_u16_u8s(lo, b2, b3);
    assert((lo % 256) as u8 == b0 && (lo / 256) as u8 == b1) by (nonlinear_arith)
        requires
            lo as int == b0 as int + 256 * b1 as int,
            0 <= b0 < 256,
    ;
    assert(p % 256 == lo % 256 && (p / 256) % 256 == lo / 256) by (nonlinear_arith)
        requires
            p % 65536 == lo,
            0 <= lo < 65536,
    ;
}

} // verus!
