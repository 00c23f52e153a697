//! Little-endian conversions between 32-bit words and bytes.
//!
//! The RPU and the host MCU are both little-endian, so a buffer of words
//! exchanged over the bus has the byte layout given here.
use vstd::prelude::*;

verus! {

/// The word whose little-endian bytes are `b0, b1, b2, b3`.
pub open spec fn le_u32(b0: u8, b1: u8, b2: u8, b3: u8) -> u32 {
    (b0 as u32) | ((b1 as u32) << 8u32) | ((b2 as u32) << 16u32) | ((b3 as u32) << 24u32)
}

/// Byte `k` (0 is the least significant) of `w`.
pub open spec fn le_byte(w: u32, k: int) -> u8 {
    if k == 0 {
        (w & 0xff) as u8
    } else if k == 1 {
        ((w >> 8u32) & 0xff) as u8
    } else if k == 2 {
        ((w >> 16u32) & 0xff) as u8
    } else {
        ((w >> 24u32) & 0xff) as u8
    }
}

/// The word stored little-endian at `bytes[pos..pos + 4]`.
pub open spec fn u32_at(bytes: Seq<u8>, pos: int) -> u32 {
    le_u32(bytes[pos], bytes[pos + 1], bytes[pos + 2], bytes[pos + 3])
}

/// The bytes of a sequence of words, each word little-endian.
pub open spec fn words_as_bytes(words: Seq<u32>) -> Seq<u8> {
    Seq::new(words.len() * 4, |i: int| le_byte(words[i / 4], i % 4))
}

/// The words made of consecutive groups of four bytes; a trailing group of
/// fewer than four bytes is not part of any word.
pub open spec fn bytes_as_words(bytes: Seq<u8>) -> Seq<u32> {
    Seq::new(bytes.len() / 4, |i: int| u32_at(bytes, 4 * i))
}

/// Little-endian: the first byte is the least significant.
pub proof fn lemma_le_u32_value(b0: u8, b1: u8, b2: u8, b3: u8)
    ensures
        le_u32(b0, b1, b2, b3) == b0 + 0x100 * b1 + 0x1_0000 * b2 + 0x100_0000 * b3,
{
    assert((b0 as u32) | ((b1 as u32) << 8u32) | ((b2 as u32) << 16u32) | ((b3 as u32) << 24u32)
        == b0 as u32 + 0x100u32 * b1 as u32 + 0x1_0000u32 * b2 as u32 + 0x100_0000u32 * b3 as u32)
        by (bit_vector);
}

/// Little-endian: the first byte is the least significant.
pub proof fn lemma_u16_at_value(b: Seq<u8>, pos: int)
    ensures
        u16_at(b, pos) == b[pos] + 0x100 * b[pos + 1],
{
    let b0 = b[pos];
    let b1 = b[pos + 1];
    assert((b0 as u16) | ((b1 as u16) << 8u16) == b0 as u16 + 0x100u16 * b1 as u16) by (bit_vector);
}

pub proof fn lemma_le_u32_of_bytes(w: u32)
    ensures
        le_u32(le_byte(w, 0), le_byte(w, 1), le_byte(w, 2), le_byte(w, 3)) == w,
{
    assert(((w & 0xff) as u8 as u32) | ((((w >> 8u32) & 0xff) as u8 as u32) << 8u32) | ((((w
        >> 16u32) & 0xff) as u8 as u32) << 16u32) | ((((w >> 24u32) & 0xff) as u8 as u32)
        << 24u32) == w) by (bit_vector);
}

pub proof fn lemma_bytes_of_le_u32(b0: u8, b1: u8, b2: u8, b3: u8)
    ensures
        le_byte(le_u32(b0, b1, b2, b3), 0) == b0,
        le_byte(le_u32(b0, b1, b2, b3), 1) == b1,
        le_byte(le_u32(b0, b1, b2, b3), 2) == b2,
        le_byte(le_u32(b0, b1, b2, b3), 3) == b3,
{
    let w = le_u32(b0, b1, b2, b3);
    assert(w == (b0 as u32) | ((b1 as u32) << 8u32) | ((b2 as u32) << 16u32) | ((b3 as u32)
        << 24u32));
    assert((((b0 as u32) | ((b1 as u32) << 8u32) | ((b2 as u32) << 16u32) | ((b3 as u32)
        << 24u32)) & 0xff) as u8 == b0) by (bit_vector);
    assert(((((b0 as u32) | ((b1 as u32) << 8u32) | ((b2 as u32) << 16u32) | ((b3 as u32)
        << 24u32)) >> 8u32) & 0xff) as u8 == b1) by (bit_vector);
    assert(((((b0 as u32) | ((b1 as u32) << 8u32) | ((b2 as u32) << 16u32) | ((b3 as u32)
        << 24u32)) >> 16u32) & 0xff) as u8 == b2) by (bit_vector);
    assert(((((b0 as u32) | ((b1 as u32) << 8u32) | ((b2 as u32) << 16u32) | ((b3 as u32)
        << 24u32)) >> 24u32) & 0xff) as u8 == b3) by (bit_vector);
}

/// The four little-endian bytes of `w`.
pub open spec fn u32_le_bytes(w: u32) -> Seq<u8> {
    seq![le_byte(w, 0), le_byte(w, 1), le_byte(w, 2), le_byte(w, 3)]
}

/// The two little-endian bytes of `h`.
pub open spec fn u16_le_bytes(h: u16) -> Seq<u8> {
    seq![(h & 0xff) as u8, ((h >> 8u16) & 0xff) as u8]
}

/// The half-word stored little-endian at `bytes[pos..pos + 2]`.
pub open spec fn u16_at(bytes: Seq<u8>, pos: int) -> u16 {
    (bytes[pos] as u16) | ((bytes[pos + 1] as u16) << 8u16)
}

/// Where the little-endian bytes of `w` stand at `pos`, the word read
/// there is `w`.
pub proof fn lemma_u32_field(b: Seq<u8>, pos: int, w: u32)
    requires
        0 <= pos,
        pos + 4 <= b.len(),
        b.subrange(pos, pos + 4) == u32_le_bytes(w),
    ensures
        u32_at(b, pos) == w,
{
    assert(b[pos] == b.subrange(pos, pos + 4)[0]);
    assert(b[pos + 1] == b.subrange(pos, pos + 4)[1]);
    assert(b[pos + 2] == b.subrange(pos, pos + 4)[2]);
    assert(b[pos + 3] == b.subrange(pos, pos + 4)[3]);
    lemma_le_u32_of_bytes(w);
}

/// Where the little-endian bytes of `h` stand at `pos`, the half-word read
/// there is `h`.
pub proof fn lemma_u16_field(b: Seq<u8>, pos: int, h: u16)
    requires
        0 <= pos,
        pos + 2 <= b.len(),
        b.subrange(pos, pos + 2) == u16_le_bytes(h),
    ensures
        u16_at(b, pos) == h,
{
    assert(b[pos] == b.subrange(pos, pos + 2)[0]);
    assert(b[pos + 1] == b.subrange(pos, pos + 2)[1]);
    assert((((h & 0xff) as u8) as u16) | ((((h >> 8u16) & 0xff) as u8 as u16) << 8u16) == h)
        by (bit_vector);
}

/// A piece of a piece of `b` is a piece of `b`, at the sum of the offsets.
pub proof fn lemma_nested_piece(b: Seq<u8>, s1: int, m: Seq<u8>, s2: int, inner: Seq<u8>)
    requires
        0 <= s1,
        s1 + m.len() <= b.len(),
        b.subrange(s1, s1 + m.len()) == m,
        0 <= s2,
        s2 + inner.len() <= m.len(),
        m.subrange(s2, s2 + inner.len()) == inner,
    ensures
        b.subrange(s1 + s2, s1 + s2 + inner.len()) == inner,
{
    assert forall|k: int| 0 <= k < inner.len() implies #[trigger] b.subrange(
        s1 + s2,
        s1 + s2 + inner.len(),
    )[k] == inner[k] by {
        assert(b[s1 + s2 + k] == b.subrange(s1, s1 + m.len())[s2 + k]);
        assert(m[s2 + k] == m.subrange(s2, s2 + inner.len())[k]);
    }
    assert(b.subrange(s1 + s2, s1 + s2 + inner.len()) =~= inner);
}

/// The word read inside a piece of `b` is the word read in `b` at the
/// piece's offset.
pub proof fn lemma_u32_in_piece(b: Seq<u8>, s: int, m: Seq<u8>, pos: int)
    requires
        0 <= s,
        s + m.len() <= b.len(),
        b.subrange(s, s + m.len()) == m,
        0 <= pos,
        pos + 4 <= m.len(),
    ensures
        u32_at(b, s + pos) == u32_at(m, pos),
{
    assert(b[s + pos + 0] == b.subrange(s, s + m.len())[pos + 0]);
    assert(b[s + pos + 1] == b.subrange(s, s + m.len())[pos + 1]);
    assert(b[s + pos + 2] == b.subrange(s, s + m.len())[pos + 2]);
    assert(b[s + pos + 3] == b.subrange(s, s + m.len())[pos + 3]);
}

/// The half-word read inside a piece of `b` is the half-word read in `b` at the
/// piece's offset.
pub proof fn lemma_u16_in_piece(b: Seq<u8>, s: int, m: Seq<u8>, pos: int)
    requires
        0 <= s,
        s + m.len() <= b.len(),
        b.subrange(s, s + m.len()) == m,
        0 <= pos,
        pos + 2 <= m.len(),
    ensures
        u16_at(b, s + pos) == u16_at(m, pos),
{
    assert(b[s + pos + 0] == b.subrange(s, s + m.len())[pos + 0]);
    assert(b[s + pos + 1] == b.subrange(s, s + m.len())[pos + 1]);
}

/// The byte read inside a piece of `b` is the byte read in `b` at the
/// piece's offset.
pub proof fn lemma_byte_in_piece(b: Seq<u8>, s: int, m: Seq<u8>, pos: int)
    requires
        0 <= s,
        s + m.len() <= b.len(),
        b.subrange(s, s + m.len()) == m,
        0 <= pos,
        pos + 1 <= m.len(),
    ensures
        b[s + pos] == m[pos],
{
    assert(b[s + pos + 0] == b.subrange(s, s + m.len())[pos + 0]);
}

/// Appends the little-endian bytes of `w`.
pub fn push_u32_le(out: &mut Vec<u8>, w: u32)
    ensures
        final(out)@ == old(out)@ + u32_le_bytes(w),
{
    out.push((w & 0xff) as u8);
    out.push(((w >> 8u32) & 0xff) as u8);
    out.push(((w >> 16u32) & 0xff) as u8);
    out.push(((w >> 24u32) & 0xff) as u8);
    assert(out@ =~= old(out)@ + u32_le_bytes(w));
}

/// Appends the little-endian bytes of `h`.
pub fn push_u16_le(out: &mut Vec<u8>, h: u16)
    ensures
        final(out)@ == old(out)@ + u16_le_bytes(h),
{
    out.push((h & 0xff) as u8);
    out.push(((h >> 8u16) & 0xff) as u8);
    assert(out@ =~= old(out)@ + u16_le_bytes(h));
}

/// Appends bytes.
pub fn push_bytes(out: &mut Vec<u8>, bytes: &[u8])
    ensures
        final(out)@ == old(out)@ + bytes@,
{
    let mut i: usize = 0;
    while i < bytes.len()
        invariant
            0 <= i <= bytes@.len(),
            out@ == old(out)@ + bytes@.subrange(0, i as int),
        decreases bytes@.len() - i,
    {
        out.push(bytes[i]);
        assert(bytes@.subrange(0, i + 1) =~= bytes@.subrange(0, i as int).push(bytes@[i as int]));
        i += 1;
    }
    assert(bytes@.subrange(0, bytes@.len() as int) =~= bytes@);
}

/// Reads the little-endian word at `bytes[pos..pos + 4]`.
pub fn read_u32_le(bytes: &[u8], pos: usize) -> (w: u32)
    requires
        pos + 4 <= bytes@.len(),
    ensures
        w == u32_at(bytes@, pos as int),
{
    let b0 = bytes[pos];
    let b1 = bytes[pos + 1];
    let b2 = bytes[pos + 2];
    let b3 = bytes[pos + 3];
    (b0 as u32) | ((b1 as u32) << 8u32) | ((b2 as u32) << 16u32) | ((b3 as u32) << 24u32)
}

/// The bytes of a buffer of words, in memory order.
pub fn slice8(x: &[u32]) -> (r: Vec<u8>)
    requires
        x@.len() * 4 <= usize::MAX,
    ensures
        r@ == words_as_bytes(x@),
{
    let len = x.len() * 4;
    let mut out: Vec<u8> = Vec::with_capacity(len);
    let mut i: usize = 0;
    while i < x.len()
        invariant
            0 <= i <= x@.len(),
            out@.len() == 4 * i,
            forall|j: int| 0 <= j < 4 * i ==> out@[j] == le_byte(x@[j / 4], j % 4),
        decreases x@.len() - i,
    {
        let w = x[i];
        out.push((w & 0xff) as u8);
        out.push(((w >> 8u32) & 0xff) as u8);
        out.push(((w >> 16u32) & 0xff) as u8);
        out.push(((w >> 24u32) & 0xff) as u8);
        i += 1;
    }
    assert(out@ =~= words_as_bytes(x@));
    out
}

/// The words of a byte buffer whose length is a multiple of four.
pub fn slice32(x: &[u8]) -> (r: Vec<u32>)
    requires
        x@.len() % 4 == 0,
    ensures
        r@ == bytes_as_words(x@),
{
    let len = x.len() / 4;
    assert(x.len() == x@.len());
    let mut out: Vec<u32> = Vec::with_capacity(len);
    let mut i: usize = 0;
    while i < len
        invariant
            len == x@.len() / 4,
            x.len() == x@.len(),
            0 <= i <= len,
            out@.len() == i,
            forall|j: int| 0 <= j < i ==> out@[j] == u32_at(x@, 4 * j),
        decreases len - i,
    {
        assert(4 * i + 4 <= x.len()) by (nonlinear_arith)
            requires
                i < len,
                len == x.len() / 4,
        ;
        let w = read_u32_le(x, 4 * i);
        out.push(w);
        i += 1;
    }
    assert(out@ =~= bytes_as_words(x@));
    out
}

/// Reading the bytes of a word buffer back as words gives the buffer.
pub proof fn lemma_words_bytes_roundtrip(words: Seq<u32>)
    ensures
        bytes_as_words(words_as_bytes(words)) == words,
{
    let b = words_as_bytes(words);
    assert forall|i: int| 0 <= i < words.len() implies #[trigger] bytes_as_words(b)[i]
        == words[i] by {
        assert((4 * i) / 4 == i && (4 * i + 1) / 4 == i && (4 * i + 2) / 4 == i && (4 * i + 3)
            / 4 == i);
        assert((4 * i) % 4 == 0 && (4 * i + 1) % 4 == 1 && (4 * i + 2) % 4 == 2 && (4 * i + 3)
            % 4 == 3);
        lemma_le_u32_of_bytes(words[i]);
    }
    assert(bytes_as_words(b) =~= words);
}

/// Viewing a byte buffer of whole words as words and back gives the buffer.
pub proof fn lemma_bytes_words_roundtrip(bytes: Seq<u8>)
    requires
        bytes.len() % 4 == 0,
    ensures
        words_as_bytes(bytes_as_words(bytes)) == bytes,
{
    let w = bytes_as_words(bytes);
    assert forall|i: int| 0 <= i < bytes.len() implies #[trigger] words_as_bytes(w)[i]
        == bytes[i] by {
        let q = i / 4;
        let r = i % 4;
        assert(i == 4 * q + r);
        lemma_bytes_of_le_u32(bytes[4 * q], bytes[4 * q + 1], bytes[4 * q + 2], bytes[4 * q + 3]);
    }
    assert(words_as_bytes(w) =~= bytes);
}

} // verus!
