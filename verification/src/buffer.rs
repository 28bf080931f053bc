//! Bit patterns as bytes, for buffers that are handed to a graphics device.
//!
//! A pattern takes four bytes, the lowest first. The conversions copy: the
//! storage of one type is never read as another.

use vstd::prelude::*;

verus! {

/// Byte `k` of a pattern, counted from the lowest.
pub open spec fn byte_of(word: u32, k: int) -> u8 {
    if k == 0 {
        (word & 0xFF) as u8
    } else if k == 1 {
        ((word >> 8) & 0xFF) as u8
    } else if k == 2 {
        ((word >> 16) & 0xFF) as u8
    } else {
        ((word >> 24) & 0xFF) as u8
    }
}

/// The pattern made of four bytes, the lowest first.
pub open spec fn word_of(b0: u8, b1: u8, b2: u8, b3: u8) -> u32 {
    (b0 as u32) | ((b1 as u32) << 8) | ((b2 as u32) << 16) | ((b3 as u32) << 24)
}

/// The bytes of a sequence of patterns: four for each, in order.
pub open spec fn bytes_of(words: Seq<u32>) -> Seq<u8> {
    Seq::new(4 * words.len(), |i: int| byte_of(words[i / 4], i % 4))
}

/// The patterns held by a sequence of bytes: one for each full group of
/// four. Up to three bytes at the end belong to no pattern.
pub open spec fn words_of(bytes: Seq<u8>) -> Seq<u32> {
    Seq::new(
        bytes.len() / 4,
        |i: int| word_of(bytes[4 * i], bytes[4 * i + 1], bytes[4 * i + 2], bytes[4 * i + 3]),
    )
}

/// Four bytes put together and taken apart again are the same bytes, and a
/// pattern taken apart and put together again is the same pattern.
pub proof fn lemma_word_round_trip(word: u32, b0: u8, b1: u8, b2: u8, b3: u8)
    ensures
        word_of(byte_of(word, 0), byte_of(word, 1), byte_of(word, 2), byte_of(word, 3)) == word,
        byte_of(word_of(b0, b1, b2, b3), 0) == b0,
        byte_of(word_of(b0, b1, b2, b3), 1) == b1,
        byte_of(word_of(b0, b1, b2, b3), 2) == b2,
        byte_of(word_of(b0, b1, b2, b3), 3) == b3,
{
    assert(((word & 0xFF) as u8 as u32) | ((((word >> 8) & 0xFF) as u8 as u32) << 8) | ((((word
        >> 16) & 0xFF) as u8 as u32) << 16) | ((((word >> 24) & 0xFF) as u8 as u32) << 24) == word)
        by (bit_vector);
    let w = word_of(b0, b1, b2, b3);
    assert((w & 0xFF) as u8 == b0 && ((w >> 8) & 0xFF) as u8 == b1 && ((w >> 16) & 0xFF) as u8
        == b2 && ((w >> 24) & 0xFF) as u8 == b3) by (bit_vector)
        requires
            w == (b0 as u32) | ((b1 as u32) << 8) | ((b2 as u32) << 16) | ((b3 as u32) << 24),
    ;
}

/// Patterns written as bytes and read back are the same patterns.
pub proof fn lemma_words_round_trip(words: Seq<u32>)
    ensures
        words_of(bytes_of(words)) == words,
{
    let bytes = bytes_of(words);
    assert(bytes.len() / 4 == words.len());
    assert forall|i: int| 0 <= i < words.len() implies words_of(bytes)[i] == words[i] by {
        assert((4 * i) / 4 == i && (4 * i) % 4 == 0);
        assert((4 * i + 1) / 4 == i && (4 * i + 1) % 4 == 1);
        assert((4 * i + 2) / 4 == i && (4 * i + 2) % 4 == 2);
        assert((4 * i + 3) / 4 == i && (4 * i + 3) % 4 == 3);
        lemma_word_round_trip(words[i], 0, 0, 0, 0);
    }
    assert(words_of(bytes) =~= words);
}

/// Bytes read as patterns and written back are the same bytes, where their
/// number is a multiple of four.
pub proof fn lemma_bytes_round_trip(bytes: Seq<u8>)
    requires
        bytes.len() % 4 == 0,
    ensures
        bytes_of(words_of(bytes)) == bytes,
{
    let words = words_of(bytes);
    assert(4 * words.len() == bytes.len());
    assert forall|i: int| 0 <= i < bytes.len() implies bytes_of(words)[i] == bytes[i] by {
        let q = i / 4;
        assert(i == 4 * q + i % 4);
        lemma_word_round_trip(0, bytes[4 * q], bytes[4 * q + 1], bytes[4 * q + 2], bytes[4 * q + 3]);
    }
    assert(bytes_of(words) =~= bytes);
}

/// Writes each pattern as four bytes, the lowest first.
pub fn words_to_bytes(words: &[u32]) -> (r: Vec<u8>)
    ensures
        r@ == bytes_of(words@),
{
    let mut r: Vec<u8> = Vec::new();
    let mut i: usize = 0;
    while i < words.len()
        invariant
            i <= words.len(),
            r@.len() == 4 * i,
            forall|j: int| 0 <= j < 4 * i ==> r@[j] == byte_of(words@[j / 4], j % 4),
        decreases words.len() - i,
    {
        let w: u32 = words[i];
        r.push((w & 0xFF) as u8);
        r.push(((w >> 8) & 0xFF) as u8);
        r.push(((w >> 16) & 0xFF) as u8);
        r.push(((w >> 24) & 0xFF) as u8);
        proof {
            assert forall|j: int| 0 <= j < 4 * (i + 1) implies r@[j] == byte_of(
                words@[j / 4],
                j % 4,
            ) by {
                if j >= 4 * i {
                    assert(j / 4 == i as int);
                    assert(j % 4 == j - 4 * i);
                }
            }
        }
        i += 1;
    }
    assert(r@ =~= bytes_of(words@));
    r
}

/// Reads each full group of four bytes as a pattern, the lowest byte first.
/// Up to three bytes at the end are left out.
pub fn bytes_to_words(bytes: &[u8]) -> (r: Vec<u32>)
    ensures
        r@ == words_of(bytes@),
{
    let n: usize = bytes.len() / 4;
    let mut r: Vec<u32> = Vec::new();
    let mut i: usize = 0;
    while i < n
        invariant
            n == bytes.len() / 4,
            i <= n,
            r@.len() == i,
            forall|j: int| 0 <= j < i ==> r@[j] == word_of(
                bytes@[4 * j],
                bytes@[4 * j + 1],
                bytes@[4 * j + 2],
                bytes@[4 * j + 3],
            ),
        decreases n - i,
    {
        let b0: u8 = bytes[4 * i];
        let b1: u8 = bytes[4 * i + 1];
        let b2: u8 = bytes[4 * i + 2];
        let b3: u8 = bytes[4 * i + 3];
        r.push((b0 as u32) | ((b1 as u32) << 8) | ((b2 as u32) << 16) | ((b3 as u32) << 24));
        i += 1;
    }
    assert(r@ =~= words_of(bytes@));
    r
}

} // verus!
