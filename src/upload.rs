//! The bytes with which a host-visible buffer is filled, and how they read back.

use vstd::prelude::*;

verus! {

/// The four bytes of a word, least significant first, as a mapped buffer
/// holds them on a little-endian host.
pub open spec fn word_bytes(w: u32) -> Seq<u8> {
    seq![
        (w & 0xff) as u8,
        ((w >> 8u32) & 0xff) as u8,
        ((w >> 16u32) & 0xff) as u8,
        ((w >> 24u32) & 0xff) as u8,
    ]
}

/// The word made of four bytes, least significant first.
pub open spec fn word_of(b0: u8, b1: u8, b2: u8, b3: u8) -> u32 {
    (b0 as u32) | ((b1 as u32) << 8u32) | ((b2 as u32) << 16u32) | ((b3 as u32) << 24u32)
}

/// The bytes of a buffer filled with `words`, in order.
pub open spec fn encoded(words: Seq<u32>) -> Seq<u8> {
    Seq::new(4 * words.len(), |k: int| word_bytes(words[k / 4])[k % 4])
}

/// The words read back from a mapped region, four bytes each.
pub open spec fn decoded(bytes: Seq<u8>) -> Seq<u32> {
    Seq::new(
        bytes.len() / 4,
        |i: int| word_of(bytes[4 * i], bytes[4 * i + 1], bytes[4 * i + 2], bytes[4 * i + 3]),
    )
}

proof fn lemma_word_round_trip(w: u32)
    ensures
        word_of(word_bytes(w)[0], word_bytes(w)[1], word_bytes(w)[2], word_bytes(w)[3]) == w,
{
    let b0 = (w & 0xff) as u8;
    let b1 = ((w >> 8u32) & 0xff) as u8;
    let b2 = ((w >> 16u32) & 0xff) as u8;
    let b3 = ((w >> 24u32) & 0xff) as u8;
    assert((b0 as u32) | ((b1 as u32) << 8u32) | ((b2 as u32) << 16u32) | ((b3 as u32) << 24u32)
        == w) by (bit_vector)
        requires
            b0 == (w & 0xff) as u8,
            b1 == ((w >> 8u32) & 0xff) as u8,
            b2 == ((w >> 16u32) & 0xff) as u8,
            b3 == ((w >> 24u32) & 0xff) as u8,
    ;
}

/// The bytes with which a buffer of `words` is filled.
pub fn encode_words(words: &Vec<u32>) -> (r: Vec<u8>)
    ensures
        r@ == encoded(words@),
{
    let mut r: Vec<u8> = Vec::new();
    let mut i: usize = 0;
    while i < words.len()
        invariant
            i <= words@.len(),
            r@.len() == 4 * i,
            forall|k: int| 0 <= k < 4 * i ==> r@[k] == word_bytes(words@[k / 4])[k % 4],
        decreases words@.len() - i,
    {
        let w = words[i];
        r.push((w & 0xff) as u8);
        r.push(((w >> 8u32) & 0xff) as u8);
        r.push(((w >> 16u32) & 0xff) as u8);
        r.push(((w >> 24u32) & 0xff) as u8);
        let ghost b = 4 * i as int;
        assert(b / 4 == i && b % 4 == 0);
        assert((b + 1) / 4 == i && (b + 1) % 4 == 1);
        assert((b + 2) / 4 == i && (b + 2) % 4 == 2);
        assert((b + 3) / 4 == i && (b + 3) % 4 == 3);
        i = i + 1;
    }
    assert(r@ =~= encoded(words@));
    r
}

/// The words held by a mapped region; `None` where its length is not a
/// whole number of words.
pub fn decode_words(bytes: &Vec<u8>) -> (r: Option<Vec<u32>>)
    ensures
        bytes@.len() % 4 != 0 ==> r is None,
        bytes@.len() % 4 == 0 ==> (r matches Some(w) && w@ == decoded(bytes@)),
{
    let n = bytes.len();
    if n % 4 != 0 {
        return None;
    }
    let count = n / 4;
    let mut r: Vec<u32> = Vec::new();
    let mut i: usize = 0;
    while i < count
        invariant
            n == bytes@.len(),
            count == n / 4,
            i <= count,
            r@.len() == i,
            forall|j: int| 0 <= j < i ==> r@[j] == decoded(bytes@)[j],
        decreases count - i,
    {
        let at = 4 * i;
        let w = (bytes[at] as u32) | ((bytes[at + 1] as u32) << 8u32) | ((bytes[at + 2] as u32)
            << 16u32) | ((bytes[at + 3] as u32) << 24u32);
        r.push(w);
        i = i + 1;
    }
    assert(r@ =~= decoded(bytes@));
    Some(r)
}

/// Filling a buffer with words and reading the mapped region back gives the
/// same words, for any number of them: the region holds exactly four bytes
/// per word and nothing is lost.
pub proof fn lemma_fill_round_trip(words: Seq<u32>)
    ensures
        encoded(words).len() == 4 * words.len(),
        decoded(encoded(words)) == words,
{
    let bytes = encoded(words);
    assert(bytes.len() / 4 == words.len());
    assert forall|i: int| 0 <= i < words.len() implies decoded(bytes)[i] == words[i] by {
        assert((4 * i) / 4 == i && (4 * i) % 4 == 0);
        assert((4 * i + 1) / 4 == i && (4 * i + 1) % 4 == 1);
        assert((4 * i + 2) / 4 == i && (4 * i + 2) % 4 == 2);
        assert((4 * i + 3) / 4 == i && (4 * i + 3) % 4 == 3);
        lemma_word_round_trip(words[i]);
    }
    assert(decoded(bytes) =~= words);
}

} // verus!
