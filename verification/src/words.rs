//! Buffers cross the host/device boundary as bytes: four per word, least
//! significant first.

use vstd::prelude::*;

verus! {

/// The word that four bytes stand for, least significant byte first.
pub open spec fn word_of(b0: u8, b1: u8, b2: u8, b3: u8) -> int {
    b0 as int + 256 * (b1 as int) + 65536 * (b2 as int) + 16777216 * (b3 as int)
}

/// Byte `k` (0 to 3) of a word, counted from the least significant one.
pub open spec fn byte_of(word: u32, k: int) -> int {
    if k == 0 {
        (word as int) % 256
    } else if k == 1 {
        ((word as int) / 256) % 256
    } else if k == 2 {
        ((word as int) / 65536) % 256
    } else {
        ((word as int) / 16777216) % 256
    }
}

/// The byte image of a sequence of words: word `i` occupies bytes `4 i` to `4 i + 3`.
pub open spec fn image_of(words: Seq<u32>) -> Seq<u8> {
    Seq::new(4 * words.len(), |j: int| byte_of(words[j / 4], j % 4) as u8)
}

/// The words that a byte sequence holds; up to three bytes left over at the end
/// stand for nothing.
pub open spec fn words_in(bytes: Seq<u8>) -> Seq<u32> {
    Seq::new(
        (bytes.len() / 4) as nat,
        |i: int| word_of(bytes[4 * i], bytes[4 * i + 1], bytes[4 * i + 2], bytes[4 * i + 3]) as u32,
    )
}

/// Writes each word as four bytes.
pub fn encode_words(words: &Vec<u32>) -> (bytes: Vec<u8>)
    requires
        4 * words@.len() <= usize::MAX,
    ensures
        bytes@ == image_of(words@),
{
    let mut bytes: Vec<u8> = Vec::new();
    let mut i: usize = 0;
    while i < words.len()
        invariant
            i <= words@.len(),
            bytes@.len() == 4 * i,
            forall|j: int| 0 <= j < bytes@.len() ==> bytes@[j] == image_of(words@)[j],
        decreases words@.len() - i,
    {
        let w: u32 = words[i];
        bytes.push((w % 256) as u8);
        bytes.push(((w / 256) % 256) as u8);
        bytes.push(((w / 65536) % 256) as u8);
        bytes.push(((w / 16777216) % 256) as u8);
        i = i + 1;
    }
    bytes
}

/// Reads the words back out of a byte image.
pub fn decode_words(bytes: &Vec<u8>) -> (words: Vec<u32>)
    ensures
        words@ == words_in(bytes@),
{
    let n: usize = bytes.len() / 4;
    let mut words: Vec<u32> = Vec::new();
    let mut i: usize = 0;
    while i < n
        invariant
            n == bytes@.len() / 4,
            4 * n <= bytes@.len() <= usize::MAX,
            i <= n,
            words@.len() == i,
            forall|j: int| 0 <= j < i ==> words@[j] == words_in(bytes@)[j],
        decreases n - i,
    {
        let b0: u32 = bytes[4 * i] as u32;
        let b1: u32 = bytes[4 * i + 1] as u32;
        let b2: u32 = bytes[4 * i + 2] as u32;
        let b3: u32 = bytes[4 * i + 3] as u32;
        words.push(b0 + 256 * b1 + 65536 * b2 + 16777216 * b3);
        i = i + 1;
    }
    words
}

/// Decoding an image gives back the words it was made from.
pub proof fn lemma_decode_inverts_encode(words: Seq<u32>)
    ensures
        words_in(image_of(words)) == words,
{
    let bytes = image_of(words);
    assert(bytes.len() / 4 == words.len());
    assert forall|i: int| 0 <= i < words.len() implies words_in(bytes)[i] == words[i] by {
        let w = words[i];
        assert((4 * i) / 4 == i && (4 * i + 1) / 4 == i && (4 * i + 2) / 4 == i && (4 * i + 3) / 4
            == i);
        assert((4 * i) % 4 == 0 && (4 * i + 1) % 4 == 1 && (4 * i + 2) % 4 == 2 && (4 * i + 3) % 4
            == 3);
        assert(bytes[4 * i] == byte_of(w, 0) as u8);
        assert(bytes[4 * i + 1] == byte_of(w, 1) as u8);
        assert(bytes[4 * i + 2] == byte_of(w, 2) as u8);
        assert(bytes[4 * i + 3] == byte_of(w, 3) as u8);
    }
    assert(words_in(bytes) =~= words);
}

} // verus!
