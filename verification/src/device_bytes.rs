//! Byte images of word buffers, as they are handed to the device.

use vstd::prelude::*;

verus! {

/// Byte `k` (0 is the least significant) of a 32-bit word.
pub open spec fn word_byte(w: u32, k: int) -> u8 {
    ((w as int / pow256(k)) % 256) as u8
}

/// 256 to the power `k`, for the four byte positions of a word.
pub open spec fn pow256(k: int) -> int {
    if k <= 0 {
        1
    } else if k == 1 {
        0x100
    } else if k == 2 {
        0x1_0000
    } else {
        0x100_0000
    }
}

/// The little-endian byte image of a sequence of words.
pub open spec fn le_image(words: Seq<u32>) -> Seq<u8> {
    Seq::new(4 * words.len(), |i: int| word_byte(words[i / 4], i % 4))
}

/// The big-endian byte image of a sequence of words.
pub open spec fn be_image(words: Seq<u32>) -> Seq<u8> {
    Seq::new(4 * words.len(), |i: int| word_byte(words[i / 4], 3 - i % 4))
}

/// The byte images that a machine may give to a sequence of words: one of the
/// two byte orders, the same for every word.
pub open spec fn is_native_image(words: Seq<u32>, bytes: Seq<u8>) -> bool {
    bytes == le_image(words) || bytes == be_image(words)
}

/// Reinterprets words as bytes with `bytemuck::cast_slice`. Going from `u32`
/// to `u8` the cast cannot fail: the target alignment is 1 and every length
/// is a whole number of bytes. The result is the memory image of the words, so
/// it is stated up to the byte order of the machine.
#[verifier::external_body]
fn cast_words(words: &Vec<u32>) -> (bytes: Vec<u8>)
    ensures
        is_native_image(words@, bytes@),
{
    let image: &[u8] = bytemuck::cast_slice(words.as_slice());
    image.to_vec()
}

/// The byte image of `words` in the byte order of this machine.
pub fn words_to_bytes(words: &Vec<u32>) -> (bytes: Vec<u8>)
    ensures
        bytes@.len() == 4 * words@.len(),
        is_native_image(words@, bytes@),
{
    cast_words(words)
}

/// Reads four bytes as one word with `bytemuck::pod_read_unaligned`, which
/// asks only that the slice is as long as the word. The word is the one whose
/// memory image the bytes are, so it is stated up to the byte order of the
/// machine.
#[verifier::external_body]
fn read_native_word(bytes: &[u8]) -> (word: u32)
    requires
        bytes@.len() == 4,
    ensures
        is_native_image(seq![word], bytes@),
{
    bytemuck::pod_read_unaligned::<u32>(bytes)
}

/// Word `i` of `words` is the word whose image are the four bytes of `bytes`
/// from `4 * i` on, in one of the two byte orders.
pub open spec fn is_word_of(words: Seq<u32>, bytes: Seq<u8>, i: int) -> bool {
    is_native_image(seq![words[i]], bytes.subrange(4 * i, 4 * i + 4))
}

/// The words whose byte image `bytes` is, in the byte order of this machine;
/// nothing if `bytes` is not a whole number of words.
pub fn bytes_to_words(bytes: &[u8]) -> (words: Option<Vec<u32>>)
    ensures
        words.is_some() == (bytes@.len() % 4 == 0),
        words matches Some(w) ==> w@.len() * 4 == bytes@.len() && forall|i: int|
            0 <= i < w@.len() ==> #[trigger] is_word_of(w@, bytes@, i),
{
    let len: usize = bytes.len();
    if len % 4 != 0 {
        return None;
    }
    let count: usize = len / 4;
    let mut words: Vec<u32> = Vec::new();
    let mut i: usize = 0;
    while i < count
        invariant
            i <= count,
            count * 4 == len,
            len == bytes@.len(),
            words@.len() == i,
            forall|j: int| 0 <= j < i ==> #[trigger] is_word_of(words@, bytes@, j),
        decreases count - i,
    {
        let four: &[u8] = vstd::slice::slice_subrange(bytes, 4 * i, 4 * i + 4);
        let word: u32 = read_native_word(four);
        let ghost before = words@;
        words.push(word);
        proof {
            assert forall|j: int| 0 <= j < i + 1 implies #[trigger] is_word_of(words@, bytes@, j) by {
                if j < i {
                    assert(is_word_of(before, bytes@, j));
                    assert(words@[j] == before[j]);
                }
            }
        }
        i += 1;
    }
    Some(words)
}

/// The byte image of `count` words of zeros: `4 * count` bytes of zeros. This
/// is what a device buffer holds before the first frame.
pub fn zeroed_buffer(count: usize) -> (bytes: Vec<u8>)
    ensures
        bytes@.len() == 4 * count,
        forall|i: int| 0 <= i < bytes@.len() ==> bytes@[i] == 0,
{
    let words: Vec<u32> = vec![0u32; count];
    let bytes: Vec<u8> = words_to_bytes(&words);
    proof {
        assert forall|i: int| 0 <= i < bytes@.len() implies bytes@[i] == 0 by {
            assert(words@[i / 4] == 0);
            assert(bytes@[i] == le_image(words@)[i] || bytes@[i] == be_image(words@)[i]);
        }
    }
    bytes
}

/// A word is zero exactly when the four bytes of its image are, in either
/// byte order.
pub proof fn lemma_zero_word(word: u32, bytes: Seq<u8>)
    requires
        is_native_image(seq![word], bytes),
    ensures
        bytes.len() == 4,
        word == 0 <==> (bytes[0] == 0 && bytes[1] == 0 && bytes[2] == 0 && bytes[3] == 0),
{
    let words = seq![word];
    assert(words.len() == 1);
    assert(words[0] == word);
    let w = word as int;
    assert(w == (w % 256) + 256 * ((w / 256) % 256) + 65536 * ((w / 65536) % 256) + 16777216 * ((w
        / 16777216) % 256));
    if bytes == le_image(words) {
        assert(bytes[0] == word_byte(words[0int / 4], 0int % 4));
        assert(bytes[1] == word_byte(words[1int / 4], 1int % 4));
        assert(bytes[2] == word_byte(words[2int / 4], 2int % 4));
        assert(bytes[3] == word_byte(words[3int / 4], 3int % 4));
    } else {
        assert(bytes[0] == word_byte(words[0int / 4], 3 - 0int % 4));
        assert(bytes[1] == word_byte(words[1int / 4], 3 - 1int % 4));
        assert(bytes[2] == word_byte(words[2int / 4], 3 - 2int % 4));
        assert(bytes[3] == word_byte(words[3int / 4], 3 - 3int % 4));
    }
}

} // verus!
