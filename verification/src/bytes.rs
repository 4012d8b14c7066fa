//! Memory images of 32-bit words.
//!
//! Every shader-visible block and every vertex or index list of this crate is
//! a run of 32-bit words. The bytes a buffer receives are the words as they
//! lie in memory, so their order inside a word is that of the machine.

use vstd::prelude::*;
use vstd::slice::slice_to_vec;

verus! {

/// Order in which the four bytes of a word lie in memory.
#[derive(Clone, Copy, Debug, PartialEq, Eq, Structural)]
pub enum ByteOrder {
    /// Least significant byte first.
    Little,
    /// Most significant byte first.
    Big,
}

/// The four bytes of `word` in the given order.
pub open spec fn word_image(order: ByteOrder, word: u32) -> Seq<u8> {
    let b0 = (word % 0x100) as u8;
    let b1 = (word / 0x100 % 0x100) as u8;
    let b2 = (word / 0x1_0000 % 0x100) as u8;
    let b3 = (word / 0x100_0000 % 0x100) as u8;
    match order {
        ByteOrder::Little => seq![b0, b1, b2, b3],
        ByteOrder::Big => seq![b3, b2, b1, b0],
    }
}

/// The word that four bytes in the given order stand for.
pub open spec fn word_of(order: ByteOrder, bytes: Seq<u8>) -> int {
    match order {
        ByteOrder::Little => bytes[0] + 0x100 * bytes[1] + 0x1_0000 * bytes[2] + 0x100_0000
            * bytes[3],
        ByteOrder::Big => bytes[3] + 0x100 * bytes[2] + 0x1_0000 * bytes[1] + 0x100_0000
            * bytes[0],
    }
}

/// Reading the bytes of a word in the order they were laid down gives the
/// word back.
pub proof fn lemma_word_round_trip(order: ByteOrder, word: u32)
    ensures
        word_image(order, word).len() == 4,
        word_of(order, word_image(order, word)) == word,
{
    let w = word as int;
    let b0 = w % 0x100;
    let b1 = w / 0x100 % 0x100;
    let b2 = w / 0x1_0000 % 0x100;
    let b3 = w / 0x100_0000 % 0x100;
    assert(w / 0x1_0000 == w / 0x100 / 0x100);
    assert(w / 0x100_0000 == w / 0x1_0000 / 0x100);
    assert(w / 0x100_0000 < 0x100);
    assert(w == b0 + 0x100 * (w / 0x100));
    assert(w / 0x100 == b1 + 0x100 * (w / 0x1_0000));
    assert(w / 0x1_0000 == b2 + 0x100 * (w / 0x100_0000));
    assert(w == b0 + 0x100 * b1 + 0x1_0000 * b2 + 0x100_0000 * b3);
    let image = word_image(order, word);
    assert(image.len() == 4);
    match order {
        ByteOrder::Little => {
            assert(image[0] == b0 && image[1] == b1 && image[2] == b2 && image[3] == b3);
        },
        ByteOrder::Big => {
            assert(image[3] == b0 && image[2] == b1 && image[1] == b2 && image[0] == b3);
        },
    }
}

/// The bytes of `words`, word after word, each in the given order.
pub open spec fn memory_image(order: ByteOrder, words: Seq<u32>) -> Seq<u8> {
    Seq::new(4 * words.len(), |i: int| word_image(order, words[i / 4])[i % 4])
}

/// `bytes` is what `words` look like in memory on some machine.
pub open spec fn is_memory_image(words: Seq<u32>, bytes: Seq<u8>) -> bool {
    ||| bytes == memory_image(ByteOrder::Little, words)
    ||| bytes == memory_image(ByteOrder::Big, words)
}

/// Trusted: `bytemuck::cast_slice` from `u32` to `u8`. The cast keeps the
/// address and multiplies the length by four, so the result is the memory the
/// words occupy: each word as four bytes, in the byte order of the machine
/// the code runs on. Bytes have alignment one and size one, so the cast has
/// no failing case.
#[verifier::external_body]
fn cast_words(words: &[u32]) -> (bytes: &[u8])
    ensures
        is_memory_image(words@, bytes@),
{
    bytemuck::cast_slice(words)
}

/// Copies out the bytes that `words` occupy in memory.
pub fn words_to_bytes(words: &[u32]) -> (bytes: Vec<u8>)
    ensures
        is_memory_image(words@, bytes@),
        bytes@.len() == 4 * words@.len(),
{
    slice_to_vec(cast_words(words))
}

/// A memory image has four bytes for each word, whatever the order.
pub proof fn lemma_image_len(order: ByteOrder, words: Seq<u32>)
    ensures
        memory_image(order, words).len() == 4 * words.len(),
{
}

/// Byte `k` of word `i` sits at offset `4 * i + k`.
pub proof fn lemma_image_index(order: ByteOrder, words: Seq<u32>, i: int, k: int)
    requires
        0 <= i < words.len(),
        0 <= k < 4,
    ensures
        memory_image(order, words)[4 * i + k] == word_image(order, words[i])[k],
{
}

} // verus!
