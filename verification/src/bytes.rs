//! The byte image of a list of 32-bit words, as a buffer upload needs it.

use vstd::prelude::*;

verus! {

/// Byte `k` of the words written least significant byte first.
pub open spec fn little_endian_byte(words: Seq<u32>, k: int) -> u8 {
    ((words[k / 4] >> ((8 * (k % 4)) as u32)) & 0xff) as u8
}

/// Byte `k` of the words written most significant byte first.
pub open spec fn big_endian_byte(words: Seq<u32>, k: int) -> u8 {
    ((words[k / 4] >> ((8 * (3 - k % 4)) as u32)) & 0xff) as u8
}

/// The words written out least significant byte first.
pub open spec fn little_endian(words: Seq<u32>) -> Seq<u8> {
    Seq::new(4 * words.len(), |k: int| little_endian_byte(words, k))
}

/// The words written out most significant byte first.
pub open spec fn big_endian(words: Seq<u32>) -> Seq<u8> {
    Seq::new(4 * words.len(), |k: int| big_endian_byte(words, k))
}

/// Whether `bytes` is how `words` lie in memory on some machine: four bytes
/// to the word, the words in order, every word in the same byte order.
pub open spec fn is_memory_image(bytes: Seq<u8>, words: Seq<u32>) -> bool {
    bytes == little_endian(words) || bytes == big_endian(words)
}

/// The bytes of `words` as they lie in memory.
///
/// Calls `bytemuck::cast_slice` from `u32` to `u8` and copies what it
/// returns. Believed of that call, not proved: the result views the same
/// memory as its argument, so it has four bytes for each word, in the order
/// of the words, each word in the byte order of the machine, which is either
/// least or most significant byte first. With a target of size and alignment
/// one the call has no failure case.
#[verifier::external_body]
pub(crate) fn memory_image(words: &Vec<u32>) -> (bytes: Vec<u8>)
    ensures
        is_memory_image(bytes@, words@),
{
    bytemuck::cast_slice::<u32, u8>(words.as_slice()).to_vec()
}

/// In a memory image every word has its own four bytes: those at four
/// times its place are the memory image of that word alone.
pub proof fn lemma_memory_image_word(bytes: Seq<u8>, words: Seq<u32>, w: int)
    requires
        is_memory_image(bytes, words),
        0 <= w < words.len(),
    ensures
        4 * w + 4 <= bytes.len(),
        is_memory_image(bytes.subrange(4 * w, 4 * w + 4), seq![words[w]]),
{
    let four = bytes.subrange(4 * w, 4 * w + 4);
    let one = seq![words[w]];
    if bytes == little_endian(words) {
        assert forall|k: int| 0 <= k < 4 implies four[k] == little_endian(one)[k] by {
            assert(four[k] == little_endian_byte(words, 4 * w + k));
            assert((4 * w + k) / 4 == w && (4 * w + k) % 4 == k && k / 4 == 0 && k % 4 == k);
        }
        assert(four =~= little_endian(one));
    } else {
        assert forall|k: int| 0 <= k < 4 implies four[k] == big_endian(one)[k] by {
            assert(four[k] == big_endian_byte(words, 4 * w + k));
            assert((4 * w + k) / 4 == w && (4 * w + k) % 4 == k && k / 4 == 0 && k % 4 == k);
        }
        assert(four =~= big_endian(one));
    }
}

} // verus!
