//! Turning the bytes of a SPIR-V file into the 32-bit words a shader module
//! is created from.

use vstd::prelude::*;

verus! {

/// The little-endian 32-bit word made of bytes `4 * i .. 4 * i + 4`.
pub open spec fn word_at(bytes: Seq<u8>, i: int) -> u32 {
    (bytes[4 * i] + bytes[4 * i + 1] * 0x100 + bytes[4 * i + 2] * 0x1_0000 + bytes[4 * i + 3]
        * 0x100_0000) as u32
}

/// The words of a SPIR-V byte stream: one word for each complete group of
/// four bytes, in order, each read in little-endian byte order (the host
/// order of the platforms the renderer runs on); trailing bytes that do not
/// fill a word are dropped.
pub fn spv_words(bytes: &[u8]) -> (words: Vec<u32>)
    ensures
        words.len() == bytes.len() / 4,
        forall|i: int| 0 <= i < words.len() ==> #[trigger] words@[i] == word_at(bytes@, i),
{
    let count = bytes.len() / 4;
    let mut words: Vec<u32> = Vec::with_capacity(count);
    let mut i: usize = 0;
    while i < count
        invariant
            count == bytes.len() / 4,
            i <= count,
            words.len() == i,
            forall|j: int| 0 <= j < i ==> #[trigger] words@[j] == word_at(bytes@, j),
        decreases count - i,
    {
        let base = 4 * i;
        let word: u32 = bytes[base] as u32 + bytes[base + 1] as u32 * 0x100 + bytes[base + 2] as u32
            * 0x1_0000 + bytes[base + 3] as u32 * 0x100_0000;
        words.push(word);
        i += 1;
    }
    words
}

} // verus!
