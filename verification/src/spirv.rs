//! SPIR-V modules as the words a Vulkan shader module is made from.

use vstd::prelude::*;

verus! {

/// Why a byte string is no SPIR-V module.
#[derive(Clone, Copy, Debug, PartialEq, Eq, Structural)]
pub enum SpirvError {
    /// The length is not a multiple of four, so the bytes do not divide
    /// into words.
    Misaligned,
}

impl SpirvError {
    /// The error in words.
    pub fn message(&self) -> (text: String)
        ensures
            text@ == "SPIR-V file size not aligned to 4"@,
    {
        String::from_str("SPIR-V file size not aligned to 4")
    }
}

/// The 32-bit word whose bytes are, from the least significant up,
/// `b0`, `b1`, `b2` and `b3`.
pub open spec fn le_word(b0: u8, b1: u8, b2: u8, b3: u8) -> int {
    b0 + b1 * 0x100 + b2 * 0x1_0000 + b3 * 0x100_0000
}

/// Word `i` of a module held in `data`, read in little-endian order.
pub open spec fn word_at(data: Seq<u8>, i: int) -> int {
    le_word(data[4 * i], data[4 * i + 1], data[4 * i + 2], data[4 * i + 3])
}

/// `words` holds the little-endian words of `data`, in order.
pub open spec fn words_of(data: Seq<u8>, words: Seq<u32>) -> bool {
    &&& words.len() * 4 == data.len()
    &&& forall|i: int| 0 <= i < words.len() ==> #[trigger] words[i] == word_at(data, i)
}

fn word_from_le_bytes(b0: u8, b1: u8, b2: u8, b3: u8) -> (word: u32)
    ensures
        word == le_word(b0, b1, b2, b3),
{
    let word: u32 = (b0 as u32) | ((b1 as u32) << 8) | ((b2 as u32) << 16) | ((b3 as u32) << 24);
    assert((b0 as u32) | ((b1 as u32) << 8) | ((b2 as u32) << 16) | ((b3 as u32) << 24) == b0 + b1
        * 0x100 + b2 * 0x1_0000 + b3 * 0x100_0000) by (bit_vector);
    word
}

/// Reads the contents of a SPIR-V file as words. Fails exactly where the
/// length is no multiple of four.
pub fn spirv_words(data: &[u8]) -> (result: Result<Vec<u32>, SpirvError>)
    ensures
        match result {
            Ok(words) => words_of(data@, words@),
            Err(e) => e == SpirvError::Misaligned && data@.len() % 4 != 0,
        },
{
    if data.len() % 4 != 0 {
        return Err(SpirvError::Misaligned);
    }
    let count: usize = data.len() / 4;
    let mut words: Vec<u32> = Vec::new();
    let mut i: usize = 0;
    while i < count
        invariant
            i <= count,
            count * 4 == data@.len() <= usize::MAX,
            words@.len() == i,
            forall|k: int| 0 <= k < i ==> #[trigger] words@[k] == word_at(data@, k),
        decreases count - i,
    {
        let word: u32 = word_from_le_bytes(
            data[4 * i],
            data[4 * i + 1],
            data[4 * i + 2],
            data[4 * i + 3],
        );
        words.push(word);
        i += 1;
    }
    Ok(words)
}

/// A word holds its four bytes apart: each can be read back from it.
pub proof fn word_keeps_its_bytes(b0: u8, b1: u8, b2: u8, b3: u8)
    ensures
        le_word(b0, b1, b2, b3) % 0x100 == b0,
        (le_word(b0, b1, b2, b3) / 0x100) % 0x100 == b1,
        (le_word(b0, b1, b2, b3) / 0x1_0000) % 0x100 == b2,
        le_word(b0, b1, b2, b3) / 0x100_0000 == b3,
        0 <= le_word(b0, b1, b2, b3) <= u32::MAX,
{
    let w: u32 = (b0 + b1 * 0x100 + b2 * 0x1_0000 + b3 * 0x100_0000) as u32;
    assert(w == (b0 as u32) + (b1 as u32) * 0x100 + (b2 as u32) * 0x1_0000 + (b3 as u32)
        * 0x100_0000);
    assert(w % 0x100 == b0 && (w / 0x100) % 0x100 == b1 && (w / 0x1_0000) % 0x100 == b2 && w
        / 0x100_0000 == b3) by (bit_vector)
        requires
            w == (b0 as u32) + (b1 as u32) * 0x100 + (b2 as u32) * 0x1_0000 + (b3 as u32)
                * 0x100_0000,
    ;
}

/// The words of a module say what its bytes were: two byte strings with
/// the same words are the same.
pub proof fn words_determine_bytes(a: Seq<u8>, b: Seq<u8>, words: Seq<u32>)
    requires
        words_of(a, words),
        words_of(b, words),
    ensures
        a == b,
{
    assert forall|j: int| 0 <= j < a.len() implies a[j] == b[j] by {
        let i = j / 4;
        assert(0 <= i < words.len() && 4 * i <= j < 4 * i + 4);
        assert(words[i] == word_at(a, i));
        assert(words[i] == word_at(b, i));
        word_keeps_its_bytes(a[4 * i], a[4 * i + 1], a[4 * i + 2], a[4 * i + 3]);
        word_keeps_its_bytes(b[4 * i], b[4 * i + 1], b[4 * i + 2], b[4 * i + 3]);
    }
    assert(a =~= b);
}

} // verus!
