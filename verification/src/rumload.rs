use vstd::prelude::*;

verus! {

/// The word that four bytes make, the first byte being the most significant.
pub open spec fn word_of(b0: u8, b1: u8, b2: u8, b3: u8) -> nat {
    (b0 * 0x100_0000 + b1 * 0x1_0000 + b2 * 0x100 + b3) as nat
}

/// The words that `bytes` hold, four bytes to a word. Up to three bytes
/// after the last whole word make no word.
pub open spec fn words_of(bytes: Seq<u8>) -> Seq<u32> {
    Seq::new(
        bytes.len() / 4,
        |i: int| word_of(bytes[4 * i], bytes[4 * i + 1], bytes[4 * i + 2], bytes[4 * i + 3]) as u32,
    )
}

/// Assembles the big-endian words of a program image, in the order in which
/// their bytes come.
pub fn words_from_bytes(bytes: &Vec<u8>) -> (words: Vec<u32>)
    ensures
        words@ == words_of(bytes@),
{
    let count: usize = bytes.len() / 4;
    let mut words: Vec<u32> = Vec::new();
    let mut i: usize = 0;
    while i < count
        invariant
            count == bytes.len() / 4,
            i <= count,
            words@ == words_of(bytes@).take(i as int),
        decreases count - i,
    {
        let b0: u32 = bytes[4 * i] as u32;
        let b1: u32 = bytes[4 * i + 1] as u32;
        let b2: u32 = bytes[4 * i + 2] as u32;
        let b3: u32 = bytes[4 * i + 3] as u32;
        words.push(b0 * 0x100_0000 + b1 * 0x1_0000 + b2 * 0x100 + b3);
        assert(words@ =~= words_of(bytes@).take(i + 1));
        i = i + 1;
    }
    assert(words@ =~= words_of(bytes@));
    words
}

} // verus!
