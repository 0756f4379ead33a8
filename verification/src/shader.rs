//! The shader bytecode as the device takes it: a sequence of 32-bit words.
use vstd::prelude::*;

verus! {

/// The names of the two entry points in the shader module.
pub struct ShaderEntryPoints {
    pub vertex: String,
    pub fragment: String,
}

/// The word made of four bytes, the least significant first.
pub open spec fn word_of(b0: u8, b1: u8, b2: u8, b3: u8) -> u32 {
    (b0 + b1 * 0x100 + b2 * 0x1_0000 + b3 * 0x100_0000) as u32
}

/// The words of a blob whose length is a multiple of four.
pub open spec fn words_of(bytes: Seq<u8>) -> Seq<u32> {
    Seq::new(
        (bytes.len() / 4) as nat,
        |i: int| word_of(bytes[4 * i], bytes[4 * i + 1], bytes[4 * i + 2], bytes[4 * i + 3]),
    )
}

/// Names the entry points of the vertex and the fragment stage.
pub fn shader_entry_points() -> (names: ShaderEntryPoints)
    ensures
        names.vertex@ == "main_vs"@,
        names.fragment@ == "main_fs"@,
{
    ShaderEntryPoints { vertex: "main_vs".to_owned(), fragment: "main_fs".to_owned() }
}

/// Reads a blob of shader bytecode as 32-bit words, least significant byte
/// first.
///
/// A blob whose length is no multiple of four is no bytecode.
pub fn spirv_words(bytes: &[u8]) -> (words: Option<Vec<u32>>)
    ensures
        words is Some <==> bytes@.len() % 4 == 0,
        words is Some ==> words->0@ == words_of(bytes@),
{
    let length: usize = bytes.len();
    if length % 4 != 0 {
        return None;
    }
    let mut words: Vec<u32> = Vec::new();
    let mut i: usize = 0;
    while i < length
        invariant
            length == bytes@.len(),
            length % 4 == 0,
            0 <= i <= length,
            i % 4 == 0,
            words@.len() == i / 4,
            forall|k: int| 0 <= k < words@.len() ==> words@[k] == #[trigger] words_of(bytes@)[k],
        decreases length - i,
    {
        let b0: u32 = bytes[i] as u32;
        let b1: u32 = bytes[i + 1] as u32;
        let b2: u32 = bytes[i + 2] as u32;
        let b3: u32 = bytes[i + 3] as u32;
        let word: u32 = b0 + b1 * 0x100 + b2 * 0x1_0000 + b3 * 0x100_0000;
        proof {
            let at: int = (i / 4) as int;
            assert(4 * at == i);
            assert(at < words_of(bytes@).len());
            assert(words_of(bytes@)[at] == word);
        }
        words.push(word);
        i += 4;
    }
    assert(words@ =~= words_of(bytes@));
    Some(words)
}

} // verus!
