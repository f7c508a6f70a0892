//! The byte layout in which the view transform is handed to a shader.
//!
//! The block holds six single-precision numbers, each by its bit pattern,
//! and is padded to 32 bytes: the pan offset (two numbers), the normalized
//! pointer position (two numbers), the scale and the aspect ratio. Host and
//! shader agree on this layout byte for byte.

use vstd::prelude::*;

verus! {

/// The size of the uniform block in bytes.
pub const UNIFORM_BLOCK_SIZE: usize = 32;

/// The bit patterns of the numbers in the uniform block, in the order in
/// which the block holds them.
#[derive(Clone, Copy, Debug, PartialEq, Eq)]
pub struct UniformWords {
    /// The pan offset of the view, horizontal then vertical.
    pub pan: [u32; 2],
    /// The pointer position as fractions of the viewport.
    pub cursor_normalized: [u32; 2],
    /// The scale of the view.
    pub scale: u32,
    /// Width over height of the viewport.
    pub aspect_ratio: u32,
}

/// The four bytes of a word, lowest first.
pub open spec fn word_bytes(word: u32) -> Seq<u8> {
    seq![
        (word & 0xff) as u8,
        ((word >> 8) & 0xff) as u8,
        ((word >> 16) & 0xff) as u8,
        ((word >> 24) & 0xff) as u8,
    ]
}

impl UniformWords {
    /// The block: the six words in order, each lowest byte first, followed
    /// by eight zero bytes.
    pub open spec fn layout(&self) -> Seq<u8> {
        word_bytes(self.pan[0]) + word_bytes(self.pan[1]) + word_bytes(self.cursor_normalized[0])
            + word_bytes(self.cursor_normalized[1]) + word_bytes(self.scale) + word_bytes(
            self.aspect_ratio,
        ) + Seq::new(8, |i: int| 0u8)
    }

    /// Writes the block out.
    pub fn encode(&self) -> (block: Vec<u8>)
        ensures
            block@ == self.layout(),
            block@.len() == UNIFORM_BLOCK_SIZE,
    {
        let mut block: Vec<u8> = Vec::with_capacity(UNIFORM_BLOCK_SIZE);
        push_word(&mut block, self.pan[0]);
        push_word(&mut block, self.pan[1]);
        push_word(&mut block, self.cursor_normalized[0]);
        push_word(&mut block, self.cursor_normalized[1]);
        push_word(&mut block, self.scale);
        push_word(&mut block, self.aspect_ratio);
        let filled = block.len();
        let ghost words = block@;
        while block.len() < UNIFORM_BLOCK_SIZE
            invariant
                filled == 24,
                filled <= block@.len() <= UNIFORM_BLOCK_SIZE,
                block@ == words + Seq::new((block@.len() - filled) as nat, |i: int| 0u8),
            decreases UNIFORM_BLOCK_SIZE - block@.len(),
        {
            block.push(0);
        }
        block
    }
}

fn push_word(block: &mut Vec<u8>, word: u32)
    ensures
        final(block)@ == old(block)@ + word_bytes(word),
        final(block)@.len() == old(block)@.len() + 4,
{
    let b0: u8 = (word & 0xff) as u8;
    let b1: u8 = ((word >> 8) & 0xff) as u8;
    let b2: u8 = ((word >> 16) & 0xff) as u8;
    let b3: u8 = ((word >> 24) & 0xff) as u8;
    block.push(b0);
    block.push(b1);
    block.push(b2);
    block.push(b3);
    assert(block@ == old(block)@ + word_bytes(word));
}

} // verus!
