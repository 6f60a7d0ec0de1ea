use vstd::prelude::*;
use crate::{Register, RegisterDesc};

verus! {

/// The number of 32-bit words in one mapped block of registers.
pub const BLOCK_WORDS: usize = 1024;

/// One block of register words, held in memory.
///
/// This is the state that a backend's register traffic acts on: word `i` is
/// the content of the register at word offset `i`.
pub struct MemoryMap {
    words: Vec<u32>,
}

impl View for MemoryMap {
    type V = Seq<u32>;

    closed spec fn view(&self) -> Seq<u32> {
        self.words@
    }
}

impl MemoryMap {
    #[verifier::type_invariant]
    spec fn well_formed(&self) -> bool {
        self.words@.len() == BLOCK_WORDS
    }

    /// A block whose words are all zero.
    pub fn new() -> (out: MemoryMap)
        ensures
            out@ == Seq::new(BLOCK_WORDS as nat, |i: int| 0u32),
    {
        let mut words: Vec<u32> = Vec::new();
        let mut i: usize = 0;
        while i < BLOCK_WORDS
            invariant
                i <= BLOCK_WORDS,
                words@ == Seq::new(i as nat, |k: int| 0u32),
            decreases BLOCK_WORDS - i,
        {
            words.push(0u32);
            i = i + 1;
            assert(words@ =~= Seq::new(i as nat, |k: int| 0u32));
        }
        MemoryMap { words }
    }

    /// Returns the number of words, which is the same for every block.
    pub fn len(&self) -> (out: usize)
        ensures
            out == BLOCK_WORDS,
            self@.len() == BLOCK_WORDS,
    {
        proof {
            use_type_invariant(self);
        }
        self.words.len()
    }

    /// Returns the word at `offset`.
    pub fn read(&self, offset: usize) -> (out: u32)
        requires
            offset < BLOCK_WORDS,
        ensures
            self@.len() == BLOCK_WORDS,
            out == self@[offset as int],
    {
        proof {
            use_type_invariant(self);
        }
        self.words[offset]
    }

    /// Replaces the word at `offset` and leaves every other word as it was.
    pub fn write(&mut self, offset: usize, data: u32)
        requires
            offset < BLOCK_WORDS,
        ensures
            final(self)@ == old(self)@.update(offset as int, data),
            final(self)@.len() == BLOCK_WORDS,
        no_unwind
    {
        proof {
            use_type_invariant(&*self);
        }
        self.words[offset] = data;
    }

    /// Returns an accessor that holds the present content of the register
    /// that `desc` names.
    pub fn register<R: RegisterDesc>(&self, desc: R) -> (out: Register<R>)
        requires
            0 <= desc.spec_offset() < BLOCK_WORDS,
        ensures
            out.word == self@[desc.spec_offset()],
            out.desc == desc,
    {
        let offset = desc.offset();
        Register { word: self.read(offset), desc }
    }

    /// Puts the content that `register` holds back into the block.
    pub fn store<R: RegisterDesc>(&mut self, register: &Register<R>)
        requires
            0 <= register.desc.spec_offset() < BLOCK_WORDS,
        ensures
            final(self)@ == old(self)@.update(register.desc.spec_offset(), register.word),
    {
        let offset = register.desc.offset();
        self.write(offset, register.word);
    }
}

} // verus!
