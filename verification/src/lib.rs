//! Pin-level access to three GPIO backends: the memory-mapped block of the
//! system-on-chip, the kernel's control files, and a port expander on the
//! serial bus.
//!
//! The library works out what has to be done to the hardware and leaves the
//! doing to its caller. A claim, a write or a release comes back as a
//! sequence of register steps, of bus exchanges or of file actions, to be
//! carried out whole under the lock of the backend. What each sequence does
//! is stated against a model of the hardware that lives beside it.

use vstd::prelude::*;

pub mod bcm270x;
pub mod bits;
pub mod board;
pub mod cupi;
pub mod hat;
pub mod logic;
pub mod map;
pub mod mcp23x17;
pub mod result;
pub mod sys;
pub mod text;
pub mod time;

pub use logic::{AnalogRead, AnalogWrite, DigitalLogic, DigitalRead, DigitalWrite, Logic, Logic3};
pub use board::{
    board, Board, Hardware, RaspberryMaker, RaspberryModel, RaspberryRevision, CPU,
};
pub use cupi::CuPi;
pub use result::Error;
pub use time::{delay_hard, delay_ms, delay_usec};

verus! {

/// A logical register: something that knows its word offset within the
/// address space of its backend.
pub trait RegisterDesc {
    /// The word offset, as a mathematical integer.
    spec fn spec_offset(&self) -> int;

    /// Returns the word offset.
    fn offset(&self) -> (out: usize)
        requires
            0 <= self.spec_offset() <= usize::MAX,
        ensures
            out == self.spec_offset(),
    ;
}

/// The primitive operations on one hardware word. None of them synchronizes:
/// the caller holds the backend's lock.
pub trait RegisterOperations<T> {
    /// The content of the word.
    spec fn content(&self) -> T;

    /// The bitwise and of two words.
    spec fn and_of(word: T, data: T) -> T;

    /// The bitwise or of two words.
    spec fn or_of(word: T, data: T) -> T;

    /// The bitwise exclusive or of two words.
    spec fn xor_of(word: T, data: T) -> T;

    /// Replaces the content by `data`.
    fn write(&mut self, data: T)
        ensures
            final(self).content() == data,
    ;

    /// Returns the content.
    fn read(&self) -> (out: T)
        ensures
            out == self.content(),
    ;

    /// Clears every bit of the content that is clear in `data`.
    fn bitand(&mut self, data: T)
        ensures
            final(self).content() == Self::and_of(old(self).content(), data),
    ;

    /// Sets every bit of the content that is set in `data`.
    fn bitor(&mut self, data: T)
        ensures
            final(self).content() == Self::or_of(old(self).content(), data),
    ;

    /// Flips every bit of the content that is set in `data`.
    fn bitxor(&mut self, data: T)
        ensures
            final(self).content() == Self::xor_of(old(self).content(), data),
    ;
}

/// One 32-bit register: its content and the descriptor that names it.
pub struct Register<R: RegisterDesc> {
    pub word: u32,
    pub desc: R,
}

impl<R: RegisterDesc> RegisterOperations<u32> for Register<R> {
    open spec fn content(&self) -> u32 {
        self.word
    }

    open spec fn and_of(word: u32, data: u32) -> u32 {
        word & data
    }

    open spec fn or_of(word: u32, data: u32) -> u32 {
        word | data
    }

    open spec fn xor_of(word: u32, data: u32) -> u32 {
        word ^ data
    }

    #[inline(always)]
    fn write(&mut self, data: u32)
        ensures
            final(self).desc == old(self).desc,
    {
        self.word = data;
    }

    #[inline(always)]
    fn read(&self) -> (out: u32) {
        self.word
    }

    #[inline(always)]
    fn bitand(&mut self, data: u32)
        ensures
            final(self).desc == old(self).desc,
    {
        self.word = self.word & data;
    }

    #[inline(always)]
    fn bitor(&mut self, data: u32)
        ensures
            final(self).desc == old(self).desc,
    {
        self.word = self.word | data;
    }

    #[inline(always)]
    fn bitxor(&mut self, data: u32)
        ensures
            final(self).desc == old(self).desc,
    {
        self.word = self.word ^ data;
    }
}

/// Tells whether the process runs with the privileges of the superuser.
///
/// This asks `nix::unistd::geteuid` for the effective user of the process
/// and `Uid::is_root` whether that is the superuser. Nothing is claimed of
/// the answer: it depends on who started the process.
#[verifier::external_body]
pub fn is_root() -> bool {
    nix::unistd::geteuid().is_root()
}

} // verus!
