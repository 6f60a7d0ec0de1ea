use vstd::prelude::*;
use crate::text::bytes_eq;

pub mod fs;
pub mod gpio;
pub mod info;
pub mod kernel;

pub use self::fs::{FileOpen, FileWrite, GPIOPinSelector, GPIOSelector};
pub use self::info::{cpuinfo, memory};
pub use self::gpio::{
    Action, Advance, ControlFile, Course, Interest, Payload, Pin, PinInput, PinOutput,
};

verus! {

/// The signal transitions that can raise an interrupt.
#[derive(Copy, Clone, Debug, PartialEq, Eq, Structural)]
pub enum Edge {
    NoInterrupt,
    RisingEdge,
    FallingEdge,
    BothEdges,
}

/// The value of the last entry whose key is `key`, if there is one: a later
/// entry replaces an earlier one with the same key.
pub open spec fn lookup(entries: Seq<(Seq<u8>, Seq<u8>)>, key: Seq<u8>) -> Option<Seq<u8>>
    decreases entries.len(),
{
    if entries.len() == 0 {
        None
    } else if entries.last().0 == key {
        Some(entries.last().1)
    } else {
        lookup(entries.drop_last(), key)
    }
}

/// What the kernel tells about the processor: keys and values, in the
/// order in which they were read.
#[derive(Clone, Debug)]
pub struct CPUInfo(pub Vec<(Vec<u8>, Vec<u8>)>);

impl CPUInfo {
    /// The keys and values, in the order in which they were read.
    pub open spec fn entries(&self) -> Seq<(Seq<u8>, Seq<u8>)> {
        Seq::new(self.0@.len(), |i: int| (self.0@[i].0@, self.0@[i].1@))
    }

    /// Returns the value that the information holds for `key`.
    pub fn get(&self, key: &[u8]) -> (out: Option<&Vec<u8>>)
        ensures
            match lookup(self.entries(), key@) {
                Some(value) => out matches Some(found) && found@ == value,
                None => out is None,
            },
    {
        let mut i: usize = self.0.len();
        assert(self.entries().take(i as int) =~= self.entries());
        while i > 0
            invariant
                i <= self.0.len(),
                lookup(self.entries(), key@) == lookup(self.entries().take(i as int), key@),
            decreases i,
        {
            let ghost prefix = self.entries().take(i as int);
            assert(prefix.last() == self.entries()[i - 1]);
            assert(prefix.drop_last() =~= self.entries().take(i - 1));
            if bytes_eq(self.0[i - 1].0.as_slice(), key) {
                return Some(&self.0[i - 1].1);
            }
            i = i - 1;
        }
        assert(self.entries().take(0).len() == 0);
        None
    }
}

/// How much memory the system has and how it is used, in the units that
/// the report gives.
#[derive(Copy, Clone, Debug, PartialEq, Eq, Structural)]
pub struct Memory {
    pub total: u32,
    pub used: u32,
    pub free: u32,
    pub shared: u32,
    pub buffers: u32,
    pub cached: u32,
}

} // verus!
