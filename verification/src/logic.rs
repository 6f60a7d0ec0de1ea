use vstd::prelude::*;
use crate::result::Error;

verus! {

/// A binary signal level.
#[derive(Debug, Copy, Clone, PartialEq, Eq, Structural)]
pub enum Logic {
    High,
    Low,
}

impl Logic {
    /// The opposite level.
    pub open spec fn spec_inverse(self) -> Logic {
        match self {
            Logic::High => Logic::Low,
            Logic::Low => Logic::High,
        }
    }

    /// The number that stands for the level: 1 for high, 0 for low.
    pub open spec fn bit(self) -> nat {
        match self {
            Logic::High => 1,
            Logic::Low => 0,
        }
    }

    /// The level that a number stands for: low for zero, high for anything else.
    pub open spec fn of_int(value: int) -> Logic {
        if value == 0 {
            Logic::Low
        } else {
            Logic::High
        }
    }

    /// Returns the opposite level.
    #[verifier::when_used_as_spec(spec_inverse)]
    pub fn inverse(self) -> (out: Logic)
        ensures
            out == self.spec_inverse(),
    {
        match self {
            Logic::High => Logic::Low,
            Logic::Low => Logic::High,
        }
    }

    /// The text that the level is written as: its number.
    pub open spec fn spec_str(self) -> &'static str {
        match self {
            Logic::High => "1",
            Logic::Low => "0",
        }
    }

    /// Returns the text that the level is written as: `"1"` or `"0"`.
    pub fn as_str(self) -> (out: &'static str)
        ensures
            out == self.spec_str(),
    {
        match self {
            Logic::High => "1",
            Logic::Low => "0",
        }
    }

    /// The ASCII digit that the kernel's value file uses for the level.
    pub open spec fn spec_digit(self) -> u8 {
        match self {
            Logic::High => 0x31,
            Logic::Low => 0x30,
        }
    }

    /// Returns the ASCII digit of the level, `b'1'` or `b'0'`.
    #[verifier::when_used_as_spec(spec_digit)]
    pub fn digit(self) -> (out: u8)
        ensures
            out == self.spec_digit(),
            out == 0x30 + self.bit(),
    {
        match self {
            Logic::High => 0x31,
            Logic::Low => 0x30,
        }
    }
}

impl From<Logic> for usize {
    fn from(level: Logic) -> (out: usize) {
        match level {
            Logic::High => 1,
            Logic::Low => 0,
        }
    }
}

impl vstd::std_specs::convert::FromSpecImpl<Logic> for usize {
    open spec fn obeys_from_spec() -> bool {
        true
    }

    open spec fn from_spec(level: Logic) -> usize {
        level.bit() as usize
    }
}

/// A signal level on a line that may also be left undriven.
#[derive(Debug, Copy, Clone, PartialEq, Eq, Structural)]
pub enum Logic3 {
    High,
    Low,
    Z,
}

/// Anything that can be read as a signal level.
pub trait DigitalLogic {
    /// The level that the value stands for.
    spec fn level(&self) -> Logic;

    /// Returns the level that the value stands for.
    fn logic_level(&self) -> (out: Logic)
        ensures
            out == self.level(),
    ;
}

impl DigitalLogic for i32 {
    open spec fn level(&self) -> Logic {
        Logic::of_int(*self as int)
    }

    fn logic_level(&self) -> (out: Logic) {
        if *self == 0 {
            Logic::Low
        } else {
            Logic::High
        }
    }
}

impl DigitalLogic for u32 {
    open spec fn level(&self) -> Logic {
        Logic::of_int(*self as int)
    }

    fn logic_level(&self) -> (out: Logic) {
        if *self == 0 {
            Logic::Low
        } else {
            Logic::High
        }
    }
}

impl DigitalLogic for isize {
    open spec fn level(&self) -> Logic {
        Logic::of_int(*self as int)
    }

    fn logic_level(&self) -> (out: Logic) {
        if *self == 0 {
            Logic::Low
        } else {
            Logic::High
        }
    }
}

impl DigitalLogic for usize {
    open spec fn level(&self) -> Logic {
        Logic::of_int(*self as int)
    }

    fn logic_level(&self) -> (out: Logic) {
        if *self == 0 {
            Logic::Low
        } else {
            Logic::High
        }
    }
}

impl DigitalLogic for Logic {
    open spec fn level(&self) -> Logic {
        *self
    }

    fn logic_level(&self) -> (out: Logic) {
        *self
    }
}

/// Whether a reading is high; a failed reading stays the failure it was.
pub open spec fn reading_high(reading: Result<Logic, Error>) -> Result<bool, Error> {
    match reading {
        Ok(level) => Ok(level == Logic::High),
        Err(e) => Err(e),
    }
}

/// Whether a reading is low; a failed reading stays the failure it was.
pub open spec fn reading_low(reading: Result<Logic, Error>) -> Result<bool, Error> {
    match reading {
        Ok(level) => Ok(level == Logic::Low),
        Err(e) => Err(e),
    }
}

/// Tells whether a reading is high, passing a failure on unchanged.
pub fn is_high_reading(reading: Result<Logic, Error>) -> (out: Result<bool, Error>)
    ensures
        out == reading_high(reading),
{
    match reading {
        Ok(Logic::High) => Ok(true),
        Ok(Logic::Low) => Ok(false),
        Err(e) => Err(e),
    }
}

/// Tells whether a reading is low, passing a failure on unchanged.
pub fn is_low_reading(reading: Result<Logic, Error>) -> (out: Result<bool, Error>)
    ensures
        out == reading_low(reading),
{
    match reading {
        Ok(Logic::High) => Ok(false),
        Ok(Logic::Low) => Ok(true),
        Err(e) => Err(e),
    }
}

/// A line whose level can be sampled.
///
/// The implementor says through `sampled` what one sample may do to the
/// device and what it may return; the provided methods are stated over it.
pub trait DigitalRead: Sized {
    /// Whether one sample can take the device from `pre` to `post` and
    /// return `reading`. An implementor that says nothing allows everything.
    open spec fn sampled(pre: Self, post: Self, reading: Result<Logic, Error>) -> bool {
        true
    }

    /// Samples the line once.
    fn digital_read(&mut self) -> (out: Result<Logic, Error>)
        ensures
            Self::sampled(*old(self), *final(self), out),
    ;

    /// Samples the line once.
    fn get(&mut self) -> (out: Result<Logic, Error>)
        ensures
            Self::sampled(*old(self), *final(self), out),
    {
        self.digital_read()
    }

    /// Samples the line once and tells whether it was high.
    fn is_high(&mut self) -> (out: Result<bool, Error>)
        ensures
            exists|reading: Result<Logic, Error>|
                #[trigger] Self::sampled(*old(self), *final(self), reading) && out == reading_high(
                    reading,
                ),
    {
        let reading = self.digital_read();
        is_high_reading(reading)
    }

    /// Samples the line once and tells whether it was low.
    fn is_low(&mut self) -> (out: Result<bool, Error>)
        ensures
            exists|reading: Result<Logic, Error>|
                #[trigger] Self::sampled(*old(self), *final(self), reading) && out == reading_low(
                    reading,
                ),
    {
        let reading = self.digital_read();
        is_low_reading(reading)
    }
}

/// A line that can be driven to a level.
///
/// The implementor says through `driven` what driving the line may do to the
/// device and what it may return; the provided methods are stated over it.
pub trait DigitalWrite: Sized {
    /// Whether driving the line to `level` can take the device from `pre` to
    /// `post` and return `outcome`. An implementor that says nothing allows
    /// everything.
    open spec fn driven(pre: Self, level: Logic, post: Self, outcome: Result<(), Error>) -> bool {
        true
    }

    /// Drives the line to the level that `level` stands for.
    fn digital_write<L: DigitalLogic>(&mut self, level: L) -> (out: Result<(), Error>)
        ensures
            Self::driven(*old(self), level.level(), *final(self), out),
    ;

    /// Drives the line to the level that `level` stands for.
    fn set<L: DigitalLogic>(&mut self, level: L) -> (out: Result<(), Error>)
        ensures
            Self::driven(*old(self), level.level(), *final(self), out),
    {
        self.digital_write(level)
    }

    /// Drives the line high.
    fn high(&mut self) -> (out: Result<(), Error>)
        ensures
            Self::driven(*old(self), Logic::High, *final(self), out),
    {
        self.digital_write(Logic::High)
    }

    /// Drives the line low.
    fn low(&mut self) -> (out: Result<(), Error>)
        ensures
            Self::driven(*old(self), Logic::Low, *final(self), out),
    {
        self.digital_write(Logic::Low)
    }
}

/// A line whose analog value can be sampled.
pub trait AnalogRead {
    /// Samples the analog value.
    fn analog_read(&self) -> usize;
}

/// A line that can be driven to an analog value.
pub trait AnalogWrite {
    /// Drives the line to `value`.
    fn analog_write(&self, value: usize);
}

/// Inverting a level twice gives the level back, and inverting once never does.
pub proof fn lemma_inverse_involution(level: Logic)
    ensures
        level.inverse().inverse() == level,
        level.inverse() != level,
        Logic::High != Logic::Low,
{
}

/// A number and the level it stands for agree: converting a level to its
/// number and back gives the level, and only zero reads as low.
pub proof fn lemma_level_of_number(level: Logic, value: int)
    ensures
        Logic::of_int(level.bit() as int) == level,
        Logic::of_int(value) == Logic::Low <==> value == 0,
{
}

} // verus!
