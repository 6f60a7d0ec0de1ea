use vstd::prelude::*;
use super::{BCM2708, BCM2709, GPIOFunctionSelect, GPIORegister, PeripheralsBase, PullUpDnControl};
use crate::board::CPU;
use crate::logic::{DigitalLogic, Logic};
use crate::result::Error;

verus! {

/// The number of lines that the GPIO block drives.
pub const GPIO_LINES: usize = 54;

/// How long each stage of the pull-up/down protocol is held, in microseconds.
/// The wait is shorter than a scheduler can sleep, so it is spent spinning.
pub const PULL_HOLD_USEC: u64 = 5;

/// One thing that the holder of the block's lock does to the block.
///
/// A claim, a write or a release is a sequence of steps. Whoever carries the
/// sequence out takes the lock once, performs every step in order, and lets
/// go of the lock after the last one, so that no other claimant sees the
/// block between two steps.
#[derive(Debug, Copy, Clone, PartialEq, Eq, Structural)]
pub enum Step {
    /// Replace the register's content by `data`.
    Write { register: GPIORegister, data: u32 },
    /// Clear the register's bits that are clear in `data`.
    BitAnd { register: GPIORegister, data: u32 },
    /// Set the register's bits that are set in `data`.
    BitOr { register: GPIORegister, data: u32 },
    /// Spin for `usec` microseconds.
    Hold { usec: u64 },
}

/// The function-select register that holds the field of line `pin`.
pub open spec fn select_register(pin: usize) -> GPIORegister {
    GPIORegister::GPIOFunctionSelect(pin / 10)
}

/// The bit at which the function-select field of line `pin` starts.
pub open spec fn select_shift(pin: usize) -> u32 {
    ((pin % 10) * 3) as u32
}

/// The index of the bank of thirty-two lines that line `pin` belongs to.
pub open spec fn bank(pin: usize) -> usize {
    pin / 32
}

/// The bit that stands for line `pin` in the registers of its bank.
pub open spec fn line_bit(pin: usize) -> u32 {
    1u32 << ((pin % 32) as u32)
}

/// The steps that give line `pin` back to the input function.
pub open spec fn release_steps(pin: usize) -> Seq<Step> {
    seq![Step::BitAnd { register: select_register(pin), data: !(7u32 << select_shift(pin)) }]
}

/// The steps that latch bias `mode` into line `pin`: the mode goes into the
/// enable register, the line's bit is clocked in, and both registers are
/// cleared again, each stage held for the protocol's delay.
pub open spec fn pull_steps(pin: usize, mode: PullUpDnControl) -> Seq<Step> {
    seq![
        Step::Write { register: GPIORegister::GPIOPinPullUpDownEnable, data: mode.spec_pud() },
        Step::Hold { usec: PULL_HOLD_USEC },
        Step::Write {
            register: GPIORegister::GPIOPinPullUpDownEnableClock(bank(pin)),
            data: line_bit(pin),
        },
        Step::Hold { usec: PULL_HOLD_USEC },
        Step::Write { register: GPIORegister::GPIOPinPullUpDownEnable, data: 0 },
        Step::Hold { usec: PULL_HOLD_USEC },
        Step::Write { register: GPIORegister::GPIOPinPullUpDownEnableClock(bank(pin)), data: 0 },
        Step::Hold { usec: PULL_HOLD_USEC },
    ]
}

/// The steps that claim line `pin` as an input: its function-select field is
/// cleared, then the bias is latched if one was asked for.
pub open spec fn input_steps(pin: usize, pull: Option<PullUpDnControl>) -> Seq<Step> {
    match pull {
        Some(mode) => release_steps(pin) + pull_steps(pin, mode),
        None => release_steps(pin),
    }
}

/// The register that drives the lines of a bank to `level` when written.
pub open spec fn drive_register(pin: usize, level: Logic) -> GPIORegister {
    match level {
        Logic::Low => GPIORegister::GPIOPinOutputClear(bank(pin)),
        Logic::High => GPIORegister::GPIOPinOutputSet(bank(pin)),
    }
}

/// The step that drives line `pin` to `level`: an absolute set or clear,
/// never a toggle.
pub open spec fn write_step(pin: usize, level: Logic) -> Step {
    Step::Write { register: drive_register(pin, level), data: line_bit(pin) }
}

/// The steps that claim line `pin` as an output. The level is put on the
/// line's latch before the function-select field is switched to output, so
/// that the line never drives the opposite level on the way.
pub open spec fn output_steps(pin: usize, value: usize) -> Seq<Step> {
    seq![
        Step::BitAnd { register: select_register(pin), data: !(7u32 << select_shift(pin)) },
        write_step(pin, Logic::of_int(value as int)),
        Step::BitOr {
            register: select_register(pin),
            data: GPIOFunctionSelect::GPIOFunctionOutput.spec_bits() << select_shift(pin),
        },
    ]
}

/// The level of line `pin` in the level word of its bank.
pub open spec fn level_in(word: u32, pin: usize) -> Logic {
    if word & line_bit(pin) == 0 {
        Logic::Low
    } else {
        Logic::High
    }
}

fn shift_of(pin: usize) -> (out: u32)
    ensures
        out == select_shift(pin),
        out <= 27,
{
    ((pin % 10) * 3) as u32
}

fn bit_of(pin: usize) -> (out: u32)
    ensures
        out == line_bit(pin),
{
    1u32 << ((pin % 32) as u32)
}

fn release_step(pin: usize) -> (out: Step)
    ensures
        out == release_steps(pin)[0],
{
    let shift = shift_of(pin);
    Step::BitAnd { register: GPIORegister::GPIOFunctionSelect(pin / 10), data: !(0b111u32 << shift) }
}

fn drive_step(pin: usize, level: Logic) -> (out: Step)
    ensures
        out == write_step(pin, level),
{
    let register = match level {
        Logic::Low => GPIORegister::GPIOPinOutputClear(pin / 32),
        Logic::High => GPIORegister::GPIOPinOutputSet(pin / 32),
    };
    Step::Write { register, data: bit_of(pin) }
}

fn push_pull_steps(steps: &mut Vec<Step>, pin: usize, mode: PullUpDnControl)
    ensures
        final(steps)@ == old(steps)@ + pull_steps(pin, mode),
{
    let enable = GPIORegister::GPIOPinPullUpDownEnable;
    let clock = GPIORegister::GPIOPinPullUpDownEnableClock(pin / 32);
    steps.push(Step::Write { register: enable, data: mode.bcm270x_pud() });
    steps.push(Step::Hold { usec: PULL_HOLD_USEC });
    steps.push(Step::Write { register: clock, data: bit_of(pin) });
    steps.push(Step::Hold { usec: PULL_HOLD_USEC });
    steps.push(Step::Write { register: enable, data: 0 });
    steps.push(Step::Hold { usec: PULL_HOLD_USEC });
    steps.push(Step::Write { register: clock, data: 0 });
    steps.push(Step::Hold { usec: PULL_HOLD_USEC });
    assert(steps@ =~= old(steps)@ + pull_steps(pin, mode));
}

/// The GPIO block of one system-on-chip: where it lies in physical memory,
/// and which of its lines are held by a live handle. There is one record
/// for each block: every claim and every release of a line goes through it.
/// A block is known by its physical address.
pub struct GPIO {
    base: usize,
    claimed: Vec<bool>,
}

impl GPIO {
    #[verifier::type_invariant]
    spec fn well_formed(&self) -> bool {
        self.claimed@.len() == GPIO_LINES
    }

    /// The physical address at which the block lies.
    pub closed spec fn base_address(&self) -> usize {
        self.base
    }

    /// Whether line `pin` is held by a live handle.
    pub closed spec fn holds(&self, pin: usize) -> bool {
        pin < self.claimed@.len() && self.claimed@[pin as int]
    }

    /// The physical address of the GPIO block of `cpu`, if the processor is known.
    pub open spec fn block_address(cpu: CPU) -> Option<usize> {
        match cpu {
            CPU::BCM2708 => Some(0x20200000usize),
            CPU::BCM2709 => Some(0x3F200000usize),
            CPU::Unknown => None,
        }
    }

    /// Describes the GPIO block of `cpu`, with no line held. An unknown
    /// processor is refused.
    pub fn new(cpu: CPU) -> (out: Result<GPIO, Error>)
        ensures
            match Self::block_address(cpu) {
                Some(address) => out matches Ok(gpio) && gpio.base_address() == address
                    && forall|pin: usize| !gpio.holds(pin),
                None => out matches Err(Error::UnsupportedHardware),
            },
    {
        let base = match cpu {
            CPU::BCM2708 => BCM2708::PERI_BASE + BCM2708::GPIO_BASE,
            CPU::BCM2709 => BCM2709::PERI_BASE + BCM2709::GPIO_BASE,
            CPU::Unknown => return Err(Error::UnsupportedHardware),
        };
        let mut claimed: Vec<bool> = Vec::new();
        let mut i: usize = 0;
        while i < GPIO_LINES
            invariant
                i <= GPIO_LINES,
                claimed@.len() == i,
                forall|k: int| 0 <= k < i ==> !claimed@[k],
            decreases GPIO_LINES - i,
        {
            claimed.push(false);
            i = i + 1;
        }
        Ok(GPIO { base, claimed })
    }

    /// Returns the physical address at which the block lies.
    pub fn base(&self) -> (out: usize)
        ensures
            out == self.base_address(),
    {
        self.base
    }

    /// Tells whether line `pin` is held by a live handle.
    pub fn is_claimed(&self, pin: usize) -> (out: bool)
        ensures
            out == self.holds(pin),
    {
        pin < self.claimed.len() && self.claimed[pin]
    }

    /// Starts the configuration of line `pin`: no bias, and low when driven.
    pub fn pin(&self, pin: usize) -> (out: PinOptions)
        ensures
            out == (PinOptions {
                pin,
                pull_ctrl: Some(PullUpDnControl::PullOff),
                default_value: 0,
            }),
    {
        PinOptions { pin, pull_ctrl: Some(PullUpDnControl::PullOff), default_value: 0 }
    }

    /// Marks line `pin` as held, unless it does not exist or is held already.
    fn claim(&mut self, pin: usize) -> (out: Result<(), Error>)
        ensures
            final(self).base_address() == old(self).base_address(),
            pin >= GPIO_LINES ==> out matches Err(Error::UnconnectedPin),
            pin < GPIO_LINES && old(self).holds(pin) ==> out matches Err(Error::AlreadyClaimed),
            pin < GPIO_LINES && !old(self).holds(pin) ==> out is Ok,
            out is Ok ==> forall|other: usize|
                final(self).holds(other) == (other == pin || old(self).holds(other)),
            out is Err ==> forall|other: usize| final(self).holds(other) == old(self).holds(other),
    {
        proof {
            use_type_invariant(&*self);
        }
        if pin >= GPIO_LINES {
            return Err(Error::UnconnectedPin);
        }
        if self.claimed[pin] {
            return Err(Error::AlreadyClaimed);
        }
        self.claimed[pin] = true;
        Ok(())
    }

    /// Marks line `pin` as free, if the handle that held it was claimed on
    /// the block at `base` and that is this block. The record of another
    /// block stays as it was.
    fn unclaim(&mut self, base: usize, pin: usize)
        ensures
            final(self).base_address() == old(self).base_address(),
            forall|other: usize|
                final(self).holds(other) == (old(self).holds(other) && !(other == pin && base
                    == old(self).base_address())),
    {
        proof {
            use_type_invariant(&*self);
        }
        if base == self.base && pin < GPIO_LINES {
            self.claimed[pin] = false;
        }
    }
}

/// What is asked of a line before it is claimed: which line, which bias when
/// it becomes an input, which level when it becomes an output.
#[derive(Debug, Copy, Clone, PartialEq, Eq, Structural)]
pub struct PinOptions {
    pub pin: usize,
    pub pull_ctrl: Option<PullUpDnControl>,
    pub default_value: usize,
}

impl PinOptions {
    /// Asks for another line.
    pub fn pin(&mut self, pin: usize) -> (out: &mut PinOptions)
        ensures
            *out == (PinOptions { pin, ..*old(self) }),
            *final(self) == *final(out),
    {
        self.pin = pin;
        self
    }

    /// Asks for the pull-up resistor.
    pub fn pull_up(&mut self) -> (out: &mut PinOptions)
        ensures
            *out == (PinOptions { pull_ctrl: Some(PullUpDnControl::PullUp), ..*old(self) }),
            *final(self) == *final(out),
    {
        self.pull_ctrl = Some(PullUpDnControl::PullUp);
        self
    }

    /// Asks for the pull-down resistor.
    pub fn pull_down(&mut self) -> (out: &mut PinOptions)
        ensures
            *out == (PinOptions { pull_ctrl: Some(PullUpDnControl::PullDown), ..*old(self) }),
            *final(self) == *final(out),
    {
        self.pull_ctrl = Some(PullUpDnControl::PullDown);
        self
    }

    /// Asks for no bias.
    pub fn pull_off(&mut self) -> (out: &mut PinOptions)
        ensures
            *out == (PinOptions { pull_ctrl: Some(PullUpDnControl::PullOff), ..*old(self) }),
            *final(self) == *final(out),
    {
        self.pull_ctrl = Some(PullUpDnControl::PullOff);
        self
    }

    /// Asks for the level that `value` stands for when the line becomes an output.
    pub fn set(&mut self, value: usize) -> (out: &mut PinOptions)
        ensures
            *out == (PinOptions { default_value: value, ..*old(self) }),
            *final(self) == *final(out),
    {
        self.default_value = value;
        self
    }

    /// Claims the line as an input.
    ///
    /// On success the line is held in `gpio` and the result carries the
    /// handle and the steps that configure the hardware. A line that the
    /// block does not have, or one that is held already, is refused and
    /// `gpio` stays as it was.
    pub fn input(&self, gpio: &mut GPIO) -> (out: Result<(PinInput, Vec<Step>), Error>)
        ensures
            final(gpio).base_address() == old(gpio).base_address(),
            self.pin >= GPIO_LINES ==> out matches Err(Error::UnconnectedPin),
            self.pin < GPIO_LINES && old(gpio).holds(self.pin) ==> out matches Err(
                Error::AlreadyClaimed,
            ),
            self.pin < GPIO_LINES && !old(gpio).holds(self.pin) ==> (out matches Ok((handle, steps))
                && handle.line() == self.pin && handle.block_address() == old(gpio).base_address()
                && steps@ == input_steps(self.pin, self.pull_ctrl)),
            out is Ok ==> forall|other: usize|
                final(gpio).holds(other) == (other == self.pin || old(gpio).holds(other)),
            out is Err ==> forall|other: usize| final(gpio).holds(other) == old(gpio).holds(other),
    {
        match gpio.claim(self.pin) {
            Err(e) => Err(e),
            Ok(()) => {
                let mut steps: Vec<Step> = Vec::new();
                steps.push(release_step(self.pin));
                assert(steps@ =~= release_steps(self.pin));
                match self.pull_ctrl {
                    Some(mode) => push_pull_steps(&mut steps, self.pin, mode),
                    None => (),
                }
                Ok((PinInput { base: gpio.base(), pin: self.pin }, steps))
            },
        }
    }

    /// Claims the line as an output that drives the configured level.
    ///
    /// On success the line is held in `gpio` and the result carries the
    /// handle and the steps that configure the hardware. A line that the
    /// block does not have, or one that is held already, is refused and
    /// `gpio` stays as it was.
    pub fn output(&self, gpio: &mut GPIO) -> (out: Result<(PinOutput, Vec<Step>), Error>)
        ensures
            final(gpio).base_address() == old(gpio).base_address(),
            self.pin >= GPIO_LINES ==> out matches Err(Error::UnconnectedPin),
            self.pin < GPIO_LINES && old(gpio).holds(self.pin) ==> out matches Err(
                Error::AlreadyClaimed,
            ),
            self.pin < GPIO_LINES && !old(gpio).holds(self.pin) ==> (out matches Ok((handle, steps))
                && handle.line() == self.pin && handle.block_address() == old(gpio).base_address()
                && steps@ == output_steps(self.pin, self.default_value)),
            out is Ok ==> forall|other: usize|
                final(gpio).holds(other) == (other == self.pin || old(gpio).holds(other)),
            out is Err ==> forall|other: usize| final(gpio).holds(other) == old(gpio).holds(other),
    {
        match gpio.claim(self.pin) {
            Err(e) => Err(e),
            Ok(()) => {
                let shift = shift_of(self.pin);
                let select = GPIORegister::GPIOFunctionSelect(self.pin / 10);
                let level = self.default_value.logic_level();
                let bits = GPIOFunctionSelect::GPIOFunctionOutput.bits();
                let mut steps: Vec<Step> = Vec::new();
                steps.push(release_step(self.pin));
                steps.push(drive_step(self.pin, level));
                steps.push(Step::BitOr { register: select, data: bits << shift });
                assert(steps@ =~= output_steps(self.pin, self.default_value));
                Ok((PinOutput { base: gpio.base(), pin: self.pin }, steps))
            },
        }
    }
}

/// A line that is held as an input.
#[derive(Debug)]
pub struct PinInput {
    base: usize,
    pin: usize,
}

impl PinInput {
    #[verifier::type_invariant]
    spec fn well_formed(&self) -> bool {
        self.pin < GPIO_LINES
    }

    /// The line that the handle holds.
    pub closed spec fn line(&self) -> usize {
        self.pin
    }

    /// The physical address of the block that the line was claimed on.
    pub closed spec fn block_address(&self) -> usize {
        self.base
    }

    /// Returns the physical address of the block that the line was claimed on.
    pub fn base(&self) -> (out: usize)
        ensures
            out == self.block_address(),
    {
        self.base
    }

    /// Returns the line that the handle holds, which the block has.
    pub fn pin(&self) -> (out: usize)
        ensures
            out == self.line(),
            out < GPIO_LINES,
    {
        proof {
            use_type_invariant(self);
        }
        self.pin
    }

    /// Returns the register whose content `read` takes.
    pub fn level_register(&self) -> (out: GPIORegister)
        ensures
            out == GPIORegister::GPIOPinLevel(bank(self.line())),
    {
        GPIORegister::GPIOPinLevel(self.pin / 32)
    }

    /// Returns the level of the line, given the content of the level
    /// register of its bank.
    pub fn read(&self, level_word: u32) -> (out: Logic)
        ensures
            out == level_in(level_word, self.line()),
    {
        if level_word & bit_of(self.pin) == 0 {
            Logic::Low
        } else {
            Logic::High
        }
    }

    /// Returns the steps that latch the pull-up resistor into the line.
    pub fn pull_up(&self) -> (out: Vec<Step>)
        ensures
            out@ == pull_steps(self.line(), PullUpDnControl::PullUp),
    {
        self.pull_mode(PullUpDnControl::PullUp)
    }

    /// Returns the steps that latch the pull-down resistor into the line.
    pub fn pull_down(&self) -> (out: Vec<Step>)
        ensures
            out@ == pull_steps(self.line(), PullUpDnControl::PullDown),
    {
        self.pull_mode(PullUpDnControl::PullDown)
    }

    /// Returns the steps that take the bias off the line.
    pub fn pull_off(&self) -> (out: Vec<Step>)
        ensures
            out@ == pull_steps(self.line(), PullUpDnControl::PullOff),
    {
        self.pull_mode(PullUpDnControl::PullOff)
    }

    fn pull_mode(&self, mode: PullUpDnControl) -> (out: Vec<Step>)
        ensures
            out@ == pull_steps(self.line(), mode),
    {
        let mut steps: Vec<Step> = Vec::new();
        push_pull_steps(&mut steps, self.pin, mode);
        assert(steps@ =~= pull_steps(self.pin, mode));
        steps
    }

    /// Gives the line up. A floating input is safe, so the hardware is left
    /// as it is: there are no steps to perform.
    ///
    /// The line becomes free in the record of the block that the handle was
    /// claimed on, and stays held by whoever holds it in the record of any
    /// other block.
    pub fn release(self, gpio: &mut GPIO) -> (out: Vec<Step>)
        ensures
            out@ == Seq::<Step>::empty(),
            final(gpio).base_address() == old(gpio).base_address(),
            forall|other: usize|
                final(gpio).holds(other) == (old(gpio).holds(other) && !(other == self.line()
                    && self.block_address() == old(gpio).base_address())),
    {
        gpio.unclaim(self.base, self.pin);
        Vec::new()
    }
}

/// A line that is held as an output.
#[derive(Debug)]
pub struct PinOutput {
    base: usize,
    pin: usize,
}

impl PinOutput {
    #[verifier::type_invariant]
    spec fn well_formed(&self) -> bool {
        self.pin < GPIO_LINES
    }

    /// The line that the handle holds.
    pub closed spec fn line(&self) -> usize {
        self.pin
    }

    /// The physical address of the block that the line was claimed on.
    pub closed spec fn block_address(&self) -> usize {
        self.base
    }

    /// Returns the physical address of the block that the line was claimed on.
    pub fn base(&self) -> (out: usize)
        ensures
            out == self.block_address(),
    {
        self.base
    }

    /// Returns the line that the handle holds, which the block has.
    pub fn pin(&self) -> (out: usize)
        ensures
            out == self.line(),
            out < GPIO_LINES,
    {
        proof {
            use_type_invariant(self);
        }
        self.pin
    }

    /// Returns the step that drives the line to the level that `value` stands for.
    pub fn write<L: DigitalLogic>(&self, value: L) -> (out: Step)
        ensures
            out == write_step(self.line(), value.level()),
    {
        drive_step(self.pin, value.logic_level())
    }

    /// Gives the line up, and returns the steps that put it back to the
    /// input function, so that it does not stay driven.
    ///
    /// The line becomes free in the record of the block that the handle was
    /// claimed on, and stays held by whoever holds it in the record of any
    /// other block.
    pub fn release(self, gpio: &mut GPIO) -> (out: Vec<Step>)
        ensures
            out@ == release_steps(self.line()),
            final(gpio).base_address() == old(gpio).base_address(),
            forall|other: usize|
                final(gpio).holds(other) == (old(gpio).holds(other) && !(other == self.line()
                    && self.block_address() == old(gpio).base_address())),
    {
        gpio.unclaim(self.base, self.pin);
        let mut steps: Vec<Step> = Vec::new();
        steps.push(release_step(self.pin));
        assert(steps@ =~= release_steps(self.pin));
        steps
    }
}

} // verus!
