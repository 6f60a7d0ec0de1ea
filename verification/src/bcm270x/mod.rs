use vstd::prelude::*;
use crate::RegisterDesc;

pub mod base;
pub mod effects;
pub mod gpio;

pub use self::base::{BlockState, GPIOBase};
pub use self::gpio::{PinInput, PinOptions, PinOutput, Step, GPIO};





verus! {

/// The first generation of the system-on-chip.
pub struct BCM2708;

/// The second generation of the system-on-chip.
pub struct BCM2709;

/// Where a system-on-chip places its peripherals, as seen from the ARM core.
pub trait PeripheralsBase {
    const PERI_BASE: usize;
    const GPIO_PADS: usize;
    const CLOCK_BASE: usize;
    const GPIO_BASE: usize;
    const GPIO_TIMER: usize;
    const GPIO_PWM: usize;
    const PAGE_SIZE: usize;
    const BLOCK_SIZE: usize;
}

impl PeripheralsBase for BCM2709 {
    const PERI_BASE: usize = 0x3F000000;
    const GPIO_PADS: usize = 0x00100000;
    const CLOCK_BASE: usize = 0x00101000;
    const GPIO_BASE: usize = 0x00200000;
    const GPIO_TIMER: usize = 0x0000B000;
    const GPIO_PWM: usize = 0x0020C000;
    const PAGE_SIZE: usize = 4096;
    const BLOCK_SIZE: usize = 4096;
}

impl PeripheralsBase for BCM2708 {
    const PERI_BASE: usize = 0x20000000;
    const GPIO_PADS: usize = 0x00100000;
    const CLOCK_BASE: usize = 0x00101000;
    const GPIO_BASE: usize = 0x00200000;
    const GPIO_TIMER: usize = 0x0000B000;
    const GPIO_PWM: usize = 0x0020C000;
    const PAGE_SIZE: usize = 4096;
    const BLOCK_SIZE: usize = 4096;
}

/// The registers of the GPIO block. A register that exists once per bank of
/// lines carries the bank's index.
#[derive(Debug, Copy, Clone, PartialEq, Eq, Structural)]
pub enum GPIORegister {
    /// Function select, ten lines to a word.
    GPIOFunctionSelect(usize),
    /// Output set, thirty-two lines to a word.
    GPIOPinOutputSet(usize),
    /// Output clear.
    GPIOPinOutputClear(usize),
    /// Pin level.
    GPIOPinLevel(usize),
    /// Event detect status.
    GPIOPinEventDetectStatus(usize),
    /// Rising edge detect enable.
    GPIOPinRisingEdgeDetectEnable(usize),
    /// Falling edge detect enable.
    GPIOPinFallingEdgeDetectEnable(usize),
    /// High detect enable.
    GPIOPinHighDetectEnable(usize),
    /// Low detect enable.
    GPIOPinLowDetectEnable(usize),
    /// Asynchronous rising edge detect.
    GPIOPinAsyncRisingEdgeDetect(usize),
    /// Asynchronous falling edge detect.
    GPIOPinAsyncFallingEdgeDetect(usize),
    /// Pull-up/down enable.
    GPIOPinPullUpDownEnable,
    /// Pull-up/down enable clock.
    GPIOPinPullUpDownEnableClock(usize),
}

impl RegisterDesc for GPIORegister {
    open spec fn spec_offset(&self) -> int {
        match *self {
            GPIORegister::GPIOFunctionSelect(n) => n as int,
            GPIORegister::GPIOPinOutputSet(n) => n + 7,
            GPIORegister::GPIOPinOutputClear(n) => n + 10,
            GPIORegister::GPIOPinLevel(n) => n + 13,
            GPIORegister::GPIOPinEventDetectStatus(n) => n + 16,
            GPIORegister::GPIOPinRisingEdgeDetectEnable(n) => n + 19,
            GPIORegister::GPIOPinFallingEdgeDetectEnable(n) => n + 22,
            GPIORegister::GPIOPinHighDetectEnable(n) => n + 25,
            GPIORegister::GPIOPinLowDetectEnable(n) => n + 28,
            GPIORegister::GPIOPinAsyncRisingEdgeDetect(n) => n + 31,
            GPIORegister::GPIOPinAsyncFallingEdgeDetect(n) => n + 34,
            GPIORegister::GPIOPinPullUpDownEnable => 37,
            GPIORegister::GPIOPinPullUpDownEnableClock(n) => n + 38,
        }
    }

    fn offset(&self) -> (out: usize) {
        match *self {
            GPIORegister::GPIOFunctionSelect(n) => n,
            GPIORegister::GPIOPinOutputSet(n) => n + 7,
            GPIORegister::GPIOPinOutputClear(n) => n + 10,
            GPIORegister::GPIOPinLevel(n) => n + 13,
            GPIORegister::GPIOPinEventDetectStatus(n) => n + 16,
            GPIORegister::GPIOPinRisingEdgeDetectEnable(n) => n + 19,
            GPIORegister::GPIOPinFallingEdgeDetectEnable(n) => n + 22,
            GPIORegister::GPIOPinHighDetectEnable(n) => n + 25,
            GPIORegister::GPIOPinLowDetectEnable(n) => n + 28,
            GPIORegister::GPIOPinAsyncRisingEdgeDetect(n) => n + 31,
            GPIORegister::GPIOPinAsyncFallingEdgeDetect(n) => n + 34,
            GPIORegister::GPIOPinPullUpDownEnable => 37,
            GPIORegister::GPIOPinPullUpDownEnableClock(n) => n + 38,
        }
    }
}

/// What a line is used for.
#[derive(Debug, Copy, Clone, PartialEq, Eq, Structural)]
pub enum GPIOFunctionSelect {
    GPIOFunctionInput,
    GPIOFunctionOutput,
    GPIOAlternative(usize),
}

impl GPIOFunctionSelect {
    /// The three-bit code of the function.
    pub open spec fn spec_bits(&self) -> u32 {
        match *self {
            GPIOFunctionSelect::GPIOFunctionInput => 0b000,
            GPIOFunctionSelect::GPIOFunctionOutput => 0b001,
            GPIOFunctionSelect::GPIOAlternative(n) => if n == 0 {
                0b100
            } else if n == 1 {
                0b101
            } else if n == 2 {
                0b110
            } else if n == 3 {
                0b111
            } else if n == 4 {
                0b011
            } else if n == 5 {
                0b010
            } else {
                0b000
            },
        }
    }

    /// Returns the three-bit code of the function; an alternative function
    /// that the chip does not have selects the input function.
    #[verifier::when_used_as_spec(spec_bits)]
    pub fn bits(&self) -> (out: u32)
        ensures
            out == self.spec_bits(),
            out <= 0b111,
    {
        match *self {
            GPIOFunctionSelect::GPIOFunctionInput => 0b000,
            GPIOFunctionSelect::GPIOFunctionOutput => 0b001,
            GPIOFunctionSelect::GPIOAlternative(n) => match n {
                0 => 0b100,
                1 => 0b101,
                2 => 0b110,
                3 => 0b111,
                4 => 0b011,
                5 => 0b010,
                _ => 0b000,
            },
        }
    }
}

/// The registers of the system timer.
#[derive(Debug, Copy, Clone, PartialEq, Eq, Structural)]
pub enum SystemTimerRegister {
    SystemTimerControlStatus,
    SystemTimerCounterLower,
    SystemTimerCounterHigher,
    SystemTimerCompare(usize),
}

impl RegisterDesc for SystemTimerRegister {
    open spec fn spec_offset(&self) -> int {
        match *self {
            SystemTimerRegister::SystemTimerControlStatus => 0,
            SystemTimerRegister::SystemTimerCounterLower => 1,
            SystemTimerRegister::SystemTimerCounterHigher => 2,
            SystemTimerRegister::SystemTimerCompare(n) => n + 3,
        }
    }

    fn offset(&self) -> (out: usize) {
        match *self {
            SystemTimerRegister::SystemTimerControlStatus => 0,
            SystemTimerRegister::SystemTimerCounterLower => 1,
            SystemTimerRegister::SystemTimerCounterHigher => 2,
            SystemTimerRegister::SystemTimerCompare(n) => n + 3,
        }
    }
}

/// The registers of the pulse-width modulator.
#[derive(Debug, Copy, Clone, PartialEq, Eq, Structural)]
pub enum PWMRegister {
    PWMControl,
    PWMStatus,
    PWMDMAConfiguration,
    PWMChannelRange(usize),
    PWMChannelData(usize),
    PWMFIFOInput,
}

impl RegisterDesc for PWMRegister {
    open spec fn spec_offset(&self) -> int {
        match *self {
            PWMRegister::PWMControl => 0,
            PWMRegister::PWMStatus => 1,
            PWMRegister::PWMDMAConfiguration => 2,
            PWMRegister::PWMChannelRange(n) => n * 3 + 3,
            PWMRegister::PWMChannelData(n) => n * 3 + 4,
            PWMRegister::PWMFIFOInput => 5,
        }
    }

    fn offset(&self) -> (out: usize) {
        match *self {
            PWMRegister::PWMControl => 0,
            PWMRegister::PWMStatus => 1,
            PWMRegister::PWMDMAConfiguration => 2,
            PWMRegister::PWMChannelRange(n) => n * 3 + 3,
            PWMRegister::PWMChannelData(n) => n * 3 + 4,
            PWMRegister::PWMFIFOInput => 5,
        }
    }
}

/// The registers of the general-purpose clocks.
#[derive(Debug, Copy, Clone, PartialEq, Eq, Structural)]
pub enum GPIOClockRegister {
    ClockControl(usize),
    ClockDivisors(usize),
}

impl RegisterDesc for GPIOClockRegister {
    open spec fn spec_offset(&self) -> int {
        match *self {
            GPIOClockRegister::ClockControl(n) => n * 2 + 40,
            GPIOClockRegister::ClockDivisors(n) => n * 2 + 41,
        }
    }

    fn offset(&self) -> (out: usize) {
        match *self {
            GPIOClockRegister::ClockControl(n) => n * 2 + 40,
            GPIOClockRegister::ClockDivisors(n) => n * 2 + 41,
        }
    }
}

/// The bias resistor of an input line.
#[derive(Debug, Copy, Clone, PartialEq, Eq, Structural)]
pub enum PullUpDnControl {
    PullUp,
    PullDown,
    PullOff,
}

impl PullUpDnControl {
    /// The code that the pull-up/down enable register takes for the mode.
    pub open spec fn spec_pud(&self) -> u32 {
        match *self {
            PullUpDnControl::PullOff => 0b00,
            PullUpDnControl::PullDown => 0b01,
            PullUpDnControl::PullUp => 0b10,
        }
    }

    /// Returns the code that the pull-up/down enable register takes for the mode.
    #[verifier::when_used_as_spec(spec_pud)]
    pub fn bcm270x_pud(&self) -> (out: u32)
        ensures
            out == self.spec_pud(),
    {
        match *self {
            PullUpDnControl::PullOff => 0b00,
            PullUpDnControl::PullDown => 0b01,
            PullUpDnControl::PullUp => 0b10,
        }
    }
}

} // verus!
