use vstd::prelude::*;
use crate::RegisterDesc;

pub mod chip;
pub mod effects;
pub mod port;
pub mod transaction;

pub use self::chip::Chip;
pub use self::port::{BusSettings, GroupInput, GroupOutput, PinInput, PinOutput, Port, MCP23S17};

pub use self::transaction::{Access, Progress, Transaction};

verus! {

/// The number of registers of the chip, both ports together.
pub const CHIP_REGISTERS: usize = 22;

/// The opcode of a frame that writes a register of the chip with hardware address zero.
pub const CMD_WRITE: usize = 0x40;

/// The opcode of a frame that reads a register of the chip with hardware address zero.
pub const CMD_READ: usize = 0x41;

/// Bit of the configuration register that has no function.
pub const IOCON_UNUSED: u8 = 0x01;

/// Bit of the configuration register: polarity of the interrupt output.
pub const IOCON_INTPOL: u8 = 0x02;

/// Bit of the configuration register: interrupt output is open-drain.
pub const IOCON_ODR: u8 = 0x04;

/// Bit of the configuration register: the hardware address pins are enabled.
pub const IOCON_HAEN: u8 = 0x08;

/// Bit of the configuration register: slew rate control is disabled.
pub const IOCON_DISSLW: u8 = 0x10;

/// Bit of the configuration register: the address pointer does not increment.
pub const IOCON_SEQOP: u8 = 0x20;

/// Bit of the configuration register: the interrupt outputs are mirrored.
pub const IOCON_MIRROR: u8 = 0x40;

/// Bit of the configuration register: the registers of each port are banked.
pub const IOCON_BANK_MODE: u8 = 0x80;

/// The registers of the port expander; each exists once for each of the two
/// ports and carries the port's index.
#[derive(Debug, Copy, Clone, PartialEq, Eq, Structural)]
pub enum MCP23X17Register {
    /// Direction: a set bit makes the line an input.
    IODIR(usize),
    /// Input polarity.
    IPOL(usize),
    /// Interrupt enable.
    GPINTEN(usize),
    /// The value that a line is compared with.
    DEFVAL(usize),
    /// Interrupt control: a set bit compares with `DEFVAL`, a clear bit with the previous level.
    INTCON(usize),
    /// Configuration of the chip.
    IOCON(usize),
    /// Pull-up enable.
    GPPU(usize),
    /// Interrupt flags.
    INTF(usize),
    /// The levels captured at the last interrupt.
    INTCAP(usize),
    /// The levels of the lines.
    GPIO(usize),
    /// The output latch.
    OLAT(usize),
}

impl RegisterDesc for MCP23X17Register {
    open spec fn spec_offset(&self) -> int {
        match *self {
            MCP23X17Register::IODIR(n) => n + 0,
            MCP23X17Register::IPOL(n) => n + 2,
            MCP23X17Register::GPINTEN(n) => n + 4,
            MCP23X17Register::DEFVAL(n) => n + 6,
            MCP23X17Register::INTCON(n) => n + 8,
            MCP23X17Register::IOCON(n) => n + 10,
            MCP23X17Register::GPPU(n) => n + 12,
            MCP23X17Register::INTF(n) => n + 14,
            MCP23X17Register::INTCAP(n) => n + 16,
            MCP23X17Register::GPIO(n) => n + 18,
            MCP23X17Register::OLAT(n) => n + 20,
        }
    }

    fn offset(&self) -> (out: usize) {
        match *self {
            MCP23X17Register::IODIR(n) => n,
            MCP23X17Register::IPOL(n) => n + 2,
            MCP23X17Register::GPINTEN(n) => n + 4,
            MCP23X17Register::DEFVAL(n) => n + 6,
            MCP23X17Register::INTCON(n) => n + 8,
            MCP23X17Register::IOCON(n) => n + 10,
            MCP23X17Register::GPPU(n) => n + 12,
            MCP23X17Register::INTF(n) => n + 14,
            MCP23X17Register::INTCAP(n) => n + 16,
            MCP23X17Register::GPIO(n) => n + 18,
            MCP23X17Register::OLAT(n) => n + 20,
        }
    }
}

/// One exchange with the chip, three bytes long: the opcode with the chip's
/// hardware address, the offset of the register, and the data to write, or a
/// placeholder where the frame reads.
#[derive(Debug, Copy, Clone, PartialEq, Eq, Structural)]
pub struct Frame {
    pub opcode: u8,
    pub register: u8,
    pub data: u8,
}

impl Frame {
    /// Returns the three bytes that go out on the bus, in their order.
    pub fn bytes(&self) -> (out: [u8; 3])
        ensures
            out@ == seq![self.opcode, self.register, self.data],
    {
        let out: [u8; 3] = [self.opcode, self.register, self.data];
        assert(out@ =~= seq![self.opcode, self.register, self.data]);
        out
    }

    /// Returns the content that the chip reports in its answer to a frame
    /// that reads: the third of the three bytes that come back.
    pub fn answer(reply: &[u8; 3]) -> (out: u8)
        ensures
            out == reply@[2],
    {
        reply[2]
    }
}

impl MCP23X17Register {
    /// The index of the port that the register belongs to.
    pub open spec fn port(&self) -> usize {
        match *self {
            MCP23X17Register::IODIR(n) => n,
            MCP23X17Register::IPOL(n) => n,
            MCP23X17Register::GPINTEN(n) => n,
            MCP23X17Register::DEFVAL(n) => n,
            MCP23X17Register::INTCON(n) => n,
            MCP23X17Register::IOCON(n) => n,
            MCP23X17Register::GPPU(n) => n,
            MCP23X17Register::INTF(n) => n,
            MCP23X17Register::INTCAP(n) => n,
            MCP23X17Register::GPIO(n) => n,
            MCP23X17Register::OLAT(n) => n,
        }
    }

    /// Whether the chip has the register: it has two ports.
    pub open spec fn on_chip(&self) -> bool {
        self.port() < 2
    }

    /// The frame that writes `value` into the register of the chip at `address`.
    pub open spec fn write_frame(&self, address: usize, value: u8) -> Frame {
        Frame {
            opcode: (CMD_WRITE + 2 * address) as u8,
            register: self.spec_offset() as u8,
            data: value,
        }
    }

    /// The frame that reads the register of the chip at `address`.
    pub open spec fn read_frame(&self, address: usize) -> Frame {
        Frame {
            opcode: (CMD_READ + 2 * address) as u8,
            register: self.spec_offset() as u8,
            data: 0,
        }
    }

    /// Tells whether the chip has the register.
    pub fn is_on_chip(&self) -> (out: bool)
        ensures
            out == self.on_chip(),
    {
        match *self {
            MCP23X17Register::IODIR(n) => n < 2,
            MCP23X17Register::IPOL(n) => n < 2,
            MCP23X17Register::GPINTEN(n) => n < 2,
            MCP23X17Register::DEFVAL(n) => n < 2,
            MCP23X17Register::INTCON(n) => n < 2,
            MCP23X17Register::IOCON(n) => n < 2,
            MCP23X17Register::GPPU(n) => n < 2,
            MCP23X17Register::INTF(n) => n < 2,
            MCP23X17Register::INTCAP(n) => n < 2,
            MCP23X17Register::GPIO(n) => n < 2,
            MCP23X17Register::OLAT(n) => n < 2,
        }
    }

    /// Returns the frame that writes `value` into the register of the chip at `address`.
    pub fn write(&self, address: usize, value: u8) -> (out: Frame)
        requires
            self.on_chip(),
            address <= MAX_ADDRESS,
        ensures
            out == self.write_frame(address, value),
    {
        proof {
            lemma_opcode(address);
        }
        Frame {
            opcode: (CMD_WRITE | (address << 1)) as u8,
            register: self.offset() as u8,
            data: value,
        }
    }

    /// Returns the frame that reads the register of the chip at `address`.
    /// The chip answers with three bytes, the third of which is the content.
    pub fn read(&self, address: usize) -> (out: Frame)
        requires
            self.on_chip(),
            address <= MAX_ADDRESS,
        ensures
            out == self.read_frame(address),
    {
        proof {
            lemma_opcode(address);
        }
        Frame {
            opcode: (CMD_READ | (address << 1)) as u8,
            register: self.offset() as u8,
            data: 0,
        }
    }
}

/// The largest hardware address that a chip is opened with.
pub const MAX_ADDRESS: usize = 8;

/// The address bits of an opcode do not meet its command bits.
pub proof fn lemma_opcode(address: usize)
    requires
        address <= MAX_ADDRESS,
    ensures
        CMD_WRITE | (address << 1) == CMD_WRITE + 2 * address,
        CMD_READ | (address << 1) == CMD_READ + 2 * address,
{
    assert(0x40usize | (address << 1) == 0x40 + 2 * address) by (bit_vector)
        requires
            address <= 8,
    ;
    assert(0x41usize | (address << 1) == 0x41 + 2 * address) by (bit_vector)
        requires
            address <= 8,
    ;
}

} // verus!
