use vstd::prelude::*;
use super::transaction::{Access, Progress, Transaction};
use super::{MCP23X17Register, IOCON_HAEN, IOCON_SEQOP, MAX_ADDRESS};
use crate::logic::{DigitalLogic, Logic};
use crate::result::Error;
use crate::sys::Edge;

verus! {

/// The number of lines of one port.
pub const PORT_LINES: usize = 8;

/// How the serial bus is set up before the chip is spoken to.
#[derive(Debug, Copy, Clone, PartialEq, Eq, Structural)]
pub struct BusSettings {
    pub bits_per_word: u8,
    pub max_speed_hz: u32,
    pub mode: u8,
}

/// The bit that stands for line `pin` in the registers of its port.
pub open spec fn pin_mask(pin: usize) -> u8 {
    1u8 << (pin as u8)
}

/// The accesses that configure a chip after it was opened: on both ports the
/// address pointer is held and the hardware address pins are enabled.
pub open spec fn init_accesses() -> Seq<Access> {
    seq![
        Access::Write { register: MCP23X17Register::IOCON(0), value: IOCON_SEQOP | IOCON_HAEN },
        Access::Write { register: MCP23X17Register::IOCON(1), value: IOCON_SEQOP | IOCON_HAEN },
    ]
}

/// The access that sets the bits of `mask` in a register where `high` holds,
/// and clears them where it does not.
pub open spec fn mask_access(register: MCP23X17Register, mask: u8, high: bool) -> Access {
    if high {
        Access::Update { register, set: mask, clear: 0 }
    } else {
        Access::Update { register, set: 0, clear: mask }
    }
}

/// The access that reads a register and writes back what it read.
pub open spec fn keep_access(register: MCP23X17Register) -> Access {
    Access::Update { register, set: 0, clear: 0 }
}

/// The accesses that make the lines of `mask` inputs, or outputs: a set
/// direction bit is an input.
pub open spec fn direction_accesses(port: usize, mask: u8, input: bool) -> Seq<Access> {
    seq![mask_access(MCP23X17Register::IODIR(port), mask, input)]
}

/// The accesses that switch the pull-up resistors of the lines of `mask` on or off.
pub open spec fn pull_accesses(port: usize, mask: u8, up: bool) -> Seq<Access> {
    seq![mask_access(MCP23X17Register::GPPU(port), mask, up)]
}

/// The accesses that read the levels of a port.
pub open spec fn read_accesses(port: usize) -> Seq<Access> {
    seq![Access::Read { register: MCP23X17Register::GPIO(port) }]
}

/// The accesses that drive the lines of `mask` to `level`. The register is
/// read first because it holds the latch of all eight lines.
pub open spec fn write_accesses(port: usize, mask: u8, level: Logic) -> Seq<Access> {
    seq![mask_access(MCP23X17Register::GPIO(port), mask, level == Logic::High)]
}

/// The access to the register that a line is compared with: high for a
/// rising edge, low for a falling edge, untouched otherwise.
pub open spec fn defval_access(port: usize, mask: u8, edge: Edge) -> Access {
    match edge {
        Edge::RisingEdge => mask_access(MCP23X17Register::DEFVAL(port), mask, true),
        Edge::FallingEdge => mask_access(MCP23X17Register::DEFVAL(port), mask, false),
        Edge::BothEdges => keep_access(MCP23X17Register::DEFVAL(port)),
        Edge::NoInterrupt => keep_access(MCP23X17Register::DEFVAL(port)),
    }
}

/// The access to the register that chooses what a line is compared with:
/// the compare value for a single edge, the previous level for both edges,
/// untouched where interrupts are switched off.
pub open spec fn intcon_access(port: usize, mask: u8, edge: Edge) -> Access {
    match edge {
        Edge::RisingEdge => mask_access(MCP23X17Register::INTCON(port), mask, true),
        Edge::FallingEdge => mask_access(MCP23X17Register::INTCON(port), mask, true),
        Edge::BothEdges => mask_access(MCP23X17Register::INTCON(port), mask, false),
        Edge::NoInterrupt => keep_access(MCP23X17Register::INTCON(port)),
    }
}

/// The access to the register that enables the interrupt of a line: on for
/// every edge, off where interrupts are switched off.
pub open spec fn gpinten_access(port: usize, mask: u8, edge: Edge) -> Access {
    mask_access(MCP23X17Register::GPINTEN(port), mask, edge != Edge::NoInterrupt)
}

/// The accesses that make the lines of `mask` raise an interrupt on `edge`.
/// The chip has no notion of an edge; it is put together from the compare
/// value, the compare mode and the enable bits, in that order.
pub open spec fn interrupt_accesses(port: usize, mask: u8, edge: Edge) -> Seq<Access> {
    seq![
        defval_access(port, mask, edge),
        intcon_access(port, mask, edge),
        gpinten_access(port, mask, edge),
    ]
}

fn mask_of(pin: usize) -> (out: u8)
    requires
        pin < PORT_LINES,
    ensures
        out == pin_mask(pin),
{
    1u8 << (pin as u8)
}

fn masking(register: MCP23X17Register, mask: u8, high: bool) -> (out: Access)
    ensures
        out == mask_access(register, mask, high),
{
    if high {
        Access::Update { register, set: mask, clear: 0 }
    } else {
        Access::Update { register, set: 0, clear: mask }
    }
}

fn single(address: usize, access: Access, best_effort: bool) -> (out: Transaction)
    requires
        address <= MAX_ADDRESS,
        access.register().on_chip(),
    ensures
        out@ == Progress::fresh(address, seq![access], best_effort),
{
    let mut accesses: Vec<Access> = Vec::new();
    accesses.push(access);
    assert(accesses@ =~= seq![access]);
    Transaction::make(address, accesses, best_effort)
}

/// One port expander on the serial bus, and the lines of its two ports
/// that are held by a live handle. There is one record for each chip: every
/// claim and every release of a line of the chip goes through it, whichever
/// view of a port it comes by. A chip is known by its hardware address, so
/// one bus has one record for each address.
pub struct MCP23S17 {
    address: usize,
    held_a: u8,
    held_b: u8,
}

impl MCP23S17 {
    #[verifier::type_invariant]
    spec fn well_formed(&self) -> bool {
        self.address <= MAX_ADDRESS
    }

    /// The hardware address of the chip.
    pub closed spec fn chip_address(&self) -> usize {
        self.address
    }

    /// The lines of port `port` that are held, one bit for each. A port
    /// that the chip does not have has none.
    pub closed spec fn held(&self, port: usize) -> u8 {
        if port == 0 {
            self.held_a
        } else if port == 1 {
            self.held_b
        } else {
            0
        }
    }

    /// Returns the hardware address of the chip.
    pub fn address(&self) -> (out: usize)
        ensures
            out == self.chip_address(),
            out <= MAX_ADDRESS,
    {
        proof {
            use_type_invariant(self);
        }
        self.address
    }

    /// Returns the lines of port `port` that are held, one bit for each.
    pub fn claimed(&self, port: usize) -> (out: u8)
        ensures
            out == self.held(port),
    {
        if port == 0 {
            self.held_a
        } else if port == 1 {
            self.held_b
        } else {
            0
        }
    }

    /// Returns the setup of the bus that the chip is spoken to on: four
    /// megahertz, mode zero, eight bits to the word.
    pub fn settings() -> (out: BusSettings)
        ensures
            out == (BusSettings { bits_per_word: 8, max_speed_hz: 4_000_000, mode: 0 }),
    {
        BusSettings { bits_per_word: 8, max_speed_hz: 4_000_000, mode: 0 }
    }

    /// Describes the chip at `address`, with no line held, and returns with
    /// it the transaction that configures the chip.
    pub fn new(address: usize) -> (out: (MCP23S17, Transaction))
        requires
            address <= MAX_ADDRESS,
        ensures
            out.0.chip_address() == address,
            forall|port: usize| out.0.held(port) == 0,
            out.1@ == Progress::fresh(address, init_accesses(), false),
    {
        let value = IOCON_SEQOP | IOCON_HAEN;
        let mut accesses: Vec<Access> = Vec::new();
        accesses.push(Access::Write { register: MCP23X17Register::IOCON(0), value });
        accesses.push(Access::Write { register: MCP23X17Register::IOCON(1), value });
        assert(accesses@ =~= init_accesses());
        (MCP23S17 { address, held_a: 0, held_b: 0 }, Transaction::make(address, accesses, false))
    }

    /// Returns the first port of the chip.
    pub fn porta(&self) -> (out: Port)
        ensures
            out.index() == 0,
    {
        Port { port: 0 }
    }

    /// Returns the second port of the chip.
    pub fn portb(&self) -> (out: Port)
        ensures
            out.index() == 1,
    {
        Port { port: 1 }
    }

    /// Marks the lines of `mask` of port `port` as held, unless one of them
    /// is held already.
    fn claim(&mut self, port: usize, mask: u8) -> (out: Result<(), Error>)
        requires
            port < 2,
        ensures
            final(self).chip_address() == old(self).chip_address(),
            final(self).chip_address() <= MAX_ADDRESS,
            forall|other: usize| other != port ==> final(self).held(other) == old(self).held(other),
            old(self).held(port) & mask != 0 ==> out matches Err(Error::AlreadyClaimed),
            old(self).held(port) & mask != 0 ==> final(self).held(port) == old(self).held(port),
            old(self).held(port) & mask == 0 ==> out is Ok,
            old(self).held(port) & mask == 0 ==> final(self).held(port) == old(self).held(port)
                | mask,
    {
        proof {
            use_type_invariant(&*self);
        }
        let held = if port == 0 {
            self.held_a
        } else {
            self.held_b
        };
        if held & mask != 0 {
            Err(Error::AlreadyClaimed)
        } else {
            if port == 0 {
                self.held_a = held | mask;
            } else {
                self.held_b = held | mask;
            }
            Ok(())
        }
    }

    /// Marks the lines of `mask` of port `port` as free, if the handle that
    /// held them was claimed on a chip at `address` and that is this chip.
    /// The record of another chip stays as it was.
    fn unclaim(&mut self, address: usize, port: usize, mask: u8)
        requires
            port < 2,
        ensures
            final(self).chip_address() == old(self).chip_address(),
            forall|other: usize| other != port ==> final(self).held(other) == old(self).held(other),
            final(self).held(port) == released(old(self).chip_address(), old(self).held(port), address, mask),
    {
        proof {
            use_type_invariant(&*self);
        }
        if address == self.address {
            if port == 0 {
                self.held_a = self.held_a & !mask;
            } else {
                self.held_b = self.held_b & !mask;
            }
        }
    }
}

/// The lines that a record of the chip at `chip` holds after a handle that
/// was claimed on the chip at `address` gave up the lines of `mask`: they
/// are free if it is the same chip, and nothing changes if it is another.
pub open spec fn released(chip: usize, held: u8, address: usize, mask: u8) -> u8 {
    if address == chip {
        held & !mask
    } else {
        held
    }
}

/// One of the two eight-line ports of a chip. A port holds no state of its
/// own: the record of the held lines is the chip's.
#[derive(Debug, Copy, Clone, PartialEq, Eq)]
pub struct Port {
    port: usize,
}

impl Port {
    #[verifier::type_invariant]
    spec fn well_formed(&self) -> bool {
        self.port < 2
    }

    /// The index of the port on its chip.
    pub closed spec fn index(&self) -> usize {
        self.port
    }

    /// Returns the index of the port on its chip.
    pub fn port(&self) -> (out: usize)
        ensures
            out == self.index(),
            out < 2,
    {
        proof {
            use_type_invariant(self);
        }
        self.port
    }

    /// Claims line `pin` as an input. A line that is held already is
    /// refused, and the record of the chip stays as it was.
    pub fn input(&self, chip: &mut MCP23S17, pin: usize) -> (out: Result<(PinInput, Transaction), Error>)
        requires
            pin < PORT_LINES,
        ensures
            final(chip).chip_address() == old(chip).chip_address(),
            forall|other: usize|
                other != self.index() ==> final(chip).held(other) == old(chip).held(other),
            old(chip).held(self.index()) & pin_mask(pin) != 0 ==> out matches Err(Error::AlreadyClaimed),
            old(chip).held(self.index()) & pin_mask(pin) != 0 ==> final(chip).held(self.index()) == old(
                chip,
            ).held(self.index()),
            old(chip).held(self.index()) & pin_mask(pin) == 0 ==> final(chip).held(self.index()) == old(
                chip,
            ).held(self.index()) | pin_mask(pin),
            old(chip).held(self.index()) & pin_mask(pin) == 0 ==> (out matches Ok((handle, transaction))
                && handle.chip_address() == old(chip).chip_address() && handle.line() == pin
                && handle.port_index() == self.index() && transaction@ == Progress::fresh(
                old(chip).chip_address(),
                direction_accesses(self.index(), pin_mask(pin), true),
                false,
            )),
    {
        proof {
            use_type_invariant(self);
        }
        let address = chip.address();
        let mask = mask_of(pin);
        match chip.claim(self.port, mask) {
            Err(e) => Err(e),
            Ok(()) => {
                let access = masking(MCP23X17Register::IODIR(self.port), mask, true);
                let transaction = single(address, access, false);
                Ok((PinInput { address, port: self.port, pin }, transaction))
            },
        }
    }

    /// Claims line `pin` as an output. A line that is held already is
    /// refused, and the record of the chip stays as it was.
    pub fn output(&self, chip: &mut MCP23S17, pin: usize) -> (out: Result<(PinOutput, Transaction), Error>)
        requires
            pin < PORT_LINES,
        ensures
            final(chip).chip_address() == old(chip).chip_address(),
            forall|other: usize|
                other != self.index() ==> final(chip).held(other) == old(chip).held(other),
            old(chip).held(self.index()) & pin_mask(pin) != 0 ==> out matches Err(Error::AlreadyClaimed),
            old(chip).held(self.index()) & pin_mask(pin) != 0 ==> final(chip).held(self.index()) == old(
                chip,
            ).held(self.index()),
            old(chip).held(self.index()) & pin_mask(pin) == 0 ==> final(chip).held(self.index()) == old(
                chip,
            ).held(self.index()) | pin_mask(pin),
            old(chip).held(self.index()) & pin_mask(pin) == 0 ==> (out matches Ok((handle, transaction))
                && handle.chip_address() == old(chip).chip_address() && handle.line() == pin
                && handle.port_index() == self.index() && transaction@ == Progress::fresh(
                old(chip).chip_address(),
                direction_accesses(self.index(), pin_mask(pin), false),
                false,
            )),
    {
        proof {
            use_type_invariant(self);
        }
        let address = chip.address();
        let mask = mask_of(pin);
        match chip.claim(self.port, mask) {
            Err(e) => Err(e),
            Ok(()) => {
                let access = masking(MCP23X17Register::IODIR(self.port), mask, false);
                let transaction = single(address, access, false);
                Ok((PinOutput { address, port: self.port, pin }, transaction))
            },
        }
    }

    /// Claims the lines of `mask` as outputs together. A mask with a line that is held already is
    /// refused, and the record of the chip stays as it was.
    pub fn group_output(&self, chip: &mut MCP23S17, mask: u8) -> (out: Result<(GroupOutput, Transaction), Error>)
        ensures
            final(chip).chip_address() == old(chip).chip_address(),
            forall|other: usize|
                other != self.index() ==> final(chip).held(other) == old(chip).held(other),
            old(chip).held(self.index()) & mask != 0 ==> out matches Err(Error::AlreadyClaimed),
            old(chip).held(self.index()) & mask != 0 ==> final(chip).held(self.index()) == old(
                chip,
            ).held(self.index()),
            old(chip).held(self.index()) & mask == 0 ==> final(chip).held(self.index()) == old(
                chip,
            ).held(self.index()) | mask,
            old(chip).held(self.index()) & mask == 0 ==> (out matches Ok((handle, transaction))
                && handle.chip_address() == old(chip).chip_address() && handle.lines() == mask
                && handle.port_index() == self.index() && transaction@ == Progress::fresh(
                old(chip).chip_address(),
                direction_accesses(self.index(), mask, false),
                false,
            )),
    {
        proof {
            use_type_invariant(self);
        }
        let address = chip.address();
        match chip.claim(self.port, mask) {
            Err(e) => Err(e),
            Ok(()) => {
                let access = masking(MCP23X17Register::IODIR(self.port), mask, false);
                let transaction = single(address, access, false);
                Ok((GroupOutput { address, port: self.port, mask }, transaction))
            },
        }
    }

    /// Claims the lines of `mask` as inputs together. A mask with a line that is held already is
    /// refused, and the record of the chip stays as it was.
    pub fn group_input(&self, chip: &mut MCP23S17, mask: u8) -> (out: Result<(GroupInput, Transaction), Error>)
        ensures
            final(chip).chip_address() == old(chip).chip_address(),
            forall|other: usize|
                other != self.index() ==> final(chip).held(other) == old(chip).held(other),
            old(chip).held(self.index()) & mask != 0 ==> out matches Err(Error::AlreadyClaimed),
            old(chip).held(self.index()) & mask != 0 ==> final(chip).held(self.index()) == old(
                chip,
            ).held(self.index()),
            old(chip).held(self.index()) & mask == 0 ==> final(chip).held(self.index()) == old(
                chip,
            ).held(self.index()) | mask,
            old(chip).held(self.index()) & mask == 0 ==> (out matches Ok((handle, transaction))
                && handle.chip_address() == old(chip).chip_address() && handle.lines() == mask
                && handle.port_index() == self.index() && transaction@ == Progress::fresh(
                old(chip).chip_address(),
                direction_accesses(self.index(), mask, true),
                false,
            )),
    {
        proof {
            use_type_invariant(self);
        }
        let address = chip.address();
        match chip.claim(self.port, mask) {
            Err(e) => Err(e),
            Ok(()) => {
                let access = masking(MCP23X17Register::IODIR(self.port), mask, true);
                let transaction = single(address, access, false);
                Ok((GroupInput { address, port: self.port, mask }, transaction))
            },
        }
    }
}

/// One line of a port that is held as an input.
#[derive(Debug)]
pub struct PinInput {
    address: usize,
    port: usize,
    pin: usize,
}

impl PinInput {
    #[verifier::type_invariant]
    spec fn well_formed(&self) -> bool {
        self.address <= MAX_ADDRESS && self.port < 2 && self.pin < PORT_LINES
    }

    /// The hardware address of the chip.
    pub closed spec fn chip_address(&self) -> usize {
        self.address
    }

    /// The index of the port on its chip.
    pub closed spec fn port_index(&self) -> usize {
        self.port
    }

    /// The line that the handle holds.
    pub closed spec fn line(&self) -> usize {
        self.pin
    }

    /// Returns the hardware address of the chip.
    pub fn address(&self) -> (out: usize)
        ensures
            out == self.chip_address(),
    {
        self.address
    }

    /// Returns the index of the port on its chip.
    pub fn port(&self) -> (out: usize)
        ensures
            out == self.port_index(),
    {
        self.port
    }

    /// Returns the line that the handle holds.
    pub fn pin(&self) -> (out: usize)
        ensures
            out == self.line(),
    {
        self.pin
    }

    /// Returns the transaction that switches the pull-up resistor of the line on.
    pub fn pull_up(&self) -> (out: Transaction)
        ensures
            out@ == Progress::fresh(self.chip_address(), pull_accesses(self.port_index(), pin_mask(self.line()), true), false),
    {
        proof {
            use_type_invariant(self);
        }
        let access = masking(MCP23X17Register::GPPU(self.port), mask_of(self.pin), true);
        single(self.address, access, false)
    }

    /// Returns the transaction that switches the pull-up resistor of the line off.
    pub fn pull_off(&self) -> (out: Transaction)
        ensures
            out@ == Progress::fresh(self.chip_address(), pull_accesses(self.port_index(), pin_mask(self.line()), false), false),
    {
        proof {
            use_type_invariant(self);
        }
        let access = masking(MCP23X17Register::GPPU(self.port), mask_of(self.pin), false);
        single(self.address, access, false)
    }

    /// Returns the transaction that reads the levels of the port. Its result
    /// is what `level` takes.
    pub fn digital_read(&self) -> (out: Transaction)
        ensures
            out@ == Progress::fresh(self.chip_address(), read_accesses(self.port_index()), false),
    {
        proof {
            use_type_invariant(self);
        }
        single(self.address, Access::Read { register: MCP23X17Register::GPIO(self.port) }, false)
    }

    /// Returns the level of the line, given the levels of its port.
    pub fn level(&self, levels: u8) -> (out: Logic)
        ensures
            out == (if levels & pin_mask(self.line()) == 0 {
                Logic::Low
            } else {
                Logic::High
            }),
    {
        proof {
            use_type_invariant(self);
        }
        if levels & mask_of(self.pin) == 0 {
            Logic::Low
        } else {
            Logic::High
        }
    }

    /// Gives the line up in the record of its chip. An input is safe as it is:
    /// nothing is exchanged.
    ///
    /// The lines become free in the record of the chip that the handle was
    /// claimed on, and stay held by whoever holds them in the record of
    /// any other chip.
    pub fn release(self, chip: &mut MCP23S17)
        ensures
            final(chip).chip_address() == old(chip).chip_address(),
            forall|other: usize|
                other != self.port_index() ==> final(chip).held(other) == old(chip).held(other),
            final(chip).held(self.port_index()) == released(
                old(chip).chip_address(),
                old(chip).held(self.port_index()),
                self.chip_address(),
                pin_mask(self.line()),
            ),
    {
        proof {
            use_type_invariant(&self);
        }
        chip.unclaim(self.address, self.port, mask_of(self.pin));
    }
}

/// One line of a port that is held as an output.
#[derive(Debug)]
pub struct PinOutput {
    address: usize,
    port: usize,
    pin: usize,
}

impl PinOutput {
    #[verifier::type_invariant]
    spec fn well_formed(&self) -> bool {
        self.address <= MAX_ADDRESS && self.port < 2 && self.pin < PORT_LINES
    }

    /// The hardware address of the chip.
    pub closed spec fn chip_address(&self) -> usize {
        self.address
    }

    /// The index of the port on its chip.
    pub closed spec fn port_index(&self) -> usize {
        self.port
    }

    /// The line that the handle holds.
    pub closed spec fn line(&self) -> usize {
        self.pin
    }

    /// Returns the hardware address of the chip.
    pub fn address(&self) -> (out: usize)
        ensures
            out == self.chip_address(),
    {
        self.address
    }

    /// Returns the index of the port on its chip.
    pub fn port(&self) -> (out: usize)
        ensures
            out == self.port_index(),
    {
        self.port
    }

    /// Returns the line that the handle holds.
    pub fn pin(&self) -> (out: usize)
        ensures
            out == self.line(),
    {
        self.pin
    }

    /// Returns the transaction that drives the line to the level that
    /// `level` stands for.
    pub fn digital_write<L: DigitalLogic>(&self, level: L) -> (out: Transaction)
        ensures
            out@ == Progress::fresh(
                self.chip_address(),
                write_accesses(self.port_index(), pin_mask(self.line()), level.level()),
                false,
            ),
    {
        proof {
            use_type_invariant(self);
        }
        let high = match level.logic_level() {
            Logic::High => true,
            Logic::Low => false,
        };
        let access = masking(MCP23X17Register::GPIO(self.port), mask_of(self.pin), high);
        single(self.address, access, false)
    }

    /// Gives the line up in the record of its chip. The transaction that comes back
    /// makes them inputs again; it is best-effort, because a release does
    /// not fail.
    ///
    /// The lines become free in the record of the chip that the handle was
    /// claimed on, and stay held by whoever holds them in the record of
    /// any other chip.
    pub fn release(self, chip: &mut MCP23S17) -> (out: Transaction)
        ensures
            final(chip).chip_address() == old(chip).chip_address(),
            forall|other: usize|
                other != self.port_index() ==> final(chip).held(other) == old(chip).held(other),
            final(chip).held(self.port_index()) == released(
                old(chip).chip_address(),
                old(chip).held(self.port_index()),
                self.chip_address(),
                pin_mask(self.line()),
            ),
            out@ == Progress::fresh(
                self.chip_address(),
                direction_accesses(self.port_index(), pin_mask(self.line()), true),
                true,
            ),
    {
        proof {
            use_type_invariant(&self);
        }
        let mask = mask_of(self.pin);
        chip.unclaim(self.address, self.port, mask);
        let access = masking(MCP23X17Register::IODIR(self.port), mask, true);
        single(self.address, access, true)
    }
}

/// Several lines of a port that are held as inputs together.
#[derive(Debug)]
pub struct GroupInput {
    address: usize,
    port: usize,
    mask: u8,
}

impl GroupInput {
    #[verifier::type_invariant]
    spec fn well_formed(&self) -> bool {
        self.address <= MAX_ADDRESS && self.port < 2
    }

    /// The hardware address of the chip.
    pub closed spec fn chip_address(&self) -> usize {
        self.address
    }

    /// The index of the port on its chip.
    pub closed spec fn port_index(&self) -> usize {
        self.port
    }

    /// The lines that the handle holds, one bit for each.
    pub closed spec fn lines(&self) -> u8 {
        self.mask
    }

    /// Returns the hardware address of the chip.
    pub fn address(&self) -> (out: usize)
        ensures
            out == self.chip_address(),
    {
        self.address
    }

    /// Returns the index of the port on its chip.
    pub fn port(&self) -> (out: usize)
        ensures
            out == self.port_index(),
    {
        self.port
    }

    /// Returns the lines that the handle holds, one bit for each.
    pub fn mask(&self) -> (out: u8)
        ensures
            out == self.lines(),
    {
        self.mask
    }

    /// Returns the transaction that switches the pull-up resistors of the lines on.
    pub fn pull_up(&self) -> (out: Transaction)
        ensures
            out@ == Progress::fresh(self.chip_address(), pull_accesses(self.port_index(), self.lines(), true), false),
    {
        proof {
            use_type_invariant(self);
        }
        let access = masking(MCP23X17Register::GPPU(self.port), self.mask, true);
        single(self.address, access, false)
    }

    /// Returns the transaction that switches the pull-up resistors of the lines off.
    pub fn pull_off(&self) -> (out: Transaction)
        ensures
            out@ == Progress::fresh(self.chip_address(), pull_accesses(self.port_index(), self.lines(), false), false),
    {
        proof {
            use_type_invariant(self);
        }
        let access = masking(MCP23X17Register::GPPU(self.port), self.mask, false);
        single(self.address, access, false)
    }

    /// Returns the transaction that reads the levels of the port. Its result
    /// is what `levels` takes.
    pub fn digital_read(&self) -> (out: Transaction)
        ensures
            out@ == Progress::fresh(self.chip_address(), read_accesses(self.port_index()), false),
    {
        proof {
            use_type_invariant(self);
        }
        single(self.address, Access::Read { register: MCP23X17Register::GPIO(self.port) }, false)
    }

    /// Returns the levels of the lines that the handle holds, given the
    /// levels of the port: the bits of the other lines are zero.
    pub fn levels(&self, levels: u8) -> (out: u8)
        ensures
            out == levels & self.lines(),
    {
        levels & self.mask
    }

    /// Returns the transaction that makes the lines raise an interrupt on `edge`.
    pub fn interrupt(&self, edge: Edge) -> (out: Transaction)
        ensures
            out@ == Progress::fresh(
                self.chip_address(),
                interrupt_accesses(self.port_index(), self.lines(), edge),
                false,
            ),
    {
        proof {
            use_type_invariant(self);
        }
        let defval = MCP23X17Register::DEFVAL(self.port);
        let intcon = MCP23X17Register::INTCON(self.port);
        let gpinten = MCP23X17Register::GPINTEN(self.port);
        let mut accesses: Vec<Access> = Vec::new();
        accesses.push(
            match edge {
                Edge::RisingEdge => masking(defval, self.mask, true),
                Edge::FallingEdge => masking(defval, self.mask, false),
                Edge::BothEdges => Access::Update { register: defval, set: 0, clear: 0 },
                Edge::NoInterrupt => Access::Update { register: defval, set: 0, clear: 0 },
            },
        );
        accesses.push(
            match edge {
                Edge::RisingEdge => masking(intcon, self.mask, true),
                Edge::FallingEdge => masking(intcon, self.mask, true),
                Edge::BothEdges => masking(intcon, self.mask, false),
                Edge::NoInterrupt => Access::Update { register: intcon, set: 0, clear: 0 },
            },
        );
        accesses.push(
            match edge {
                Edge::RisingEdge => masking(gpinten, self.mask, true),
                Edge::FallingEdge => masking(gpinten, self.mask, true),
                Edge::BothEdges => masking(gpinten, self.mask, true),
                Edge::NoInterrupt => masking(gpinten, self.mask, false),
            },
        );
        assert(accesses@ =~= interrupt_accesses(self.port, self.mask, edge));
        Transaction::make(self.address, accesses, false)
    }

    /// Returns the transaction that stops the lines from raising interrupts.
    pub fn stop_interrupt(&self) -> (out: Transaction)
        ensures
            out@ == Progress::fresh(
                self.chip_address(),
                interrupt_accesses(self.port_index(), self.lines(), Edge::NoInterrupt),
                false,
            ),
    {
        self.interrupt(Edge::NoInterrupt)
    }

    /// Gives the lines up in the record of its chip. An input is safe as it is:
    /// nothing is exchanged.
    ///
    /// The lines become free in the record of the chip that the handle was
    /// claimed on, and stay held by whoever holds them in the record of
    /// any other chip.
    pub fn release(self, chip: &mut MCP23S17)
        ensures
            final(chip).chip_address() == old(chip).chip_address(),
            forall|other: usize|
                other != self.port_index() ==> final(chip).held(other) == old(chip).held(other),
            final(chip).held(self.port_index()) == released(
                old(chip).chip_address(),
                old(chip).held(self.port_index()),
                self.chip_address(),
                self.lines(),
            ),
    {
        proof {
            use_type_invariant(&self);
        }
        chip.unclaim(self.address, self.port, self.mask);
    }
}

/// Several lines of a port that are held as outputs together.
#[derive(Debug)]
pub struct GroupOutput {
    address: usize,
    port: usize,
    mask: u8,
}

impl GroupOutput {
    #[verifier::type_invariant]
    spec fn well_formed(&self) -> bool {
        self.address <= MAX_ADDRESS && self.port < 2
    }

    /// The hardware address of the chip.
    pub closed spec fn chip_address(&self) -> usize {
        self.address
    }

    /// The index of the port on its chip.
    pub closed spec fn port_index(&self) -> usize {
        self.port
    }

    /// The lines that the handle holds, one bit for each.
    pub closed spec fn lines(&self) -> u8 {
        self.mask
    }

    /// Returns the hardware address of the chip.
    pub fn address(&self) -> (out: usize)
        ensures
            out == self.chip_address(),
    {
        self.address
    }

    /// Returns the index of the port on its chip.
    pub fn port(&self) -> (out: usize)
        ensures
            out == self.port_index(),
    {
        self.port
    }

    /// Returns the lines that the handle holds, one bit for each.
    pub fn mask(&self) -> (out: u8)
        ensures
            out == self.lines(),
    {
        self.mask
    }

    /// Returns the transaction that drives the lines to the level that
    /// `level` stands for.
    pub fn digital_write<L: DigitalLogic>(&self, level: L) -> (out: Transaction)
        ensures
            out@ == Progress::fresh(
                self.chip_address(),
                write_accesses(self.port_index(), self.lines(), level.level()),
                false,
            ),
    {
        proof {
            use_type_invariant(self);
        }
        let high = match level.logic_level() {
            Logic::High => true,
            Logic::Low => false,
        };
        let access = masking(MCP23X17Register::GPIO(self.port), self.mask, high);
        single(self.address, access, false)
    }

    /// Gives the lines up in the record of its chip. The transaction that comes back
    /// makes them inputs again; it is best-effort, because a release does
    /// not fail.
    ///
    /// The lines become free in the record of the chip that the handle was
    /// claimed on, and stay held by whoever holds them in the record of
    /// any other chip.
    pub fn release(self, chip: &mut MCP23S17) -> (out: Transaction)
        ensures
            final(chip).chip_address() == old(chip).chip_address(),
            forall|other: usize|
                other != self.port_index() ==> final(chip).held(other) == old(chip).held(other),
            final(chip).held(self.port_index()) == released(
                old(chip).chip_address(),
                old(chip).held(self.port_index()),
                self.chip_address(),
                self.lines(),
            ),
            out@ == Progress::fresh(
                self.chip_address(),
                direction_accesses(self.port_index(), self.lines(), true),
                true,
            ),
    {
        proof {
            use_type_invariant(&self);
        }
        let mask = self.mask;
        chip.unclaim(self.address, self.port, mask);
        let access = masking(MCP23X17Register::IODIR(self.port), mask, true);
        single(self.address, access, true)
    }
}

} // verus!
