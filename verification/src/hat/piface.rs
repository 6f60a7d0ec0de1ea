use vstd::prelude::*;
use crate::is_root;
use crate::mcp23x17::port::{
    direction_accesses, init_accesses, pin_mask, pull_accesses, released, PORT_LINES,
};
use crate::mcp23x17::{
    BusSettings, GroupInput, GroupOutput, PinInput, PinOutput, Port, Progress, Transaction,
    MCP23S17,
};
use crate::result::Error;
use crate::sys::gpio::{export_actions, input_actions, trigger_actions};
use crate::sys::{Action, Edge, Pin};

verus! {

/// The hardware address of the expander on the board.
pub const PIFACE_ADDRESS: usize = 0;

/// The line of the system-on-chip that the expander's interrupt output is wired to.
pub const PIFACE_INTERRUPT_LINE: usize = 25;

/// Everything that has to be done to the hardware before the board is
/// ready, in the order in which it is done.
pub struct Setup {
    /// How the serial bus is set up.
    pub bus: BusSettings,
    /// Configures the expander.
    pub configure: Transaction,
    /// Makes all eight lines of the second port inputs.
    pub directions: Transaction,
    /// Switches the pull-up resistors of those lines on, for good.
    pub pull_ups: Transaction,
    /// Exports the interrupt line. Their outcome goes to `complete_export`.
    pub export: Vec<Action>,
    /// Claims the interrupt line as an input.
    pub claim: Vec<Action>,
}

impl Setup {
    /// Whether the setup is that of the board: the bus at four megahertz in
    /// mode zero with eight bits to the word, the expander configured, all
    /// eight inputs made inputs and pulled up, and the interrupt line
    /// exported and claimed as an input.
    pub open spec fn of_the_board(&self) -> bool {
        &&& self.bus == (BusSettings { bits_per_word: 8, max_speed_hz: 4_000_000, mode: 0 })
        &&& self.configure@ == Progress::fresh(PIFACE_ADDRESS, init_accesses(), false)
        &&& self.directions@ == Progress::fresh(
            PIFACE_ADDRESS,
            direction_accesses(1, 0xFF, true),
            false,
        )
        &&& self.pull_ups@ == Progress::fresh(PIFACE_ADDRESS, pull_accesses(1, 0xFF, true), false)
        &&& self.export@ == export_actions(PIFACE_INTERRUPT_LINE)
        &&& self.claim@ == input_actions(PIFACE_INTERRUPT_LINE)
    }
}

/// The PiFace board: eight outputs on the first port of an expander, eight
/// inputs with pull-ups on the second, and the expander's interrupt output
/// on a line of the system-on-chip.
pub struct PiFace {
    chip: MCP23S17,
    port_out: Port,
    port_in: Port,
    pin_int: Pin,
    interrupt: crate::sys::PinInput,
}

impl PiFace {
    /// The lines of the output port that are held, one bit for each.
    pub closed spec fn held_outputs(&self) -> u8 {
        self.chip.held(0)
    }

    /// The lines of the input port that are held, one bit for each.
    pub closed spec fn held_inputs(&self) -> u8 {
        self.chip.held(1)
    }

    /// Whether the board has the chip, the ports and the interrupt line
    /// that it is built with.
    pub closed spec fn wired(&self) -> bool {
        &&& self.chip.chip_address() == PIFACE_ADDRESS
        &&& self.port_out.index() == 0
        &&& self.port_in.index() == 1
        &&& self.pin_int.line() == PIFACE_INTERRUPT_LINE
        &&& self.interrupt.line() == PIFACE_INTERRUPT_LINE
    }

    /// Whether the board exported its interrupt line.
    pub closed spec fn exported(&self) -> bool {
        self.pin_int.is_exported()
    }

    /// Describes the board for a process that is privileged or not, and
    /// returns with it what has to be done to the hardware. A process that
    /// is not privileged cannot export the interrupt line and is refused.
    ///
    /// All eight inputs are claimed together for the setup and given up
    /// again once their pull-ups are provided for, so that the board comes
    /// back with no line held.
    pub fn with_privilege(root: bool) -> (out: Result<(PiFace, Setup), Error>)
        ensures
            !root ==> out matches Err(Error::RootRequired),
            root ==> (out matches Ok((board, setup)) && board.wired() && !board.exported()
                && board.held_outputs() == 0 && board.held_inputs() == 0
                && setup.of_the_board()),
    {
        let (mut chip, configure) = MCP23S17::new(PIFACE_ADDRESS);
        let port_out = chip.porta();
        let port_in = chip.portb();
        assert(0u8 & 0xFFu8 == 0) by (bit_vector);
        assert((0u8 | 0xFFu8) & !0xFFu8 == 0) by (bit_vector);
        let (inputs, directions) = match port_in.group_input(&mut chip, 0xFF) {
            Ok(claimed) => claimed,
            Err(e) => {
                return Err(e);
            },
        };
        let pull_ups = inputs.pull_up();
        inputs.release(&mut chip);
        let pin_int = Pin::new(PIFACE_INTERRUPT_LINE);
        let export = match pin_int.export_as(root) {
            Ok(actions) => actions,
            Err(e) => {
                return Err(e);
            },
        };
        let (interrupt, claim) = pin_int.input();
        let setup = Setup {
            bus: MCP23S17::settings(),
            configure,
            directions,
            pull_ups,
            export,
            claim,
        };
        Ok((PiFace { chip, port_out, port_in, pin_int, interrupt }, setup))
    }

    /// Describes the board for the process as it runs, and returns with it
    /// what has to be done to the hardware.
    pub fn new() -> (out: Result<(PiFace, Setup), Error>)
        ensures
            match out {
                Ok((board, setup)) => board.wired() && !board.exported() && board.held_outputs()
                    == 0 && board.held_inputs() == 0 && setup.of_the_board(),
                Err(e) => e is RootRequired,
            },
    {
        let root = is_root();
        Self::with_privilege(root)
    }

    /// Takes what the actions that export the interrupt line came to.
    pub fn complete_export(&mut self, outcome: Result<(), Error>) -> (out: Result<(), Error>)
        ensures
            final(self).wired() == old(self).wired(),
            final(self).held_outputs() == old(self).held_outputs(),
            final(self).held_inputs() == old(self).held_inputs(),
            outcome is Ok ==> out is Ok,
            outcome matches Err(e) ==> out == Err::<(), Error>(e),
            final(self).exported() == (outcome is Ok || old(self).exported()),
    {
        self.pin_int.complete_export(outcome)
    }

    /// Claims input `pin` of the board.
    pub fn input(&mut self, pin: usize) -> (out: Result<(PinInput, Transaction), Error>)
        requires
            pin < PORT_LINES,
            old(self).wired(),
        ensures
            final(self).wired(),
            final(self).exported() == old(self).exported(),
            final(self).held_outputs() == old(self).held_outputs(),
            old(self).held_inputs() & pin_mask(pin) != 0 ==> out matches Err(Error::AlreadyClaimed),
            old(self).held_inputs() & pin_mask(pin) != 0 ==> final(self).held_inputs() == old(self).held_inputs(),
            old(self).held_inputs() & pin_mask(pin) == 0 ==> final(self).held_inputs() == old(self).held_inputs() | pin_mask(pin),
            old(self).held_inputs() & pin_mask(pin) == 0 ==> (out matches Ok((handle, transaction))
                && handle.chip_address() == PIFACE_ADDRESS && handle.line() == pin
                && handle.port_index() == 1 && transaction@ == Progress::fresh(
                PIFACE_ADDRESS,
                direction_accesses(1, pin_mask(pin), true),
                false,
            )),
    {
        self.port_in.input(&mut self.chip, pin)
    }

    /// Claims output `pin` of the board.
    pub fn output(&mut self, pin: usize) -> (out: Result<(PinOutput, Transaction), Error>)
        requires
            pin < PORT_LINES,
            old(self).wired(),
        ensures
            final(self).wired(),
            final(self).exported() == old(self).exported(),
            final(self).held_inputs() == old(self).held_inputs(),
            old(self).held_outputs() & pin_mask(pin) != 0 ==> out matches Err(Error::AlreadyClaimed),
            old(self).held_outputs() & pin_mask(pin) != 0 ==> final(self).held_outputs() == old(self).held_outputs(),
            old(self).held_outputs() & pin_mask(pin) == 0 ==> final(self).held_outputs() == old(self).held_outputs() | pin_mask(pin),
            old(self).held_outputs() & pin_mask(pin) == 0 ==> (out matches Ok((handle, transaction))
                && handle.chip_address() == PIFACE_ADDRESS && handle.line() == pin
                && handle.port_index() == 0 && transaction@ == Progress::fresh(
                PIFACE_ADDRESS,
                direction_accesses(0, pin_mask(pin), false),
                false,
            )),
    {
        self.port_out.output(&mut self.chip, pin)
    }

    /// Claims the inputs of `mask` together of the board.
    pub fn group_input(&mut self, mask: u8) -> (out: Result<(GroupInput, Transaction), Error>)
        requires
            old(self).wired(),
        ensures
            final(self).wired(),
            final(self).exported() == old(self).exported(),
            final(self).held_outputs() == old(self).held_outputs(),
            old(self).held_inputs() & mask != 0 ==> out matches Err(Error::AlreadyClaimed),
            old(self).held_inputs() & mask != 0 ==> final(self).held_inputs() == old(self).held_inputs(),
            old(self).held_inputs() & mask == 0 ==> final(self).held_inputs() == old(self).held_inputs() | mask,
            old(self).held_inputs() & mask == 0 ==> (out matches Ok((handle, transaction))
                && handle.chip_address() == PIFACE_ADDRESS && handle.lines() == mask
                && handle.port_index() == 1 && transaction@ == Progress::fresh(
                PIFACE_ADDRESS,
                direction_accesses(1, mask, true),
                false,
            )),
    {
        self.port_in.group_input(&mut self.chip, mask)
    }

    /// Claims the outputs of `mask` together of the board.
    pub fn group_output(&mut self, mask: u8) -> (out: Result<(GroupOutput, Transaction), Error>)
        requires
            old(self).wired(),
        ensures
            final(self).wired(),
            final(self).exported() == old(self).exported(),
            final(self).held_inputs() == old(self).held_inputs(),
            old(self).held_outputs() & mask != 0 ==> out matches Err(Error::AlreadyClaimed),
            old(self).held_outputs() & mask != 0 ==> final(self).held_outputs() == old(self).held_outputs(),
            old(self).held_outputs() & mask == 0 ==> final(self).held_outputs() == old(self).held_outputs() | mask,
            old(self).held_outputs() & mask == 0 ==> (out matches Ok((handle, transaction))
                && handle.chip_address() == PIFACE_ADDRESS && handle.lines() == mask
                && handle.port_index() == 0 && transaction@ == Progress::fresh(
                PIFACE_ADDRESS,
                direction_accesses(0, mask, false),
                false,
            )),
    {
        self.port_out.group_output(&mut self.chip, mask)
    }

    /// Gives up an input that was claimed of the board.
    pub fn release_input(&mut self, handle: PinInput)
        requires
            old(self).wired(),
        ensures
            final(self).wired() == old(self).wired(),
            final(self).exported() == old(self).exported(),
            final(self).held_outputs() == if handle.port_index() == 0 {
                released(PIFACE_ADDRESS, old(self).held_outputs(), handle.chip_address(), pin_mask(handle.line()))
            } else {
                old(self).held_outputs()
            },
            final(self).held_inputs() == if handle.port_index() == 1 {
                released(PIFACE_ADDRESS, old(self).held_inputs(), handle.chip_address(), pin_mask(handle.line()))
            } else {
                old(self).held_inputs()
            },
    {
        handle.release(&mut self.chip)
    }

    /// Gives up an output that was claimed of the board. The transaction that
    /// comes back makes it an input again.
    pub fn release_output(&mut self, handle: PinOutput) -> (out: Transaction)
        requires
            old(self).wired(),
        ensures
            final(self).wired() == old(self).wired(),
            final(self).exported() == old(self).exported(),
            final(self).held_outputs() == if handle.port_index() == 0 {
                released(PIFACE_ADDRESS, old(self).held_outputs(), handle.chip_address(), pin_mask(handle.line()))
            } else {
                old(self).held_outputs()
            },
            final(self).held_inputs() == if handle.port_index() == 1 {
                released(PIFACE_ADDRESS, old(self).held_inputs(), handle.chip_address(), pin_mask(handle.line()))
            } else {
                old(self).held_inputs()
            },
            out@ == Progress::fresh(
                handle.chip_address(),
                direction_accesses(handle.port_index(), pin_mask(handle.line()), true),
                true,
            ),
    {
        handle.release(&mut self.chip)
    }

    /// Gives up inputs that was claimed of the board.
    pub fn release_group_input(&mut self, handle: GroupInput)
        requires
            old(self).wired(),
        ensures
            final(self).wired() == old(self).wired(),
            final(self).exported() == old(self).exported(),
            final(self).held_outputs() == if handle.port_index() == 0 {
                released(PIFACE_ADDRESS, old(self).held_outputs(), handle.chip_address(), handle.lines())
            } else {
                old(self).held_outputs()
            },
            final(self).held_inputs() == if handle.port_index() == 1 {
                released(PIFACE_ADDRESS, old(self).held_inputs(), handle.chip_address(), handle.lines())
            } else {
                old(self).held_inputs()
            },
    {
        handle.release(&mut self.chip)
    }

    /// Gives up outputs that was claimed of the board. The transaction that
    /// comes back makes them inputs again.
    pub fn release_group_output(&mut self, handle: GroupOutput) -> (out: Transaction)
        requires
            old(self).wired(),
        ensures
            final(self).wired() == old(self).wired(),
            final(self).exported() == old(self).exported(),
            final(self).held_outputs() == if handle.port_index() == 0 {
                released(PIFACE_ADDRESS, old(self).held_outputs(), handle.chip_address(), handle.lines())
            } else {
                old(self).held_outputs()
            },
            final(self).held_inputs() == if handle.port_index() == 1 {
                released(PIFACE_ADDRESS, old(self).held_inputs(), handle.chip_address(), handle.lines())
            } else {
                old(self).held_inputs()
            },
            out@ == Progress::fresh(
                handle.chip_address(),
                direction_accesses(handle.port_index(), handle.lines(), true),
                true,
            ),
    {
        handle.release(&mut self.chip)
    }

    /// Returns the actions that make the board report a change of its
    /// inputs to the poller under `token`: the expander pulls its interrupt
    /// output low, so the line is watched for a falling edge.
    pub fn trigger(&self, token: usize) -> (out: Vec<Action>)
        requires
            self.wired(),
        ensures
            out@ == trigger_actions(PIFACE_INTERRUPT_LINE, token, Edge::FallingEdge),
    {
        self.interrupt.trigger(token, Edge::FallingEdge)
    }

    /// Returns the actions that stop the board from reporting to the poller.
    pub fn stop_trigger(&self) -> (out: Vec<Action>)
        ensures
            out@ == seq![Action::Deregister],
    {
        self.interrupt.stop_trigger()
    }

    /// Returns the actions that give the interrupt line up.
    pub fn release(&self) -> (out: Vec<Action>)
        requires
            self.wired(),
        ensures
            out@ == crate::sys::gpio::release_actions(PIFACE_INTERRUPT_LINE, self.exported()),
    {
        self.pin_int.release()
    }
}

} // verus!
