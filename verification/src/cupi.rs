use vstd::prelude::*;
use vstd::string::StringSliceAdditionalSpecFns;
use crate::bcm270x::gpio::{input_steps, output_steps, release_steps, GPIO_LINES};
use crate::bcm270x::{PinInput, PinOptions, PinOutput, PullUpDnControl, Step, GPIO};
use crate::board::{board_of, detect_board, line_of, unknown_board, Board};
use crate::is_root;
use crate::result::Error;
use crate::sys::{lookup, CPUInfo, Pin};

verus! {

/// The board that the process runs on, with its GPIO block where the
/// process is privileged to drive it.
pub struct CuPi {
    pub board: Board,
    gpio: Option<GPIO>,
}

impl CuPi {
    /// The board.
    pub closed spec fn on_board(&self) -> Board {
        self.board
    }

    /// Whether the GPIO block can be driven.
    pub closed spec fn privileged(&self) -> bool {
        self.gpio is Some
    }

    /// Whether line `pin` of the GPIO block is held by a live handle.
    pub closed spec fn holds(&self, pin: usize) -> bool {
        self.gpio matches Some(gpio) && gpio.holds(pin)
    }

    /// The physical address of the GPIO block, where it can be driven.
    pub closed spec fn block_address(&self) -> Option<usize> {
        match self.gpio {
            Some(gpio) => Some(gpio.base_address()),
            None => None,
        }
    }

    /// Describes `board` for a process that is privileged or not. A
    /// privileged process gets the GPIO block, with no line held, and is
    /// refused on a processor that is not known; an unprivileged one gets
    /// the board without the block.
    pub fn with_privilege(board: Board, root: bool) -> (out: Result<CuPi, Error>)
        ensures
            match out {
                Ok(cupi) => cupi.on_board() == board && cupi.privileged() == root && (root
                    ==> cupi.block_address() == GPIO::block_address(board.cpu) && forall|
                    pin: usize,
                | !cupi.holds(pin)),
                Err(e) => e is UnsupportedHardware && root && GPIO::block_address(board.cpu)
                    is None,
            },
            root && GPIO::block_address(board.cpu) is None ==> out is Err,
    {
        if root {
            match GPIO::new(board.cpu) {
                Ok(gpio) => Ok(CuPi { board, gpio: Some(gpio) }),
                Err(e) => Err(e),
            }
        } else {
            Ok(CuPi { board, gpio: None })
        }
    }

    /// Describes the board that the outcome of reading the processor
    /// information tells of, for the process as it runs: privileged or not.
    /// A read that failed gives the board of which nothing is known.
    pub fn new(read: &Result<CPUInfo, Error>) -> (out: Result<CuPi, Error>)
        ensures
            match out {
                Ok(cupi) => cupi.on_board() == detected(*read) && (cupi.privileged() ==> {
                    &&& cupi.block_address() == GPIO::block_address(detected(*read).cpu)
                    &&& forall|pin: usize| !cupi.holds(pin)
                }),
                Err(e) => e is UnsupportedHardware && GPIO::block_address(detected(*read).cpu)
                    is None,
            },
    {
        let board = detect_board(read);
        let root = is_root();
        Self::with_privilege(board, root)
    }

    /// Returns the physical address of the GPIO block, where it can be driven.
    pub fn base(&self) -> (out: Option<usize>)
        ensures
            out == self.block_address(),
    {
        match &self.gpio {
            Some(gpio) => Some(gpio.base()),
            None => None,
        }
    }

    /// Starts the configuration of the line that pin `pin` of the header is
    /// wired to. A pin that the board does not have is refused first, then
    /// a process that may not drive the block.
    pub fn pin(&self, pin: usize) -> (out: Result<PinOptions, Error>)
        ensures
            match line_of(self.on_board(), pin) {
                Ok(line) => if self.privileged() {
                    out == Ok::<PinOptions, Error>(
                        PinOptions {
                            pin: line,
                            pull_ctrl: Some(PullUpDnControl::PullOff),
                            default_value: 0,
                        },
                    )
                } else {
                    out matches Err(Error::RootRequired)
                },
                Err(e) => out == Err::<PinOptions, Error>(e),
            },
    {
        let gpio_pin = match self.board.pin_to_gpio(pin) {
            Ok(line) => line,
            Err(e) => {
                return Err(e);
            },
        };
        match &self.gpio {
            Some(gpio) => Ok(gpio.pin(gpio_pin)),
            None => Err(Error::RootRequired),
        }
    }

    /// Returns a handle on the line that pin `pin` of the header is wired
    /// to, as the kernel's GPIO interface knows it.
    pub fn pin_sys(&self, pin: usize) -> (out: Result<Pin, Error>)
        ensures
            match line_of(self.on_board(), pin) {
                Ok(line) => out matches Ok(handle) && handle.line() == line
                    && !handle.is_exported(),
                Err(e) => out matches Err(refusal) && refusal == e,
            },
    {
        match self.board.pin_to_gpio(pin) {
            Ok(line) => Ok(Pin::new(line)),
            Err(e) => Err(e),
        }
    }

    /// Claims the configured line as an input on the board's GPIO block.
    pub fn input(&mut self, options: &PinOptions) -> (out: Result<(PinInput, Vec<Step>), Error>)
        ensures
            final(self).on_board() == old(self).on_board(),
            final(self).privileged() == old(self).privileged(),
            final(self).block_address() == old(self).block_address(),
            !old(self).privileged() ==> out matches Err(Error::RootRequired),
            old(self).privileged() && options.pin >= GPIO_LINES ==> out matches Err(
                Error::UnconnectedPin,
            ),
            old(self).privileged() && options.pin < GPIO_LINES && old(self).holds(options.pin)
                ==> out matches Err(Error::AlreadyClaimed),
            old(self).privileged() && options.pin < GPIO_LINES && !old(self).holds(options.pin)
                ==> (out matches Ok((handle, steps)) && handle.line() == options.pin && Some(handle.block_address())
                == old(self).block_address() && steps@
                == input_steps(options.pin, options.pull_ctrl)),
            out is Ok ==> forall|other: usize|
                final(self).holds(other) == (other == options.pin || old(self).holds(other)),
            out is Err ==> forall|other: usize| final(self).holds(other) == old(self).holds(other),
    {
        match &mut self.gpio {
            Some(gpio) => options.input(gpio),
            None => Err(Error::RootRequired),
        }
    }

    /// Claims the configured line as an output on the board's GPIO block.
    pub fn output(&mut self, options: &PinOptions) -> (out: Result<(PinOutput, Vec<Step>), Error>)
        ensures
            final(self).on_board() == old(self).on_board(),
            final(self).privileged() == old(self).privileged(),
            final(self).block_address() == old(self).block_address(),
            !old(self).privileged() ==> out matches Err(Error::RootRequired),
            old(self).privileged() && options.pin >= GPIO_LINES ==> out matches Err(
                Error::UnconnectedPin,
            ),
            old(self).privileged() && options.pin < GPIO_LINES && old(self).holds(options.pin)
                ==> out matches Err(Error::AlreadyClaimed),
            old(self).privileged() && options.pin < GPIO_LINES && !old(self).holds(options.pin)
                ==> (out matches Ok((handle, steps)) && handle.line() == options.pin && Some(handle.block_address())
                == old(self).block_address() && steps@
                == output_steps(options.pin, options.default_value)),
            out is Ok ==> forall|other: usize|
                final(self).holds(other) == (other == options.pin || old(self).holds(other)),
            out is Err ==> forall|other: usize| final(self).holds(other) == old(self).holds(other),
    {
        match &mut self.gpio {
            Some(gpio) => options.output(gpio),
            None => Err(Error::RootRequired),
        }
    }

    /// Gives up an input of the board's GPIO block. There are no steps to
    /// perform. A board that cannot drive the block holds no line and stays
    /// as it was.
    pub fn release_input(&mut self, handle: PinInput) -> (out: Vec<Step>)
        ensures
            out@ == Seq::<Step>::empty(),
            final(self).on_board() == old(self).on_board(),
            final(self).privileged() == old(self).privileged(),
            final(self).block_address() == old(self).block_address(),
            forall|other: usize|
                final(self).holds(other) == (old(self).holds(other) && !(other == handle.line()
                    && Some(handle.block_address()) == old(self).block_address())),
    {
        match &mut self.gpio {
            Some(gpio) => handle.release(gpio),
            None => Vec::new(),
        }
    }

    /// Gives up an output of the board's GPIO block, and returns the steps
    /// that put the line back to the input function.
    pub fn release_output(&mut self, handle: PinOutput) -> (out: Vec<Step>)
        ensures
            final(self).on_board() == old(self).on_board(),
            final(self).privileged() == old(self).privileged(),
            final(self).block_address() == old(self).block_address(),
            old(self).privileged() ==> out@ == release_steps(handle.line()),
            !old(self).privileged() ==> out@ == Seq::<Step>::empty(),
            forall|other: usize|
                final(self).holds(other) == (old(self).holds(other) && !(other == handle.line()
                    && Some(handle.block_address()) == old(self).block_address())),
    {
        match &mut self.gpio {
            Some(gpio) => handle.release(gpio),
            None => Vec::new(),
        }
    }
}

/// The board that the outcome of reading the processor information tells of.
pub open spec fn detected(read: Result<CPUInfo, Error>) -> Board {
    match read {
        Ok(info) => board_of(
            lookup(info.entries(), "Hardware".spec_bytes()),
            lookup(info.entries(), "Revision".spec_bytes()),
        ),
        Err(_) => unknown_board(),
    }
}

} // verus!
