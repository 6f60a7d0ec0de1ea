use vstd::prelude::*;
use super::gpio::{bank, level_in, select_shift, Step, GPIO_LINES};
use super::{GPIORegister, PullUpDnControl};
use crate::bits::{bit32, field3};
use crate::logic::Logic;
use crate::map::{MemoryMap, BLOCK_WORDS};
use crate::RegisterDesc;

verus! {


/// What a GPIO block holds: the content of its registers and the bias that
/// is latched into each line.
pub struct BlockState {
    pub words: Seq<u32>,
    pub pulls: Seq<PullUpDnControl>,
}

impl BlockState {
    /// Whether the state has a word for every register and a bias for every line.
    pub open spec fn wf(self) -> bool {
        self.words.len() == BLOCK_WORDS && self.pulls.len() == GPIO_LINES
    }

    /// The function-select code of line `pin`.
    pub open spec fn function_of(self, pin: usize) -> u32 {
        field3(self.words[(pin / 10) as int], select_shift(pin))
    }

    /// The level of line `pin`.
    pub open spec fn level_of(self, pin: usize) -> Logic {
        level_in(self.words[13 + bank(pin)], pin)
    }

    /// Whether the pull-up/down protocol is at rest: the enable register and
    /// both clock registers are zero.
    pub open spec fn pull_idle(self) -> bool {
        self.words[37] == 0 && self.words[38] == 0 && self.words[39] == 0
    }
}

/// Whether the block has the register.
pub open spec fn addressable(register: GPIORegister) -> bool {
    match register {
        GPIORegister::GPIOFunctionSelect(n) => n < 6,
        GPIORegister::GPIOPinPullUpDownEnable => true,
        GPIORegister::GPIOPinOutputSet(n) => n < 2,
        GPIORegister::GPIOPinOutputClear(n) => n < 2,
        GPIORegister::GPIOPinLevel(n) => n < 2,
        GPIORegister::GPIOPinEventDetectStatus(n) => n < 2,
        GPIORegister::GPIOPinRisingEdgeDetectEnable(n) => n < 2,
        GPIORegister::GPIOPinFallingEdgeDetectEnable(n) => n < 2,
        GPIORegister::GPIOPinHighDetectEnable(n) => n < 2,
        GPIORegister::GPIOPinLowDetectEnable(n) => n < 2,
        GPIORegister::GPIOPinAsyncRisingEdgeDetect(n) => n < 2,
        GPIORegister::GPIOPinAsyncFallingEdgeDetect(n) => n < 2,
        GPIORegister::GPIOPinPullUpDownEnableClock(n) => n < 2,
    }
}

/// The bias that a content of the enable register selects; the fourth code is reserved.
pub open spec fn mode_of_code(code: u32) -> Option<PullUpDnControl> {
    if code & 3 == 0 {
        Some(PullUpDnControl::PullOff)
    } else if code & 3 == 1 {
        Some(PullUpDnControl::PullDown)
    } else if code & 3 == 2 {
        Some(PullUpDnControl::PullUp)
    } else {
        None
    }
}

/// The biases after the clock register of bank `bank_index` was written with
/// `clock` while the enable register held `enable`: every line of the bank
/// whose bit is set in `clock` takes the bias that `enable` selects.
pub open spec fn latched(
    pulls: Seq<PullUpDnControl>,
    enable: u32,
    bank_index: usize,
    clock: u32,
) -> Seq<PullUpDnControl> {
    Seq::new(
        pulls.len(),
        |p: int|
            if p / 32 == bank_index && bit32(clock, (p % 32) as u32) {
                match mode_of_code(enable) {
                    Some(mode) => mode,
                    None => pulls[p],
                }
            } else {
                pulls[p]
            },
    )
}

/// What a read of the register returns. The output-set and output-clear
/// registers can only be written and read as zero, and so does a register
/// that the block does not have.
pub open spec fn content(state: BlockState, register: GPIORegister) -> u32 {
    if !addressable(register) {
        0
    } else {
        match register {
            GPIORegister::GPIOPinOutputSet(_) => 0,
            GPIORegister::GPIOPinOutputClear(_) => 0,
            _ => state.words[register.spec_offset()],
        }
    }
}

/// The state after `data` was stored into the register.
///
/// A store into an output-set register raises the lines whose bits are set,
/// one into an output-clear register lowers them, and both show in the level
/// register of the bank. The level register itself cannot be written. A store
/// into a pull-up/down clock register latches the bias that the enable
/// register selects. Every other register keeps what was stored.
pub open spec fn stored(state: BlockState, register: GPIORegister, data: u32) -> BlockState {
    match register {
        GPIORegister::GPIOPinOutputSet(n) => BlockState {
            words: state.words.update(13 + n, state.words[13 + n] | data),
            pulls: state.pulls,
        },
        GPIORegister::GPIOPinOutputClear(n) => BlockState {
            words: state.words.update(13 + n, state.words[13 + n] & !data),
            pulls: state.pulls,
        },
        GPIORegister::GPIOPinLevel(_) => state,
        GPIORegister::GPIOPinPullUpDownEnableClock(n) => BlockState {
            words: state.words.update(38 + n, data),
            pulls: latched(state.pulls, state.words[37], n, data),
        },
        _ => BlockState {
            words: state.words.update(register.spec_offset(), data),
            pulls: state.pulls,
        },
    }
}

/// The state after one step. A step on a register that the block does not
/// have changes nothing, and neither does a hold.
pub open spec fn step_effect(state: BlockState, step: Step) -> BlockState {
    match step {
        Step::Write { register, data } => if addressable(register) {
            stored(state, register, data)
        } else {
            state
        },
        Step::BitAnd { register, data } => if addressable(register) {
            stored(state, register, content(state, register) & data)
        } else {
            state
        },
        Step::BitOr { register, data } => if addressable(register) {
            stored(state, register, content(state, register) | data)
        } else {
            state
        },
        Step::Hold { usec } => state,
    }
}

/// The state after the steps were performed in order.
pub open spec fn run_effect(state: BlockState, steps: Seq<Step>) -> BlockState
    decreases steps.len(),
{
    if steps.len() == 0 {
        state
    } else {
        step_effect(run_effect(state, steps.drop_last()), steps.last())
    }
}

/// A GPIO block held in memory, which answers register traffic as the
/// hardware does, with every line's level showing what its latch holds.
pub struct GPIOBase {
    map: MemoryMap,
    pulls: Vec<PullUpDnControl>,
}

impl View for GPIOBase {
    type V = BlockState;

    closed spec fn view(&self) -> BlockState {
        BlockState { words: self.map@, pulls: self.pulls@ }
    }
}

impl GPIOBase {
    #[verifier::type_invariant]
    spec fn well_formed(&self) -> bool {
        self.map@.len() == BLOCK_WORDS && self.pulls@.len() == GPIO_LINES
    }

    /// A block after reset: every register zero, no line biased.
    pub fn new() -> (out: GPIOBase)
        ensures
            out@.wf(),
            out@.words == Seq::new(BLOCK_WORDS as nat, |i: int| 0u32),
            out@.pulls == Seq::new(GPIO_LINES as nat, |i: int| PullUpDnControl::PullOff),
    {
        let map = MemoryMap::new();
        let mut pulls: Vec<PullUpDnControl> = Vec::new();
        let mut i: usize = 0;
        while i < GPIO_LINES
            invariant
                i <= GPIO_LINES,
                pulls@ == Seq::new(i as nat, |k: int| PullUpDnControl::PullOff),
            decreases GPIO_LINES - i,
        {
            pulls.push(PullUpDnControl::PullOff);
            i = i + 1;
            assert(pulls@ =~= Seq::new(i as nat, |k: int| PullUpDnControl::PullOff));
        }
        GPIOBase { map, pulls }
    }

    /// Returns what a read of the register returns.
    pub fn read(&self, register: GPIORegister) -> (out: u32)
        ensures
            self@.wf(),
            out == content(self@, register),
    {
        proof {
            use_type_invariant(self);
        }
        if !Self::has(register) {
            return 0;
        }
        match register {
            GPIORegister::GPIOPinOutputSet(_) => 0,
            GPIORegister::GPIOPinOutputClear(_) => 0,
            _ => self.map.read(register.offset()),
        }
    }

    /// Returns the bias that is latched into line `pin`, if the block has the line.
    pub fn pull(&self, pin: usize) -> (out: Option<PullUpDnControl>)
        ensures
            self@.wf(),
            out == if pin < GPIO_LINES {
                Some(self@.pulls[pin as int])
            } else {
                None
            },
    {
        proof {
            use_type_invariant(self);
        }
        if pin < GPIO_LINES {
            Some(self.pulls[pin])
        } else {
            None
        }
    }

    fn latch(&mut self, bank_index: usize, clock: u32)
        ensures
            final(self)@.words == old(self)@.words,
            final(self)@.pulls == latched(
                old(self)@.pulls,
                old(self)@.words[37],
                bank_index,
                clock,
            ),
    {
        proof {
            use_type_invariant(&*self);
        }
        let enable = self.map.read(37);
        let code = enable & 3;
        let mut next: Vec<PullUpDnControl> = Vec::new();
        let mut p: usize = 0;
        while p < GPIO_LINES
            invariant
                p <= GPIO_LINES,
                self.pulls@.len() == GPIO_LINES,
                code == enable & 3,
                next@ == latched(self.pulls@, enable, bank_index, clock).take(p as int),
            decreases GPIO_LINES - p,
        {
            let hit = p / 32 == bank_index && clock & (1u32 << ((p % 32) as u32)) != 0;
            let mode = if hit && code == 0 {
                PullUpDnControl::PullOff
            } else if hit && code == 1 {
                PullUpDnControl::PullDown
            } else if hit && code == 2 {
                PullUpDnControl::PullUp
            } else {
                self.pulls[p]
            };
            next.push(mode);
            p = p + 1;
            assert(next@ =~= latched(self.pulls@, enable, bank_index, clock).take(p as int));
        }
        assert(next@ =~= latched(self.pulls@, enable, bank_index, clock));
        self.pulls = next;
    }

    fn store(&mut self, register: GPIORegister, data: u32)
        requires
            addressable(register),
        ensures
            final(self)@ == stored(old(self)@, register, data),
    {
        proof {
            use_type_invariant(&*self);
        }
        match register {
            GPIORegister::GPIOPinOutputSet(n) => {
                let level = self.map.read(13 + n);
                self.map.write(13 + n, level | data);
            },
            GPIORegister::GPIOPinOutputClear(n) => {
                let level = self.map.read(13 + n);
                self.map.write(13 + n, level & !data);
            },
            GPIORegister::GPIOPinLevel(_) => {},
            GPIORegister::GPIOPinPullUpDownEnableClock(n) => {
                self.latch(n, data);
                self.map.write(38 + n, data);
            },
            _ => {
                self.map.write(register.offset(), data);
            },
        }
    }

    /// Performs one step.
    pub fn apply(&mut self, step: Step)
        ensures
            final(self)@ == step_effect(old(self)@, step),
            final(self)@.wf(),
    {
        proof {
            use_type_invariant(&*self);
        }
        match step {
            Step::Write { register, data } => {
                if Self::has(register) {
                    self.store(register, data);
                }
            },
            Step::BitAnd { register, data } => {
                if Self::has(register) {
                    let word = self.read(register);
                    self.store(register, word & data);
                }
            },
            Step::BitOr { register, data } => {
                if Self::has(register) {
                    let word = self.read(register);
                    self.store(register, word | data);
                }
            },
            Step::Hold { usec } => {},
        }
        proof {
            use_type_invariant(&*self);
        }
    }

    /// Performs the steps in order.
    pub fn run(&mut self, steps: &Vec<Step>)
        ensures
            final(self)@ == run_effect(old(self)@, steps@),
            final(self)@.wf(),
    {
        proof {
            use_type_invariant(&*self);
        }
        let mut i: usize = 0;
        while i < steps.len()
            invariant
                i <= steps.len(),
                self@ == run_effect(old(self)@, steps@.take(i as int)),
                self@.wf(),
            decreases steps.len() - i,
        {
            self.apply(steps[i]);
            i = i + 1;
            assert(steps@.take(i as int).drop_last() =~= steps@.take(i - 1));
        }
        assert(steps@.take(i as int) =~= steps@);
    }

    /// Tells whether the block has the register.
    pub fn has(register: GPIORegister) -> (out: bool)
        ensures
            out == addressable(register),
    {
        match register {
            GPIORegister::GPIOFunctionSelect(n) => n < 6,
            GPIORegister::GPIOPinPullUpDownEnable => true,
            GPIORegister::GPIOPinOutputSet(n) => n < 2,
            GPIORegister::GPIOPinOutputClear(n) => n < 2,
            GPIORegister::GPIOPinLevel(n) => n < 2,
            GPIORegister::GPIOPinEventDetectStatus(n) => n < 2,
            GPIORegister::GPIOPinRisingEdgeDetectEnable(n) => n < 2,
            GPIORegister::GPIOPinFallingEdgeDetectEnable(n) => n < 2,
            GPIORegister::GPIOPinHighDetectEnable(n) => n < 2,
            GPIORegister::GPIOPinLowDetectEnable(n) => n < 2,
            GPIORegister::GPIOPinAsyncRisingEdgeDetect(n) => n < 2,
            GPIORegister::GPIOPinAsyncFallingEdgeDetect(n) => n < 2,
            GPIORegister::GPIOPinPullUpDownEnableClock(n) => n < 2,
        }
    }
}

} // verus!
