use vstd::prelude::*;
use super::transaction::{
    exchanges_from, lemma_exchanges_from, merged, Access, Progress, Transaction,
};
use super::{Frame, MCP23X17Register, CHIP_REGISTERS, CMD_READ, CMD_WRITE, MAX_ADDRESS};
use crate::result::Error;
use crate::RegisterDesc;

verus! {

/// The registers after one access.
pub open spec fn access_effect(registers: Seq<u8>, access: Access) -> Seq<u8> {
    match access {
        Access::Write { register, value } => registers.update(register.spec_offset(), value),
        Access::Update { register, set, clear } => registers.update(
            register.spec_offset(),
            merged(registers[register.spec_offset()], set, clear),
        ),
        Access::Read { register } => registers,
    }
}

/// The registers after the accesses were made in order.
pub open spec fn accesses_effect(registers: Seq<u8>, accesses: Seq<Access>) -> Seq<u8>
    decreases accesses.len(),
{
    if accesses.len() == 0 {
        registers
    } else {
        access_effect(accesses_effect(registers, accesses.drop_last()), accesses.last())
    }
}

/// What the last read among the accesses returns, if there is a read.
pub open spec fn accesses_result(registers: Seq<u8>, accesses: Seq<Access>) -> Option<u8>
    decreases accesses.len(),
{
    if accesses.len() == 0 {
        None
    } else {
        match accesses.last() {
            Access::Read { register } => Some(
                accesses_effect(registers, accesses.drop_last())[register.spec_offset()],
            ),
            _ => accesses_result(registers, accesses.drop_last()),
        }
    }
}

/// What one exchange does to the registers of the chip at `address`, and the
/// third byte of the chip's answer. A frame for another chip, or for a
/// register that the chip does not have, changes nothing and is answered
/// with zero.
pub open spec fn exchange_effect(registers: Seq<u8>, address: usize, frame: Frame) -> (Seq<u8>, u8) {
    if frame.register >= CHIP_REGISTERS {
        (registers, 0u8)
    } else if frame.opcode == CMD_WRITE + 2 * address {
        (registers.update(frame.register as int, frame.data), 0u8)
    } else if frame.opcode == CMD_READ + 2 * address {
        (registers, registers[frame.register as int])
    } else {
        (registers, 0u8)
    }
}

/// The registers of a chip after reset: every line an input, everything else zero.
pub open spec fn reset_registers() -> Seq<u8> {
    Seq::new(
        CHIP_REGISTERS as nat,
        |i: int|
            if i < 2 {
                0xFFu8
            } else {
                0u8
            },
    )
}

/// A port expander held in memory, which answers frames as the chip does.
pub struct Chip {
    address: usize,
    registers: Vec<u8>,
}

impl View for Chip {
    type V = Seq<u8>;

    closed spec fn view(&self) -> Seq<u8> {
        self.registers@
    }
}

impl Chip {
    #[verifier::type_invariant]
    spec fn well_formed(&self) -> bool {
        self.registers@.len() == CHIP_REGISTERS && self.address <= MAX_ADDRESS
    }

    /// The hardware address that the chip answers to.
    pub closed spec fn hardware_address(&self) -> usize {
        self.address
    }

    /// A chip after reset that answers to `address`.
    pub fn new(address: usize) -> (out: Chip)
        requires
            address <= MAX_ADDRESS,
        ensures
            out.hardware_address() == address,
            out@ == reset_registers(),
    {
        let mut registers: Vec<u8> = Vec::new();
        let mut i: usize = 0;
        while i < CHIP_REGISTERS
            invariant
                i <= CHIP_REGISTERS,
                registers@ == reset_registers().take(i as int),
            decreases CHIP_REGISTERS - i,
        {
            registers.push(if i < 2 { 0xFFu8 } else { 0u8 });
            i = i + 1;
            assert(registers@ =~= reset_registers().take(i as int));
        }
        assert(registers@ =~= reset_registers());
        Chip { address, registers }
    }

    /// Returns the content of the register; one that the chip does not
    /// have reads as zero.
    pub fn register(&self, register: MCP23X17Register) -> (out: u8)
        ensures
            self@.len() == CHIP_REGISTERS,
            out == if register.on_chip() {
                self@[register.spec_offset()]
            } else {
                0u8
            },
    {
        proof {
            use_type_invariant(self);
        }
        if register.is_on_chip() {
            self.registers[register.offset()]
        } else {
            0
        }
    }

    /// Takes one frame and returns the third byte of the answer.
    pub fn exchange(&mut self, frame: Frame) -> (out: u8)
        ensures
            final(self).hardware_address() == old(self).hardware_address(),
            final(self)@.len() == CHIP_REGISTERS,
            (final(self)@, out) == exchange_effect(old(self)@, old(self).hardware_address(), frame),
    {
        proof {
            use_type_invariant(&*self);
        }
        let index = frame.register as usize;
        if index >= CHIP_REGISTERS {
            0
        } else if frame.opcode as usize == CMD_WRITE + 2 * self.address {
            self.registers[index] = frame.data;
            0
        } else if frame.opcode as usize == CMD_READ + 2 * self.address {
            self.registers[index]
        } else {
            0
        }
    }

    /// Drives a transaction to its end against the chip: every pending frame
    /// is exchanged and its answer handed back, in order.
    ///
    /// A transaction for this chip of which nothing was exchanged before
    /// leaves the registers as its accesses make them, and has the answer
    /// to its last read as its result. A transaction for another chip
    /// leaves the registers as they were.
    pub fn serve(&mut self, transaction: &mut Transaction)
        ensures
            final(self).hardware_address() == old(self).hardware_address(),
            final(self)@.len() == CHIP_REGISTERS,
            final(transaction)@.finished(),
            final(transaction)@.accesses == old(transaction)@.accesses,
            final(transaction)@.address == old(transaction)@.address,
            final(transaction)@.failed == old(transaction)@.failed,
            old(transaction)@ == Progress::fresh(
                old(self).hardware_address(),
                old(transaction)@.accesses,
                old(transaction)@.best_effort,
            ) ==> final(self)@ == accesses_effect(old(self)@, old(transaction)@.accesses)
                && final(transaction)@.result == accesses_result(
                old(self)@,
                old(transaction)@.accesses,
            ),
            old(transaction)@.address != old(self).hardware_address() ==> final(self)@ == old(
                self,
            )@,
    {
        proof {
            use_type_invariant(&*self);
        }
        if transaction.is_finished() {
            return ;
        }
        let ghost start = self@;
        let ghost accesses = transaction@.accesses;
        let ghost address = self.address;
        let ghost target = transaction@.address;
        let ghost fresh = transaction@ == Progress::fresh(
            address,
            accesses,
            transaction@.best_effort,
        );
        assert(accesses.take(0) =~= Seq::<Access>::empty());
        loop
            invariant
                self.hardware_address() == address,
                address <= MAX_ADDRESS,
                self@.len() == CHIP_REGISTERS,
                transaction@.wf(),
                transaction@.accesses == accesses,
                transaction@.address == target,
                !transaction@.failed,
                fresh ==> target == address,
                fresh ==> self@ == accesses_effect(start, accesses.take(transaction@.position)),
                fresh ==> transaction@.result == accesses_result(
                    start,
                    accesses.take(transaction@.position),
                ),
                fresh ==> (transaction@.fetched matches Some(word) ==> word
                    == self@[accesses[transaction@.position].register().spec_offset()]),
                target != address ==> self@ == start,
            ensures
                transaction@.finished(),
                !transaction@.failed,
                transaction@.accesses == accesses,
                transaction@.address == target,
                transaction@.wf(),
                self.hardware_address() == address,
                self@.len() == CHIP_REGISTERS,
                fresh ==> self@ == accesses_effect(start, accesses.take(transaction@.position)),
                fresh ==> transaction@.result == accesses_result(
                    start,
                    accesses.take(transaction@.position),
                ),
                target != address ==> self@ == start,
            decreases transaction@.remaining(),
        {
            let ghost before = transaction@;
            let ghost k = before.position;
            match transaction.request() {
                None => {
                    break ;
                },
                Some(frame) => {
                    let ghost access = accesses[k];
                    assert(access.register().on_chip());
                    let data = self.exchange(frame);
                    transaction.reply(data);
                    proof {
                        if transaction@.position == k + 1 {
                            assert(accesses.take(k + 1).drop_last() =~= accesses.take(k));
                            assert(accesses.take(k + 1).last() == access);
                        }
                    }
                },
            }
        }
        assert(accesses.take(transaction@.position) =~= accesses);
    }

    /// Drives a transaction against the chip on a bus that carries
    /// `exchanges` exchanges and fails the next one with `error`.
    ///
    /// A transaction that needs no more exchanges than the bus carries
    /// comes to its end as on a sound bus. Any other is over at the failure:
    /// the accesses that were completed before it have taken effect, no
    /// later one has, and the failure is passed on unless the transaction is
    /// best-effort.
    pub fn serve_until(
        &mut self,
        transaction: &mut Transaction,
        exchanges: usize,
        error: std::io::Error,
    ) -> (out: Result<Option<u8>, Error>)
        ensures
            final(self).hardware_address() == old(self).hardware_address(),
            final(self)@.len() == CHIP_REGISTERS,
            final(transaction)@.finished(),
            final(transaction)@.pending() is None,
            final(transaction)@.accesses == old(transaction)@.accesses,
            final(transaction)@.address == old(transaction)@.address,
            old(transaction)@ == Progress::fresh(
                old(self).hardware_address(),
                old(transaction)@.accesses,
                old(transaction)@.best_effort,
            ) ==> {
                &&& final(self)@ == accesses_effect(
                    old(self)@,
                    old(transaction)@.accesses.take(final(transaction)@.position),
                )
                &&& final(transaction)@.failed <==> exchanges < exchanges_from(
                    old(transaction)@.accesses,
                    0,
                )
                &&& final(transaction)@.failed ==> out == old(transaction)@.failure(error)
                &&& !final(transaction)@.failed ==> final(transaction)@.position == old(
                    transaction,
                )@.accesses.len() && out == Ok::<Option<u8>, Error>(
                    accesses_result(old(self)@, old(transaction)@.accesses),
                )
            },
    {
        proof {
            use_type_invariant(&*self);
        }
        if transaction.is_finished() {
            proof {
                lemma_exchanges_from(transaction@.accesses, 0);
                assert(transaction@.accesses.take(0) =~= Seq::<Access>::empty());
            }
            return transaction.finish();
        }
        let ghost start = self@;
        let ghost accesses = transaction@.accesses;
        let ghost address = self.address;
        let ghost effort = transaction@.best_effort;
        let ghost fresh = transaction@ == Progress::fresh(address, accesses, effort);
        let ghost total = transaction@.remaining();
        assert(accesses.take(0) =~= Seq::<Access>::empty());
        let mut done: usize = 0;
        while done < exchanges && !transaction.is_finished()
            invariant
                done <= exchanges,
                self.hardware_address() == address,
                address <= MAX_ADDRESS,
                self@.len() == CHIP_REGISTERS,
                transaction@.wf(),
                transaction@.accesses == accesses,
                transaction@.address == old(transaction)@.address,
                transaction@.best_effort == effort,
                !transaction@.failed,
                done + transaction@.remaining() == total,
                fresh ==> old(transaction)@.address == address,
                fresh ==> total == exchanges_from(accesses, 0),
                fresh ==> self@ == accesses_effect(start, accesses.take(transaction@.position)),
                fresh ==> transaction@.result == accesses_result(
                    start,
                    accesses.take(transaction@.position),
                ),
                fresh ==> (transaction@.fetched matches Some(word) ==> word
                    == self@[accesses[transaction@.position].register().spec_offset()]),
            decreases transaction@.remaining(),
        {
            let ghost k = transaction@.position;
            match transaction.request() {
                None => {},
                Some(frame) => {
                    let ghost access = accesses[k];
                    assert(access.register().on_chip());
                    let data = self.exchange(frame);
                    transaction.reply(data);
                    done = done + 1;
                    proof {
                        if transaction@.position == k + 1 {
                            assert(accesses.take(k + 1).drop_last() =~= accesses.take(k));
                            assert(accesses.take(k + 1).last() == access);
                        }
                    }
                },
            }
        }
        if transaction.is_finished() {
            proof {
                assert(accesses.take(transaction@.position) =~= accesses);
                lemma_exchanges_from(accesses, transaction@.position);
                assert(transaction@.remaining() == 0) by {
                    lemma_rest_is_nothing(accesses, transaction@.position);
                }
            }
            transaction.finish()
        } else {
            proof {
                lemma_pending_counts(transaction@);
            }
            transaction.fail(error)
        }
    }
}

/// Nothing is left to exchange behind the last access.
proof fn lemma_rest_is_nothing(accesses: Seq<Access>, position: int)
    requires
        position >= accesses.len(),
    ensures
        exchanges_from(accesses, position) == 0,
{
}

/// A transaction that is not over has at least one exchange left.
proof fn lemma_pending_counts(progress: Progress)
    requires
        progress.wf(),
        !progress.finished(),
    ensures
        progress.remaining() >= 1,
{
    lemma_exchanges_from(progress.accesses, progress.position + 1);
}

} // verus!
