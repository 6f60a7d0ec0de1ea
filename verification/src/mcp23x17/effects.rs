use vstd::prelude::*;
use super::chip::{access_effect, accesses_effect, accesses_result};
use super::port::{
    defval_access, direction_accesses, gpinten_access, intcon_access, interrupt_accesses,
    keep_access, mask_access, pull_accesses, read_accesses, write_accesses,
};
use super::transaction::Access;
use super::{MCP23X17Register, CHIP_REGISTERS};
use crate::bits::{lemma_mask_cleared, lemma_mask_kept, lemma_mask_set, masked_to};
use crate::logic::Logic;
use crate::sys::Edge;
use crate::RegisterDesc;

verus! {

/// Whether two sets of registers agree everywhere but at `index`.
pub open spec fn same_but(before: Seq<u8>, after: Seq<u8>, index: int) -> bool {
    &&& after.len() == before.len()
    &&& forall|j: int| 0 <= j < before.len() && j != index ==> after[j] == before[j]
}

/// Whether two sets of registers agree everywhere but at three places.
pub open spec fn same_but_three(
    before: Seq<u8>,
    after: Seq<u8>,
    first: int,
    second: int,
    third: int,
) -> bool {
    &&& after.len() == before.len()
    &&& forall|j: int|
        0 <= j < before.len() && j != first && j != second && j != third ==> after[j] == before[j]
}

/// Making the accesses of a sequence extended by one is making the
/// sequence's and then the one.
pub proof fn lemma_accesses_push(registers: Seq<u8>, accesses: Seq<Access>, access: Access)
    ensures
        accesses_effect(registers, accesses.push(access)) == access_effect(
            accesses_effect(registers, accesses),
            access,
        ),
{
    assert(accesses.push(access).drop_last() =~= accesses);
}

/// A sequence of one access does what the access does.
pub proof fn lemma_accesses_single(registers: Seq<u8>, access: Access)
    ensures
        accesses_effect(registers, seq![access]) == access_effect(registers, access),
{
    assert(seq![access] =~= Seq::<Access>::empty().push(access));
    lemma_accesses_push(registers, Seq::<Access>::empty(), access);
}

/// An access that sets or clears the bits of a mask does so in its
/// register, leaves the register's other bits as they were, and touches no
/// other register.
pub proof fn lemma_mask_access(
    registers: Seq<u8>,
    register: MCP23X17Register,
    mask: u8,
    high: bool,
)
    requires
        registers.len() == CHIP_REGISTERS,
        register.on_chip(),
    ensures
        ({
            let after = access_effect(registers, mask_access(register, mask, high));
            let index = register.spec_offset();
            &&& masked_to(registers[index], after[index], mask, high)
            &&& same_but(registers, after, index)
        }),
{
    let index = register.spec_offset();
    if high {
        lemma_mask_set(registers[index], mask);
    } else {
        lemma_mask_cleared(registers[index], mask);
    }
}

/// An access that writes back what it read changes nothing.
pub proof fn lemma_keep_access(registers: Seq<u8>, register: MCP23X17Register)
    requires
        registers.len() == CHIP_REGISTERS,
        register.on_chip(),
    ensures
        access_effect(registers, keep_access(register)) == registers,
{
    let index = register.spec_offset();
    lemma_mask_kept(registers[index]);
    assert(access_effect(registers, keep_access(register)) =~= registers);
}

/// A claim sets the direction bits of its lines for inputs and clears them
/// for outputs; the direction of every other line, and every other
/// register, stays as it was.
pub proof fn lemma_direction_effect(registers: Seq<u8>, port: usize, mask: u8, input: bool)
    requires
        registers.len() == CHIP_REGISTERS,
        port < 2,
    ensures
        ({
            let after = accesses_effect(registers, direction_accesses(port, mask, input));
            &&& masked_to(registers[port as int], after[port as int], mask, input)
            &&& same_but(registers, after, port as int)
        }),
{
    let register = MCP23X17Register::IODIR(port);
    lemma_accesses_single(registers, mask_access(register, mask, input));
    lemma_mask_access(registers, register, mask, input);
}

/// Switching the pull-up resistors touches the pull-up bits of the lines
/// and nothing else.
pub proof fn lemma_pull_effect(registers: Seq<u8>, port: usize, mask: u8, up: bool)
    requires
        registers.len() == CHIP_REGISTERS,
        port < 2,
    ensures
        ({
            let after = accesses_effect(registers, pull_accesses(port, mask, up));
            &&& masked_to(registers[12 + port], after[12 + port], mask, up)
            &&& same_but(registers, after, 12 + port)
        }),
{
    let register = MCP23X17Register::GPPU(port);
    lemma_accesses_single(registers, mask_access(register, mask, up));
    lemma_mask_access(registers, register, mask, up);
}

/// A read changes nothing and returns the levels of the port.
pub proof fn lemma_read_effect(registers: Seq<u8>, port: usize)
    requires
        registers.len() == CHIP_REGISTERS,
        port < 2,
    ensures
        accesses_effect(registers, read_accesses(port)) == registers,
        accesses_result(registers, read_accesses(port)) == Some(registers[18 + port]),
{
    let access = Access::Read { register: MCP23X17Register::GPIO(port) };
    lemma_accesses_single(registers, access);
    assert(read_accesses(port).drop_last() =~= Seq::<Access>::empty());
}

/// A write drives the lines of the mask to the level and leaves the other
/// lines of the port, and every other register, as they were.
pub proof fn lemma_write_effect(registers: Seq<u8>, port: usize, mask: u8, level: Logic)
    requires
        registers.len() == CHIP_REGISTERS,
        port < 2,
    ensures
        ({
            let after = accesses_effect(registers, write_accesses(port, mask, level));
            &&& masked_to(registers[18 + port], after[18 + port], mask, level == Logic::High)
            &&& same_but(registers, after, 18 + port)
        }),
{
    let register = MCP23X17Register::GPIO(port);
    lemma_accesses_single(registers, mask_access(register, mask, level == Logic::High));
    lemma_mask_access(registers, register, mask, level == Logic::High);
}

/// The registers after the lines of a mask were driven to each level of a
/// sequence in turn.
pub open spec fn writes_effect(registers: Seq<u8>, port: usize, mask: u8, levels: Seq<Logic>) -> Seq<
    u8,
>
    decreases levels.len(),
{
    if levels.len() == 0 {
        registers
    } else {
        accesses_effect(
            writes_effect(registers, port, mask, levels.drop_last()),
            write_accesses(port, mask, levels.last()),
        )
    }
}

/// However often the lines of a mask are written, and to whatever levels,
/// the other lines of the port stay as they were, and so does every other
/// register; after the last write the lines of the mask are at its level.
pub proof fn lemma_writes_effect(registers: Seq<u8>, port: usize, mask: u8, levels: Seq<Logic>)
    requires
        registers.len() == CHIP_REGISTERS,
        port < 2,
    ensures
        ({
            let after = writes_effect(registers, port, mask, levels);
            &&& after[18 + port] & !mask == registers[18 + port] & !mask
            &&& same_but(registers, after, 18 + port)
            &&& levels.len() > 0 ==> masked_to(
                registers[18 + port],
                after[18 + port],
                mask,
                levels.last() == Logic::High,
            )
        }),
    decreases levels.len(),
{
    if levels.len() > 0 {
        lemma_writes_effect(registers, port, mask, levels.drop_last());
        let middle = writes_effect(registers, port, mask, levels.drop_last());
        lemma_write_effect(middle, port, mask, levels.last());
    }
}

/// What the interrupt registers of a port hold after an edge was asked for.
///
/// On the lines of the mask: the compare value is high for a rising edge
/// and low for a falling one; the compare mode is set for a single edge and
/// clear for both; the enable bit is set for every edge and clear where
/// interrupts are switched off. What is not named stays as it was: the other
/// lines of each register, the compare value for both edges and for none,
/// the compare mode for none, and every other register.
pub proof fn lemma_interrupt_effect(registers: Seq<u8>, port: usize, mask: u8, edge: Edge)
    requires
        registers.len() == CHIP_REGISTERS,
        port < 2,
    ensures
        ({
            let after = accesses_effect(registers, interrupt_accesses(port, mask, edge));
            let defval = 6 + port;
            let intcon = 8 + port;
            let gpinten = 4 + port;
            &&& same_but_three(registers, after, defval, intcon, gpinten)
            &&& match edge {
                Edge::RisingEdge => masked_to(registers[defval], after[defval], mask, true),
                Edge::FallingEdge => masked_to(registers[defval], after[defval], mask, false),
                Edge::BothEdges => after[defval] == registers[defval],
                Edge::NoInterrupt => after[defval] == registers[defval],
            }
            &&& match edge {
                Edge::RisingEdge => masked_to(registers[intcon], after[intcon], mask, true),
                Edge::FallingEdge => masked_to(registers[intcon], after[intcon], mask, true),
                Edge::BothEdges => masked_to(registers[intcon], after[intcon], mask, false),
                Edge::NoInterrupt => after[intcon] == registers[intcon],
            }
            &&& masked_to(registers[gpinten], after[gpinten], mask, edge != Edge::NoInterrupt)
        }),
{
    let first = defval_access(port, mask, edge);
    let second = intcon_access(port, mask, edge);
    let third = gpinten_access(port, mask, edge);
    let empty = Seq::<Access>::empty();
    assert(interrupt_accesses(port, mask, edge) =~= empty.push(first).push(second).push(third));
    lemma_accesses_push(registers, empty, first);
    lemma_accesses_push(registers, empty.push(first), second);
    lemma_accesses_push(registers, empty.push(first).push(second), third);
    let compared = access_effect(registers, first);
    let moded = access_effect(compared, second);
    let enabled = access_effect(moded, third);
    assert(accesses_effect(registers, interrupt_accesses(port, mask, edge)) == enabled);
    let defval = MCP23X17Register::DEFVAL(port);
    let intcon = MCP23X17Register::INTCON(port);
    let gpinten = MCP23X17Register::GPINTEN(port);
    match edge {
        Edge::RisingEdge => {
            lemma_mask_access(registers, defval, mask, true);
            lemma_mask_access(compared, intcon, mask, true);
        },
        Edge::FallingEdge => {
            lemma_mask_access(registers, defval, mask, false);
            lemma_mask_access(compared, intcon, mask, true);
        },
        Edge::BothEdges => {
            lemma_keep_access(registers, defval);
            lemma_mask_access(compared, intcon, mask, false);
        },
        Edge::NoInterrupt => {
            lemma_keep_access(registers, defval);
            lemma_keep_access(compared, intcon);
        },
    }
    lemma_mask_access(moded, gpinten, mask, edge != Edge::NoInterrupt);
}

/// An interrupt configuration that was ended by a failed exchange before
/// its last access was completed has not touched the enable bits: no line
/// raises an interrupt that did not before, whichever exchange failed.
pub proof fn lemma_interrupt_cut_short(
    registers: Seq<u8>,
    port: usize,
    mask: u8,
    edge: Edge,
    completed: int,
)
    requires
        registers.len() == CHIP_REGISTERS,
        port < 2,
        0 <= completed < 3,
    ensures
        ({
            let after = accesses_effect(
                registers,
                interrupt_accesses(port, mask, edge).take(completed),
            );
            &&& after.len() == CHIP_REGISTERS
            &&& after[4 + port] == registers[4 + port]
            &&& same_but_three(registers, after, 6 + port, 8 + port, 4 + port)
        }),
{
    let all = interrupt_accesses(port, mask, edge);
    let first = defval_access(port, mask, edge);
    let second = intcon_access(port, mask, edge);
    let empty = Seq::<Access>::empty();
    let compared = access_effect(registers, first);
    if completed == 0 {
        assert(all.take(0) =~= empty);
    } else if completed == 1 {
        assert(all.take(1) =~= empty.push(first));
        lemma_accesses_push(registers, empty, first);
    } else {
        assert(all.take(2) =~= empty.push(first).push(second));
        lemma_accesses_push(registers, empty, first);
        lemma_accesses_push(registers, empty.push(first), second);
    }
}

} // verus!
