use vstd::prelude::*;
use super::base::{
    content, latched, mode_of_code, run_effect, step_effect, BlockState,
};
use super::gpio::{
    bank, input_steps, level_in, line_bit, output_steps, pull_steps, release_steps, select_shift,
    write_step, Step, GPIO_LINES, PULL_HOLD_USEC,
};
use super::{GPIORegister, PullUpDnControl};
use crate::bits::{
    bit32, lemma_bit_cleared, lemma_bit_nonzero, lemma_bit_set, lemma_field_clear_frame,
    lemma_field_cleared, lemma_field_fill_frame, lemma_field_filled,
};
use crate::logic::Logic;
use crate::map::BLOCK_WORDS;

verus! {

/// Whether every line but `pin` has the same function in both states.
pub open spec fn keeps_other_functions(before: BlockState, after: BlockState, pin: usize) -> bool {
    forall|q: usize|
        q < GPIO_LINES && q != pin ==> #[trigger] after.function_of(q) == before.function_of(q)
}

/// Whether every line but `pin` has the same level in both states.
pub open spec fn keeps_other_levels(before: BlockState, after: BlockState, pin: usize) -> bool {
    forall|q: usize| q < GPIO_LINES && q != pin ==> #[trigger] after.level_of(q) == before.level_of(q)
}

/// Whether every line but `pin` has the same bias in both states.
pub open spec fn keeps_other_pulls(before: BlockState, after: BlockState, pin: usize) -> bool {
    forall|q: int| 0 <= q < GPIO_LINES && q != pin ==> #[trigger] after.pulls[q] == before.pulls[q]
}

/// Performing a sequence extended by one step is performing the sequence and then the step.
pub proof fn lemma_run_push(state: BlockState, steps: Seq<Step>, step: Step)
    ensures
        run_effect(state, steps.push(step)) == step_effect(run_effect(state, steps), step),
{
    assert(steps.push(step).drop_last() =~= steps);
}

/// Performing two sequences one after the other is performing their concatenation.
pub proof fn lemma_run_concat(state: BlockState, first: Seq<Step>, second: Seq<Step>)
    ensures
        run_effect(state, first + second) == run_effect(run_effect(state, first), second),
    decreases second.len(),
{
    if second.len() == 0 {
        assert(first + second =~= first);
    } else {
        lemma_run_concat(state, first, second.drop_last());
        assert((first + second).drop_last() =~= first + second.drop_last());
    }
}

/// Clearing the function-select field of a line makes it an input and touches nothing else.
pub proof fn lemma_release_effect(state: BlockState, pin: usize)
    requires
        state.wf(),
        pin < GPIO_LINES,
    ensures
        ({
            let after = run_effect(state, release_steps(pin));
            &&& after.wf()
            &&& after.function_of(pin) == 0
            &&& keeps_other_functions(state, after, pin)
            &&& forall|i: int| 6 <= i < BLOCK_WORDS ==> after.words[i] == state.words[i]
            &&& after.pulls == state.pulls
        }),
{
    let step = release_steps(pin)[0];
    assert(release_steps(pin) =~= Seq::<Step>::empty().push(step));
    lemma_run_push(state, Seq::<Step>::empty(), step);
    let after = run_effect(state, release_steps(pin));
    let word = state.words[(pin / 10) as int];
    let shift = select_shift(pin);
    assert(after.words == state.words.update((pin / 10) as int, word & !(7u32 << shift)));
    lemma_field_cleared(word, shift);
    assert forall|q: usize| q < GPIO_LINES && q != pin implies #[trigger] after.function_of(q)
        == state.function_of(q) by {
        if q / 10 == pin / 10 {
            lemma_field_clear_frame(word, shift, select_shift(q));
        }
    }
}

/// Or-ing a function code into a cleared function-select field gives the
/// line that function and touches nothing else.
pub proof fn lemma_select_effect(state: BlockState, pin: usize, code: u32)
    requires
        state.wf(),
        pin < GPIO_LINES,
        code <= 7,
        state.function_of(pin) == 0,
    ensures
        ({
            let after = step_effect(
                state,
                Step::BitOr {
                    register: GPIORegister::GPIOFunctionSelect(pin / 10),
                    data: code << select_shift(pin),
                },
            );
            &&& after.wf()
            &&& after.function_of(pin) == code
            &&& keeps_other_functions(state, after, pin)
            &&& forall|i: int| 6 <= i < BLOCK_WORDS ==> after.words[i] == state.words[i]
            &&& after.pulls == state.pulls
        }),
{
    let register = GPIORegister::GPIOFunctionSelect(pin / 10);
    let shift = select_shift(pin);
    let after = step_effect(state, Step::BitOr { register, data: code << shift });
    let word = state.words[(pin / 10) as int];
    assert(after.words == state.words.update((pin / 10) as int, word | (code << shift)));
    lemma_field_filled(word, shift, code);
    assert forall|q: usize| q < GPIO_LINES && q != pin implies #[trigger] after.function_of(q)
        == state.function_of(q) by {
        if q / 10 == pin / 10 {
            lemma_field_fill_frame(word, shift, select_shift(q), code);
        }
    }
}

/// Driving a line puts the level on it and touches no other line, no
/// function and no bias.
pub proof fn lemma_write_effect(state: BlockState, pin: usize, level: Logic)
    requires
        state.wf(),
        pin < GPIO_LINES,
    ensures
        ({
            let after = step_effect(state, write_step(pin, level));
            &&& after.wf()
            &&& after.level_of(pin) == level
            &&& keeps_other_levels(state, after, pin)
            &&& forall|i: int|
                0 <= i < BLOCK_WORDS && i != 13 + bank(pin) ==> after.words[i] == state.words[i]
            &&& after.pulls == state.pulls
        }),
{
    let after = step_effect(state, write_step(pin, level));
    let index = 13 + bank(pin);
    let word = state.words[index];
    let bit = (pin % 32) as u32;
    assert(line_bit(pin) == 1u32 << bit);
    match level {
        Logic::High => {
            assert(after.words == state.words.update(index, word | (1u32 << bit)));
            lemma_bit_set(word, bit, bit);
        },
        Logic::Low => {
            assert(after.words == state.words.update(index, word & !(1u32 << bit)));
            lemma_bit_cleared(word, bit, bit);
        },
    }
    assert forall|q: usize| q < GPIO_LINES && q != pin implies #[trigger] after.level_of(q)
        == state.level_of(q) by {
        if bank(q) == bank(pin) {
            let other = (q % 32) as u32;
            lemma_bit_set(word, bit, other);
            lemma_bit_cleared(word, bit, other);
        }
    }
}

/// The pull-up/down sequence latches the bias into its line and into no
/// other, and leaves the enable register and the clock register of the
/// line's bank at zero: a protocol that was at rest is at rest again.
pub proof fn lemma_pull_effect(state: BlockState, pin: usize, mode: PullUpDnControl)
    requires
        state.wf(),
        pin < GPIO_LINES,
    ensures
        ({
            let after = run_effect(state, pull_steps(pin, mode));
            &&& after.wf()
            &&& after.pulls[pin as int] == mode
            &&& keeps_other_pulls(state, after, pin)
            &&& after.words[37] == 0
            &&& after.words[38 + bank(pin)] == 0
            &&& forall|i: int|
                0 <= i < BLOCK_WORDS && i != 37 && i != 38 + bank(pin) ==> after.words[i]
                    == state.words[i]
            &&& state.pull_idle() ==> after.pull_idle()
        }),
{
    let enable = GPIORegister::GPIOPinPullUpDownEnable;
    let clock = GPIORegister::GPIOPinPullUpDownEnableClock(bank(pin));
    let hold = Step::Hold { usec: PULL_HOLD_USEC };
    let enable_on = Step::Write { register: enable, data: mode.spec_pud() };
    let clock_on = Step::Write { register: clock, data: line_bit(pin) };
    let enable_off = Step::Write { register: enable, data: 0 };
    let clock_off = Step::Write { register: clock, data: 0 };
    let e = Seq::<Step>::empty();
    let first = e.push(enable_on);
    let second = first.push(hold);
    let third = second.push(clock_on);
    let fourth = third.push(hold);
    let fifth = fourth.push(enable_off);
    let sixth = fifth.push(hold);
    let seventh = sixth.push(clock_off);
    let eighth = seventh.push(hold);
    assert(pull_steps(pin, mode) =~= eighth);
    lemma_run_push(state, e, enable_on);
    lemma_run_push(state, first, hold);
    lemma_run_push(state, second, clock_on);
    lemma_run_push(state, third, hold);
    lemma_run_push(state, fourth, enable_off);
    lemma_run_push(state, fifth, hold);
    lemma_run_push(state, sixth, clock_off);
    lemma_run_push(state, seventh, hold);
    let enabled = step_effect(state, enable_on);
    let clocked = step_effect(enabled, clock_on);
    let disabled = step_effect(clocked, enable_off);
    let rested = step_effect(disabled, clock_off);
    assert(run_effect(state, eighth) == rested);
    let code = mode.spec_pud();
    let bit = (pin % 32) as u32;
    assert(enabled.words == state.words.update(37, code));
    assert(enabled.pulls == state.pulls);
    assert(mode_of_code(code) == Some(mode)) by {
        assert(0u32 & 3 == 0 && 1u32 & 3 == 1 && 2u32 & 3 == 2) by (bit_vector);
    }
    lemma_bit_nonzero(bit);
    assert(clocked.pulls == latched(state.pulls, code, bank(pin), 1u32 << bit));
    assert(clocked.pulls[pin as int] == mode);
    assert forall|q: int| 0 <= q < GPIO_LINES && q != pin implies #[trigger] clocked.pulls[q]
        == state.pulls[q] by {
        if q / 32 == bank(pin) {
            let other = (q % 32) as u32;
            assert(other < 32 && other != bit);
            assert(!bit32(1u32 << bit, other));
        }
    }
    assert(disabled.pulls == clocked.pulls);
    assert(rested.pulls =~= disabled.pulls) by {
        assert forall|i: u32| !bit32(0u32, i) by {
            assert(0u32 & (1u32 << i) == 0) by (bit_vector);
        }
    }
}

/// Two pull-up/down sequences on different lines, each performed whole, do
/// not disturb each other: in whichever order they are performed, both
/// lines end with their own bias, no other line changes its bias, and a
/// protocol that was at rest is at rest again, with the block in the same
/// state.
pub proof fn lemma_pull_sequences_independent(
    state: BlockState,
    first: usize,
    first_mode: PullUpDnControl,
    second: usize,
    second_mode: PullUpDnControl,
)
    requires
        state.wf(),
        first < GPIO_LINES,
        second < GPIO_LINES,
        first != second,
        state.pull_idle(),
    ensures
        ({
            let one_way = run_effect(
                run_effect(state, pull_steps(first, first_mode)),
                pull_steps(second, second_mode),
            );
            let other_way = run_effect(
                run_effect(state, pull_steps(second, second_mode)),
                pull_steps(first, first_mode),
            );
            &&& one_way == other_way
            &&& one_way.pull_idle()
            &&& one_way.pulls[first as int] == first_mode
            &&& one_way.pulls[second as int] == second_mode
            &&& forall|q: int|
                0 <= q < GPIO_LINES && q != first && q != second ==> one_way.pulls[q]
                    == state.pulls[q]
            &&& one_way.words == state.words
        }),
{
    let a = run_effect(state, pull_steps(first, first_mode));
    let b = run_effect(state, pull_steps(second, second_mode));
    lemma_pull_effect(state, first, first_mode);
    lemma_pull_effect(state, second, second_mode);
    lemma_pull_effect(a, second, second_mode);
    lemma_pull_effect(b, first, first_mode);
    let one_way = run_effect(a, pull_steps(second, second_mode));
    let other_way = run_effect(b, pull_steps(first, first_mode));
    assert(one_way.words =~= state.words);
    assert(other_way.words =~= state.words);
    assert(one_way.pulls =~= other_way.pulls);
}

/// Claiming a line as an input leaves it with the input function and, where
/// a bias was asked for, with that bias; no other line changes its function
/// or its bias, and no line changes its level.
pub proof fn lemma_input_effect(state: BlockState, pin: usize, pull: Option<PullUpDnControl>)
    requires
        state.wf(),
        pin < GPIO_LINES,
    ensures
        ({
            let after = run_effect(state, input_steps(pin, pull));
            &&& after.wf()
            &&& after.function_of(pin) == 0
            &&& keeps_other_functions(state, after, pin)
            &&& forall|q: usize| q < GPIO_LINES ==> #[trigger] after.level_of(q) == state.level_of(q)
            &&& pull matches Some(mode) ==> after.pulls[pin as int] == mode
            &&& pull is None ==> after.pulls[pin as int] == state.pulls[pin as int]
            &&& keeps_other_pulls(state, after, pin)
            &&& state.pull_idle() ==> after.pull_idle()
        }),
{
    lemma_release_effect(state, pin);
    let middle = run_effect(state, release_steps(pin));
    match pull {
        Some(mode) => {
            lemma_run_concat(state, release_steps(pin), pull_steps(pin, mode));
            lemma_pull_effect(middle, pin, mode);
            let after = run_effect(middle, pull_steps(pin, mode));
            assert forall|q: usize| q < GPIO_LINES implies #[trigger] after.function_of(q)
                == middle.function_of(q) by {}
            assert forall|q: usize| q < GPIO_LINES implies #[trigger] after.level_of(q)
                == state.level_of(q) by {}
        },
        None => {
            let after = middle;
            assert forall|q: usize| q < GPIO_LINES implies #[trigger] after.level_of(q)
                == state.level_of(q) by {}
        },
    }
}

/// Claiming a line as an output leaves it with the output function and at
/// the level that was asked for; no other line changes its function or its
/// level, and no line changes its bias.
pub proof fn lemma_output_effect(state: BlockState, pin: usize, value: usize)
    requires
        state.wf(),
        pin < GPIO_LINES,
    ensures
        ({
            let after = run_effect(state, output_steps(pin, value));
            &&& after.wf()
            &&& after.function_of(pin) == 1
            &&& keeps_other_functions(state, after, pin)
            &&& after.level_of(pin) == Logic::of_int(value as int)
            &&& keeps_other_levels(state, after, pin)
            &&& after.pulls == state.pulls
        }),
{
    let level = Logic::of_int(value as int);
    let clear = release_steps(pin)[0];
    let drive = write_step(pin, level);
    let select = Step::BitOr {
        register: GPIORegister::GPIOFunctionSelect(pin / 10),
        data: 1u32 << select_shift(pin),
    };
    let e = Seq::<Step>::empty();
    assert(release_steps(pin) =~= e.push(clear));
    assert(output_steps(pin, value) =~= e.push(clear).push(drive).push(select));
    lemma_run_push(state, e.push(clear), drive);
    lemma_run_push(state, e.push(clear).push(drive), select);
    let cleared = run_effect(state, release_steps(pin));
    let driven = step_effect(cleared, drive);
    let selected = step_effect(driven, select);
    assert(run_effect(state, output_steps(pin, value)) == selected);
    lemma_release_effect(state, pin);
    lemma_write_effect(cleared, pin, level);
    assert forall|q: usize| q < GPIO_LINES implies #[trigger] driven.function_of(q) == cleared.function_of(
        q,
    ) by {}
    lemma_select_effect(driven, pin, 1);
    assert forall|q: usize| q < GPIO_LINES implies #[trigger] selected.level_of(q) == driven.level_of(q) by {}
    assert forall|q: usize| q < GPIO_LINES implies #[trigger] cleared.level_of(q) == state.level_of(
        q,
    ) by {}
}

/// A line that was claimed as an output and then driven to a level reads
/// back at that level, whatever the block held before and whatever level the
/// claim asked for.
pub proof fn lemma_output_write_read(state: BlockState, pin: usize, value: usize, level: Logic)
    requires
        state.wf(),
        pin < GPIO_LINES,
    ensures
        ({
            let claimed = run_effect(state, output_steps(pin, value));
            let driven = step_effect(claimed, write_step(pin, level));
            &&& driven.level_of(pin) == level
            &&& driven.function_of(pin) == 1
            &&& level_in(content(driven, GPIORegister::GPIOPinLevel(bank(pin))), pin) == level
        }),
{
    lemma_output_effect(state, pin, value);
    let claimed = run_effect(state, output_steps(pin, value));
    lemma_write_effect(claimed, pin, level);
}

} // verus!
