use vstd::prelude::*;
use super::gpio::{
    export_actions, input_actions, output_actions, release_actions, Action, ControlFile, Payload,
};

verus! {

/// What the kernel makes of one action, given the lines that are exported:
/// the lines that are exported afterwards, and whether the sequence that
/// the action belongs to goes on.
///
/// The kernel refuses to export a line that is exported and to take back an
/// export that is not there, and a line has control files only while it is
/// exported. A refused action stops its sequence unless it is best-effort.
/// The value file and the poller are not the kernel's export state: actions
/// on them go through.
pub open spec fn action_effect(exported: Set<usize>, action: Action) -> (Set<usize>, bool) {
    match action {
        Action::Write { file, payload, best_effort } => match (file, payload) {
            (ControlFile::Export, Payload::Line(pin)) => if exported.contains(pin) {
                (exported, best_effort)
            } else {
                (exported.insert(pin), true)
            },
            (ControlFile::Unexport, Payload::Line(pin)) => if exported.contains(pin) {
                (exported.remove(pin), true)
            } else {
                (exported, best_effort)
            },
            (ControlFile::Export, _) => (exported, best_effort),
            (ControlFile::Unexport, _) => (exported, best_effort),
            (ControlFile::Direction(pin), _) => (exported, exported.contains(pin) || best_effort),
            (ControlFile::Value(pin), _) => (exported, exported.contains(pin) || best_effort),
            (ControlFile::EdgeMode(pin), _) => (exported, exported.contains(pin) || best_effort),
        },
        Action::Open { file, writable } => match file {
            ControlFile::Direction(pin) => (exported, exported.contains(pin)),
            ControlFile::Value(pin) => (exported, exported.contains(pin)),
            ControlFile::EdgeMode(pin) => (exported, exported.contains(pin)),
            _ => (exported, true),
        },
        _ => (exported, true),
    }
}

/// What the kernel makes of a sequence of actions: each is performed in
/// turn until one stops the sequence.
pub open spec fn actions_effect(exported: Set<usize>, actions: Seq<Action>) -> (Set<usize>, bool)
    decreases actions.len(),
{
    if actions.len() == 0 {
        (exported, true)
    } else {
        let (next, go_on) = action_effect(exported, actions[0]);
        if go_on {
            actions_effect(next, actions.subrange(1, actions.len() as int))
        } else {
            (next, false)
        }
    }
}

/// Exporting a line goes through whether or not the line was exported
/// before, and leaves it exported.
pub proof fn lemma_export_goes_through(exported: Set<usize>, pin: usize)
    ensures
        actions_effect(exported, export_actions(pin)) == (exported.insert(pin), true),
{
    reveal_with_fuel(actions_effect, 3);
    let actions = export_actions(pin);
    let (middle, first) = action_effect(exported, actions[0]);
    assert(first);
    assert(middle == exported.remove(pin));
    let rest = actions.subrange(1, 2);
    assert(rest[0] == actions[1]);
    assert(rest.subrange(1, 1) =~= Seq::<Action>::empty());
    assert(middle.insert(pin) =~= exported.insert(pin));
    assert(actions_effect(middle, rest) == (middle.insert(pin), true));
}

/// A line can be claimed as an input or as an output exactly when it is
/// exported, and a claim changes nothing about which lines are exported.
pub proof fn lemma_claim_needs_export(exported: Set<usize>, pin: usize)
    ensures
        actions_effect(exported, input_actions(pin)) == (exported, exported.contains(pin)),
        actions_effect(exported, output_actions(pin)) == (exported, exported.contains(pin)),
{
    reveal_with_fuel(actions_effect, 3);
    let input = input_actions(pin);
    let output = output_actions(pin);
    assert(input.subrange(1, 2)[0] == input[1]);
    assert(input.subrange(1, 2).subrange(1, 1) =~= Seq::<Action>::empty());
    assert(output.subrange(1, 2)[0] == output[1]);
    assert(output.subrange(1, 2).subrange(1, 1) =~= Seq::<Action>::empty());
    if exported.contains(pin) {
        assert(actions_effect(exported, input.subrange(1, 2)) == (exported, true));
        assert(actions_effect(exported, output.subrange(1, 2)) == (exported, true));
    }
}

/// A handle that exported its line takes the export back when it is
/// released, and that cannot fail; a handle that did not export its line
/// does nothing at all, so an export that it never made is never taken back.
pub proof fn lemma_release_effect(exported: Set<usize>, pin: usize, by_handle: bool)
    ensures
        by_handle ==> actions_effect(exported, release_actions(pin, true)) == (
            exported.remove(pin),
            true,
        ),
        !by_handle ==> release_actions(pin, false).len() == 0 && actions_effect(
            exported,
            release_actions(pin, false),
        ) == (exported, true),
{
    reveal_with_fuel(actions_effect, 3);
    let actions = release_actions(pin, true);
    assert(actions.subrange(1, 1) =~= Seq::<Action>::empty());
    if !exported.contains(pin) {
        assert(exported.remove(pin) =~= exported);
    }
}

} // verus!
