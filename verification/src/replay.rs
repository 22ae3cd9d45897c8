//! Releasing recorded commands during replay.
//!
//! A replay keeps a cursor into the recorded commands. Each physics step it
//! releases, in recording order, the commands from the cursor on whose
//! recorded time has been reached, and moves the cursor past them, so every
//! command is released once.

use vstd::prelude::*;

verus! {

/// Every command due at some time is preceded only by due commands, as
/// holds for commands in chronological order.
pub open spec fn is_prefix_closed(due: Seq<bool>) -> bool {
    forall|i: int, j: int| 0 <= i < j < due.len() && #[trigger] due[j] ==> #[trigger] due[i]
}

/// Advance the cursor `next_command` past the consecutive commands that are
/// due (`due[i]` says whether command `i`'s time has been reached). The
/// commands in `next_command..end` are released.
pub fn release_due_commands(next_command: usize, due: &[bool]) -> (end: usize)
    requires
        next_command <= due@.len(),
    ensures
        next_command <= end <= due@.len(),
        forall|i: int| next_command <= i < end ==> due@[i],
        end == due@.len() || !due@[end as int],
{
    let mut end = next_command;
    while end < due.len() && due[end]
        invariant
            next_command <= end <= due@.len(),
            forall|i: int| next_command <= i < end ==> due@[i],
        decreases due@.len() - end,
    {
        end = end + 1;
    }
    end
}

/// With commands in chronological order, a cursor that has only passed due
/// commands ends up exactly past the due ones: every due command has been
/// released and no other has.
pub proof fn lemma_exactly_the_due_commands_are_released(due: Seq<bool>, next_command: int, end: int)
    requires
        is_prefix_closed(due),
        0 <= next_command <= end <= due.len(),
        forall|i: int| 0 <= i < next_command ==> due[i],
        forall|i: int| next_command <= i < end ==> due[i],
        end == due.len() || !due[end],
    ensures
        forall|i: int| 0 <= i < due.len() ==> (i < end <==> due[i]),
{
    assert forall|i: int| 0 <= i < due.len() implies (i < end <==> due[i]) by {
        if i >= end && due[i] {
            assert(due[end]);
        }
    }
}

/// As time advances, commands that were due stay due: the commands an
/// earlier release passed are still due at any later time, so a later
/// release starting from the earlier cursor leaves none of them behind.
pub proof fn lemma_later_releases_continue_in_order(earlier: Seq<bool>, later: Seq<bool>, end: int)
    requires
        earlier.len() == later.len(),
        forall|i: int| 0 <= i < earlier.len() && #[trigger] earlier[i] ==> later[i],
        0 <= end <= earlier.len(),
        forall|i: int| 0 <= i < end ==> earlier[i],
    ensures
        forall|i: int| 0 <= i < end ==> later[i],
{
    assert forall|i: int| 0 <= i < end implies later[i] by {
        assert(earlier[i]);
    }
}

} // verus!
