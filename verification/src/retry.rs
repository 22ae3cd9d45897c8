//! Adaptive retry schedule of the implicit integrators: when a Newton solve
//! fails, the step is retried from the saved state with twice as many equal
//! substeps, up to a fixed number of levels.

use vstd::prelude::*;
use vstd::arithmetic::power2::pow2;

verus! {

/// Deepest retry level; level 0 is the undivided step.
pub const MAX_ADAPTIVE_RETRY_LEVELS: usize = 4;

/// Number of equal substeps the step is divided into at `retry_level`.
pub fn retry_subdivisions(retry_level: usize) -> (count: usize)
    requires
        retry_level <= MAX_ADAPTIVE_RETRY_LEVELS,
    ensures
        count == pow2(retry_level as nat),
{
    proof {
        vstd::arithmetic::power2::lemma2_to64();
        vstd::bits::lemma_usize_shl_is_mul(1, retry_level);
    }
    1usize << retry_level
}

/// Each retry level doubles the number of substeps, from a single step up
/// to sixteen at the deepest level.
pub proof fn lemma_retries_double_the_substeps(retry_level: nat)
    requires
        retry_level < MAX_ADAPTIVE_RETRY_LEVELS,
    ensures
        pow2(retry_level + 1) == 2 * pow2(retry_level),
        pow2(0) == 1,
        pow2(MAX_ADAPTIVE_RETRY_LEVELS as nat) == 16,
{
    vstd::arithmetic::power2::lemma2_to64();
    vstd::arithmetic::power2::lemma_pow2_unfold(retry_level + 1);
}

/// How the last attempted substep ended.
#[derive(Clone, Copy, Debug, PartialEq, Eq, Structural)]
pub enum SubstepOutcome {
    /// The substep's Newton solve converged.
    Converged,
    /// The substep was refused as an invalid time step (reported at once by
    /// backward Euler, which does not retry it).
    InvalidTimeStep,
    /// The Newton solve failed; the step is retried more finely.
    Failed,
}

/// What the integrator does next within one step.
#[derive(Clone, Copy, Debug, PartialEq, Eq, Structural)]
pub enum RetryAction {
    /// Solve substep `subdivision` of level `retry_level` next.
    Solve { retry_level: usize, subdivision: usize },
    /// Count one rejected substep and one adaptive retry, restore the saved
    /// state, and start again at substep 0 of `retry_level`.
    Restart { retry_level: usize },
    /// Every substep of the current level converged: the step succeeded.
    Succeeded,
    /// Restore the saved state and report the invalid time step.
    Abort,
    /// Count one rejected substep; every level failed, so restore the saved
    /// state and report the last error.
    GiveUp,
}

pub open spec fn spec_next_retry_action(retry_level: int, subdivision: int, outcome: SubstepOutcome) -> RetryAction {
    match outcome {
        SubstepOutcome::Converged => if subdivision + 1 < pow2(retry_level as nat) {
            RetryAction::Solve { retry_level: retry_level as usize, subdivision: (subdivision + 1) as usize }
        } else {
            RetryAction::Succeeded
        },
        SubstepOutcome::InvalidTimeStep => RetryAction::Abort,
        SubstepOutcome::Failed => if retry_level < MAX_ADAPTIVE_RETRY_LEVELS {
            RetryAction::Restart { retry_level: (retry_level + 1) as usize }
        } else {
            RetryAction::GiveUp
        },
    }
}

/// Decide what follows substep `subdivision` of level `retry_level`, given
/// how it ended. A step starts by solving substep 0 of level 0.
pub fn next_retry_action(retry_level: usize, subdivision: usize, outcome: SubstepOutcome) -> (action: RetryAction)
    requires
        retry_level <= MAX_ADAPTIVE_RETRY_LEVELS,
        subdivision < pow2(retry_level as nat),
    ensures
        action == spec_next_retry_action(retry_level as int, subdivision as int, outcome),
{
    match outcome {
        SubstepOutcome::Converged => {
            let count = retry_subdivisions(retry_level);
            if subdivision + 1 < count {
                RetryAction::Solve { retry_level, subdivision: subdivision + 1 }
            } else {
                RetryAction::Succeeded
            }
        },
        SubstepOutcome::InvalidTimeStep => RetryAction::Abort,
        SubstepOutcome::Failed => {
            if retry_level < MAX_ADAPTIVE_RETRY_LEVELS {
                RetryAction::Restart { retry_level: retry_level + 1 }
            } else {
                RetryAction::GiveUp
            }
        },
    }
}

/// Substep solves a step may still make from substep `subdivision` of
/// `retry_level`: the rest of this level and every finer level up to
/// `MAX_ADAPTIVE_RETRY_LEVELS`, which is 4.
pub open spec fn solves_left(retry_level: int, subdivision: int) -> int
    decreases 5 - retry_level,
{
    if retry_level < 0 || retry_level > 4 {
        0
    } else {
        pow2(retry_level as nat) - subdivision + solves_left(retry_level + 1, 0)
    }
}

/// Every step ends: it starts with at most thirty-one substep solves
/// available, each action that solves again strictly consumes them, and a
/// step only succeeds after the last substep of its level converged.
pub proof fn lemma_retry_terminates(retry_level: int, subdivision: int, outcome: SubstepOutcome)
    requires
        0 <= retry_level <= MAX_ADAPTIVE_RETRY_LEVELS,
        0 <= subdivision < pow2(retry_level as nat),
    ensures
        solves_left(0, 0) == 31,
        solves_left(retry_level, subdivision) >= 1,
        spec_next_retry_action(retry_level, subdivision, outcome) matches RetryAction::Solve {
            retry_level: level,
            subdivision: next,
        } ==> level == retry_level && next < pow2(level as nat) && solves_left(level as int, next as int)
            < solves_left(retry_level, subdivision),
        spec_next_retry_action(retry_level, subdivision, outcome) matches RetryAction::Restart {
            retry_level: level,
        } ==> level == retry_level + 1 && solves_left(level as int, 0) < solves_left(retry_level, subdivision),
        spec_next_retry_action(retry_level, subdivision, outcome) == RetryAction::Succeeded ==> outcome
            == SubstepOutcome::Converged && subdivision + 1 == pow2(retry_level as nat),
{
    vstd::arithmetic::power2::lemma2_to64();
    reveal_with_fuel(solves_left, 6);
    assert(solves_left(5, 0) == 0);
    assert(solves_left(4, 0) == 16);
    assert(solves_left(3, 0) == 24);
    assert(solves_left(2, 0) == 28);
    assert(solves_left(1, 0) == 30);
    assert(solves_left(0, 0) == 31);
    assert(solves_left(retry_level, subdivision) == pow2(retry_level as nat) - subdivision + solves_left(
        retry_level + 1,
        0,
    ));
    if retry_level < MAX_ADAPTIVE_RETRY_LEVELS {
        assert(solves_left(retry_level + 1, 0) == pow2((retry_level + 1) as nat) + solves_left(
            retry_level + 2,
            0,
        ));
    }
}

/// What each outcome leads to, for every level and substep: a converged
/// substep that is not the last of its level continues with the next
/// substep of the same level, the last converged substep completes the
/// step, an invalid time step aborts, and a failure restarts one level finer
/// until the deepest level, where the step gives up.
pub proof fn lemma_retry_actions(retry_level: int, subdivision: int)
    requires
        0 <= retry_level <= MAX_ADAPTIVE_RETRY_LEVELS,
        0 <= subdivision < pow2(retry_level as nat),
    ensures
        subdivision + 1 < pow2(retry_level as nat) ==> spec_next_retry_action(
            retry_level,
            subdivision,
            SubstepOutcome::Converged,
        ) == (RetryAction::Solve { retry_level: retry_level as usize, subdivision: (subdivision + 1) as usize }),
        subdivision + 1 == pow2(retry_level as nat) ==> spec_next_retry_action(
            retry_level,
            subdivision,
            SubstepOutcome::Converged,
        ) == RetryAction::Succeeded,
        spec_next_retry_action(retry_level, subdivision, SubstepOutcome::InvalidTimeStep) == RetryAction::Abort,
        retry_level < MAX_ADAPTIVE_RETRY_LEVELS ==> spec_next_retry_action(
            retry_level,
            subdivision,
            SubstepOutcome::Failed,
        ) == (RetryAction::Restart { retry_level: (retry_level + 1) as usize }),
        retry_level == MAX_ADAPTIVE_RETRY_LEVELS ==> spec_next_retry_action(
            retry_level,
            subdivision,
            SubstepOutcome::Failed,
        ) == RetryAction::GiveUp,
{
}

} // verus!
