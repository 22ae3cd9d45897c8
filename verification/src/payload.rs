//! Who controls the payload of a running simulation.
//!
//! The payload is either free (advanced by the integrator like any other
//! node), prescribed to a kinematic target (optionally moving along an
//! interpolated trajectory), or held by the position-based manipulation
//! solver. This module tracks which mechanism is active, as the simulation's
//! optional target, trajectory, manipulation target and last manipulation
//! step record it, and how each operation changes that.

use vstd::prelude::*;

verus! {

/// Which of the simulation's optional payload controls are present.
#[derive(Clone, Copy, Debug, PartialEq, Eq, Structural)]
pub struct PayloadControl {
    /// A kinematic target prescribes the payload for the integrators.
    pub has_payload_target: bool,
    /// The target moves along an interpolated trajectory.
    pub has_payload_motion: bool,
    /// The manipulation solver holds the payload.
    pub has_manipulation_target: bool,
    /// A manipulation step was taken and can be handed to the integrator.
    pub has_last_manipulation_step: bool,
}

/// How one simulation step advances the rope.
#[derive(Clone, Copy, Debug, PartialEq, Eq, Structural)]
pub enum StepPath {
    /// The manipulation solver relaxes the rope around the held payload.
    Manipulation,
    /// The selected time integrator advances the rope.
    Integrator,
}

impl PayloadControl {
    /// The mechanisms never overlap: manipulation excludes a prescribed
    /// target, a trajectory always has a current target, and a recorded
    /// manipulation step only exists while manipulating.
    pub open spec fn well_formed(self) -> bool {
        &&& self.has_manipulation_target ==> !self.has_payload_target && !self.has_payload_motion
        &&& self.has_payload_motion ==> self.has_payload_target
        &&& self.has_last_manipulation_step ==> self.has_manipulation_target
    }

    pub open spec fn is_free(self) -> bool {
        !self.has_payload_target && !self.has_payload_motion && !self.has_manipulation_target
            && !self.has_last_manipulation_step
    }

    /// A new or reset simulation starts with a free payload.
    pub fn new() -> (control: Self)
        ensures
            control.is_free(),
            control.well_formed(),
    {
        PayloadControl {
            has_payload_target: false,
            has_payload_motion: false,
            has_manipulation_target: false,
            has_last_manipulation_step: false,
        }
    }

    /// Whether the manipulation solver currently owns the state.
    pub fn manipulation_active(&self) -> (active: bool)
        ensures
            active == self.has_manipulation_target,
    {
        self.has_manipulation_target
    }

    /// Whether the integrators treat the payload as prescribed rather than
    /// dynamic.
    pub fn payload_prescribed(&self) -> (prescribed: bool)
        ensures
            prescribed == self.has_payload_target,
    {
        self.has_payload_target
    }

    /// Prescribe the payload (`target_given`) or return it to dynamic motion;
    /// either way manipulation and any trajectory end.
    pub fn set_payload_target(&mut self, target_given: bool)
        ensures
            *final(self) == (PayloadControl {
                has_payload_target: target_given,
                has_payload_motion: false,
                has_manipulation_target: false,
                has_last_manipulation_step: false,
            }),
            final(self).well_formed(),
    {
        self.has_manipulation_target = false;
        self.has_last_manipulation_step = false;
        self.has_payload_motion = false;
        self.has_payload_target = target_given;
    }

    /// Start moving the payload along a trajectory from where it is. A
    /// trajectory of invalid duration is refused and changes nothing.
    pub fn interpolate_payload_target(&mut self, duration_valid: bool) -> (accepted: bool)
        ensures
            accepted == duration_valid,
            accepted ==> *final(self) == (PayloadControl {
                has_payload_target: true,
                has_payload_motion: true,
                has_manipulation_target: false,
                has_last_manipulation_step: false,
            }),
            !accepted ==> *final(self) == *old(self),
            old(self).well_formed() ==> final(self).well_formed(),
    {
        if !duration_valid {
            return false;
        }
        self.has_manipulation_target = false;
        self.has_last_manipulation_step = false;
        self.has_payload_target = true;
        self.has_payload_motion = true;
        true
    }

    /// Release a prescribed payload: it becomes free.
    pub fn release_payload(&mut self)
        ensures
            final(self).is_free(),
            final(self).well_formed(),
    {
        self.has_manipulation_target = false;
        self.has_last_manipulation_step = false;
        self.has_payload_motion = false;
        self.has_payload_target = false;
    }

    /// Hand the payload to the manipulation solver. A manipulation already
    /// in progress keeps its last step.
    pub fn set_manipulation_target(&mut self)
        ensures
            *final(self) == (PayloadControl {
                has_payload_target: false,
                has_payload_motion: false,
                has_manipulation_target: true,
                has_last_manipulation_step: old(self).has_manipulation_target
                    && old(self).has_last_manipulation_step,
            }),
            final(self).well_formed(),
    {
        self.has_payload_motion = false;
        self.has_payload_target = false;
        if !self.has_manipulation_target {
            self.has_last_manipulation_step = false;
        }
        self.has_manipulation_target = true;
    }

    /// End manipulation. Returns whether a last manipulation step exists to
    /// be corrected by the integrator before the handoff.
    pub fn release_manipulation(&mut self) -> (handoff: bool)
        ensures
            handoff == old(self).has_last_manipulation_step,
            *final(self) == (PayloadControl {
                has_manipulation_target: false,
                has_last_manipulation_step: false,
                ..*old(self)
            }),
            old(self).well_formed() ==> final(self).well_formed(),
    {
        let handoff = self.has_last_manipulation_step;
        self.has_manipulation_target = false;
        self.has_last_manipulation_step = false;
        handoff
    }

    /// Record one successful step. `motion_finished` says whether the step
    /// reached the end of the payload trajectory; a finished trajectory
    /// leaves the payload held at its end target.
    pub fn step(&mut self, motion_finished: bool) -> (path: StepPath)
        ensures
            old(self).well_formed() ==> final(self).well_formed(),
            old(self).has_manipulation_target ==> path == StepPath::Manipulation && *final(self) == (
            PayloadControl { has_last_manipulation_step: true, ..*old(self) }),
            !old(self).has_manipulation_target ==> path == StepPath::Integrator && *final(self) == (
            PayloadControl {
                has_payload_motion: old(self).has_payload_motion && !motion_finished,
                ..*old(self)
            }),
    {
        if self.has_manipulation_target {
            self.has_last_manipulation_step = true;
            StepPath::Manipulation
        } else {
            if self.has_payload_motion && motion_finished {
                self.has_payload_motion = false;
            }
            StepPath::Integrator
        }
    }
}

/// Ending manipulation leaves no control behind: the payload is free, so the
/// integrators advance it as a dynamic node.
pub proof fn lemma_ending_manipulation_frees_the_payload(control: PayloadControl)
    requires
        control.well_formed(),
    ensures
        ({
            let released = PayloadControl {
                has_manipulation_target: false,
                has_last_manipulation_step: false,
                ..control
            };
            control.has_manipulation_target ==> released.is_free()
        }),
{
}

} // verus!
