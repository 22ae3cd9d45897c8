//! How a running simulation reacts to a new (already validated)
//! configuration.
//!
//! Changing the number of segments, the rope length or the anchor changes the
//! rope's topology, so the simulation restarts from rest. Any other change is
//! applied in place: positions and velocities are kept, the constitutive
//! state is cleared when the material model changes, and a new integrator is
//! created when the integration method changes.

use vstd::prelude::*;
use crate::kinds::{IntegratorKind, ReconfigureOutcome, RopeModelKind};

verus! {

/// The discrete part of a simulation configuration.
#[derive(Clone, Copy, Debug, PartialEq, Eq, Structural)]
pub struct DiscreteConfig {
    pub segment_count: usize,
    pub rope_model: RopeModelKind,
    pub integrator: IntegratorKind,
}

/// What to do to the running simulation.
#[derive(Clone, Copy, Debug, PartialEq, Eq, Structural)]
pub struct ReconfigurePlan {
    pub outcome: ReconfigureOutcome,
    /// Reset every element's constitutive state in place.
    pub clear_material_state: bool,
    /// Replace the time integrator in place.
    pub replace_integrator: bool,
}

pub open spec fn topology_changed(current: DiscreteConfig, requested: DiscreteConfig, geometry_changed: bool) -> bool {
    current.segment_count != requested.segment_count || geometry_changed
}

pub open spec fn spec_plan_reconfigure(
    current: DiscreteConfig,
    requested: DiscreteConfig,
    geometry_changed: bool,
) -> ReconfigurePlan {
    if topology_changed(current, requested, geometry_changed) {
        ReconfigurePlan {
            outcome: ReconfigureOutcome::Reset,
            clear_material_state: false,
            replace_integrator: false,
        }
    } else {
        ReconfigurePlan {
            outcome: ReconfigureOutcome::Updated,
            clear_material_state: current.rope_model != requested.rope_model,
            replace_integrator: current.integrator != requested.integrator,
        }
    }
}

/// Decide how to apply `requested` to a simulation running `current`.
/// `geometry_changed` says whether the rope length or the anchor differ.
/// A reset rebuilds the whole simulation, so it needs no in-place step.
pub fn plan_reconfigure(current: DiscreteConfig, requested: DiscreteConfig, geometry_changed: bool) -> (plan: ReconfigurePlan)
    ensures
        plan == spec_plan_reconfigure(current, requested, geometry_changed),
{
    let topology_changed = current.segment_count != requested.segment_count || geometry_changed;
    if topology_changed {
        ReconfigurePlan {
            outcome: ReconfigureOutcome::Reset,
            clear_material_state: false,
            replace_integrator: false,
        }
    } else {
        ReconfigurePlan {
            outcome: ReconfigureOutcome::Updated,
            clear_material_state: current.rope_model != requested.rope_model,
            replace_integrator: current.integrator != requested.integrator,
        }
    }
}

/// Reapplying the current configuration changes nothing: the simulation is
/// updated in place with its state and integrator kept.
pub proof fn lemma_reapplying_is_a_no_op(config: DiscreteConfig)
    ensures
        spec_plan_reconfigure(config, config, false) == (ReconfigurePlan {
            outcome: ReconfigureOutcome::Updated,
            clear_material_state: false,
            replace_integrator: false,
        }),
{
}

/// The simulation is reset exactly when the topology changes; switching only
/// the integrator keeps the current state and swaps the integrator.
pub proof fn lemma_reset_exactly_on_topology_change(
    current: DiscreteConfig,
    requested: DiscreteConfig,
    geometry_changed: bool,
)
    ensures
        (spec_plan_reconfigure(current, requested, geometry_changed).outcome == ReconfigureOutcome::Reset)
            <==> (current.segment_count != requested.segment_count || geometry_changed),
        current.segment_count == requested.segment_count && !geometry_changed && current.rope_model
            == requested.rope_model && current.integrator != requested.integrator ==> spec_plan_reconfigure(
            current,
            requested,
            geometry_changed,
        ) == (ReconfigurePlan {
            outcome: ReconfigureOutcome::Updated,
            clear_material_state: false,
            replace_integrator: true,
        }),
{
}

/// Without a topology change the simulation is updated in place, and each
/// in-place action answers to its own change alone: the constitutive state
/// is cleared exactly when the rope model differs, whatever the integrators
/// are, and the integrator is replaced exactly when the integration method
/// differs, whatever the rope models are.
pub proof fn lemma_in_place_actions_follow_their_own_change(
    current: DiscreteConfig,
    requested: DiscreteConfig,
    geometry_changed: bool,
)
    requires
        current.segment_count == requested.segment_count,
        !geometry_changed,
    ensures
        spec_plan_reconfigure(current, requested, geometry_changed).outcome == ReconfigureOutcome::Updated,
        spec_plan_reconfigure(current, requested, geometry_changed).clear_material_state <==> current.rope_model
            != requested.rope_model,
        spec_plan_reconfigure(current, requested, geometry_changed).replace_integrator <==> current.integrator
            != requested.integrator,
{
}

/// A topology change always rebuilds the whole simulation, so no in-place
/// action is planned beside the reset.
pub proof fn lemma_topology_change_plans_only_a_reset(
    current: DiscreteConfig,
    requested: DiscreteConfig,
    geometry_changed: bool,
)
    requires
        current.segment_count != requested.segment_count || geometry_changed,
    ensures
        spec_plan_reconfigure(current, requested, geometry_changed) == (ReconfigurePlan {
            outcome: ReconfigureOutcome::Reset,
            clear_material_state: false,
            replace_integrator: false,
        }),
{
}

} // verus!
