use ropesim::kinds::{IntegratorKind, ReconfigureOutcome, RopeModelKind};
use ropesim::reconfigure::{plan_reconfigure, DiscreteConfig, ReconfigurePlan};
use ropesim::scenario::{default_test_integrators, CURRENT_SCENARIO_FORMAT_VERSION};

#[test]
fn rope_model_display_names() {
    assert_eq!(RopeModelKind::HookeSpring.display_name(), "Hooke spring");
    assert_eq!(RopeModelKind::KelvinVoigt.display_name(), "Kelvin-Voigt");
    assert_eq!(
        RopeModelKind::QuadraticKelvinVoigt.display_name(),
        "Quadratic Kelvin-Voigt (tension only)"
    );
    assert_eq!(
        RopeModelKind::StandardLinearSolid.display_name(),
        "Standard linear solid"
    );
}

#[test]
fn integrator_display_names() {
    assert_eq!(IntegratorKind::SemiImplicitEuler.display_name(), "Semi-implicit Euler");
    assert_eq!(IntegratorKind::RungeKutta4.display_name(), "Runge-Kutta 4");
    assert_eq!(IntegratorKind::TrBdf2.display_name(), "TR-BDF2");
    assert_eq!(IntegratorKind::BackwardEuler.display_name(), "Backward Euler");
}

#[test]
fn display_names_are_distinct() {
    for a in RopeModelKind::ALL {
        for b in RopeModelKind::ALL {
            assert_eq!(a == b, a.display_name() == b.display_name());
        }
    }
    for a in IntegratorKind::ALL {
        for b in IntegratorKind::ALL {
            assert_eq!(a == b, a.display_name() == b.display_name());
        }
    }
}

#[test]
fn all_lists_follow_the_declaration_order() {
    assert_eq!(
        RopeModelKind::ALL,
        [
            RopeModelKind::HookeSpring,
            RopeModelKind::KelvinVoigt,
            RopeModelKind::QuadraticKelvinVoigt,
            RopeModelKind::StandardLinearSolid,
        ]
    );
    assert_eq!(
        IntegratorKind::ALL,
        [
            IntegratorKind::SemiImplicitEuler,
            IntegratorKind::RungeKutta4,
            IntegratorKind::TrBdf2,
            IntegratorKind::BackwardEuler,
        ]
    );
}

#[test]
fn default_integrator_is_backward_euler() {
    assert_eq!(IntegratorKind::default(), IntegratorKind::BackwardEuler);
}

#[test]
fn default_rope_model_is_the_standard_linear_solid() {
    assert_eq!(RopeModelKind::default(), RopeModelKind::StandardLinearSolid);
}

fn config(segment_count: usize, rope_model: RopeModelKind, integrator: IntegratorKind) -> DiscreteConfig {
    DiscreteConfig {
        segment_count,
        rope_model,
        integrator,
    }
}

#[test]
fn segment_count_change_resets() {
    let current = config(20, RopeModelKind::StandardLinearSolid, IntegratorKind::BackwardEuler);
    let requested = config(12, RopeModelKind::StandardLinearSolid, IntegratorKind::BackwardEuler);
    let plan = plan_reconfigure(current, requested, false);
    assert_eq!(plan.outcome, ReconfigureOutcome::Reset);
    assert!(!plan.clear_material_state);
    assert!(!plan.replace_integrator);
}

#[test]
fn geometry_change_resets() {
    let current = config(20, RopeModelKind::HookeSpring, IntegratorKind::RungeKutta4);
    let plan = plan_reconfigure(current, current, true);
    assert_eq!(plan.outcome, ReconfigureOutcome::Reset);
}

#[test]
fn integrator_change_updates_in_place() {
    let current = config(20, RopeModelKind::StandardLinearSolid, IntegratorKind::TrBdf2);
    let requested = config(20, RopeModelKind::StandardLinearSolid, IntegratorKind::BackwardEuler);
    assert_eq!(
        plan_reconfigure(current, requested, false),
        ReconfigurePlan {
            outcome: ReconfigureOutcome::Updated,
            clear_material_state: false,
            replace_integrator: true,
        }
    );
}

#[test]
fn material_change_clears_constitutive_state() {
    let current = config(20, RopeModelKind::StandardLinearSolid, IntegratorKind::BackwardEuler);
    let requested = config(20, RopeModelKind::KelvinVoigt, IntegratorKind::BackwardEuler);
    assert_eq!(
        plan_reconfigure(current, requested, false),
        ReconfigurePlan {
            outcome: ReconfigureOutcome::Updated,
            clear_material_state: true,
            replace_integrator: false,
        }
    );
}

#[test]
fn reapplying_a_configuration_changes_nothing() {
    let current = config(7, RopeModelKind::QuadraticKelvinVoigt, IntegratorKind::SemiImplicitEuler);
    assert_eq!(
        plan_reconfigure(current, current, false),
        ReconfigurePlan {
            outcome: ReconfigureOutcome::Updated,
            clear_material_state: false,
            replace_integrator: false,
        }
    );
}

#[test]
fn new_recordings_test_backward_euler_and_tr_bdf2() {
    assert_eq!(
        default_test_integrators(),
        vec![IntegratorKind::BackwardEuler, IntegratorKind::TrBdf2]
    );
    assert_eq!(CURRENT_SCENARIO_FORMAT_VERSION, 1);
}
