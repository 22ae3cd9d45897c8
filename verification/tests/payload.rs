use ropesim::numbering::projection_unknown_count;
use ropesim::payload::{PayloadControl, StepPath};

fn control(target: bool, motion: bool, manipulation: bool, last_step: bool) -> PayloadControl {
    PayloadControl {
        has_payload_target: target,
        has_payload_motion: motion,
        has_manipulation_target: manipulation,
        has_last_manipulation_step: last_step,
    }
}

#[test]
fn new_simulation_has_a_free_payload() {
    let payload = PayloadControl::new();
    assert_eq!(payload, control(false, false, false, false));
    assert!(!payload.manipulation_active());
    assert!(!payload.payload_prescribed());
}

#[test]
fn drag_interpolate_release_cycle() {
    let mut payload = PayloadControl::new();
    payload.set_payload_target(true);
    assert_eq!(payload, control(true, false, false, false));
    assert!(payload.interpolate_payload_target(true));
    assert_eq!(payload, control(true, true, false, false));
    assert_eq!(payload.step(false), StepPath::Integrator);
    assert_eq!(payload, control(true, true, false, false));
    assert_eq!(payload.step(true), StepPath::Integrator);
    assert_eq!(payload, control(true, false, false, false));
    payload.release_payload();
    assert_eq!(payload, control(false, false, false, false));
}

#[test]
fn invalid_interpolation_changes_nothing() {
    let mut payload = control(true, false, false, false);
    assert!(!payload.interpolate_payload_target(false));
    assert_eq!(payload, control(true, false, false, false));
}

#[test]
fn manipulation_cycle_records_steps_and_hands_off() {
    let mut payload = control(true, true, false, false);
    payload.set_manipulation_target();
    assert_eq!(payload, control(false, false, true, false));
    assert!(payload.manipulation_active());
    let mut released = payload;
    assert!(!released.release_manipulation());
    assert_eq!(released, control(false, false, false, false));
    assert_eq!(payload.step(false), StepPath::Manipulation);
    assert_eq!(payload, control(false, false, true, true));
    payload.set_manipulation_target();
    assert_eq!(payload, control(false, false, true, true));
    assert!(payload.release_manipulation());
    assert_eq!(payload, control(false, false, false, false));
    assert!(!payload.release_manipulation());
}

#[test]
fn setting_a_target_ends_manipulation() {
    let mut payload = control(false, false, true, true);
    payload.set_payload_target(false);
    assert_eq!(payload, control(false, false, false, false));
    let mut payload = control(false, false, true, true);
    assert!(payload.interpolate_payload_target(true));
    assert_eq!(payload, control(true, true, false, false));
}

#[test]
fn projection_solves_for_the_dynamic_nodes() {
    assert_eq!(projection_unknown_count(21, true), 19);
    assert_eq!(projection_unknown_count(21, false), 20);
    assert_eq!(projection_unknown_count(2, true), 0);
    assert_eq!(projection_unknown_count(1, true), 0);
    assert_eq!(projection_unknown_count(1, false), 0);
    assert_eq!(projection_unknown_count(0, false), 0);
    assert_eq!(projection_unknown_count(0, true), 0);
}
