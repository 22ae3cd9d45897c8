//! Fixed facts of the recorded-scenario format.

use vstd::prelude::*;
use crate::kinds::IntegratorKind;

verus! {

/// Version written into, and required of, every recorded scenario.
pub const CURRENT_SCENARIO_FORMAT_VERSION: u32 = 1;

/// Integrators a freshly recorded scenario is replayed with in regression
/// tests: backward Euler and TR-BDF2.
pub fn default_test_integrators() -> (integrators: Vec<IntegratorKind>)
    ensures
        integrators@ == seq![IntegratorKind::BackwardEuler, IntegratorKind::TrBdf2],
{
    let mut integrators: Vec<IntegratorKind> = Vec::new();
    integrators.push(IntegratorKind::BackwardEuler);
    integrators.push(IntegratorKind::TrBdf2);
    integrators
}

} // verus!
