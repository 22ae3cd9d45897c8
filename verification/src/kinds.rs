//! The discrete choices a rope configuration is made of: its constitutive
//! model and its time integrator, plus the outcome of a reconfiguration.

use vstd::prelude::*;

verus! {

/// Axial constitutive model of the rope.
#[derive(Clone, Copy, Debug, PartialEq, Eq, Structural)]
pub enum RopeModelKind {
    HookeSpring,
    KelvinVoigt,
    QuadraticKelvinVoigt,
    StandardLinearSolid,
}

impl RopeModelKind {
    /// Every model, in the order frontends list them.
    pub const ALL: [RopeModelKind; 4] = [
        RopeModelKind::HookeSpring,
        RopeModelKind::KelvinVoigt,
        RopeModelKind::QuadraticKelvinVoigt,
        RopeModelKind::StandardLinearSolid,
    ];

    pub open spec fn spec_display_name(self) -> Seq<char> {
        match self {
            RopeModelKind::HookeSpring => "Hooke spring"@,
            RopeModelKind::KelvinVoigt => "Kelvin-Voigt"@,
            RopeModelKind::QuadraticKelvinVoigt => "Quadratic Kelvin-Voigt (tension only)"@,
            RopeModelKind::StandardLinearSolid => "Standard linear solid"@,
        }
    }

    /// Human-readable name shown by frontends.
    pub fn display_name(self) -> (name: &'static str)
        ensures
            name@ == self.spec_display_name(),
    {
        match self {
            RopeModelKind::HookeSpring => "Hooke spring",
            RopeModelKind::KelvinVoigt => "Kelvin-Voigt",
            RopeModelKind::QuadraticKelvinVoigt => "Quadratic Kelvin-Voigt (tension only)",
            RopeModelKind::StandardLinearSolid => "Standard linear solid",
        }
    }
}

impl Default for RopeModelKind {
    /// The calibrated standard linear solid is the default rope model.
    fn default() -> (kind: Self)
        ensures
            kind == RopeModelKind::StandardLinearSolid,
    {
        RopeModelKind::StandardLinearSolid
    }
}

/// Time integration method used to advance the rope.
#[derive(Clone, Copy, Debug, PartialEq, Eq, Structural)]
pub enum IntegratorKind {
    SemiImplicitEuler,
    RungeKutta4,
    TrBdf2,
    BackwardEuler,
}

impl IntegratorKind {
    /// Every integrator, in the order frontends list them.
    pub const ALL: [IntegratorKind; 4] = [
        IntegratorKind::SemiImplicitEuler,
        IntegratorKind::RungeKutta4,
        IntegratorKind::TrBdf2,
        IntegratorKind::BackwardEuler,
    ];

    pub open spec fn spec_display_name(self) -> Seq<char> {
        match self {
            IntegratorKind::SemiImplicitEuler => "Semi-implicit Euler"@,
            IntegratorKind::RungeKutta4 => "Runge-Kutta 4"@,
            IntegratorKind::TrBdf2 => "TR-BDF2"@,
            IntegratorKind::BackwardEuler => "Backward Euler"@,
        }
    }

    /// Human-readable name shown by frontends.
    pub fn display_name(self) -> (name: &'static str)
        ensures
            name@ == self.spec_display_name(),
    {
        match self {
            IntegratorKind::SemiImplicitEuler => "Semi-implicit Euler",
            IntegratorKind::RungeKutta4 => "Runge-Kutta 4",
            IntegratorKind::TrBdf2 => "TR-BDF2",
            IntegratorKind::BackwardEuler => "Backward Euler",
        }
    }
}

impl Default for IntegratorKind {
    /// Fully converged backward Euler is the default integrator.
    fn default() -> (kind: Self)
        ensures
            kind == IntegratorKind::BackwardEuler,
    {
        IntegratorKind::BackwardEuler
    }
}

/// What a reconfiguration did to a running simulation.
#[derive(Clone, Copy, Debug, PartialEq, Eq, Structural)]
pub enum ReconfigureOutcome {
    /// Parameters changed in place; positions and velocities were kept.
    Updated,
    /// The rope topology changed, so the simulation restarted from rest.
    Reset,
}

/// Two different rope models are never shown under the same name.
pub proof fn lemma_rope_model_names_distinct(a: RopeModelKind, b: RopeModelKind)
    requires
        a != b,
    ensures
        a.spec_display_name() != b.spec_display_name(),
{
    reveal_strlit("Hooke spring");
    reveal_strlit("Kelvin-Voigt");
    reveal_strlit("Quadratic Kelvin-Voigt (tension only)");
    reveal_strlit("Standard linear solid");
    assert(a.spec_display_name()[0] != b.spec_display_name()[0]);
}

/// Two different integrators are never shown under the same name.
pub proof fn lemma_integrator_names_distinct(a: IntegratorKind, b: IntegratorKind)
    requires
        a != b,
    ensures
        a.spec_display_name() != b.spec_display_name(),
{
    reveal_strlit("Semi-implicit Euler");
    reveal_strlit("Runge-Kutta 4");
    reveal_strlit("TR-BDF2");
    reveal_strlit("Backward Euler");
    assert(a.spec_display_name()[0] != b.spec_display_name()[0]);
}

/// `RopeModelKind::ALL` lists every model exactly once.
pub proof fn lemma_all_rope_models_listed_once()
    ensures
        RopeModelKind::ALL@.len() == 4,
        forall|kind: RopeModelKind| RopeModelKind::ALL@.contains(kind),
        forall|i: int, j: int|
            0 <= i < j < 4 ==> RopeModelKind::ALL@[i] != RopeModelKind::ALL@[j],
{
    assert forall|kind: RopeModelKind| RopeModelKind::ALL@.contains(kind) by {
        match kind {
            RopeModelKind::HookeSpring => assert(RopeModelKind::ALL@[0] == kind),
            RopeModelKind::KelvinVoigt => assert(RopeModelKind::ALL@[1] == kind),
            RopeModelKind::QuadraticKelvinVoigt => assert(RopeModelKind::ALL@[2] == kind),
            RopeModelKind::StandardLinearSolid => assert(RopeModelKind::ALL@[3] == kind),
        }
    }
}

/// `IntegratorKind::ALL` lists every integrator exactly once.
pub proof fn lemma_all_integrators_listed_once()
    ensures
        IntegratorKind::ALL@.len() == 4,
        forall|kind: IntegratorKind| IntegratorKind::ALL@.contains(kind),
        forall|i: int, j: int|
            0 <= i < j < 4 ==> IntegratorKind::ALL@[i] != IntegratorKind::ALL@[j],
{
    assert forall|kind: IntegratorKind| IntegratorKind::ALL@.contains(kind) by {
        match kind {
            IntegratorKind::SemiImplicitEuler => assert(IntegratorKind::ALL@[0] == kind),
            IntegratorKind::RungeKutta4 => assert(IntegratorKind::ALL@[1] == kind),
            IntegratorKind::TrBdf2 => assert(IntegratorKind::ALL@[2] == kind),
            IntegratorKind::BackwardEuler => assert(IntegratorKind::ALL@[3] == kind),
        }
    }
}

} // verus!
