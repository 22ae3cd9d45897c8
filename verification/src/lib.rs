//! Verified discrete core of a two-dimensional weighted-rope simulator: the
//! model and integrator choices, how a reconfiguration is applied, which
//! nodes carry unknowns and where their blocks sit in the banded Newton
//! matrices, the state layout handed to general ODE solvers, fixture file
//! naming for recorded scenarios, and timing statistics.

pub mod kinds;
pub mod numbering;
pub mod banded;
pub mod fixture;
pub mod ode_layout;
pub mod stats;
pub mod reconfigure;
pub mod retry;
pub mod scenario;
pub mod payload;
pub mod replay;

pub use kinds::{IntegratorKind, ReconfigureOutcome, RopeModelKind};
