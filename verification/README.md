# ropesim

Verified discrete core of a two-dimensional weighted-rope simulator.

`src/` is the library, proved with Verus. It holds what the simulator decides
without floating point:

- `kinds`: rope models and integrators, their display names and defaults, and
  reconfiguration outcomes;
- `reconfigure`: whether a new configuration resets the simulation or is
  applied in place, and what is rebuilt;
- `payload`: which mechanism (free, prescribed target, trajectory,
  manipulation) controls the payload, and how each operation changes it;
- `numbering`: which nodes carry Newton unknowns and where each node's
  unknowns start;
- `banded`: storage slots of blocks in the block tridiagonal and block
  pentadiagonal Newton matrices;
- `retry`: the adaptive retry controller of the implicit integrators;
- `replay`: in-order, release-once sequencing of recorded commands;
- `ode_layout`: the state-vector layout handed to general ODE solvers;
- `fixture`: validated file paths of recorded-scenario fixtures;
- `scenario`: fixed facts of the recorded-scenario format;
- `stats`: the median of timing samples.

`app/` holds the floating-point parts: the configuration and scenario types
with their serde encodings, scenario JSON and file I/O, the replay
controller, the constitutive models, payload trajectories, the backward
Euler, TR-BDF2 and semi-implicit Euler integrators with their banded and
sparse (faer) linear solvers, calibration reference data, frame statistics
and timing helpers. It calls the library for every discrete decision: unknown
numbering, band slots, retries, replay sequencing, fixture paths and
reconfiguration plans. `tests/` exercises the library on concrete values.
