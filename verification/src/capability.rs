//! The discrete capability lattice.

use vstd::prelude::*;

verus! {

/// Capability tiers, from the most constrained simulation-only tier up
/// to general use. `ControlledHuman` is the most constrained
/// human-controlled tier and carries the hard 0.3 risk-of-harm ceiling.
#[derive(Clone, Copy, Debug, PartialEq, Eq, Structural)]
pub enum CapabilityState {
    ModelOnly,
    LabBench,
    ControlledHuman,
    GeneralUse,
}

} // verus!
