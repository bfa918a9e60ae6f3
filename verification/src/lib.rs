//! Safety-invariant gate engine.
//!
//! A pure decision core that evaluates proposed state transitions against
//! hard numeric ceilings and a tunable risk corridor, plus a capability
//! reversal guard over a discrete capability lattice. All scalar quantities
//! are fixed-point integers: one unit is 1e-9 of the corresponding real
//! value, so the whole engine is exact integer arithmetic.

// The scalar rail and its gate.
pub mod scalar;
pub mod state;
pub mod gate;
pub mod laws;
pub mod zones;

// The capability lattice and its reversal guard.
pub mod capability;
pub mod reversal;

// Consent and sovereignty checks.
pub mod fpic;
pub mod care;
pub mod sovereign;

// Ecological impact scoring and community governance.
pub mod eco;
pub mod eco_adapter;
pub mod eco_adapters;
pub mod eco_engine;
pub mod eco_source;
pub mod governance;

// Diagnostics, the deed ledger and trait evaluation.
pub mod morphix;
pub mod encode;
pub mod trusted;
pub mod ledger;
pub mod tree;
