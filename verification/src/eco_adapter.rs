//! Scorer traits and the unified context for ecological impact scoring.

use vstd::prelude::*;
use crate::scalar::{clamped, RailScalar};

verus! {

/// Minimal ecological context passed into all impact scorers.
#[derive(Clone, Debug)]
pub struct EcoContext {
    pub dataset_id: String,
    pub region_hint: Option<String>,
    pub taxon_or_feature: Option<String>,
    pub raw_metadata: Option<String>,
}

/// A scalar impact score paired with a short human-readable reason.
#[derive(Clone, Debug)]
pub struct ImpactScore {
    pub value: RailScalar,
    pub explanation: String,
}

impl ImpactScore {
    /// Build a score with the value clamped into [0, UNIT].
    pub fn clamped(value: i64, explanation: String) -> (r: Self)
        ensures
            r.value.spec_value() == clamped(value as int),
            r.explanation == explanation,
    {
        Self { value: RailScalar::new_clamped(value), explanation }
    }
}

/// Base trait: an ecological impact scorer computes a numeric score from
/// a context.
pub trait Scorer {
    type Context;

    fn score(&self, ctx: &Self::Context) -> ImpactScore;
}

/// Sealing trait: outside implementors provide concrete scorers instead
/// of implementing the marker hierarchy directly.
pub trait Sealed {}

/// Explainable scorer: the score always carries a justification.
pub trait ExplainableScorer: Scorer {}

/// Auditable scorer: carries an identifier for provenance logging.
pub trait AuditableScorer: ExplainableScorer {
    fn scorer_id(&self) -> &'static str;
}

/// Adapter trait: wraps an external ecological API client into a unified
/// `EcoContext` to `ImpactScore` interface.
pub trait EcoImpactAdapter {
    fn name(&self) -> &'static str;

    fn compute_impact(&self, ctx: &EcoContext) -> ImpactScore;
}

} // verus!
