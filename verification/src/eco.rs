//! Ecological impact metrics attached to contributed artifacts.

use vstd::prelude::*;
use crate::scalar::{RailScalar, UNIT};
use vstd::arithmetic::div_mod::{lemma_div_is_ordered, lemma_div_pos_is_pos, lemma_div_by_multiple};
use vstd::arithmetic::mul::lemma_mul_inequality;

verus! {

/// Identifier of the corridor an artifact is bound to.
#[derive(Clone, Debug)]
pub struct CorridorId(pub String);

/// Product of two fixed-point fractions, staying in [0, UNIT] when both
/// factors are.
pub open spec fn spec_scaled_mul(a: int, b: int) -> int {
    a * b / (UNIT as int)
}

/// For factors in [0, UNIT] the scaled product stays in [0, UNIT].
pub proof fn lemma_scaled_mul_bounds(a: int, b: int)
    requires
        0 <= a <= UNIT,
        0 <= b <= UNIT,
    ensures
        0 <= spec_scaled_mul(a, b) <= UNIT,
        spec_scaled_mul(a, b) <= a,
{
    lemma_mul_inequality(b, UNIT as int, a);
    assert(b * a == a * b && (UNIT as int) * a == a * (UNIT as int)) by (nonlinear_arith);
    lemma_div_is_ordered(a * b, a * (UNIT as int), UNIT as int);
    lemma_div_by_multiple(a, UNIT as int);
    assert(a * b >= 0) by (nonlinear_arith)
        requires
            a >= 0,
            b >= 0,
    ;
    lemma_div_pos_is_pos(a * b, UNIT as int);
}

/// Structured ecological impact metrics. Each score is normalized to
/// [0, 1], where 1.0 means best / least harm.
#[derive(Clone, Debug)]
pub struct EcoImpactMetrics {
    pub climate_score: RailScalar,
    pub biodiversity_score: RailScalar,
    pub biosphere_score: RailScalar,
    pub corridor_score: RailScalar,
}

/// The combined scalar: the product of the four scores.
pub open spec fn spec_eco_scalar(m: EcoImpactMetrics) -> int {
    spec_scaled_mul(
        spec_scaled_mul(
            spec_scaled_mul(m.climate_score.spec_value(), m.biodiversity_score.spec_value()),
            m.biosphere_score.spec_value(),
        ),
        m.corridor_score.spec_value(),
    )
}

impl EcoImpactMetrics {
    pub open spec fn wf(self) -> bool {
        &&& self.climate_score.is_bounded()
        &&& self.biodiversity_score.is_bounded()
        &&& self.biosphere_score.is_bounded()
        &&& self.corridor_score.is_bounded()
    }

    /// Combine the four scores into one scalar by multiplication, as for
    /// a chain of independent attenuations.
    pub fn scalar(&self) -> (r: RailScalar)
        requires
            self.wf(),
        ensures
            r.spec_value() == spec_eco_scalar(*self),
    {
        let a: u64 = self.climate_score.value();
        let b: u64 = self.biodiversity_score.value();
        let c: u64 = self.biosphere_score.value();
        let d: u64 = self.corridor_score.value();
        proof {
            lemma_scaled_mul_bounds(a as int, b as int);
        }
        let ab: u64 = a * b / UNIT;
        proof {
            lemma_scaled_mul_bounds(ab as int, c as int);
        }
        let abc: u64 = ab * c / UNIT;
        proof {
            lemma_scaled_mul_bounds(abc as int, d as int);
        }
        let abcd: u64 = abc * d / UNIT;
        RailScalar::new_clamped(abcd as i64)
    }
}

/// A contributed artifact: every contribution declares its corridor and
/// its ecological impact metrics.
#[derive(Clone, Debug)]
pub struct NeuromorphArtifact {
    pub id: String,
    pub corridor_id: CorridorId,
    pub eco_impact: EcoImpactMetrics,
    pub summary: String,
}

} // verus!
