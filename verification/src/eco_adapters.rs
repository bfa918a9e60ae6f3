//! Concrete impact scorers over external biodiversity and earth
//! observation catalogues. The scoring rules here are fixed placeholders;
//! a production deployment would aggregate live occurrence data.

use vstd::prelude::*;
use crate::eco_adapter::{EcoContext, EcoImpactAdapter, ImpactScore, Sealed};

verus! {

/// Biodiversity risk adapter keyed on taxon and region specificity.
pub struct GbifRiskAdapter {
    /// Minimum occurrence count that flags high biodiversity sensitivity.
    pub high_risk_threshold: u32,
}

impl GbifRiskAdapter {
    pub fn new(high_risk_threshold: u32) -> (r: Self)
        ensures
            r.high_risk_threshold == high_risk_threshold,
    {
        Self { high_risk_threshold }
    }
}

impl Sealed for GbifRiskAdapter {

}

impl EcoImpactAdapter for GbifRiskAdapter {
    fn name(&self) -> (r: &'static str)
        ensures
            r@ == "gbif_risk_adapter_v1"@,
    {
        "gbif_risk_adapter_v1"
    }

    /// High sensitivity when both a taxon and a region are given, else a
    /// neutral score.
    fn compute_impact(&self, ctx: &EcoContext) -> (r: ImpactScore)
        ensures
            ctx.taxon_or_feature is Some && ctx.region_hint is Some ==> r.value.spec_value()
                == 900_000_000,
            !(ctx.taxon_or_feature is Some && ctx.region_hint is Some) ==> r.value.spec_value()
                == 500_000_000,
    {
        let has_specific_target: bool = ctx.taxon_or_feature.is_some()
            && ctx.region_hint.is_some();

        if has_specific_target {
            ImpactScore::clamped(
                900_000_000,
                "High biodiversity sensitivity inferred: taxon and region given.".to_owned(),
            )
        } else {
            ImpactScore::clamped(
                500_000_000,
                "Neutral biodiversity impact: insufficient context.".to_owned(),
            )
        }
    }
}

/// Earth-observation catalogue adapter bound to one catalogue endpoint.
pub struct StacEcoAdapter {
    /// Base catalogue API URL.
    pub stac_api_url: String,
}

impl StacEcoAdapter {
    pub fn new(stac_api_url: String) -> (r: Self)
        ensures
            r.stac_api_url == stac_api_url,
    {
        Self { stac_api_url }
    }
}

impl Sealed for StacEcoAdapter {

}

impl EcoImpactAdapter for StacEcoAdapter {
    fn name(&self) -> (r: &'static str)
        ensures
            r@ == "stac_eco_adapter_v1"@,
    {
        "stac_eco_adapter_v1"
    }

    /// Fixed low-to-moderate placeholder score.
    fn compute_impact(&self, ctx: &EcoContext) -> (r: ImpactScore)
        ensures
            r.value.spec_value() == 300_000_000,
    {
        ImpactScore::clamped(
            300_000_000,
            "Low-to-moderate eco impact inferred from the catalogue.".to_owned(),
        )
    }
}

} // verus!
