use terrasafe::eco::{CorridorId, EcoImpactMetrics, NeuromorphArtifact};
use terrasafe::eco_adapter::{EcoContext, EcoImpactAdapter, ImpactScore};
use terrasafe::eco_adapters::{GbifRiskAdapter, StacEcoAdapter};
use terrasafe::eco_engine::{CoreEcoEngine, CorridorBoundScoreEngine};
use terrasafe::eco_source::{EcoDataSource, GbifEcoSource};
use terrasafe::governance::eco_to_global_indicator;
use terrasafe::scalar::RailScalar;

fn rail(v: i64) -> RailScalar {
    RailScalar::new_clamped(v)
}

fn context(taxon: Option<&str>, region: Option<&str>) -> EcoContext {
    EcoContext {
        dataset_id: "sentinel-2".to_string(),
        region_hint: region.map(|s| s.to_string()),
        taxon_or_feature: taxon.map(|s| s.to_string()),
        raw_metadata: None,
    }
}

#[test]
fn impact_score_clamps_value() {
    let s = ImpactScore::clamped(1_500_000_000, "over".to_string());
    assert_eq!(s.value.value(), 1_000_000_000);
    let s = ImpactScore::clamped(-3, "under".to_string());
    assert_eq!(s.value.value(), 0);
}

#[test]
fn eco_scalar_is_the_product_of_scores() {
    let m = EcoImpactMetrics {
        climate_score: rail(500_000_000),
        biodiversity_score: rail(500_000_000),
        biosphere_score: rail(1_000_000_000),
        corridor_score: rail(1_000_000_000),
    };
    // 0.5 * 0.5 * 1.0 * 1.0 = 0.25
    assert_eq!(m.scalar().value(), 250_000_000);
    assert_eq!(eco_to_global_indicator(&m).value(), 250_000_000);
}

#[test]
fn gbif_adapter_scores_specificity() {
    let adapter = GbifRiskAdapter::new(100);
    assert_eq!(adapter.high_risk_threshold, 100);
    assert_eq!(adapter.name(), "gbif_risk_adapter_v1");
    let specific = adapter.compute_impact(&context(Some("quercus"), Some("phoenix")));
    assert_eq!(specific.value.value(), 900_000_000);
    let vague = adapter.compute_impact(&context(None, Some("phoenix")));
    assert_eq!(vague.value.value(), 500_000_000);
}

#[test]
fn stac_adapter_scores_fixed() {
    let adapter = StacEcoAdapter::new("https://catalogue.example".to_string());
    assert_eq!(adapter.name(), "stac_eco_adapter_v1");
    let s = adapter.compute_impact(&context(None, None));
    assert_eq!(s.value.value(), 300_000_000);
}

#[test]
fn corridor_bound_engine_is_fixed_to_its_corridor() {
    let engine = CoreEcoEngine::new(7);
    assert_eq!(engine.corridor(), 7);
    let bound = CorridorBoundScoreEngine::new(7);
    assert_eq!(bound.name(), "core_eco_engine_v1");
    let s = bound.compute_impact(&context(None, None));
    assert_eq!(s.value.value(), 700_000_000);
}

fn artifact(corridor: &str) -> NeuromorphArtifact {
    NeuromorphArtifact {
        id: "artifact-001".to_string(),
        corridor_id: CorridorId(corridor.to_string()),
        eco_impact: EcoImpactMetrics {
            climate_score: rail(1_000_000_000),
            biodiversity_score: rail(1_000_000_000),
            biosphere_score: rail(1_000_000_000),
            corridor_score: rail(1_000_000_000),
        },
        summary: "example artifact".to_string(),
    }
}

#[test]
fn gbif_source_scores_by_corridor_prefix() {
    let source = GbifEcoSource;
    assert_eq!(source.provenance_label(), "stub-gbif-eco-source-v1");

    let urban = source.calculate(&artifact("urban-phoenix")).unwrap();
    assert_eq!(urban.climate_score.value(), 700_000_000);
    assert_eq!(urban.biodiversity_score.value(), 500_000_000);
    assert_eq!(urban.biosphere_score.value(), 600_000_000);
    assert_eq!(urban.corridor_score.value(), 800_000_000);

    let protected = source.calculate(&artifact("protected-desert")).unwrap();
    assert_eq!(protected.biosphere_score.value(), 950_000_000);

    let other = source.calculate(&artifact("riverline")).unwrap();
    assert_eq!(other.climate_score.value(), 800_000_000);
    assert_eq!(other.biodiversity_score.value(), 700_000_000);
}
