use terrasafe::capability::CapabilityState;
use terrasafe::morphix::{
    BiophysicalEnvelopeSnapshot, MicroSocietyPredicate, MicroSocietyView, MorphixGuard,
    MorphixGuardConfig, MorphixGuardInput, MorphixLabel, RoH, TreeOfLifeView,
};

fn envelope() -> BiophysicalEnvelopeSnapshot {
    BiophysicalEnvelopeSnapshot {
        eeg_alpha_frac: 100_000_000,
        eeg_gamma_frac: 100_000_000,
        eda_tonic_frac: 100_000_000,
        bpm_frac: 100_000_000,
        cognitive_load_warn_frac: 100_000_000,
        sleep_arousal_warn_frac: 100_000_000,
        inflammation_warn_frac: 100_000_000,
    }
}

fn tree(decay: u64, lifeforce: u64, power: u64, fear: u64, pain: u64) -> TreeOfLifeView {
    TreeOfLifeView {
        blood: 500_000_000,
        oxygen: 500_000_000,
        wave: 500_000_000,
        h2o: 500_000_000,
        time: 500_000_000,
        decay,
        lifeforce,
        brain: 500_000_000,
        smart: 500_000_000,
        evolve: 500_000_000,
        power,
        tech: 500_000_000,
        fear,
        pain,
        nano: 500_000_000,
    }
}

fn input(
    roh: u64,
    t: TreeOfLifeView,
    predicates: Vec<MicroSocietyPredicate>,
) -> MorphixGuardInput {
    MorphixGuardInput {
        capability_state: CapabilityState::LabBench,
        roh: RoH { value: roh },
        envelope: envelope(),
        tree_of_life: t,
        micro_society: MicroSocietyView { predicates },
        evolve_index: Some(3),
        epoch_index: Some(7),
    }
}

fn labels(view: &terrasafe::morphix::MorphixGuardView) -> Vec<MorphixLabel> {
    view.diagnostics.iter().map(|d| d.label.clone()).collect()
}

#[test]
fn default_config_values() {
    let cfg = MorphixGuardConfig::default();
    assert_eq!(cfg.decay_boundary_thresh, 700_000_000);
    assert_eq!(cfg.lifeforce_fair_floor, 500_000_000);
    assert_eq!(cfg.power_unfair_thresh, 700_000_000);
    assert_eq!(cfg.fear_overload_thresh, 600_000_000);
    assert_eq!(cfg.pain_overload_thresh, 600_000_000);
}

#[test]
fn calm_snapshot_labels_fair_and_calm() {
    let cfg = MorphixGuardConfig::default();
    let snapshot = input(
        100_000_000,
        tree(100_000_000, 800_000_000, 200_000_000, 100_000_000, 100_000_000),
        vec![MicroSocietyPredicate::CalmStable],
    );
    let view = MorphixGuard::evaluate(&snapshot, &cfg);
    assert_eq!(view.capability_state, CapabilityState::LabBench);
    assert_eq!(view.roh_value, 100_000_000);
    assert_eq!(view.evolve_index, Some(3));
    assert_eq!(view.epoch_index, Some(7));
    assert_eq!(
        labels(&view),
        vec![MorphixLabel::D1Fair, MorphixLabel::D3Fair, MorphixLabel::D5CalmStable]
    );
}

#[test]
fn drained_snapshot_labels_unfair_chain() {
    let cfg = MorphixGuardConfig::default();
    let snapshot = input(
        200_000_000,
        tree(800_000_000, 200_000_000, 900_000_000, 100_000_000, 100_000_000),
        vec![MicroSocietyPredicate::UnfairDrain, MicroSocietyPredicate::BoundarySkimming],
    );
    let view = MorphixGuard::evaluate(&snapshot, &cfg);
    assert_eq!(
        labels(&view),
        vec![
            MorphixLabel::D1UnfairDrainRisk,
            MorphixLabel::D3UnfairDrainRisk,
            MorphixLabel::D5BoundarySkimming,
            MorphixLabel::D5UnfairDrainConfirmed,
        ]
    );
}

#[test]
fn overloaded_snapshot_gets_recovery_window() {
    let cfg = MorphixGuardConfig::default();
    let snapshot = input(
        200_000_000,
        tree(100_000_000, 800_000_000, 200_000_000, 900_000_000, 100_000_000),
        vec![MicroSocietyPredicate::Overloaded, MicroSocietyPredicate::Other("custom")],
    );
    let view = MorphixGuard::evaluate(&snapshot, &cfg);
    assert_eq!(
        labels(&view),
        vec![MorphixLabel::D1Fair, MorphixLabel::D3Fair, MorphixLabel::D5OverloadedRecoveryWindow]
    );
}

#[test]
fn roh_is_clamped_into_unit_range() {
    let cfg = MorphixGuardConfig::default();
    let snapshot = input(
        5_000_000_000,
        tree(100_000_000, 800_000_000, 200_000_000, 100_000_000, 100_000_000),
        vec![],
    );
    let view = MorphixGuard::evaluate(&snapshot, &cfg);
    assert_eq!(view.roh_value, 1_000_000_000);
}

#[test]
fn dimensions_match_labels() {
    let cfg = MorphixGuardConfig::default();
    let snapshot = input(
        800_000_000,
        tree(800_000_000, 200_000_000, 900_000_000, 900_000_000, 900_000_000),
        vec![MicroSocietyPredicate::Overloaded],
    );
    let view = MorphixGuard::evaluate(&snapshot, &cfg);
    for d in &view.diagnostics {
        let dim = format!("{:?}", d.provenance.dimension);
        let label = format!("{:?}", d.label);
        assert!(label.starts_with(&dim));
    }
}
