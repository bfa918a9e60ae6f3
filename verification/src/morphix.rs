//! Fairness-safety labelling observer.
//!
//! A pure, non-actuating diagnostic pass over a per-epoch snapshot:
//! capability state, risk-of-harm, envelope, asset scalars and
//! micro-society predicates. It computes labelled diagnostics with
//! explicit provenance and never influences any verdict; the surrounding
//! system only logs its output.

use vstd::prelude::*;
use crate::capability::CapabilityState;
use crate::gate::ROH_CEILING;
use crate::scalar::{clamped, UNIT};

verus! {

/// Micro-society predicates computed upstream from multi-subject
/// histories.
#[derive(Clone, Copy, Debug, PartialEq, Eq)]
pub enum MicroSocietyPredicate {
    CalmStable,
    Overloaded,
    UnfairDrain,
    Recovery,
    BoundarySkimming,
    Other(&'static str),
}

/// Risk-of-harm score scalar, as a count of 1e-9 steps.
#[derive(Clone, Copy, Debug)]
pub struct RoH {
    pub value: u64,
}

/// Flattened, read-only envelope snapshot at a single epoch: normalized
/// fractions of the key axes, in 1e-9 steps of [0, 1].
#[derive(Clone, Debug)]
pub struct BiophysicalEnvelopeSnapshot {
    pub eeg_alpha_frac: u64,
    pub eeg_gamma_frac: u64,
    pub eda_tonic_frac: u64,
    pub bpm_frac: u64,
    pub cognitive_load_warn_frac: u64,
    pub sleep_arousal_warn_frac: u64,
    pub inflammation_warn_frac: u64,
}

/// The asset scalars of the tree-of-life view, in 1e-9 steps.
#[derive(Clone, Debug)]
pub struct TreeOfLifeView {
    pub blood: u64,
    pub oxygen: u64,
    pub wave: u64,
    pub h2o: u64,
    pub time: u64,
    pub decay: u64,
    pub lifeforce: u64,
    pub brain: u64,
    pub smart: u64,
    pub evolve: u64,
    pub power: u64,
    pub tech: u64,
    pub fear: u64,
    pub pain: u64,
    pub nano: u64,
}

/// Minimal micro-society view: predicates computed upstream.
#[derive(Clone, Debug)]
pub struct MicroSocietyView {
    pub predicates: Vec<MicroSocietyPredicate>,
}

/// Input snapshot: a single per-epoch diagnostic view, with optional
/// provenance indices to line up with external logs.
#[derive(Clone, Debug)]
pub struct MorphixGuardInput {
    pub capability_state: CapabilityState,
    pub roh: RoH,
    pub envelope: BiophysicalEnvelopeSnapshot,
    pub tree_of_life: TreeOfLifeView,
    pub micro_society: MicroSocietyView,
    pub evolve_index: Option<u64>,
    pub epoch_index: Option<u64>,
}

/// Dimensionality of a fairness-safety label.
#[derive(Clone, Copy, Debug, PartialEq, Eq, Structural)]
pub enum GuardDimension {
    D1,
    D2,
    D3,
    D4,
    D5,
}

/// The label vocabulary; purely diagnostic categories.
#[derive(Clone, Debug, PartialEq, Eq, Structural)]
pub enum MorphixLabel {
    D1Fair,
    D1UnfairDrainRisk,
    D3Fair,
    D3UnfairDrainRisk,
    D3OverloadRisk,
    D5BoundarySkimming,
    D5CalmStable,
    D5UnfairDrainConfirmed,
    D5OverloadedRecoveryWindow,
}

/// Provenance descriptor linking a label back to its sources.
#[derive(Clone, Debug)]
pub struct LabelProvenance {
    pub dimension: GuardDimension,
    pub explanation: String,
    pub sources: Vec<String>,
    pub shard_refs: Vec<String>,
}

/// One diagnostic label with its provenance; purely advisory.
#[derive(Clone, Debug)]
pub struct MorphixDiagnostic {
    pub label: MorphixLabel,
    pub provenance: LabelProvenance,
}

/// Aggregate diagnostics for one epoch, ready for logging.
#[derive(Clone, Debug)]
pub struct MorphixGuardView {
    pub capability_state: CapabilityState,
    pub roh_value: u64,
    pub evolve_index: Option<u64>,
    pub epoch_index: Option<u64>,
    pub diagnostics: Vec<MorphixDiagnostic>,
}

/// Thresholds for the advisory labels, in 1e-9 steps.
#[derive(Clone, Debug)]
pub struct MorphixGuardConfig {
    pub decay_boundary_thresh: u64,
    pub lifeforce_fair_floor: u64,
    pub power_unfair_thresh: u64,
    pub fear_overload_thresh: u64,
    pub pain_overload_thresh: u64,
}

impl MorphixGuardConfig {
    /// Conservative default thresholds.
    pub fn default() -> (r: Self)
        ensures
            r.decay_boundary_thresh == 700_000_000,
            r.lifeforce_fair_floor == 500_000_000,
            r.power_unfair_thresh == 700_000_000,
            r.fear_overload_thresh == 600_000_000,
            r.pain_overload_thresh == 600_000_000,
    {
        Self {
            decay_boundary_thresh: 700_000_000,
            lifeforce_fair_floor: 500_000_000,
            power_unfair_thresh: 700_000_000,
            fear_overload_thresh: 600_000_000,
            pain_overload_thresh: 600_000_000,
        }
    }
}

// ---------------------------------------------------------------------
// Label rules, spec level
// ---------------------------------------------------------------------

pub open spec fn spec_has_calm(preds: Seq<MicroSocietyPredicate>) -> bool {
    exists|j: int| 0 <= j < preds.len() && (#[trigger] preds[j]) is CalmStable
}

pub open spec fn spec_has_unfair(preds: Seq<MicroSocietyPredicate>) -> bool {
    exists|j: int| 0 <= j < preds.len() && (#[trigger] preds[j]) is UnfairDrain
}

pub open spec fn spec_has_overload(preds: Seq<MicroSocietyPredicate>) -> bool {
    exists|j: int| 0 <= j < preds.len() && (#[trigger] preds[j]) is Overloaded
}

pub open spec fn spec_has_boundary(preds: Seq<MicroSocietyPredicate>) -> bool {
    exists|j: int| 0 <= j < preds.len() && (#[trigger] preds[j]) is BoundarySkimming
}

/// The 1D rule: overall fair when the life-sustaining scalar is above
/// its floor and decay is below the boundary threshold.
pub open spec fn spec_d1_fair(t: TreeOfLifeView, cfg: MorphixGuardConfig) -> bool {
    t.lifeforce >= cfg.lifeforce_fair_floor && t.decay < cfg.decay_boundary_thresh
}

/// The 3D rule over decay, life-sustaining level and power; at most one
/// label, in this order of precedence.
pub open spec fn spec_d3_label(
    t: TreeOfLifeView,
    cfg: MorphixGuardConfig,
    roh: int,
) -> Option<MorphixLabel> {
    if t.decay < cfg.decay_boundary_thresh && t.lifeforce >= cfg.lifeforce_fair_floor
        && t.power < cfg.power_unfair_thresh {
        Some(MorphixLabel::D3Fair)
    } else if t.power >= cfg.power_unfair_thresh && t.lifeforce < cfg.lifeforce_fair_floor {
        Some(MorphixLabel::D3UnfairDrainRisk)
    } else if roh >= cfg.decay_boundary_thresh {
        Some(MorphixLabel::D3OverloadRisk)
    } else {
        None
    }
}

/// The full expected label sequence for one snapshot, in emission order:
/// the 1D label, then the 3D label if any, then each applicable 5D label.
pub open spec fn spec_expected_labels(
    input: MorphixGuardInput,
    cfg: MorphixGuardConfig,
) -> Seq<MorphixLabel> {
    let t = input.tree_of_life;
    let preds = input.micro_society.predicates@;
    let roh = clamped(input.roh.value as int);
    let d1 = if spec_d1_fair(t, cfg) {
        seq![MorphixLabel::D1Fair]
    } else {
        seq![MorphixLabel::D1UnfairDrainRisk]
    };
    let d3 = match spec_d3_label(t, cfg, roh) {
        Some(l) => seq![l],
        None => Seq::<MorphixLabel>::empty(),
    };
    let calm = if spec_has_calm(preds) && t.decay < cfg.decay_boundary_thresh && t.fear
        < cfg.fear_overload_thresh {
        seq![MorphixLabel::D5CalmStable]
    } else {
        Seq::<MorphixLabel>::empty()
    };
    let boundary = if spec_has_boundary(preds) && t.decay >= cfg.decay_boundary_thresh && roh
        < ROH_CEILING {
        seq![MorphixLabel::D5BoundarySkimming]
    } else {
        Seq::<MorphixLabel>::empty()
    };
    let unfair = if spec_has_unfair(preds) && t.lifeforce < cfg.lifeforce_fair_floor && t.power
        >= cfg.power_unfair_thresh {
        seq![MorphixLabel::D5UnfairDrainConfirmed]
    } else {
        Seq::<MorphixLabel>::empty()
    };
    let overload = if spec_has_overload(preds) && (t.fear >= cfg.fear_overload_thresh || t.pain
        >= cfg.pain_overload_thresh) && roh < ROH_CEILING {
        seq![MorphixLabel::D5OverloadedRecoveryWindow]
    } else {
        Seq::<MorphixLabel>::empty()
    };
    d1 + d3 + calm + boundary + unfair + overload
}

/// The dimension a label belongs to.
pub open spec fn spec_label_dimension(label: MorphixLabel) -> GuardDimension {
    match label {
        MorphixLabel::D1Fair => GuardDimension::D1,
        MorphixLabel::D1UnfairDrainRisk => GuardDimension::D1,
        MorphixLabel::D3Fair => GuardDimension::D3,
        MorphixLabel::D3UnfairDrainRisk => GuardDimension::D3,
        MorphixLabel::D3OverloadRisk => GuardDimension::D3,
        MorphixLabel::D5BoundarySkimming => GuardDimension::D5,
        MorphixLabel::D5CalmStable => GuardDimension::D5,
        MorphixLabel::D5UnfairDrainConfirmed => GuardDimension::D5,
        MorphixLabel::D5OverloadedRecoveryWindow => GuardDimension::D5,
    }
}

// ---------------------------------------------------------------------
// The observer
// ---------------------------------------------------------------------

/// One pass over the predicate list, collecting which of the four
/// recognized predicates occur: (calm, unfair, overload, boundary).
fn scan_predicates(preds: &Vec<MicroSocietyPredicate>) -> (r: (bool, bool, bool, bool))
    ensures
        r.0 == spec_has_calm(preds@),
        r.1 == spec_has_unfair(preds@),
        r.2 == spec_has_overload(preds@),
        r.3 == spec_has_boundary(preds@),
{
    let mut has_calm: bool = false;
    let mut has_unfair: bool = false;
    let mut has_overload: bool = false;
    let mut has_boundary: bool = false;
    let n: usize = preds.len();
    let mut i: usize = 0;
    while i < n
        invariant
            0 <= i <= n,
            n == preds@.len(),
            has_calm == spec_has_calm(preds@.take(i as int)),
            has_unfair == spec_has_unfair(preds@.take(i as int)),
            has_overload == spec_has_overload(preds@.take(i as int)),
            has_boundary == spec_has_boundary(preds@.take(i as int)),
        decreases n - i,
    {
        match preds[i] {
            MicroSocietyPredicate::CalmStable => {
                has_calm = true;
            },
            MicroSocietyPredicate::UnfairDrain => {
                has_unfair = true;
            },
            MicroSocietyPredicate::Overloaded => {
                has_overload = true;
            },
            MicroSocietyPredicate::BoundarySkimming => {
                has_boundary = true;
            },
            _ => {},
        }
        proof {
            assert(preds@.take(i + 1).drop_last() =~= preds@.take(i as int));
            assert(preds@.take(i + 1).last() == preds@[i as int]);
        }
        i += 1;
    }
    proof {
        assert(preds@.take(n as int) =~= preds@);
    }
    (has_calm, has_unfair, has_overload, has_boundary)
}

/// Namespace struct for the observer's pure associated functions; no
/// internal state, no actuation, no side effects.
pub struct MorphixGuard;

impl MorphixGuard {
    /// Compute the fairness-safety diagnostics for one snapshot. The
    /// result echoes the input's provenance fields, carries the
    /// risk-of-harm value clamped to [0, `UNIT`], and holds exactly the
    /// labels of `spec_expected_labels`, each under its own dimension;
    /// the provenance text is informative only.
    pub fn evaluate(input: &MorphixGuardInput, cfg: &MorphixGuardConfig) -> (r: MorphixGuardView)
        ensures
            r.capability_state == input.capability_state,
            r.roh_value == clamped(input.roh.value as int),
            r.evolve_index == input.evolve_index,
            r.epoch_index == input.epoch_index,
            r.diagnostics@.map_values(|d: MorphixDiagnostic| d.label) == spec_expected_labels(
                *input,
                *cfg,
            ),
            forall|i: int|
                0 <= i < r.diagnostics@.len() ==> (#[trigger] r.diagnostics@[i]).provenance.dimension
                    == spec_label_dimension(r.diagnostics@[i].label),
    {
        let mut diagnostics: Vec<MorphixDiagnostic> = Vec::new();

        let t = &input.tree_of_life;
        let roh: u64 = if input.roh.value > UNIT {
            UNIT
        } else {
            input.roh.value
        };

        if t.lifeforce >= cfg.lifeforce_fair_floor && t.decay < cfg.decay_boundary_thresh {
            diagnostics.push(
                MorphixDiagnostic {
                    label: MorphixLabel::D1Fair,
                    provenance: LabelProvenance {
                        dimension: GuardDimension::D1,
                        explanation:
                            "Overall fair: lifeforce above floor and decay below boundary threshold.".to_owned(),
                        sources: vec![
                            "TreeOfLifeView.lifeforce".to_owned(),
                            "TreeOfLifeView.decay".to_owned(),
                            "RoH.value".to_owned(),
                        ],
                        shard_refs: vec![
                            "TREE-LIFEFORCE".to_owned(),
                            "TREE-DECAY".to_owned(),
                            "rohmodel".to_owned(),
                        ],
                    },
                },
            );
        } else {
            diagnostics.push(
                MorphixDiagnostic {
                    label: MorphixLabel::D1UnfairDrainRisk,
                    provenance: LabelProvenance {
                        dimension: GuardDimension::D1,
                        explanation:
                            "Elevated unfair-drain risk: lifeforce depleted or decay near boundary.".to_owned(),
                        sources: vec![
                            "TreeOfLifeView.lifeforce".to_owned(),
                            "TreeOfLifeView.decay".to_owned(),
                            "RoH.value".to_owned(),
                        ],
                        shard_refs: vec![
                            "TREE-LIFEFORCE".to_owned(),
                            "TREE-DECAY".to_owned(),
                            "rohmodel".to_owned(),
                        ],
                    },
                },
            );
        }

        if t.decay < cfg.decay_boundary_thresh && t.lifeforce >= cfg.lifeforce_fair_floor
            && t.power < cfg.power_unfair_thresh {
            diagnostics.push(
                MorphixDiagnostic {
                    label: MorphixLabel::D3Fair,
                    provenance: LabelProvenance {
                        dimension: GuardDimension::D3,
                        explanation:
                            "3D fair energy budget: decay low, lifeforce adequate, power below unfair threshold.".to_owned(),
                        sources: vec![
                            "TreeOfLifeView.decay".to_owned(),
                            "TreeOfLifeView.lifeforce".to_owned(),
                            "TreeOfLifeView.power".to_owned(),
                        ],
                        shard_refs: vec![
                            "TREE-DECAY".to_owned(),
                            "TREE-LIFEFORCE".to_owned(),
                            "TREE-POWER".to_owned(),
                        ],
                    },
                },
            );
        } else if t.power >= cfg.power_unfair_thresh && t.lifeforce < cfg.lifeforce_fair_floor {
            diagnostics.push(
                MorphixDiagnostic {
                    label: MorphixLabel::D3UnfairDrainRisk,
                    provenance: LabelProvenance {
                        dimension: GuardDimension::D3,
                        explanation:
                            "3D unfair-drain risk: power high while lifeforce is depleted under elevated decay.".to_owned(),
                        sources: vec![
                            "TreeOfLifeView.decay".to_owned(),
                            "TreeOfLifeView.lifeforce".to_owned(),
                            "TreeOfLifeView.power".to_owned(),
                        ],
                        shard_refs: vec![
                            "TREE-DECAY".to_owned(),
                            "TREE-LIFEFORCE".to_owned(),
                            "TREE-POWER".to_owned(),
                            "UNFAIR_DRAIN".to_owned(),
                        ],
                    },
                },
            );
        } else if roh >= cfg.decay_boundary_thresh {
            diagnostics.push(
                MorphixDiagnostic {
                    label: MorphixLabel::D3OverloadRisk,
                    provenance: LabelProvenance {
                        dimension: GuardDimension::D3,
                        explanation:
                            "3D overload risk: risk-of-harm and decay near boundary; consider cooldown in analysis.".to_owned(),
                        sources: vec![
                            "TreeOfLifeView.decay".to_owned(),
                            "RoH.value".to_owned(),
                        ],
                        shard_refs: vec![
                            "rohmodel".to_owned(),
                            "envelope-overload".to_owned(),
                        ],
                    },
                },
            );
        }

        let (has_calm, has_unfair, has_overload, has_boundary) = scan_predicates(
            &input.micro_society.predicates,
        );

        if has_calm && t.decay < cfg.decay_boundary_thresh && t.fear < cfg.fear_overload_thresh {
            diagnostics.push(
                MorphixDiagnostic {
                    label: MorphixLabel::D5CalmStable,
                    provenance: LabelProvenance {
                        dimension: GuardDimension::D5,
                        explanation:
                            "5D calm-stable micro-society: calm predicate, low decay, low fear and pain.".to_owned(),
                        sources: vec![
                            "MicroSociety.CALM_STABLE".to_owned(),
                            "TreeOfLifeView.decay".to_owned(),
                            "TreeOfLifeView.fear".to_owned(),
                            "TreeOfLifeView.pain".to_owned(),
                        ],
                        shard_refs: vec![
                            "NATURE/CALM_STABLE".to_owned(),
                            "TREE-DECAY".to_owned(),
                            "TREE-FEAR".to_owned(),
                            "TREE-PAIN".to_owned(),
                        ],
                    },
                },
            );
        }

        if has_boundary && t.decay >= cfg.decay_boundary_thresh && roh < ROH_CEILING {
            diagnostics.push(
                MorphixDiagnostic {
                    label: MorphixLabel::D5BoundarySkimming,
                    provenance: LabelProvenance {
                        dimension: GuardDimension::D5,
                        explanation:
                            "5D boundary skimming: boundary-skimming predicate and decay near the ceiling.".to_owned(),
                        sources: vec![
                            "MicroSociety.BOUNDARY_SKIMMING".to_owned(),
                            "TreeOfLifeView.decay".to_owned(),
                            "RoH.value".to_owned(),
                        ],
                        shard_refs: vec![
                            "NATURE/BOUNDARY_SKIMMING".to_owned(),
                            "rohmodel".to_owned(),
                            "envelope-warn".to_owned(),
                        ],
                    },
                },
            );
        }

        if has_unfair && t.lifeforce < cfg.lifeforce_fair_floor && t.power
            >= cfg.power_unfair_thresh {
            diagnostics.push(
                MorphixDiagnostic {
                    label: MorphixLabel::D5UnfairDrainConfirmed,
                    provenance: LabelProvenance {
                        dimension: GuardDimension::D5,
                        explanation:
                            "5D unfair drain confirmed: unfair-drain predicate, low lifeforce, high power.".to_owned(),
                        sources: vec![
                            "MicroSociety.UNFAIR_DRAIN".to_owned(),
                            "TreeOfLifeView.lifeforce".to_owned(),
                            "TreeOfLifeView.power".to_owned(),
                        ],
                        shard_refs: vec![
                            "UnfairDrain".to_owned(),
                            "TREE-LIFEFORCE".to_owned(),
                            "TREE-POWER".to_owned(),
                        ],
                    },
                },
            );
        }

        if has_overload && (t.fear >= cfg.fear_overload_thresh || t.pain
            >= cfg.pain_overload_thresh) && roh < ROH_CEILING {
            diagnostics.push(
                MorphixDiagnostic {
                    label: MorphixLabel::D5OverloadedRecoveryWindow,
                    provenance: LabelProvenance {
                        dimension: GuardDimension::D5,
                        explanation:
                            "5D overloaded recovery window: overloaded predicate with high fear or pain under the ceiling.".to_owned(),
                        sources: vec![
                            "MicroSociety.OVERLOADED".to_owned(),
                            "TreeOfLifeView.fear".to_owned(),
                            "TreeOfLifeView.pain".to_owned(),
                            "RoH.value".to_owned(),
                        ],
                        shard_refs: vec![
                            "Overloaded".to_owned(),
                            "TREE-FEAR".to_owned(),
                            "TREE-PAIN".to_owned(),
                            "rohmodel".to_owned(),
                        ],
                    },
                },
            );
        }

        proof {
            assert(diagnostics@.map_values(|d: MorphixDiagnostic| d.label) =~= spec_expected_labels(
                *input,
                *cfg,
            ));
        }

        MorphixGuardView {
            capability_state: input.capability_state,
            roh_value: roh,
            evolve_index: input.evolve_index,
            epoch_index: input.epoch_index,
            diagnostics,
        }
    }
}

} // verus!
