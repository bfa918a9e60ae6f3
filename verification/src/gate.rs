//! The scalar rail gate.
//!
//! `BioRailTerrasafeGuard` couples the monotone risk projection with the
//! corridor tuner, the transition predictor and the three invariant
//! checks, and combines them into one terminal verdict. Every step has a
//! spec-level counterpart, and `gate` returns exactly
//! `spec_gate_verdict` of its inputs.

use vstd::prelude::*;
use vstd::arithmetic::div_mod::{
    lemma_div_by_multiple, lemma_div_is_ordered, lemma_div_pos_is_pos,
};
use vstd::arithmetic::mul::lemma_mul_inequality;
use crate::scalar::{clamped, RailScalar, EPS, MAG_MAX, UNIT};
use crate::state::{
    BioEnvelope, BioLoadView, BioRailConfig, DiagnosticFlags, FiveDIdentity, GateVerdict,
    JusticeCorridorConfig, JusticeMetrics, PowerChurchState, ProposedChange, SiteView,
};

verus! {

/// Hard ceiling on the risk-of-harm fraction: 0.3 in fixed-point steps.
pub const ROH_CEILING: u64 = 300_000_000;

/// Weight (out of `WEIGHT_SCALE`) of each of the five primary risk terms.
pub const RISK_WEIGHT: u64 = 18;

/// Weight (out of `WEIGHT_SCALE`) of the life-sustaining deficit term.
pub const LIFE_WEIGHT: u64 = 10;

/// Weight (out of `WEIGHT_SCALE`) of the trust relief term.
pub const RELIEF_WEIGHT: u64 = 40;

/// Denominator of the weights: the five risk weights and the deficit
/// weight sum to exactly `WEIGHT_SCALE`, so the projection stays in
/// [0, `UNIT`].
pub const WEIGHT_SCALE: u64 = 100;

// ---------------------------------------------------------------------
// Risk projection
// ---------------------------------------------------------------------

/// Risk-of-harm fraction normalized against its 0.3 ceiling, in [0, UNIT].
pub open spec fn spec_roh_norm(roh: int) -> int {
    clamped(roh * 10 / 3)
}

/// Position of the life-sustaining scalar inside its band, in [0, UNIT].
pub open spec fn spec_lf_pos(lf: int, lo: int, hi: int) -> int {
    let width = if hi - lo >= 1 {
        hi - lo
    } else {
        1
    };
    clamped((lf - lo) * (UNIT as int) / width)
}

/// The monotone projection of a snapshot onto one risk scalar in
/// [0, `UNIT`]: a weighted sum of the six risk-increasing components,
/// minus a trust relief that can reduce but never invert risk below 0.
pub open spec fn spec_projected_risk(site: SiteView) -> int {
    let env = site.bio_env;
    let id = site.identity_5d;
    let roh_n = spec_roh_norm(env.roh as int);
    let decay_n = clamped(env.decay as int);
    let lf_risk = UNIT - spec_lf_pos(
        env.lifeforce as int,
        env.lifeforce_min as int,
        env.lifeforce_max as int,
    );
    let bio = clamped(id.biostate_load as int);
    let fear = clamped(id.neurostate_fear as int);
    let ctx = clamped(id.context_load as int);
    let sov = clamped(id.sovereignty_trust as int);
    let risk_sum = RISK_WEIGHT * (bio + fear + ctx + roh_n + decay_n) + LIFE_WEIGHT * lf_risk;
    let relief = RELIEF_WEIGHT * sov;
    if risk_sum >= relief {
        (risk_sum - relief) / (WEIGHT_SCALE as int)
    } else {
        0
    }
}

/// The projection always lands in [0, `UNIT`].
pub proof fn lemma_projected_risk_in_range(site: SiteView)
    ensures
        0 <= spec_projected_risk(site) <= UNIT,
{
    let risk_sum = RISK_WEIGHT * (clamped(site.identity_5d.biostate_load as int)
        + clamped(site.identity_5d.neurostate_fear as int)
        + clamped(site.identity_5d.context_load as int)
        + spec_roh_norm(site.bio_env.roh as int)
        + clamped(site.bio_env.decay as int))
        + LIFE_WEIGHT * (UNIT - spec_lf_pos(
            site.bio_env.lifeforce as int,
            site.bio_env.lifeforce_min as int,
            site.bio_env.lifeforce_max as int,
        ));
    let relief = RELIEF_WEIGHT * clamped(site.identity_5d.sovereignty_trust as int);
    if risk_sum >= relief {
        assert(risk_sum <= 100 * (UNIT as int));
        lemma_div_pos_is_pos(risk_sum - relief, WEIGHT_SCALE as int);
        lemma_div_is_ordered(risk_sum - relief, 100 * (UNIT as int), WEIGHT_SCALE as int);
        lemma_div_by_multiple(UNIT as int, 100);
        assert((UNIT as int) * 100 == 100 * (UNIT as int));
    }
}

impl BioRailTerrasafeGuard {
    /// Compute the monotone risk scalar from a snapshot. Pure: the same
    /// snapshot always yields the same value.
    pub fn compute_biosignature(site: &SiteView) -> (r: RailScalar)
        requires
            site.wf(),
        ensures
            r.spec_value() == spec_projected_risk(*site),
    {
        let env = &site.bio_env;
        let id = &site.identity_5d;

        let roh10: u64 = env.roh * 10;
        let roh_div: u64 = roh10 / 3;
        let roh_n: u64 = if roh_div > UNIT {
            UNIT
        } else {
            roh_div
        };
        proof {
            lemma_div_pos_is_pos(roh10 as int, 3);
        }

        let decay_n: u64 = if env.decay > UNIT {
            UNIT
        } else {
            env.decay
        };

        let width: i64 = if env.lifeforce_max - env.lifeforce_min >= 1 {
            env.lifeforce_max - env.lifeforce_min
        } else {
            1
        };
        let diff: i64 = env.lifeforce - env.lifeforce_min;
        let lf_pos: u64 = if diff <= 0 {
            proof {
                if diff < 0 {
                    lemma_mul_inequality(diff as int, 0, UNIT as int);
                    lemma_div_is_ordered(diff * (UNIT as int), 0, width as int);
                    assert(0int / (width as int) == 0);
                }
            }
            0
        } else {
            let num: u128 = (diff as u128) * (UNIT as u128);
            let q: u128 = num / (width as u128);
            proof {
                lemma_div_pos_is_pos(num as int, width as int);
            }
            if q > UNIT as u128 {
                UNIT
            } else {
                q as u64
            }
        };
        let lf_risk: u64 = UNIT - lf_pos;

        let bio: u64 = if id.biostate_load > UNIT {
            UNIT
        } else {
            id.biostate_load
        };
        let fear: u64 = if id.neurostate_fear > UNIT {
            UNIT
        } else {
            id.neurostate_fear
        };
        let ctx: u64 = if id.context_load > UNIT {
            UNIT
        } else {
            id.context_load
        };
        let sov: u64 = if id.sovereignty_trust > UNIT {
            UNIT
        } else {
            id.sovereignty_trust
        };

        let risk_sum: u64 = RISK_WEIGHT * (bio + fear + ctx + roh_n + decay_n)
            + LIFE_WEIGHT * lf_risk;
        let relief: u64 = RELIEF_WEIGHT * sov;

        let raw: u64 = if risk_sum >= relief {
            proof {
                lemma_div_pos_is_pos(risk_sum - relief, WEIGHT_SCALE as int);
                lemma_div_is_ordered(
                    risk_sum - relief,
                    100 * (UNIT as int),
                    WEIGHT_SCALE as int,
                );
                lemma_div_by_multiple(UNIT as int, 100);
                assert((UNIT as int) * 100 == 100 * (UNIT as int));
            }
            (risk_sum - relief) / WEIGHT_SCALE
        } else {
            0
        };
        RailScalar::new_clamped(raw as i64)
    }
}

// ---------------------------------------------------------------------
// Corridor tuning
// ---------------------------------------------------------------------

/// Whether any stress metric exceeds its configured maximum.
pub open spec fn spec_stressed(site: SiteView) -> bool {
    ||| site.justice_metrics.hpcc > site.justice_cfg.hpcc_max
    ||| site.justice_metrics.erg > site.justice_cfg.erg_max
    ||| site.justice_metrics.tecr > site.justice_cfg.tecr_max
}

/// The tightening factor, clamped to [0, UNIT].
pub open spec fn spec_factor(site: SiteView) -> int {
    clamped(site.justice_cfg.tightening_factor as int)
}

/// A ceiling scaled down by a factor in [0, UNIT].
pub open spec fn spec_shrunk(c: int, factor: int) -> int {
    c * factor / (UNIT as int)
}

/// Lower corridor bound after tuning: unchanged without stress, else the
/// corridor narrowed symmetrically around its midpoint.
pub open spec fn spec_tuned_min(site: SiteView, cfg: BioRailConfig) -> int {
    let lo = cfg.corridor_min.spec_value();
    let hi = cfg.corridor_max.spec_value();
    if !spec_stressed(site) {
        lo
    } else {
        (lo + hi - spec_shrunk(hi - lo, spec_factor(site))) / 2
    }
}

/// Upper corridor bound after tuning.
pub open spec fn spec_tuned_max(site: SiteView, cfg: BioRailConfig) -> int {
    let lo = cfg.corridor_min.spec_value();
    let hi = cfg.corridor_max.spec_value();
    if !spec_stressed(site) {
        hi
    } else {
        (lo + hi + spec_shrunk(hi - lo, spec_factor(site))) / 2
    }
}

/// A territorial ceiling after tuning: unchanged without stress, else
/// scaled down by the tightening factor.
pub open spec fn spec_tuned_cap(c: int, site: SiteView) -> int {
    if !spec_stressed(site) {
        c
    } else {
        spec_shrunk(c, spec_factor(site))
    }
}

/// For `0 <= c` and `0 <= factor <= UNIT`, shrinking keeps a ceiling
/// inside [0, c].
pub proof fn lemma_shrunk_le(c: int, factor: int)
    requires
        0 <= c,
        0 <= factor <= UNIT,
    ensures
        0 <= spec_shrunk(c, factor) <= c,
{
    lemma_mul_inequality(factor, UNIT as int, c);
    assert(factor * c == c * factor) by (nonlinear_arith);
    assert((UNIT as int) * c == c * (UNIT as int)) by (nonlinear_arith);
    lemma_div_is_ordered(c * factor, c * (UNIT as int), UNIT as int);
    lemma_div_by_multiple(c, UNIT as int);
    lemma_div_pos_is_pos(c * factor, UNIT as int);
    assert(c * factor >= 0) by (nonlinear_arith)
        requires
            c >= 0,
            factor >= 0,
    ;
}

/// Tuning only narrows: the tuned corridor sits inside the baseline one,
/// and each tuned ceiling is at most its baseline.
pub proof fn lemma_tuning_shrinks(site: SiteView, cfg: BioRailConfig)
    requires
        cfg.wf(),
    ensures
        cfg.corridor_min.spec_value() <= spec_tuned_min(site, cfg),
        spec_tuned_min(site, cfg) <= spec_tuned_max(site, cfg),
        spec_tuned_max(site, cfg) <= cfg.corridor_max.spec_value(),
{
    let lo = cfg.corridor_min.spec_value();
    let hi = cfg.corridor_max.spec_value();
    if spec_stressed(site) {
        let f = spec_factor(site);
        let shrunk = spec_shrunk(hi - lo, f);
        lemma_shrunk_le(hi - lo, f);
        lemma_div_is_ordered(2 * lo, lo + hi - shrunk, 2);
        lemma_div_is_ordered(lo + hi - shrunk, lo + hi + shrunk, 2);
        lemma_div_is_ordered(lo + hi + shrunk, 2 * hi, 2);
        lemma_div_by_multiple(lo, 2);
        lemma_div_by_multiple(hi, 2);
        assert(lo * 2 == 2 * lo && hi * 2 == 2 * hi);
    }
}

impl BioRailTerrasafeGuard {
    /// Apply stress tightening to the effective corridor and territorial
    /// ceilings. The measured loads are returned unchanged; only their
    /// ceilings may shrink, never widen.
    pub fn apply_justice_tuning(
        site: &SiteView,
        rail_cfg: &BioRailConfig,
        bioload: &BioLoadView,
    ) -> (r: (BioRailConfig, BioLoadView))
        requires
            site.wf(),
            rail_cfg.wf(),
            bioload.wf(),
        ensures
            r.0.corridor_min.spec_value() == spec_tuned_min(*site, *rail_cfg),
            r.0.corridor_max.spec_value() == spec_tuned_max(*site, *rail_cfg),
            r.1.body == bioload.body,
            r.1.room == bioload.room,
            r.1.grid == bioload.grid,
            r.1.body_max.spec_value() == spec_tuned_cap(bioload.body_max.spec_value(), *site),
            r.1.room_max.spec_value() == spec_tuned_cap(bioload.room_max.spec_value(), *site),
            r.1.grid_max.spec_value() == spec_tuned_cap(bioload.grid_max.spec_value(), *site),
            rail_cfg.corridor_min.spec_value() <= r.0.corridor_min.spec_value(),
            r.0.corridor_max.spec_value() <= rail_cfg.corridor_max.spec_value(),
            r.1.body_max.spec_value() <= bioload.body_max.spec_value(),
            r.1.room_max.spec_value() <= bioload.room_max.spec_value(),
            r.1.grid_max.spec_value() <= bioload.grid_max.spec_value(),
            r.0.wf(),
            r.1.wf(),
    {
        let jm = &site.justice_metrics;
        let cfg = &site.justice_cfg;

        let stressed: bool = jm.hpcc > cfg.hpcc_max || jm.erg > cfg.erg_max
            || jm.tecr > cfg.tecr_max;

        if !stressed {
            return (
                BioRailConfig {
                    corridor_min: rail_cfg.corridor_min,
                    corridor_max: rail_cfg.corridor_max,
                },
                BioLoadView {
                    body: bioload.body,
                    room: bioload.room,
                    grid: bioload.grid,
                    body_max: bioload.body_max,
                    room_max: bioload.room_max,
                    grid_max: bioload.grid_max,
                },
            );
        }

        let factor: u64 = if cfg.tightening_factor > UNIT {
            UNIT
        } else {
            cfg.tightening_factor
        };

        let lo: u64 = rail_cfg.corridor_min.value();
        let hi: u64 = rail_cfg.corridor_max.value();
        proof {
            lemma_shrunk_le(hi - lo, factor as int);
        }
        let shrunk: u64 = (hi - lo) * factor / UNIT;
        let tuned_min_v: u64 = (lo + hi - shrunk) / 2;
        let tuned_max_v: u64 = (lo + hi + shrunk) / 2;
        proof {
            lemma_tuning_shrinks(*site, *rail_cfg);
        }
        let tuned_cfg = BioRailConfig {
            corridor_min: RailScalar::new_clamped(tuned_min_v as i64),
            corridor_max: RailScalar::new_clamped(tuned_max_v as i64),
        };

        let body_cap: u64 = bioload.body_max.value();
        let room_cap: u64 = bioload.room_max.value();
        let grid_cap: u64 = bioload.grid_max.value();
        proof {
            lemma_shrunk_le(body_cap as int, factor as int);
            lemma_shrunk_le(room_cap as int, factor as int);
            lemma_shrunk_le(grid_cap as int, factor as int);
        }
        let tuned_bioload = BioLoadView {
            body: bioload.body,
            room: bioload.room,
            grid: bioload.grid,
            body_max: RailScalar::new_clamped((body_cap * factor / UNIT) as i64),
            room_max: RailScalar::new_clamped((room_cap * factor / UNIT) as i64),
            grid_max: RailScalar::new_clamped((grid_cap * factor / UNIT) as i64),
        };

        (tuned_cfg, tuned_bioload)
    }
}

// ---------------------------------------------------------------------
// Transition prediction
// ---------------------------------------------------------------------

/// A non-negative magnitude after an additive delta: floored at 0 and
/// saturated at the `MAG_MAX` domain ceiling.
pub open spec fn spec_add_mag(v: int, d: int) -> int {
    let s = v + d;
    if s < 0 {
        0
    } else if s > MAG_MAX {
        MAG_MAX as int
    } else {
        s
    }
}

/// A signed magnitude after an additive delta, saturated to
/// [-`MAG_MAX`, `MAG_MAX`].
pub open spec fn spec_add_signed(v: int, d: int) -> int {
    let s = v + d;
    if s < -(MAG_MAX as int) {
        -(MAG_MAX as int)
    } else if s > MAG_MAX {
        MAG_MAX as int
    } else {
        s
    }
}

/// The predicted envelope: risk-of-harm and decay floored at 0, the
/// life-sustaining scalar shifted, the band unchanged.
pub open spec fn spec_pred_env(site: SiteView, ch: ProposedChange) -> BioEnvelope {
    BioEnvelope {
        roh: spec_add_mag(site.bio_env.roh as int, ch.delta_roh as int) as u64,
        decay: spec_add_mag(site.bio_env.decay as int, ch.delta_decay as int) as u64,
        lifeforce: spec_add_signed(
            site.bio_env.lifeforce as int,
            ch.delta_lifeforce_env as int,
        ) as i64,
        lifeforce_min: site.bio_env.lifeforce_min,
        lifeforce_max: site.bio_env.lifeforce_max,
    }
}

/// The predicted identity vector: the load axes and trust clamped to
/// [0, `UNIT`], the life-sustaining axis shifted.
pub open spec fn spec_pred_identity(site: SiteView, ch: ProposedChange) -> FiveDIdentity {
    let id = site.identity_5d;
    FiveDIdentity {
        biostate_load: clamped(id.biostate_load + ch.delta_biostate_load) as u64,
        neurostate_fear: clamped(id.neurostate_fear + ch.delta_neurostate_fear) as u64,
        lifeforce: spec_add_signed(id.lifeforce as int, ch.delta_lifeforce as int) as i64,
        context_load: clamped(id.context_load + ch.delta_context_load) as u64,
        sovereignty_trust: clamped(id.sovereignty_trust + ch.delta_sovereignty_trust) as u64,
    }
}

/// The predicted territorial loads, clamped to [0, `UNIT`]; the ceilings
/// are taken from the already-tuned view so stress tightening applies
/// prospectively.
pub open spec fn spec_pred_bioload(
    site: SiteView,
    ch: ProposedChange,
    tuned: BioLoadView,
) -> BioLoadView {
    let bl = site.bioload_view;
    BioLoadView {
        body: RailScalar::spec_new_clamped(bl.body.spec_value() + ch.delta_bioload_body),
        room: RailScalar::spec_new_clamped(bl.room.spec_value() + ch.delta_bioload_room),
        grid: RailScalar::spec_new_clamped(bl.grid.spec_value() + ch.delta_bioload_grid),
        body_max: tuned.body_max,
        room_max: tuned.room_max,
        grid_max: tuned.grid_max,
    }
}

/// The predicted ratio pair: the numerator floored at 0, the denominator
/// and ratio constant unchanged.
pub open spec fn spec_pred_power(site: SiteView, ch: ProposedChange) -> PowerChurchState {
    PowerChurchState {
        power: spec_add_mag(site.power_church.power as int, ch.delta_power as int) as u64,
        church: site.power_church.church,
        k_ratio: site.power_church.k_ratio,
    }
}

/// Floored/saturated magnitude addition, executable form.
fn add_mag(v: u64, d: i64) -> (r: u64)
    requires
        v <= MAG_MAX,
        -(MAG_MAX as int) <= d <= MAG_MAX as int,
    ensures
        r == spec_add_mag(v as int, d as int),
        r <= MAG_MAX,
{
    if d >= 0 {
        let s: u64 = v + (d as u64);
        if s > MAG_MAX {
            MAG_MAX
        } else {
            s
        }
    } else {
        let neg: u64 = (-d) as u64;
        if neg >= v {
            0
        } else {
            v - neg
        }
    }
}

/// Saturated signed addition, executable form.
fn add_signed(v: i64, d: i64) -> (r: i64)
    requires
        -(MAG_MAX as int) <= v <= MAG_MAX as int,
        -(MAG_MAX as int) <= d <= MAG_MAX as int,
    ensures
        r == spec_add_signed(v as int, d as int),
        -(MAG_MAX as int) <= r <= MAG_MAX as int,
{
    let s: i64 = v + d;
    if s < -(MAG_MAX as i64) {
        -(MAG_MAX as i64)
    } else if s > MAG_MAX as i64 {
        MAG_MAX as i64
    } else {
        s
    }
}

/// Clamped addition onto [0, `UNIT`], executable form.
fn add_clamped01(v: u64, d: i64) -> (r: u64)
    requires
        v <= MAG_MAX,
        -(MAG_MAX as int) <= d <= MAG_MAX as int,
    ensures
        r == clamped(v + d),
        r <= UNIT,
{
    if d >= 0 {
        let s: u64 = v + (d as u64);
        if s > UNIT {
            UNIT
        } else {
            s
        }
    } else {
        let neg: u64 = (-d) as u64;
        if neg >= v {
            0
        } else {
            let s: u64 = v - neg;
            if s > UNIT {
                UNIT
            } else {
                s
            }
        }
    }
}

impl BioRailTerrasafeGuard {
    /// Apply a proposed change to a snapshot, producing the predicted
    /// post-transition slices. Pure; the input is not mutated.
    pub fn predict_post_state(
        site: &SiteView,
        change: &ProposedChange,
        tuned_bioload_max: &BioLoadView,
    ) -> (r: (BioEnvelope, BioLoadView, PowerChurchState, FiveDIdentity))
        requires
            site.wf(),
            change.wf(),
            tuned_bioload_max.wf(),
        ensures
            r.0 == spec_pred_env(*site, *change),
            r.1 == spec_pred_bioload(*site, *change, *tuned_bioload_max),
            r.2 == spec_pred_power(*site, *change),
            r.3 == spec_pred_identity(*site, *change),
            r.0.wf(),
            r.1.wf(),
            r.2.wf(),
            r.3.wf(),
    {
        let env = BioEnvelope {
            roh: add_mag(site.bio_env.roh, change.delta_roh),
            decay: add_mag(site.bio_env.decay, change.delta_decay),
            lifeforce: add_signed(site.bio_env.lifeforce, change.delta_lifeforce_env),
            lifeforce_min: site.bio_env.lifeforce_min,
            lifeforce_max: site.bio_env.lifeforce_max,
        };

        let id = FiveDIdentity {
            biostate_load: add_clamped01(
                site.identity_5d.biostate_load,
                change.delta_biostate_load,
            ),
            neurostate_fear: add_clamped01(
                site.identity_5d.neurostate_fear,
                change.delta_neurostate_fear,
            ),
            lifeforce: add_signed(site.identity_5d.lifeforce, change.delta_lifeforce),
            context_load: add_clamped01(
                site.identity_5d.context_load,
                change.delta_context_load,
            ),
            sovereignty_trust: add_clamped01(
                site.identity_5d.sovereignty_trust,
                change.delta_sovereignty_trust,
            ),
        };

        let body_v: u64 = site.bioload_view.body.value();
        let room_v: u64 = site.bioload_view.room.value();
        let grid_v: u64 = site.bioload_view.grid.value();
        let bl = BioLoadView {
            body: RailScalar::new_clamped(body_v as i64 + change.delta_bioload_body),
            room: RailScalar::new_clamped(room_v as i64 + change.delta_bioload_room),
            grid: RailScalar::new_clamped(grid_v as i64 + change.delta_bioload_grid),
            body_max: tuned_bioload_max.body_max,
            room_max: tuned_bioload_max.room_max,
            grid_max: tuned_bioload_max.grid_max,
        };

        let pc = PowerChurchState {
            power: add_mag(site.power_church.power, change.delta_power),
            church: site.power_church.church,
            k_ratio: site.power_church.k_ratio,
        };

        (env, bl, pc, id)
    }
}

// ---------------------------------------------------------------------
// Invariant checks
// ---------------------------------------------------------------------

/// Envelope invariant: risk-of-harm at most its 0.3 ceiling, decay at
/// most 1.0, the life-sustaining scalar inside its band, all with one
/// fixed-point step (1e-9) of tolerance.
pub open spec fn spec_envelope_ok(env: BioEnvelope) -> bool {
    &&& env.roh <= ROH_CEILING + EPS
    &&& env.decay <= UNIT + EPS
    &&& env.lifeforce + EPS >= env.lifeforce_min
    &&& env.lifeforce <= env.lifeforce_max + EPS
}

/// Territorial invariant: each load at most its ceiling, with tolerance.
pub open spec fn spec_bioload_ok(bl: BioLoadView) -> bool {
    &&& bl.body.spec_value() <= bl.body_max.spec_value() + EPS
    &&& bl.room.spec_value() <= bl.room_max.spec_value() + EPS
    &&& bl.grid.spec_value() <= bl.grid_max.spec_value() + EPS
}

/// Ratio invariant: `power <= k_ratio * church` in real units, with
/// tolerance; in fixed point, `power * UNIT <= k_ratio * church + UNIT`.
pub open spec fn spec_ratio_ok(pc: PowerChurchState) -> bool {
    pc.power * UNIT <= pc.k_ratio * pc.church + UNIT
}

impl BioRailTerrasafeGuard {
    /// Check the envelope ceilings on a predicted envelope.
    pub fn check_envelopes(pred_env: &BioEnvelope) -> (r: bool)
        requires
            pred_env.wf(),
        ensures
            r == spec_envelope_ok(*pred_env),
    {
        if pred_env.roh > ROH_CEILING + EPS {
            return false;
        }
        if pred_env.decay > UNIT + EPS {
            return false;
        }
        if pred_env.lifeforce + (EPS as i64) < pred_env.lifeforce_min {
            return false;
        }
        if pred_env.lifeforce > pred_env.lifeforce_max + (EPS as i64) {
            return false;
        }
        true
    }

    /// Check the territorial ceilings on predicted loads.
    pub fn check_bioload(pred: &BioLoadView) -> (r: bool)
        requires
            pred.wf(),
        ensures
            r == spec_bioload_ok(*pred),
    {
        pred.body.value() <= pred.body_max.value() + EPS
            && pred.room.value() <= pred.room_max.value() + EPS
            && pred.grid.value() <= pred.grid_max.value() + EPS
    }

    /// Check the ratio constraint on the predicted pair.
    pub fn check_power_church(pred_pc: &PowerChurchState) -> (r: bool)
        requires
            pred_pc.wf(),
        ensures
            r == spec_ratio_ok(*pred_pc),
    {
        proof {
            assert((pred_pc.power as int) * (UNIT as int) <= (MAG_MAX as int) * (UNIT as int))
                by (nonlinear_arith)
                requires
                    pred_pc.power <= MAG_MAX,
            ;
            assert((pred_pc.k_ratio as int) * (pred_pc.church as int) <= (MAG_MAX as int) * (
            MAG_MAX as int)) by (nonlinear_arith)
                requires
                    pred_pc.k_ratio <= MAG_MAX,
                    pred_pc.church <= MAG_MAX,
            ;
        }
        let lhs: u128 = (pred_pc.power as u128) * (UNIT as u128);
        let rhs: u128 = (pred_pc.k_ratio as u128) * (pred_pc.church as u128) + (UNIT as u128);
        lhs <= rhs
    }
}

// ---------------------------------------------------------------------
// The combined verdict
// ---------------------------------------------------------------------

/// Territorial invariant on the predicted loads against the tuned
/// ceilings, stated over the fixed-point values.
pub open spec fn spec_territory_ok(site: SiteView, ch: ProposedChange) -> bool {
    let bl = site.bioload_view;
    &&& clamped(bl.body.spec_value() + ch.delta_bioload_body) <= spec_tuned_cap(
        bl.body_max.spec_value(),
        site,
    ) + EPS
    &&& clamped(bl.room.spec_value() + ch.delta_bioload_room) <= spec_tuned_cap(
        bl.room_max.spec_value(),
        site,
    ) + EPS
    &&& clamped(bl.grid.spec_value() + ch.delta_bioload_grid) <= spec_tuned_cap(
        bl.grid_max.spec_value(),
        site,
    ) + EPS
}

/// The risk scalar projected from the predicted snapshot.
pub open spec fn spec_pred_risk(site: SiteView, ch: ProposedChange) -> int {
    spec_projected_risk(
        SiteView {
            bio_env: spec_pred_env(site, ch),
            identity_5d: spec_pred_identity(site, ch),
            ..site
        },
    )
}

/// The verdict of the scalar gate, in evaluation order: fail closed on a
/// cleared diagnostic-only flag; `ForceRepair` on an envelope or
/// territorial violation; `Block` on a ratio violation; otherwise `Allow`
/// inside the tuned corridor, and outside it `ForceRepair` when the risk
/// is worsening, `Downscale` when it is flat or improving.
pub open spec fn spec_gate_verdict(
    site: SiteView,
    base_cfg: BioRailConfig,
    proposed: ProposedChange,
) -> GateVerdict {
    if !site.diag.role_diagnostic_only {
        GateVerdict::ForceRepair
    } else if !spec_envelope_ok(spec_pred_env(site, proposed)) {
        GateVerdict::ForceRepair
    } else if !spec_territory_ok(site, proposed) {
        GateVerdict::ForceRepair
    } else if !spec_ratio_ok(spec_pred_power(site, proposed)) {
        GateVerdict::Block
    } else {
        let current_b = spec_projected_risk(site);
        let pred_b = spec_pred_risk(site, proposed);
        if pred_b < spec_tuned_min(site, base_cfg) || pred_b > spec_tuned_max(site, base_cfg) {
            if pred_b > current_b {
                GateVerdict::ForceRepair
            } else {
                GateVerdict::Downscale
            }
        } else {
            GateVerdict::Allow
        }
    }
}

impl BioRailTerrasafeGuard {
    /// Main gate entrypoint: evaluate a proposed change against the
    /// tuned corridor and the absolute ceilings. Pure and total: every
    /// input yields a verdict, and an unset diagnostic-only flag fails
    /// closed to the most restrictive verdict.
    pub fn gate(
        site: &SiteView,
        base_cfg: &BioRailConfig,
        proposed: &ProposedChange,
    ) -> (v: GateVerdict)
        requires
            site.wf(),
            base_cfg.wf(),
            proposed.wf(),
        ensures
            v == spec_gate_verdict(*site, *base_cfg, *proposed),
    {
        if !site.diag.role_diagnostic_only {
            return GateVerdict::ForceRepair;
        }

        let (tuned_cfg, tuned_bioload_max) = Self::apply_justice_tuning(
            site,
            base_cfg,
            &site.bioload_view,
        );

        let current_b = Self::compute_biosignature(site);

        let (pred_env, pred_bioload, pred_pc, pred_id) = Self::predict_post_state(
            site,
            proposed,
            &tuned_bioload_max,
        );

        if !Self::check_envelopes(&pred_env) {
            return GateVerdict::ForceRepair;
        }

        proof {
            RailScalar::lemma_spec_new_clamped(
                site.bioload_view.body.spec_value() + proposed.delta_bioload_body,
            );
            RailScalar::lemma_spec_new_clamped(
                site.bioload_view.room.spec_value() + proposed.delta_bioload_room,
            );
            RailScalar::lemma_spec_new_clamped(
                site.bioload_view.grid.spec_value() + proposed.delta_bioload_grid,
            );
            assert(spec_bioload_ok(pred_bioload) == spec_territory_ok(*site, *proposed));
        }
        if !Self::check_bioload(&pred_bioload) {
            return GateVerdict::ForceRepair;
        }

        if !Self::check_power_church(&pred_pc) {
            return GateVerdict::Block;
        }

        let pred_site_view = SiteView {
            id: site.id,
            bio_env: pred_env,
            identity_5d: pred_id,
            bioload_view: pred_bioload,
            power_church: pred_pc,
            justice_metrics: JusticeMetrics {
                hpcc: site.justice_metrics.hpcc,
                erg: site.justice_metrics.erg,
                tecr: site.justice_metrics.tecr,
            },
            justice_cfg: JusticeCorridorConfig {
                hpcc_max: site.justice_cfg.hpcc_max,
                erg_max: site.justice_cfg.erg_max,
                tecr_max: site.justice_cfg.tecr_max,
                tightening_factor: site.justice_cfg.tightening_factor,
            },
            diag: DiagnosticFlags {
                beast_tag: site.diag.beast_tag,
                plague_tag: site.diag.plague_tag,
                unfair_drain: site.diag.unfair_drain,
                role_diagnostic_only: site.diag.role_diagnostic_only,
            },
        };
        let pred_b = Self::compute_biosignature(&pred_site_view);
        proof {
            assert(pred_b.spec_value() == spec_pred_risk(*site, *proposed));
        }

        if pred_b.value() < tuned_cfg.corridor_min.value() || pred_b.value()
            > tuned_cfg.corridor_max.value() {
            if pred_b.value() > current_b.value() {
                GateVerdict::ForceRepair
            } else {
                GateVerdict::Downscale
            }
        } else {
            GateVerdict::Allow
        }
    }
}

/// Main guard coupling the scalar rail with the territorial ceilings and
/// the ratio cap; a namespace for pure associated functions only.
pub struct BioRailTerrasafeGuard;

} // verus!
