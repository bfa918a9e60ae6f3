//! Engine-wide laws of the scalar gate, each proved against the spec
//! functions that the guard's own contract is stated over.

use vstd::prelude::*;
use vstd::arithmetic::div_mod::{lemma_div_is_ordered, lemma_div_pos_is_pos};
use crate::scalar::{clamped, EPS, UNIT};
use crate::state::{BioRailConfig, GateVerdict, ProposedChange, SiteView};
use crate::gate::{
    spec_envelope_ok, spec_gate_verdict, spec_lf_pos, spec_pred_env, spec_pred_power,
    spec_pred_risk, spec_projected_risk, spec_ratio_ok, spec_roh_norm, spec_stressed,
    spec_territory_ok, spec_tuned_cap, spec_tuned_max, spec_tuned_min, LIFE_WEIGHT,
    RELIEF_WEIGHT, RISK_WEIGHT, ROH_CEILING, WEIGHT_SCALE,
};

verus! {

/// Monotonicity of the risk projection: raising any risk-increasing
/// input (biological load, neuro-distress, contextual load, risk-of-harm,
/// decay) while holding the others fixed never lowers the projected risk,
/// and raising trust never raises it.
pub proof fn lemma_projection_monotone(s1: SiteView, s2: SiteView)
    requires
        s1.bio_env.lifeforce == s2.bio_env.lifeforce,
        s1.bio_env.lifeforce_min == s2.bio_env.lifeforce_min,
        s1.bio_env.lifeforce_max == s2.bio_env.lifeforce_max,
        s1.identity_5d.biostate_load <= s2.identity_5d.biostate_load,
        s1.identity_5d.neurostate_fear <= s2.identity_5d.neurostate_fear,
        s1.identity_5d.context_load <= s2.identity_5d.context_load,
        s1.bio_env.roh <= s2.bio_env.roh,
        s1.bio_env.decay <= s2.bio_env.decay,
        s1.identity_5d.sovereignty_trust >= s2.identity_5d.sovereignty_trust,
    ensures
        spec_projected_risk(s1) <= spec_projected_risk(s2),
{
    lemma_div_is_ordered(s1.bio_env.roh * 10, s2.bio_env.roh * 10, 3);

    let lf_risk = UNIT - spec_lf_pos(
        s1.bio_env.lifeforce as int,
        s1.bio_env.lifeforce_min as int,
        s1.bio_env.lifeforce_max as int,
    );
    let rs1 = RISK_WEIGHT * (clamped(s1.identity_5d.biostate_load as int)
        + clamped(s1.identity_5d.neurostate_fear as int)
        + clamped(s1.identity_5d.context_load as int)
        + spec_roh_norm(s1.bio_env.roh as int)
        + clamped(s1.bio_env.decay as int)) + LIFE_WEIGHT * lf_risk;
    let rs2 = RISK_WEIGHT * (clamped(s2.identity_5d.biostate_load as int)
        + clamped(s2.identity_5d.neurostate_fear as int)
        + clamped(s2.identity_5d.context_load as int)
        + spec_roh_norm(s2.bio_env.roh as int)
        + clamped(s2.bio_env.decay as int)) + LIFE_WEIGHT * lf_risk;
    let rel1 = RELIEF_WEIGHT * clamped(s1.identity_5d.sovereignty_trust as int);
    let rel2 = RELIEF_WEIGHT * clamped(s2.identity_5d.sovereignty_trust as int);
    assert(rs1 <= rs2);
    assert(rel2 <= rel1);
    if rs1 >= rel1 {
        lemma_div_is_ordered(rs1 - rel1, rs2 - rel2, WEIGHT_SCALE as int);
    } else if rs2 >= rel2 {
        lemma_div_pos_is_pos(rs2 - rel2, WEIGHT_SCALE as int);
    }
}

/// Ceiling enforcement: whenever the predicted envelope has risk-of-harm
/// above its 0.3 ceiling or decay above 1.0 (beyond the 1e-9 tolerance),
/// the guard returns `ForceRepair`.
pub proof fn lemma_ceiling_enforcement(
    site: SiteView,
    cfg: BioRailConfig,
    ch: ProposedChange,
)
    requires
        spec_pred_env(site, ch).roh > ROH_CEILING + EPS || spec_pred_env(site, ch).decay > UNIT
            + EPS,
    ensures
        spec_gate_verdict(site, cfg, ch) == GateVerdict::ForceRepair,
{
}

/// Territorial enforcement: whenever a predicted territorial load exceeds
/// its tuned ceiling on any of the three scopes (beyond the tolerance),
/// the guard returns `ForceRepair`.
pub proof fn lemma_territorial_enforcement(
    site: SiteView,
    cfg: BioRailConfig,
    ch: ProposedChange,
)
    requires
        !spec_territory_ok(site, ch),
    ensures
        spec_gate_verdict(site, cfg, ch) == GateVerdict::ForceRepair,
{
}

/// Ratio enforcement: when the predicted pair violates
/// `power <= k_ratio * church` while the envelope and territorial checks
/// pass, the guard returns `Block` — never `ForceRepair`.
pub proof fn lemma_ratio_enforcement(site: SiteView, cfg: BioRailConfig, ch: ProposedChange)
    requires
        site.diag.role_diagnostic_only,
        spec_envelope_ok(spec_pred_env(site, ch)),
        spec_territory_ok(site, ch),
        !spec_ratio_ok(spec_pred_power(site, ch)),
    ensures
        spec_gate_verdict(site, cfg, ch) == GateVerdict::Block,
{
}

/// Corridor tie-break: with every absolute check passing and the
/// predicted risk outside the tuned corridor, the guard returns
/// `ForceRepair` exactly when the risk is worsening, and `Downscale`
/// when it is flat or improving.
pub proof fn lemma_corridor_tie_break(site: SiteView, cfg: BioRailConfig, ch: ProposedChange)
    requires
        site.diag.role_diagnostic_only,
        spec_envelope_ok(spec_pred_env(site, ch)),
        spec_territory_ok(site, ch),
        spec_ratio_ok(spec_pred_power(site, ch)),
        spec_pred_risk(site, ch) < spec_tuned_min(site, cfg) || spec_pred_risk(site, ch)
            > spec_tuned_max(site, cfg),
    ensures
        spec_pred_risk(site, ch) > spec_projected_risk(site) ==> spec_gate_verdict(
            site,
            cfg,
            ch,
        ) == GateVerdict::ForceRepair,
        spec_pred_risk(site, ch) <= spec_projected_risk(site) ==> spec_gate_verdict(
            site,
            cfg,
            ch,
        ) == GateVerdict::Downscale,
{
}

/// No stress means an unchanged corridor: while every stress metric is
/// below its configured maximum, the tuned corridor bounds and the tuned
/// territorial ceilings equal the baseline exactly.
pub proof fn lemma_no_stress_keeps_baseline(site: SiteView, cfg: BioRailConfig, cap: int)
    requires
        site.justice_metrics.hpcc < site.justice_cfg.hpcc_max,
        site.justice_metrics.erg < site.justice_cfg.erg_max,
        site.justice_metrics.tecr < site.justice_cfg.tecr_max,
    ensures
        !spec_stressed(site),
        spec_tuned_min(site, cfg) == cfg.corridor_min.spec_value(),
        spec_tuned_max(site, cfg) == cfg.corridor_max.spec_value(),
        spec_tuned_cap(cap, site) == cap,
{
}

} // verus!
