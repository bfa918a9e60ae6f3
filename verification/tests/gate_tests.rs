use terrasafe::scalar::{RailScalar, UNIT};
use terrasafe::state::{
    BioEnvelope, BioLoadView, BioRailConfig, DiagnosticFlags, FiveDIdentity, GateVerdict,
    JusticeCorridorConfig, JusticeMetrics, PowerChurchState, ProposedChange, SiteView,
};
use terrasafe::gate::BioRailTerrasafeGuard;
use std::cmp::Ordering;

fn rail(v: i64) -> RailScalar {
    RailScalar::new_clamped(v)
}

fn calm_site() -> SiteView {
    SiteView {
        id: 1,
        bio_env: BioEnvelope {
            roh: 0,
            decay: 0,
            lifeforce: 500_000_000,
            lifeforce_min: 0,
            lifeforce_max: 1_000_000_000,
        },
        identity_5d: FiveDIdentity {
            biostate_load: 0,
            neurostate_fear: 0,
            lifeforce: 500_000_000,
            context_load: 0,
            sovereignty_trust: 1_000_000_000,
        },
        bioload_view: BioLoadView {
            body: rail(100_000_000),
            room: rail(100_000_000),
            grid: rail(100_000_000),
            body_max: rail(800_000_000),
            room_max: rail(800_000_000),
            grid_max: rail(800_000_000),
        },
        power_church: PowerChurchState {
            power: 100_000_000,
            church: 1_000_000_000,
            k_ratio: 1_000_000_000,
        },
        justice_metrics: JusticeMetrics { hpcc: 0, erg: 0, tecr: 0 },
        justice_cfg: JusticeCorridorConfig {
            hpcc_max: 500_000_000,
            erg_max: 500_000_000,
            tecr_max: 500_000_000,
            tightening_factor: 800_000_000,
        },
        diag: DiagnosticFlags {
            beast_tag: false,
            plague_tag: false,
            unfair_drain: false,
            role_diagnostic_only: true,
        },
    }
}

fn no_change() -> ProposedChange {
    ProposedChange {
        delta_biostate_load: 0,
        delta_neurostate_fear: 0,
        delta_lifeforce: 0,
        delta_context_load: 0,
        delta_sovereignty_trust: 0,
        delta_roh: 0,
        delta_decay: 0,
        delta_lifeforce_env: 0,
        delta_bioload_body: 0,
        delta_bioload_room: 0,
        delta_bioload_grid: 0,
        delta_power: 0,
    }
}

fn wide_corridor() -> BioRailConfig {
    BioRailConfig { corridor_min: rail(0), corridor_max: rail(1_000_000_000) }
}

#[test]
fn rail_scalar_clamps_and_orders() {
    assert_eq!(rail(-5).value(), 0);
    assert_eq!(rail(2_000_000_000).value(), UNIT);
    assert_eq!(rail(300_000_000).value(), 300_000_000);
    assert_eq!(rail(2).max(rail(7)).value(), 7);
    assert_eq!(rail(2).min(rail(7)).value(), 2);
    assert_eq!(rail(2).cmp(&rail(7)), Ordering::Less);
    assert_eq!(rail(7).cmp(&rail(2)), Ordering::Greater);
    assert_eq!(rail(7).cmp(&rail(7)), Ordering::Equal);
}

#[test]
fn zero_risk_full_trust_projects_zero() {
    let site = calm_site();
    let b = BioRailTerrasafeGuard::compute_biosignature(&site);
    assert_eq!(b.value(), 0);
}

#[test]
fn projection_is_monotone_in_risk_inputs() {
    let lo = calm_site();
    let mut hi = calm_site();
    hi.identity_5d.biostate_load = 900_000_000;
    hi.identity_5d.neurostate_fear = 900_000_000;
    hi.bio_env.roh = 200_000_000;
    let b_lo = BioRailTerrasafeGuard::compute_biosignature(&lo).value();
    let b_hi = BioRailTerrasafeGuard::compute_biosignature(&hi).value();
    assert!(b_lo <= b_hi);

    let mut trusting = hi.clone();
    trusting.identity_5d.sovereignty_trust = 1_000_000_000;
    let mut wary = hi.clone();
    wary.identity_5d.sovereignty_trust = 0;
    let b_trusting = BioRailTerrasafeGuard::compute_biosignature(&trusting).value();
    let b_wary = BioRailTerrasafeGuard::compute_biosignature(&wary).value();
    assert!(b_trusting <= b_wary);
}

#[test]
fn projection_weighted_sum_exact() {
    // All five primary terms at 1.0, life deficit 1.0, no trust: the
    // weights sum to 100 of 100, so the projection is exactly 1.0.
    let mut site = calm_site();
    site.identity_5d.biostate_load = 1_000_000_000;
    site.identity_5d.neurostate_fear = 1_000_000_000;
    site.identity_5d.context_load = 1_000_000_000;
    site.identity_5d.sovereignty_trust = 0;
    site.bio_env.roh = 300_000_000;
    site.bio_env.decay = 1_000_000_000;
    site.bio_env.lifeforce = 0;
    let b = BioRailTerrasafeGuard::compute_biosignature(&site).value();
    assert_eq!(b, UNIT);

    // Only biological load at 1.0: exactly its 0.18 weight.
    let mut one = calm_site();
    one.identity_5d.sovereignty_trust = 0;
    one.identity_5d.biostate_load = 1_000_000_000;
    one.bio_env.lifeforce = 1_000_000_000;
    let b_one = BioRailTerrasafeGuard::compute_biosignature(&one).value();
    assert_eq!(b_one, 180_000_000);
}

#[test]
fn gate_allows_calm_site() {
    let site = calm_site();
    let v = BioRailTerrasafeGuard::gate(&site, &wide_corridor(), &no_change());
    assert_eq!(v, GateVerdict::Allow);
}

#[test]
fn roh_ceiling_forces_repair() {
    let site = calm_site();
    let mut change = no_change();
    change.delta_roh = 300_000_002; // predicted roh exceeds 0.3 + 1e-9
    let v = BioRailTerrasafeGuard::gate(&site, &wide_corridor(), &change);
    assert_eq!(v, GateVerdict::ForceRepair);
}

#[test]
fn decay_ceiling_forces_repair() {
    let site = calm_site();
    let mut change = no_change();
    change.delta_decay = 1_000_000_002; // predicted decay exceeds 1.0 + 1e-9
    let v = BioRailTerrasafeGuard::gate(&site, &wide_corridor(), &change);
    assert_eq!(v, GateVerdict::ForceRepair);
}

#[test]
fn lifeforce_band_violation_forces_repair() {
    let mut site = calm_site();
    site.bio_env.lifeforce_min = 400_000_000;
    let mut change = no_change();
    change.delta_lifeforce_env = -200_000_000; // predicted below the floor
    let v = BioRailTerrasafeGuard::gate(&site, &wide_corridor(), &change);
    assert_eq!(v, GateVerdict::ForceRepair);
}

#[test]
fn territorial_ceiling_forces_repair() {
    let site = calm_site();
    let mut change = no_change();
    change.delta_bioload_room = 750_000_000; // predicted room load 0.85 > 0.8
    let v = BioRailTerrasafeGuard::gate(&site, &wide_corridor(), &change);
    assert_eq!(v, GateVerdict::ForceRepair);
}

#[test]
fn ratio_violation_blocks() {
    let site = calm_site();
    let mut change = no_change();
    change.delta_power = 1_000_000_000; // predicted power 1.1 > k * church = 1.0
    let v = BioRailTerrasafeGuard::gate(&site, &wide_corridor(), &change);
    assert_eq!(v, GateVerdict::Block);
}

#[test]
fn corridor_tie_break_distinguishes_worsening() {
    // Corridor far above reachable risk, so the predicted value is always
    // outside it; identical predicted risk, different current risk.
    let corridor = BioRailConfig {
        corridor_min: rail(900_000_000),
        corridor_max: rail(1_000_000_000),
    };

    // Worsening: risk increases from 0 toward the outside value.
    let site = calm_site();
    let mut worsening = no_change();
    worsening.delta_biostate_load = 500_000_000;
    worsening.delta_sovereignty_trust = -1_000_000_000;
    let v1 = BioRailTerrasafeGuard::gate(&site, &corridor, &worsening);
    assert_eq!(v1, GateVerdict::ForceRepair);

    // Improving: start at high risk, move to a lower but still
    // out-of-corridor value.
    let mut stressed_site = calm_site();
    stressed_site.identity_5d.sovereignty_trust = 0;
    stressed_site.identity_5d.biostate_load = 900_000_000;
    stressed_site.identity_5d.neurostate_fear = 900_000_000;
    let mut improving = no_change();
    improving.delta_biostate_load = -400_000_000;
    let v2 = BioRailTerrasafeGuard::gate(&stressed_site, &corridor, &improving);
    assert_eq!(v2, GateVerdict::Downscale);
}

#[test]
fn unset_diagnostic_flag_fails_closed() {
    let mut site = calm_site();
    site.diag.role_diagnostic_only = false;
    let v = BioRailTerrasafeGuard::gate(&site, &wide_corridor(), &no_change());
    assert_eq!(v, GateVerdict::ForceRepair);
}

#[test]
fn no_stress_keeps_baseline_exactly() {
    let site = calm_site(); // all stress metrics below their maxima
    let cfg = BioRailConfig { corridor_min: rail(200_000_000), corridor_max: rail(600_000_000) };
    let (tuned_cfg, tuned_loads) =
        BioRailTerrasafeGuard::apply_justice_tuning(&site, &cfg, &site.bioload_view);
    assert_eq!(tuned_cfg.corridor_min.value(), 200_000_000);
    assert_eq!(tuned_cfg.corridor_max.value(), 600_000_000);
    assert_eq!(tuned_loads.body_max.value(), site.bioload_view.body_max.value());
    assert_eq!(tuned_loads.room_max.value(), site.bioload_view.room_max.value());
    assert_eq!(tuned_loads.grid_max.value(), site.bioload_view.grid_max.value());
}

#[test]
fn stress_narrows_corridor_and_ceilings() {
    let mut site = calm_site();
    site.justice_metrics.hpcc = 600_000_000; // above its 0.5 maximum
    let cfg = BioRailConfig { corridor_min: rail(200_000_000), corridor_max: rail(600_000_000) };
    let (tuned_cfg, tuned_loads) =
        BioRailTerrasafeGuard::apply_justice_tuning(&site, &cfg, &site.bioload_view);
    // Midpoint 0.4, half-width 0.2 * 0.8 = 0.16.
    assert_eq!(tuned_cfg.corridor_min.value(), 240_000_000);
    assert_eq!(tuned_cfg.corridor_max.value(), 560_000_000);
    // Ceilings scaled by 0.8; measured loads untouched.
    assert_eq!(tuned_loads.body_max.value(), 640_000_000);
    assert_eq!(tuned_loads.body.value(), site.bioload_view.body.value());
    assert!(tuned_cfg.corridor_min.value() >= cfg.corridor_min.value());
    assert!(tuned_cfg.corridor_max.value() <= cfg.corridor_max.value());
}

#[test]
fn prediction_clamps_and_floors() {
    let site = calm_site();
    let mut change = no_change();
    change.delta_roh = -500_000_000; // floored at 0
    change.delta_biostate_load = 2_000_000_000; // clamped at 1.0
    change.delta_bioload_body = -500_000_000; // clamped at 0
    let (env, loads, pc, id) =
        BioRailTerrasafeGuard::predict_post_state(&site, &change, &site.bioload_view);
    assert_eq!(env.roh, 0);
    assert_eq!(id.biostate_load, 1_000_000_000);
    assert_eq!(loads.body.value(), 0);
    assert_eq!(pc.power, site.power_church.power);
}
