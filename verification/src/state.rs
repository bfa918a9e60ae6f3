//! Snapshot and configuration types for the scalar rail gate.
//!
//! All quantities are fixed-point: a count of 1e-9 steps of the real
//! value. Fields that are conceptually in [0, 1] are `RailScalar`;
//! open-ended magnitudes are plain integers bounded by `MAG_MAX`, and the
//! envelope's life-sustaining scalar may also be negative. Each type has a
//! well-formedness predicate that the guard functions require and preserve.

use vstd::prelude::*;
use crate::scalar::{RailScalar, MAG_MAX};

verus! {

/// Core biophysical envelope: risk-of-harm and decay fractions with hard
/// ceilings, and a life-sustaining scalar expected inside
/// [`lifeforce_min`, `lifeforce_max`].
#[derive(Clone, Debug)]
pub struct BioEnvelope {
    pub roh: u64,
    pub decay: u64,
    pub lifeforce: i64,
    pub lifeforce_min: i64,
    pub lifeforce_max: i64,
}

impl BioEnvelope {
    pub open spec fn wf(self) -> bool {
        &&& self.roh <= MAG_MAX
        &&& self.decay <= MAG_MAX
        &&& -(MAG_MAX as int) <= self.lifeforce <= MAG_MAX
        &&& -(MAG_MAX as int) <= self.lifeforce_min <= MAG_MAX
        &&& -(MAG_MAX as int) <= self.lifeforce_max <= MAG_MAX
        &&& self.lifeforce_min <= self.lifeforce_max
    }
}

/// Five-axis identity vector. The four load-like axes are non-negative
/// and are clamped to [0, `UNIT`] wherever the projection reads them;
/// `lifeforce` is carried along unclamped.
#[derive(Clone, Debug)]
pub struct FiveDIdentity {
    pub biostate_load: u64,
    pub neurostate_fear: u64,
    pub lifeforce: i64,
    pub context_load: u64,
    pub sovereignty_trust: u64,
}

impl FiveDIdentity {
    pub open spec fn wf(self) -> bool {
        &&& self.biostate_load <= MAG_MAX
        &&& self.neurostate_fear <= MAG_MAX
        &&& -(MAG_MAX as int) <= self.lifeforce <= MAG_MAX
        &&& self.context_load <= MAG_MAX
        &&& self.sovereignty_trust <= MAG_MAX
    }
}

/// Territorial load views at the three scopes, with their ceilings.
#[derive(Clone, Debug)]
pub struct BioLoadView {
    pub body: RailScalar,
    pub room: RailScalar,
    pub grid: RailScalar,
    pub body_max: RailScalar,
    pub room_max: RailScalar,
    pub grid_max: RailScalar,
}

impl BioLoadView {
    pub open spec fn wf(self) -> bool {
        &&& self.body.is_bounded()
        &&& self.room.is_bounded()
        &&& self.grid.is_bounded()
        &&& self.body_max.is_bounded()
        &&& self.room_max.is_bounded()
        &&& self.grid_max.is_bounded()
    }
}

/// Ratio-constrained pair: `power` must stay at or below
/// `k_ratio * church`.
#[derive(Clone, Debug)]
pub struct PowerChurchState {
    pub power: u64,
    pub church: u64,
    pub k_ratio: u64,
}

impl PowerChurchState {
    pub open spec fn wf(self) -> bool {
        &&& self.power <= MAG_MAX
        &&& self.church <= MAG_MAX
        &&& self.k_ratio <= MAG_MAX
    }
}

/// Stress metrics snapshot; read only by the corridor tuner.
#[derive(Clone, Debug)]
pub struct JusticeMetrics {
    pub hpcc: u64,
    pub erg: u64,
    pub tecr: u64,
}

impl JusticeMetrics {
    pub open spec fn wf(self) -> bool {
        &&& self.hpcc <= MAG_MAX
        &&& self.erg <= MAG_MAX
        &&& self.tecr <= MAG_MAX
    }
}

/// Maxima for the stress metrics, plus the factor corridors and ceilings
/// shrink by while any metric is above its maximum.
#[derive(Clone, Debug)]
pub struct JusticeCorridorConfig {
    pub hpcc_max: u64,
    pub erg_max: u64,
    pub tecr_max: u64,
    pub tightening_factor: u64,
}

impl JusticeCorridorConfig {
    pub open spec fn wf(self) -> bool {
        &&& self.hpcc_max <= MAG_MAX
        &&& self.erg_max <= MAG_MAX
        &&& self.tecr_max <= MAG_MAX
        &&& self.tightening_factor <= MAG_MAX
    }
}

/// Diagnostic flags. Informational only: the guard never branches on them,
/// except that `role_diagnostic_only` must be set, asserting that the
/// caller is not actuating from a diagnostic path.
#[derive(Clone, Debug)]
pub struct DiagnosticFlags {
    pub beast_tag: bool,
    pub plague_tag: bool,
    pub unfair_drain: bool,
    pub role_diagnostic_only: bool,
}

/// Site-local view the guard evaluates: envelope, identity, territorial
/// loads, ratio pair, stress metrics and their configuration, flags.
#[derive(Clone, Debug)]
pub struct SiteView {
    pub id: usize,
    pub bio_env: BioEnvelope,
    pub identity_5d: FiveDIdentity,
    pub bioload_view: BioLoadView,
    pub power_church: PowerChurchState,
    pub justice_metrics: JusticeMetrics,
    pub justice_cfg: JusticeCorridorConfig,
    pub diag: DiagnosticFlags,
}

impl SiteView {
    pub open spec fn wf(self) -> bool {
        &&& self.bio_env.wf()
        &&& self.identity_5d.wf()
        &&& self.bioload_view.wf()
        &&& self.power_church.wf()
        &&& self.justice_metrics.wf()
        &&& self.justice_cfg.wf()
    }
}

/// Allowed corridor for the projected risk scalar.
#[derive(Clone, Debug)]
pub struct BioRailConfig {
    pub corridor_min: RailScalar,
    pub corridor_max: RailScalar,
}

impl BioRailConfig {
    pub open spec fn wf(self) -> bool {
        &&& self.corridor_min.is_bounded()
        &&& self.corridor_max.is_bounded()
        &&& self.corridor_min.spec_value() <= self.corridor_max.spec_value()
    }
}

/// Additive deltas for every mutable snapshot field, produced upstream
/// from a proposed action. The guard only consumes it.
#[derive(Clone, Debug)]
pub struct ProposedChange {
    pub delta_biostate_load: i64,
    pub delta_neurostate_fear: i64,
    pub delta_lifeforce: i64,
    pub delta_context_load: i64,
    pub delta_sovereignty_trust: i64,
    pub delta_roh: i64,
    pub delta_decay: i64,
    pub delta_lifeforce_env: i64,
    pub delta_bioload_body: i64,
    pub delta_bioload_room: i64,
    pub delta_bioload_grid: i64,
    pub delta_power: i64,
}

impl ProposedChange {
    pub open spec fn wf(self) -> bool {
        &&& -(MAG_MAX as int) <= self.delta_biostate_load <= MAG_MAX
        &&& -(MAG_MAX as int) <= self.delta_neurostate_fear <= MAG_MAX
        &&& -(MAG_MAX as int) <= self.delta_lifeforce <= MAG_MAX
        &&& -(MAG_MAX as int) <= self.delta_context_load <= MAG_MAX
        &&& -(MAG_MAX as int) <= self.delta_sovereignty_trust <= MAG_MAX
        &&& -(MAG_MAX as int) <= self.delta_roh <= MAG_MAX
        &&& -(MAG_MAX as int) <= self.delta_decay <= MAG_MAX
        &&& -(MAG_MAX as int) <= self.delta_lifeforce_env <= MAG_MAX
        &&& -(MAG_MAX as int) <= self.delta_bioload_body <= MAG_MAX
        &&& -(MAG_MAX as int) <= self.delta_bioload_room <= MAG_MAX
        &&& -(MAG_MAX as int) <= self.delta_bioload_grid <= MAG_MAX
        &&& -(MAG_MAX as int) <= self.delta_power <= MAG_MAX
    }
}

/// Verdict of the scalar gate; terminal, one per evaluation.
#[derive(Clone, Copy, Debug, PartialEq, Eq, Structural)]
pub enum GateVerdict {
    Allow,
    Downscale,
    Block,
    ForceRepair,
}

} // verus!
