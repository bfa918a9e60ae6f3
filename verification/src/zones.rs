//! Per-zone corridors for the scalar rail.
//!
//! Substrate-agnostic zone tags with their own corridor bounds and
//! territorial ceilings, and the normalized identity view they gate on.

use vstd::prelude::*;
use crate::gate::spec_roh_norm;
use crate::scalar::{clamped, RailScalar, MAG_MAX, UNIT};

verus! {

/// Tag for the substrate or anatomical context of a zone.
#[derive(Clone, Copy, Debug, PartialEq, Eq, Hash, Structural)]
pub enum ZoneTag {
    NeuralBand,
    VascularConduit,
    HydrogelPatch,
    XrField,
    JetsonLineSite,
}

/// Per-zone corridor for the rail scalar, inclusive bounds.
#[derive(Clone, Debug)]
pub struct BioRailZone {
    pub id: ZoneTag,
    pub b_min: RailScalar,
    pub b_max: RailScalar,
}

/// Territorial load ceilings at the three scopes.
#[derive(Clone, Debug)]
pub struct TerrasafeCeilings {
    pub body_max: RailScalar,
    pub room_max: RailScalar,
    pub grid_max: RailScalar,
}

/// Configuration bundle: zone corridors, territorial ceilings, and the
/// ratio constant of the power cap.
#[derive(Clone, Debug)]
pub struct BioRailConfig {
    pub zones: Vec<BioRailZone>,
    pub terrasafe: TerrasafeCeilings,
    pub power_church_k: u64,
}

/// Expanded identity view used for projection, in fixed-point steps.
#[derive(Clone, Debug)]
pub struct Identity5D {
    pub biostate_fatigue: u64,
    pub biostate_inflammation: u64,
    pub neurostate_fear: u64,
    pub neurostate_stimulation: u64,
    pub lifeforce_level: u64,
    pub lifeforce_drain: u64,
    pub roh_slice: u64,
    pub decay: u64,
    pub context_territorial_load: u64,
    pub context_pollution: u64,
    pub sovereignty_trust: u64,
    pub sovereignty_consent: bool,
}

impl Identity5D {
    pub open spec fn wf(self) -> bool {
        &&& self.biostate_fatigue <= MAG_MAX
        &&& self.biostate_inflammation <= MAG_MAX
        &&& self.neurostate_fear <= MAG_MAX
        &&& self.neurostate_stimulation <= MAG_MAX
        &&& self.lifeforce_level <= MAG_MAX
        &&& self.lifeforce_drain <= MAG_MAX
        &&& self.roh_slice <= MAG_MAX
        &&& self.decay <= MAG_MAX
        &&& self.context_territorial_load <= MAG_MAX
        &&& self.context_pollution <= MAG_MAX
        &&& self.sovereignty_trust <= MAG_MAX
    }

    /// Clamp every axis into [0, `UNIT`]; the risk-of-harm slice is first
    /// normalized against its 0.3 corridor, decay against 1.0. The
    /// consent flag is carried through.
    pub fn clamped(self) -> (r: Self)
        requires
            self.wf(),
        ensures
            r.biostate_fatigue == clamped(self.biostate_fatigue as int),
            r.biostate_inflammation == clamped(self.biostate_inflammation as int),
            r.neurostate_fear == clamped(self.neurostate_fear as int),
            r.neurostate_stimulation == clamped(self.neurostate_stimulation as int),
            r.lifeforce_level == clamped(self.lifeforce_level as int),
            r.lifeforce_drain == clamped(self.lifeforce_drain as int),
            r.roh_slice == spec_roh_norm(self.roh_slice as int),
            r.decay == clamped(self.decay as int),
            r.context_territorial_load == clamped(self.context_territorial_load as int),
            r.context_pollution == clamped(self.context_pollution as int),
            r.sovereignty_trust == clamped(self.sovereignty_trust as int),
            r.sovereignty_consent == self.sovereignty_consent,
    {
        let roh10: u64 = self.roh_slice * 10;
        let roh_div: u64 = roh10 / 3;
        proof {
            vstd::arithmetic::div_mod::lemma_div_pos_is_pos(roh10 as int, 3);
        }
        Identity5D {
            biostate_fatigue: cap01(self.biostate_fatigue),
            biostate_inflammation: cap01(self.biostate_inflammation),
            neurostate_fear: cap01(self.neurostate_fear),
            neurostate_stimulation: cap01(self.neurostate_stimulation),
            lifeforce_level: cap01(self.lifeforce_level),
            lifeforce_drain: cap01(self.lifeforce_drain),
            roh_slice: cap01(roh_div),
            decay: cap01(self.decay),
            context_territorial_load: cap01(self.context_territorial_load),
            context_pollution: cap01(self.context_pollution),
            sovereignty_trust: cap01(self.sovereignty_trust),
            sovereignty_consent: self.sovereignty_consent,
        }
    }
}

/// Cap a non-negative magnitude at `UNIT`.
fn cap01(x: u64) -> (r: u64)
    ensures
        r == clamped(x as int),
{
    if x > UNIT {
        UNIT
    } else {
        x
    }
}

} // verus!
