//! The corridor-bound core scoring engine.
//!
//! Each engine instance is bound to exactly one corridor identifier,
//! fixed immutably at construction; the neurorights markers record the
//! consent and coercion posture the engine is built under.

use vstd::prelude::*;
use crate::eco_adapter::{EcoContext, EcoImpactAdapter, ImpactScore};

verus! {

/// Marker for a corridor binding, as plain data.
#[derive(Clone, Copy, Debug, PartialEq, Eq, Structural)]
pub struct Corridor {
    pub id: u32,
}

/// Marker: the engine exposes no coercive channels.
pub struct NoCoerciveChannels;

/// Marker: consent is dynamic and revocable.
pub struct DynamicConsent;

/// Sealing trait for the neurorights markers: only the markers defined
/// here carry the engine's consent and coercion posture.
pub trait Sealed {}

impl Sealed for Corridor {

}

impl Sealed for NoCoerciveChannels {

}

impl Sealed for DynamicConsent {

}

/// Core scoring engine bound to one corridor identifier.
pub struct CoreEcoEngine {
    corridor: u32,
}

impl CoreEcoEngine {
    /// The corridor identifier the engine was built with.
    pub closed spec fn spec_corridor(self) -> u32 {
        self.corridor
    }

    pub fn new(corridor: u32) -> (r: Self)
        ensures
            r.spec_corridor() == corridor,
    {
        Self { corridor }
    }

    pub fn corridor(&self) -> (r: u32)
        ensures
            r == self.spec_corridor(),
    {
        self.corridor
    }

    /// Placeholder scoring: corridor-safe by construction, a fixed 0.7.
    pub fn score(&self, ctx: &EcoContext) -> (r: ImpactScore)
        ensures
            r.value.spec_value() == 700_000_000,
    {
        ImpactScore::clamped(700_000_000, "Corridor-bound impact (stub).".to_owned())
    }
}

/// The corridor-bound engine wrapped as a dynamic adapter.
pub struct CorridorBoundScoreEngine {
    engine: CoreEcoEngine,
}

impl CorridorBoundScoreEngine {
    pub closed spec fn spec_corridor(self) -> u32 {
        self.engine.spec_corridor()
    }

    pub fn new(corridor: u32) -> (r: Self)
        ensures
            r.spec_corridor() == corridor,
    {
        Self { engine: CoreEcoEngine::new(corridor) }
    }
}

impl EcoImpactAdapter for CorridorBoundScoreEngine {
    fn name(&self) -> (r: &'static str)
        ensures
            r@ == "core_eco_engine_v1"@,
    {
        "core_eco_engine_v1"
    }

    fn compute_impact(&self, ctx: &EcoContext) -> (r: ImpactScore)
        ensures
            r.value.spec_value() == 700_000_000,
    {
        self.engine.score(ctx)
    }
}

} // verus!
