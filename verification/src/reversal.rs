//! The capability-transition reversal guard.
//!
//! A fixed, enumerated set of (from, to) moves on the capability lattice
//! is classified as downgrades and structurally forbidden: no other
//! signal can override the denial. Requests from a diagnostic/observer
//! path are denied unconditionally, and the most constrained
//! human-controlled tier additionally enforces a non-increasing
//! risk-of-harm score under its absolute ceiling.

use vstd::prelude::*;
use crate::capability::CapabilityState;
use crate::gate::ROH_CEILING;
use crate::scalar::RailScalar;

verus! {

/// Why a reversal request was denied.
#[derive(Clone, Debug, PartialEq, Eq, Structural)]
pub enum DecisionReason {
    DeniedIllegalDowngradeByNonRegulator,
    DeniedRoHViolation,
}

/// Verdict of the reversal guard.
#[derive(Clone, Debug, PartialEq, Eq, Structural)]
pub enum ReversalDecision {
    Allowed,
    Denied(DecisionReason),
}

/// Immutable context for one reversal evaluation: the before/after
/// capability states, externally supplied before/after risk-of-harm
/// scores, and whether the request originated from a pure observer path.
#[derive(Clone, Debug)]
pub struct ReversalContext {
    pub cap_before: CapabilityState,
    pub cap_after: CapabilityState,
    pub roh_before: RailScalar,
    pub roh_after: RailScalar,
    pub diag_event: bool,
}

/// The fixed downgrade set: every move down the capability lattice.
/// Configuration data of the guard, not a computed property.
pub open spec fn spec_is_downgrade(from: CapabilityState, to: CapabilityState) -> bool {
    ||| (from == CapabilityState::ControlledHuman && to == CapabilityState::LabBench)
    ||| (from == CapabilityState::ControlledHuman && to == CapabilityState::ModelOnly)
    ||| (from == CapabilityState::GeneralUse && to == CapabilityState::ControlledHuman)
    ||| (from == CapabilityState::GeneralUse && to == CapabilityState::LabBench)
    ||| (from == CapabilityState::GeneralUse && to == CapabilityState::ModelOnly)
}

/// Whether (from, to) is one of the fixed downgrade moves.
pub fn is_neuromorph_downgrade(from: CapabilityState, to: CapabilityState) -> (r: bool)
    ensures
        r == spec_is_downgrade(from, to),
{
    match (from, to) {
        (CapabilityState::ControlledHuman, CapabilityState::LabBench) => true,
        (CapabilityState::ControlledHuman, CapabilityState::ModelOnly) => true,
        (CapabilityState::GeneralUse, CapabilityState::ControlledHuman) => true,
        (CapabilityState::GeneralUse, CapabilityState::LabBench) => true,
        (CapabilityState::GeneralUse, CapabilityState::ModelOnly) => true,
        _ => false,
    }
}

/// The guard's verdict, in evaluation order: observer paths are denied
/// unconditionally; from the most constrained human-controlled tier the
/// risk-of-harm score must not increase and must stay at or under its
/// ceiling; moves outside the downgrade set are allowed; downgrade moves
/// are denied unconditionally.
pub open spec fn spec_evaluate_reversal(ctx: ReversalContext) -> ReversalDecision {
    if ctx.diag_event {
        ReversalDecision::Denied(DecisionReason::DeniedIllegalDowngradeByNonRegulator)
    } else if ctx.cap_before == CapabilityState::ControlledHuman
        && ctx.roh_after.spec_value() > ctx.roh_before.spec_value() {
        ReversalDecision::Denied(DecisionReason::DeniedRoHViolation)
    } else if ctx.cap_before == CapabilityState::ControlledHuman
        && ctx.roh_after.spec_value() > ROH_CEILING {
        ReversalDecision::Denied(DecisionReason::DeniedRoHViolation)
    } else if !spec_is_downgrade(ctx.cap_before, ctx.cap_after) {
        ReversalDecision::Allowed
    } else {
        ReversalDecision::Denied(DecisionReason::DeniedIllegalDowngradeByNonRegulator)
    }
}

/// Evaluate a reversal request. Pure; returns exactly
/// `spec_evaluate_reversal` of the context.
pub fn evaluate_reversal(ctx: &ReversalContext) -> (r: ReversalDecision)
    ensures
        r == spec_evaluate_reversal(*ctx),
{
    if ctx.diag_event {
        return ReversalDecision::Denied(DecisionReason::DeniedIllegalDowngradeByNonRegulator);
    }

    if matches!(ctx.cap_before, CapabilityState::ControlledHuman) {
        if ctx.roh_after.value() > ctx.roh_before.value() {
            return ReversalDecision::Denied(DecisionReason::DeniedRoHViolation);
        }
        if ctx.roh_after.value() > ROH_CEILING {
            return ReversalDecision::Denied(DecisionReason::DeniedRoHViolation);
        }
    }

    if !is_neuromorph_downgrade(ctx.cap_before, ctx.cap_after) {
        return ReversalDecision::Allowed;
    }

    ReversalDecision::Denied(DecisionReason::DeniedIllegalDowngradeByNonRegulator)
}

/// Downgrade immutability: for every (from, to) pair in the fixed
/// downgrade set the guard denies, whatever the risk-of-harm scores and
/// even when the observer flag is false.
pub proof fn lemma_downgrade_immutable(ctx: ReversalContext)
    requires
        spec_is_downgrade(ctx.cap_before, ctx.cap_after),
    ensures
        spec_evaluate_reversal(ctx) is Denied,
{
}

/// Observer veto: any context marked as coming from a diagnostic-only
/// path is denied as an illegal downgrade by a non-regulator, whatever
/// every other field holds.
pub proof fn lemma_observer_veto(ctx: ReversalContext)
    requires
        ctx.diag_event,
    ensures
        spec_evaluate_reversal(ctx) == ReversalDecision::Denied(
            DecisionReason::DeniedIllegalDowngradeByNonRegulator,
        ),
{
}

} // verus!
