use terrasafe::capability::CapabilityState;
use terrasafe::reversal::{
    evaluate_reversal, is_neuromorph_downgrade, DecisionReason, ReversalContext,
    ReversalDecision,
};
use terrasafe::scalar::RailScalar;

fn ctx(
    before: CapabilityState,
    after: CapabilityState,
    roh_before: i64,
    roh_after: i64,
    diag: bool,
) -> ReversalContext {
    ReversalContext {
        cap_before: before,
        cap_after: after,
        roh_before: RailScalar::new_clamped(roh_before),
        roh_after: RailScalar::new_clamped(roh_after),
        diag_event: diag,
    }
}

#[test]
fn downgrade_set_is_exactly_the_five_pairs() {
    let all = [
        CapabilityState::ModelOnly,
        CapabilityState::LabBench,
        CapabilityState::ControlledHuman,
        CapabilityState::GeneralUse,
    ];
    let downgrades = [
        (CapabilityState::ControlledHuman, CapabilityState::LabBench),
        (CapabilityState::ControlledHuman, CapabilityState::ModelOnly),
        (CapabilityState::GeneralUse, CapabilityState::ControlledHuman),
        (CapabilityState::GeneralUse, CapabilityState::LabBench),
        (CapabilityState::GeneralUse, CapabilityState::ModelOnly),
    ];
    for from in all {
        for to in all {
            let expected = downgrades.iter().any(|p| p.0 == from && p.1 == to);
            assert_eq!(is_neuromorph_downgrade(from, to), expected);
        }
    }
}

#[test]
fn every_downgrade_pair_is_denied_even_without_observer_flag() {
    let downgrades = [
        (CapabilityState::ControlledHuman, CapabilityState::LabBench),
        (CapabilityState::ControlledHuman, CapabilityState::ModelOnly),
        (CapabilityState::GeneralUse, CapabilityState::ControlledHuman),
        (CapabilityState::GeneralUse, CapabilityState::LabBench),
        (CapabilityState::GeneralUse, CapabilityState::ModelOnly),
    ];
    for (from, to) in downgrades {
        let d = evaluate_reversal(&ctx(from, to, 0, 0, false));
        assert!(matches!(d, ReversalDecision::Denied(_)));
    }
}

#[test]
fn observer_path_is_denied_whatever_else_holds() {
    // A context that would otherwise be allowed.
    let d = evaluate_reversal(&ctx(
        CapabilityState::LabBench,
        CapabilityState::GeneralUse,
        0,
        0,
        true,
    ));
    assert_eq!(
        d,
        ReversalDecision::Denied(DecisionReason::DeniedIllegalDowngradeByNonRegulator)
    );
}

#[test]
fn controlled_human_rejects_increasing_roh() {
    let d = evaluate_reversal(&ctx(
        CapabilityState::ControlledHuman,
        CapabilityState::ControlledHuman,
        200_000_000,
        250_000_000,
        false,
    ));
    assert_eq!(d, ReversalDecision::Denied(DecisionReason::DeniedRoHViolation));
}

#[test]
fn controlled_human_rejects_roh_over_ceiling() {
    let d = evaluate_reversal(&ctx(
        CapabilityState::ControlledHuman,
        CapabilityState::ControlledHuman,
        400_000_000,
        350_000_000,
        false,
    ));
    assert_eq!(d, ReversalDecision::Denied(DecisionReason::DeniedRoHViolation));
}

#[test]
fn improving_roh_in_tier_is_allowed() {
    // Risk-of-harm falls from 0.25 to 0.20 and the move stays in the most
    // constrained human tier, which is not a downgrade pair.
    let d = evaluate_reversal(&ctx(
        CapabilityState::ControlledHuman,
        CapabilityState::ControlledHuman,
        250_000_000,
        200_000_000,
        false,
    ));
    assert_eq!(d, ReversalDecision::Allowed);
}

#[test]
fn forward_transitions_are_not_interfered_with() {
    let d = evaluate_reversal(&ctx(
        CapabilityState::ModelOnly,
        CapabilityState::LabBench,
        0,
        900_000_000,
        false,
    ));
    assert_eq!(d, ReversalDecision::Allowed);
}
