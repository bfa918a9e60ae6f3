use terrasafe::governance::{
    fpic_gate, simulation_gate, validate_policy_change, CommunityGovernanceBackend, CommunityId,
    CommunityVoteResult, FpicStatus, PolicySimulationBackend, SimulationOutcome,
    SncPolicySnapshot,
};
use terrasafe::scalar::RailScalar;

fn rail(v: i64) -> RailScalar {
    RailScalar::new_clamped(v)
}

struct FixedGovernance {
    status: FpicStatus,
}

impl CommunityGovernanceBackend for FixedGovernance {
    fn get_fpic_status(
        &self,
        _proposal_id: &str,
        _community: &CommunityId,
    ) -> Result<FpicStatus, String> {
        Ok(self.status.clone())
    }

    fn record_fpic_result(&self, _result: CommunityVoteResult) -> Result<(), String> {
        Ok(())
    }
}

struct FixedSimulator {
    outcome: SimulationOutcome,
}

impl PolicySimulationBackend for FixedSimulator {
    fn evaluate_policy(&self, _policy: &SncPolicySnapshot) -> Result<SimulationOutcome, String> {
        Ok(self.outcome.clone())
    }
}

fn snapshot() -> SncPolicySnapshot {
    SncPolicySnapshot {
        min_knowledge_factor_open: rail(800_000_000),
        chat_issuance_slope: rail(1_000_000_000),
        eco_weight: rail(400_000_000),
    }
}

fn good_outcome() -> SimulationOutcome {
    SimulationOutcome {
        expected_neurorights_risk: rail(100_000_000),
        environmental_justice_score: rail(800_000_000),
        trust_index: rail(900_000_000),
    }
}

fn communities() -> Vec<CommunityId> {
    vec![
        CommunityId("indigenous-phoenix-water-shed".to_string()),
        CommunityId("frontline-south-phoenix-air".to_string()),
    ]
}

#[test]
fn fpic_gate_passes_only_granted() {
    assert!(fpic_gate(&FpicStatus::Granted { timestamp: 10, signed_by: vec![] }).is_ok());
    let pending = fpic_gate(&FpicStatus::Pending).unwrap_err();
    assert_eq!(pending, "Policy blocked: FPIC still pending for an affected community.");
    let withheld = fpic_gate(&FpicStatus::Withheld {
        timestamp: 10,
        reason: "water rights unresolved".to_string(),
    })
    .unwrap_err();
    assert_eq!(
        withheld,
        "Policy blocked: FPIC withheld by an affected community: water rights unresolved"
    );
}

#[test]
fn simulation_gate_enforces_both_thresholds() {
    assert!(simulation_gate(&good_outcome()).is_ok());

    let mut risky = good_outcome();
    risky.expected_neurorights_risk = rail(300_000_001);
    assert_eq!(
        simulation_gate(&risky).unwrap_err(),
        "Policy blocked: neurorights risk too high in simulation."
    );

    let mut unjust = good_outcome();
    unjust.environmental_justice_score = rail(599_999_999);
    assert_eq!(
        simulation_gate(&unjust).unwrap_err(),
        "Policy blocked: environmental justice score too low."
    );

    // Exactly at the thresholds the check passes.
    let mut edge = good_outcome();
    edge.expected_neurorights_risk = rail(300_000_000);
    edge.environmental_justice_score = rail(600_000_000);
    assert!(simulation_gate(&edge).is_ok());
}

#[test]
fn policy_change_passes_with_grants_and_safe_simulation() {
    let governance = FixedGovernance {
        status: FpicStatus::Granted { timestamp: 10, signed_by: vec!["did:example".to_string()] },
    };
    let simulator = FixedSimulator { outcome: good_outcome() };
    let r = validate_policy_change(
        &governance,
        &simulator,
        "policy-fairness-upgrade",
        &communities(),
        &snapshot(),
    );
    assert!(r.is_ok());
}

#[test]
fn policy_change_blocked_by_pending_consent() {
    let governance = FixedGovernance { status: FpicStatus::Pending };
    let simulator = FixedSimulator { outcome: good_outcome() };
    let r = validate_policy_change(
        &governance,
        &simulator,
        "policy-fairness-upgrade",
        &communities(),
        &snapshot(),
    );
    assert_eq!(
        r.unwrap_err(),
        "Policy blocked: FPIC still pending for an affected community."
    );
}

#[test]
fn policy_change_blocked_by_risky_simulation() {
    let governance = FixedGovernance {
        status: FpicStatus::Granted { timestamp: 10, signed_by: vec![] },
    };
    let mut outcome = good_outcome();
    outcome.expected_neurorights_risk = rail(500_000_000);
    let simulator = FixedSimulator { outcome };
    let r = validate_policy_change(
        &governance,
        &simulator,
        "policy-fairness-upgrade",
        &communities(),
        &snapshot(),
    );
    assert_eq!(
        r.unwrap_err(),
        "Policy blocked: neurorights risk too high in simulation."
    );
}
