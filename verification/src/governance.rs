//! Community governance gating for policy changes.
//!
//! A proposed policy change passes only when every affected community has
//! granted consent and a policy simulation stays inside the risk and
//! justice thresholds. The backends are supplied by callers; the two
//! decision rules they feed are verified here.

use vstd::prelude::*;
use vstd::string::StringExecFns;
use crate::scalar::RailScalar;

verus! {

/// Highest simulated neurorights risk a policy change may carry: 0.3.
pub const NEURORIGHTS_RISK_MAX: u64 = 300_000_000;

/// Lowest acceptable simulated environmental justice score: 0.6.
pub const JUSTICE_SCORE_MIN: u64 = 600_000_000;

/// Community identifier.
#[derive(Clone, Debug)]
pub struct CommunityId(pub String);

/// Consent status of one community for one proposal. Timestamps are
/// seconds of Unix time; signers are delegate identifier strings.
#[derive(Clone, Debug)]
pub enum FpicStatus {
    Pending,
    Granted { timestamp: u64, signed_by: Vec<String> },
    Withheld { timestamp: u64, reason: String },
}

/// A governance proposal affecting rules or deployments.
#[derive(Clone, Debug)]
pub struct GovernanceProposal {
    pub id: String,
    pub title: String,
    pub description: String,
    pub affected_corridors: Vec<String>,
    pub created_at: u64,
}

/// Result of a community vote, suitable for recording on a ledger.
#[derive(Clone, Debug)]
pub struct CommunityVoteResult {
    pub proposal_id: String,
    pub community_id: CommunityId,
    pub fpic_status: FpicStatus,
}

/// Backend an FPIC layer must implement; a blockchain, a registry or
/// another ledger.
pub trait CommunityGovernanceBackend {
    /// Current FPIC status for (proposal, community).
    fn get_fpic_status(
        &self,
        proposal_id: &str,
        community: &CommunityId,
    ) -> Result<FpicStatus, String>;

    /// Record a new FPIC decision result.
    fn record_fpic_result(&self, result: CommunityVoteResult) -> Result<(), String>;
}

/// Snapshot of a policy rule configuration for system-level analysis.
#[derive(Clone, Debug)]
pub struct SncPolicySnapshot {
    pub min_knowledge_factor_open: RailScalar,
    pub chat_issuance_slope: RailScalar,
    pub eco_weight: RailScalar,
}

/// Aggregate indicators returned by a policy simulator.
#[derive(Clone, Debug)]
pub struct SimulationOutcome {
    pub expected_neurorights_risk: RailScalar,
    pub environmental_justice_score: RailScalar,
    pub trust_index: RailScalar,
}

/// Backend for a policy simulator.
pub trait PolicySimulationBackend {
    fn evaluate_policy(&self, policy: &SncPolicySnapshot) -> Result<SimulationOutcome, String>;
}

/// Whether one community's status clears the consent gate.
pub open spec fn spec_fpic_granted(status: FpicStatus) -> bool {
    status is Granted
}

/// The consent gate over one community's status: only `Granted` passes;
/// a pending vote and a withheld consent each block with their own
/// message, the withheld one carrying the community's reason.
pub fn fpic_gate(status: &FpicStatus) -> (r: Result<(), String>)
    ensures
        r is Ok <==> spec_fpic_granted(*status),
        *status is Pending ==> (r matches Err(m) && m@
            == "Policy blocked: FPIC still pending for an affected community."@),
        (status matches FpicStatus::Withheld { reason, .. } ==> (r matches Err(m) && m@
            == "Policy blocked: FPIC withheld by an affected community: "@ + reason@)),
{
    match status {
        FpicStatus::Granted { .. } => Ok(()),
        FpicStatus::Pending => Err(
            "Policy blocked: FPIC still pending for an affected community.".to_owned(),
        ),
        FpicStatus::Withheld { reason, .. } => Err(
            "Policy blocked: FPIC withheld by an affected community: ".to_owned().concat(
                reason.as_str(),
            ),
        ),
    }
}

/// Whether a simulation outcome clears the policy thresholds.
pub open spec fn spec_outcome_ok(outcome: SimulationOutcome) -> bool {
    outcome.expected_neurorights_risk.spec_value() <= NEURORIGHTS_RISK_MAX
        && outcome.environmental_justice_score.spec_value() >= JUSTICE_SCORE_MIN
}

/// The simulation gate: rejects a simulated future whose neurorights
/// risk is above 0.3 or whose environmental justice score is below 0.6,
/// risk first.
pub fn simulation_gate(outcome: &SimulationOutcome) -> (r: Result<(), String>)
    ensures
        r is Ok <==> spec_outcome_ok(*outcome),
        outcome.expected_neurorights_risk.spec_value() > NEURORIGHTS_RISK_MAX ==> (r matches Err(
            m,
        ) && m@ == "Policy blocked: neurorights risk too high in simulation."@),
        outcome.expected_neurorights_risk.spec_value() <= NEURORIGHTS_RISK_MAX
            && outcome.environmental_justice_score.spec_value() < JUSTICE_SCORE_MIN ==> (
        r matches Err(m) && m@ == "Policy blocked: environmental justice score too low."@),
{
    if outcome.expected_neurorights_risk.value() > NEURORIGHTS_RISK_MAX {
        return Err("Policy blocked: neurorights risk too high in simulation.".to_owned());
    }
    if outcome.environmental_justice_score.value() < JUSTICE_SCORE_MIN {
        return Err("Policy blocked: environmental justice score too low.".to_owned());
    }
    Ok(())
}

/// Guard a proposed policy change behind community consent and a
/// simulation. Every affected community must be `Granted`, then the
/// simulated outcome must clear `simulation_gate`; the backends decide
/// the statuses and the outcome, and the first failing gate's message is
/// returned.
pub fn validate_policy_change<G: CommunityGovernanceBackend, S: PolicySimulationBackend>(
    governance: &G,
    simulator: &S,
    proposal_id: &str,
    affected_communities: &[CommunityId],
    snapshot: &SncPolicySnapshot,
) -> Result<(), String> {
    let n: usize = affected_communities.len();
    let mut i: usize = 0;
    while i < n
        invariant
            n == affected_communities@.len(),
            0 <= i <= n,
        decreases n - i,
    {
        let community: &CommunityId = &affected_communities[i];
        let status: FpicStatus = match governance.get_fpic_status(proposal_id, community) {
            Ok(s) => s,
            Err(e) => {
                return Err(e);
            },
        };
        match fpic_gate(&status) {
            Ok(()) => {},
            Err(e) => {
                return Err(e);
            },
        }
        i += 1;
    }

    let outcome: SimulationOutcome = match simulator.evaluate_policy(snapshot) {
        Ok(o) => o,
        Err(e) => {
            return Err(e);
        },
    };
    simulation_gate(&outcome)
}

/// Combine refined impact metrics into one global indicator.
pub fn eco_to_global_indicator(eco: &crate::eco::EcoImpactMetrics) -> (r: RailScalar)
    requires
        eco.wf(),
    ensures
        r.spec_value() == crate::eco::spec_eco_scalar(*eco),
{
    eco.scalar()
}

} // verus!
