use terrasafe::care::{CareAttestable, CareAttestation};
use terrasafe::fpic::{ConsentLifetime, FpicStatus, FpicToken};
use terrasafe::sovereign::{SovereignContext, SovereignRuntimeGuard};

fn attestation(all: bool) -> CareAttestation {
    CareAttestation {
        collective_benefit: all,
        authority_to_control: true,
        responsibility: true,
        ethics: true,
        proof_ref: None,
    }
}

struct Runtime {
    care: CareAttestation,
}

impl CareAttestable for Runtime {
    fn care_attestation(&self) -> &CareAttestation {
        &self.care
    }
}

impl SovereignRuntimeGuard for Runtime {
}

#[test]
fn consent_freshness_window() {
    let lt = ConsentLifetime { granted_at: 100, max_age: 50 };
    assert!(lt.is_fresh(100));
    assert!(lt.is_fresh(150));
    assert!(!lt.is_fresh(151));
    assert!(!lt.is_fresh(99)); // a clock before the grant reads stale
}

#[test]
fn token_status_follows_freshness_and_veto() {
    let mut token = FpicToken::new(100, 50);
    assert_eq!(token.status(120), FpicStatus::Granted);
    assert_eq!(token.status(151), FpicStatus::Revoked); // stale
    token.veto();
    assert_eq!(token.status(120), FpicStatus::Revoked); // vetoed while fresh
}

#[test]
fn care_alignment_requires_all_four() {
    assert!(attestation(true).is_fully_care_aligned());
    assert!(!attestation(false).is_fully_care_aligned());
}

#[test]
fn sovereign_check_passes_on_fresh_grant_and_full_care() {
    let token = FpicToken::new(100, 50);
    let care = attestation(true);
    let runtime = Runtime { care: attestation(true) };
    let ctx = SovereignContext { fpic: &token, care: &care, now: 120 };
    assert!(runtime.check_fpic_and_care(&ctx).is_ok());
}

#[test]
fn sovereign_check_names_stale_consent_first() {
    let mut token = FpicToken::new(100, 50);
    token.veto();
    let care = attestation(false);
    let runtime = Runtime { care: attestation(true) };
    let ctx = SovereignContext { fpic: &token, care: &care, now: 120 };
    let err = runtime.check_fpic_and_care(&ctx).unwrap_err();
    assert_eq!(err, "FPIC veto or stale consent: operation forbidden.");
}

#[test]
fn sovereign_check_names_missing_care() {
    let token = FpicToken::new(100, 50);
    let care = attestation(false);
    let runtime = Runtime { care: attestation(true) };
    let ctx = SovereignContext { fpic: &token, care: &care, now: 120 };
    let err = runtime.check_fpic_and_care(&ctx).unwrap_err();
    assert_eq!(err, "CARE alignment missing or incomplete.");
}
