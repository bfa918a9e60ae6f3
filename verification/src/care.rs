//! CARE-aligned provenance attestations.

use vstd::prelude::*;

verus! {

/// Attestation of the four CARE principles, with an optional opaque
/// proof reference (a hash or signature recorded elsewhere).
#[derive(Clone, Debug)]
pub struct CareAttestation {
    pub collective_benefit: bool,
    pub authority_to_control: bool,
    pub responsibility: bool,
    pub ethics: bool,
    pub proof_ref: Option<String>,
}

impl CareAttestation {
    /// All four principles attested.
    pub open spec fn spec_fully_aligned(self) -> bool {
        self.collective_benefit && self.authority_to_control && self.responsibility
            && self.ethics
    }

    pub fn is_fully_care_aligned(&self) -> (r: bool)
        ensures
            r == self.spec_fully_aligned(),
    {
        self.collective_benefit && self.authority_to_control && self.responsibility
            && self.ethics
    }
}

/// Object-safe trait for CARE-aware provenance carriers.
pub trait CareAttestable {
    fn care_attestation(&self) -> &CareAttestation;
}

} // verus!
