//! Sovereignty gate run before any runtime operation.

use vstd::prelude::*;
use crate::care::{CareAttestable, CareAttestation};
use crate::fpic::{FpicStatus, FpicToken};

verus! {

/// Context passed to any operation before execution: the consent token,
/// the CARE attestation, and the current time in seconds of Unix time.
pub struct SovereignContext<'a> {
    pub fpic: &'a FpicToken,
    pub care: &'a CareAttestation,
    pub now: u64,
}

/// Whether a sovereign context clears both checks: consent currently
/// granted and fresh, and the CARE attestation complete.
pub open spec fn spec_sovereign_ok(ctx: SovereignContext<'_>) -> bool {
    ctx.fpic.spec_status_at(ctx.now) == FpicStatus::Granted && ctx.care.spec_fully_aligned()
}

/// Object-safe guard trait: any runtime action must pass this check
/// first. Succeeds exactly when consent is granted and fresh and the
/// CARE attestation is complete; the error message names the check that
/// failed, consent first.
pub trait SovereignRuntimeGuard: CareAttestable {
    fn check_fpic_and_care(&self, ctx: &SovereignContext<'_>) -> (r: Result<(), String>)
        ensures
            r is Ok <==> spec_sovereign_ok(*ctx),
            !(ctx.fpic.spec_status_at(ctx.now) == FpicStatus::Granted) ==> (r matches Err(m)
                && m@ == "FPIC veto or stale consent: operation forbidden."@),
            ctx.fpic.spec_status_at(ctx.now) == FpicStatus::Granted
                && !ctx.care.spec_fully_aligned() ==> (r matches Err(m) && m@
                == "CARE alignment missing or incomplete."@),
    {
        match ctx.fpic.status(ctx.now) {
            FpicStatus::Granted => {},
            FpicStatus::Denied | FpicStatus::Revoked => {
                return Err("FPIC veto or stale consent: operation forbidden.".to_owned());
            },
        }

        if !ctx.care.is_fully_care_aligned() {
            return Err("CARE alignment missing or incomplete.".to_owned());
        }

        Ok(())
    }
}

} // verus!
