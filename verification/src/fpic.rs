//! Free, prior and informed consent (FPIC) tokens.
//!
//! A token records a consent decision with a freshness window measured in
//! seconds of Unix time, and carries an always-available veto: revocation
//! is permanent, and a token whose window has lapsed reads as revoked.

use vstd::prelude::*;

verus! {

/// Minimal FPIC decision state.
#[derive(Clone, Copy, Debug, PartialEq, Eq, Structural)]
pub enum FpicStatus {
    Granted,
    Denied,
    Revoked,
}

/// Consent lifetime: when consent was recorded (seconds of Unix time)
/// and how long it stays fresh.
#[derive(Clone, Copy, Debug)]
pub struct ConsentLifetime {
    pub granted_at: u64,
    pub max_age: u64,
}

impl ConsentLifetime {
    /// Fresh at `now`: not before the grant, and within the window.
    pub open spec fn spec_is_fresh(self, now: u64) -> bool {
        self.granted_at <= now <= self.granted_at + self.max_age
    }

    pub fn is_fresh(&self, now: u64) -> (r: bool)
        ensures
            r == self.spec_is_fresh(now),
    {
        if now < self.granted_at {
            false
        } else {
            now - self.granted_at <= self.max_age
        }
    }
}

/// Runtime FPIC token with an always-available veto hook.
#[derive(Clone, Debug)]
pub struct FpicToken {
    status: FpicStatus,
    lifetime: ConsentLifetime,
}

impl FpicToken {
    /// The recorded decision, before freshness is taken into account.
    pub closed spec fn spec_status(self) -> FpicStatus {
        self.status
    }

    pub closed spec fn spec_lifetime(self) -> ConsentLifetime {
        self.lifetime
    }

    /// The status an observer sees at `now`: a stale token reads as
    /// revoked, otherwise the recorded decision stands.
    pub open spec fn spec_status_at(self, now: u64) -> FpicStatus {
        if !self.spec_lifetime().spec_is_fresh(now) {
            FpicStatus::Revoked
        } else {
            self.spec_status()
        }
    }

    /// A fresh grant recorded at `granted_at`.
    pub fn new(granted_at: u64, max_age: u64) -> (r: Self)
        ensures
            r.spec_status() == FpicStatus::Granted,
            r.spec_lifetime() == (ConsentLifetime { granted_at, max_age }),
    {
        Self { status: FpicStatus::Granted, lifetime: ConsentLifetime { granted_at, max_age } }
    }

    /// Participant or community can revoke at any time.
    pub fn veto(&mut self)
        ensures
            final(self).spec_status() == FpicStatus::Revoked,
            final(self).spec_lifetime() == old(self).spec_lifetime(),
    {
        self.status = FpicStatus::Revoked;
    }

    pub fn status(&self, now: u64) -> (r: FpicStatus)
        ensures
            r == self.spec_status_at(now),
    {
        if !self.lifetime.is_fresh(now) {
            return FpicStatus::Revoked;
        }
        self.status
    }
}

} // verus!
