//! Bounded fixed-point scalars.
//!
//! `RailScalar` is a value in [0, 1] held as an integer count of 1e-9
//! steps. It is built only through a clamping constructor and combined
//! only through operations that re-clamp, so a value is never observably
//! outside the range.

use vstd::prelude::*;
use core::cmp::Ordering;

verus! {

/// Fixed-point scale: `UNIT` steps stand for the real value 1.0, so one
/// step is 1e-9.
pub const UNIT: u64 = 1_000_000_000;

/// Tolerance used by the invariant checks: one fixed-point step (1e-9).
pub const EPS: u64 = 1;

/// Ceiling for unbounded non-negative magnitudes (envelope fields, the
/// ratio pair, stress metrics): 1e9 in real units. Additions saturate here.
pub const MAG_MAX: u64 = 1_000_000_000_000_000_000;

/// The fixed-point value the clamping constructor assigns to `x`.
pub open spec fn clamped(x: int) -> int {
    if x < 0 {
        0
    } else if x > UNIT {
        UNIT as int
    } else {
        x
    }
}

/// A scalar always held in [0, `UNIT`], i.e. in [0.0, 1.0].
#[derive(Clone, Copy, Debug, PartialEq, Eq, Structural)]
pub struct RailScalar {
    v: u64,
}

impl RailScalar {
    /// The value as a count of 1e-9 steps.
    pub closed spec fn spec_value(self) -> int {
        self.v as int
    }

    /// The range every constructed `RailScalar` stays in. Constructors and
    /// combinators all ensure it; well-formedness predicates of the larger
    /// state types carry it through the guard contracts.
    pub open spec fn is_bounded(self) -> bool {
        0 <= self.spec_value() <= UNIT
    }

    /// Spec-level image of the clamping constructor.
    pub closed spec fn spec_new_clamped(x: int) -> RailScalar {
        RailScalar { v: clamped(x) as u64 }
    }

    /// What `spec_new_clamped` holds: exactly the clamped value.
    pub proof fn lemma_spec_new_clamped(x: int)
        ensures
            RailScalar::spec_new_clamped(x).spec_value() == clamped(x),
            RailScalar::spec_new_clamped(x).is_bounded(),
    {
    }

    /// Clamping constructor: negative inputs become 0, inputs above
    /// `UNIT` become `UNIT`.
    pub fn new_clamped(x: i64) -> (r: Self)
        ensures
            r == RailScalar::spec_new_clamped(x as int),
            r.spec_value() == clamped(x as int),
            r.is_bounded(),
    {
        if x < 0 {
            RailScalar { v: 0 }
        } else if x > UNIT as i64 {
            RailScalar { v: UNIT }
        } else {
            RailScalar { v: x as u64 }
        }
    }

    pub fn value(self) -> (r: u64)
        ensures
            r == self.spec_value(),
    {
        self.v
    }

    /// The larger of the two values.
    pub fn max(self, other: RailScalar) -> (r: RailScalar)
        ensures
            r.spec_value() == if self.spec_value() >= other.spec_value() {
                self.spec_value()
            } else {
                other.spec_value()
            },
    {
        if self.v >= other.v {
            self
        } else {
            other
        }
    }

    /// The smaller of the two values.
    pub fn min(self, other: RailScalar) -> (r: RailScalar)
        ensures
            r.spec_value() == if self.spec_value() <= other.spec_value() {
                self.spec_value()
            } else {
                other.spec_value()
            },
    {
        if self.v <= other.v {
            self
        } else {
            other
        }
    }

    /// Total order on the underlying fixed-point values.
    pub fn cmp(&self, other: &RailScalar) -> (r: Ordering)
        ensures
            r == Ordering::Less <==> self.spec_value() < other.spec_value(),
            r == Ordering::Greater <==> self.spec_value() > other.spec_value(),
            r == Ordering::Equal <==> self.spec_value() == other.spec_value(),
    {
        if self.v < other.v {
            Ordering::Less
        } else if self.v > other.v {
            Ordering::Greater
        } else {
            Ordering::Equal
        }
    }
}

} // verus!
