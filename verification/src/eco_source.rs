//! Pluggable providers of refined ecological impact metrics.

use vstd::prelude::*;
use vstd::string::StrSliceExecFns;
use crate::eco::{EcoImpactMetrics, NeuromorphArtifact};
use crate::scalar::RailScalar;

verus! {

/// Whether `p` is a prefix of `s`.
pub open spec fn spec_has_prefix(s: Seq<char>, p: Seq<char>) -> bool {
    p.len() <= s.len() && s.subrange(0, p.len() as int) == p
}

/// Character-wise prefix test.
fn str_has_prefix(s: &str, p: &str) -> (r: bool)
    ensures
        r == spec_has_prefix(s@, p@),
{
    let sl: usize = s.unicode_len();
    let pl: usize = p.unicode_len();
    if pl > sl {
        return false;
    }
    let mut i: usize = 0;
    while i < pl
        invariant
            0 <= i <= pl,
            pl == p@.len(),
            sl == s@.len(),
            pl <= sl,
            forall|j: int| 0 <= j < i ==> s@[j] == p@[j],
        decreases pl - i,
    {
        if s.get_char(i) != p.get_char(i) {
            proof {
                assert(s@.subrange(0, pl as int)[i as int] == s@[i as int]);
            }
            return false;
        }
        i += 1;
    }
    proof {
        assert(s@.subrange(0, pl as int) =~= p@);
    }
    true
}

/// Pluggable provider interface for ecological impact metrics.
/// Implementations may call external APIs, local models or simulators.
pub trait EcoDataSource {
    /// Compute refined metrics for a given artifact.
    fn calculate(&self, artifact: &NeuromorphArtifact) -> Result<EcoImpactMetrics, String>;

    /// Human-readable provenance label.
    fn provenance_label(&self) -> &'static str;
}

/// The four scores assigned to a corridor by the placeholder rules:
/// urban corridors score moderate, protected corridors high, anything
/// else a middling default.
pub open spec fn spec_gbif_scores(corridor: Seq<char>) -> (int, int, int, int) {
    if spec_has_prefix(corridor, "urban"@) {
        (700_000_000int, 500_000_000int, 600_000_000int, 800_000_000int)
    } else if spec_has_prefix(corridor, "protected"@) {
        (900_000_000int, 900_000_000int, 950_000_000int, 900_000_000int)
    } else {
        (800_000_000int, 700_000_000int, 700_000_000int, 700_000_000int)
    }
}

/// Placeholder biodiversity-backed source: derives scores from the
/// corridor identifier prefix. A production implementation would call a
/// live occurrence catalogue.
pub struct GbifEcoSource;

impl EcoDataSource for GbifEcoSource {
    fn calculate(&self, artifact: &NeuromorphArtifact) -> (r: Result<EcoImpactMetrics, String>)
        ensures
            r matches Ok(m) && {
                let sc = spec_gbif_scores(artifact.corridor_id.0@);
                &&& m.climate_score.spec_value() == sc.0
                &&& m.biodiversity_score.spec_value() == sc.1
                &&& m.biosphere_score.spec_value() == sc.2
                &&& m.corridor_score.spec_value() == sc.3
                &&& m.wf()
            },
    {
        let corridor: &str = artifact.corridor_id.0.as_str();

        let (climate, biodiversity, biosphere, corridor_score): (i64, i64, i64, i64) =
            if str_has_prefix(corridor, "urban") {
            (700_000_000, 500_000_000, 600_000_000, 800_000_000)
        } else if str_has_prefix(corridor, "protected") {
            (900_000_000, 900_000_000, 950_000_000, 900_000_000)
        } else {
            (800_000_000, 700_000_000, 700_000_000, 700_000_000)
        };

        Ok(
            EcoImpactMetrics {
                climate_score: RailScalar::new_clamped(climate),
                biodiversity_score: RailScalar::new_clamped(biodiversity),
                biosphere_score: RailScalar::new_clamped(biosphere),
                corridor_score: RailScalar::new_clamped(corridor_score),
            },
        )
    }

    fn provenance_label(&self) -> (r: &'static str)
        ensures
            r@ == "stub-gbif-eco-source-v1"@,
    {
        "stub-gbif-eco-source-v1"
    }
}

} // verus!
