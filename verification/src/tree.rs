//! Tree-of-life trait evaluation over ledger deeds.
//!
//! Deeds are mapped to the traits they touch, scored for moral weight,
//! and the accumulated trait branches feed ecological grants.

use vstd::prelude::*;
use crate::ledger::{Config, DeedEvent, Ledger};

verus! {

/// Individual traits, used for balancing assets and minting tokens.
#[derive(Clone, Copy, Debug, PartialEq, Eq, Hash, Structural)]
pub enum TreeTrait {
    Love,
    Guilt,
    Evil,
    Freedom,
    Speech,
    Blood,
    War,
    Justice,
    Declare,
    Karma,
    Courage,
    Nano,
    Life,
    Prediction,
    Fear,
    Power,
    Spirit,
    Soul,
    Judgement,
    Time,
    Peace,
    Tech,
    Evolve,
    Smart,
    Wise,
    Knowledge,
}

/// Hierarchical grouping of traits: core values, action-oriented traits,
/// and wisdom/evolution traits.
#[derive(Clone, Debug, PartialEq, Eq, Hash)]
pub enum TreeBranch {
    Branch1(Vec<TreeTrait>),
    Branch2(Vec<TreeTrait>),
    Branch3(Vec<TreeTrait>),
}

/// Which of the three branches a trait belongs to.
pub open spec fn spec_branch_no(t: TreeTrait) -> int {
    match t {
        TreeTrait::Love | TreeTrait::Guilt | TreeTrait::Evil | TreeTrait::Freedom
            | TreeTrait::Speech | TreeTrait::Blood => 1,
        TreeTrait::War | TreeTrait::Justice | TreeTrait::Declare | TreeTrait::Karma
            | TreeTrait::Courage | TreeTrait::Nano | TreeTrait::Life | TreeTrait::Prediction
            | TreeTrait::Fear | TreeTrait::Power | TreeTrait::Spirit => 2,
        TreeTrait::Soul | TreeTrait::Judgement | TreeTrait::Time | TreeTrait::Peace
            | TreeTrait::Tech | TreeTrait::Evolve | TreeTrait::Smart | TreeTrait::Wise
            | TreeTrait::Knowledge => 3,
    }
}

/// Whether `b` is the branch value recorded for the single trait `t`:
/// the branch matching `t`'s group, holding exactly `t`.
pub open spec fn spec_branch_of_trait(b: TreeBranch, t: TreeTrait) -> bool {
    match b {
        TreeBranch::Branch1(v) => spec_branch_no(t) == 1 && v@ == seq![t],
        TreeBranch::Branch2(v) => spec_branch_no(t) == 2 && v@ == seq![t],
        TreeBranch::Branch3(v) => spec_branch_no(t) == 3 && v@ == seq![t],
    }
}

/// A deed's moral score: a positive base for a harmless deed, a negative
/// one for a harmful deed, minus five per ethics violation recorded.
pub open spec fn spec_moral_score(deed: DeedEvent) -> int {
    (if deed.life_harm_flag {
        -10int
    } else {
        10int
    }) - 5 * deed.ethics_flags@.len()
}

impl TreeTrait {
    /// Map a trait to its branch, holding just this trait.
    pub fn branch(&self) -> (r: TreeBranch)
        ensures
            spec_branch_of_trait(r, *self),
    {
        let mut held: Vec<TreeTrait> = Vec::new();
        held.push(*self);
        proof {
            assert(held@ =~= seq![*self]);
        }
        match self {
            TreeTrait::Love | TreeTrait::Guilt | TreeTrait::Evil | TreeTrait::Freedom
                | TreeTrait::Speech | TreeTrait::Blood => TreeBranch::Branch1(held),
            TreeTrait::War | TreeTrait::Justice | TreeTrait::Declare | TreeTrait::Karma
                | TreeTrait::Courage | TreeTrait::Nano | TreeTrait::Life
                | TreeTrait::Prediction | TreeTrait::Fear | TreeTrait::Power
                | TreeTrait::Spirit => TreeBranch::Branch2(held),
            TreeTrait::Soul | TreeTrait::Judgement | TreeTrait::Time | TreeTrait::Peace
                | TreeTrait::Tech | TreeTrait::Evolve | TreeTrait::Smart | TreeTrait::Wise
                | TreeTrait::Knowledge => TreeBranch::Branch3(held),
        }
    }

    /// The moral score this trait assigns to a deed. The score depends on
    /// the deed's flags alone.
    pub fn moral_score(&self, deed: &DeedEvent) -> (r: i64)
        requires
            5 * deed.ethics_flags@.len() + 10 <= i64::MAX,
        ensures
            r == spec_moral_score(*deed),
    {
        let base_score: i64 = if deed.life_harm_flag {
            -10
        } else {
            10
        };
        let penalty: i64 = (deed.ethics_flags.len() as i64) * 5;
        base_score - penalty
    }
}

/// The traits a deed type touches.
pub open spec fn spec_relevant_traits(deed_type: Seq<char>) -> Seq<TreeTrait> {
    if deed_type == "ecological_sustainability"@ {
        seq![TreeTrait::Life, TreeTrait::Peace, TreeTrait::Wise]
    } else if deed_type == "homelessness_relief"@ {
        seq![TreeTrait::Love, TreeTrait::Justice, TreeTrait::Karma]
    } else {
        seq![TreeTrait::Knowledge]
    }
}

/// An association list updated at a key: the first entry under the key
/// has its value replaced, later entries are untouched.
pub open spec fn spec_upsert(
    entries: Seq<(String, TreeBranch)>,
    key: Seq<char>,
    value: TreeBranch,
) -> Seq<(String, TreeBranch)>
    decreases entries.len(),
{
    if entries.len() == 0 {
        Seq::<(String, TreeBranch)>::empty()
    } else {
        if entries.first().0@ == key {
            seq![(entries.first().0, value)] + entries.drop_first()
        } else {
            seq![entries.first()] + spec_upsert(entries.drop_first(), key, value)
        }
    }
}

/// Whether a key occurs in the association list.
pub open spec fn spec_has_key(entries: Seq<(String, TreeBranch)>, key: Seq<char>) -> bool {
    exists|j: int| 0 <= j < entries.len() && (#[trigger] entries[j]).0@ == key
}

/// Recording under a key: replace the first entry holding it, or append.
pub open spec fn spec_record(
    entries: Seq<(String, TreeBranch)>,
    key: String,
    value: TreeBranch,
) -> Seq<(String, TreeBranch)> {
    if spec_has_key(entries, key@) {
        spec_upsert(entries, key@, value)
    } else {
        entries.push((key, value))
    }
}

/// At the first index holding the key, upserting is one point update.
proof fn lemma_upsert_first_match(
    entries: Seq<(String, TreeBranch)>,
    key: Seq<char>,
    value: TreeBranch,
    i: int,
)
    requires
        0 <= i < entries.len(),
        entries[i].0@ == key,
        forall|j: int| 0 <= j < i ==> (#[trigger] entries[j]).0@ != key,
    ensures
        spec_upsert(entries, key, value) == entries.update(i, (entries[i].0, value)),
    decreases i,
{
    if i == 0 {
        assert(spec_upsert(entries, key, value) =~= entries.update(0, (entries[0].0, value)));
    } else {
        lemma_upsert_first_match(entries.drop_first(), key, value, i - 1);
        assert(entries.drop_first()[i - 1] == entries[i]);
        assert(seq![entries.first()] + spec_upsert(entries.drop_first(), key, value)
            =~= entries.update(i, (entries[i].0, value)));
    }
}

/// Integrates trait evaluation with the ledger: evaluates deeds for
/// token minting and accumulates branches for ecological grants.
#[derive(Clone)]
pub struct TreeOfLife {
    ledger: Ledger,
    config: Config,
    traits: Vec<(String, TreeBranch)>,
}

/// Grant value of the accumulated branches: five per core-value trait,
/// ten per action-oriented trait, fifteen per wisdom trait.
pub open spec fn spec_grant_sum(entries: Seq<(String, TreeBranch)>) -> int
    decreases entries.len(),
{
    if entries.len() == 0 {
        0
    } else {
        spec_grant_sum(entries.drop_last()) + match entries.last().1 {
            TreeBranch::Branch1(v) => 5 * v@.len(),
            TreeBranch::Branch2(v) => 10 * v@.len(),
            TreeBranch::Branch3(v) => 15 * v@.len(),
        }
    }
}

/// The grant sum is never negative.
pub proof fn lemma_grant_nonneg(entries: Seq<(String, TreeBranch)>)
    ensures
        0 <= spec_grant_sum(entries),
    decreases entries.len(),
{
    if entries.len() > 0 {
        lemma_grant_nonneg(entries.drop_last());
    }
}

/// The grant sum grows along prefixes.
pub proof fn lemma_grant_prefix(entries: Seq<(String, TreeBranch)>, i: int)
    requires
        0 <= i <= entries.len(),
    ensures
        0 <= spec_grant_sum(entries.take(i)) <= spec_grant_sum(entries),
    decreases entries.len() - i,
{
    if i == entries.len() {
        assert(entries.take(i) =~= entries);
        lemma_grant_nonneg(entries);
    } else {
        lemma_grant_prefix(entries, i + 1);
        assert(entries.take(i + 1).drop_last() =~= entries.take(i));
        lemma_grant_nonneg(entries.take(i));
    }
}

impl TreeOfLife {
    /// The accumulated event-to-branch entries, in insertion order.
    pub closed spec fn spec_traits(self) -> Seq<(String, TreeBranch)> {
        self.traits@
    }

    pub closed spec fn spec_config(self) -> Config {
        self.config
    }

    pub closed spec fn spec_ledger(self) -> Ledger {
        self.ledger
    }

    pub fn new(ledger: Ledger, config: Config) -> (r: Self)
        ensures
            r.spec_traits() == Seq::<(String, TreeBranch)>::empty(),
            r.spec_config() == config,
            r.spec_ledger() == ledger,
    {
        TreeOfLife { ledger, config, traits: Vec::new() }
    }

    /// Replace the branch under `key`, or append the pair.
    fn upsert(&mut self, key: &String, value: TreeBranch)
        ensures
            final(self).spec_traits() == spec_record(old(self).spec_traits(), *key, value),
            final(self).spec_config() == old(self).spec_config(),
            final(self).spec_ledger() == old(self).spec_ledger(),
    {
        let n: usize = self.traits.len();
        let mut i: usize = 0;
        while i < n
            invariant
                0 <= i <= n,
                n == self.traits@.len(),
                *self == *old(self),
                forall|j: int| 0 <= j < i ==> (#[trigger] self.traits@[j]).0@ != key@,
            decreases n - i,
        {
            if self.traits[i].0 == *key {
                let ghost pre = self.traits@;
                let owned_key: String = self.traits[i].0.clone();
                self.traits.set(i, (owned_key, value));
                proof {
                    assert(pre[i as int].0@ == key@);
                    assert(spec_has_key(pre, key@));
                    lemma_upsert_first_match(pre, key@, value, i as int);
                    assert(self.traits@ =~= pre.update(i as int, (pre[i as int].0, value)));
                }
                return ;
            }
            i += 1;
        }
        proof {
            assert(!spec_has_key(self.traits@, key@));
        }
        self.traits.push((key.clone(), value));
        proof {
            assert(self.traits@ =~= old(self).spec_traits().push((*key, value)));
        }
    }

    /// Evaluate a deed: sum the moral scores of the traits its type
    /// touches, and record the branch of the last such trait under the
    /// deed's event identifier.
    pub fn evaluate_deed(&mut self, event: &DeedEvent) -> (r: Result<i64, String>)
        requires
            (5 * event.ethics_flags@.len() + 10) * 3 <= i64::MAX,
        ensures
            r is Ok,
            (r matches Ok(total) ==> total == spec_relevant_traits(event.deed_type@).len()
                * spec_moral_score(*event)),
            final(self).spec_config() == old(self).spec_config(),
            final(self).spec_ledger() == old(self).spec_ledger(),
            exists|b: TreeBranch|
                #[trigger] spec_branch_of_trait(
                    b,
                    spec_relevant_traits(event.deed_type@).last(),
                ) && final(self).spec_traits() == spec_record(
                    old(self).spec_traits(),
                    event.event_id,
                    b,
                ),
    {
        let relevant_traits: Vec<TreeTrait> = if event.deed_type
            == "ecological_sustainability".to_owned() {
            vec![TreeTrait::Life, TreeTrait::Peace, TreeTrait::Wise]
        } else if event.deed_type == "homelessness_relief".to_owned() {
            vec![TreeTrait::Love, TreeTrait::Justice, TreeTrait::Karma]
        } else {
            vec![TreeTrait::Knowledge]
        };
        proof {
            assert(relevant_traits@ =~= spec_relevant_traits(event.deed_type@));
        }

        let n: usize = relevant_traits.len();
        let mut total_score: i64 = 0;
        let mut i: usize = 0;
        while i < n
            invariant
                0 <= i <= n,
                1 <= n <= 3,
                n == relevant_traits@.len(),
                (5 * event.ethics_flags@.len() + 10) * 3 <= i64::MAX,
                total_score == i * spec_moral_score(*event),
            decreases n - i,
        {
            let score: i64 = relevant_traits[i].moral_score(event);
            proof {
                let s = spec_moral_score(*event);
                assert((i + 1) * s == i * s + s) by (nonlinear_arith);
                assert(-(i64::MAX as int) <= (i + 1) * s <= i64::MAX as int)
                    by (nonlinear_arith)
                    requires
                        0 <= i < 3,
                        -(5 * event.ethics_flags@.len() + 10) <= s <= 10,
                        (5 * event.ethics_flags@.len() + 10) * 3 <= i64::MAX,
                ;
            }
            total_score = total_score + score;
            i += 1;
        }

        let last_trait: TreeTrait = relevant_traits[n - 1];
        let branch: TreeBranch = last_trait.branch();
        let ghost chosen: TreeBranch = branch;
        proof {
            assert(last_trait == spec_relevant_traits(event.deed_type@).last());
        }
        self.upsert(&event.event_id, branch);
        proof {
            assert(spec_branch_of_trait(chosen, spec_relevant_traits(event.deed_type@).last())
                && self.spec_traits() == spec_record(
                old(self).spec_traits(),
                event.event_id,
                chosen,
            ));
        }

        Ok(total_score)
    }

    /// Compute the ecological grant: the grant value of the accumulated
    /// branches, scaled by the configured multiplier.
    pub fn compute_eco_grant(&self) -> (r: i64)
        requires
            self.spec_config().eco_grant_multiplier <= i64::MAX,
            spec_grant_sum(self.spec_traits()) * self.spec_config().eco_grant_multiplier
                <= i64::MAX,
        ensures
            r == spec_grant_sum(self.spec_traits()) * self.spec_config().eco_grant_multiplier,
    {
        if self.config.eco_grant_multiplier == 0 {
            return 0;
        }
        proof {
            lemma_grant_nonneg(self.spec_traits());
            assert(spec_grant_sum(self.spec_traits()) <= spec_grant_sum(self.spec_traits())
                * self.spec_config().eco_grant_multiplier) by (nonlinear_arith)
                requires
                    self.spec_config().eco_grant_multiplier >= 1,
                    spec_grant_sum(self.spec_traits()) >= 0,
            ;
        }
        let mut grant: i64 = 0;
        let n: usize = self.traits.len();
        let mut i: usize = 0;
        while i < n
            invariant
                0 <= i <= n,
                n == self.spec_traits().len(),
                grant == spec_grant_sum(self.spec_traits().take(i as int)),
                spec_grant_sum(self.spec_traits()) <= i64::MAX,
            decreases n - i,
        {
            proof {
                lemma_grant_prefix(self.spec_traits(), i + 1);
                lemma_grant_prefix(self.spec_traits(), i as int);
                assert(self.spec_traits().take(i + 1).drop_last() =~= self.spec_traits().take(
                    i as int,
                ));
                assert(self.spec_traits().take(i + 1).last() == self.spec_traits()[i as int]);
            }
            let step: i64 = match &self.traits[i].1 {
                TreeBranch::Branch1(v) => (v.len() as i64) * 5,
                TreeBranch::Branch2(v) => (v.len() as i64) * 10,
                TreeBranch::Branch3(v) => (v.len() as i64) * 15,
            };
            grant = grant + step;
            i += 1;
        }
        proof {
            assert(self.spec_traits().take(n as int) =~= self.spec_traits());
            assert(spec_grant_sum(self.spec_traits())
                * self.spec_config().eco_grant_multiplier >= 0) by (nonlinear_arith)
                requires
                    self.spec_config().eco_grant_multiplier >= 1,
                    spec_grant_sum(self.spec_traits()) >= 0,
            ;
        }
        grant * (self.config.eco_grant_multiplier as i64)
    }
}

} // verus!
