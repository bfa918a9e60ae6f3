//! Hash-linked deed ledger.
//!
//! A `DeedEvent` is an immutable record of one morally relevant action,
//! chained to its predecessor by SHA-256 over a canonical byte encoding.
//! The `Ledger` appends events only after their hash and chain link
//! validate, and derives token-minting metrics from the chain.

use vstd::prelude::*;
use crate::encode::{
    push_le8, push_pair_list, push_str_field, push_str_list, spec_enc_pair_list, spec_enc_str,
    spec_enc_str_list, spec_hex_chars, spec_le8,
};
use crate::encode::{hex_bytes, lemma_hex_bytes_ascii};
use crate::trusted::{ascii_to_string, fresh_event_id, sha256_bytes, spec_sha256, unix_now};

verus! {

/// Ledger configuration: how many tokens one good deed mints, and the
/// multiplier applied to ecological grants.
#[derive(Clone, Debug)]
pub struct Config {
    pub token_mint_rate: u64,
    pub eco_grant_multiplier: u64,
}

impl Default for Config {
    /// Conservative defaults: ten tokens per good deed, grants unscaled.
    fn default() -> (r: Self)
        ensures
            r.token_mint_rate == 10,
            r.eco_grant_multiplier == 1,
    {
        Config { token_mint_rate: 10, eco_grant_multiplier: 1 }
    }
}

/// A single morally relevant action: an immutable, hash-linked unit for
/// tamper-evident auditing. `context_json` holds raw evidence text as
/// key/value pairs.
#[derive(Clone, Debug)]
pub struct DeedEvent {
    pub event_id: String,
    pub timestamp: u64,
    pub prev_hash: String,
    pub self_hash: String,
    pub actor_id: String,
    pub target_ids: Vec<String>,
    pub deed_type: String,
    pub tags: Vec<String>,
    pub context_json: Vec<(String, String)>,
    pub ethics_flags: Vec<String>,
    pub life_harm_flag: bool,
}

/// The canonical byte encoding an event is hashed over: every field but
/// `self_hash`, each length-prefixed.
pub open spec fn spec_canonical(e: DeedEvent) -> Seq<u8> {
    spec_enc_str(e.event_id@) + spec_le8(e.timestamp as int) + spec_enc_str(e.prev_hash@)
        + spec_enc_str(e.actor_id@) + spec_enc_str_list(e.target_ids@) + spec_enc_str(
        e.deed_type@,
    ) + spec_enc_str_list(e.tags@) + spec_enc_pair_list(e.context_json@) + spec_enc_str_list(
        e.ethics_flags@,
    ) + seq![if e.life_harm_flag { 1u8 } else { 0u8 }]
}

/// The hash string an event must carry: lower-case hex of the SHA-256
/// digest of its canonical encoding.
pub open spec fn spec_hash_string(e: DeedEvent) -> Seq<char> {
    spec_hex_chars(spec_sha256(spec_canonical(e)))
}

/// An event is valid against a chain tip when its hash matches its
/// content and its back link matches the tip.
pub open spec fn spec_event_valid(e: DeedEvent, expected_prev: Seq<char>) -> bool {
    e.self_hash@ == spec_hash_string(e) && e.prev_hash@ == expected_prev
}

/// Compute the canonical encoding of an event, ignoring its `self_hash`.
fn canonical_bytes(e: &DeedEvent) -> (r: Vec<u8>)
    ensures
        r@ == spec_canonical(*e),
{
    let mut out: Vec<u8> = Vec::new();
    push_str_field(&mut out, e.event_id.as_str());
    push_le8(&mut out, e.timestamp);
    push_str_field(&mut out, e.prev_hash.as_str());
    push_str_field(&mut out, e.actor_id.as_str());
    push_str_list(&mut out, &e.target_ids);
    push_str_field(&mut out, e.deed_type.as_str());
    push_str_list(&mut out, &e.tags);
    push_pair_list(&mut out, &e.context_json);
    push_str_list(&mut out, &e.ethics_flags);
    out.push(if e.life_harm_flag {
        1u8
    } else {
        0u8
    });
    proof {
        assert(out@ =~= spec_canonical(*e));
    }
    out
}

/// Hash an event's canonical encoding to its hex hash string.
fn hash_of_event(e: &DeedEvent) -> (r: String)
    ensures
        r@ == spec_hash_string(*e),
{
    let canon: Vec<u8> = canonical_bytes(e);
    let digest: Vec<u8> = sha256_bytes(&canon);
    let hex: Vec<u8> = hex_bytes(&digest);
    proof {
        lemma_hex_bytes_ascii(digest@);
    }
    let s: String = ascii_to_string(hex);
    proof {
        assert(s@ =~= spec_hash_string(*e));
    }
    s
}

impl DeedEvent {
    /// Create a new event: a fresh random identifier, the current time,
    /// and a self hash computed over the canonical encoding. Every other
    /// field is taken as given.
    pub fn new(
        prev_hash: String,
        actor_id: String,
        target_ids: Vec<String>,
        deed_type: String,
        tags: Vec<String>,
        context_json: Vec<(String, String)>,
        ethics_flags: Vec<String>,
        life_harm_flag: bool,
    ) -> (r: DeedEvent)
        ensures
            r.prev_hash == prev_hash,
            r.actor_id == actor_id,
            r.target_ids == target_ids,
            r.deed_type == deed_type,
            r.tags == tags,
            r.context_json == context_json,
            r.ethics_flags == ethics_flags,
            r.life_harm_flag == life_harm_flag,
            r.event_id@.len() == 36,
            r.self_hash@ == spec_hash_string(r),
    {
        let timestamp: u64 = unix_now();
        let mut event = DeedEvent {
            event_id: fresh_event_id(),
            timestamp,
            prev_hash,
            self_hash: String::new(),
            actor_id,
            target_ids,
            deed_type,
            tags,
            context_json,
            ethics_flags,
            life_harm_flag,
        };
        let h: String = hash_of_event(&event);
        event.self_hash = h;
        event
    }

    /// Validate the event's integrity: its hash against its content, and
    /// its back link against the expected predecessor hash.
    pub fn validate(&self, expected_prev_hash: &str) -> (r: bool)
        ensures
            r == spec_event_valid(*self, expected_prev_hash@),
    {
        let computed: String = hash_of_event(self);
        if !(computed == self.self_hash) {
            return false;
        }
        let expected: String = expected_prev_hash.to_owned();
        self.prev_hash == expected
    }
}

/// Count of events without the life-harm flag.
pub open spec fn spec_good_count(events: Seq<DeedEvent>) -> int
    decreases events.len(),
{
    if events.len() == 0 {
        0
    } else {
        spec_good_count(events.drop_last()) + if events.last().life_harm_flag {
            0int
        } else {
            1int
        }
    }
}

/// Count of events carrying the life-harm flag.
pub open spec fn spec_harm_count(events: Seq<DeedEvent>) -> int
    decreases events.len(),
{
    if events.len() == 0 {
        0
    } else {
        spec_harm_count(events.drop_last()) + if events.last().life_harm_flag {
            1int
        } else {
            0int
        }
    }
}

/// The two counts split the length.
pub proof fn lemma_counts_split(events: Seq<DeedEvent>)
    ensures
        0 <= spec_good_count(events),
        0 <= spec_harm_count(events),
        spec_good_count(events) + spec_harm_count(events) == events.len(),
    decreases events.len(),
{
    if events.len() > 0 {
        lemma_counts_split(events.drop_last());
    }
}

/// Accumulated tokens from good deeds.
#[derive(Clone, Debug)]
pub struct Balance {
    pub church_tokens: u64,
}

/// Metrics over the ledger, supporting grants and ceiling adjustments.
#[derive(Clone, Debug)]
pub struct Metrics {
    pub total_events: u64,
    pub good_deeds: u64,
    pub harm_flags: u64,
    pub balance: Balance,
}

/// Append-only chain of deed events.
#[derive(Clone, Debug)]
pub struct Ledger {
    events: Vec<DeedEvent>,
    config: Config,
}

impl Ledger {
    /// The recorded chain, oldest first.
    pub closed spec fn spec_events(self) -> Seq<DeedEvent> {
        self.events@
    }

    pub closed spec fn spec_config(self) -> Config {
        self.config
    }

    /// The hash the next appended event must link back to.
    pub open spec fn spec_chain_tip(self) -> Seq<char> {
        if self.spec_events().len() == 0 {
            "genesis"@
        } else {
            self.spec_events().last().self_hash@
        }
    }

    pub fn new(config: Config) -> (r: Self)
        ensures
            r.spec_events() == Seq::<DeedEvent>::empty(),
            r.spec_config() == config,
    {
        Ledger { events: Vec::new(), config }
    }

    /// Append an event after validating it against the chain tip: its
    /// hash must match its content and its back link the tip, else the
    /// ledger is unchanged and the error says so.
    pub fn append(&mut self, event: DeedEvent) -> (r: Result<(), String>)
        ensures
            r is Ok <==> spec_event_valid(event, old(self).spec_chain_tip()),
            r is Ok ==> final(self).spec_events() == old(self).spec_events().push(event),
            r is Err ==> *final(self) == *old(self),
            (r matches Err(m) ==> m@ == "Event validation failed."@),
            final(self).spec_config() == old(self).spec_config(),
    {
        let expected_prev_hash: String = if self.events.len() == 0 {
            "genesis".to_owned()
        } else {
            self.events[self.events.len() - 1].self_hash.clone()
        };

        if !event.validate(expected_prev_hash.as_str()) {
            return Err("Event validation failed.".to_owned());
        }

        self.events.push(event);
        Ok(())
    }

    /// Compute minting metrics over the chain: how many deeds were good,
    /// how many harmed, and the resulting token balance.
    pub fn compute_metrics(&self) -> (m: Metrics)
        requires
            self.spec_events().len() <= u64::MAX,
            spec_good_count(self.spec_events()) * self.spec_config().token_mint_rate
                <= u64::MAX,
        ensures
            m.total_events == self.spec_events().len(),
            m.good_deeds == spec_good_count(self.spec_events()),
            m.harm_flags == spec_harm_count(self.spec_events()),
            m.balance.church_tokens == spec_good_count(self.spec_events())
                * self.spec_config().token_mint_rate,
    {
        let mut good_deeds: u64 = 0;
        let mut harm_flags: u64 = 0;
        let n: usize = self.events.len();
        let mut i: usize = 0;
        proof {
            lemma_counts_split(self.spec_events());
        }
        while i < n
            invariant
                0 <= i <= n,
                n == self.spec_events().len(),
                n <= u64::MAX,
                good_deeds == spec_good_count(self.spec_events().take(i as int)),
                harm_flags == spec_harm_count(self.spec_events().take(i as int)),
            decreases n - i,
        {
            proof {
                lemma_counts_split(self.spec_events().take(i as int));
                assert(self.spec_events().take(i + 1).drop_last() =~= self.spec_events().take(
                    i as int,
                ));
                assert(self.spec_events().take(i + 1).last() == self.spec_events()[i as int]);
            }
            if self.events[i].life_harm_flag {
                harm_flags = harm_flags + 1;
            } else {
                good_deeds = good_deeds + 1;
            }
            i += 1;
        }
        proof {
            assert(self.spec_events().take(n as int) =~= self.spec_events());
            assert(good_deeds * self.spec_config().token_mint_rate <= u64::MAX) by {
                assert(good_deeds == spec_good_count(self.spec_events()));
            }
        }
        Metrics {
            total_events: n as u64,
            good_deeds,
            harm_flags,
            balance: Balance { church_tokens: good_deeds * self.config.token_mint_rate },
        }
    }
}

} // verus!
