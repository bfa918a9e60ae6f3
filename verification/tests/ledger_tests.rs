use terrasafe::encode::hex_bytes;
use terrasafe::ledger::{Config, DeedEvent, Ledger};
use terrasafe::tree::{TreeBranch, TreeOfLife, TreeTrait};

fn event(prev_hash: &str, actor: &str, deed_type: &str, tag: &str) -> DeedEvent {
    DeedEvent::new(
        prev_hash.to_string(),
        actor.to_string(),
        vec!["target1".to_string()],
        deed_type.to_string(),
        vec![tag.to_string()],
        Vec::new(),
        vec![],
        false,
    )
}

#[test]
fn test_ledger_append_and_validate() {
    let config = Config::default();
    let mut ledger = Ledger::new(config);

    let event1 = DeedEvent::new(
        "genesis".to_string(),
        "actor1".to_string(),
        vec!["target1".to_string()],
        "ecological_sustainability".to_string(),
        vec!["math_science_education".to_string()],
        Vec::new(),
        vec![],
        false,
    );

    assert!(ledger.append(event1.clone()).is_ok());

    let event2 = DeedEvent::new(
        event1.self_hash.clone(),
        "actor2".to_string(),
        vec!["target2".to_string()],
        "homelessness_relief".to_string(),
        vec!["civic_duty".to_string()],
        Vec::new(),
        vec![],
        false,
    );

    assert!(ledger.append(event2).is_ok());

    let metrics = ledger.compute_metrics();
    assert_eq!(metrics.good_deeds, 2);
    assert_eq!(metrics.harm_flags, 0);
}

#[test]
fn test_tree_of_life_evaluation() {
    let config = Config::default();
    let ledger = Ledger::new(config.clone());
    let mut tree = TreeOfLife::new(ledger, config);

    let event = DeedEvent::new(
        "genesis".to_string(),
        "actor1".to_string(),
        vec!["target1".to_string()],
        "ecological_sustainability".to_string(),
        vec!["math_science_education".to_string()],
        Vec::new(),
        vec![],
        false,
    );

    let score = tree.evaluate_deed(&event).unwrap();
    assert!(score > 0);

    let grant = tree.compute_eco_grant();
    assert!(grant > 0);
}

#[test]
fn new_event_hashes_its_content() {
    let e = event("genesis", "actor1", "ecological_sustainability", "tag");
    assert_eq!(e.event_id.len(), 36);
    assert_eq!(e.self_hash.len(), 64); // hex of a 32-byte digest
    assert!(e.self_hash.chars().all(|c| c.is_ascii_hexdigit()));
    assert!(e.validate("genesis"));
    assert!(!e.validate("other-hash"));
}

#[test]
fn tampered_event_fails_validation() {
    let mut e = event("genesis", "actor1", "ecological_sustainability", "tag");
    e.life_harm_flag = true;
    assert!(!e.validate("genesis"));
}

#[test]
fn append_rejects_a_broken_chain_link() {
    let mut ledger = Ledger::new(Config::default());
    let e1 = event("genesis", "actor1", "ecological_sustainability", "tag");
    assert!(ledger.append(e1).is_ok());
    // Links to genesis again instead of the tip.
    let e2 = event("genesis", "actor2", "homelessness_relief", "tag");
    let err = ledger.append(e2).unwrap_err();
    assert_eq!(err, "Event validation failed.");
    let metrics = ledger.compute_metrics();
    assert_eq!(metrics.total_events, 1);
}

#[test]
fn metrics_count_harm_and_mint_tokens() {
    let mut ledger = Ledger::new(Config::default());
    let e1 = event("genesis", "actor1", "ecological_sustainability", "tag");
    let tip = e1.self_hash.clone();
    assert!(ledger.append(e1).is_ok());
    let harmful = DeedEvent::new(
        tip,
        "actor2".to_string(),
        vec!["target2".to_string()],
        "unknown".to_string(),
        vec![],
        Vec::new(),
        vec!["roh_breach".to_string()],
        true,
    );
    assert!(ledger.append(harmful).is_ok());
    let metrics = ledger.compute_metrics();
    assert_eq!(metrics.total_events, 2);
    assert_eq!(metrics.good_deeds, 1);
    assert_eq!(metrics.harm_flags, 1);
    assert_eq!(metrics.balance.church_tokens, 10); // one good deed at rate 10
}

#[test]
fn hex_encoding_exact() {
    let bytes: Vec<u8> = vec![0xbe, 0xef, 0x00, 0x1a];
    let hex = hex_bytes(&bytes);
    assert_eq!(hex, b"beef001a".to_vec());
}

#[test]
fn moral_scores_reflect_harm_and_ethics_flags() {
    let good = event("genesis", "actor1", "unknown", "tag");
    assert_eq!(TreeTrait::Knowledge.moral_score(&good), 10);

    let flagged = DeedEvent::new(
        "genesis".to_string(),
        "actor1".to_string(),
        vec![],
        "unknown".to_string(),
        vec![],
        Vec::new(),
        vec!["coercion".to_string(), "roh_breach".to_string()],
        true,
    );
    assert_eq!(TreeTrait::Knowledge.moral_score(&flagged), -20); // -10 - 2 * 5
}

#[test]
fn branches_group_traits() {
    assert!(matches!(TreeTrait::Love.branch(), TreeBranch::Branch1(_)));
    assert!(matches!(TreeTrait::Power.branch(), TreeBranch::Branch2(_)));
    assert!(matches!(TreeTrait::Wise.branch(), TreeBranch::Branch3(_)));
    if let TreeBranch::Branch3(v) = TreeTrait::Wise.branch() {
        assert_eq!(v, vec![TreeTrait::Wise]);
    }
}

#[test]
fn eco_grant_exact_for_one_wisdom_entry() {
    let config = Config::default(); // multiplier 1
    let ledger = Ledger::new(config.clone());
    let mut tree = TreeOfLife::new(ledger, config);
    let e = event("genesis", "actor1", "ecological_sustainability", "tag");
    let score = tree.evaluate_deed(&e).unwrap();
    assert_eq!(score, 30); // three traits at +10 each
    // One entry holding the wisdom branch of the last trait: 15 * 1.
    assert_eq!(tree.compute_eco_grant(), 15);
}
