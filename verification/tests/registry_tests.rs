use mintrip::errors::MintError;
use mintrip::registry::Bootstrap;
use mintrip::token::{issue_foreign_badge, AuthorityToken};

fn sample_metadata(seq: &str) -> Vec<String> {
    vec![
        "blue".to_string(),
        "robot".to_string(),
        "angry".to_string(),
        "round".to_string(),
        "green".to_string(),
        "grass".to_string(),
        "long".to_string(),
        "rare".to_string(),
        "http://x/1.png".to_string(),
        "ipfs://abc".to_string(),
        seq.to_string(),
    ]
}

fn foreign() -> AuthorityToken {
    issue_foreign_badge(42, "Pretender".to_string()).expect("a foreign class must be issuable")
}

#[test]
fn bootstrap_starts_mintable_and_empty() {
    let (registry, token) = Bootstrap::bootstrap();
    assert!(registry.is_mintable());
    assert_eq!(registry.item_count(), 0);
    assert_eq!(token.name().as_str(), "Power of the Rippy");
    assert_eq!(registry.required_class(), token.class());
}

#[test]
fn mint_derives_identity_name_and_attributes() {
    let (mut registry, token) = Bootstrap::bootstrap();
    let item = registry
        .minty(sample_metadata("7"), &token)
        .expect("first mint must succeed");
    assert_eq!(item.id.as_str(), "Rippy_7");
    assert_eq!(item.name.as_str(), "#7");
    assert_eq!(item.description.as_str(), "The Unofficial Radix Assistant");
    assert_eq!(item.key_image_url.as_str(), "http://x/1.png");
    assert_eq!(item.ipfs.as_str(), "ipfs://abc");
    assert_eq!(item.background.as_str(), "blue");
    assert_eq!(item.body.as_str(), "robot");
    assert_eq!(item.brow.as_str(), "angry");
    assert_eq!(item.ear.as_str(), "round");
    assert_eq!(item.eyes.as_str(), "green");
    assert_eq!(item.ground.as_str(), "grass");
    assert_eq!(item.tail.as_str(), "long");
    assert_eq!(item.rank.as_str(), "rare");
    let expected = [
        ("Background", "blue"),
        ("Body", "robot"),
        ("Brow", "angry"),
        ("Ear", "round"),
        ("Eyes", "green"),
        ("Ground", "grass"),
        ("Tail", "long"),
        ("Rank", "rare"),
    ];
    assert_eq!(item.attributes.len(), 8);
    for (pair, (key, value)) in item.attributes.iter().zip(expected.iter()) {
        assert_eq!(pair.0.as_str(), *key);
        assert_eq!(pair.1.as_str(), *value);
    }
    assert_eq!(registry.item_count(), 1);
    let stored = registry.get(&"Rippy_7".to_string()).expect("the record must be stored");
    assert_eq!(stored.name.as_str(), "#7");
}

#[test]
fn mint_same_sequence_number_is_rejected() {
    let (mut registry, token) = Bootstrap::bootstrap();
    registry.minty(sample_metadata("7"), &token).expect("first mint must succeed");
    let second = registry.minty(sample_metadata("7"), &token);
    assert_eq!(second.err(), Some(MintError::DuplicateIdentity));
    assert_eq!(registry.item_count(), 1);
}

#[test]
fn mint_distinct_sequence_numbers_distinct_identities() {
    let (mut registry, token) = Bootstrap::bootstrap();
    let one = registry.minty(sample_metadata("1"), &token).expect("mint 1 must succeed");
    let two = registry.minty(sample_metadata("2"), &token).expect("mint 2 must succeed");
    assert_ne!(one.id, two.id);
    assert_eq!(registry.item_count(), 2);
}

#[test]
fn mint_short_metadata_is_invalid_input() {
    let (mut registry, token) = Bootstrap::bootstrap();
    let mut short = sample_metadata("7");
    short.pop();
    let r = registry.minty(short, &token);
    assert_eq!(r.err(), Some(MintError::InvalidInput));
    assert_eq!(registry.item_count(), 0);
}

#[test]
fn mint_long_metadata_is_invalid_input() {
    let (mut registry, token) = Bootstrap::bootstrap();
    let mut long = sample_metadata("7");
    long.push("extra".to_string());
    let r = registry.minty(long, &token);
    assert_eq!(r.err(), Some(MintError::InvalidInput));
    assert_eq!(registry.item_count(), 0);
}

#[test]
fn lock_minting_is_permanent() {
    let (mut registry, token) = Bootstrap::bootstrap();
    registry.minty(sample_metadata("7"), &token).expect("mint before lock must succeed");
    registry.lock_mint(&token).expect("locking must succeed");
    assert!(!registry.is_mintable());
    let after = registry.minty(sample_metadata("8"), &token);
    assert_eq!(after.err(), Some(MintError::MintingLocked));
    assert_eq!(registry.item_count(), 1);
}

#[test]
fn lock_minting_is_idempotent() {
    let (mut registry, token) = Bootstrap::bootstrap();
    registry.lock_mint(&token).expect("first lock must succeed");
    registry.lock_mint(&token).expect("locking again must still succeed");
    assert!(!registry.is_mintable());
    let r = registry.minty(sample_metadata("1"), &token);
    assert_eq!(r.err(), Some(MintError::MintingLocked));
}

#[test]
fn update_field_changes_only_the_key_image_url() {
    let (mut registry, token) = Bootstrap::bootstrap();
    registry.minty(sample_metadata("7"), &token).expect("mint must succeed");
    let id = "Rippy_7".to_string();
    registry
        .update_field(&id, "https://cdn/2.png".to_string(), &token)
        .expect("update must succeed");
    let item = registry.get(&id).expect("the record must still exist");
    assert_eq!(item.key_image_url.as_str(), "https://cdn/2.png");
    assert_eq!(item.id.as_str(), "Rippy_7");
    assert_eq!(item.name.as_str(), "#7");
    assert_eq!(item.description.as_str(), "The Unofficial Radix Assistant");
    assert_eq!(item.ipfs.as_str(), "ipfs://abc");
    assert_eq!(item.background.as_str(), "blue");
    assert_eq!(item.rank.as_str(), "rare");
    assert_eq!(item.attributes.len(), 8);
    assert_eq!(item.attributes[0].1.as_str(), "blue");
}

#[test]
fn update_field_updates_after_lock() {
    let (mut registry, token) = Bootstrap::bootstrap();
    registry.minty(sample_metadata("7"), &token).expect("mint must succeed");
    registry.lock_mint(&token).expect("locking must succeed");
    let id = "Rippy_7".to_string();
    registry
        .update_field(&id, "https://cdn/3.png".to_string(), &token)
        .expect("updates must survive the lock");
    let item = registry.get(&id).expect("the record must still exist");
    assert_eq!(item.key_image_url.as_str(), "https://cdn/3.png");
}

#[test]
fn update_field_unknown_identity_is_not_found() {
    let (mut registry, token) = Bootstrap::bootstrap();
    registry.minty(sample_metadata("7"), &token).expect("mint must succeed");
    let r = registry.update_field(&"Rippy_9".to_string(), "u".to_string(), &token);
    assert_eq!(r.err(), Some(MintError::NotFound));
    let item = registry.get(&"Rippy_7".to_string()).expect("the record must still exist");
    assert_eq!(item.key_image_url.as_str(), "http://x/1.png");
}

#[test]
fn foreign_badge_never_carries_the_authority_class() {
    let (registry, token) = Bootstrap::bootstrap();
    assert!(issue_foreign_badge(registry.required_class(), "Copy".to_string()).is_none());
    assert!(issue_foreign_badge(token.class(), "Copy".to_string()).is_none());
    let other = issue_foreign_badge(7, "Other".to_string()).expect("another class is issuable");
    assert_eq!(other.class(), 7);
    assert_eq!(other.name().as_str(), "Other");
    assert_ne!(other.class(), token.class());
}

#[test]
fn unauthorized_badge_is_rejected_everywhere() {
    let (mut registry, token) = Bootstrap::bootstrap();
    registry.minty(sample_metadata("7"), &token).expect("mint must succeed");
    let badge = foreign();
    let mint = registry.minty(sample_metadata("8"), &badge);
    assert_eq!(mint.err(), Some(MintError::Unauthorized));
    let update = registry.update_field(&"Rippy_7".to_string(), "u".to_string(), &badge);
    assert_eq!(update.err(), Some(MintError::Unauthorized));
    let lock = registry.lock_mint(&badge);
    assert_eq!(lock.err(), Some(MintError::Unauthorized));
    assert!(registry.is_mintable());
    assert_eq!(registry.item_count(), 1);
    let item = registry.get(&"Rippy_7".to_string()).expect("the record must still exist");
    assert_eq!(item.key_image_url.as_str(), "http://x/1.png");
}

#[test]
fn unauthorized_is_reported_before_the_lock() {
    let (mut registry, token) = Bootstrap::bootstrap();
    registry.lock_mint(&token).expect("locking must succeed");
    let badge = foreign();
    let r = registry.minty(sample_metadata("8"), &badge);
    assert_eq!(r.err(), Some(MintError::Unauthorized));
}

#[test]
fn get_unknown_identity_is_none() {
    let (mut registry, token) = Bootstrap::bootstrap();
    assert!(registry.get(&"Rippy_7".to_string()).is_none());
    registry.minty(sample_metadata("7"), &token).expect("mint must succeed");
    assert!(registry.get(&"Rippy_8".to_string()).is_none());
}

#[test]
fn derive_item_computes_the_record_without_a_registry() {
    let item = mintrip::registry::derive_item(&sample_metadata("7")).expect("derivation must succeed");
    assert_eq!(item.id.as_str(), "Rippy_7");
    assert_eq!(item.name.as_str(), "#7");
    assert_eq!(item.attributes.len(), 8);
    assert_eq!(item.attributes[7].0.as_str(), "Rank");
    assert_eq!(item.attributes[7].1.as_str(), "rare");
}

#[test]
fn derive_item_rejects_short_metadata() {
    let mut short = sample_metadata("7");
    short.truncate(10);
    let r = mintrip::registry::derive_item(&short);
    assert_eq!(r.err(), Some(MintError::InvalidInput));
}
