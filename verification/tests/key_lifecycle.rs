use blvm_commons::error::GovernanceError;
use blvm_commons::key_management::{
    key_needs_rotation, key_statistics, keys_needing_rotation, pending_key_metadata, plan_key_rotation,
    record_key_usage, revoke_key_metadata, KeyMetadata, KeyRegistry, KeyStatistics, KeyStatus, KeyType,
};

const DAY: i64 = 86_400;

fn key(id: &str, key_type: KeyType, status: KeyStatus, expires_at: i64) -> KeyMetadata {
    KeyMetadata {
        id: None,
        key_id: id.to_string(),
        key_type,
        owner: "alice".to_string(),
        public_key: "02ab".to_string(),
        status,
        created_at: 0,
        expires_at,
        last_used: None,
        usage_count: 0,
        metadata: vec![("team".to_string(), "core".to_string())],
    }
}

#[test]
fn generated_key_is_pending_for_one_rotation_period() {
    let k = pending_key_metadata(
        KeyType::Maintainer,
        "test@example.com",
        "02ff".to_string(),
        "maintainer_test@example.com_1_2".to_string(),
        1_700_000_000,
        None,
    );
    assert_eq!(k.key_type, KeyType::Maintainer);
    assert_eq!(k.owner, "test@example.com");
    assert_eq!(k.status, KeyStatus::Pending);
    assert_eq!(k.created_at, 1_700_000_000);
    assert_eq!(k.expires_at, 1_700_000_000 + 180 * DAY);
    assert_eq!(k.usage_count, 0);
    assert!(k.last_used.is_none());
    assert!(k.metadata.is_empty());

    let e = pending_key_metadata(KeyType::Emergency, "bob", "03aa".to_string(), "e".to_string(), 0,
        Some(vec![("note".to_string(), "x".to_string())]));
    assert_eq!(e.expires_at, 90 * DAY);
    assert_eq!(e.metadata, vec![("note".to_string(), "x".to_string())]);
}

#[test]
fn usage_is_recorded() {
    let mut k = key("k1", KeyType::System, KeyStatus::Active, 100 * DAY);
    record_key_usage(&mut k, 42);
    record_key_usage(&mut k, 43);
    assert_eq!(k.last_used, Some(43));
    assert_eq!(k.usage_count, 2);
}

#[test]
fn revocation_records_the_reason() {
    let mut k = key("k1", KeyType::Maintainer, KeyStatus::Active, 100 * DAY);
    revoke_key_metadata(&mut k, "Key rotated");
    assert_eq!(k.status, KeyStatus::Revoked);
    assert_eq!(
        k.metadata,
        vec![
            ("team".to_string(), "core".to_string()),
            ("revocation_reason".to_string(), "Key rotated".to_string())
        ]
    );
    // revoking again replaces the reason instead of adding a second one
    revoke_key_metadata(&mut k, "compromised");
    assert_eq!(k.metadata.len(), 2);
    assert_eq!(k.metadata[1].1, "compromised");
}

#[test]
fn rotation_needs_an_active_key() {
    match plan_key_rotation(None, None) {
        Err(GovernanceError::CryptoError(m)) => assert_eq!(m, "Key not found"),
        other => panic!("unexpected {:?}", other),
    }
    match plan_key_rotation(Some(key("k", KeyType::Maintainer, KeyStatus::Pending, 0)), None) {
        Err(GovernanceError::CryptoError(m)) => assert_eq!(m, "Key is not active"),
        other => panic!("unexpected {:?}", other),
    }
}

#[test]
fn rotation_plan_names_the_register() {
    let p = plan_key_rotation(Some(key("k", KeyType::Maintainer, KeyStatus::Active, 0)), None).unwrap();
    assert_eq!(p.key_type, KeyType::Maintainer);
    assert_eq!(p.owner, "alice");
    assert_eq!(p.registry, KeyRegistry::Maintainers);
    assert_eq!(p.metadata, vec![("team".to_string(), "core".to_string())]);

    let p = plan_key_rotation(Some(key("k", KeyType::Emergency, KeyStatus::Active, 0)), Some("carol")).unwrap();
    assert_eq!(p.owner, "carol");
    assert_eq!(p.registry, KeyRegistry::EmergencyKeyholders);

    let p = plan_key_rotation(Some(key("k", KeyType::GitHubApp, KeyStatus::Active, 0)), None).unwrap();
    assert_eq!(p.registry, KeyRegistry::Neither);
}

#[test]
fn keys_due_within_thirty_days() {
    let now = 1_000 * DAY;
    assert!(key_needs_rotation(&key("a", KeyType::System, KeyStatus::Active, now + 30 * DAY), now));
    assert!(!key_needs_rotation(&key("b", KeyType::System, KeyStatus::Active, now + 30 * DAY + 1), now));
    assert!(key_needs_rotation(&key("c", KeyType::System, KeyStatus::Active, now - DAY), now));
    assert!(!key_needs_rotation(&key("d", KeyType::System, KeyStatus::Revoked, now - DAY), now));
}

#[test]
fn due_keys_sorted_by_expiry() {
    let now = 1_000 * DAY;
    let keys = vec![
        key("late", KeyType::System, KeyStatus::Active, now + 20 * DAY),
        key("revoked", KeyType::System, KeyStatus::Revoked, now),
        key("far", KeyType::System, KeyStatus::Active, now + 90 * DAY),
        key("expired", KeyType::System, KeyStatus::Active, now - 5 * DAY),
        key("soon", KeyType::System, KeyStatus::Active, now + DAY),
    ];
    let due = keys_needing_rotation(keys, now);
    let ids: Vec<&str> = due.iter().map(|k| k.key_id.as_str()).collect();
    assert_eq!(ids, vec!["expired", "soon", "late"]);
}

#[test]
fn statistics_count_by_status() {
    let keys = vec![
        key("a", KeyType::System, KeyStatus::Active, 0),
        key("b", KeyType::System, KeyStatus::Active, 0),
        key("c", KeyType::System, KeyStatus::Revoked, 0),
        key("d", KeyType::System, KeyStatus::Expired, 0),
        key("e", KeyType::System, KeyStatus::Pending, 0),
    ];
    assert_eq!(
        key_statistics(&keys),
        KeyStatistics { total_keys: 5, active_keys: 2, expired_keys: 1, revoked_keys: 1 }
    );
    assert_eq!(key_statistics(&Vec::new()).total_keys, 0);
}

#[test]
fn key_type_and_status_parse_from_stored_names() {
    assert_eq!("github_app".parse::<KeyType>(), Ok(KeyType::GitHubApp));
    assert_eq!("system".parse::<KeyType>(), Ok(KeyType::System));
    assert_eq!("root".parse::<KeyType>(), Err("Unknown key type: root".to_string()));
    assert_eq!("compromised".parse::<KeyStatus>(), Ok(KeyStatus::Compromised));
    assert_eq!("Active".parse::<KeyStatus>(), Err("Unknown key status: Active".to_string()));
}
