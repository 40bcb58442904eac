use tutor_session_seal::keys::{balance_key, count_key, session_key, stamp_key, STAMP_NAMESPACE};
use tutor_session_seal::stamps::InspectionRegistry;
use tutor_session_seal::{Address, BalanceKey, ContractError, SessionKey};

fn stamp(reg: &mut InspectionRegistry, id: u64, passed: bool, at: u64) {
    reg.create_stamp(
        id,
        String::from("asset-7"),
        String::from("insp"),
        passed,
        String::from("all good"),
        vec![1, 2, 3],
        at,
    );
}

#[test]
fn created_stamp_is_stored_unrevoked() {
    let mut reg = InspectionRegistry::new();
    stamp(&mut reg, 5, true, 100);
    let s = reg.get_stamp(5).unwrap();
    assert_eq!(s.stamp_id, 5);
    assert_eq!(s.asset_id, "asset-7");
    assert_eq!(s.inspector, "insp");
    assert_eq!(s.notes, "all good");
    assert_eq!(s.evidence_hash, vec![1, 2, 3]);
    assert_eq!(s.inspected_at, 100);
    assert!(s.passed && !s.revoked);
    assert!(reg.is_stamp_valid(5));
}

#[test]
fn missing_stamp_is_absent_and_invalid() {
    let reg = InspectionRegistry::new();
    assert!(reg.get_stamp(1).is_none());
    assert!(!reg.is_stamp_valid(1));
}

#[test]
fn failed_stamp_is_invalid() {
    let mut reg = InspectionRegistry::new();
    stamp(&mut reg, 2, false, 10);
    assert!(!reg.is_stamp_valid(2));
}

#[test]
fn revoke_keeps_inspection_time() {
    let mut reg = InspectionRegistry::new();
    stamp(&mut reg, 3, true, 4242);
    assert_eq!(reg.revoke_stamp(3), Ok(()));
    let s = reg.get_stamp(3).unwrap();
    assert!(s.revoked);
    assert_eq!(s.inspected_at, 4242);
    assert_eq!(s.asset_id, "asset-7");
    assert!(!reg.is_stamp_valid(3));
}

#[test]
fn revoke_twice_stays_revoked() {
    let mut reg = InspectionRegistry::new();
    stamp(&mut reg, 8, true, 1);
    assert_eq!(reg.revoke_stamp(8), Ok(()));
    assert!(reg.get_stamp(8).unwrap().revoked);
    assert_eq!(reg.revoke_stamp(8), Ok(()));
    assert!(reg.get_stamp(8).unwrap().revoked);
}

#[test]
fn revoke_missing_stamp_is_not_found() {
    let mut reg = InspectionRegistry::new();
    assert_eq!(reg.revoke_stamp(1), Err(ContractError::NotFound));
    assert!(reg.get_stamp(1).is_none());
}

#[test]
fn validity_matches_stored_stamp() {
    let mut reg = InspectionRegistry::new();
    stamp(&mut reg, 1, true, 0);
    stamp(&mut reg, 2, false, 0);
    stamp(&mut reg, 3, true, 0);
    reg.revoke_stamp(3).unwrap();
    for id in 0..5u64 {
        let expected = reg.get_stamp(id).map(|s| s.passed && !s.revoked).unwrap_or(false);
        assert_eq!(reg.is_stamp_valid(id), expected);
    }
}

#[test]
fn create_overwrites_existing_stamp() {
    let mut reg = InspectionRegistry::new();
    stamp(&mut reg, 6, true, 1);
    reg.revoke_stamp(6).unwrap();
    stamp(&mut reg, 6, false, 2);
    let s = reg.get_stamp(6).unwrap();
    assert!(!s.revoked && !s.passed);
    assert_eq!(s.inspected_at, 2);
}

#[test]
fn keys_are_distinct_by_input() {
    let a = Address { w0: 1, w1: 2, w2: 3, w3: 4 };
    let b = Address { w0: 1, w1: 2, w2: 3, w3: 5 };
    assert_eq!(count_key(), SessionKey::Count);
    assert_eq!(session_key(3), SessionKey::Record(3));
    assert_ne!(session_key(3), session_key(4));
    assert_ne!(session_key(0), count_key());
    assert_eq!(balance_key(a), BalanceKey::Bal(a));
    assert_ne!(balance_key(a), balance_key(b));
    assert_eq!(stamp_key(9).stamp_id, 9);
    assert_eq!(stamp_key(9).namespace, STAMP_NAMESPACE);
    assert_ne!(stamp_key(9), stamp_key(10));
}
