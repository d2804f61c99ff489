use anchor_lang::prelude::Pubkey;
use did_system::account::{DID_ACCOUNT_SPACE, MAX_USERNAME_LEN};
use did_system::{
    create_did, delete_did, derive_did_address, update_did, CreateDid, DeleteDid, ErrorCode, Key,
    Registry, UpdateDid,
};

const PROGRAM: [u8; 32] = [7u8; 32];

fn key(b: u8) -> Key {
    Key::new([b; 32])
}

fn registry() -> Registry {
    Registry::new(key(7))
}

fn create(reg: &mut Registry, user: Key, username: &str, now: i64) -> Result<(), ErrorCode> {
    create_did(
        reg,
        &CreateDid { user },
        username.to_string(),
        "g".to_string(),
        "t".to_string(),
        "QmHash".to_string(),
        now,
    )
}

#[test]
fn derive_is_deterministic() {
    let a = derive_did_address(&key(1), &key(7)).unwrap();
    let b = derive_did_address(&key(1), &key(7)).unwrap();
    assert_eq!(a.0.bytes, b.0.bytes);
    assert_eq!(a.1, b.1);
}

#[test]
fn derive_separates_owners() {
    let a = derive_did_address(&key(1), &key(7)).unwrap();
    let b = derive_did_address(&key(2), &key(7)).unwrap();
    assert_ne!(a.0.bytes, b.0.bytes);
}

#[test]
fn derive_matches_ledger_derivation() {
    let owner = Pubkey::new_from_array([1u8; 32]);
    let program = Pubkey::new_from_array(PROGRAM);
    let (expected, bump) = Pubkey::find_program_address(&[b"did", owner.as_ref()], &program);
    let (address, got_bump) = derive_did_address(&key(1), &key(7)).unwrap();
    assert_eq!(address.bytes, expected.to_bytes());
    assert_eq!(got_bump, bump);
    assert_ne!(address.bytes, [1u8; 32]);
}

#[test]
fn create_rejects_empty_username() {
    let mut reg = registry();
    assert_eq!(create(&mut reg, key(1), "", 10), Err(ErrorCode::UsernameEmpty));
    assert!(reg.record_of(&key(1)).is_none());
    assert_eq!(reg.len(), 0);
}

#[test]
fn create_rejects_33_byte_username() {
    let mut reg = registry();
    let name = "a".repeat(33);
    assert_eq!(create(&mut reg, key(1), &name, 10), Err(ErrorCode::UsernameTooLong));
    assert!(reg.record_of(&key(1)).is_none());
}

#[test]
fn create_accepts_32_byte_username() {
    let mut reg = registry();
    let name = "a".repeat(32);
    assert_eq!(create(&mut reg, key(1), &name, 10), Ok(()));
    assert_eq!(reg.record_of(&key(1)).unwrap().username, name);
}

#[test]
fn username_length_counts_bytes() {
    let mut reg = registry();
    let ok = "é".repeat(16);
    let long = "é".repeat(17);
    assert_eq!(create(&mut reg, key(1), &long, 10), Err(ErrorCode::UsernameTooLong));
    assert_eq!(create(&mut reg, key(1), &ok, 10), Ok(()));
}

#[test]
fn create_stamps_both_times() {
    let mut reg = registry();
    create(&mut reg, key(1), "alice", 1234).unwrap();
    let rec = reg.record_of(&key(1)).unwrap();
    assert_eq!(rec.created_at, 1234);
    assert_eq!(rec.updated_at, 1234);
    assert_eq!(rec.owner.bytes, [1u8; 32]);
    let (address, bump) = derive_did_address(&key(1), &key(7)).unwrap();
    assert_eq!(rec.bump, bump);
    assert!(reg.get(&address).is_some());
}

#[test]
fn updates_keep_owner_and_username() {
    let mut reg = registry();
    create(&mut reg, key(1), "alice", 10).unwrap();
    let ctx = UpdateDid { user: key(1), owner: key(1) };
    for t in 11..15 {
        update_did(&mut reg, &ctx, Some(format!("g{}", t)), Some("x".to_string()), None, t).unwrap();
    }
    let bad = UpdateDid { user: key(1), owner: key(2) };
    assert_eq!(update_did(&mut reg, &bad, None, None, None, 20), Err(ErrorCode::Unauthorized));
    let rec = reg.record_of(&key(1)).unwrap();
    assert_eq!(rec.owner.bytes, [1u8; 32]);
    assert_eq!(rec.username, "alice");
    assert_eq!(rec.github, "g14");
    assert_eq!(rec.updated_at, 14);
}

#[test]
fn partial_update_github_only() {
    let mut reg = registry();
    create(&mut reg, key(1), "alice", 10).unwrap();
    let ctx = UpdateDid { user: key(1), owner: key(1) };
    assert_eq!(update_did(&mut reg, &ctx, Some("g2".to_string()), None, None, 12), Ok(()));
    let rec = reg.record_of(&key(1)).unwrap();
    assert_eq!(rec.github, "g2");
    assert_eq!(rec.twitter, "t");
    assert_eq!(rec.ipfs_hash, "QmHash");
    assert_eq!(rec.created_at, 10);
    assert_eq!(rec.updated_at, 12);
}

#[test]
fn empty_update_touches_time() {
    let mut reg = registry();
    create(&mut reg, key(1), "alice", 10).unwrap();
    let ctx = UpdateDid { user: key(1), owner: key(1) };
    assert_eq!(update_did(&mut reg, &ctx, None, None, None, 30), Ok(()));
    let rec = reg.record_of(&key(1)).unwrap();
    assert_eq!(rec.github, "g");
    assert_eq!(rec.updated_at, 30);
}

#[test]
fn update_with_wrong_owner_is_unauthorized() {
    let mut reg = registry();
    create(&mut reg, key(1), "alice", 10).unwrap();
    let ctx = UpdateDid { user: key(1), owner: key(9) };
    assert_eq!(
        update_did(&mut reg, &ctx, Some("evil".to_string()), Some("x".to_string()), Some("y".to_string()), 11),
        Err(ErrorCode::Unauthorized)
    );
    let rec = reg.record_of(&key(1)).unwrap();
    assert_eq!(rec.github, "g");
    assert_eq!(rec.twitter, "t");
    assert_eq!(rec.ipfs_hash, "QmHash");
    assert_eq!(rec.updated_at, 10);
}

#[test]
fn delete_with_wrong_owner_is_unauthorized() {
    let mut reg = registry();
    create(&mut reg, key(1), "alice", 10).unwrap();
    let ctx = DeleteDid { user: key(1), owner: key(9) };
    assert_eq!(delete_did(&mut reg, &ctx), Err(ErrorCode::Unauthorized));
    assert_eq!(reg.record_of(&key(1)).unwrap().username, "alice");
    assert_eq!(reg.len(), 1);
}

#[test]
fn update_without_record_is_not_found() {
    let mut reg = registry();
    let ctx = UpdateDid { user: key(3), owner: key(3) };
    assert_eq!(update_did(&mut reg, &ctx, None, None, None, 5), Err(ErrorCode::RecordNotFound));
}

#[test]
fn delete_is_final() {
    let mut reg = registry();
    create(&mut reg, key(1), "alice", 10).unwrap();
    let ctx = DeleteDid { user: key(1), owner: key(1) };
    assert_eq!(delete_did(&mut reg, &ctx), Ok(()));
    assert!(reg.record_of(&key(1)).is_none());
    assert_eq!(delete_did(&mut reg, &ctx), Err(ErrorCode::RecordNotFound));
    let up = UpdateDid { user: key(1), owner: key(1) };
    assert_eq!(update_did(&mut reg, &up, None, None, None, 11), Err(ErrorCode::RecordNotFound));
    assert_eq!(create(&mut reg, key(1), "alice2", 50), Ok(()));
    let rec = reg.record_of(&key(1)).unwrap();
    assert_eq!(rec.username, "alice2");
    assert_eq!(rec.created_at, 50);
    assert_eq!(rec.updated_at, 50);
}

#[test]
fn second_create_fails() {
    let mut reg = registry();
    create(&mut reg, key(1), "alice", 10).unwrap();
    let second = create_did(
        &mut reg,
        &CreateDid { user: key(1) },
        "bob".to_string(),
        "g9".to_string(),
        "t9".to_string(),
        "Qm9".to_string(),
        20,
    );
    assert_eq!(second, Err(ErrorCode::RecordAlreadyExists));
    let rec = reg.record_of(&key(1)).unwrap();
    assert_eq!(rec.username, "alice");
    assert_eq!(rec.github, "g");
    assert_eq!(rec.created_at, 10);
    assert_eq!(reg.len(), 1);
}

#[test]
fn owners_are_independent() {
    let mut reg = registry();
    create(&mut reg, key(1), "alice", 10).unwrap();
    create(&mut reg, key(2), "bob", 11).unwrap();
    assert_eq!(reg.len(), 2);
    delete_did(&mut reg, &DeleteDid { user: key(1), owner: key(1) }).unwrap();
    assert_eq!(reg.record_of(&key(2)).unwrap().username, "bob");
    assert_eq!(reg.len(), 1);
}

#[test]
fn create_update_delete_scenario() {
    let mut reg = registry();
    let a = key(1);
    let t: i64 = 1_700_000_000;
    create(&mut reg, a, "alice", t).unwrap();
    {
        let rec = reg.record_of(&a).unwrap();
        assert_eq!(rec.owner.bytes, a.bytes);
        assert_eq!(rec.username, "alice");
        assert_eq!(rec.github, "g");
        assert_eq!(rec.twitter, "t");
        assert_eq!(rec.ipfs_hash, "QmHash");
        assert_eq!(rec.created_at, t);
        assert_eq!(rec.updated_at, t);
    }
    let up = UpdateDid { user: a, owner: a };
    update_did(&mut reg, &up, Some("g2".to_string()), None, None, t + 5).unwrap();
    {
        let rec = reg.record_of(&a).unwrap();
        assert_eq!(rec.github, "g2");
        assert_eq!(rec.twitter, "t");
        assert_eq!(rec.ipfs_hash, "QmHash");
        assert_eq!(rec.created_at, t);
        assert_eq!(rec.updated_at, t + 5);
    }
    delete_did(&mut reg, &DeleteDid { user: a, owner: a }).unwrap();
    assert!(reg.record_of(&a).is_none());
}

#[test]
fn clock_check_follows_last_update() {
    let mut reg = registry();
    assert!(reg.admits_time(i64::MIN));
    create(&mut reg, key(1), "alice", 100).unwrap();
    assert!(reg.admits_time(100));
    assert!(!reg.admits_time(99));
}

#[test]
fn layout_constants() {
    assert_eq!(MAX_USERNAME_LEN, 32);
    assert_eq!(DID_ACCOUNT_SPACE, 361);
    assert_eq!(registry().program_id().bytes, PROGRAM);
}

#[test]
fn error_messages() {
    assert_eq!(ErrorCode::UsernameTooLong.message(), "Username cannot exceed 32 characters");
    assert_eq!(ErrorCode::UsernameEmpty.message(), "Username cannot be empty");
    assert_eq!(ErrorCode::Unauthorized.message(), "You are not authorized to perform this action");
}

#[test]
fn keys_compare_by_bytes() {
    assert!(key(1).same_as(&key(1)));
    let mut b = [1u8; 32];
    b[31] = 2;
    assert!(!key(1).same_as(&Key::new(b)));
}

#[test]
fn create_checks_field_capacities() {
    let mut reg = registry();
    let ctx = CreateDid { user: key(1) };
    let r = create_did(&mut reg, &ctx, "alice".to_string(), "g".repeat(65), "t".to_string(), "Qm".to_string(), 1);
    assert_eq!(r, Err(ErrorCode::GithubTooLong));
    let r = create_did(&mut reg, &ctx, "alice".to_string(), "g".to_string(), "t".repeat(65), "Qm".to_string(), 1);
    assert_eq!(r, Err(ErrorCode::TwitterTooLong));
    let r = create_did(&mut reg, &ctx, "alice".to_string(), "g".to_string(), "t".to_string(), "Q".repeat(129), 1);
    assert_eq!(r, Err(ErrorCode::IpfsHashTooLong));
    assert_eq!(reg.len(), 0);
    let r = create_did(&mut reg, &ctx, "alice".to_string(), "g".repeat(64), "t".repeat(64), "Q".repeat(128), 1);
    assert_eq!(r, Ok(()));
}

#[test]
fn update_checks_field_capacities() {
    let mut reg = registry();
    create(&mut reg, key(1), "alice", 10).unwrap();
    let ctx = UpdateDid { user: key(1), owner: key(1) };
    let r = update_did(&mut reg, &ctx, Some("g2".to_string()), None, Some("Q".repeat(129)), 11);
    assert_eq!(r, Err(ErrorCode::IpfsHashTooLong));
    let rec = reg.record_of(&key(1)).unwrap();
    assert_eq!(rec.github, "g");
    assert_eq!(rec.updated_at, 10);
    let bad_owner = UpdateDid { user: key(1), owner: key(2) };
    let r = update_did(&mut reg, &bad_owner, Some("g".repeat(65)), None, None, 11);
    assert_eq!(r, Err(ErrorCode::Unauthorized));
}
