use lumina_vesting::account::{AccountId, AddressKind, Bytes32};
use lumina_vesting::vault::VestingVault;
use lumina_vesting::vault_errors::Error;
use lumina_vesting::vault_sunset::{
    SNAPSHOT_CLAIMED_AMOUNT, SNAPSHOT_END_TIME, SNAPSHOT_REMAINING_AMOUNT, SNAPSHOT_START_TIME,
    SNAPSHOT_TOTAL_AMOUNT,
};
use soroban_sdk::testutils::Address as _;
use soroban_sdk::xdr::{ContractId, PublicKey, ScAddress, Uint256};
use soroban_sdk::{Address, Env};

/// The library's plain form of a host address.
fn account_of(address: &Address) -> AccountId {
    match ScAddress::from(address) {
        ScAddress::Contract(ContractId(soroban_sdk::xdr::Hash(key))) => AccountId { kind: AddressKind::Contract, key },
        ScAddress::Account(soroban_sdk::xdr::AccountId(PublicKey::PublicKeyTypeEd25519(Uint256(key)))) => {
            AccountId { kind: AddressKind::Account, key }
        }
        other => panic!("unexpected address kind: {:?}", other),
    }
}

fn same_account(a: &AccountId, b: &AccountId) -> bool {
    a.kind == b.kind && a.key == b.key
}

/// The timestamp of a fresh test ledger.
const START: u64 = 0;

#[test]
fn test_protocol_sunset_initiation() {
    let env = Env::default();
    let admin = account_of(&Address::generate(&env));
    let migration_target = account_of(&Address::generate(&env));
    let mut vault = VestingVault::new();

    vault.prepare_protocol_sunset(&admin, &migration_target, START).unwrap();

    let sunset_status = vault.get_protocol_sunset_status();
    assert!(sunset_status.is_some());
    let sunset = sunset_status.unwrap();
    assert!(sunset.is_initiated);
    assert!(!sunset.is_aborted);
    assert!(sunset.new_schedules_halted);
    assert!(same_account(&sunset.migration_target, &migration_target));
}

#[test]
fn test_sunset_abort_before_timelock() {
    let env = Env::default();
    let admin = account_of(&Address::generate(&env));
    let migration_target = account_of(&Address::generate(&env));
    let mut vault = VestingVault::new();

    vault.prepare_protocol_sunset(&admin, &migration_target, START).unwrap();
    vault.abort_protocol_sunset(&admin, START).unwrap();

    let sunset_status = vault.get_protocol_sunset_status();
    assert!(sunset_status.is_some());
    let sunset = sunset_status.unwrap();
    assert!(sunset.is_aborted);
    assert!(!sunset.new_schedules_halted);
}

#[test]
fn test_state_payload_export() {
    let env = Env::default();
    let admin = account_of(&Address::generate(&env));
    let user = account_of(&Address::generate(&env));
    let migration_target = account_of(&Address::generate(&env));
    let vesting_id = 1u32;
    let mut vault = VestingVault::new();

    vault.prepare_protocol_sunset(&admin, &migration_target, START).unwrap();

    let payload_hash = vault.export_state_payload(&env, &user, vesting_id, START).unwrap();

    let payload = vault.get_migration_payload(&user, vesting_id);
    assert!(payload.is_some());
    let payload_data = payload.unwrap();
    assert!(same_account(&payload_data.beneficiary, &user));
    assert_eq!(payload_data.vesting_id, vesting_id);
    assert_eq!(payload_data.payload_hash.bytes, payload_hash.bytes);
}

#[test]
fn test_relayer_migration() {
    let env = Env::default();
    let admin = account_of(&Address::generate(&env));
    let user = account_of(&Address::generate(&env));
    let relayer = account_of(&Address::generate(&env));
    let migration_target = account_of(&Address::generate(&env));
    let vesting_id = 1u32;
    let mut vault = VestingVault::new();

    vault.prepare_protocol_sunset(&admin, &migration_target, START).unwrap();
    let payload_hash = vault.export_state_payload(&env, &user, vesting_id, START).unwrap();

    // Past the 30-day timelock.
    let now = 3_000_000;
    vault.relayer_migrate_account(&relayer, &user, vesting_id, &payload_hash, now).unwrap();

    assert!(vault.is_account_migrated(&user, vesting_id));
}

#[test]
fn test_migration_security() {
    let env = Env::default();
    let admin = account_of(&Address::generate(&env));
    let user = account_of(&Address::generate(&env));
    let migration_target = account_of(&Address::generate(&env));
    let vesting_id = 1u32;
    let mut vault = VestingVault::new();

    vault.prepare_protocol_sunset(&admin, &migration_target, START).unwrap();
    let _legitimate_hash = vault.export_state_payload(&env, &user, vesting_id, START).unwrap();

    let tampered_hash = Bytes32 { bytes: [1u8; 32] };
    let relayer = account_of(&Address::generate(&env));

    let now = 3_000_000;
    let result = vault.relayer_migrate_account(&relayer, &user, vesting_id, &tampered_hash, now);
    assert!(result.is_err());
}

#[test]
fn test_export_fails_without_sunset() {
    let env = Env::default();
    let user = account_of(&Address::generate(&env));
    let vesting_id = 1u32;
    let mut vault = VestingVault::new();

    let result = vault.export_state_payload(&env, &user, vesting_id, START);
    assert!(result.is_err());
}

#[test]
fn snapshot_reports_the_fixed_schedule_figures() {
    let env = Env::default();
    let admin = account_of(&Address::generate(&env));
    let user = account_of(&Address::generate(&env));
    let mut vault = VestingVault::new();
    vault.prepare_protocol_sunset(&admin, &admin, 100).unwrap();
    vault.export_state_payload(&env, &user, 9, 150).unwrap();
    let p = vault.get_migration_payload(&user, 9).unwrap();
    assert_eq!(p.total_amount, SNAPSHOT_TOTAL_AMOUNT);
    assert_eq!(p.claimed_amount, SNAPSHOT_CLAIMED_AMOUNT);
    assert_eq!(p.remaining_amount, SNAPSHOT_REMAINING_AMOUNT);
    assert_eq!(p.total_amount - p.claimed_amount, p.remaining_amount);
    assert_eq!(p.start_time, SNAPSHOT_START_TIME);
    assert_eq!(p.end_time, SNAPSHOT_END_TIME);
    assert_eq!(p.exported_at, 150);
}

#[test]
fn snapshot_hash_depends_on_account_and_schedule() {
    let env = Env::default();
    let admin = account_of(&Address::generate(&env));
    let user = account_of(&Address::generate(&env));
    let other = account_of(&Address::generate(&env));
    let mut vault = VestingVault::new();
    vault.prepare_protocol_sunset(&admin, &admin, 0).unwrap();
    let h1 = vault.export_state_payload(&env, &user, 1, 0).unwrap();
    let h1_again = vault.export_state_payload(&env, &user, 1, 5).unwrap();
    let h2 = vault.export_state_payload(&env, &user, 2, 0).unwrap();
    let h3 = vault.export_state_payload(&env, &other, 1, 0).unwrap();
    assert_eq!(h1.bytes, h1_again.bytes);
    assert_ne!(h1.bytes, h2.bytes);
    assert_ne!(h1.bytes, h3.bytes);
    assert_ne!(h1.bytes, [0u8; 32]);
    assert_ne!(h1.bytes, user.key);
}

#[test]
fn migration_waits_for_the_timelock_and_happens_once() {
    let env = Env::default();
    let admin = account_of(&Address::generate(&env));
    let user = account_of(&Address::generate(&env));
    let relayer = account_of(&Address::generate(&env));
    let mut vault = VestingVault::new();
    vault.prepare_protocol_sunset(&admin, &admin, 1_000).unwrap();
    let effective_at = vault.get_protocol_sunset_status().unwrap().effective_at;
    assert_eq!(effective_at, 1_000 + 30 * 24 * 60 * 60);
    let hash = vault.export_state_payload(&env, &user, 4, 1_000).unwrap();
    assert_eq!(
        vault.relayer_migrate_account(&relayer, &user, 4, &hash, effective_at - 1),
        Err(Error::InvalidInput)
    );
    assert!(!vault.is_account_migrated(&user, 4));
    vault.relayer_migrate_account(&relayer, &user, 4, &hash, effective_at).unwrap();
    assert!(vault.is_account_migrated(&user, 4));
    assert_eq!(
        vault.relayer_migrate_account(&relayer, &user, 4, &hash, effective_at + 1),
        Err(Error::InvalidInput)
    );
}

#[test]
fn sunset_cannot_be_aborted_once_effective_or_started_twice() {
    let admin = AccountId { kind: AddressKind::Account, key: [3u8; 32] };
    let mut vault = VestingVault::new();
    assert_eq!(vault.abort_protocol_sunset(&admin, 0), Err(Error::InvalidInput));
    vault.prepare_protocol_sunset(&admin, &admin, 0).unwrap();
    assert_eq!(vault.prepare_protocol_sunset(&admin, &admin, 10), Err(Error::InvalidInput));
    let effective_at = vault.get_protocol_sunset_status().unwrap().effective_at;
    assert_eq!(vault.abort_protocol_sunset(&admin, effective_at), Err(Error::InvalidInput));
    vault.abort_protocol_sunset(&admin, effective_at - 1).unwrap();
    // After an abort a new sunset may be prepared.
    vault.prepare_protocol_sunset(&admin, &admin, effective_at).unwrap();
    assert!(!vault.get_protocol_sunset_status().unwrap().is_aborted);
}
