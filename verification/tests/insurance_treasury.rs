use lumina_vesting::account::{AccountId, AddressKind};
use lumina_vesting::insurance::{
    self, BailoutRequest, TreasuryStorage, DEFAULT_BAILOUT_TIMELOCK,
};

fn addr(b: u8) -> AccountId {
    AccountId { kind: AddressKind::Account, key: [b; 32] }
}

#[test]
fn test_test_initialize() {
    let mut s = TreasuryStorage::new();
    let admin = addr(1);
    let council = vec![addr(2), addr(3), addr(4), addr(5)];
    let usdc = addr(6);
    let xlm = addr(7);
    insurance::set_admin(&mut s, &admin);
    insurance::set_security_council(&mut s, council.clone());
    insurance::set_supported_assets(&mut s, vec![usdc, xlm]);
    insurance::set_is_initialized(&mut s, true);
    assert_eq!(insurance::get_admin(&s).key, admin.key);
    let stored = insurance::get_security_council(&s);
    assert_eq!(stored.len(), council.len());
    for (a, b) in stored.iter().zip(council.iter()) {
        assert_eq!(a.key, b.key);
    }
    let assets = insurance::get_supported_assets(&s);
    assert_eq!(assets.len(), 2);
    assert_eq!(assets[0].key, usdc.key);
    assert_eq!(assets[1].key, xlm.key);
    assert!(insurance::is_initialized(&s));
}

#[test]
fn test_timelock() {
    let mut s = TreasuryStorage::new();
    assert_eq!(insurance::get_timelock_duration(&s), DEFAULT_BAILOUT_TIMELOCK);
    assert_eq!(DEFAULT_BAILOUT_TIMELOCK, 14 * 24 * 60 * 60);
    insurance::set_timelock_duration(&mut s, 3600);
    assert_eq!(insurance::get_timelock_duration(&s), 3600);
}

#[test]
fn test_multi_sig() {
    let mut s = TreasuryStorage::new();
    let signers = vec![addr(2), addr(3), addr(4), addr(5), addr(6)];
    let request = BailoutRequest {
        id: 0,
        beneficiary: addr(9),
        asset: addr(6),
        amount: 100,
        requested_at: 10,
        signatures: signers,
        executed: false,
    };
    insurance::set_bailout_request(&mut s, 0, request);
    let stored = insurance::get_bailout_request(&s, 0);
    assert_eq!(stored.signatures.len(), 5);
    assert_eq!(stored.amount, 100);
    assert!(!stored.executed);
}

#[test]
fn defaults_when_nothing_stored() {
    let s = TreasuryStorage::new();
    assert!(!insurance::is_initialized(&s));
    assert_eq!(insurance::get_balance(&s, &addr(6)), 0);
    assert_eq!(insurance::get_next_request_id(&s), 0);
    assert!(insurance::get_security_council(&s).is_empty());
    assert!(insurance::get_authorized_adapters(&s).is_empty());
}

#[test]
fn balances_are_kept_per_asset() {
    let mut s = TreasuryStorage::new();
    insurance::set_balance(&mut s, &addr(6), 1000);
    insurance::set_balance(&mut s, &addr(7), 5);
    insurance::set_balance(&mut s, &addr(6), 1500);
    assert_eq!(insurance::get_balance(&s, &addr(6)), 1500);
    assert_eq!(insurance::get_balance(&s, &addr(7)), 5);
    insurance::set_next_request_id(&mut s, 4);
    assert_eq!(insurance::get_next_request_id(&s), 4);
}

#[test]
fn error_codes_are_stable() {
    assert_eq!(insurance::Error::UnauthorizedDeposit.code(), 1);
    assert_eq!(insurance::Error::InsufficientSignatures.code(), 7);
}
