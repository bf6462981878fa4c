use ledgerflow::amounts::Uint256;
use ledgerflow::checker::{check_deposit, check_withdraw};
use ledgerflow::errors::VaultError;
use ledgerflow::ids::Address;

fn addr(b: u8) -> Address {
    Address::from_bytes([b; 20])
}

#[test]
fn needs_approval_iff_allowance_below_required() {
    let balance = Uint256::from_u64(2_000_000);
    let required = Uint256::from_u64(1_000_000);

    let low = check_deposit(balance, Uint256::from_u64(0), required).unwrap();
    assert!(low.needs_approval);

    let just_below = check_deposit(balance, Uint256::from_u64(999_999), required).unwrap();
    assert!(just_below.needs_approval);

    let exact = check_deposit(balance, Uint256::from_u64(1_000_000), required).unwrap();
    assert!(!exact.needs_approval);

    let above = check_deposit(balance, Uint256::from_u64(1_500_000), required).unwrap();
    assert!(!above.needs_approval);
}

#[test]
fn insufficient_balance_carries_required_and_available() {
    let balance = Uint256::from_u64(999_999);
    let allowance = Uint256::from_u64(5_000_000);
    let required = Uint256::from_u64(1_000_000);
    match check_deposit(balance, allowance, required) {
        Err(VaultError::InsufficientBalance { required: rq, available: av }) => {
            assert_eq!(rq, required);
            assert_eq!(av, balance);
        }
        other => panic!("expected InsufficientBalance, got {:?}", other.is_ok()),
    }
}

#[test]
fn deposit_check_passes_on_exact_balance() {
    let balance = Uint256::from_u64(1_000_000);
    let required = Uint256::from_u64(1_000_000);
    let check = check_deposit(balance, Uint256::from_u64(0), required).unwrap();
    assert_eq!(check.balance, balance);
    assert!(check.needs_approval);
}

#[test]
fn withdraw_by_non_owner_is_unauthorized() {
    let caller = addr(1);
    let owner = addr(2);
    match check_withdraw(&caller, &owner, Uint256::from_u64(10)) {
        Err(VaultError::Unauthorized { caller: c, owner: o }) => {
            assert_eq!(c, caller);
            assert_eq!(o, owner);
        }
        other => panic!("expected Unauthorized, got {:?}", other.is_ok()),
    }
}

#[test]
fn withdraw_from_empty_vault_is_no_funds() {
    let caller = addr(3);
    match check_withdraw(&caller, &caller, Uint256::zero()) {
        Err(VaultError::NoFundsAvailable) => {}
        other => panic!("expected NoFundsAvailable, got {:?}", other.is_ok()),
    }
}

#[test]
fn withdraw_by_owner_with_funds_passes() {
    let caller = addr(4);
    let check = check_withdraw(&caller, &caller, Uint256::from_u64(7)).unwrap();
    assert_eq!(check.contract_balance, Uint256::from_u64(7));
}

#[test]
fn uint256_order_spans_both_halves() {
    let small = Uint256::new(0, u128::MAX);
    let big = Uint256::new(1, 0);
    assert!(small.lt(&big));
    assert!(!big.lt(&small));
    assert!(!small.lt(&small));
    assert!(Uint256::zero().is_zero());
    assert!(!Uint256::from_u64(1).is_zero());
}

#[test]
fn uint256_big_endian_bytes_are_exact() {
    let amount = Uint256::from_u64(1_000_000);
    let bytes = amount.to_be_bytes();
    assert_eq!(bytes.len(), 32);
    assert_eq!(&bytes[..29], &[0u8; 29]);
    assert_eq!(&bytes[29..], &[0x0F, 0x42, 0x40]);

    let round = Uint256::from_be_bytes(&bytes);
    assert_eq!(round, amount);

    let wide = Uint256::new(5, 7);
    let wide_bytes = wide.to_be_bytes();
    assert_eq!(wide_bytes[15], 5);
    assert_eq!(wide_bytes[31], 7);
    assert_eq!(Uint256::from_be_bytes(&wide_bytes), wide);
}
