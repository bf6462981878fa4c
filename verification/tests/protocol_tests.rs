use ledgerflow::amounts::Uint256;
use ledgerflow::errors::VaultError;
use ledgerflow::events::{DecodedEvent, RawLog, TransactionOutcome};
use ledgerflow::ids::{Address, Bytes32};
use ledgerflow::protocol::{
    start, step, ChainEvent, Operation, ProtocolAction, RunOutcome, SessionConfig,
};

fn addr(b: u8) -> Address {
    Address::from_bytes([b; 20])
}

fn order(b: u8) -> Bytes32 {
    Bytes32::from_bytes([b; 32])
}

// A valid secp256k1 secret scalar: any small nonzero value works.
fn test_key() -> Vec<u8> {
    let mut key = vec![0u8; 32];
    key[31] = 0x42;
    key
}

fn config() -> SessionConfig {
    SessionConfig { wallet: addr(0xAA), vault: addr(0xBB), signing_key: test_key() }
}

fn topic_hash(signature: &str) -> Bytes32 {
    let digest = alloy_primitives::keccak256(signature.as_bytes());
    let mut bytes = [0u8; 32];
    bytes.copy_from_slice(digest.as_slice());
    Bytes32::from_bytes(bytes)
}

fn padded_address_topic(a: &Address) -> Bytes32 {
    let mut bytes = [0u8; 32];
    bytes[12..].copy_from_slice(&a.bytes);
    Bytes32::from_bytes(bytes)
}

fn deposit_log(payer: &Address, order_id: &Bytes32, amount: u64) -> RawLog {
    RawLog {
        emitter: addr(0xCC),
        topics: vec![
            topic_hash("DepositReceived(address,bytes32,uint256)"),
            padded_address_topic(payer),
            *order_id,
        ],
        data: Uint256::from_u64(amount).to_be_bytes(),
    }
}

fn selector(signature: &str) -> [u8; 4] {
    let digest = alloy_primitives::keccak256(signature.as_bytes());
    let mut sel = [0u8; 4];
    sel.copy_from_slice(&digest.as_slice()[..4]);
    sel
}

fn expect_submit(action: ProtocolAction) -> (Address, Vec<u8>) {
    match action {
        ProtocolAction::SubmitTransaction { to, calldata } => (to, calldata),
        _ => panic!("expected a SubmitTransaction action"),
    }
}

fn expect_report(action: ProtocolAction) -> RunOutcome {
    match action {
        ProtocolAction::Report { outcome } => outcome,
        _ => panic!("expected a Report action"),
    }
}

#[test]
fn deposit_with_zero_allowance_approves_exactly_the_required_amount() {
    let order_id = order(7);
    let token = addr(0xDD);
    let (session, action) = start(
        config(),
        Operation::Deposit { order_id, amount: 1_000_000 },
    );
    assert!(matches!(action, ProtocolAction::QueryTokenAddress));

    let (session, action) = step(session, ChainEvent::TokenAddress { token });
    assert!(matches!(action, ProtocolAction::QueryDepositState { .. }));

    // Balance covers the deposit, allowance is zero: an approval comes first.
    let (session, action) = step(
        session,
        ChainEvent::DepositState {
            balance: Uint256::from_u64(2_000_000),
            allowance: Uint256::from_u64(0),
        },
    );
    let (to, calldata) = expect_submit(action);
    assert_eq!(to, token);
    assert_eq!(&calldata[..4], &selector("approve(address,uint256)"));
    // The spender is the vault, left-padded to one word.
    assert_eq!(&calldata[4..16], &[0u8; 12]);
    assert_eq!(&calldata[16..36], &config().vault.bytes);
    // The approval is for exactly the required amount, not unlimited.
    assert_eq!(&calldata[36..68], Uint256::from_u64(1_000_000).to_be_bytes().as_slice());
    assert_eq!(calldata.len(), 68);

    let (session, action) = step(session, ChainEvent::Submitted { error: None });
    assert!(matches!(action, ProtocolAction::WaitForReceipt));

    // Approval mined successfully: the deposit itself is submitted next.
    let approve_outcome = TransactionOutcome { hash: order(1), success: true, logs: vec![] };
    let (session, action) = step(session, ChainEvent::ReceiptReady { outcome: approve_outcome });
    let (to, calldata) = expect_submit(action);
    assert_eq!(to, config().vault);
    assert_eq!(&calldata[..4], &selector("deposit(bytes32,uint256)"));
    assert_eq!(&calldata[4..36], &order_id.bytes);
    assert_eq!(&calldata[36..68], Uint256::from_u64(1_000_000).to_be_bytes().as_slice());

    let (session, action) = step(session, ChainEvent::Submitted { error: None });
    assert!(matches!(action, ProtocolAction::WaitForReceipt));

    // The mined deposit carries one matching event plus a foreign log.
    let foreign = RawLog {
        emitter: addr(0xEE),
        topics: vec![topic_hash("Transfer(address,address,uint256)")],
        data: vec![0u8; 32],
    };
    let outcome = TransactionOutcome {
        hash: order(2),
        success: true,
        logs: vec![foreign, deposit_log(&addr(0xAA), &order_id, 1_000_000)],
    };
    let (_, action) = step(session, ChainEvent::ReceiptReady { outcome });
    match expect_report(action) {
        RunOutcome::Settled { settlement } => {
            assert_eq!(settlement.hash, order(2));
            assert_eq!(settlement.degraded, 0);
            assert_eq!(settlement.events.len(), 1);
            match &settlement.events[0] {
                DecodedEvent::DepositReceived { payer, order_id: oid, amount } => {
                    assert_eq!(*payer, addr(0xAA));
                    assert_eq!(*oid, order_id);
                    assert_eq!(*amount, Uint256::from_u64(1_000_000));
                }
                _ => panic!("expected a DepositReceived event"),
            }
        }
        _ => panic!("expected a settled outcome"),
    }
}

#[test]
fn deposit_with_enough_allowance_skips_approval() {
    let (session, _) = start(config(), Operation::Deposit { order_id: order(7), amount: 500 });
    let (session, _) = step(session, ChainEvent::TokenAddress { token: addr(0xDD) });
    let (_, action) = step(
        session,
        ChainEvent::DepositState {
            balance: Uint256::from_u64(1_000),
            allowance: Uint256::from_u64(500),
        },
    );
    let (to, calldata) = expect_submit(action);
    assert_eq!(to, config().vault);
    assert_eq!(&calldata[..4], &selector("deposit(bytes32,uint256)"));
}

#[test]
fn deposit_below_balance_fails_without_any_submission() {
    let (session, _) = start(config(), Operation::Deposit { order_id: order(9), amount: 1_000_000 });
    let (session, _) = step(session, ChainEvent::TokenAddress { token: addr(0xDD) });
    let (session, action) = step(
        session,
        ChainEvent::DepositState {
            balance: Uint256::from_u64(999_999),
            allowance: Uint256::from_u64(0),
        },
    );
    match expect_report(action) {
        RunOutcome::Failed { error: VaultError::InsufficientBalance { required, available } } => {
            assert_eq!(required, Uint256::from_u64(1_000_000));
            assert_eq!(available, Uint256::from_u64(999_999));
        }
        _ => panic!("expected InsufficientBalance"),
    }
    assert!(matches!(session.phase, ledgerflow::protocol::Phase::Finished));
}

#[test]
fn failed_approval_aborts_before_the_deposit() {
    let (session, _) = start(config(), Operation::Deposit { order_id: order(7), amount: 100 });
    let (session, _) = step(session, ChainEvent::TokenAddress { token: addr(0xDD) });
    let (session, _) = step(
        session,
        ChainEvent::DepositState {
            balance: Uint256::from_u64(100),
            allowance: Uint256::from_u64(0),
        },
    );
    let (session, _) = step(session, ChainEvent::Submitted { error: None });
    let reverted = TransactionOutcome { hash: order(1), success: false, logs: vec![] };
    let (_, action) = step(session, ChainEvent::ReceiptReady { outcome: reverted });
    match expect_report(action) {
        RunOutcome::Failed { error: VaultError::ApprovalFailed } => {}
        _ => panic!("expected ApprovalFailed"),
    }
}

#[test]
fn permit_deposit_submits_one_transaction_with_the_signature() {
    let order_id = order(5);
    let token = addr(0xDD);
    let (session, _) = start(
        config(),
        Operation::PermitDeposit { order_id, amount: 1_000_000, deadline: 2_000_000_000 },
    );
    let (session, _) = step(session, ChainEvent::TokenAddress { token });
    let (session, action) = step(
        session,
        ChainEvent::PermitState {
            balance: Uint256::from_u64(5_000_000),
            nonce: Uint256::from_u64(0),
            chain_id: 1,
            name: b"USD Coin".to_vec(),
            version: b"2".to_vec(),
        },
    );
    let (to, calldata) = expect_submit(action);
    assert_eq!(to, config().vault);
    assert_eq!(
        &calldata[..4],
        &selector("depositWithPermit(bytes32,uint256,uint256,uint8,bytes32,bytes32)")
    );
    assert_eq!(&calldata[4..36], &order_id.bytes);
    assert_eq!(&calldata[36..68], Uint256::from_u64(1_000_000).to_be_bytes().as_slice());
    assert_eq!(&calldata[68..100], Uint256::from_u64(2_000_000_000).to_be_bytes().as_slice());
    // One word holding v, then the r and s scalars.
    assert_eq!(&calldata[100..131], &[0u8; 31]);
    let v = calldata[131];
    assert!(v == 27 || v == 28);
    assert_eq!(calldata.len(), 196);

    // The signature must be the deterministic ECDSA signature over the
    // EIP-712 digest of the live domain and message.
    let domain = ledgerflow::eip712::PermitDomain {
        name: b"USD Coin".to_vec(),
        version: b"2".to_vec(),
        chain_id: 1,
        verifying_contract: token,
    };
    let message = ledgerflow::eip712::PermitMessage {
        owner: config().wallet,
        spender: config().vault,
        value: Uint256::from_u64(1_000_000),
        nonce: Uint256::from_u64(0),
        deadline: Uint256::from_u64(2_000_000_000),
    };
    let digest = ledgerflow::eip712::compute_permit_digest(&domain, &message);
    let signer = alloy_signer_local::PrivateKeySigner::from_slice(&test_key()).unwrap();
    let expected = alloy_signer::SignerSync::sign_hash_sync(
        &signer,
        &alloy_primitives::B256::from_slice(&digest),
    )
    .unwrap();
    let expected_v: u8 = if expected.v() { 28 } else { 27 };
    assert_eq!(v, expected_v);
    assert_eq!(&calldata[132..164], expected.r().to_be_bytes::<32>().as_slice());
    assert_eq!(&calldata[164..196], expected.s().to_be_bytes::<32>().as_slice());

    // No approval step on the permit path: the next event is the submission.
    let (session, action) = step(session, ChainEvent::Submitted { error: None });
    assert!(matches!(action, ProtocolAction::WaitForReceipt));
    let outcome = TransactionOutcome {
        hash: order(3),
        success: true,
        logs: vec![deposit_log(&addr(0xAA), &order_id, 1_000_000)],
    };
    let (_, action) = step(session, ChainEvent::ReceiptReady { outcome });
    match expect_report(action) {
        RunOutcome::Settled { settlement } => {
            assert_eq!(settlement.events.len(), 1);
        }
        _ => panic!("expected a settled outcome"),
    }
}

#[test]
fn withdraw_by_non_owner_fails_before_any_send() {
    let (session, _) = start(config(), Operation::Withdraw);
    let (session, _) = step(session, ChainEvent::TokenAddress { token: addr(0xDD) });
    let (session, action) = step(
        session,
        ChainEvent::WithdrawState { owner: addr(0x99), vault_balance: Uint256::from_u64(50) },
    );
    match expect_report(action) {
        RunOutcome::Failed { error: VaultError::Unauthorized { caller, owner } } => {
            assert_eq!(caller, addr(0xAA));
            assert_eq!(owner, addr(0x99));
        }
        _ => panic!("expected Unauthorized"),
    }
    assert!(matches!(session.phase, ledgerflow::protocol::Phase::Finished));
}

#[test]
fn duplicate_submission_is_reported_as_already_pending() {
    let (session, _) = start(config(), Operation::Withdraw);
    let (session, _) = step(session, ChainEvent::TokenAddress { token: addr(0xDD) });
    let (session, _) = step(
        session,
        ChainEvent::WithdrawState { owner: addr(0xAA), vault_balance: Uint256::from_u64(50) },
    );
    let message = b"server returned an error response: error code -32000: already known".to_vec();
    let (_, action) = step(session, ChainEvent::Submitted { error: Some(message) });
    match expect_report(action) {
        RunOutcome::AlreadyPending => {}
        _ => panic!("expected the idempotent AlreadyPending outcome"),
    }
}

#[test]
fn other_submission_errors_propagate() {
    let (session, _) = start(config(), Operation::Withdraw);
    let (session, _) = step(session, ChainEvent::TokenAddress { token: addr(0xDD) });
    let (session, _) = step(
        session,
        ChainEvent::WithdrawState { owner: addr(0xAA), vault_balance: Uint256::from_u64(50) },
    );
    let message = b"nonce too low".to_vec();
    let (_, action) = step(session, ChainEvent::Submitted { error: Some(message.clone()) });
    match expect_report(action) {
        RunOutcome::Failed { error: VaultError::SubmissionFailed { message: m } } => {
            assert_eq!(m, message);
        }
        _ => panic!("expected SubmissionFailed"),
    }
}

#[test]
fn reverted_main_transaction_is_terminal() {
    let order_id = order(7);
    let (session, _) = start(config(), Operation::Deposit { order_id, amount: 100 });
    let (session, _) = step(session, ChainEvent::TokenAddress { token: addr(0xDD) });
    let (session, _) = step(
        session,
        ChainEvent::DepositState {
            balance: Uint256::from_u64(100),
            allowance: Uint256::from_u64(100),
        },
    );
    let (session, _) = step(session, ChainEvent::Submitted { error: None });
    // Even a receipt carrying a well-formed matching event is a failure when
    // the status flag says the transaction reverted.
    let outcome = TransactionOutcome {
        hash: order(8),
        success: false,
        logs: vec![deposit_log(&addr(0xAA), &order_id, 100)],
    };
    let (_, action) = step(session, ChainEvent::ReceiptReady { outcome });
    match expect_report(action) {
        RunOutcome::Failed { error: VaultError::TransactionReverted { hash } } => {
            assert_eq!(hash, order(8));
        }
        _ => panic!("expected TransactionReverted"),
    }
}
