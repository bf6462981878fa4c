use ledgerflow::abi::encode_withdraw;
use ledgerflow::amounts::Uint256;
use ledgerflow::eip712::{
    compute_domain_separator, compute_permit_digest, compute_struct_hash, PermitDomain,
    PermitMessage,
};
use ledgerflow::errors::VaultError;
use ledgerflow::ids::Address;
use ledgerflow::signing::sign_permit;
use ledgerflow::submission::{find_bytes, is_duplicate_submission};

fn addr(b: u8) -> Address {
    Address::from_bytes([b; 20])
}

fn domain() -> PermitDomain {
    PermitDomain {
        name: b"USD Coin".to_vec(),
        version: b"2".to_vec(),
        chain_id: 1,
        verifying_contract: addr(0x77),
    }
}

fn message() -> PermitMessage {
    PermitMessage {
        owner: addr(0xAA),
        spender: addr(0xBB),
        value: Uint256::from_u64(1_000_000),
        nonce: Uint256::from_u64(3),
        deadline: Uint256::from_u64(1_900_000_000),
    }
}

fn valid_key() -> Vec<u8> {
    let mut key = vec![0u8; 32];
    key[31] = 0x42;
    key
}

#[test]
fn domain_separator_matches_the_standard_hash() {
    // Recompute the separator independently, word by word.
    let type_hash = alloy_primitives::keccak256(
        "EIP712Domain(string name,string version,uint256 chainId,address verifyingContract)"
            .as_bytes(),
    );
    let mut preimage = Vec::new();
    preimage.extend_from_slice(type_hash.as_slice());
    preimage.extend_from_slice(alloy_primitives::keccak256(b"USD Coin").as_slice());
    preimage.extend_from_slice(alloy_primitives::keccak256(b"2").as_slice());
    preimage.extend_from_slice(&Uint256::from_u64(1).to_be_bytes());
    preimage.extend_from_slice(&[0u8; 12]);
    preimage.extend_from_slice(&[0x77u8; 20]);
    let expected = alloy_primitives::keccak256(&preimage);

    let separator = compute_domain_separator(&domain());
    assert_eq!(separator.as_slice(), expected.as_slice());
}

#[test]
fn permit_digest_follows_the_typed_data_formula() {
    let separator = compute_domain_separator(&domain());
    let struct_hash = compute_struct_hash(&message());
    let mut preimage = vec![0x19u8, 0x01u8];
    preimage.extend_from_slice(&separator);
    preimage.extend_from_slice(&struct_hash);
    let expected = alloy_primitives::keccak256(&preimage);

    let digest = compute_permit_digest(&domain(), &message());
    assert_eq!(digest.as_slice(), expected.as_slice());
}

#[test]
fn permit_signing_is_deterministic() {
    let first = sign_permit(&valid_key(), &domain(), &message()).unwrap();
    let second = sign_permit(&valid_key(), &domain(), &message()).unwrap();
    assert_eq!(first.v, second.v);
    assert_eq!(first.r, second.r);
    assert_eq!(first.s, second.s);
    assert!(first.v == 27 || first.v == 28);
    assert_eq!(first.r.len(), 32);
    assert_eq!(first.s.len(), 32);
}

#[test]
fn changing_any_field_changes_the_digest() {
    let base = compute_permit_digest(&domain(), &message());

    let mut other_value = message();
    other_value.value = Uint256::from_u64(1_000_001);
    assert_ne!(base, compute_permit_digest(&domain(), &other_value));

    let mut other_nonce = message();
    other_nonce.nonce = Uint256::from_u64(4);
    assert_ne!(base, compute_permit_digest(&domain(), &other_nonce));

    let mut other_deadline = message();
    other_deadline.deadline = Uint256::from_u64(1);
    assert_ne!(base, compute_permit_digest(&domain(), &other_deadline));

    let mut other_owner = message();
    other_owner.owner = addr(0x01);
    assert_ne!(base, compute_permit_digest(&domain(), &other_owner));

    let mut other_spender = message();
    other_spender.spender = addr(0x02);
    assert_ne!(base, compute_permit_digest(&domain(), &other_spender));

    let mut other_chain = domain();
    other_chain.chain_id = 5;
    assert_ne!(base, compute_permit_digest(&other_chain, &message()));

    let mut other_contract = domain();
    other_contract.verifying_contract = addr(0x03);
    assert_ne!(base, compute_permit_digest(&other_contract, &message()));

    let mut other_name = domain();
    other_name.name = b"Other Coin".to_vec();
    assert_ne!(base, compute_permit_digest(&other_name, &message()));

    let mut other_version = domain();
    other_version.version = b"3".to_vec();
    assert_ne!(base, compute_permit_digest(&other_version, &message()));
}

#[test]
fn signing_rejects_invalid_key_material() {
    // The zero scalar is not a valid secp256k1 secret key.
    match sign_permit(&vec![0u8; 32], &domain(), &message()) {
        Err(VaultError::SigningError) => {}
        _ => panic!("expected SigningError"),
    }
}

#[test]
fn withdraw_selector_comes_from_keccak() {
    let calldata = encode_withdraw();
    let digest = alloy_primitives::keccak256(b"withdraw()");
    assert_eq!(calldata.as_slice(), &digest.as_slice()[..4]);
}

#[test]
fn duplicate_marker_is_found_by_substring() {
    assert!(is_duplicate_submission(b"already known"));
    assert!(is_duplicate_submission(b"rpc error: tx already known in pool"));
    assert!(!is_duplicate_submission(b"already kno"));
    assert!(!is_duplicate_submission(b""));
    assert!(!is_duplicate_submission(b"nonce too low"));

    assert!(find_bytes(b"abc", b""));
    assert!(find_bytes(b"abcabd", b"abd"));
    assert!(!find_bytes(b"ab", b"abc"));
}
