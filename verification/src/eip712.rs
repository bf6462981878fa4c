use vstd::prelude::*;
use vstd::utf8::encode_utf8;
use crate::amounts::{be32_of, lemma_be32_injective, u256_of_u64, Uint256};
use crate::encode::{pad32, push_all, push_padded32};
use crate::hashing::{keccak256, keccak_of};
use crate::ids::Address;

verus! {

/// The EIP-712 domain of the token contract's `permit`. The name and version
/// are the byte strings the token reports for itself; they must be fetched
/// live, not hard-coded, or the signature is silently rejected.
pub struct PermitDomain {
    pub name: Vec<u8>,
    pub version: Vec<u8>,
    pub chain_id: u64,
    pub verifying_contract: Address,
}

/// The permit struct that is signed: `owner` lets `spender` move `value`
/// tokens, valid while the owner's permit nonce is `nonce` and block time is
/// at most `deadline`.
pub struct PermitMessage {
    pub owner: Address,
    pub spender: Address,
    pub value: Uint256,
    pub nonce: Uint256,
    pub deadline: Uint256,
}

pub open spec fn domain_type_bytes() -> Seq<u8> {
    encode_utf8(
        "EIP712Domain(string name,string version,uint256 chainId,address verifyingContract)"@,
    )
}

pub open spec fn permit_type_bytes() -> Seq<u8> {
    encode_utf8(
        "Permit(address owner,address spender,uint256 value,uint256 nonce,uint256 deadline)"@,
    )
}

/// The bytes whose Keccak-256 digest is the domain separator: the domain
/// type hash, then the hashed name, hashed version, chain id and verifying
/// contract, one 32-byte word each.
pub open spec fn domain_preimage(d: PermitDomain) -> Seq<u8> {
    keccak_of(domain_type_bytes()) + keccak_of(d.name@) + keccak_of(d.version@) + be32_of(
        u256_of_u64(d.chain_id),
    ) + pad32(d.verifying_contract@)
}

pub open spec fn domain_separator_of(d: PermitDomain) -> Seq<u8> {
    keccak_of(domain_preimage(d))
}

/// The bytes whose Keccak-256 digest is the permit struct hash: the permit
/// type hash followed by the five message fields, one 32-byte word each.
pub open spec fn permit_struct_preimage(m: PermitMessage) -> Seq<u8> {
    keccak_of(permit_type_bytes()) + pad32(m.owner@) + pad32(m.spender@) + be32_of(m.value)
        + be32_of(m.nonce) + be32_of(m.deadline)
}

pub open spec fn permit_struct_hash(m: PermitMessage) -> Seq<u8> {
    keccak_of(permit_struct_preimage(m))
}

/// The final typed-data digest: `keccak256(0x19 0x01 || domainSeparator ||
/// structHash)`.
pub open spec fn permit_digest_of(d: PermitDomain, m: PermitMessage) -> Seq<u8> {
    keccak_of(seq![0x19u8, 0x01u8] + domain_separator_of(d) + permit_struct_hash(m))
}

/// Computes the EIP-712 domain separator of `d`.
pub fn compute_domain_separator(d: &PermitDomain) -> (r: Vec<u8>)
    ensures
        r@ == domain_separator_of(*d),
        r@.len() == 32,
{
    let type_hash = keccak256(
        "EIP712Domain(string name,string version,uint256 chainId,address verifyingContract)".as_bytes(),
    );
    let name_hash = keccak256(d.name.as_slice());
    let version_hash = keccak256(d.version.as_slice());
    let mut pre: Vec<u8> = Vec::new();
    push_all(&mut pre, type_hash.as_slice());
    push_all(&mut pre, name_hash.as_slice());
    push_all(&mut pre, version_hash.as_slice());
    let chain_word = Uint256::from_u64(d.chain_id).to_be_bytes();
    push_all(&mut pre, chain_word.as_slice());
    push_padded32(&mut pre, d.verifying_contract.bytes.as_slice());
    proof {
        assert(pre@ =~= domain_preimage(*d));
    }
    keccak256(pre.as_slice())
}

/// Computes the permit struct hash of `m`.
pub fn compute_struct_hash(m: &PermitMessage) -> (r: Vec<u8>)
    ensures
        r@ == permit_struct_hash(*m),
        r@.len() == 32,
{
    let type_hash = keccak256(
        "Permit(address owner,address spender,uint256 value,uint256 nonce,uint256 deadline)".as_bytes(),
    );
    let mut pre: Vec<u8> = Vec::new();
    push_all(&mut pre, type_hash.as_slice());
    push_padded32(&mut pre, m.owner.bytes.as_slice());
    push_padded32(&mut pre, m.spender.bytes.as_slice());
    let value_word = m.value.to_be_bytes();
    push_all(&mut pre, value_word.as_slice());
    let nonce_word = m.nonce.to_be_bytes();
    push_all(&mut pre, nonce_word.as_slice());
    let deadline_word = m.deadline.to_be_bytes();
    push_all(&mut pre, deadline_word.as_slice());
    proof {
        assert(pre@ =~= permit_struct_preimage(*m));
    }
    keccak256(pre.as_slice())
}

/// Computes the typed-data digest that is signed for a permit.
pub fn compute_permit_digest(d: &PermitDomain, m: &PermitMessage) -> (r: Vec<u8>)
    ensures
        r@ == permit_digest_of(*d, *m),
        r@.len() == 32,
{
    let separator = compute_domain_separator(d);
    let struct_hash = compute_struct_hash(m);
    let mut pre: Vec<u8> = Vec::new();
    pre.push(0x19u8);
    pre.push(0x01u8);
    push_all(&mut pre, separator.as_slice());
    push_all(&mut pre, struct_hash.as_slice());
    proof {
        assert(pre@ =~= seq![0x19u8, 0x01u8] + domain_separator_of(*d) + permit_struct_hash(*m));
    }
    keccak256(pre.as_slice())
}

proof fn lemma_pad32_injective(a: Seq<u8>, b: Seq<u8>)
    requires
        a.len() <= 32,
        a.len() == b.len(),
        pad32(a) == pad32(b),
    ensures
        a == b,
{
    assert forall|i: int| 0 <= i < a.len() implies a[i] == b[i] by {
        assert(pad32(a)[32 - a.len() + i] == a[i]);
        assert(pad32(b)[32 - b.len() + i] == b[i]);
    }
    assert(a =~= b);
}

/// Law: the permit struct encoding is injective — two permit messages with
/// the same encoded preimage agree on every field, so no two distinct
/// messages are ever signed under the same struct hash preimage.
pub proof fn lemma_permit_preimage_injective(m1: PermitMessage, m2: PermitMessage)
    requires
        keccak_of(permit_type_bytes()).len() == 32,
        permit_struct_preimage(m1) == permit_struct_preimage(m2),
    ensures
        m1.owner@ == m2.owner@,
        m1.spender@ == m2.spender@,
        m1.value == m2.value,
        m1.nonce == m2.nonce,
        m1.deadline == m2.deadline,
{
    vstd::bytes::lemma_auto_spec_u128_to_from_le_bytes();
    let p1 = permit_struct_preimage(m1);
    let p2 = permit_struct_preimage(m2);
    assert(pad32(m1.owner@) =~= p1.subrange(32, 64));
    assert(pad32(m2.owner@) =~= p2.subrange(32, 64));
    lemma_pad32_injective(m1.owner@, m2.owner@);
    assert(pad32(m1.spender@) =~= p1.subrange(64, 96));
    assert(pad32(m2.spender@) =~= p2.subrange(64, 96));
    lemma_pad32_injective(m1.spender@, m2.spender@);
    assert(be32_of(m1.value) =~= p1.subrange(96, 128));
    assert(be32_of(m2.value) =~= p2.subrange(96, 128));
    lemma_be32_injective(m1.value, m2.value);
    assert(be32_of(m1.nonce) =~= p1.subrange(128, 160));
    assert(be32_of(m2.nonce) =~= p2.subrange(128, 160));
    lemma_be32_injective(m1.nonce, m2.nonce);
    assert(be32_of(m1.deadline) =~= p1.subrange(160, 192));
    assert(be32_of(m2.deadline) =~= p2.subrange(160, 192));
    lemma_be32_injective(m1.deadline, m2.deadline);
}

/// Law: the domain encoding pins the chain and the verifying contract — two
/// domains with the same encoded preimage have the same chain id, the same
/// verifying contract, and the same hashed name and version, so a permit
/// signature cannot be replayed under a domain that differs in any of these.
pub proof fn lemma_domain_preimage_injective(d1: PermitDomain, d2: PermitDomain)
    requires
        keccak_of(domain_type_bytes()).len() == 32,
        keccak_of(d1.name@).len() == 32,
        keccak_of(d1.version@).len() == 32,
        keccak_of(d2.name@).len() == 32,
        keccak_of(d2.version@).len() == 32,
        domain_preimage(d1) == domain_preimage(d2),
    ensures
        keccak_of(d1.name@) == keccak_of(d2.name@),
        keccak_of(d1.version@) == keccak_of(d2.version@),
        d1.chain_id == d2.chain_id,
        d1.verifying_contract@ == d2.verifying_contract@,
{
    vstd::bytes::lemma_auto_spec_u128_to_from_le_bytes();
    let p1 = domain_preimage(d1);
    let p2 = domain_preimage(d2);
    assert(keccak_of(d1.name@) =~= p1.subrange(32, 64));
    assert(keccak_of(d2.name@) =~= p2.subrange(32, 64));
    assert(keccak_of(d1.version@) =~= p1.subrange(64, 96));
    assert(keccak_of(d2.version@) =~= p2.subrange(64, 96));
    assert(be32_of(u256_of_u64(d1.chain_id)) =~= p1.subrange(96, 128));
    assert(be32_of(u256_of_u64(d2.chain_id)) =~= p2.subrange(96, 128));
    lemma_be32_injective(u256_of_u64(d1.chain_id), u256_of_u64(d2.chain_id));
    assert(pad32(d1.verifying_contract@) =~= p1.subrange(128, 160));
    assert(pad32(d2.verifying_contract@) =~= p2.subrange(128, 160));
    lemma_pad32_injective(d1.verifying_contract@, d2.verifying_contract@);
}

} // verus!
