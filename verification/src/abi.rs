use vstd::prelude::*;
use vstd::utf8::encode_utf8;
use crate::amounts::{be32_of, u256_from_be32, Uint256};
use crate::encode::{pad32, push_all, push_padded32, push_zeros, zeros};
use crate::hashing::{keccak256, keccak_of};
use crate::ids::{Address, OrderId};
use crate::signing::PermitSignature;

verus! {

/// The 4-byte method selector: the first four bytes of the Keccak-256 digest
/// of the method's canonical signature.
pub open spec fn selector_of(sig: Seq<u8>) -> Seq<u8> {
    keccak_of(sig).subrange(0, 4)
}

pub open spec fn approve_sig() -> Seq<u8> {
    encode_utf8("approve(address,uint256)"@)
}

pub open spec fn deposit_sig() -> Seq<u8> {
    encode_utf8("deposit(bytes32,uint256)"@)
}

pub open spec fn deposit_with_permit_sig() -> Seq<u8> {
    encode_utf8("depositWithPermit(bytes32,uint256,uint256,uint8,bytes32,bytes32)"@)
}

pub open spec fn withdraw_sig() -> Seq<u8> {
    encode_utf8("withdraw()"@)
}

pub open spec fn balance_of_sig() -> Seq<u8> {
    encode_utf8("balanceOf(address)"@)
}

pub open spec fn allowance_sig() -> Seq<u8> {
    encode_utf8("allowance(address,address)"@)
}

pub open spec fn nonces_sig() -> Seq<u8> {
    encode_utf8("nonces(address)"@)
}

pub open spec fn owner_sig() -> Seq<u8> {
    encode_utf8("owner()"@)
}

pub open spec fn usdc_token_sig() -> Seq<u8> {
    encode_utf8("usdcToken()"@)
}

pub open spec fn name_sig() -> Seq<u8> {
    encode_utf8("name()"@)
}

pub open spec fn version_sig() -> Seq<u8> {
    encode_utf8("version()"@)
}

pub open spec fn approve_calldata(spender: Seq<u8>, amount: Uint256) -> Seq<u8> {
    selector_of(approve_sig()) + pad32(spender) + be32_of(amount)
}

pub open spec fn deposit_calldata(order_id: Seq<u8>, amount: Uint256) -> Seq<u8> {
    selector_of(deposit_sig()) + order_id + be32_of(amount)
}

pub open spec fn deposit_with_permit_calldata(
    order_id: Seq<u8>,
    amount: Uint256,
    deadline: Uint256,
    v: u8,
    r: Seq<u8>,
    s: Seq<u8>,
) -> Seq<u8> {
    selector_of(deposit_with_permit_sig()) + order_id + be32_of(amount) + be32_of(deadline) + pad32(
        seq![v],
    ) + r + s
}

pub open spec fn withdraw_calldata() -> Seq<u8> {
    selector_of(withdraw_sig())
}

pub open spec fn balance_of_calldata(who: Seq<u8>) -> Seq<u8> {
    selector_of(balance_of_sig()) + pad32(who)
}

pub open spec fn allowance_calldata(owner: Seq<u8>, spender: Seq<u8>) -> Seq<u8> {
    selector_of(allowance_sig()) + pad32(owner) + pad32(spender)
}

pub open spec fn nonces_calldata(owner: Seq<u8>) -> Seq<u8> {
    selector_of(nonces_sig()) + pad32(owner)
}

fn push_selector(out: &mut Vec<u8>, sig: &[u8])
    ensures
        final(out)@ == old(out)@ + selector_of(sig@),
{
    let h = keccak256(sig);
    out.push(h[0]);
    out.push(h[1]);
    out.push(h[2]);
    out.push(h[3]);
    proof {
        assert(old(out)@ + seq![h@[0], h@[1], h@[2], h@[3]] =~= old(out)@ + selector_of(sig@));
        assert(out@ =~= old(out)@ + seq![h@[0], h@[1], h@[2], h@[3]]);
    }
}

/// Call data for `approve(spender, amount)` on the token contract.
pub fn encode_approve(spender: &Address, amount: &Uint256) -> (r: Vec<u8>)
    ensures
        r@ == approve_calldata(spender@, *amount),
{
    let mut out: Vec<u8> = Vec::new();
    push_selector(&mut out, "approve(address,uint256)".as_bytes());
    push_padded32(&mut out, spender.bytes.as_slice());
    let word = amount.to_be_bytes();
    push_all(&mut out, word.as_slice());
    proof {
        assert(out@ =~= approve_calldata(spender@, *amount));
    }
    out
}

/// Call data for `deposit(orderId, amount)` on the vault contract.
pub fn encode_deposit(order_id: &OrderId, amount: &Uint256) -> (r: Vec<u8>)
    ensures
        r@ == deposit_calldata(order_id@, *amount),
{
    let mut out: Vec<u8> = Vec::new();
    push_selector(&mut out, "deposit(bytes32,uint256)".as_bytes());
    push_all(&mut out, order_id.bytes.as_slice());
    let word = amount.to_be_bytes();
    push_all(&mut out, word.as_slice());
    proof {
        assert(out@ =~= deposit_calldata(order_id@, *amount));
    }
    out
}

/// Call data for `depositWithPermit(orderId, amount, deadline, v, r, s)` on
/// the vault contract.
pub fn encode_deposit_with_permit(
    order_id: &OrderId,
    amount: &Uint256,
    deadline: &Uint256,
    sig: &PermitSignature,
) -> (r: Vec<u8>)
    ensures
        r@ == deposit_with_permit_calldata(order_id@, *amount, *deadline, sig.v, sig.r@, sig.s@),
{
    let mut out: Vec<u8> = Vec::new();
    push_selector(
        &mut out,
        "depositWithPermit(bytes32,uint256,uint256,uint8,bytes32,bytes32)".as_bytes(),
    );
    push_all(&mut out, order_id.bytes.as_slice());
    let amount_word = amount.to_be_bytes();
    push_all(&mut out, amount_word.as_slice());
    let deadline_word = deadline.to_be_bytes();
    push_all(&mut out, deadline_word.as_slice());
    push_zeros(&mut out, 31);
    out.push(sig.v);
    push_all(&mut out, sig.r.as_slice());
    push_all(&mut out, sig.s.as_slice());
    proof {
        assert(zeros(31) + seq![sig.v] =~= pad32(seq![sig.v]));
        assert(out@ =~= deposit_with_permit_calldata(
            order_id@,
            *amount,
            *deadline,
            sig.v,
            sig.r@,
            sig.s@,
        ));
    }
    out
}

/// Call data for the owner-only, argument-less `withdraw()` on the vault.
pub fn encode_withdraw() -> (r: Vec<u8>)
    ensures
        r@ == withdraw_calldata(),
{
    let mut out: Vec<u8> = Vec::new();
    push_selector(&mut out, "withdraw()".as_bytes());
    out
}

/// Call data for the read-only `balanceOf(who)` on the token.
pub fn encode_balance_of(who: &Address) -> (r: Vec<u8>)
    ensures
        r@ == balance_of_calldata(who@),
{
    let mut out: Vec<u8> = Vec::new();
    push_selector(&mut out, "balanceOf(address)".as_bytes());
    push_padded32(&mut out, who.bytes.as_slice());
    out
}

/// Call data for the read-only `allowance(owner, spender)` on the token.
pub fn encode_allowance(owner: &Address, spender: &Address) -> (r: Vec<u8>)
    ensures
        r@ == allowance_calldata(owner@, spender@),
{
    let mut out: Vec<u8> = Vec::new();
    push_selector(&mut out, "allowance(address,address)".as_bytes());
    push_padded32(&mut out, owner.bytes.as_slice());
    push_padded32(&mut out, spender.bytes.as_slice());
    proof {
        assert(out@ =~= allowance_calldata(owner@, spender@));
    }
    out
}

/// Call data for the read-only `nonces(owner)` on the token.
pub fn encode_nonces(owner: &Address) -> (r: Vec<u8>)
    ensures
        r@ == nonces_calldata(owner@),
{
    let mut out: Vec<u8> = Vec::new();
    push_selector(&mut out, "nonces(address)".as_bytes());
    push_padded32(&mut out, owner.bytes.as_slice());
    out
}

/// Call data for the read-only, argument-less `owner()` on the vault.
pub fn encode_owner_call() -> (r: Vec<u8>)
    ensures
        r@ == selector_of(owner_sig()),
{
    let mut out: Vec<u8> = Vec::new();
    push_selector(&mut out, "owner()".as_bytes());
    out
}

/// Call data for the read-only, argument-less `usdcToken()` on the vault.
pub fn encode_usdc_token_call() -> (r: Vec<u8>)
    ensures
        r@ == selector_of(usdc_token_sig()),
{
    let mut out: Vec<u8> = Vec::new();
    push_selector(&mut out, "usdcToken()".as_bytes());
    out
}

/// Call data for the read-only, argument-less `name()` on the token.
pub fn encode_name_call() -> (r: Vec<u8>)
    ensures
        r@ == selector_of(name_sig()),
{
    let mut out: Vec<u8> = Vec::new();
    push_selector(&mut out, "name()".as_bytes());
    out
}

/// Call data for the read-only, argument-less `version()` on the token.
pub fn encode_version_call() -> (r: Vec<u8>)
    ensures
        r@ == selector_of(version_sig()),
{
    let mut out: Vec<u8> = Vec::new();
    push_selector(&mut out, "version()".as_bytes());
    out
}

/// Reads a returned 32-byte word as an unsigned 256-bit integer.
pub fn decode_uint256_reply(data: &[u8]) -> (r: Option<Uint256>)
    ensures
        r matches Some(w) ==> data@.len() == 32 && be32_of(w) == data@ && w == u256_from_be32(
            data@,
        ),
        r is None <==> data@.len() != 32,
{
    if data.len() == 32 {
        Some(Uint256::from_be_bytes(data))
    } else {
        None
    }
}

/// Reads a returned 32-byte word as a left-padded 20-byte address.
pub fn decode_address_reply(data: &[u8]) -> (r: Option<Address>)
    ensures
        r matches Some(a) ==> data@ == pad32(a@),
        r is None <==> !(data@.len() == 32 && data@.subrange(0, 12) == zeros(12)),
{
    if data.len() != 32 {
        return None;
    }
    let mut i: usize = 0;
    while i < 12
        invariant
            data@.len() == 32,
            i <= 12,
            forall|j: int| 0 <= j < i ==> data@[j] == 0u8,
        decreases 12 - i,
    {
        if data[i] != 0 {
            proof {
                assert(data@.subrange(0, 12)[i as int] != zeros(12)[i as int]);
            }
            return None;
        }
        i += 1;
    }
    let mut bytes = [0u8; 20];
    let mut k: usize = 0;
    while k < 20
        invariant
            data@.len() == 32,
            k <= 20,
            forall|j: int| 0 <= j < k ==> bytes@[j] == data@[12 + j],
        decreases 20 - k,
    {
        bytes[k] = data[12 + k];
        k += 1;
    }
    let a = Address { bytes };
    proof {
        assert(data@.subrange(0, 12) =~= zeros(12));
        assert(data@ =~= pad32(a@));
    }
    Some(a)
}

/// Whether a reply has the standard dynamic-string layout: one word holding
/// the offset 32, then one word holding a length that the following data can
/// cover.
pub open spec fn string_reply_well_formed(data: Seq<u8>) -> bool {
    &&& data.len() >= 64
    &&& u256_from_be32(data.subrange(0, 32)) == (Uint256 { hi: 0, lo: 32 })
    &&& {
        let len_word = u256_from_be32(data.subrange(32, 64));
        len_word.hi == 0 && len_word.lo <= data.len() - 64
    }
}

/// Reads a returned dynamic byte string laid out in the standard way: one
/// word holding the offset 32, one word holding the length, then the bytes
/// themselves padded up to a word boundary.
pub fn decode_string_reply(data: &[u8]) -> (r: Option<Vec<u8>>)
    ensures
        r is Some <==> string_reply_well_formed(data@),
        r matches Some(v) ==> {
            &&& data@.len() >= 64
            &&& data@.subrange(0, 32) == be32_of(Uint256 { hi: 0, lo: 32 })
            &&& be32_of(Uint256 { hi: 0, lo: v@.len() as u128 }) == data@.subrange(32, 64)
            &&& v@.len() == u256_from_be32(data@.subrange(32, 64)).lo
            &&& 64 + v@.len() <= data@.len()
            &&& v@ == data@.subrange(64, 64 + v@.len() as int)
        },
{
    if data.len() < 64 {
        return None;
    }
    let offset_word = Uint256::from_be_bytes(vstd::slice::slice_subrange(data, 0, 32));
    if !(offset_word.hi == 0 && offset_word.lo == 32) {
        return None;
    }
    let len_word = Uint256::from_be_bytes(vstd::slice::slice_subrange(data, 32, 64));
    if len_word.hi != 0 || len_word.lo > (data.len() - 64) as u128 {
        return None;
    }
    let n = len_word.lo as usize;
    let total = data.len();
    let mut out: Vec<u8> = Vec::new();
    let mut i: usize = 0;
    while i < n
        invariant
            total == data@.len(),
            64 + n <= total,
            i <= n,
            out@.len() == i,
            forall|j: int| 0 <= j < i ==> out@[j] == data@[64 + j],
        decreases n - i,
    {
        out.push(data[64 + i]);
        i += 1;
    }
    proof {
        assert(be32_of(Uint256 { hi: 0, lo: 32 }) =~= data@.subrange(0, 32));
        assert(be32_of(Uint256 { hi: 0, lo: n as u128 }) =~= data@.subrange(32, 64));
        assert(out@ =~= data@.subrange(64, 64 + out@.len() as int));
    }
    Some(out)
}

} // verus!
