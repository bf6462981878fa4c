use vstd::prelude::*;
use crate::eip712::{compute_permit_digest, permit_digest_of, PermitDomain, PermitMessage};
use crate::errors::VaultError;

verus! {

/// Whether a byte string is accepted as a secp256k1 secret key: a function
/// of the bytes alone, decided by the outside signer crate.
pub uninterp spec fn secret_key_valid(key: Seq<u8>) -> bool;

/// The recoverable ECDSA signature over a 32-byte digest: the parity bit and
/// the 32-byte `r` and `s` scalars. Signing is deterministic (RFC 6979), so
/// the result is a function of the key and the digest alone.
pub uninterp spec fn ecdsa_signature_of(key: Seq<u8>, digest: Seq<u8>) -> (bool, Seq<u8>, Seq<u8>);

/// Whether signing a 32-byte digest with an accepted key succeeds. The
/// signer computes one deterministic RFC 6979 pass and rejects the
/// (cryptographically never observed) ephemeral values that would make a
/// scalar zero, so success, too, is a function of the key and the digest
/// alone.
pub uninterp spec fn ecdsa_sign_ok(key: Seq<u8>, digest: Seq<u8>) -> bool;

/// Relies on alloy_signer_local::PrivateKeySigner::from_slice, which accepts
/// a byte string as a secret key by the bytes alone, and on its
/// SignerSync::sign_hash_sync, whose single deterministic RFC 6979 pass over
/// a 32-byte digest makes both the outcome and the signature a function of
/// the key and the digest alone.
#[verifier::external_body]
fn sign_digest(key: &[u8], digest: &[u8]) -> (res: Result<(bool, Vec<u8>, Vec<u8>), VaultError>)
    requires
        digest@.len() == 32,
    ensures
        res is Ok <==> (secret_key_valid(key@) && ecdsa_sign_ok(key@, digest@)),
        res matches Ok((parity, r, s)) ==> (parity, r@, s@) == ecdsa_signature_of(key@, digest@)
            && r@.len() == 32 && s@.len() == 32,
        res matches Err(e) ==> e is SigningError,
{
    let signer = match alloy_signer_local::PrivateKeySigner::from_slice(key) {
        Ok(s) => s,
        Err(_) => return Err(VaultError::SigningError),
    };
    let hash = alloy_primitives::B256::from_slice(digest);
    match alloy_signer::SignerSync::sign_hash_sync(&signer, &hash) {
        Ok(sig) => Ok(
            (sig.v(), sig.r().to_be_bytes::<32>().to_vec(), sig.s().to_be_bytes::<32>().to_vec()),
        ),
        Err(_) => Err(VaultError::SigningError),
    }
}

/// A recoverable signature split into its components, with the recovery id
/// normalized to the 27/28 convention the vault contract expects.
pub struct PermitSignature {
    pub v: u8,
    pub r: Vec<u8>,
    pub s: Vec<u8>,
}

impl PermitSignature {
    pub open spec fn wf(&self) -> bool {
        &&& (self.v == 27 || self.v == 28)
        &&& self.r@.len() == 32
        &&& self.s@.len() == 32
    }
}

/// What `sign_permit` returns when it succeeds: the ECDSA signature over the
/// typed-data digest of the domain and message, with the parity bit mapped
/// to 27 or 28.
pub open spec fn permit_signature_of(key: Seq<u8>, d: PermitDomain, m: PermitMessage) -> (
    u8,
    Seq<u8>,
    Seq<u8>,
) {
    let (parity, r, s) = ecdsa_signature_of(key, permit_digest_of(d, m));
    (
        if parity {
            28u8
        } else {
            27u8
        },
        r,
        s,
    )
}

/// Builds the EIP-712 digest for (domain, message) and signs it with `key`.
/// Signing is pure and local: it is deterministic in its inputs and touches
/// no chain state. It succeeds exactly when the signer accepts the key
/// material and its one deterministic signing pass goes through; it never
/// fails because of chain state.
pub fn sign_permit(key: &Vec<u8>, domain: &PermitDomain, message: &PermitMessage) -> (res: Result<
    PermitSignature,
    VaultError,
>)
    ensures
        res is Ok <==> secret_key_valid(key@) && ecdsa_sign_ok(
            key@,
            permit_digest_of(*domain, *message),
        ),
        res matches Ok(sig) ==> sig.wf() && (sig.v, sig.r@, sig.s@) == permit_signature_of(
            key@,
            *domain,
            *message,
        ),
        res matches Err(e) ==> e is SigningError,
{
    let digest = compute_permit_digest(domain, message);
    match sign_digest(key.as_slice(), digest.as_slice()) {
        Ok((parity, r, s)) => {
            let v: u8 = if parity {
                28
            } else {
                27
            };
            Ok(PermitSignature { v, r, s })
        },
        Err(e) => Err(e),
    }
}

} // verus!
