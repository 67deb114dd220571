//! ECDSA signatures over secp256k1: a message is signed by signing the
//! SHA-256 digest of its UTF-8 bytes. Keys and signatures are handled as
//! bytes: a secret key as its 32 bytes, a public key in its 33-byte
//! compressed form, a signature in its 64-byte compact form.
use vstd::prelude::*;
use vstd::utf8::encode_utf8;
use crate::error::GovernanceError;
use crate::hashing::{sha256, sha256_of};

verus! {

/// The value of bytes read as an unsigned number, most significant byte first.
pub open spec fn big_endian_value(b: Seq<u8>) -> nat
    decreases b.len(),
{
    if b.len() == 0 {
        0
    } else {
        big_endian_value(b.drop_last()) * 256 + b.last() as nat
    }
}

/// The order of the secp256k1 group.
pub open spec fn curve_order() -> nat {
    0xFFFF_FFFF_FFFF_FFFF_FFFF_FFFF_FFFF_FFFE_BAAE_DCE6_AF48_A03B_BFD2_5E8C_D036_4141nat
}

/// Whether bytes are a valid secret key (`SecretKey::from_slice` accepts
/// them): 32 bytes whose value, most significant byte first, is neither zero
/// nor at or above the group order.
pub open spec fn secret_key_accepted(secret: Seq<u8>) -> bool {
    &&& secret.len() == 32
    &&& 0 < big_endian_value(secret)
    &&& big_endian_value(secret) < curve_order()
}

/// The compressed public key of a secret key.
pub uninterp spec fn public_key_of(secret: Seq<u8>) -> Seq<u8>;

/// The compact ECDSA signature of a 32-byte digest under a secret key.
pub uninterp spec fn ecdsa_signature_of(digest: Seq<u8>, secret: Seq<u8>) -> Seq<u8>;

/// Whether a compact signature and a public key both decode and the
/// signature is valid for the digest under the key.
pub uninterp spec fn ecdsa_verifies(digest: Seq<u8>, signature: Seq<u8>, public_key: Seq<u8>) -> bool;

/// `SecretKey::from_slice`: whether the bytes are a valid secret key. It
/// accepts exactly 32 bytes that `secp256k1_ec_seckey_verify` accepts, whose
/// documentation says: not zero and less than the curve order when read
/// most significant byte first.
#[verifier::external_body]
fn accepts_secret_key(secret: &[u8]) -> (b: bool)
    ensures
        b == secret_key_accepted(secret@),
{
    secp256k1::SecretKey::from_slice(secret).is_ok()
}

/// `PublicKey::from_secret_key` (in a new context) of the secret key read with
/// `SecretKey::from_slice`, serialized compressed. The contract names the
/// key and states the documented length of the compressed form, 33 bytes.
#[verifier::external_body]
fn public_key_bytes(secret: &[u8]) -> (pk: Vec<u8>)
    requires
        secret_key_accepted(secret@),
    ensures
        pk@ == public_key_of(secret@),
        pk@.len() == 33,
{
    let sk = secp256k1::SecretKey::from_slice(secret).unwrap();
    secp256k1::PublicKey::from_secret_key(&secp256k1::Secp256k1::new(), &sk).serialize().to_vec()
}

/// `Secp256k1::sign_ecdsa` (in a new context) of a 32-byte digest (read with
/// `Message::from_digest_slice`) under the secret key, serialized compact.
/// The nonce is derived as RFC 6979 prescribes, so the signature depends on
/// the digest and the key alone; the contract names it and states its
/// documented length of 64 bytes.
#[verifier::external_body]
fn sign_digest(digest: &[u8], secret: &[u8]) -> (sig: Vec<u8>)
    requires
        digest@.len() == 32,
        secret_key_accepted(secret@),
    ensures
        sig@ == ecdsa_signature_of(digest@, secret@),
        sig@.len() == 64,
{
    let msg = secp256k1::Message::from_digest_slice(digest).unwrap();
    let sk = secp256k1::SecretKey::from_slice(secret).unwrap();
    secp256k1::Secp256k1::new().sign_ecdsa(&msg, &sk).serialize_compact().to_vec()
}

/// `Secp256k1::verify_ecdsa` (in a new context) of a 32-byte digest, with the signature read
/// by `Signature::from_compact` and the key by `PublicKey::from_slice`;
/// bytes that do not decode do not verify. The contract names the answer
/// and states what the crate's documentation shows: a signature made under
/// a secret key verifies under that key's public key.
#[verifier::external_body]
fn verify_digest(digest: &[u8], signature: &[u8], public_key: &[u8])
    -> (b: bool)
    requires
        digest@.len() == 32,
    ensures
        b == ecdsa_verifies(digest@, signature@, public_key@),
        (exists|sk: Seq<u8>| secret_key_accepted(sk) && signature@ == #[trigger] ecdsa_signature_of(digest@, sk)
            && public_key@ == public_key_of(sk)) ==> b,
{
    let msg = secp256k1::Message::from_digest_slice(digest).unwrap();
    match (secp256k1::ecdsa::Signature::from_compact(signature), secp256k1::PublicKey::from_slice(public_key)) {
        (Ok(sig), Ok(pk)) => secp256k1::Secp256k1::new().verify_ecdsa(&msg, &sig, &pk).is_ok(),
        _ => false,
    }
}

/// `SecretKey::new` with the thread's random number generator, as bytes.
/// The key is random; the contract states only that it is a valid secret
/// key of 32 bytes.
#[verifier::external_body]
fn random_secret_key() -> (sk: Vec<u8>)
    ensures
        secret_key_accepted(sk@),
        sk@.len() == 32,
{
    secp256k1::SecretKey::new(&mut secp256k1::rand::thread_rng()).secret_bytes().to_vec()
}

/// The digest that is signed for a message: SHA-256 of its UTF-8 bytes.
pub open spec fn message_digest(message: Seq<char>) -> Seq<u8> {
    sha256_of(encode_utf8(message))
}

/// Signs and verifies governance messages; each operation runs in a fresh
/// secp256k1 context.
pub struct SignatureManager {}

impl SignatureManager {
    /// A signature manager.
    pub fn new() -> (m: Self) {
        SignatureManager {}
    }

    /// Signs the SHA-256 digest of the message with the secret key; bytes
    /// that are not a valid secret key are refused.
    pub fn create_signature(&self, message: &str, secret_key: &[u8]) -> (r: Result<Vec<u8>, GovernanceError>)
        ensures
            secret_key_accepted(secret_key@) <==> r is Ok,
            r matches Ok(sig) ==> sig@ == ecdsa_signature_of(message_digest(message@), secret_key@)
                && sig@.len() == 64,
            r matches Err(e) ==> e matches GovernanceError::CryptoError(m) && m@ == "Invalid secret key"@,
    {
        if !accepts_secret_key(secret_key) {
            return Err(GovernanceError::CryptoError("Invalid secret key".to_string()));
        }
        let digest = sha256(message.as_bytes());
        Ok(sign_digest(digest.as_slice(), secret_key))
    }

    /// Whether the signature is valid for the message under the public key.
    /// A signature made with a secret key verifies under its public key.
    pub fn verify_signature(&self, message: &str, signature: &[u8], public_key: &[u8])
        -> (r: Result<bool, GovernanceError>)
        ensures
            r matches Ok(b) && b == ecdsa_verifies(message_digest(message@), signature@, public_key@),
            (exists|sk: Seq<u8>| secret_key_accepted(sk)
                && signature@ == #[trigger] ecdsa_signature_of(message_digest(message@), sk)
                && public_key@ == public_key_of(sk)) ==> r == Ok::<bool, GovernanceError>(true),
    {
        let digest = sha256(message.as_bytes());
        Ok(verify_digest(digest.as_slice(), signature, public_key))
    }

    /// The compressed public key of a secret key; bytes that are not a valid
    /// secret key are refused.
    pub fn public_key_from_secret(&self, secret_key: &[u8]) -> (r: Result<Vec<u8>, GovernanceError>)
        ensures
            secret_key_accepted(secret_key@) <==> r is Ok,
            r matches Ok(pk) ==> pk@ == public_key_of(secret_key@) && pk@.len() == 33,
            r matches Err(e) ==> e matches GovernanceError::CryptoError(m) && m@ == "Invalid secret key"@,
    {
        if !accepts_secret_key(secret_key) {
            return Err(GovernanceError::CryptoError("Invalid secret key".to_string()));
        }
        Ok(public_key_bytes(secret_key))
    }

    /// A new random secret key and its public key.
    pub fn generate_keypair(&self) -> (r: (Vec<u8>, Vec<u8>))
        ensures
            secret_key_accepted(r.0@),
            r.0@.len() == 32,
            r.1@ == public_key_of(r.0@),
    {
        let sk = random_secret_key();
        let pk = public_key_bytes(sk.as_slice());
        (sk, pk)
    }
}

/// A signature made by `create_signature` and the public key made by
/// `public_key_from_secret` from one secret key are accepted together by
/// `verify_signature` for the same message.
pub proof fn lemma_signature_round_trip(message: Seq<char>, secret: Seq<u8>, signature: Seq<u8>, public_key: Seq<u8>)
    requires
        secret_key_accepted(secret),
        signature == ecdsa_signature_of(message_digest(message), secret),
        public_key == public_key_of(secret),
    ensures
        exists|sk: Seq<u8>| secret_key_accepted(sk)
            && signature == #[trigger] ecdsa_signature_of(message_digest(message), sk)
            && public_key == public_key_of(sk),
{
}

} // verus!
