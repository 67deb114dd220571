//! SHA-256 digests and their lowercase hexadecimal notation.
use vstd::prelude::*;
use crate::text::{hex_padded, push_hex_padded, push_str, string_of};

verus! {

/// The SHA-256 digest of a byte string.
pub uninterp spec fn sha256_of(data: Seq<u8>) -> Seq<u8>;

/// `sha2::Sha256::digest`. The contract names the digest of the input and
/// states its documented length of 32 bytes; nothing else of SHA-256 is stated.
#[verifier::external_body]
pub(crate) fn sha256(data: &[u8]) -> (r: Vec<u8>)
    ensures
        r@ == sha256_of(data@),
        r@.len() == 32,
{
    <sha2::Sha256 as sha2::Digest>::digest(data).to_vec()
}

/// Lowercase hexadecimal notation of bytes, two digits per byte (`hex::encode`).
pub open spec fn hex_of(b: Seq<u8>) -> Seq<char>
    decreases b.len(),
{
    if b.len() == 0 {
        Seq::empty()
    } else {
        hex_of(b.drop_last()) + hex_padded(b.last() as nat, 2)
    }
}

/// Hexadecimal notation takes two digits per byte.
pub proof fn lemma_hex_len(b: Seq<u8>)
    ensures
        hex_of(b).len() == 2 * b.len(),
    decreases b.len(),
{
    if b.len() > 0 {
        lemma_hex_len(b.drop_last());
        assert(hex_padded(b.last() as nat, 2).len() == 2) by {
            reveal_with_fuel(hex_padded, 3);
        }
    }
}

/// Appends the hexadecimal notation of `b`.
pub fn push_hex(out: &mut Vec<char>, b: &[u8])
    ensures
        final(out)@ == old(out)@ + hex_of(b@),
{
    let n = b.len();
    for i in 0..n
        invariant
            n == b@.len(),
            out@ == old(out)@ + hex_of(b@.take(i as int)),
    {
        proof {
            assert(b@.take(i + 1).drop_last() =~= b@.take(i as int));
        }
        push_hex_padded(out, b[i] as u64, 2);
        assert(out@ =~= old(out)@ + hex_of(b@.take(i + 1)));
    }
    assert(b@.take(n as int) =~= b@);
}

/// `hex::encode`.
pub fn hex_encode(b: &[u8]) -> (s: String)
    ensures
        s@ == hex_of(b@),
{
    let mut out: Vec<char> = Vec::new();
    push_hex(&mut out, b);
    assert(out@ =~= hex_of(b@));
    string_of(&out)
}

/// `sha256:` followed by the hexadecimal digest of the bytes.
pub open spec fn prefixed_digest(data: Seq<u8>) -> Seq<char> {
    "sha256:"@ + hex_of(sha256_of(data))
}

/// The `sha256:`-prefixed hexadecimal digest of a byte string: 71
/// characters, 7 of prefix and 64 hexadecimal digits.
pub fn sha256_prefixed(data: &[u8]) -> (s: String)
    ensures
        s@ == prefixed_digest(data@),
        s@.len() == 71,
{
    let d = sha256(data);
    proof {
        lemma_hex_len(d@);
        reveal_strlit("sha256:");
    }
    let mut out: Vec<char> = Vec::new();
    push_str(&mut out, "sha256:");
    push_hex(&mut out, d.as_slice());
    assert(out@ =~= prefixed_digest(data@));
    string_of(&out)
}

} // verus!
