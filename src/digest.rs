//! Content digests: SHA-256 over the exact bytes, written as
//! `sha256:<64 lowercase hex digits>`.
use sha2::Digest;
use vstd::prelude::*;

verus! {

/// The 32-byte SHA-256 hash of `b`.
pub uninterp spec fn sha256_of(b: Seq<u8>) -> Seq<u8>;

/// The lowercase hexadecimal digit for `n` (`n < 16`).
pub open spec fn hex_digit(n: int) -> char {
    seq!['0', '1', '2', '3', '4', '5', '6', '7', '8', '9', 'a', 'b', 'c', 'd', 'e', 'f'][n]
}

/// Whether `c` is one of `0-9a-f`.
pub open spec fn is_lower_hex(c: char) -> bool {
    ('0' <= c && c <= '9') || ('a' <= c && c <= 'f')
}

/// Two lowercase hex digits per byte, high nibble first.
pub open spec fn hex_lower(b: Seq<u8>) -> Seq<char>
    decreases b.len(),
{
    if b.len() == 0 {
        Seq::empty()
    } else {
        let last = b.last() as int;
        hex_lower(b.drop_last()) + seq![hex_digit(last / 16), hex_digit(last % 16)]
    }
}

/// The algorithm tag that starts every digest string.
pub open spec fn sha256_prefix() -> Seq<char> {
    seq!['s', 'h', 'a', '2', '5', '6', ':']
}

/// The registry's digest string for the bytes `b`.
pub open spec fn digest_text(b: Seq<u8>) -> Seq<char> {
    sha256_prefix() + hex_lower(sha256_of(b))
}

/// Relies on sha2's `Sha256::digest`: the 32-byte hash of the input, which
/// depends on the bytes alone.
#[verifier::external_body]
fn sha256_bytes(data: &[u8]) -> (r: Vec<u8>)
    ensures
        r@ == sha256_of(data@),
        r@.len() == 32,
{
    sha2::Sha256::digest(data).to_vec()
}

/// Relies on `hex::encode`: each byte becomes two lowercase hex digits, high
/// nibble first.
#[verifier::external_body]
fn hex_encode(data: &[u8]) -> (r: String)
    ensures
        r@ == hex_lower(data@),
{
    hex::encode(data)
}

/// The digest string of `data`: `sha256:` followed by its hash in lowercase hex.
pub fn calculate_sha256(data: &[u8]) -> (r: String)
    ensures
        r@ == digest_text(data@),
        r@.len() == 71,
        r@.subrange(0, 7) == sha256_prefix(),
        forall|i: int| 7 <= i < 71 ==> is_lower_hex(#[trigger] r@[i]),
{
    let hash = sha256_bytes(data);
    let hex = hex_encode(hash.as_slice());
    let mut r = String::from_str("sha256:");
    proof {
        reveal_strlit("sha256:");
    }
    assert("sha256:"@ =~= sha256_prefix());
    r.append(hex.as_str());
    proof {
        lemma_hex_lower_shape(hash@);
        assert(r@.subrange(0, 7) =~= sha256_prefix());
        assert forall|i: int| 7 <= i < 71 implies is_lower_hex(#[trigger] r@[i]) by {
            assert(r@[i] == hex@[i - 7]);
        }
    }
    r
}

/// Whether `declared` is the digest string of `bytes`: a fetched blob is
/// trusted only when this holds.
pub fn digest_matches(bytes: &[u8], declared: &String) -> (r: bool)
    ensures
        r == (digest_text(bytes@) == declared@),
{
    let actual = calculate_sha256(bytes);
    actual == *declared
}

/// Hex text has two digits per byte, each one of `0-9a-f`.
pub proof fn lemma_hex_lower_shape(b: Seq<u8>)
    ensures
        hex_lower(b).len() == 2 * b.len(),
        forall|i: int| 0 <= i < hex_lower(b).len() ==> is_lower_hex(#[trigger] hex_lower(b)[i]),
    decreases b.len(),
{
    if b.len() > 0 {
        lemma_hex_lower_shape(b.drop_last());
        let last = b.last() as int;
        let pair = seq![hex_digit(last / 16), hex_digit(last % 16)];
        assert forall|k: int| 0 <= k < 16 implies is_lower_hex(#[trigger] hex_digit(k)) by {}
        assert(is_lower_hex(pair[0]) && is_lower_hex(pair[1]));
        assert(hex_lower(b) == hex_lower(b.drop_last()) + pair);
    }
}

/// A digest is a function of the bytes alone: identical bytes give an
/// identical digest string, however often and in whatever order it is
/// computed (`calculate_sha256` returns `digest_text` of its input).
pub proof fn lemma_digest_deterministic(a: Seq<u8>, b: Seq<u8>)
    requires
        a == b,
    ensures
        digest_text(a) == digest_text(b),
{
}

} // verus!
