//! SHA-1 and SHA-256 digests of byte buffers and their comparison with an
//! expected hexadecimal digest.

use crate::text::{ascii_lower, chars_of, lower_char, same_chars, to_ascii_lower};
use sha2::Digest;
use vstd::prelude::*;

verus! {

/// The SHA-256 digest of a byte string, as the `sha2` crate computes it.
pub uninterp spec fn sha256_digest(data: Seq<u8>) -> Seq<u8>;

/// The SHA-1 digest of a byte string, as the `sha1` crate computes it.
pub uninterp spec fn sha1_digest(data: Seq<u8>) -> Seq<u8>;

/// The lower-case hexadecimal digit of a value below sixteen.
pub open spec fn hex_digit(n: int) -> char {
    if n < 10 {
        ((48 + n) as u8) as char
    } else {
        ((87 + n) as u8) as char
    }
}

/// Two lower-case hexadecimal digits for each byte, the high half first.
pub open spec fn hex_lower(data: Seq<u8>) -> Seq<char> {
    Seq::new(
        2 * data.len(),
        |i: int|
            hex_digit(
                if i % 2 == 0 {
                    data[i / 2] as int / 16
                } else {
                    data[i / 2] as int % 16
                },
            ),
    )
}

/// Whether an expected digest, read without regard to the case of its letters,
/// is the hexadecimal form of `digest`.
pub open spec fn digest_matches(expected: Seq<char>, digest: Seq<u8>) -> bool {
    ascii_lower(expected) == hex_lower(digest)
}

/// The verdict on a buffer: a SHA-256 digest, where one is given, alone decides;
/// else a SHA-1 digest decides; with neither nothing is demanded.
pub open spec fn checksum_ok(
    data: Seq<u8>,
    sha256: Option<Seq<char>>,
    sha1: Option<Seq<char>>,
) -> bool {
    match sha256 {
        Some(expected) => digest_matches(expected, sha256_digest(data)),
        None => match sha1 {
            Some(expected) => digest_matches(expected, sha1_digest(data)),
            None => true,
        },
    }
}

/// The characters of an optional string.
pub open spec fn opt_chars(s: Option<&str>) -> Option<Seq<char>> {
    match s {
        Some(t) => Some(t@),
        None => None,
    }
}

/// `Digest::digest` of the `sha2` crate for `Sha256`: a new hasher is fed the
/// whole buffer and finalized. The result is the SHA-256 digest of the
/// buffer, which has 32 bytes.
#[verifier::external_body]
fn sha256_bytes(data: &[u8]) -> (out: Vec<u8>)
    ensures
        out@ == sha256_digest(data@),
        out@.len() == 32,
{
    sha2::Sha256::digest(data).to_vec()
}

/// `Digest::digest` of the `sha1` crate for `Sha1`: a new hasher is fed the
/// whole buffer and finalized. The result is the SHA-1 digest of the buffer,
/// which has 20 bytes.
#[verifier::external_body]
fn sha1_bytes(data: &[u8]) -> (out: Vec<u8>)
    ensures
        out@ == sha1_digest(data@),
        out@.len() == 20,
{
    sha1::Sha1::digest(data).to_vec()
}

/// `hex::encode`: each byte becomes two lower-case hexadecimal digits, the high
/// half first.
#[verifier::external_body]
fn hex_encode(data: &[u8]) -> (out: String)
    ensures
        out@ == hex_lower(data@),
{
    hex::encode(data)
}

/// The SHA-256 digest of `data` in lower-case hexadecimal.
pub fn compute_sha256(data: &[u8]) -> (out: String)
    ensures
        out@ == hex_lower(sha256_digest(data@)),
        out@.len() == 64,
{
    let digest = sha256_bytes(data);
    hex_encode(digest.as_slice())
}

/// The SHA-1 digest of `data` in lower-case hexadecimal.
pub fn compute_sha1(data: &[u8]) -> (out: String)
    ensures
        out@ == hex_lower(sha1_digest(data@)),
        out@.len() == 40,
{
    let digest = sha1_bytes(data);
    hex_encode(digest.as_slice())
}

/// Hexadecimal text holds no capital letter, so lower-casing leaves it as it is.
pub proof fn lemma_hex_is_lower(data: Seq<u8>)
    ensures
        ascii_lower(hex_lower(data)) == hex_lower(data),
{
    let h = hex_lower(data);
    assert forall|i: int| 0 <= i < h.len() implies lower_char(h[i]) == h[i] by {
        let n = if i % 2 == 0 {
            data[i / 2] as int / 16
        } else {
            data[i / 2] as int % 16
        };
        assert(0 <= n < 16);
        assert(h[i] == hex_digit(n));
    }
    assert(ascii_lower(h) =~= h);
}

/// Tests whether an expected digest, written in hexadecimal with letters of
/// either case, names the digest `digest`.
pub fn digest_is(expected: &str, digest: &[u8]) -> (same: bool)
    ensures
        same == digest_matches(expected@, digest@),
{
    let computed = hex_encode(digest);
    let e = chars_of(expected);
    let c = chars_of(computed.as_str());
    let le = to_ascii_lower(&e);
    let lc = to_ascii_lower(&c);
    proof {
        lemma_hex_is_lower(digest@);
    }
    same_chars(&le, &lc)
}

/// Checks a buffer against its expected digests. A SHA-256 digest is
/// authoritative; a SHA-1 digest is consulted only without it; with neither the
/// buffer is accepted. Letters of the expected digest are compared without
/// regard to case.
pub fn verify_checksum(data: &[u8], sha256: Option<&str>, sha1: Option<&str>) -> (ok: bool)
    ensures
        ok == checksum_ok(data@, opt_chars(sha256), opt_chars(sha1)),
        sha256 matches Some(expected) ==> (expected@.len() != 64 ==> !ok),
        sha256 is None ==> (sha1 matches Some(expected) ==> (expected@.len() != 40 ==> !ok)),
{
    if let Some(expected) = sha256 {
        let digest = sha256_bytes(data);
        assert(hex_lower(digest@).len() == 64);
        assert(ascii_lower(expected@).len() == expected@.len());
        return digest_is(expected, digest.as_slice());
    }
    if let Some(expected) = sha1 {
        let digest = sha1_bytes(data);
        assert(hex_lower(digest@).len() == 40);
        assert(ascii_lower(expected@).len() == expected@.len());
        return digest_is(expected, digest.as_slice());
    }
    true
}

/// A buffer verifies against its own SHA-256 digest, whatever SHA-1 digest
/// comes with it.
pub proof fn law_own_sha256_verifies(data: Seq<u8>, sha1: Option<Seq<char>>)
    ensures
        checksum_ok(data, Some(hex_lower(sha256_digest(data))), sha1),
{
    lemma_hex_is_lower(sha256_digest(data));
}

/// Without a SHA-256 digest, a buffer verifies against its own SHA-1 digest.
pub proof fn law_own_sha1_verifies(data: Seq<u8>)
    ensures
        checksum_ok(data, None, Some(hex_lower(sha1_digest(data)))),
{
    lemma_hex_is_lower(sha1_digest(data));
}

/// With no digest at all every buffer verifies.
pub proof fn law_no_digest_verifies(data: Seq<u8>)
    ensures
        checksum_ok(data, None, None),
{
}

/// A SHA-256 digest decides alone: the SHA-1 digest beside it changes nothing.
pub proof fn law_sha256_is_authoritative(
    data: Seq<u8>,
    sha256: Seq<char>,
    a: Option<Seq<char>>,
    b: Option<Seq<char>>,
)
    ensures
        checksum_ok(data, Some(sha256), a) == checksum_ok(data, Some(sha256), b),
{
}

} // verus!
