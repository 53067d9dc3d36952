//! Content hashes of file bytes, written as lowercase hexadecimal text.

use vstd::prelude::*;
use sha2::{Digest, Sha256};

verus! {

/// The SHA-256 digest of a byte sequence.
pub uninterp spec fn sha256_of(b: Seq<u8>) -> Seq<u8>;

/// The text that UTF-8 decoding of a byte sequence gives, or `None` where the
/// bytes are not valid UTF-8.
pub uninterp spec fn utf8_decoded(b: Seq<u8>) -> Option<Seq<char>>;

/// Relies on `sha2::Sha256::digest`: the SHA-256 digest of the bytes, which is
/// 32 bytes long.
#[verifier::external_body]
fn sha256_digest(b: &Vec<u8>) -> (r: Vec<u8>)
    ensures
        r@ == sha256_of(b@),
        r@.len() == 32,
{
    Sha256::digest(b.as_slice()).to_vec()
}

/// Relies on `String::from_utf8`: the decoded text where the bytes are valid
/// UTF-8, an error otherwise; ASCII bytes decode to the characters of the
/// same code.
#[verifier::external_body]
pub(crate) fn decode_utf8(b: &Vec<u8>) -> (r: Option<String>)
    ensures
        match r {
            Some(s) => utf8_decoded(b@) == Some(s@),
            None => utf8_decoded(b@) is None,
        },
        (forall|i: int| 0 <= i < b@.len() ==> b@[i] < 128) ==> (r is Some && r->0@
            == b@.map_values(|x: u8| x as char)),
{
    String::from_utf8(b.clone()).ok()
}

/// The ASCII code of the lowercase hexadecimal digit for `n < 16`.
pub open spec fn hex_digit(n: u8) -> u8 {
    if n < 10 {
        (48 + n) as u8
    } else {
        (87 + n) as u8
    }
}

/// Two lowercase hexadecimal digits per byte, the high half first.
pub open spec fn hex_bytes(b: Seq<u8>) -> Seq<u8> {
    Seq::new(
        2 * b.len(),
        |i: int|
            if i % 2 == 0 {
                hex_digit(b[i / 2] / 16)
            } else {
                hex_digit(b[i / 2] % 16)
            },
    )
}

/// The lowercase hexadecimal text of a byte sequence.
pub open spec fn hex_text(b: Seq<u8>) -> Seq<char> {
    hex_bytes(b).map_values(|x: u8| x as char)
}

/// The content hash of a file's bytes: the hexadecimal text of their SHA-256
/// digest.
pub open spec fn content_hash(b: Seq<u8>) -> Seq<char> {
    hex_text(sha256_of(b))
}

fn hex_digit_exec(n: u8) -> (r: u8)
    requires
        n < 16,
    ensures
        r == hex_digit(n),
        r < 128,
{
    if n < 10 {
        48 + n
    } else {
        87 + n
    }
}

/// Encodes each byte as two lowercase hexadecimal ASCII digits.
pub fn hex_encode(b: &Vec<u8>) -> (r: Vec<u8>)
    ensures
        r@ == hex_bytes(b@),
        forall|j: int| 0 <= j < r@.len() ==> r@[j] < 128,
{
    let mut r: Vec<u8> = Vec::new();
    let mut i: usize = 0;
    while i < b.len()
        invariant
            i <= b@.len(),
            r@.len() == 2 * i,
            forall|j: int| 0 <= j < 2 * i ==> r@[j] == hex_bytes(b@)[j],
            forall|j: int| 0 <= j < r@.len() ==> r@[j] < 128,
        decreases b@.len() - i,
    {
        let x: u8 = b[i];
        let hi = hex_digit_exec(x / 16);
        let lo = hex_digit_exec(x % 16);
        r.push(hi);
        r.push(lo);
        i = i + 1;
    }
    assert(r@ =~= hex_bytes(b@));
    r
}

/// The content hash of `bytes`: 64 lowercase hexadecimal characters of their
/// SHA-256 digest.
pub fn hash_hex(bytes: &Vec<u8>) -> (r: String)
    ensures
        r@ == content_hash(bytes@),
        r@.len() == 64,
{
    let d = sha256_digest(bytes);
    let h = hex_encode(&d);
    match decode_utf8(&h) {
        Some(s) => {
            assert(s@ =~= hex_text(sha256_of(bytes@)));
            s
        },
        // Hexadecimal digits are ASCII, so decoding them never fails.
        None => {
            proof {
                assert(forall|j: int| 0 <= j < h@.len() ==> h@[j] < 128);
            }
            String::new()
        },
    }
}

/// Hashing is deterministic: equal byte sequences give equal content hashes.
pub proof fn lemma_hash_deterministic(a: Seq<u8>, b: Seq<u8>)
    requires
        a == b,
    ensures
        content_hash(a) == content_hash(b),
{
}

} // verus!
