//! SHA-256 and lower-case hex encoding, as provided by the `sha2` and `hex`
//! crates.

use sha2::Digest;
use vstd::prelude::*;

verus! {

/// The SHA-256 digest of a byte string, as computed by the `sha2` crate.
pub uninterp spec fn sha256_digest(data: Seq<u8>) -> Seq<u8>;

/// The character of a nibble (`0 <= n < 16`) in lower-case hex.
pub open spec fn hex_char(n: int) -> char {
    if n < 10 {
        (48 + n) as char
    } else {
        (87 + n) as char
    }
}

/// Lower-case hex text of a byte string: two characters per byte, the high
/// nibble first.
pub open spec fn hex_lower(bytes: Seq<u8>) -> Seq<char> {
    Seq::new(
        2 * bytes.len(),
        |i: int|
            if i % 2 == 0 {
                hex_char(bytes[i / 2] as int / 16)
            } else {
                hex_char(bytes[i / 2] as int % 16)
            },
    )
}

/// The value of a lower-case hex digit, or -1 for any other character.
pub open spec fn hex_digit_value(c: char) -> int {
    if 48 <= c as int <= 57 {
        c as int - 48
    } else if 97 <= c as int <= 102 {
        c as int - 87
    } else {
        -1
    }
}

/// Lower-case hex text has two digits per byte, and each pair of digits,
/// high then low, spells its byte back.
pub proof fn lemma_hex_lower_spells_bytes(bytes: Seq<u8>)
    ensures
        hex_lower(bytes).len() == 2 * bytes.len(),
        forall|k: int|
            0 <= k < bytes.len() ==> {
                &&& 0 <= hex_digit_value(#[trigger] hex_lower(bytes)[2 * k])
                &&& 0 <= hex_digit_value(hex_lower(bytes)[2 * k + 1])
                &&& hex_digit_value(hex_lower(bytes)[2 * k]) * 16 + hex_digit_value(
                    hex_lower(bytes)[2 * k + 1],
                ) == bytes[k]
            },
{
    assert forall|k: int| 0 <= k < bytes.len() implies {
        &&& 0 <= hex_digit_value(#[trigger] hex_lower(bytes)[2 * k])
        &&& 0 <= hex_digit_value(hex_lower(bytes)[2 * k + 1])
        &&& hex_digit_value(hex_lower(bytes)[2 * k]) * 16 + hex_digit_value(
            hex_lower(bytes)[2 * k + 1],
        ) == bytes[k]
    } by {
        assert((2 * k) % 2 == 0 && (2 * k) / 2 == k);
        assert((2 * k + 1) % 2 == 1 && (2 * k + 1) / 2 == k);
        let b = bytes[k] as int;
        assert(b / 16 * 16 + b % 16 == b);
    }
}

/// Calls `sha2::Sha256::digest` (the `Digest` trait of the `digest` crate),
/// which hashes `data` in one pass and returns the 32-byte output. The
/// contract claims only that the result is the SHA-256 digest of `data`.
#[verifier::external_body]
pub(crate) fn sha256(data: &[u8]) -> (digest: [u8; 32])
    ensures
        digest@ == sha256_digest(data@),
{
    let out = sha2::Sha256::digest(data);
    let mut digest = [0u8; 32];
    digest.copy_from_slice(&out);
    digest
}

/// Calls `hex::encode`, which writes each byte as two lower-case hex digits
/// taken from the table `0123456789abcdef`, the high nibble first.
#[verifier::external_body]
pub(crate) fn hex_encode(data: &[u8]) -> (text: String)
    ensures
        text@ == hex_lower(data@),
{
    hex::encode(data)
}

} // verus!
