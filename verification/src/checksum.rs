use vstd::prelude::*;
use vstd::string::*;
use sha2::Digest;
use hex::ToHex;
use crate::strings::{str_chars, string_from_chars, i32_to_decimal, append_chars, signed_decimal};

verus! {

/// The SHA-256 digest of `data`.
pub uninterp spec fn sha256_of(data: Seq<u8>) -> Seq<u8>;

/// The SHA-256 digest of `data`, computed by the `sha2` crate
/// (`Sha256::digest`). The contract names the result and states the digest
/// length of 32 bytes; the hash function itself is left to the crate.
#[verifier::external_body]
fn sha256_digest(data: &[u8]) -> (res: Vec<u8>)
    ensures
        res@ == sha256_of(data@),
        res@.len() == 32,
{
    sha2::Sha256::digest(data).to_vec()
}

/// The lower-case hexadecimal digit for `d` (below sixteen).
pub open spec fn hex_digit(d: int) -> char {
    if d < 10 {
        ((d + 48) as u32) as char
    } else {
        ((d + 87) as u32) as char
    }
}

/// Each byte as two lower-case hexadecimal digits, high nibble first.
pub open spec fn hex_lower(bytes: Seq<u8>) -> Seq<char>
    decreases bytes.len(),
{
    if bytes.len() == 0 {
        Seq::empty()
    } else {
        hex_lower(bytes.drop_last()).push(hex_digit(bytes.last() as int / 16)).push(hex_digit(bytes.last() as int % 16))
    }
}

/// The lower-case hexadecimal text of `bytes`, written by the `hex` crate
/// (`ToHex::encode_hex`, which emits each byte's high nibble and then its low
/// nibble from the table `0123456789abcdef`).
#[verifier::external_body]
fn hex_encode(bytes: &[u8]) -> (res: String)
    ensures
        res@ == hex_lower(bytes@),
{
    bytes.encode_hex::<String>()
}

/// The checksum a chart file is compared by: its SHA-256 digest in
/// lower-case hexadecimal.
pub fn chart_checksum(chart: &[u8]) -> (res: String)
    ensures
        res@ == hex_lower(sha256_of(chart@)),
        res@.len() == 64,
{
    let digest = sha256_digest(chart);
    proof {
        lemma_hex_len(digest@);
    }
    hex_encode(digest.as_slice())
}

proof fn lemma_hex_len(bytes: Seq<u8>)
    ensures
        hex_lower(bytes).len() == 2 * bytes.len(),
    decreases bytes.len(),
{
    if bytes.len() > 0 {
        lemma_hex_len(bytes.drop_last());
    }
}

/// The path asking the server whether chart `id` still has checksum
/// `checksum`.
pub fn verify_checksum_path(id: i32, checksum: &str) -> (res: String)
    ensures
        res@ == "/chart/"@ + signed_decimal(id as int) + "/verify-cksum?checksum="@ + checksum@,
{
    let mut v = str_chars("/chart/");
    let digits = i32_to_decimal(id);
    append_chars(&mut v, &digits);
    let mid = str_chars("/verify-cksum?checksum=");
    append_chars(&mut v, &mid);
    let tail = str_chars(checksum);
    append_chars(&mut v, &tail);
    string_from_chars(&v)
}

} // verus!
