use vstd::prelude::*;

use crate::task::str_equal;

verus! {

/// The lowercase hexadecimal digit for `n < 16`.
pub open spec fn hex_digit(n: nat) -> char {
    let digits = seq!['0', '1', '2', '3', '4', '5', '6', '7', '8', '9', 'a', 'b', 'c', 'd', 'e', 'f'];
    digits[n as int]
}

/// Two lowercase hexadecimal digits per byte, high nibble first.
pub open spec fn hex_of(b: Seq<u8>) -> Seq<char>
    decreases b.len(),
{
    if b.len() == 0 {
        Seq::empty()
    } else {
        hex_of(b.drop_last()) + seq![hex_digit((b.last() / 16) as nat), hex_digit((b.last() % 16) as nat)]
    }
}

/// Relies on hex::encode: each byte becomes two lowercase hexadecimal digits,
/// the high nibble first, in the order of the bytes.
#[verifier::external_body]
fn encode_hex(bytes: &[u8]) -> (r: String)
    ensures
        r@ == hex_of(bytes@),
{
    hex::encode(bytes)
}

/// A digest written out as lowercase hexadecimal.
pub fn digest_hex(digest: &[u8]) -> (r: String)
    ensures
        r@ == hex_of(digest@),
{
    encode_hex(digest)
}

/// Whether a digest, written out as lowercase hexadecimal, is exactly the
/// expected string.
pub fn checksum_matches(digest: &[u8], expected: &str) -> (r: bool)
    ensures
        r == (hex_of(digest@) == expected@),
{
    let actual = encode_hex(digest);
    str_equal(actual.as_str(), expected)
}

} // verus!
