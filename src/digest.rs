use vstd::prelude::*;
use sha2::Digest;

verus! {

/// The SHA-256 digest of a byte sequence.
pub uninterp spec fn sha256_of(data: Seq<u8>) -> Seq<u8>;

/// The lowercase hexadecimal digit for `n < 16`.
pub open spec fn hex_digit(n: u8) -> char {
    if n == 0 { '0' } else if n == 1 { '1' } else if n == 2 { '2' } else if n == 3 { '3' }
    else if n == 4 { '4' } else if n == 5 { '5' } else if n == 6 { '6' } else if n == 7 { '7' }
    else if n == 8 { '8' } else if n == 9 { '9' } else if n == 10 { 'a' } else if n == 11 { 'b' }
    else if n == 12 { 'c' } else if n == 13 { 'd' } else if n == 14 { 'e' } else { 'f' }
}

/// Lowercase hexadecimal text of bytes: two digits per byte, high nibble first.
pub open spec fn hex_lower(b: Seq<u8>) -> Seq<char> {
    Seq::new(2 * b.len(), |i: int| if i % 2 == 0 { hex_digit(b[i / 2] / 16) } else { hex_digit(b[i / 2] % 16) })
}

/// Relies on `sha2::Sha256::digest` (through `digest::Digest`): the 32-byte
/// SHA-256 digest of the data, which depends on the data alone.
#[verifier::external_body]
fn sha256(data: &[u8]) -> (r: Vec<u8>)
    ensures
        r@ == sha256_of(data@),
        r@.len() == 32,
{
    sha2::Sha256::digest(data).to_vec()
}

/// Relies on `hex::encode`: each byte becomes two lowercase hexadecimal
/// digits, high nibble first.
#[verifier::external_body]
fn to_hex(b: &[u8]) -> (r: String)
    ensures
        r@ == hex_lower(b@),
{
    hex::encode(b)
}

/// The lowercase hexadecimal SHA-256 digest of the data.
pub fn digest_hex(data: &[u8]) -> (r: String)
    ensures
        r@ == hex_lower(sha256_of(data@)),
        r@.len() == 64,
{
    let d = sha256(data);
    to_hex(d.as_slice())
}

/// The digest recorded after an erasure: of the target's contents as read
/// back, or of nothing when the target could not be read.
pub fn verification_digest(contents: Option<&[u8]>) -> (r: String)
    ensures
        contents is Some ==> r@ == hex_lower(sha256_of(contents.unwrap()@)),
        contents is None ==> r@ == hex_lower(sha256_of(Seq::empty())),
        r@.len() == 64,
{
    match contents {
        Some(c) => digest_hex(c),
        None => {
            let empty: Vec<u8> = Vec::new();
            let r = digest_hex(empty.as_slice());
            assert(empty@ =~= Seq::<u8>::empty());
            r
        },
    }
}

} // verus!
