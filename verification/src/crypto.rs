//! Password hashing: SHA-512 over the UTF-8 bytes of the password, written
//! out as lower-case hexadecimal.
use sha2::Digest;
use vstd::prelude::*;
use vstd::utf8::encode_utf8;

verus! {

/// The SHA-512 digest of a byte string.
pub uninterp spec fn sha512_digest(data: Seq<u8>) -> Seq<u8>;

/// `sha2::Sha512::digest`: the result is the SHA-512 digest of `data`,
/// which is a function of `data` alone and 64 bytes long.
#[verifier::external_body]
fn sha512(data: &[u8]) -> (digest: Vec<u8>)
    ensures
        digest@ == sha512_digest(data@),
        digest@.len() == 64,
{
    sha2::Sha512::digest(data).to_vec()
}

/// The lower-case hexadecimal digit for a value below 16.
pub open spec fn lower_hex_digit(v: int) -> char {
    if v < 10 {
        (48 + v) as char
    } else {
        (87 + v) as char
    }
}

/// Two lower-case hexadecimal digits per byte, high nibble first.
pub open spec fn lower_hex(bytes: Seq<u8>) -> Seq<char>
    decreases bytes.len(),
{
    if bytes.len() == 0 {
        Seq::empty()
    } else {
        seq![lower_hex_digit(bytes[0] as int / 16), lower_hex_digit(bytes[0] as int % 16)] + lower_hex(
            bytes.drop_first(),
        )
    }
}

/// `hex::encode`: each byte becomes two characters of `0123456789abcdef`,
/// the high nibble first, in the order of the bytes.
#[verifier::external_body]
fn hex_encode(bytes: &[u8]) -> (text: String)
    ensures
        text@ == lower_hex(bytes@),
{
    hex::encode(bytes)
}

/// What a password is stored as: the hex of the SHA-512 digest of its UTF-8 bytes.
pub open spec fn password_hash_of(password: Seq<char>) -> Seq<char> {
    lower_hex(sha512_digest(encode_utf8(password)))
}

/// Hashes a password the way the user store keeps it.
pub fn hash_password(password: &str) -> (hash: String)
    ensures
        hash@ == password_hash_of(password@),
{
    let digest = sha512(password.as_bytes());
    hex_encode(digest.as_slice())
}

} // verus!
