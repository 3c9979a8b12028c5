//! Digests of texts.
use sha2::Digest;
use vstd::prelude::*;
use vstd::string::*;
use vstd::utf8::*;

verus! {

/// The SHA-256 digest of a message.
pub uninterp spec fn sha256(message: Seq<u8>) -> Seq<u8>;

/// `sha2::Sha256::digest`: the digest of the message, which depends on the message alone and has
/// thirty-two bytes.
#[verifier::external_body]
fn sha256_digest(message: &[u8]) -> (r: Vec<u8>)
    ensures
        r@ == sha256(message@),
        r@.len() == 32,
{
    sha2::Sha256::digest(message).to_vec()
}

/// The lower-case hexadecimal digit of a number below sixteen.
pub open spec fn hex_digit(n: u8) -> char {
    if n < 10 {
        (('0' as u8) + n) as char
    } else {
        (('a' as u8) + (n - 10)) as char
    }
}

/// Two hexadecimal digits for each byte, the high half first.
pub open spec fn hex_text(bytes: Seq<u8>) -> Seq<char> {
    Seq::new(
        bytes.len() * 2,
        |i: int|
            if i % 2 == 0 {
                hex_digit(bytes[i / 2] / 16)
            } else {
                hex_digit(bytes[i / 2] % 16)
            },
    )
}

/// `hex::encode`: two lower-case hexadecimal digits for each byte, in order.
#[verifier::external_body]
fn hex_encode(bytes: &Vec<u8>) -> (r: String)
    ensures
        r@ == hex_text(bytes@),
{
    hex::encode(bytes)
}

/// The hexadecimal SHA-256 digest of the UTF-8 bytes of a text.
pub open spec fn text_digest(text: Seq<char>) -> Seq<char> {
    hex_text(sha256(encode_utf8(text)))
}

/// The digest of a text.
pub fn digest_of(text: &str) -> (r: String)
    ensures
        r@ == text_digest(text@),
        r@.len() == 64,
{
    let digest = sha256_digest(text.as_bytes());
    hex_encode(&digest)
}

/// The digest of a text is that of all its bytes, in two hexadecimal digits for each byte of it: texts with
/// the same bytes have the same digest, and no digest says anything but digits and the letters up to `f`.
pub proof fn law_digest_of_a_text(text: Seq<char>, i: int)
    requires
        0 <= i < text_digest(text).len(),
    ensures
        text_digest(text).len() == 2 * sha256(encode_utf8(text)).len(),
        ({
            let c = text_digest(text)[i];
            let byte = sha256(encode_utf8(text))[i / 2];
            let half = if i % 2 == 0 {
                byte / 16
            } else {
                byte % 16
            };
            &&& ('0' <= c && c <= '9') || ('a' <= c && c <= 'f')
            &&& c as int == if half < 10 {
                '0' as int + half
            } else {
                'a' as int + (half - 10)
            }
        }),
{
}

} // verus!
