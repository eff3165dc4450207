//! Webhook signature verification: checking that a payload carries the
//! HMAC-SHA-256 tag, hex encoded, that the shared secret gives it.

use vstd::prelude::*;
use vstd::string::StringExecFns;
use vstd::utf8::encode_utf8;

use hmac::Mac;

verus! {

/// The HMAC-SHA-256 tag of a message under a key.
pub uninterp spec fn hmac_sha256_of(key: Seq<u8>, message: Seq<u8>) -> Seq<u8>;

/// Relies on hmac::Hmac over sha2::Sha256: the result is the 32-byte
/// HMAC-SHA-256 tag of the message under the key, a function of the two
/// alone; HMAC accepts a key of any length, so the construction cannot
/// fail.
#[verifier::external_body]
fn hmac_sha256(key: &[u8], message: &[u8]) -> (r: Vec<u8>)
    ensures
        r@ == hmac_sha256_of(key@, message@),
        r@.len() == 32,
{
    let mut mac = hmac::Hmac::<sha2::Sha256>::new_from_slice(key)
        .expect("HMAC accepts a key of any length");
    mac.update(message);
    mac.finalize().into_bytes().to_vec()
}

/// Relies on String::push: appends the one character at the end.
#[verifier::external_body]
fn string_push(s: &mut String, c: char)
    ensures
        final(s)@ == old(s)@.push(c),
{
    s.push(c);
}

/// The lower-case hex character of a value below sixteen.
pub open spec fn hex_digit(v: u8) -> char
    recommends
        v < 16,
{
    if v < 10 {
        (('0' as u8) + v) as char
    } else {
        (('a' as u8) + (v - 10)) as char
    }
}

/// The lower-case hex encoding of a byte sequence, two characters per
/// byte, high half first.
pub open spec fn hex_of(data: Seq<u8>) -> Seq<char>
    decreases data.len(),
{
    if data.len() == 0 {
        Seq::empty()
    } else {
        hex_of(data.drop_last()).push(hex_digit(data.last() / 16)).push(
            hex_digit(data.last() % 16),
        )
    }
}

/// The hex character of a value below sixteen.
fn hex_digit_char(v: u8) -> (r: char)
    requires
        v < 16,
    ensures
        r == hex_digit(v),
{
    if v < 10 {
        (('0' as u8) + v) as char
    } else {
        (('a' as u8) + (v - 10)) as char
    }
}

/// Hex encode a byte sequence, lower case.
pub fn to_hex(data: &Vec<u8>) -> (r: String)
    ensures
        r@ == hex_of(data@),
{
    let mut r = String::new();
    let mut i: usize = 0;
    while i < data.len()
        invariant
            i <= data@.len(),
            r@ == hex_of(data@.subrange(0, i as int)),
        decreases data@.len() - i,
    {
        let ghost before = data@.subrange(0, i as int);
        let ghost after = data@.subrange(0, i + 1);
        proof {
            assert(after.drop_last() =~= before);
            assert(after.last() == data@[i as int]);
        }
        let byte = data[i];
        string_push(&mut r, hex_digit_char(byte / 16));
        string_push(&mut r, hex_digit_char(byte % 16));
        i = i + 1;
    }
    proof {
        assert(data@.subrange(0, data@.len() as int) =~= data@);
    }
    r
}

/// Check a webhook signature: the signature must be the lower-case hex
/// encoding of the payload's HMAC-SHA-256 tag under the shared secret.
pub fn verify_signature(payload: &str, signature: &str, secret: &str) -> (r: bool)
    ensures
        r == (hex_of(hmac_sha256_of(encode_utf8(secret@), encode_utf8(payload@))) == signature@),
{
    let tag = hmac_sha256(secret.as_bytes(), payload.as_bytes());
    let expected = to_hex(&tag);
    expected.eq(&signature.to_owned())
}

} // verus!
