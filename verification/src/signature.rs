//! The signature of a request: HMAC-SHA256 under the API secret, written in
//! lowercase hexadecimal.

use crate::text::digit_char;
use hmac::Mac;
use vstd::prelude::*;
use vstd::utf8::encode_utf8;

verus! {

/// The HMAC-SHA256 tag of `message` under `key`.
pub uninterp spec fn hmac_sha256(key: Seq<u8>, message: Seq<u8>) -> Seq<u8>;

/// The lowercase hexadecimal digit for `n`.
pub open spec fn hex_digit(n: nat) -> char {
    if n < 10 {
        digit_char(n)
    } else if n == 10 {
        'a'
    } else if n == 11 {
        'b'
    } else if n == 12 {
        'c'
    } else if n == 13 {
        'd'
    } else if n == 14 {
        'e'
    } else {
        'f'
    }
}

/// `bytes` in lowercase hexadecimal: two digits for each byte, the high
/// half first.
pub open spec fn hex_lower(bytes: Seq<u8>) -> Seq<char> {
    Seq::new(
        2 * bytes.len(),
        |i: int|
            if i % 2 == 0 {
                hex_digit((bytes[i / 2] / 16) as nat)
            } else {
                hex_digit((bytes[i / 2] % 16) as nat)
            },
    )
}

/// The signature of `payload` under `secret`: the tag of the payload's
/// UTF-8 bytes under the secret's, in lowercase hexadecimal.
pub open spec fn signature_text(secret: Seq<char>, payload: Seq<char>) -> Seq<char> {
    hex_lower(hmac_sha256(encode_utf8(secret), encode_utf8(payload)))
}

/// `Hmac::<Sha256>::new_from_slice`, then `update` with the whole message
/// and `finalize`. The contract claims that the tag depends on the key and
/// the message alone, and that it is 32 bytes long, the output size of
/// SHA-256.
#[verifier::external_body]
fn hmac_sha256_tag(key: &[u8], message: &[u8]) -> (tag: Vec<u8>)
    ensures
        tag@ == hmac_sha256(key@, message@),
        tag@.len() == 32,
{
    let mut mac = hmac::Hmac::<sha2::Sha256>::new_from_slice(key).expect(
        "HMAC can take key of any size",
    );
    mac.update(message);
    mac.finalize().into_bytes().to_vec()
}

/// `hex::encode`. The contract claims what its documentation says: two
/// lowercase hexadecimal digits for each byte, in order.
#[verifier::external_body]
fn hex_encode(bytes: &[u8]) -> (text: String)
    ensures
        text@ == hex_lower(bytes@),
{
    hex::encode(bytes)
}

/// Signs `payload` with `secret`.
pub fn sign(secret: &str, payload: &str) -> (signature: String)
    ensures
        signature@ == signature_text(secret@, payload@),
        signature@.len() == 64,
{
    let tag = hmac_sha256_tag(secret.as_bytes(), payload.as_bytes());
    hex_encode(tag.as_slice())
}

/// Two byte strings with the same hexadecimal text are the same bytes: no
/// two tags share a signature.
pub proof fn lemma_hex_lower_injective(a: Seq<u8>, b: Seq<u8>)
    requires
        hex_lower(a) == hex_lower(b),
    ensures
        a == b,
{
    assert(hex_lower(a).len() == 2 * a.len());
    assert(hex_lower(b).len() == 2 * b.len());
    assert(a.len() == b.len());
    assert forall|k: int| 0 <= k < a.len() implies a[k] == b[k] by {
        let high_a = hex_lower(a)[2 * k];
        let low_a = hex_lower(a)[2 * k + 1];
        assert(high_a == hex_lower(b)[2 * k]);
        assert(low_a == hex_lower(b)[2 * k + 1]);
        assert((2 * k) / 2 == k && (2 * k + 1) / 2 == k);
        assert(high_a == hex_digit((a[k] / 16) as nat));
        assert(low_a == hex_digit((a[k] % 16) as nat));
        assert(a[k] / 16 == b[k] / 16);
        assert(a[k] % 16 == b[k] % 16);
    }
    assert(a =~= b);
}

/// A signature is a function of the secret and the payload: equal inputs
/// give equal signatures.
pub proof fn lemma_signature_deterministic(
    secret_a: Seq<char>,
    payload_a: Seq<char>,
    secret_b: Seq<char>,
    payload_b: Seq<char>,
)
    requires
        secret_a == secret_b,
        payload_a == payload_b,
    ensures
        signature_text(secret_a, payload_a) == signature_text(secret_b, payload_b),
{
}

/// Every character of a hexadecimal text is a digit or one of `a` to `f`.
pub proof fn lemma_hex_lower_alphabet(bytes: Seq<u8>, i: int)
    requires
        0 <= i < 2 * bytes.len(),
    ensures
        hex_lower(bytes).len() == 2 * bytes.len(),
        ('0' <= hex_lower(bytes)[i] && hex_lower(bytes)[i] <= '9') || ('a' <= hex_lower(bytes)[i]
            && hex_lower(bytes)[i] <= 'f'),
{
}

} // verus!
