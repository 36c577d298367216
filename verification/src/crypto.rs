//! SHA-256, HMAC-SHA-256 and standard base64, as the `sha2`, `hmac` and `base64`
//! crates compute them.
use base64::Engine;
use hmac::Mac;
use sha2::Digest;
use vstd::prelude::*;

verus! {

/// The SHA-256 digest of a byte string, as `sha2::Sha256::digest` computes it.
pub uninterp spec fn sha256(data: Seq<u8>) -> Seq<u8>;

/// The HMAC-SHA-256 tag of a message under a key, as `hmac::Hmac<sha2::Sha256>` computes it.
pub uninterp spec fn hmac_sha256(key: Seq<u8>, message: Seq<u8>) -> Seq<u8>;

/// The padded standard-alphabet base64 text of a byte string, as
/// `base64::engine::general_purpose::STANDARD.encode` writes it.
pub uninterp spec fn base64_encode(data: Seq<u8>) -> Seq<char>;

/// What `base64::engine::general_purpose::STANDARD.decode` gives for a text: the bytes, or
/// `None` on an error.
pub uninterp spec fn base64_decode(text: Seq<char>) -> Option<Seq<u8>>;

/// The characters of the standard base64 alphabet, and the padding character `=`.
pub open spec fn is_base64_char(c: char) -> bool {
    ||| 'A' <= c <= 'Z'
    ||| 'a' <= c <= 'z'
    ||| '0' <= c <= '9'
    ||| c == '+'
    ||| c == '/'
    ||| c == '='
}

/// SHA-256 of `data`.
///
/// Trusted: `sha2::Sha256::digest`. Claimed: the result is the name `sha256` of the input,
/// and it is 32 bytes long (the output size of SHA-256).
#[verifier::external_body]
pub(crate) fn sha256_digest(data: &[u8]) -> (r: Vec<u8>)
    ensures
        r@ == sha256(data@),
        r@.len() == 32,
{
    sha2::Sha256::digest(data).to_vec()
}

/// The HMAC-SHA-256 tag of `message` under `key`.
///
/// Trusted: `hmac::Hmac::<sha2::Sha256>::new_from_slice`, `update` and `finalize`. Claimed:
/// the result is the name `hmac_sha256` of key and message, 32 bytes long. The `unwrap`
/// cannot fail: `new_from_slice` of `HmacCore` accepts keys of every length (it hashes
/// or pads them) and always returns `Ok`.
#[verifier::external_body]
pub(crate) fn hmac_sha256_tag(key: &[u8], message: &[u8]) -> (r: Vec<u8>)
    ensures
        r@ == hmac_sha256(key@, message@),
        r@.len() == 32,
{
    let mut mac = hmac::Hmac::<sha2::Sha256>::new_from_slice(key).unwrap();
    mac.update(message);
    mac.finalize().into_bytes().to_vec()
}

/// Checks `tag` against the HMAC-SHA-256 tag of `message` under `key`.
///
/// Trusted: `hmac::Hmac::<sha2::Sha256>::new_from_slice`, `update` and `verify_slice`.
/// Claimed: the answer is whether `tag` equals the name `hmac_sha256` of key and message
/// (`verify_slice` refuses a tag of another length and compares all 32 bytes otherwise).
#[verifier::external_body]
pub(crate) fn hmac_sha256_verify(key: &[u8], message: &[u8], tag: &[u8]) -> (ok: bool)
    ensures
        ok == (tag@ == hmac_sha256(key@, message@)),
{
    match hmac::Hmac::<sha2::Sha256>::new_from_slice(key) {
        Ok(mut mac) => {
            mac.update(message);
            mac.verify_slice(tag).is_ok()
        },
        Err(_) => false,
    }
}

/// The padded standard base64 text of `data`.
///
/// Trusted: `base64::engine::general_purpose::STANDARD.encode`. Claimed: the result is the
/// name `base64_encode` of the input; it is `4 * ceil(n / 3)` characters long for `n` input
/// bytes (`encoded_len` with padding); its characters are those of the standard alphabet,
/// with `=` exactly in the `(3 - n % 3) % 3` padding places at its end; and
/// `STANDARD.decode` gives the input back for it. `requires` keeps the input far below the
/// length at which `encode` panics on an overflowing size computation.
#[verifier::external_body]
pub(crate) fn base64_encode_bytes(data: &[u8]) -> (r: String)
    requires
        data@.len() <= usize::MAX / 2,
    ensures
        r@ == base64_encode(data@),
        forall|i: int| 0 <= i < r@.len() ==> is_base64_char(#[trigger] r@[i]),
        r@.len() == 4 * ((data@.len() + 2) / 3),
        forall|i: int|
            0 <= i < r@.len() ==> (#[trigger] r@[i] == '=' <==> i >= r@.len() - (3 - data@.len()
                % 3) % 3),
        base64_decode(r@) == Some(data@),
{
    base64::engine::general_purpose::STANDARD.encode(data)
}

/// Decodes padded standard base64.
///
/// Trusted: `base64::engine::general_purpose::STANDARD.decode`. Claimed: the result is the
/// name `base64_decode` of the text, and a text that decodes is the encoding of what it
/// decodes to (the `STANDARD` configuration requires canonical padding and refuses
/// non-zero trailing bits, so decoding accepts only canonical encodings).
#[verifier::external_body]
pub(crate) fn base64_decode_text(text: &str) -> (r: Option<Vec<u8>>)
    ensures
        match r {
            Some(v) => base64_decode(text@) == Some(v@) && text@ == base64_encode(v@),
            None => base64_decode(text@) is None,
        },
{
    match base64::engine::general_purpose::STANDARD.decode(text) {
        Ok(v) => Some(v),
        Err(_) => None,
    }
}

} // verus!
