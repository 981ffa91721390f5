//! The calls that the library makes into outside crates and into parts of
//! std that vstd does not describe. Each item here is trusted: Verus believes
//! its contract, and its doc comment says what that contract claims.
use aes_gcm::aead::{Aead, KeyInit};
use aes_gcm::{Aes256Gcm, Key, Nonce};
use base64::engine::general_purpose::URL_SAFE_NO_PAD;
use base64::Engine;
use rand::RngCore;
use sha2::{Digest, Sha256};
use vstd::prelude::*;
use vstd::utf8::encode_utf8;

use crate::encoding::{b64url_encode, decimal, hex_lower, trim_ws};

verus! {

/// `base64::DecodeError`, the error of a base64 decode.
#[verifier::external_type_specification]
#[verifier::external_body]
pub struct ExBase64DecodeError(base64::DecodeError);

/// `aes_gcm::Error`, the opaque error of an AEAD operation.
#[verifier::external_type_specification]
#[verifier::external_body]
pub struct ExAeadError(aes_gcm::Error);

/// The largest plaintext that AES-256-GCM accepts (`aes_gcm::P_MAX`, 2^36 bytes).
pub const AES_GCM_MAX_PLAINTEXT: u64 = 68719476736;

/// The size in bytes of the authentication tag that AES-256-GCM appends.
pub const AES_GCM_TAG_LEN: usize = 16;

/// Calls `URL_SAFE_NO_PAD.encode` of the `base64` crate. Claimed: the result
/// is the URL-safe, unpadded base64 text of `bytes`. The bound on the length
/// keeps the crate's output-size computation from overflowing (it panics then).
#[verifier::external_body]
pub(crate) fn base64_url_encode(bytes: &[u8]) -> (text: String)
    requires
        bytes@.len() <= usize::MAX / 2,
    ensures
        text@ == b64url_encode(bytes@),
{
    URL_SAFE_NO_PAD.encode(bytes)
}

/// Calls `URL_SAFE_NO_PAD.decode` of the `base64` crate. That engine requires
/// the absence of padding and rejects non-zero trailing bits, so decoding is
/// the exact inverse of encoding. Claimed: a success returns bytes whose
/// encoding is `text`, and whenever `text` is the encoding of some bytes, the
/// call succeeds with those bytes.
#[verifier::external_body]
pub(crate) fn base64_url_decode(text: &str) -> (res: Result<Vec<u8>, base64::DecodeError>)
    ensures
        res matches Ok(v) ==> b64url_encode(v@) == text@,
        forall|b: Seq<u8>|
            #[trigger] b64url_encode(b) == text@ ==> res is Ok && res.unwrap()@ == b,
{
    URL_SAFE_NO_PAD.decode(text)
}

/// Calls `str::trim`. Claimed, as its documentation states: the result is
/// `text` without leading and trailing white space (Unicode `White_Space`).
#[verifier::external_body]
pub(crate) fn str_trim(text: &str) -> (trimmed: &str)
    ensures
        trimmed@ == trim_ws(text@),
{
    text.trim()
}

/// Calls `rand::thread_rng().fill_bytes` on a fresh array of `N` bytes.
/// Nothing is claimed of the bytes: they are random.
#[verifier::external_body]
pub(crate) fn random_bytes<const N: usize>() -> (bytes: [u8; N]) {
    let mut bytes = [0u8; N];
    rand::thread_rng().fill_bytes(&mut bytes);
    bytes
}

/// The ciphertext and tag that AES-256-GCM produces for `plaintext` under
/// `key` and `nonce`, with no associated data.
pub uninterp spec fn aes256gcm_seal(key: Seq<u8>, nonce: Seq<u8>, plaintext: Seq<u8>) -> Seq<u8>;

/// The plaintext that AES-256-GCM recovers from `ciphertext` (with its tag)
/// under `key` and `nonce`, or `None` where authentication fails.
pub uninterp spec fn aes256gcm_open(key: Seq<u8>, nonce: Seq<u8>, ciphertext: Seq<u8>) -> Option<
    Seq<u8>,
>;

/// Calls `Aes256Gcm::encrypt` (trait `aead::Aead`) with a cipher made from
/// `key` and no associated data. Claimed, from the crate's source: it fails
/// exactly when the plaintext is longer than `aes_gcm::P_MAX`; a success is
/// the named ciphertext, which is the plaintext's length plus the 16-byte
/// tag; and, the defining property of an AEAD cipher, that ciphertext opens
/// under the same key and nonce to the plaintext.
#[verifier::external_body]
pub(crate) fn aes256gcm_encrypt(key: &[u8; 32], nonce: &[u8; 12], plaintext: &[u8]) -> (res: Result<
    Vec<u8>,
    aes_gcm::Error,
>)
    ensures
        res is Ok <==> plaintext@.len() <= AES_GCM_MAX_PLAINTEXT,
        res matches Ok(ct) ==> ct@ == aes256gcm_seal(key@, nonce@, plaintext@) && ct@.len()
            == plaintext@.len() + AES_GCM_TAG_LEN && aes256gcm_open(key@, nonce@, ct@) == Some(
            plaintext@,
        ),
{
    Aes256Gcm::new(Key::<Aes256Gcm>::from_slice(key)).encrypt(Nonce::from_slice(nonce), plaintext)
}

/// Calls `Aes256Gcm::decrypt` (trait `aead::Aead`) with a cipher made from
/// `key` and no associated data. Claimed: the result is the named plaintext,
/// an error where authentication fails; input shorter than the tag is
/// refused, as the source checks.
#[verifier::external_body]
pub(crate) fn aes256gcm_decrypt(key: &[u8; 32], nonce: &[u8; 12], ciphertext: &[u8]) -> (res: Result<
    Vec<u8>,
    aes_gcm::Error,
>)
    ensures
        res matches Ok(p) ==> aes256gcm_open(key@, nonce@, ciphertext@) == Some(p@),
        res is Err <==> aes256gcm_open(key@, nonce@, ciphertext@) is None,
        ciphertext@.len() < AES_GCM_TAG_LEN ==> res is Err,
{
    Aes256Gcm::new(Key::<Aes256Gcm>::from_slice(key)).decrypt(Nonce::from_slice(nonce), ciphertext)
}

/// The text that `String::from_utf8_lossy` makes of `bytes`: invalid
/// UTF-8 sequences become U+FFFD.
pub uninterp spec fn utf8_lossy(bytes: Seq<u8>) -> Seq<char>;

/// Calls `String::from_utf8_lossy`. Claimed: the result is the named text;
/// and, as its documentation says, valid UTF-8 comes back as the text it
/// encodes.
#[verifier::external_body]
pub(crate) fn string_from_utf8_lossy(bytes: &[u8]) -> (text: String)
    ensures
        text@ == utf8_lossy(bytes@),
        forall|s: Seq<char>| #[trigger] encode_utf8(s) == bytes@ ==> text@ == s,
{
    String::from_utf8_lossy(bytes).into_owned()
}

/// The SHA-256 digest of `data`.
pub uninterp spec fn sha256(data: Seq<u8>) -> Seq<u8>;

/// Calls `Sha256::digest` of the `sha2` crate. Claimed: the result is the
/// named digest of `data`.
#[verifier::external_body]
pub(crate) fn sha256_digest(data: &[u8]) -> (digest: [u8; 32])
    ensures
        digest@ == sha256(data@),
{
    Sha256::digest(data).into()
}

/// Calls `hex::encode`. Claimed: the result is the lower-case hexadecimal
/// text of `data`, two digits per byte, high nibble first.
#[verifier::external_body]
pub(crate) fn hex_encode(data: &[u8]) -> (text: String)
    ensures
        text@ == hex_lower(data@),
{
    hex::encode(data)
}

/// Calls `u64::to_string` (its `Display`). Claimed: the result is the
/// decimal digits of `n`.
#[verifier::external_body]
pub(crate) fn u64_to_string(n: u64) -> (text: String)
    ensures
        text@ == decimal(n as nat),
{
    n.to_string()
}

/// The text that `str::to_lowercase` makes of `s` (Unicode lower-casing).
pub uninterp spec fn lowercase(s: Seq<char>) -> Seq<char>;

/// Calls `str::to_lowercase`. Claimed: the result is the named lower-case
/// text of `s`.
#[verifier::external_body]
pub(crate) fn str_to_lowercase(s: &str) -> (lower: String)
    ensures
        lower@ == lowercase(s@),
{
    s.to_lowercase()
}

/// The QR code that `qrcode::QrCode::new` chooses for `payload`, rendered
/// as a square grey-scale image with its quiet zone: the image's width in
/// pixels and its grey levels, row by row; `None` where the payload does not
/// fit a QR code.
pub uninterp spec fn qr_luma(payload: Seq<u8>) -> Option<(nat, Seq<u8>)>;

/// Calls `qrcode::QrCode::new` and renders the code with
/// `render::<image::Luma<u8>>().quiet_zone(true).build()`. Claimed: the
/// result is the named image, `None` exactly where the crate refuses the
/// payload; the renderer draws a square canvas, so there are width × width
/// grey levels.
#[verifier::external_body]
pub(crate) fn qr_render(payload: &[u8]) -> (res: Option<(usize, Vec<u8>)>)
    ensures
        res is None <==> qr_luma(payload@) is None,
        res matches Some((w, v)) ==> qr_luma(payload@) == Some((w as nat, v@)) && v@.len() == w
            * w,
{
    match qrcode::QrCode::new(payload) {
        Ok(code) => {
            let image = code.render::<image::Luma<u8>>().quiet_zone(true).build();
            Some((image.width() as usize, image.into_raw()))
        },
        Err(_) => None,
    }
}

} // verus!
