//! AES-256-GCM session keys for app-layer encryption.
//!
//! A session key is 32 bytes, shared out-of-band as URL-safe base64 without
//! padding. An encrypted message is the 12-byte nonce followed by the
//! AES-256-GCM ciphertext and tag.
use vstd::prelude::*;

use crate::bindings::{
    aes256gcm_decrypt, aes256gcm_encrypt, aes256gcm_open, aes256gcm_seal, base64_url_decode,
    base64_url_encode, random_bytes, str_trim, AES_GCM_MAX_PLAINTEXT, AES_GCM_TAG_LEN,
};
use crate::encoding::{
    b64url_encode, is_b64_char, is_white_space, lemma_b64url_encode_chars,
    lemma_b64url_encode_nonempty, lemma_trim_ws_unchanged, trim_ws,
};

verus! {

/// Length of the nonce that starts every encrypted message.
pub const NONCE_LEN: usize = 12;

/// Length of a session key.
pub const KEY_LEN: usize = 32;

/// Why a session-key operation failed.
#[derive(Debug, Clone, Copy, PartialEq, Eq, Structural)]
pub enum SessionKeyError {
    InvalidEncoding,
    InvalidLength,
    Encrypt,
    Decrypt,
}

/// 32-byte session key shared out-of-band (copy / QR).
#[derive(Clone)]
pub struct SessionKey {
    key: [u8; 32],
}

impl View for SessionKey {
    type V = Seq<u8>;

    closed spec fn view(&self) -> Seq<u8> {
        self.key@
    }
}

/// The text of a session key: some bytes whose base64 encoding is the
/// trimmed input.
pub open spec fn is_base64_of(text: Seq<char>, bytes: Seq<u8>) -> bool {
    b64url_encode(bytes) == trim_ws(text)
}

/// Why `text` is no session key, or `None` where it is one.
pub open spec fn key_text_error(text: Seq<char>) -> Option<SessionKeyError> {
    if !exists|b: Seq<u8>| #[trigger] is_base64_of(text, b) {
        Some(SessionKeyError::InvalidEncoding)
    } else if exists|b: Seq<u8>| #[trigger] is_base64_of(text, b) && b.len() != KEY_LEN {
        Some(SessionKeyError::InvalidLength)
    } else {
        None
    }
}

/// `data` is an encrypted message of `plaintext` under `key`: a nonce
/// followed by the AES-256-GCM sealing of `plaintext` under that nonce.
pub open spec fn is_sealed_message(key: Seq<u8>, data: Seq<u8>, plaintext: Seq<u8>) -> bool {
    &&& data.len() == NONCE_LEN + plaintext.len() + AES_GCM_TAG_LEN
    &&& data.skip(NONCE_LEN as int) == aes256gcm_seal(key, data.take(NONCE_LEN as int), plaintext)
    &&& opened_message(key, data) == Some(plaintext)
}

/// What decrypting `data` under `key` gives: the nonce is the first
/// 12 bytes; at least one byte must follow it; the rest must open.
pub open spec fn opened_message(key: Seq<u8>, data: Seq<u8>) -> Option<Seq<u8>> {
    if data.len() < NONCE_LEN + 1 {
        None
    } else {
        aes256gcm_open(key, data.take(NONCE_LEN as int), data.skip(NONCE_LEN as int))
    }
}

impl SessionKey {
    /// Every session key is 32 bytes long.
    pub proof fn lemma_view_len(&self)
        ensures
            self@.len() == KEY_LEN,
    {
    }

    /// A fresh random key.
    pub fn generate() -> (k: Self)
        ensures
            k@.len() == KEY_LEN,
    {
        let key: [u8; 32] = random_bytes::<32>();
        SessionKey { key }
    }

    /// The key whose bytes are `bytes`.
    pub fn from_bytes(bytes: [u8; 32]) -> (k: Self)
        ensures
            k@ == bytes@,
    {
        SessionKey { key: bytes }
    }

    /// Parses a key from URL-safe unpadded base64, ignoring surrounding white
    /// space. Text that is no such encoding is `InvalidEncoding`; an encoding
    /// of anything but 32 bytes is `InvalidLength`.
    pub fn from_base64(s: &str) -> (res: Result<Self, SessionKeyError>)
        ensures
            res matches Ok(k) ==> k@.len() == KEY_LEN && is_base64_of(s@, k@) && forall|b: Seq<u8>|
                #[trigger] is_base64_of(s@, b) ==> b == k@,
            res is Ok <==> exists|b: Seq<u8>| #[trigger]
                is_base64_of(s@, b) && b.len() == KEY_LEN,
            res == Err::<Self, _>(SessionKeyError::InvalidEncoding) <==> !exists|b: Seq<u8>|
                #[trigger] is_base64_of(s@, b),
            res == Err::<Self, _>(SessionKeyError::InvalidLength) <==> exists|b: Seq<u8>|
                #[trigger] is_base64_of(s@, b) && b.len() != KEY_LEN,
            res is Ok <==> key_text_error(s@) is None,
            res matches Err(e) ==> key_text_error(s@) == Some(e),
    {
        let trimmed = str_trim(s);
        let decoded = base64_url_decode(trimmed);
        let bytes = match decoded {
            Ok(b) => b,
            Err(_) => {
                assert forall|b: Seq<u8>| !#[trigger] is_base64_of(s@, b) by {
                    if is_base64_of(s@, b) {
                        assert(b64url_encode(b) == trimmed@);
                    }
                }
                return Err(SessionKeyError::InvalidEncoding);
            },
        };
        assert(is_base64_of(s@, bytes@));
        if bytes.len() != KEY_LEN {
            assert forall|b: Seq<u8>| #[trigger] is_base64_of(s@, b) implies b == bytes@ by {
                assert(b64url_encode(b) == trimmed@);
            }
            return Err(SessionKeyError::InvalidLength);
        }
        let mut key = [0u8; 32];
        let mut i: usize = 0;
        while i < KEY_LEN
            invariant
                i <= KEY_LEN,
                bytes@.len() == KEY_LEN,
                forall|j: int| 0 <= j < i ==> key@[j] == bytes@[j],
            decreases KEY_LEN - i,
        {
            key[i] = bytes[i];
            i += 1;
        }
        assert(key@ == bytes@);
        assert forall|b: Seq<u8>| #[trigger] is_base64_of(s@, b) implies b == bytes@ by {
            assert(b64url_encode(b) == trimmed@);
        }
        Ok(SessionKey { key })
    }

    /// The key as URL-safe unpadded base64 (43 characters).
    pub fn to_base64(&self) -> (text: String)
        ensures
            text@ == b64url_encode(self@),
    {
        base64_url_encode(&self.key)
    }

    /// Encrypts `plaintext` under a fresh random nonce; the output is the
    /// nonce followed by the ciphertext and tag. Fails only for a plaintext
    /// longer than AES-GCM allows.
    pub fn encrypt(&self, plaintext: &[u8]) -> (res: Result<Vec<u8>, SessionKeyError>)
        ensures
            res is Ok <==> plaintext@.len() <= AES_GCM_MAX_PLAINTEXT,
            res matches Ok(out) ==> is_sealed_message(self@, out@, plaintext@),
            res is Err ==> res == Err::<Vec<u8>, _>(SessionKeyError::Encrypt),
    {
        let nonce: [u8; 12] = random_bytes::<12>();
        self.encrypt_with_nonce(&nonce, plaintext)
    }

    /// Encrypts `plaintext` under the given nonce; the output is the nonce
    /// followed by the ciphertext and tag.
    pub fn encrypt_with_nonce(&self, nonce: &[u8; 12], plaintext: &[u8]) -> (res: Result<
        Vec<u8>,
        SessionKeyError,
    >)
        ensures
            res is Ok <==> plaintext@.len() <= AES_GCM_MAX_PLAINTEXT,
            res matches Ok(out) ==> out@ == nonce@ + aes256gcm_seal(self@, nonce@, plaintext@)
                && is_sealed_message(self@, out@, plaintext@),
            res is Err ==> res == Err::<Vec<u8>, _>(SessionKeyError::Encrypt),
    {
        let ct = match aes256gcm_encrypt(&self.key, nonce, plaintext) {
            Ok(ct) => ct,
            Err(_) => return Err(SessionKeyError::Encrypt),
        };
        let mut out: Vec<u8> = Vec::new();
        let mut i: usize = 0;
        while i < NONCE_LEN
            invariant
                i <= NONCE_LEN,
                out@ == nonce@.take(i as int),
            decreases NONCE_LEN - i,
        {
            out.push(nonce[i]);
            i += 1;
        }
        assert(nonce@.take(12) == nonce@);
        let mut j: usize = 0;
        while j < ct.len()
            invariant
                j <= ct@.len(),
                out@ == nonce@ + ct@.take(j as int),
            decreases ct@.len() - j,
        {
            out.push(ct[j]);
            j += 1;
        }
        assert(ct@.take(ct@.len() as int) == ct@);
        assert(out@.take(NONCE_LEN as int) == nonce@);
        assert(out@.skip(NONCE_LEN as int) == ct@);
        Ok(out)
    }

    /// Decrypts a message made by `encrypt`: the first 12 bytes are the
    /// nonce, and at least one byte must follow. Any failure is `Decrypt`.
    /// (A message that `encrypt` made of a plaintext under this key opens to
    /// that plaintext: see `is_sealed_message`.)
    pub fn decrypt(&self, data: &[u8]) -> (res: Result<Vec<u8>, SessionKeyError>)
        ensures
            res matches Ok(p) ==> opened_message(self@, data@) == Some(p@),
            res is Err <==> opened_message(self@, data@) is None,
            res is Err ==> res == Err::<Vec<u8>, _>(SessionKeyError::Decrypt),
    {
        if data.len() < NONCE_LEN + 1 {
            return Err(SessionKeyError::Decrypt);
        }
        let mut nonce = [0u8; 12];
        let mut i: usize = 0;
        while i < NONCE_LEN
            invariant
                i <= NONCE_LEN,
                data@.len() >= NONCE_LEN + 1,
                forall|j: int| 0 <= j < i ==> nonce@[j] == data@[j],
            decreases NONCE_LEN - i,
        {
            nonce[i] = data[i];
            i += 1;
        }
        assert(nonce@ == data@.take(NONCE_LEN as int));
        let ct = vstd::slice::slice_subrange(data, NONCE_LEN, data.len());
        assert(ct@ == data@.skip(NONCE_LEN as int));
        match aes256gcm_decrypt(&self.key, &nonce, ct) {
            Ok(p) => Ok(p),
            Err(_) => Err(SessionKeyError::Decrypt),
        }
    }
}

/// The text of a key parses back to the same key: `from_base64` undoes
/// `to_base64`.
pub proof fn lemma_base64_roundtrip(key: Seq<u8>)
    requires
        key.len() == KEY_LEN,
    ensures
        is_base64_of(b64url_encode(key), key),
{
    let text = b64url_encode(key);
    lemma_b64url_encode_chars(key);
    lemma_b64url_encode_nonempty(key);
    assert(is_b64_char(text[0]));
    assert(is_b64_char(text[text.len() - 1]));
    lemma_trim_ws_unchanged(text);
}

/// What `encrypt` returns decrypts, under the same key, to the plaintext.
pub proof fn lemma_decrypt_inverts_encrypt(key: Seq<u8>, data: Seq<u8>, plaintext: Seq<u8>)
    requires
        is_sealed_message(key, data, plaintext),
    ensures
        opened_message(key, data) == Some(plaintext),
{
}

} // verus!
