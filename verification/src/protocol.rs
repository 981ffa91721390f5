//! Encrypted frames and the messages of the chat and file protocols.
//!
//! Every protocol message travels as one frame whose payload is the message
//! encrypted under the session key. The chat handshake carries the magic
//! `SPCHAT01`, the file metadata the magic `SPFILE01`.
use vstd::prelude::*;
use vstd::utf8::encode_utf8;

use crate::bindings::{
    hex_encode, sha256, sha256_digest, string_from_utf8_lossy, u64_to_string, utf8_lossy,
    AES_GCM_MAX_PLAINTEXT, AES_GCM_TAG_LEN,
};
use crate::crypto::{is_sealed_message, opened_message, SessionKey, SessionKeyError, NONCE_LEN};
use crate::encoding::{decimal, hex_lower};
use crate::worker::{key_error_text, key_error_text_of};
use crate::frame::{
    frame_bytes, lemma_read_frame_of_written, parsed_frame, read_frame, write_frame, FrameError,
    FRAME_HEADER_LEN, MAX_FRAME,
};

verus! {

/// The magic that opens a chat handshake.
pub const HANDSHAKE_MAGIC: &'static str = "SPCHAT01";

/// The magic that opens file-transfer metadata.
pub const FILE_MAGIC: &'static str = "SPFILE01";

/// How many bytes a sealed message adds to its plaintext: nonce and tag.
pub const SEAL_OVERHEAD: usize = 28;

/// Why a protocol step failed.
#[derive(Debug, Clone, Copy, PartialEq, Eq, Structural)]
pub enum ProtocolError {
    /// Writing or reading a frame failed.
    Frame(FrameError),
    /// Encrypting or decrypting a message failed.
    Key(SessionKeyError),
    /// The chat handshake does not carry `SPCHAT01`.
    InvalidHandshakeMagic,
    /// The file metadata does not carry `SPFILE01`.
    InvalidFileMagic,
    /// The received file's size (first) differs from the announced one (second).
    SizeMismatch(u64, u64),
    /// The file is password-protected and no password was given.
    PasswordRequired,
    /// The received file's SHA-256 differs from the announced one.
    ChecksumMismatch,
}

/// Which way a frame was going when it failed: the messages differ.
#[derive(Debug, Clone, Copy, PartialEq, Eq, Structural)]
pub enum Side {
    Write,
    Read,
}

/// The message of a protocol error, as the front end shows it.
pub open spec fn protocol_error_message(e: ProtocolError, side: Side) -> Seq<char> {
    match e {
        ProtocolError::Frame(FrameError::TooLarge(n)) => match side {
            Side::Write => "frame too large: "@ + decimal(n as nat) + " bytes"@,
            Side::Read => "frame length "@ + decimal(n as nat) + " exceeds max "@ + decimal(
                MAX_FRAME as nat,
            ),
        },
        ProtocolError::Frame(FrameError::Incomplete) => "incomplete frame"@,
        ProtocolError::Key(k) => key_error_text(k),
        ProtocolError::InvalidHandshakeMagic => "invalid chat handshake magic"@,
        ProtocolError::InvalidFileMagic => "invalid file transfer magic"@,
        ProtocolError::SizeMismatch(got, expected) => "size mismatch: got "@ + decimal(got as nat)
            + " expected "@ + decimal(expected as nat),
        ProtocolError::PasswordRequired => "This file requires a password"@,
        ProtocolError::ChecksumMismatch => "checksum mismatch"@,
    }
}

/// The message of a protocol error that arose writing or reading (`side`).
pub fn protocol_error_text(e: ProtocolError, side: Side) -> (text: String)
    ensures
        text@ == protocol_error_message(e, side),
{
    match e {
        ProtocolError::Frame(FrameError::TooLarge(n)) => {
            let digits = u64_to_string(n);
            match side {
                Side::Write => {
                    let mut t = "frame too large: ".to_owned();
                    t.append(digits.as_str());
                    t.append(" bytes");
                    t
                },
                Side::Read => {
                    let max = u64_to_string(8388608u64);
                    let mut t = "frame length ".to_owned();
                    t.append(digits.as_str());
                    t.append(" exceeds max ");
                    t.append(max.as_str());
                    t
                },
            }
        },
        ProtocolError::Frame(FrameError::Incomplete) => "incomplete frame".to_owned(),
        ProtocolError::Key(k) => key_error_text_of(k),
        ProtocolError::InvalidHandshakeMagic => "invalid chat handshake magic".to_owned(),
        ProtocolError::InvalidFileMagic => "invalid file transfer magic".to_owned(),
        ProtocolError::SizeMismatch(got, expected) => {
            let g = u64_to_string(got);
            let x = u64_to_string(expected);
            let mut t = "size mismatch: got ".to_owned();
            t.append(g.as_str());
            t.append(" expected ");
            t.append(x.as_str());
            t
        },
        ProtocolError::PasswordRequired => "This file requires a password".to_owned(),
        ProtocolError::ChecksumMismatch => "checksum mismatch".to_owned(),
    }
}

/// The chat handshake each peer sends first.
#[derive(Debug, Clone, PartialEq, Eq)]
pub struct ChatHandshake {
    pub magic: String,
    pub sender_id: String,
    pub role: String,
}

/// What the file host announces before the data.
#[derive(Debug, Clone, PartialEq, Eq)]
pub struct FileMeta {
    pub magic: String,
    pub file_name: String,
    pub size: u64,
    pub sha256: String,
    pub password_hash: Option<String>,
}

/// `after` is `before` followed by one frame whose payload is an encrypted
/// message of `plaintext` under `key`.
pub open spec fn appends_sealed_frame(
    key: Seq<u8>,
    before: Seq<u8>,
    after: Seq<u8>,
    plaintext: Seq<u8>,
) -> bool {
    exists|m: Seq<u8>| #[trigger]
        is_sealed_message(key, m, plaintext) && after == before + frame_bytes(m)
}

/// What reading one encrypted frame from the front of `input` gives: the
/// plaintext and the number of bytes the frame takes.
pub open spec fn opened_frame(key: Seq<u8>, input: Seq<u8>) -> Result<
    (Seq<u8>, int),
    ProtocolError,
> {
    match parsed_frame(input) {
        Err(e) => Err(ProtocolError::Frame(e)),
        Ok((payload, n)) => match opened_message(key, payload) {
            Some(p) => Ok((p, n)),
            None => Err(ProtocolError::Key(SessionKeyError::Decrypt)),
        },
    }
}

/// Encrypts `plaintext` and appends it to `out` as one frame. A plaintext
/// too long for AES-GCM fails to encrypt; an encrypted message over the frame
/// limit is refused; either way `out` is left as it was.
pub fn seal_frame(out: &mut Vec<u8>, key: &SessionKey, plaintext: &[u8]) -> (res: Result<
    (),
    ProtocolError,
>)
    ensures
        res is Ok <==> plaintext@.len() + SEAL_OVERHEAD <= MAX_FRAME,
        res is Ok ==> appends_sealed_frame(key@, old(out)@, final(out)@, plaintext@),
        res is Err ==> final(out)@ == old(out)@,
        plaintext@.len() > AES_GCM_MAX_PLAINTEXT ==> res == Err::<(), _>(
            ProtocolError::Key(SessionKeyError::Encrypt),
        ),
        plaintext@.len() <= AES_GCM_MAX_PLAINTEXT && plaintext@.len() + SEAL_OVERHEAD > MAX_FRAME
            ==> res == Err::<(), _>(
            ProtocolError::Frame(FrameError::TooLarge((plaintext@.len() + SEAL_OVERHEAD) as u64)),
        ),
{
    let msg = match key.encrypt(plaintext) {
        Ok(m) => m,
        Err(e) => return Err(ProtocolError::Key(e)),
    };
    match write_frame(out, &msg) {
        Ok(()) => {},
        Err(e) => return Err(ProtocolError::Frame(e)),
    }
    assert(is_sealed_message(key@, msg@, plaintext@));
    Ok(())
}

/// Decrypts the payload of one received frame.
pub fn open_message(key: &SessionKey, payload: &[u8]) -> (res: Result<Vec<u8>, ProtocolError>)
    ensures
        res matches Ok(p) ==> opened_message(key@, payload@) == Some(p@),
        res is Err <==> opened_message(key@, payload@) is None,
        res is Err ==> res == Err::<Vec<u8>, _>(ProtocolError::Key(SessionKeyError::Decrypt)),
{
    match key.decrypt(payload) {
        Ok(p) => Ok(p),
        Err(e) => Err(ProtocolError::Key(e)),
    }
}

/// Reads one encrypted frame from the front of `input` and decrypts it:
/// the plaintext and the number of bytes the frame takes.
pub fn open_frame(input: &[u8], key: &SessionKey) -> (res: Result<(Vec<u8>, usize), ProtocolError>)
    ensures
        res matches Ok((p, n)) ==> opened_frame(key@, input@) == Ok::<
            (Seq<u8>, int),
            ProtocolError,
        >((p@, n as int)),
        res matches Err(e) ==> opened_frame(key@, input@) == Err::<(Seq<u8>, int), ProtocolError>(
            e,
        ),
{
    let (payload, n) = match read_frame(input) {
        Ok(r) => r,
        Err(e) => return Err(ProtocolError::Frame(e)),
    };
    let p = open_message(key, &payload)?;
    Ok((p, n))
}

/// The frame of an encrypted message opens to the message's plaintext.
pub proof fn lemma_open_frame_of_sealed(
    key: Seq<u8>,
    m: Seq<u8>,
    plaintext: Seq<u8>,
    rest: Seq<u8>,
)
    requires
        is_sealed_message(key, m, plaintext),
        plaintext.len() + SEAL_OVERHEAD <= MAX_FRAME,
    ensures
        opened_frame(key, frame_bytes(m) + rest) == Ok::<(Seq<u8>, int), ProtocolError>(
            (plaintext, FRAME_HEADER_LEN + m.len()),
        ),
{
    lemma_read_frame_of_written(m, rest);
}

/// A frame that `seal_frame` wrote opens, under the same key, to the
/// plaintext it was made of, whatever bytes follow it.
pub proof fn lemma_open_sealed_frame(
    key: Seq<u8>,
    before: Seq<u8>,
    after: Seq<u8>,
    plaintext: Seq<u8>,
    rest: Seq<u8>,
)
    requires
        appends_sealed_frame(key, before, after, plaintext),
        plaintext.len() + SEAL_OVERHEAD <= MAX_FRAME,
    ensures
        opened_frame(key, after.skip(before.len() as int) + rest) == Ok::<
            (Seq<u8>, int),
            ProtocolError,
        >((plaintext, after.len() - before.len())),
{
    let m = choose|m: Seq<u8>| #[trigger]
        is_sealed_message(key, m, plaintext) && after == before + frame_bytes(m);
    let framed = after.skip(before.len() as int);
    assert(framed =~= frame_bytes(m));
    lemma_open_frame_of_sealed(key, m, plaintext, rest);
}

/// The chat handshake that `sender_id` sends in `role`.
pub fn chat_handshake(sender_id: &str, role: &str) -> (hs: ChatHandshake)
    ensures
        hs.magic@ == HANDSHAKE_MAGIC@,
        hs.sender_id@ == sender_id@,
        hs.role@ == role@,
{
    ChatHandshake {
        magic: HANDSHAKE_MAGIC.to_owned(),
        sender_id: sender_id.to_owned(),
        role: role.to_owned(),
    }
}

/// Accepts a received handshake only if it carries `SPCHAT01`.
pub fn check_handshake(hs: ChatHandshake) -> (res: Result<ChatHandshake, ProtocolError>)
    ensures
        res is Ok <==> hs.magic@ == HANDSHAKE_MAGIC@,
        res matches Ok(h) ==> h == hs,
        res is Err ==> res == Err::<ChatHandshake, _>(ProtocolError::InvalidHandshakeMagic),
{
    let expected = HANDSHAKE_MAGIC.to_owned();
    if hs.magic == expected {
        Ok(hs)
    } else {
        Err(ProtocolError::InvalidHandshakeMagic)
    }
}

/// Accepts received file metadata only if it carries `SPFILE01`.
pub fn check_file_meta(meta: FileMeta) -> (res: Result<FileMeta, ProtocolError>)
    ensures
        res is Ok <==> meta.magic@ == FILE_MAGIC@,
        res matches Ok(m) ==> m == meta,
        res is Err ==> res == Err::<FileMeta, _>(ProtocolError::InvalidFileMagic),
{
    let expected = FILE_MAGIC.to_owned();
    if meta.magic == expected {
        Ok(meta)
    } else {
        Err(ProtocolError::InvalidFileMagic)
    }
}

/// Lower-case hex SHA-256 of `data`.
pub open spec fn sha256_hex(data: Seq<u8>) -> Seq<char> {
    hex_lower(sha256(data))
}

/// The digest a password is checked by: lower-case hex SHA-256 of its UTF-8.
pub fn hash_password(password: &str) -> (digest: String)
    ensures
        digest@ == sha256_hex(encode_utf8(password@)),
{
    let bytes = password.as_bytes();
    let d = sha256_digest(bytes);
    hex_encode(&d)
}

/// Lower-case hex SHA-256 of a file's contents.
pub fn file_sha256(data: &[u8]) -> (digest: String)
    ensures
        digest@ == sha256_hex(data@),
{
    let d = sha256_digest(data);
    hex_encode(&d)
}

/// The metadata the host announces for a file: its name, size, checksum,
/// and the hash of the optional password.
pub fn file_meta(file_name: &str, data: &[u8], password: Option<&str>) -> (meta: FileMeta)
    ensures
        meta.magic@ == FILE_MAGIC@,
        meta.file_name@ == file_name@,
        meta.size == data@.len(),
        meta.sha256@ == sha256_hex(data@),
        password is None ==> meta.password_hash is None,
        password matches Some(p) ==> (meta.password_hash matches Some(h) && h@ == sha256_hex(
            encode_utf8(p@),
        )),
{
    let password_hash = match password {
        Some(p) => Some(hash_password(p)),
        None => None,
    };
    FileMeta {
        magic: FILE_MAGIC.to_owned(),
        file_name: file_name.to_owned(),
        size: data.len() as u64,
        sha256: file_sha256(data),
        password_hash,
    }
}

/// The frame payload a receiver sends to prove it knows the password: the
/// password's hash as text.
pub fn password_challenge(password: &str) -> (challenge: Vec<u8>)
    ensures
        challenge@ == encode_utf8(sha256_hex(encode_utf8(password@))),
{
    let h = hash_password(password);
    let s = h.as_str();
    vstd::slice::slice_to_vec(s.as_bytes())
}

/// Whether a received challenge matches the expected password hash: the
/// challenge, read as (lossy) UTF-8, must equal it.
pub fn challenge_accepted(challenge: &[u8], expected_hash: &str) -> (ok: bool)
    ensures
        ok == (utf8_lossy(challenge@) == expected_hash@),
        challenge@ == encode_utf8(expected_hash@) ==> ok,
{
    let got = string_from_utf8_lossy(challenge);
    let expected = expected_hash.to_owned();
    got == expected
}

/// The receiver refuses a password-protected file when it has no password.
pub fn check_password_given(meta: &FileMeta, has_password: bool) -> (res: Result<(), ProtocolError>)
    ensures
        res is Err <==> meta.password_hash is Some && !has_password,
        res is Err ==> res == Err::<(), _>(ProtocolError::PasswordRequired),
{
    if meta.password_hash.is_some() && !has_password {
        Err(ProtocolError::PasswordRequired)
    } else {
        Ok(())
    }
}

/// The receiver accepts the data only if its SHA-256 matches the announced one.
pub fn check_checksum(meta: &FileMeta, data: &[u8]) -> (res: Result<(), ProtocolError>)
    ensures
        res is Ok <==> sha256_hex(data@) == meta.sha256@,
        res is Err ==> res == Err::<(), _>(ProtocolError::ChecksumMismatch),
{
    let digest = file_sha256(data);
    if digest == meta.sha256 {
        Ok(())
    } else {
        Err(ProtocolError::ChecksumMismatch)
    }
}

} // verus!
