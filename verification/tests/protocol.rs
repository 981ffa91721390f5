use secure_passage::crypto::{SessionKey, SessionKeyError};
use secure_passage::frame::{write_frame, FrameError, MAX_FRAME};
use secure_passage::protocol::{protocol_error_text, Side};
use secure_passage::protocol::{
    challenge_accepted, chat_handshake, check_checksum, check_file_meta, check_handshake,
    check_password_given, file_meta, file_sha256, hash_password, open_frame, open_message,
    password_challenge, seal_frame, ChatHandshake, FileMeta, ProtocolError, FILE_MAGIC,
    HANDSHAKE_MAGIC, SEAL_OVERHEAD,
};

#[test]
fn sealed_frame_opens_to_its_plaintext() {
    let key = SessionKey::generate();
    let mut buf = vec![0xaa];
    seal_frame(&mut buf, &key, b"{\"hello\":1}").unwrap();
    buf.extend_from_slice(b"trailing");
    let (plain, used) = open_frame(&buf[1..], &key).unwrap();
    assert_eq!(plain, b"{\"hello\":1}");
    assert_eq!(used, 4 + 12 + 11 + 16);
    assert_eq!(&buf[1 + used..], b"trailing");
}

#[test]
fn seal_frame_refuses_what_does_not_fit_a_frame() {
    let key = SessionKey::generate();
    let mut buf = vec![5u8];
    let big = vec![0u8; MAX_FRAME - SEAL_OVERHEAD + 1];
    assert_eq!(
        seal_frame(&mut buf, &key, &big),
        Err(ProtocolError::Frame(FrameError::TooLarge((MAX_FRAME + 1) as u64)))
    );
    assert_eq!(buf, vec![5u8]);
    let fits = vec![0u8; MAX_FRAME - SEAL_OVERHEAD];
    assert!(seal_frame(&mut buf, &key, &fits).is_ok());
}

#[test]
fn open_frame_reports_frame_and_key_errors() {
    let key = SessionKey::generate();
    assert_eq!(open_frame(&[0, 0], &key), Err(ProtocolError::Frame(FrameError::Incomplete)));
    let mut buf = Vec::new();
    write_frame(&mut buf, b"not a sealed message at all").unwrap();
    assert_eq!(
        open_frame(&buf, &key),
        Err(ProtocolError::Key(SessionKeyError::Decrypt))
    );
    assert_eq!(open_message(&key, b"short"), Err(ProtocolError::Key(SessionKeyError::Decrypt)));
}

#[test]
fn handshake_magic_is_checked() {
    let hs = chat_handshake("me", "peer");
    assert_eq!(hs.magic, HANDSHAKE_MAGIC);
    assert_eq!(hs.sender_id, "me");
    assert_eq!(hs.role, "peer");
    assert_eq!(check_handshake(hs.clone()), Ok(hs));
    let bad = ChatHandshake { magic: "SPCHAT02".into(), sender_id: "x".into(), role: "peer".into() };
    assert_eq!(check_handshake(bad), Err(ProtocolError::InvalidHandshakeMagic));
}

#[test]
fn file_meta_describes_the_file() {
    let meta = file_meta("a.txt", b"abc", Some("pw"));
    assert_eq!(meta.magic, FILE_MAGIC);
    assert_eq!(meta.file_name, "a.txt");
    assert_eq!(meta.size, 3);
    assert_eq!(meta.sha256, "ba7816bf8f01cfea414140de5dae2223b00361a396177a9cb410ff61f20015ad");
    assert_eq!(meta.password_hash, Some(hash_password("pw")));
    assert_eq!(file_meta("b", b"", None).password_hash, None);
    assert_eq!(check_file_meta(meta.clone()), Ok(meta));
}

#[test]
fn file_meta_magic_is_checked() {
    let meta = FileMeta {
        magic: "SPCHAT01".into(),
        file_name: "x".into(),
        size: 0,
        sha256: String::new(),
        password_hash: None,
    };
    assert_eq!(check_file_meta(meta), Err(ProtocolError::InvalidFileMagic));
}

#[test]
fn digests_are_lower_case_hex_sha256() {
    assert_eq!(
        hash_password("password"),
        "5e884898da28047151d0e56f8dc6292773603d0d6aabbdd62a11ef721d1542d8"
    );
    assert_eq!(
        file_sha256(b""),
        "e3b0c44298fc1c149afbf4c8996fb92427ae41e4649b934ca495991b7852b855"
    );
}

#[test]
fn password_challenge_is_accepted_by_its_hash() {
    let challenge = password_challenge("hunter2");
    assert_eq!(challenge, hash_password("hunter2").into_bytes());
    assert!(challenge_accepted(&challenge, &hash_password("hunter2")));
    assert!(!challenge_accepted(&challenge, &hash_password("hunter3")));
    assert!(!challenge_accepted(&[0xff, 0xfe], &hash_password("hunter2")));
}

#[test]
fn receiver_checks_password_and_checksum() {
    let meta = file_meta("f", b"data", Some("pw"));
    assert_eq!(check_password_given(&meta, false), Err(ProtocolError::PasswordRequired));
    assert_eq!(check_password_given(&meta, true), Ok(()));
    let open = file_meta("f", b"data", None);
    assert_eq!(check_password_given(&open, false), Ok(()));
    assert_eq!(check_checksum(&meta, b"data"), Ok(()));
    assert_eq!(check_checksum(&meta, b"dat4"), Err(ProtocolError::ChecksumMismatch));
}

#[test]
fn protocol_errors_have_their_messages() {
    let too_large = ProtocolError::Frame(FrameError::TooLarge(9000000));
    assert_eq!(protocol_error_text(too_large, Side::Write), "frame too large: 9000000 bytes");
    assert_eq!(
        protocol_error_text(too_large, Side::Read),
        "frame length 9000000 exceeds max 8388608"
    );
    assert_eq!(protocol_error_text(ProtocolError::Frame(FrameError::Incomplete), Side::Read), "incomplete frame");
    assert_eq!(
        protocol_error_text(ProtocolError::Key(SessionKeyError::Decrypt), Side::Read),
        "decryption failed"
    );
    assert_eq!(
        protocol_error_text(ProtocolError::Key(SessionKeyError::InvalidLength), Side::Read),
        "invalid session key length"
    );
    assert_eq!(protocol_error_text(ProtocolError::InvalidHandshakeMagic, Side::Read), "invalid chat handshake magic");
    assert_eq!(protocol_error_text(ProtocolError::InvalidFileMagic, Side::Read), "invalid file transfer magic");
    assert_eq!(
        protocol_error_text(ProtocolError::SizeMismatch(10, 0), Side::Read),
        "size mismatch: got 10 expected 0"
    );
    assert_eq!(protocol_error_text(ProtocolError::PasswordRequired, Side::Read), "This file requires a password");
    assert_eq!(protocol_error_text(ProtocolError::ChecksumMismatch, Side::Read), "checksum mismatch");
}
