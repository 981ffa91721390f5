use secure_passage::frame::{frame_header, frame_length, read_frame, write_frame, FrameError, MAX_FRAME};

#[test]
fn frame_roundtrip() {
    let mut buf = Vec::new();
    write_frame(&mut buf, b"hello").unwrap();
    let (got, used) = read_frame(&buf).unwrap();
    assert_eq!(got, b"hello");
    assert_eq!(used, 9);
}

#[test]
fn frame_is_big_endian_length_then_payload() {
    let mut buf = vec![9u8];
    write_frame(&mut buf, b"hey").unwrap();
    assert_eq!(buf, vec![9, 0, 0, 0, 3, b'h', b'e', b'y']);
    assert_eq!(frame_header(0x010203).unwrap(), [0, 1, 2, 3]);
    assert_eq!(frame_length(&[0, 0, 1, 0]).unwrap(), 256);
}

#[test]
fn empty_frame_is_four_zero_bytes() {
    let mut buf = Vec::new();
    write_frame(&mut buf, &[]).unwrap();
    assert_eq!(buf, vec![0, 0, 0, 0]);
    assert_eq!(read_frame(&buf).unwrap(), (Vec::new(), 4));
}

#[test]
fn write_frame_refuses_oversized_payload() {
    let big = vec![0u8; MAX_FRAME + 1];
    let mut buf = vec![1u8, 2];
    assert_eq!(
        write_frame(&mut buf, &big),
        Err(FrameError::TooLarge((MAX_FRAME + 1) as u64))
    );
    assert_eq!(buf, vec![1, 2]);
    let max = vec![0u8; MAX_FRAME];
    assert!(write_frame(&mut Vec::new(), &max).is_ok());
}

#[test]
fn read_frame_refuses_oversized_length() {
    let header = [0u8, 0x80, 0, 1];
    assert_eq!(read_frame(&header), Err(FrameError::TooLarge(0x0080_0001)));
    assert_eq!(frame_length(&[0xff, 0xff, 0xff, 0xff]), Err(FrameError::TooLarge(0xffff_ffff)));
    assert_eq!(frame_header(MAX_FRAME + 1), Err(FrameError::TooLarge((MAX_FRAME + 1) as u64)));
}

#[test]
fn read_frame_reports_incomplete_input() {
    assert_eq!(read_frame(&[0, 0, 0]), Err(FrameError::Incomplete));
    assert_eq!(read_frame(&[0, 0, 0, 5, 1, 2]), Err(FrameError::Incomplete));
}

#[test]
fn read_frame_leaves_what_follows() {
    let mut buf = Vec::new();
    write_frame(&mut buf, b"one").unwrap();
    write_frame(&mut buf, b"two!").unwrap();
    let (first, n) = read_frame(&buf).unwrap();
    assert_eq!(first, b"one");
    let (second, m) = read_frame(&buf[n..]).unwrap();
    assert_eq!(second, b"two!");
    assert_eq!(n + m, buf.len());
}
