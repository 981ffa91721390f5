use secure_passage::qr::{luma_to_rgba, qr_rgba};

#[test]
fn grey_levels_become_opaque_rgba() {
    assert_eq!(luma_to_rgba(&[0, 7, 255]), vec![0, 0, 0, 255, 7, 7, 7, 255, 255, 255, 255, 255]);
    assert!(luma_to_rgba(&[]).is_empty());
}

#[test]
fn qr_image_of_a_short_payload() {
    // Version 1: 21 modules plus a quiet zone of 4 on each side, 8 pixels per module.
    let (width, rgba) = qr_rgba(b"hello").unwrap();
    assert_eq!(width, (21 + 8) * 8);
    assert_eq!(rgba.len(), 4 * width * width);
    assert!(rgba.chunks(4).all(|p| p[3] == 255 && p[0] == p[1] && p[1] == p[2]));
    // The quiet zone is white; some module is dark.
    assert_eq!(&rgba[..4], &[255, 255, 255, 255]);
    assert!(rgba.chunks(4).any(|p| p[0] == 0));
}

#[test]
fn qr_of_an_address_and_key_payload() {
    let payload = format!("{}|{}", "A".repeat(80), "B".repeat(43));
    let (width, rgba) = qr_rgba(payload.as_bytes()).unwrap();
    assert!(width > (21 + 8) * 8);
    assert_eq!(rgba.len(), 4 * width * width);
}

#[test]
fn payload_too_long_for_a_qr_code() {
    assert!(qr_rgba(&vec![b'x'; 4000]).is_none());
}
