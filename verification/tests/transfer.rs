use secure_passage::crypto::{SessionKey, SessionKeyError};
use secure_passage::frame::{read_frame, write_frame, FrameError};
use secure_passage::protocol::{check_checksum, file_meta, ProtocolError};
use secure_passage::transfer::{
    recv_file_data, send_file_data, FileReceiver, FileSender, RecvStep, CHUNK_SIZE,
};

fn sample(n: usize) -> Vec<u8> {
    (0..n).map(|i| (i * 31 % 251) as u8).collect()
}

#[test]
fn file_transfer_round_trips_for_many_sizes() {
    let key = SessionKey::generate();
    for n in [0, 1, 1000, CHUNK_SIZE - 1, CHUNK_SIZE, CHUNK_SIZE + 1, 3 * CHUNK_SIZE + 17] {
        let data = sample(n);
        let mut stream = Vec::new();
        send_file_data(&mut stream, &key, &data);
        stream.extend_from_slice(b"after");
        let (got, used) = recv_file_data(&stream, &key, n as u64).unwrap();
        assert_eq!(got, data);
        assert_eq!(&stream[used..], b"after");
    }
}

#[test]
fn send_file_data_reports_progress_per_chunk() {
    let key = SessionKey::generate();
    let data = sample(2 * CHUNK_SIZE + 5);
    let mut stream = Vec::new();
    let progress = send_file_data(&mut stream, &key, &data);
    let total = data.len() as u64;
    assert_eq!(
        progress,
        vec![(CHUNK_SIZE as u64, total), (2 * CHUNK_SIZE as u64, total), (total, total)]
    );
    assert!(send_file_data(&mut Vec::new(), &key, &[]).is_empty());
}

#[test]
fn stream_is_chunk_frames_then_empty_frame() {
    let key = SessionKey::generate();
    let data = sample(CHUNK_SIZE + 10);
    let mut stream = Vec::new();
    send_file_data(&mut stream, &key, &data);
    let (first, n1) = read_frame(&stream).unwrap();
    assert_eq!(first.len(), 12 + CHUNK_SIZE + 16);
    assert_eq!(key.decrypt(&first).unwrap(), &data[..CHUNK_SIZE]);
    let (second, n2) = read_frame(&stream[n1..]).unwrap();
    assert_eq!(key.decrypt(&second).unwrap(), &data[CHUNK_SIZE..]);
    let (end, n3) = read_frame(&stream[n1 + n2..]).unwrap();
    assert!(end.is_empty());
    assert_eq!(n1 + n2 + n3, stream.len());
}

#[test]
fn recv_file_data_checks_size() {
    let key = SessionKey::generate();
    let data = sample(10);
    let mut stream = Vec::new();
    send_file_data(&mut stream, &key, &data);
    assert_eq!(recv_file_data(&stream, &key, 11), Err(ProtocolError::SizeMismatch(10, 11)));
}

#[test]
fn recv_file_data_reports_bad_frames() {
    let key = SessionKey::generate();
    let other = SessionKey::generate();
    let mut stream = Vec::new();
    send_file_data(&mut stream, &key, &sample(10));
    assert_eq!(
        recv_file_data(&stream, &other, 10),
        Err(ProtocolError::Key(SessionKeyError::Decrypt))
    );
    let cut = &stream[..stream.len() - 1];
    assert_eq!(recv_file_data(cut, &key, 10), Err(ProtocolError::Frame(FrameError::Incomplete)));
}

#[test]
fn sender_and_receiver_step_by_step() {
    let key = SessionKey::generate();
    let data = sample(CHUNK_SIZE + 1);
    let mut sender = FileSender::new(data.len());
    let mut receiver = FileReceiver::new(data.len() as u64);
    let mut steps = Vec::new();
    while let Some(step) = sender.next_frame(&key, &data) {
        let (payload, used) = read_frame(&step.frame).unwrap();
        assert_eq!(used, step.frame.len());
        steps.push((step.progress, receiver.accept(&key, &payload).unwrap()));
    }
    assert!(sender.is_finished());
    assert!(receiver.is_finished());
    let total = data.len() as u64;
    assert_eq!(
        steps,
        vec![
            (Some((CHUNK_SIZE as u64, total)), RecvStep::Progress(CHUNK_SIZE as u64, total)),
            (Some((total, total)), RecvStep::Progress(total, total)),
            (None, RecvStep::Finished),
        ]
    );
    assert_eq!(receiver.finish().unwrap(), data);
}

#[test]
fn receiver_ends_on_empty_payload_and_checks_size() {
    let key = SessionKey::generate();
    let mut receiver = FileReceiver::new(3);
    assert_eq!(receiver.accept(&key, &[]), Ok(RecvStep::Finished));
    assert_eq!(receiver.finish(), Err(ProtocolError::SizeMismatch(0, 3)));
    let mut receiver = FileReceiver::new(3);
    assert_eq!(
        receiver.accept(&key, b"garbage"),
        Err(ProtocolError::Key(SessionKeyError::Decrypt))
    );
    let mut end = Vec::new();
    write_frame(&mut end, &[]).unwrap();
    assert_eq!(end, vec![0, 0, 0, 0]);
}

#[test]
fn announced_file_is_received_intact_and_passes_checks() {
    let key = SessionKey::generate();
    let data = sample(CHUNK_SIZE + 17);
    let meta = file_meta("notes.bin", &data, None);
    let mut wire = Vec::new();
    send_file_data(&mut wire, &key, &data);
    let stream_len = wire.len();
    wire.extend_from_slice(b"next");
    let (got, used) = recv_file_data(&wire, &key, meta.size).unwrap();
    assert_eq!(got, data);
    assert_eq!(used, stream_len);
    assert_eq!(check_checksum(&meta, &got), Ok(()));
}
