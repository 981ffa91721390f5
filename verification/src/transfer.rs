//! Chunked encrypted file transfer.
//!
//! The sender splits the file into chunks of 256 KiB (the last one may be
//! shorter), sends each chunk as one encrypted frame, and ends the stream
//! with an empty frame. The receiver decrypts and appends the chunks until
//! the empty frame, then checks the size against the announced one.
use vstd::prelude::*;

use crate::crypto::{is_sealed_message, opened_message, SessionKey, SessionKeyError};
use crate::frame::{
    frame_bytes, lemma_read_frame_of_written, parsed_frame, read_frame, write_frame, FrameError,
    FRAME_HEADER_LEN, MAX_FRAME,
};
use crate::protocol::{
    appends_sealed_frame, open_message, seal_frame, sha256_hex, FileMeta, ProtocolError,
};

verus! {

/// The size of a file chunk.
pub const CHUNK_SIZE: usize = 262144;

/// The length of the next chunk when `remaining` bytes are left.
pub open spec fn chunk_len(remaining: int) -> int {
    if remaining < CHUNK_SIZE {
        remaining
    } else {
        CHUNK_SIZE as int
    }
}

/// The chunks `data` is sent in, in order.
pub open spec fn file_chunks(data: Seq<u8>) -> Seq<Seq<u8>>
    decreases data.len(),
{
    if data.len() == 0 {
        Seq::empty()
    } else {
        seq![data.take(chunk_len(data.len() as int))] + file_chunks(
            data.skip(chunk_len(data.len() as int)),
        )
    }
}

/// The byte counts the sender reports, one after each chunk, when `done` of
/// `total` bytes have been sent.
pub open spec fn progress_marks(total: int, done: int) -> Seq<int>
    decreases total - done,
{
    if done >= total {
        Seq::empty()
    } else {
        seq![done + chunk_len(total - done)] + progress_marks(total, done + chunk_len(total - done))
    }
}

/// The frames that carry `msgs`, in order.
pub open spec fn frames_of(msgs: Seq<Seq<u8>>) -> Seq<u8>
    decreases msgs.len(),
{
    if msgs.len() == 0 {
        Seq::empty()
    } else {
        frame_bytes(msgs[0]) + frames_of(msgs.drop_first())
    }
}

/// `msgs[i]` is an encrypted message of `chunks[i]` under `key`, for every `i`.
pub open spec fn sealed_chunks(key: Seq<u8>, chunks: Seq<Seq<u8>>, msgs: Seq<Seq<u8>>) -> bool {
    &&& msgs.len() == chunks.len()
    &&& forall|i: int| 0 <= i < msgs.len() ==> #[trigger] is_sealed_message(key, msgs[i], chunks[i])
}

/// `stream` is what the sender writes for `data` under `key`: one encrypted
/// frame per chunk, then the empty frame.
pub open spec fn is_file_stream(key: Seq<u8>, data: Seq<u8>, stream: Seq<u8>) -> bool {
    exists|msgs: Seq<Seq<u8>>| #[trigger]
        sealed_chunks(key, file_chunks(data), msgs) && stream == frames_of(msgs) + frame_bytes(
            Seq::empty(),
        )
}

/// What the receiver makes of `input`, having received `acc` so far: frames
/// are read and decrypted and their plaintexts appended until the empty
/// frame; the result is the data and the number of bytes consumed.
pub open spec fn received_frames(key: Seq<u8>, input: Seq<u8>, acc: Seq<u8>) -> Result<
    (Seq<u8>, int),
    ProtocolError,
>
    decreases input.len(),
{
    match parsed_frame(input) {
        Err(e) => Err(ProtocolError::Frame(e)),
        Ok((payload, n)) => if payload.len() == 0 {
            Ok((acc, n))
        } else {
            match opened_message(key, payload) {
                None => Err(ProtocolError::Key(SessionKeyError::Decrypt)),
                Some(p) => match received_frames(key, input.skip(n), acc + p) {
                    Ok((d, m)) => Ok((d, n + m)),
                    Err(e) => Err(e),
                },
            }
        },
    }
}

/// What receiving a file of announced size `expected` from `input` gives:
/// the data and the bytes consumed, or why it failed.
pub open spec fn received_file(key: Seq<u8>, input: Seq<u8>, expected: u64) -> Result<
    (Seq<u8>, int),
    ProtocolError,
> {
    match received_frames(key, input, Seq::empty()) {
        Err(e) => Err(e),
        Ok((d, n)) => if d.len() == expected {
            Ok((d, n))
        } else {
            Err(ProtocolError::SizeMismatch(d.len() as u64, expected))
        },
    }
}

/// One frame for the sender to write, with the progress to report after it.
pub struct SendStep {
    pub frame: Vec<u8>,
    /// `(bytes sent, total)` after a data frame; `None` after the end frame.
    pub progress: Option<(u64, u64)>,
}

/// The sender's position in a file.
pub struct FileSender {
    total: usize,
    done: usize,
    finished: bool,
}

impl FileSender {
    /// The file's size.
    pub closed spec fn total(&self) -> int {
        self.total as int
    }

    /// How many bytes of the file have been sent.
    pub closed spec fn done(&self) -> int {
        self.done as int
    }

    /// Whether the end frame has been handed out.
    pub closed spec fn finished(&self) -> bool {
        self.finished
    }

    pub closed spec fn wf(&self) -> bool {
        self.done <= self.total
    }

    /// A sender at the start of a file of `total` bytes.
    pub fn new(total: usize) -> (s: Self)
        ensures
            s.wf(),
            s.total() == total,
            s.done() == 0,
            !s.finished(),
    {
        FileSender { total, done: 0, finished: false }
    }

    /// Whether the end frame has been handed out.
    pub fn is_finished(&self) -> (b: bool)
        ensures
            b == self.finished(),
    {
        self.finished
    }

    /// The next frame to write: the next chunk of `data` encrypted under
    /// `key`, or, once all of it is sent, the empty end frame; `None` after
    /// that.
    pub fn next_frame(&mut self, key: &SessionKey, data: &[u8]) -> (step: Option<SendStep>)
        requires
            old(self).wf(),
            data@.len() == old(self).total(),
        ensures
            final(self).wf(),
            final(self).total() == old(self).total(),
            old(self).finished() ==> step is None && final(self).done() == old(self).done()
                && final(self).finished(),
            !old(self).finished() && old(self).done() < old(self).total() ==> ({
                let c = data@.subrange(
                    old(self).done(),
                    old(self).done() + chunk_len(old(self).total() - old(self).done()),
                );
                &&& step matches Some(s) && appends_sealed_frame(
                    key@,
                    Seq::empty(),
                    s.frame@,
                    c,
                ) && s.progress == Some(
                    (final(self).done() as u64, final(self).total() as u64),
                )
                &&& final(self).done() == old(self).done() + c.len()
                &&& !final(self).finished()
            }),
            !old(self).finished() && old(self).done() == old(self).total() ==> ({
                &&& step matches Some(s) && s.frame@ == frame_bytes(Seq::empty()) && s.progress
                    is None
                &&& final(self).done() == old(self).done()
                &&& final(self).finished()
            }),
    {
        if self.finished {
            return None;
        }
        let mut frame: Vec<u8> = Vec::new();
        if self.done < self.total {
            let remaining = self.total - self.done;
            let len = if remaining < CHUNK_SIZE {
                remaining
            } else {
                CHUNK_SIZE
            };
            let end = self.done + len;
            let chunk = vstd::slice::slice_subrange(data, self.done, end);
            match seal_frame(&mut frame, key, chunk) {
                Ok(()) => {},
                Err(_) => {
                    return None;
                },
            }
            self.done = end;
            Some(SendStep { frame, progress: Some((end as u64, self.total as u64)) })
        } else {
            let empty: [u8; 0] = [];
            match write_frame(&mut frame, &empty) {
                Ok(()) => {},
                Err(_) => {
                    return None;
                },
            }
            assert(empty@ =~= Seq::<u8>::empty());
            self.finished = true;
            Some(SendStep { frame, progress: None })
        }
    }
}

/// What happened to a received frame.
#[derive(Debug, Clone, Copy, PartialEq, Eq, Structural)]
pub enum RecvStep {
    /// A chunk was appended: `(bytes received, announced size)`.
    Progress(u64, u64),
    /// The empty end frame arrived.
    Finished,
}

/// The receiver's state: what has been received of a file of announced size.
pub struct FileReceiver {
    data: Vec<u8>,
    expected: u64,
    finished: bool,
}

impl FileReceiver {
    /// The bytes received so far.
    pub closed spec fn received(&self) -> Seq<u8> {
        self.data@
    }

    /// The announced size.
    pub closed spec fn expected(&self) -> u64 {
        self.expected
    }

    /// Whether the end frame has arrived.
    pub closed spec fn finished(&self) -> bool {
        self.finished
    }

    /// A receiver that expects `expected` bytes and has received nothing.
    pub fn new(expected: u64) -> (r: Self)
        ensures
            r.received() == Seq::<u8>::empty(),
            r.expected() == expected,
            !r.finished(),
    {
        FileReceiver { data: Vec::new(), expected, finished: false }
    }

    /// Whether the end frame has arrived.
    pub fn is_finished(&self) -> (b: bool)
        ensures
            b == self.finished(),
    {
        self.finished
    }

    /// Takes the payload of the next frame: the empty payload ends the
    /// stream; any other is decrypted and its plaintext appended.
    pub fn accept(&mut self, key: &SessionKey, payload: &[u8]) -> (res: Result<
        RecvStep,
        ProtocolError,
    >)
        requires
            !old(self).finished(),
        ensures
            final(self).expected() == old(self).expected(),
            payload@.len() == 0 ==> res == Ok::<RecvStep, ProtocolError>(RecvStep::Finished)
                && final(self).finished() && final(self).received() == old(self).received(),
            payload@.len() > 0 ==> match opened_message(key@, payload@) {
                None => res == Err::<RecvStep, _>(ProtocolError::Key(SessionKeyError::Decrypt))
                    && final(self).received() == old(self).received() && !final(self).finished(),
                Some(p) => final(self).received() == old(self).received() + p
                    && !final(self).finished() && res == Ok::<RecvStep, ProtocolError>(
                    RecvStep::Progress(
                        final(self).received().len() as u64,
                        final(self).expected(),
                    ),
                ),
            },
    {
        if payload.len() == 0 {
            self.finished = true;
            return Ok(RecvStep::Finished);
        }
        let mut plain = open_message(key, payload)?;
        self.data.append(&mut plain);
        Ok(RecvStep::Progress(self.data.len() as u64, self.expected))
    }

    /// The received file, if its size is the announced one.
    pub fn finish(self) -> (res: Result<Vec<u8>, ProtocolError>)
        ensures
            self.received().len() == self.expected() ==> (res matches Ok(d) && d@
                == self.received()),
            self.received().len() != self.expected() ==> res == Err::<Vec<u8>, _>(
                ProtocolError::SizeMismatch(self.received().len() as u64, self.expected()),
            ),
    {
        if self.data.len() as u64 == self.expected {
            Ok(self.data)
        } else {
            Err(ProtocolError::SizeMismatch(self.data.len() as u64, self.expected))
        }
    }
}

/// `r` with `k` more bytes counted as consumed.
pub open spec fn consumed_after(r: Result<(Seq<u8>, int), ProtocolError>, k: int) -> Result<
    (Seq<u8>, int),
    ProtocolError,
> {
    match r {
        Ok((d, n)) => Ok((d, n + k)),
        Err(e) => Err(e),
    }
}

proof fn lemma_frames_of_push(msgs: Seq<Seq<u8>>, m: Seq<u8>)
    ensures
        frames_of(msgs.push(m)) == frames_of(msgs) + frame_bytes(m),
    decreases msgs.len(),
{
    if msgs.len() == 0 {
        assert(msgs.push(m).drop_first() =~= Seq::<Seq<u8>>::empty());
        assert(frames_of(msgs.push(m)) =~= frame_bytes(m) + frames_of(Seq::<Seq<u8>>::empty()));
    } else {
        lemma_frames_of_push(msgs.drop_first(), m);
        assert(msgs.push(m).drop_first() =~= msgs.drop_first().push(m));
        assert(msgs.push(m)[0] == msgs[0]);
        assert(frames_of(msgs.push(m)) =~= frame_bytes(msgs[0]) + frames_of(
            msgs.drop_first().push(m),
        ));
    }
}

/// The chunks of `data` from offset `done` on: the next chunk, then the rest.
proof fn lemma_file_chunks_step(data: Seq<u8>, done: int)
    requires
        0 <= done < data.len(),
    ensures
        file_chunks(data.skip(done)) == seq![
            data.subrange(done, done + chunk_len(data.len() - done)),
        ] + file_chunks(data.skip(done + chunk_len(data.len() - done))),
{
    let rest = data.skip(done);
    let cl = chunk_len(data.len() - done);
    assert(rest.len() == data.len() - done);
    assert(rest.take(cl) =~= data.subrange(done, done + cl));
    assert(rest.skip(cl) =~= data.skip(done + cl));
}

/// Writes the whole transfer of `data` to `out`: one encrypted frame per
/// chunk, then the empty frame. Returns the `(bytes sent, total)` reported
/// after each chunk.
pub fn send_file_data(out: &mut Vec<u8>, key: &SessionKey, data: &[u8]) -> (progress: Vec<
    (u64, u64),
>)
    ensures
        final(out)@.take(old(out)@.len() as int) == old(out)@,
        is_file_stream(key@, data@, final(out)@.skip(old(out)@.len() as int)),
        progress@.len() == progress_marks(data@.len() as int, 0).len(),
        forall|i: int|
            0 <= i < progress@.len() ==> #[trigger] progress@[i] == (
                progress_marks(data@.len() as int, 0)[i] as u64,
                data@.len() as u64,
            ),
{
    let mut sender = FileSender::new(data.len());
    let ghost out0 = out@;
    let ghost total = data@.len() as int;
    let ghost mut msgs: Seq<Seq<u8>> = Seq::empty();
    let ghost mut sent: Seq<Seq<u8>> = Seq::empty();
    let ghost mut marks: Seq<int> = Seq::empty();
    let mut progress: Vec<(u64, u64)> = Vec::new();
    assert(data@.skip(0) =~= data@);
    while !sender.is_finished()
        invariant
            sender.wf(),
            sender.total() == total,
            total == data@.len(),
            sealed_chunks(key@, sent, msgs),
            progress@.len() == marks.len(),
            forall|i: int|
                0 <= i < progress@.len() ==> #[trigger] progress@[i] == (
                    marks[i] as u64,
                    total as u64,
                ),
            !sender.finished() ==> file_chunks(data@) == sent + file_chunks(
                data@.skip(sender.done()),
            ),
            !sender.finished() ==> progress_marks(total, 0) == marks + progress_marks(
                total,
                sender.done(),
            ),
            !sender.finished() ==> out@ == out0 + frames_of(msgs),
            sender.finished() ==> sent == file_chunks(data@) && marks == progress_marks(total, 0)
                && out@ == out0 + frames_of(msgs) + frame_bytes(Seq::empty()),
        decreases total - sender.done() + (if sender.finished() {
            0int
        } else {
            1int
        }),
    {
        let ghost done0 = sender.done();
        let ghost out_before = out@;
        let step = sender.next_frame(key, data);
        let mut s = match step {
            Some(s) => s,
            None => {
                return progress;
            },
        };
        let ghost frame = s.frame@;
        out.append(&mut s.frame);
        match s.progress {
            Some(p) => {
                let ghost c = data@.subrange(done0, done0 + chunk_len(total - done0));
                proof {
                    let m = choose|m: Seq<u8>| #[trigger]
                        is_sealed_message(key@, m, c) && frame == Seq::<u8>::empty()
                            + frame_bytes(m);
                    assert(frame =~= frame_bytes(m));
                    lemma_frames_of_push(msgs, m);
                    lemma_file_chunks_step(data@, done0);
                    let old_msgs = msgs;
                    let old_sent = sent;
                    msgs = msgs.push(m);
                    sent = sent.push(c);
                    assert forall|i: int| 0 <= i < msgs.len() implies #[trigger] is_sealed_message(
                        key@,
                        msgs[i],
                        sent[i],
                    ) by {
                        if i < old_msgs.len() {
                            assert(msgs[i] == old_msgs[i]);
                            assert(sent[i] == old_sent[i]);
                        }
                    }
                    assert(file_chunks(data@) =~= sent + file_chunks(data@.skip(sender.done())));
                    assert(progress_marks(total, done0) == seq![sender.done()] + progress_marks(
                        total,
                        sender.done(),
                    ));
                    marks = marks.push(sender.done());
                    assert(progress_marks(total, 0) =~= marks + progress_marks(
                        total,
                        sender.done(),
                    ));
                }
                progress.push(p);
            },
            None => {
                proof {
                    assert(data@.skip(total) =~= Seq::<u8>::empty());
                    assert(sent =~= file_chunks(data@));
                    assert(marks =~= progress_marks(total, 0));
                }
            },
        }
    }
    proof {
        assert(out@.take(out0.len() as int) =~= out0);
        assert(out@.skip(out0.len() as int) =~= frames_of(msgs) + frame_bytes(Seq::empty()));
        assert(sealed_chunks(key@, file_chunks(data@), msgs));
    }
    progress
}

/// Reads a whole transfer from the front of `input`: frames are read and
/// decrypted until the empty frame, then the size is checked against
/// `expected_size`. Returns the data and the number of bytes consumed.
pub fn recv_file_data(input: &[u8], key: &SessionKey, expected_size: u64) -> (res: Result<
    (Vec<u8>, usize),
    ProtocolError,
>)
    ensures
        res matches Ok((d, n)) ==> received_file(key@, input@, expected_size) == Ok::<
            (Seq<u8>, int),
            ProtocolError,
        >((d@, n as int)),
        res matches Err(e) ==> received_file(key@, input@, expected_size) == Err::<
            (Seq<u8>, int),
            ProtocolError,
        >(e),
{
    let mut receiver = FileReceiver::new(expected_size);
    let mut pos: usize = 0;
    let mut done = false;
    assert(input@.skip(0) =~= input@);
    while !done
        invariant
            pos <= input@.len(),
            receiver.expected() == expected_size,
            receiver.finished() == done,
            !done ==> received_frames(key@, input@, Seq::empty()) == consumed_after(
                received_frames(key@, input@.skip(pos as int), receiver.received()),
                pos as int,
            ),
            done ==> received_frames(key@, input@, Seq::empty()) == Ok::<
                (Seq<u8>, int),
                ProtocolError,
            >((receiver.received(), pos as int)),
        decreases input@.len() - pos + (if done {
            0int
        } else {
            1int
        }),
    {
        let rest = vstd::slice::slice_subrange(input, pos, input.len());
        assert(rest@ =~= input@.skip(pos as int));
        let ghost acc = receiver.received();
        let (payload, n) = match read_frame(rest) {
            Ok(r) => r,
            Err(e) => {
                return Err(ProtocolError::Frame(e));
            },
        };
        assert(n >= FRAME_HEADER_LEN && n <= rest@.len());
        match receiver.accept(key, &payload) {
            Ok(RecvStep::Finished) => {
                done = true;
            },
            Ok(RecvStep::Progress(_, _)) => {
                assert(rest@.skip(n as int) =~= input@.skip(pos + n));
            },
            Err(e) => {
                return Err(e);
            },
        }
        pos = pos + n;
    }
    let data = receiver.finish()?;
    Ok((data, pos))
}

/// A frame of an encrypted chunk is received as that chunk, appended.
proof fn lemma_received_frames_step(
    key: Seq<u8>,
    m: Seq<u8>,
    c: Seq<u8>,
    after: Seq<u8>,
    acc: Seq<u8>,
)
    requires
        is_sealed_message(key, m, c),
        c.len() <= CHUNK_SIZE,
    ensures
        received_frames(key, frame_bytes(m) + after, acc) == consumed_after(
            received_frames(key, after, acc + c),
            FRAME_HEADER_LEN + m.len(),
        ),
{
    let input = frame_bytes(m) + after;
    lemma_read_frame_of_written(m, after);
    let n = FRAME_HEADER_LEN + m.len();
    assert(input.skip(n as int) =~= after);
}

/// The end frame, followed by anything, ends the transfer.
proof fn lemma_received_frames_end(key: Seq<u8>, rest: Seq<u8>, acc: Seq<u8>)
    ensures
        received_frames(key, frame_bytes(Seq::<u8>::empty()) + rest, acc) == Ok::<
            (Seq<u8>, int),
            ProtocolError,
        >((acc, FRAME_HEADER_LEN as int)),
{
    lemma_read_frame_of_written(Seq::<u8>::empty(), rest);
}

/// The chunks of non-empty `data`: its first chunk, then the chunks of the rest.
proof fn lemma_sealed_chunks_tail(key: Seq<u8>, data: Seq<u8>, msgs: Seq<Seq<u8>>)
    requires
        sealed_chunks(key, file_chunks(data), msgs),
        data.len() > 0,
    ensures
        msgs.len() > 0,
        is_sealed_message(key, msgs[0], data.take(chunk_len(data.len() as int))),
        sealed_chunks(key, file_chunks(data.skip(chunk_len(data.len() as int))), msgs.drop_first()),
{
    let cl = chunk_len(data.len() as int);
    let c = data.take(cl);
    let tail_data = data.skip(cl);
    let tail = msgs.drop_first();
    assert(file_chunks(data) == seq![c] + file_chunks(tail_data));
    assert(file_chunks(data)[0] == c);
    assert(is_sealed_message(key, msgs[0], file_chunks(data)[0]));
    assert forall|i: int| 0 <= i < tail.len() implies #[trigger] is_sealed_message(
        key,
        tail[i],
        file_chunks(tail_data)[i],
    ) by {
        assert(tail[i] == msgs[i + 1]);
        assert(file_chunks(tail_data)[i] == file_chunks(data)[i + 1]);
        assert(is_sealed_message(key, msgs[i + 1], file_chunks(data)[i + 1]));
    }
}

/// The message frames and end frame of a transfer of `data`, followed by
/// anything, are received as `data` appended to what came before.
proof fn lemma_received_frames_of_stream(
    key: Seq<u8>,
    data: Seq<u8>,
    msgs: Seq<Seq<u8>>,
    acc: Seq<u8>,
    rest: Seq<u8>,
)
    requires
        sealed_chunks(key, file_chunks(data), msgs),
    ensures
        received_frames(key, frames_of(msgs) + frame_bytes(Seq::empty()) + rest, acc) == Ok::<
            (Seq<u8>, int),
            ProtocolError,
        >((acc + data, (frames_of(msgs) + frame_bytes(Seq::<u8>::empty())).len() as int)),
    decreases data.len(),
{
    let end = frame_bytes(Seq::<u8>::empty());
    if data.len() == 0 {
        assert(frames_of(msgs) =~= Seq::<u8>::empty());
        assert(frames_of(msgs) + end + rest =~= end + rest);
        lemma_received_frames_end(key, rest, acc);
        assert(acc + data =~= acc);
    } else {
        lemma_sealed_chunks_tail(key, data, msgs);
        let cl = chunk_len(data.len() as int);
        let c = data.take(cl);
        let tail_data = data.skip(cl);
        let m0 = msgs[0];
        let tail = msgs.drop_first();
        lemma_received_frames_of_stream(key, tail_data, tail, acc + c, rest);
        let after = frames_of(tail) + end + rest;
        assert(frames_of(msgs) == frame_bytes(m0) + frames_of(tail));
        assert(frames_of(msgs) + end + rest =~= frame_bytes(m0) + after);
        lemma_received_frames_step(key, m0, c, after, acc);
        assert(acc + c + tail_data =~= acc + data);
    }
}

/// Receiving what the sender wrote for `data` gives back `data`, and
/// consumes exactly the transfer, whatever follows it.
pub proof fn lemma_receive_sent_file(key: Seq<u8>, data: Seq<u8>, stream: Seq<u8>, rest: Seq<u8>)
    requires
        is_file_stream(key, data, stream),
        data.len() <= u64::MAX,
    ensures
        received_file(key, stream + rest, data.len() as u64) == Ok::<
            (Seq<u8>, int),
            ProtocolError,
        >((data, stream.len() as int)),
{
    let msgs = choose|msgs: Seq<Seq<u8>>| #[trigger]
        sealed_chunks(key, file_chunks(data), msgs) && stream == frames_of(msgs) + frame_bytes(
            Seq::empty(),
        );
    lemma_received_frames_of_stream(key, data, msgs, Seq::empty(), rest);
    assert(Seq::<u8>::empty() + data =~= data);
}

/// A receiver that reads the transfer of `data` announced by `meta` gets
/// `data` back, consuming exactly the transfer, and `data` then passes the
/// size and checksum checks against `meta`.
pub proof fn lemma_announced_file_received(
    key: Seq<u8>,
    meta: FileMeta,
    data: Seq<u8>,
    stream: Seq<u8>,
    rest: Seq<u8>,
)
    requires
        is_file_stream(key, data, stream),
        meta.size == data.len(),
        meta.sha256@ == sha256_hex(data),
    ensures
        received_file(key, stream + rest, meta.size) == Ok::<(Seq<u8>, int), ProtocolError>(
            (data, stream.len() as int),
        ),
        sha256_hex(data) == meta.sha256@,
{
    lemma_receive_sent_file(key, data, stream, rest);
}

/// The sender's progress reports rise with every chunk, by at most a chunk
/// each, and the last one is the file's size.
pub proof fn lemma_progress_marks(total: int, done: int)
    requires
        0 <= done < total,
    ensures
        progress_marks(total, done).len() > 0,
        progress_marks(total, done).last() == total,
        progress_marks(total, done)[0] > done,
        progress_marks(total, done)[0] <= done + CHUNK_SIZE,
        forall|i: int|
            0 <= i < progress_marks(total, done).len() - 1 ==> progress_marks(total, done)[i]
                < #[trigger] progress_marks(total, done)[i + 1] <= progress_marks(total, done)[i]
                + CHUNK_SIZE,
    decreases total - done,
{
    let next = done + chunk_len(total - done);
    let marks = progress_marks(total, done);
    assert(marks == seq![next] + progress_marks(total, next));
    if next < total {
        lemma_progress_marks(total, next);
        let rest = progress_marks(total, next);
        assert forall|i: int| 0 <= i < marks.len() - 1 implies marks[i] < #[trigger] marks[i + 1]
            <= marks[i] + CHUNK_SIZE by {
            if i > 0 {
                let j = i - 1;
                assert(marks[i] == rest[j]);
                assert(marks[i + 1] == rest[j + 1]);
                assert(rest[j] < rest[j + 1] <= rest[j] + CHUNK_SIZE);
            } else {
                assert(marks[1] == rest[0]);
            }
        }
    } else {
        assert(progress_marks(total, next) == Seq::<int>::empty());
    }
}

} // verus!
