//! The decisions taken while a chat session or a file transfer runs: what
//! the front end is told after each step, and what the service does next.
//! The service performs the network work of each step and reports its
//! outcome here.
use vstd::prelude::*;
use vstd::utf8::encode_utf8;

use crate::bindings::{u64_to_string, utf8_lossy};
use crate::encoding::decimal;
use crate::events::{AppEvent, TransferKind};
use crate::protocol::{challenge_accepted, FileMeta};
use crate::worker::{info, is_info_log, is_transfer_error, transfer_error};

verus! {

/// What happened in a running chat session.
pub enum ChatSessionEvent {
    /// The session was cancelled.
    Cancelled,
    /// The front end will hand over no more messages.
    OutboxClosed,
    /// A message of ours went out.
    Sent { sender_id: String, content: String, timestamp: u64, message_id: String },
    /// Sending a message failed; `error` says why.
    SendFailed { error: String },
    /// The peer's message arrived.
    Received { sender_id: String, content: String, timestamp: u64, message_id: String },
    /// Reading from the peer failed; `error` says why.
    ReceiveFailed { error: String },
}

/// What a chat session reports after an event, and whether it ends.
pub struct ChatSessionStep {
    pub events: Vec<AppEvent>,
    pub end: bool,
}

/// `ev` is the chat message with these fields.
pub open spec fn is_chat_message(
    ev: AppEvent,
    sender_id: String,
    content: String,
    timestamp: u64,
    message_id: String,
) -> bool {
    ev matches AppEvent::ChatMessage { sender_id: s, content: c, timestamp: t, message_id: m }
        && s == sender_id && c == content && t == timestamp && m == message_id
}

/// The prefix of the error shown when the peer's stream fails.
pub open spec fn stream_ended_text(error: Seq<char>) -> Seq<char> {
    "chat stream ended: "@ + error
}

/// What the chat session does after `ev`: every message sent or received
/// is shown and the session goes on; a cancel ends it with "peer left"; a
/// failed send ends it with the error; a failed read ends it with the
/// error, marked as the end of the stream, and "peer left"; when the front
/// end hands over no more messages the session ends silently.
pub fn chat_session_step(ev: ChatSessionEvent) -> (step: ChatSessionStep)
    ensures
        match ev {
            ChatSessionEvent::Cancelled => step.end && step.events@.len() == 1
                && step.events@[0] is ChatPeerLeft,
            ChatSessionEvent::OutboxClosed => step.end && step.events@.len() == 0,
            ChatSessionEvent::Sent { sender_id, content, timestamp, message_id } => !step.end
                && step.events@.len() == 1 && is_chat_message(
                step.events@[0],
                sender_id,
                content,
                timestamp,
                message_id,
            ),
            ChatSessionEvent::SendFailed { error } => step.end && step.events@.len() == 1 && (
            step.events@[0] matches AppEvent::ChatError { error: e } && e == error),
            ChatSessionEvent::Received { sender_id, content, timestamp, message_id } => !step.end
                && step.events@.len() == 1 && is_chat_message(
                step.events@[0],
                sender_id,
                content,
                timestamp,
                message_id,
            ),
            ChatSessionEvent::ReceiveFailed { error } => step.end && step.events@.len() == 2 && (
            step.events@[0] matches AppEvent::ChatError { error: e } && e@ == stream_ended_text(
                error@,
            )) && step.events@[1] is ChatPeerLeft,
        },
{
    let mut events: Vec<AppEvent> = Vec::new();
    match ev {
        ChatSessionEvent::Cancelled => {
            events.push(AppEvent::ChatPeerLeft);
            ChatSessionStep { events, end: true }
        },
        ChatSessionEvent::OutboxClosed => ChatSessionStep { events, end: true },
        ChatSessionEvent::Sent { sender_id, content, timestamp, message_id }
        | ChatSessionEvent::Received { sender_id, content, timestamp, message_id } => {
            events.push(AppEvent::ChatMessage { sender_id, content, timestamp, message_id });
            ChatSessionStep { events, end: false }
        },
        ChatSessionEvent::SendFailed { error } => {
            events.push(AppEvent::ChatError { error });
            ChatSessionStep { events, end: true }
        },
        ChatSessionEvent::ReceiveFailed { error } => {
            let mut text = "chat stream ended: ".to_owned();
            text.append(error.as_str());
            events.push(AppEvent::ChatError { error: text });
            events.push(AppEvent::ChatPeerLeft);
            ChatSessionStep { events, end: true }
        },
    }
}

/// The name a hosted file is announced under: the file name of its path
/// where that is UTF-8 text (`name`), else "file".
pub fn hosted_file_name(name: Option<&str>) -> (n: String)
    ensures
        name matches Some(s) ==> n@ == s@,
        name is None ==> n@ == "file"@,
{
    match name {
        Some(s) => s.to_owned(),
        None => "file".to_owned(),
    }
}

/// The report that opens a hosted transfer: where the file is served, under
/// which session key, and its name.
pub fn hosting_event(address: String, session_key: String, file_name: String) -> (ev: AppEvent)
    ensures
        ev matches AppEvent::FileHosting { address: a, session_key: k, file_name: f } && a
            == address && k == session_key && f == file_name,
{
    AppEvent::FileHosting { address, session_key, file_name }
}

/// The log line once the hosted file has been read: its name and size.
pub fn host_ready_log(file_name: &str, size: u64) -> (ev: AppEvent)
    ensures
        is_info_log(ev, "File host ready: "@ + file_name@ + " ("@ + decimal(size as nat) + " bytes)"@),
{
    let mut text = "File host ready: ".to_owned();
    text.append(file_name);
    text.append(" (");
    let digits = u64_to_string(size);
    text.append(digits.as_str());
    text.append(" bytes)");
    AppEvent::Log { level: "INFO".to_owned(), message: text }
}

/// What the file host does next.
pub enum HostStep {
    /// Read one frame from the receiver: its password challenge.
    ReadChallenge,
    /// Send the encrypted metadata, then the file's data frames.
    SendFile,
    /// Report `events` and end the transfer without sending anything.
    Reject { events: Vec<AppEvent> },
}

/// The host's first step once a receiver has connected: a password-protected
/// file waits for the receiver's challenge, any other is sent at once.
pub fn host_first_step(meta: &FileMeta) -> (step: HostStep)
    ensures
        meta.password_hash is Some ==> step is ReadChallenge,
        meta.password_hash is None ==> step is SendFile,
{
    if meta.password_hash.is_some() {
        HostStep::ReadChallenge
    } else {
        HostStep::SendFile
    }
}

/// The host's step after reading `challenge`: the file is sent only if the
/// challenge, read as (lossy) UTF-8, is the announced password hash;
/// otherwise "Password mismatch" is reported and nothing is sent.
pub fn host_on_challenge(meta: &FileMeta, challenge: &[u8]) -> (step: HostStep)
    ensures
        match meta.password_hash {
            Some(h) => if utf8_lossy(challenge@) == h@ {
                step is SendFile
            } else {
                step matches HostStep::Reject { events } && is_transfer_error(
                    events@,
                    "Password mismatch"@,
                )
            },
            None => step is SendFile,
        },
        meta.password_hash matches Some(h) && challenge@ == encode_utf8(h@) ==> step is SendFile,
{
    match &meta.password_hash {
        Some(h) => if challenge_accepted(challenge, h.as_str()) {
            HostStep::SendFile
        } else {
            HostStep::Reject { events: transfer_error("Password mismatch".to_owned()) }
        },
        None => HostStep::SendFile,
    }
}

/// What the host does once the file is sent: report `events`, then end the
/// session when `shutdown`.
pub struct HostCompletion {
    pub events: Vec<AppEvent>,
    pub shutdown: bool,
}

/// The completion of a send of `file_name` from `path`: the transfer is
/// reported complete and logged; with `auto_shutdown` the shutdown is
/// logged too and the session ends.
pub fn host_completion(file_name: String, path: String, auto_shutdown: bool) -> (c:
    HostCompletion)
    ensures
        c.shutdown == auto_shutdown,
        c.events@.len() == (if auto_shutdown {
            3int
        } else {
            2int
        }),
        c.events@[0] matches AppEvent::TransferComplete { kind, file_name: f, path: p } && kind
            == TransferKind::Send && f == file_name && p == path,
        is_info_log(c.events@[1], "File send complete"@),
        auto_shutdown ==> is_info_log(c.events@[2], "Auto-shutdown after transfer"@),
{
    let mut events: Vec<AppEvent> = Vec::new();
    events.push(AppEvent::TransferComplete { kind: TransferKind::Send, file_name, path });
    events.push(info("File send complete"));
    if auto_shutdown {
        events.push(info("Auto-shutdown after transfer"));
    }
    HostCompletion { events, shutdown: auto_shutdown }
}

/// What the receiver reports once `file_name` is saved at `path`: the
/// completed transfer, then a log line naming the path.
pub fn receive_completion(file_name: String, path: String) -> (events: Vec<AppEvent>)
    ensures
        events@.len() == 2,
        events@[0] matches AppEvent::TransferComplete { kind, file_name: f, path: p } && kind
            == TransferKind::Receive && f == file_name && p == path,
        is_info_log(events@[1], "File saved to "@ + path@),
{
    let mut text = "File saved to ".to_owned();
    text.append(path.as_str());
    let mut events: Vec<AppEvent> = Vec::new();
    events.push(AppEvent::TransferComplete { kind: TransferKind::Receive, file_name, path });
    events.push(AppEvent::Log { level: "INFO".to_owned(), message: text });
    events
}

} // verus!
