//! The decisions of the background service that owns the mixnet client:
//! what each command from the front end does, given whether the client is
//! connected and whether a chat session is open. The service performs the
//! network work that a plan asks for.
use vstd::prelude::*;

use crate::crypto::{is_base64_of, key_text_error, SessionKey, SessionKeyError, KEY_LEN};
use crate::events::AppEvent;

verus! {

/// A command from the front end. `P` is the type of file-system paths.
pub enum NymCommand<P> {
    Connect,
    Disconnect,
    Kill,
    HostChat { session_key: String },
    JoinChat { address: String, session_key: String },
    SendChat { content: String },
    StopChat,
    HostFile { path: P, session_key: String, password: Option<String>, auto_shutdown: bool },
    ReceiveFile { address: String, session_key: String, dest_dir: P, password: Option<String> },
    StopFile,
}

/// The network work a command leaves for the service to do.
pub enum Job<P> {
    /// Nothing more.
    Idle,
    /// Connect the mixnet client.
    Connect,
    /// Close the active session and disconnect the client.
    Disconnect,
    /// Wait for a peer's chat stream, then run the chat session under `key`.
    HostChat { key: SessionKey },
    /// Open a chat stream to `address`, then run the chat session under `key`.
    JoinChat { key: SessionKey, address: String },
    /// Hand `content` to the open chat session.
    ForwardChat { content: String },
    /// Serve the file at `path` to one peer.
    HostFile {
        key: SessionKey,
        session_key: String,
        address: String,
        path: P,
        password: Option<String>,
        auto_shutdown: bool,
    },
    /// Fetch a file from `address` into `dest_dir`.
    ReceiveFile { key: SessionKey, address: String, dest_dir: P, password: Option<String> },
}

/// What the service does for one command: first cancel the active session
/// (if asked), then drop the chat session's sender (if asked), then emit
/// `events` in order, then do `job`.
pub struct Plan<P> {
    pub cancel_active: bool,
    pub close_chat: bool,
    pub events: Vec<AppEvent>,
    pub job: Job<P>,
}

/// The text of a session-key error, as the front end shows it.
pub open spec fn key_error_text(e: SessionKeyError) -> Seq<char> {
    match e {
        SessionKeyError::InvalidEncoding => "invalid session key encoding"@,
        SessionKeyError::InvalidLength => "invalid session key length"@,
        SessionKeyError::Encrypt => "encryption failed"@,
        SessionKeyError::Decrypt => "decryption failed"@,
    }
}

/// The text of a session-key error, as the front end shows it.
pub fn key_error_text_of(e: SessionKeyError) -> (text: String)
    ensures
        text@ == key_error_text(e),
{
    match e {
        SessionKeyError::InvalidEncoding => "invalid session key encoding".to_owned(),
        SessionKeyError::InvalidLength => "invalid session key length".to_owned(),
        SessionKeyError::Encrypt => "encryption failed".to_owned(),
        SessionKeyError::Decrypt => "decryption failed".to_owned(),
    }
}

/// `key` is the session key that `text` encodes.
pub open spec fn parses_to(text: Seq<char>, key: SessionKey) -> bool {
    key@.len() == KEY_LEN && is_base64_of(text, key@)
}

/// One event with an error message for the chat page.
pub open spec fn is_chat_error(events: Seq<AppEvent>, text: Seq<char>) -> bool {
    events.len() == 1 && (events[0] matches AppEvent::ChatError { error } && error@ == text)
}

/// One event with an error message for the file page.
pub open spec fn is_transfer_error(events: Seq<AppEvent>, text: Seq<char>) -> bool {
    events.len() == 1 && (events[0] matches AppEvent::TransferError { error } && error@ == text)
}

/// An informational log event.
pub open spec fn is_info_log(ev: AppEvent, text: Seq<char>) -> bool {
    ev matches AppEvent::Log { level, message } && level@ == "INFO"@ && message@ == text
}

pub(crate) fn info(text: &str) -> (ev: AppEvent)
    ensures
        is_info_log(ev, text@),
{
    AppEvent::Log { level: "INFO".to_owned(), message: text.to_owned() }
}

fn chat_error(text: String) -> (events: Vec<AppEvent>)
    ensures
        is_chat_error(events@, text@),
{
    let mut events = Vec::new();
    events.push(AppEvent::ChatError { error: text });
    events
}

pub(crate) fn transfer_error(text: String) -> (events: Vec<AppEvent>)
    ensures
        is_transfer_error(events@, text@),
{
    let mut events = Vec::new();
    events.push(AppEvent::TransferError { error: text });
    events
}

/// The plan for `cmd`, given whether the client is connected, its address,
/// and whether a chat session is open.
pub fn plan_command<P>(
    connected: bool,
    address: &Option<String>,
    chat_open: bool,
    cmd: NymCommand<P>,
) -> (plan: Plan<P>)
    ensures
        match cmd {
            NymCommand::Connect => {
                &&& !plan.cancel_active && !plan.close_chat
                &&& !connected ==> plan.job is Connect && plan.events@.len() == 0
                &&& connected ==> plan.job is Idle && is_info_log(
                    plan.events@[0],
                    "Already connected to the Nym mixnet"@,
                ) && match address {
                    Some(a) => plan.events@.len() == 2 && (plan.events@[1] matches AppEvent::Connected {
                        address: b,
                    } && b@ == a@),
                    None => plan.events@.len() == 1,
                }
            },
            NymCommand::Disconnect | NymCommand::Kill => plan.cancel_active && plan.close_chat
                && plan.events@.len() == 0 && plan.job is Disconnect,
            NymCommand::HostChat { session_key } => {
                &&& plan.cancel_active && plan.close_chat
                &&& match key_text_error(session_key@) {
                    Some(e) => is_chat_error(plan.events@, key_error_text(e)) && plan.job is Idle,
                    None => match address {
                        None => is_chat_error(plan.events@, "Not connected"@) && plan.job is Idle,
                        Some(a) => plan.events@.len() == 2 && (plan.events@[0] matches AppEvent::ChatHosting {
                            address: b,
                            session_key: k,
                        } && b@ == a@ && k@ == session_key@) && is_info_log(
                            plan.events@[1],
                            "Chat host waiting for peer stream…"@,
                        ) && (plan.job matches Job::HostChat { key } && parses_to(
                            session_key@,
                            key,
                        )),
                    },
                }
            },
            NymCommand::JoinChat { address: peer, session_key } => {
                &&& plan.cancel_active && plan.close_chat
                &&& match key_text_error(session_key@) {
                    Some(e) => is_chat_error(plan.events@, key_error_text(e)) && plan.job is Idle,
                    None => plan.events@.len() == 1 && is_info_log(
                        plan.events@[0],
                        "Opening chat stream to "@ + peer@ + "…"@,
                    ) && (plan.job matches Job::JoinChat { key, address: b } && b@ == peer@
                        && parses_to(session_key@, key)),
                }
            },
            NymCommand::SendChat { content } => {
                &&& !plan.cancel_active && !plan.close_chat
                &&& chat_open ==> plan.events@.len() == 0 && (plan.job matches Job::ForwardChat {
                    content: c,
                } && c@ == content@)
                &&& !chat_open ==> is_chat_error(plan.events@, "No active chat session"@)
                    && plan.job is Idle
            },
            NymCommand::StopChat => plan.cancel_active && plan.close_chat && plan.events@.len()
                == 1 && plan.events@[0] is ChatPeerLeft && plan.job is Idle,
            NymCommand::HostFile { path, session_key, password, auto_shutdown } => {
                &&& plan.cancel_active && plan.close_chat
                &&& match key_text_error(session_key@) {
                    Some(e) => is_transfer_error(plan.events@, key_error_text(e)) && plan.job is Idle,
                    None => match address {
                        None => is_transfer_error(plan.events@, "Not connected"@) && plan.job
                            is Idle,
                        Some(a) => plan.events@.len() == 0 && (plan.job matches Job::HostFile {
                            key,
                            session_key: k,
                            address: b,
                            path: q,
                            password: pw,
                            auto_shutdown: s,
                        } && parses_to(session_key@, key) && k@ == session_key@ && b@ == a@
                            && q == path && pw == password && s == auto_shutdown),
                    },
                }
            },
            NymCommand::ReceiveFile { address: peer, session_key, dest_dir, password } => {
                &&& plan.cancel_active && plan.close_chat
                &&& match key_text_error(session_key@) {
                    Some(e) => is_transfer_error(plan.events@, key_error_text(e)) && plan.job is Idle,
                    None => plan.events@.len() == 0 && (plan.job matches Job::ReceiveFile {
                        key,
                        address: b,
                        dest_dir: d,
                        password: pw,
                    } && parses_to(session_key@, key) && b@ == peer@ && d == dest_dir && pw
                        == password),
                }
            },
            NymCommand::StopFile => plan.cancel_active && plan.close_chat && plan.events@.len()
                == 0 && plan.job is Idle,
        },
{
    match cmd {
        NymCommand::Connect => {
            let mut events = Vec::new();
            if connected {
                events.push(info("Already connected to the Nym mixnet"));
                match address {
                    Some(a) => {
                        events.push(AppEvent::Connected { address: a.clone() });
                    },
                    None => {},
                }
                Plan { cancel_active: false, close_chat: false, events, job: Job::Idle }
            } else {
                Plan { cancel_active: false, close_chat: false, events, job: Job::Connect }
            }
        },
        NymCommand::Disconnect | NymCommand::Kill => Plan {
            cancel_active: true,
            close_chat: true,
            events: Vec::new(),
            job: Job::Disconnect,
        },
        NymCommand::HostChat { session_key } => {
            let key = match SessionKey::from_base64(session_key.as_str()) {
                Ok(k) => k,
                Err(e) => {
                    return Plan {
                        cancel_active: true,
                        close_chat: true,
                        events: chat_error(key_error_text_of(e)),
                        job: Job::Idle,
                    };
                },
            };
            match address {
                None => Plan {
                    cancel_active: true,
                    close_chat: true,
                    events: chat_error("Not connected".to_owned()),
                    job: Job::Idle,
                },
                Some(a) => {
                    let mut events = Vec::new();
                    events.push(AppEvent::ChatHosting { address: a.clone(), session_key });
                    events.push(info("Chat host waiting for peer stream…"));
                    Plan { cancel_active: true, close_chat: true, events, job: Job::HostChat { key } }
                },
            }
        },
        NymCommand::JoinChat { address: peer, session_key } => {
            let key = match SessionKey::from_base64(session_key.as_str()) {
                Ok(k) => k,
                Err(e) => {
                    return Plan {
                        cancel_active: true,
                        close_chat: true,
                        events: chat_error(key_error_text_of(e)),
                        job: Job::Idle,
                    };
                },
            };
            let mut text = "Opening chat stream to ".to_owned();
            text.append(peer.as_str());
            text.append("…");
            let mut events = Vec::new();
            events.push(AppEvent::Log { level: "INFO".to_owned(), message: text });
            Plan {
                cancel_active: true,
                close_chat: true,
                events,
                job: Job::JoinChat { key, address: peer },
            }
        },
        NymCommand::SendChat { content } => {
            if chat_open {
                Plan {
                    cancel_active: false,
                    close_chat: false,
                    events: Vec::new(),
                    job: Job::ForwardChat { content },
                }
            } else {
                Plan {
                    cancel_active: false,
                    close_chat: false,
                    events: chat_error("No active chat session".to_owned()),
                    job: Job::Idle,
                }
            }
        },
        NymCommand::StopChat => {
            let mut events = Vec::new();
            events.push(AppEvent::ChatPeerLeft);
            Plan { cancel_active: true, close_chat: true, events, job: Job::Idle }
        },
        NymCommand::HostFile { path, session_key, password, auto_shutdown } => {
            let key = match SessionKey::from_base64(session_key.as_str()) {
                Ok(k) => k,
                Err(e) => {
                    return Plan {
                        cancel_active: true,
                        close_chat: true,
                        events: transfer_error(key_error_text_of(e)),
                        job: Job::Idle,
                    };
                },
            };
            match address {
                None => Plan {
                    cancel_active: true,
                    close_chat: true,
                    events: transfer_error("Not connected".to_owned()),
                    job: Job::Idle,
                },
                Some(a) => Plan {
                    cancel_active: true,
                    close_chat: true,
                    events: Vec::new(),
                    job: Job::HostFile {
                        key,
                        session_key,
                        address: a.clone(),
                        path,
                        password,
                        auto_shutdown,
                    },
                },
            }
        },
        NymCommand::ReceiveFile { address: peer, session_key, dest_dir, password } => {
            let key = match SessionKey::from_base64(session_key.as_str()) {
                Ok(k) => k,
                Err(e) => {
                    return Plan {
                        cancel_active: true,
                        close_chat: true,
                        events: transfer_error(key_error_text_of(e)),
                        job: Job::Idle,
                    };
                },
            };
            Plan {
                cancel_active: true,
                close_chat: true,
                events: Vec::new(),
                job: Job::ReceiveFile { key, address: peer, dest_dir, password },
            }
        },
        NymCommand::StopFile => Plan {
            cancel_active: true,
            close_chat: true,
            events: Vec::new(),
            job: Job::Idle,
        },
    }
}

/// The plan once the front end has closed its command channel: the
/// service disconnects (see `ServiceState::disconnect`, which cancels the
/// session, leaves the service idle and reports `Disconnected` last) and
/// stops.
pub fn plan_channel_closed<P>() -> (plan: Plan<P>)
    ensures
        !plan.cancel_active,
        !plan.close_chat,
        plan.events@.len() == 0,
        plan.job is Disconnect,
{
    Plan { cancel_active: false, close_chat: false, events: Vec::new(), job: Job::Disconnect }
}

/// The event that reports the failure of `job` with `message`: a failed
/// connection goes to the connect dialog, a failed chat job to the chat
/// page, a failed transfer to the file page. Other jobs do not fail.
pub fn failure_event<P>(job: &Job<P>, message: String) -> (ev: Option<AppEvent>)
    ensures
        job is Connect ==> (ev matches Some(AppEvent::ConnectFailed { error }) && error
            == message),
        (job is HostChat || job is JoinChat) ==> (ev matches Some(AppEvent::ChatError { error })
            && error == message),
        (job is HostFile || job is ReceiveFile) ==> (ev matches Some(
            AppEvent::TransferError { error },
        ) && error == message),
        (job is Idle || job is Disconnect || job is ForwardChat) ==> ev is None,
{
    match job {
        Job::Connect => Some(AppEvent::ConnectFailed { error: message }),
        Job::HostChat { .. } | Job::JoinChat { .. } => Some(AppEvent::ChatError { error: message }),
        Job::HostFile { .. } | Job::ReceiveFile { .. } => Some(
            AppEvent::TransferError { error: message },
        ),
        _ => None,
    }
}

} // verus!
