//! Events and connection state shared with the front end.
use vstd::prelude::*;

verus! {

/// The state of the mixnet connection.
#[derive(Debug, Clone, Copy, PartialEq, Eq, Structural)]
pub enum ConnectionState {
    Disconnected,
    Connecting,
    Connected,
    Error,
}

/// The direction of a file transfer.
#[derive(Debug, Clone, Copy, PartialEq, Eq, Structural)]
pub enum TransferKind {
    Send,
    Receive,
}

/// What the background service reports to the front end.
#[derive(Debug, Clone)]
pub enum AppEvent {
    Log { level: String, message: String },
    VpnStatus { detected: bool, detail: String },
    ConnectProgress { percent: u8, message: String },
    Connected { address: String },
    Disconnected,
    ConnectFailed { error: String },
    ChatHosting { address: String, session_key: String },
    ChatJoined { peer: String },
    /// `timestamp` holds the bits of the message's time in seconds since the
    /// Unix epoch as an IEEE-754 double.
    ChatMessage { sender_id: String, content: String, timestamp: u64, message_id: String },
    ChatPeerLeft,
    ChatError { error: String },
    TransferProgress { kind: TransferKind, file_name: String, bytes_done: u64, bytes_total: u64 },
    TransferComplete { kind: TransferKind, file_name: String, path: String },
    TransferError { error: String },
    FileHosting { address: String, session_key: String, file_name: String },
}

} // verus!
