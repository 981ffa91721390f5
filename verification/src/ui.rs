//! The state of the desktop front end and how events and user actions
//! change it. Drawing is left to the front end; everything it decides
//! is here. `P` is the type of file-system paths.
use vstd::prelude::*;
use vstd::utf8::{decode_utf8, encode_utf8};

use crate::bindings::{lowercase, str_to_lowercase, str_trim, u64_to_string};
use crate::crypto::SessionKey;
use crate::encoding::{b64url_encode, contains_str, contains_text, decimal, trim_ws};
use crate::events::{AppEvent, TransferKind};
use crate::worker::NymCommand;

verus! {

/// The number of log lines above which the oldest are dropped.
pub const LOG_LIMIT: usize = 2000;

/// How many of the oldest log lines are dropped at once.
pub const LOG_DROP: usize = 500;

/// The top-level screen.
#[derive(Debug, Clone, Copy, PartialEq, Eq, Structural)]
pub enum Screen {
    NymConnect,
    Main,
}

/// The page of the main screen.
#[derive(Debug, Clone, Copy, PartialEq, Eq, Structural)]
pub enum Page {
    Files,
    Hosting,
    Chat,
    Browser,
}

/// What the connect dialog asks for.
#[derive(Debug, Clone, Copy, PartialEq, Eq, Structural)]
pub enum NymConnectAction {
    Nothing,
    Connect,
    Continue,
    Quit,
}

/// What the status bar asks for.
#[derive(Debug, Clone, Copy, PartialEq, Eq, Structural)]
pub enum StatusAction {
    Nothing,
    Logs,
    Kill,
}

/// What the VPN dialog asks for.
#[derive(Debug, Clone, Copy, PartialEq, Eq, Structural)]
pub enum VpnAction {
    Nothing,
    Check,
    Continue,
    Quit,
}

/// A button of the VPN dialog.
#[derive(Debug, Clone, Copy, PartialEq, Eq, Structural)]
pub enum VpnButton {
    Check,
    Continue,
    Skip,
    Quit,
}

/// What the chat page asks for.
#[derive(Debug, Clone, PartialEq, Eq)]
pub enum ChatAction {
    Nothing,
    StartHost,
    Stop,
    Join,
    Send(String),
    CopyAddress,
    CopyKey,
    RegenerateKey,
}

/// What the file page asks for.
#[derive(Debug, Clone, Copy, PartialEq, Eq, Structural)]
pub enum FilesAction {
    Nothing,
    PickFile,
    PickDest,
    StartHost,
    StopHost,
    StartReceive,
    CopyAddress,
    CopyKey,
    RegenerateKey,
}

/// What the front end must do after a user action.
pub enum UiEffect<P> {
    /// Send the command to the background service.
    Send(NymCommand<P>),
    /// Redraw the QR codes of address and key.
    RefreshQrs,
    /// Put the text on the clipboard.
    Copy(String),
    /// Ask the user for a file to share.
    PickFile,
    /// Ask the user for a download folder.
    PickDest,
    /// Close the window.
    Close,
}

/// The VPN check dialog.
pub struct VpnDialogState {
    pub checking: bool,
    pub detail: String,
    pub detected: Option<bool>,
    pub done: bool,
    pub skipped: bool,
}

/// The connect dialog.
pub struct NymConnectState {
    pub connecting: bool,
    pub percent: u8,
    pub message: String,
    pub error: Option<String>,
    pub connected: bool,
}

/// The status bar.
pub struct StatusBarState {
    pub mixnet: String,
}

/// The log window.
pub struct LogsState {
    pub open: bool,
    pub entries: Vec<String>,
    pub filter: String,
}

/// The chat page.
pub struct ChatViewState {
    pub mode_host: bool,
    pub session_key: String,
    pub host_address: String,
    pub join_address: String,
    pub join_key: String,
    pub input: String,
    pub messages: Vec<String>,
    pub status: String,
    pub hosting: bool,
    pub connected: bool,
}

/// The file page. The progress bar shows `progress.0 / progress.1`, or
/// nothing while `progress.1` is zero.
pub struct FilesViewState<P> {
    pub mode_host: bool,
    pub selected_path: Option<P>,
    pub session_key: String,
    pub host_address: String,
    pub password: String,
    pub auto_shutdown: bool,
    pub join_address: String,
    pub join_key: String,
    pub join_password: String,
    pub dest_dir: Option<P>,
    pub status: String,
    pub hosting: bool,
    pub transferring: bool,
    pub progress: (u64, u64),
    pub progress_label: String,
    pub file_name: String,
}

/// Everything the front end knows.
pub struct AppModel<P> {
    pub screen: Screen,
    pub page: Page,
    pub nym_connect: NymConnectState,
    pub status: StatusBarState,
    pub logs: LogsState,
    pub chat: ChatViewState,
    pub files: FilesViewState<P>,
    pub mixnet_address: Option<String>,
    pub mixnet_connected: bool,
}

impl VpnDialogState {
    pub open spec fn is_initial(&self) -> bool {
        &&& !self.checking
        &&& self.detail@ == "Click Check to look up your public IP / org."@
        &&& self.detected is None
        &&& !self.done
        &&& !self.skipped
    }

    /// What pressing `button` asks for: checking is refused while a check
    /// runs; continuing or skipping ends the dialog.
    pub fn press(&mut self, button: VpnButton) -> (action: VpnAction)
        ensures
            final(self).checking == old(self).checking,
            final(self).detail == old(self).detail,
            final(self).detected == old(self).detected,
            button == VpnButton::Check ==> action == (if old(self).checking {
                VpnAction::Nothing
            } else {
                VpnAction::Check
            }) && final(self).done == old(self).done && final(self).skipped == old(self).skipped,
            button == VpnButton::Continue ==> action == VpnAction::Continue && final(self).done
                && final(self).skipped == old(self).skipped,
            button == VpnButton::Skip ==> action == VpnAction::Continue && final(self).done
                && final(self).skipped,
            button == VpnButton::Quit ==> action == VpnAction::Quit && final(self).done == old(self).done && final(self).skipped == old(self).skipped,
    {
        match button {
            VpnButton::Check => {
                if self.checking {
                    VpnAction::Nothing
                } else {
                    VpnAction::Check
                }
            },
            VpnButton::Continue => {
                self.done = true;
                VpnAction::Continue
            },
            VpnButton::Skip => {
                self.skipped = true;
                self.done = true;
                VpnAction::Continue
            },
            VpnButton::Quit => VpnAction::Quit,
        }
    }
}

impl Default for VpnDialogState {
    fn default() -> (s: Self)
        ensures
            s.is_initial(),
    {
        VpnDialogState {
            checking: false,
            detail: "Click Check to look up your public IP / org.".to_owned(),
            detected: None,
            done: false,
            skipped: false,
        }
    }
}

impl NymConnectState {
    pub open spec fn is_initial(&self) -> bool {
        &&& !self.connecting
        &&& self.percent == 0
        &&& self.message@ == "Ready to connect to the Nym mixnet."@
        &&& self.error is None
        &&& !self.connected
    }

    /// Whether the Connect button is enabled.
    pub fn can_connect(&self) -> (b: bool)
        ensures
            b == (!self.connecting && !self.connected),
    {
        !self.connecting && !self.connected
    }

    /// Whether the Enter App button is enabled.
    pub fn can_enter(&self) -> (b: bool)
        ensures
            b == self.connected,
    {
        self.connected
    }
}

impl Default for NymConnectState {
    fn default() -> (s: Self)
        ensures
            s.is_initial(),
    {
        NymConnectState {
            connecting: false,
            percent: 0,
            message: "Ready to connect to the Nym mixnet.".to_owned(),
            error: None,
            connected: false,
        }
    }
}

impl Default for StatusBarState {
    fn default() -> (s: Self)
        ensures
            s.mixnet@ == "Nym not connected"@,
    {
        StatusBarState { mixnet: "Nym not connected".to_owned() }
    }
}

/// The log line for `message` at `level`, stamped `timestamp`.
pub open spec fn log_line(timestamp: Seq<char>, level: Seq<char>, message: Seq<char>) -> Seq<
    char,
> {
    "["@ + timestamp + "] ["@ + level + "] "@ + message
}

/// The log after appending `line`: above the limit, the oldest lines go.
pub open spec fn appended_log(entries: Seq<String>, line: Seq<char>) -> Seq<Seq<char>> {
    let all = entries.map_values(|e: String| e@).push(line);
    if all.len() > LOG_LIMIT {
        all.skip(LOG_DROP as int)
    } else {
        all
    }
}

impl LogsState {
    /// Appends a log line; when the log grows past 2000 lines, the oldest
    /// 500 are dropped.
    pub fn push(&mut self, timestamp: &str, level: &str, message: &str)
        ensures
            final(self).open == old(self).open,
            final(self).filter == old(self).filter,
            final(self).entries@.map_values(|e: String| e@) == appended_log(
                old(self).entries@,
                log_line(timestamp@, level@, message@),
            ),
    {
        let mut line = "[".to_owned();
        line.append(timestamp);
        line.append("] [");
        line.append(level);
        line.append("] ");
        line.append(message);
        let ghost before = self.entries@;
        self.entries.push(line);
        assert(self.entries@.map_values(|e: String| e@) =~= before.map_values(|e: String| e@).push(
            log_line(timestamp@, level@, message@),
        ));
        if self.entries.len() > LOG_LIMIT {
            let ghost full = self.entries@;
            let rest = self.entries.split_off(LOG_DROP);
            self.entries = rest;
            assert(self.entries@.map_values(|e: String| e@) =~= full.map_values(|e: String| e@).skip(
                LOG_DROP as int,
            ));
        }
    }
}

impl Default for LogsState {
    fn default() -> (s: Self)
        ensures
            !s.open,
            s.entries@.len() == 0,
            s.filter@.len() == 0,
    {
        LogsState { open: false, entries: Vec::new(), filter: String::new() }
    }
}

/// The peer name shown before a chat message: its first 8 bytes when it is
/// longer than that.
pub open spec fn short_sender(sender: Seq<char>) -> Seq<char> {
    if encode_utf8(sender).len() > 8 {
        decode_utf8(encode_utf8(sender).take(8))
    } else {
        sender
    }
}

/// The QR payload for an address and key: `address|key`.
pub open spec fn qr_payload_of(address: Seq<char>, key: Seq<char>) -> Seq<char> {
    address + "|"@ + key
}

/// The payload of the QR code for `address` and `key`, where both are set.
pub fn qr_payload(address: &str, key: &str) -> (payload: Option<String>)
    ensures
        address@.len() == 0 || key@.len() == 0 ==> payload is None,
        address@.len() > 0 && key@.len() > 0 ==> (payload matches Some(p) && p@ == qr_payload_of(
            address@,
            key@,
        )),
{
    if address.is_empty() || key.is_empty() {
        None
    } else {
        let mut p = address.to_owned();
        p.append("|");
        p.append(key);
        Some(p)
    }
}

fn concat(a: &str, b: &str) -> (s: String)
    ensures
        s@ == a@ + b@,
{
    let mut s = a.to_owned();
    s.append(b);
    s
}

/// The verb of a progress label.
pub open spec fn progress_verb(kind: TransferKind) -> Seq<char> {
    match kind {
        TransferKind::Send => "Sending"@,
        TransferKind::Receive => "Receiving"@,
    }
}

/// The verb of a completion message.
pub open spec fn complete_verb(kind: TransferKind) -> Seq<char> {
    match kind {
        TransferKind::Send => "Sent"@,
        TransferKind::Receive => "Received"@,
    }
}

/// `new` is `old` with `message` logged at `level`, stamped `now`.
pub open spec fn logged(old: LogsState, new: LogsState, now: Seq<char>, level: Seq<char>, message: Seq<char>) -> bool {
    &&& new.open == old.open
    &&& new.filter == old.filter
    &&& new.entries@.map_values(|e: String| e@) == appended_log(
        old.entries@,
        log_line(now, level, message),
    )
}

/// A chat message line as the chat page shows it.
pub open spec fn chat_line(sender: Seq<char>, content: Seq<char>) -> Seq<char> {
    "["@ + short_sender(sender) + "] "@ + content
}

/// The events the front end can show: a chat sender id longer than 8 bytes
/// must have a character boundary at byte 8.
pub open spec fn event_displayable(ev: AppEvent) -> bool {
    ev matches AppEvent::ChatMessage { sender_id, .. } ==> encode_utf8(sender_id@).len() <= 8
        || vstd::utf8::is_char_boundary(encode_utf8(sender_id@), 8)
}

/// The text shown before a chat message.
fn short_sender_of(sender: &str) -> (short: String)
    requires
        encode_utf8(sender@).len() <= 8 || vstd::utf8::is_char_boundary(encode_utf8(sender@), 8),
    ensures
        short@ == short_sender(sender@),
{
    if sender.as_bytes().len() > 8 {
        let (head, _) = sender.split_at(8);
        proof {
            vstd::utf8::encode_utf8_decode_utf8(head@);
            assert(encode_utf8(sender@).len() > 8);
            assert(encode_utf8(head@) =~= encode_utf8(sender@).subrange(0, 8));
            assert(encode_utf8(head@) =~= encode_utf8(sender@).take(8));
            assert(head@ == decode_utf8(encode_utf8(sender@).take(8)));
        }
        head.to_owned()
    } else {
        sender.to_owned()
    }
}

impl<P> AppModel<P> {
    /// Applies an event from the background service. Returns whether the QR
    /// codes must be redrawn. Log lines are stamped `now`.
    #[verifier::rlimit(80)]
    pub fn handle_event(&mut self, ev: AppEvent, now: &str) -> (refresh: bool)
        requires
            event_displayable(ev),
        ensures
            final(self).screen == old(self).screen,
            final(self).page == old(self).page,
            refresh == (ev is Connected || ev is ChatHosting || ev is FileHosting),
            match ev {
                AppEvent::Log { level, message } => {
                    &&& logged(old(self).logs, final(self).logs, now@, level@, message@)
                    &&& final(self).nym_connect == old(self).nym_connect
                    &&& final(self).status == old(self).status
                    &&& final(self).chat == old(self).chat
                    &&& final(self).files == old(self).files
                    &&& final(self).mixnet_address == old(self).mixnet_address
                    &&& final(self).mixnet_connected == old(self).mixnet_connected
                },
                AppEvent::VpnStatus { .. } => *final(self) == *old(self),
                AppEvent::ConnectProgress { percent, message } => {
                    &&& final(self).nym_connect.connecting == (percent < 100)
                    &&& final(self).nym_connect.percent == percent
                    &&& final(self).nym_connect.message == message
                    &&& final(self).nym_connect.error == old(self).nym_connect.error
                    &&& final(self).nym_connect.connected == old(self).nym_connect.connected
                    &&& final(self).logs == old(self).logs
                    &&& final(self).status == old(self).status
                    &&& final(self).chat == old(self).chat
                    &&& final(self).files == old(self).files
                    &&& final(self).mixnet_address == old(self).mixnet_address
                    &&& final(self).mixnet_connected == old(self).mixnet_connected
                },
                AppEvent::Connected { address } => {
                    &&& !final(self).nym_connect.connecting
                    &&& final(self).nym_connect.connected
                    &&& final(self).nym_connect.percent == 100
                    &&& final(self).nym_connect.message@ == "Connected: "@ + address@
                    &&& final(self).nym_connect.error is None
                    &&& final(self).mixnet_connected
                    &&& final(self).mixnet_address == Some(address)
                    &&& final(self).status.mixnet@ == "Connected to Nym \u{2014} "@ + address@
                    &&& final(self).chat == ChatViewState {
                        host_address: final(self).chat.host_address,
                        ..old(self).chat
                    }
                    &&& final(self).chat.host_address@ == address@
                    &&& final(self).files == FilesViewState {
                        host_address: final(self).files.host_address,
                        ..old(self).files
                    }
                    &&& final(self).files.host_address@ == address@
                    &&& logged(old(self).logs, final(self).logs, now@, "INFO"@, "Nym mixnet connected"@)
                },
                AppEvent::Disconnected => {
                    &&& !final(self).mixnet_connected
                    &&& final(self).mixnet_address is None
                    &&& final(self).nym_connect.is_initial()
                    &&& final(self).status.mixnet@ == "Nym not connected"@
                    &&& final(self).chat == ChatViewState {
                        hosting: false,
                        connected: false,
                        ..old(self).chat
                    }
                    &&& final(self).files == FilesViewState {
                        hosting: false,
                        transferring: false,
                        ..old(self).files
                    }
                    &&& logged(old(self).logs, final(self).logs, now@, "INFO"@, "Disconnected from Nym"@)
                },
                AppEvent::ConnectFailed { error } => {
                    &&& !final(self).nym_connect.connecting
                    &&& final(self).nym_connect.error == Some(error)
                    &&& final(self).nym_connect.percent == old(self).nym_connect.percent
                    &&& final(self).nym_connect.message == old(self).nym_connect.message
                    &&& final(self).nym_connect.connected == old(self).nym_connect.connected
                    &&& logged(old(self).logs, final(self).logs, now@, "ERROR"@, error@)
                    &&& final(self).status == old(self).status
                    &&& final(self).chat == old(self).chat
                    &&& final(self).files == old(self).files
                    &&& final(self).mixnet_address == old(self).mixnet_address
                    &&& final(self).mixnet_connected == old(self).mixnet_connected
                },
                AppEvent::ChatHosting { address, session_key } => {
                    &&& final(self).chat == ChatViewState {
                        hosting: true,
                        host_address: address,
                        session_key: session_key,
                        status: final(self).chat.status,
                        ..old(self).chat
                    }
                    &&& final(self).chat.status@ == "Hosting \u{2014} waiting for peer\u{2026}"@
                    &&& final(self).logs == old(self).logs
                    &&& final(self).nym_connect == old(self).nym_connect
                    &&& final(self).status == old(self).status
                    &&& final(self).files == old(self).files
                    &&& final(self).mixnet_address == old(self).mixnet_address
                    &&& final(self).mixnet_connected == old(self).mixnet_connected
                },
                AppEvent::ChatJoined { peer } => {
                    &&& final(self).chat == ChatViewState {
                        connected: true,
                        hosting: false,
                        status: final(self).chat.status,
                        ..old(self).chat
                    }
                    &&& final(self).chat.status@ == "Connected with "@ + peer@
                    &&& final(self).logs == old(self).logs
                    &&& final(self).nym_connect == old(self).nym_connect
                    &&& final(self).status == old(self).status
                    &&& final(self).files == old(self).files
                    &&& final(self).mixnet_address == old(self).mixnet_address
                    &&& final(self).mixnet_connected == old(self).mixnet_connected
                },
                AppEvent::ChatMessage { sender_id, content, .. } => {
                    &&& final(self).chat == ChatViewState {
                        messages: final(self).chat.messages,
                        ..old(self).chat
                    }
                    &&& final(self).chat.messages@.map_values(|m: String| m@) == old(self).chat.messages@.map_values(|m: String| m@).push(chat_line(sender_id@, content@))
                    &&& final(self).logs == old(self).logs
                    &&& final(self).nym_connect == old(self).nym_connect
                    &&& final(self).status == old(self).status
                    &&& final(self).files == old(self).files
                    &&& final(self).mixnet_address == old(self).mixnet_address
                    &&& final(self).mixnet_connected == old(self).mixnet_connected
                },
                AppEvent::ChatPeerLeft => {
                    &&& final(self).chat == ChatViewState {
                        connected: false,
                        hosting: false,
                        status: final(self).chat.status,
                        ..old(self).chat
                    }
                    &&& final(self).chat.status@ == "Chat ended"@
                    &&& final(self).logs == old(self).logs
                    &&& final(self).nym_connect == old(self).nym_connect
                    &&& final(self).status == old(self).status
                    &&& final(self).files == old(self).files
                    &&& final(self).mixnet_address == old(self).mixnet_address
                    &&& final(self).mixnet_connected == old(self).mixnet_connected
                },
                AppEvent::ChatError { error } => {
                    &&& final(self).chat == ChatViewState {
                        status: final(self).chat.status,
                        ..old(self).chat
                    }
                    &&& final(self).chat.status@ == error@
                    &&& logged(old(self).logs, final(self).logs, now@, "ERROR"@, error@)
                    &&& final(self).nym_connect == old(self).nym_connect
                    &&& final(self).status == old(self).status
                    &&& final(self).files == old(self).files
                    &&& final(self).mixnet_address == old(self).mixnet_address
                    &&& final(self).mixnet_connected == old(self).mixnet_connected
                },
                AppEvent::FileHosting { address, session_key, file_name } => {
                    &&& final(self).files == FilesViewState {
                        hosting: true,
                        host_address: address,
                        session_key: session_key,
                        file_name: final(self).files.file_name,
                        status: final(self).files.status,
                        ..old(self).files
                    }
                    &&& final(self).files.file_name@ == file_name@
                    &&& final(self).files.status@ == "Hosting "@ + file_name@
                        + " \u{2014} waiting for peer\u{2026}"@
                    &&& final(self).logs == old(self).logs
                    &&& final(self).nym_connect == old(self).nym_connect
                    &&& final(self).status == old(self).status
                    &&& final(self).chat == old(self).chat
                    &&& final(self).mixnet_address == old(self).mixnet_address
                    &&& final(self).mixnet_connected == old(self).mixnet_connected
                },
                AppEvent::TransferProgress { kind, file_name, bytes_done, bytes_total } => {
                    &&& final(self).files == FilesViewState {
                        transferring: true,
                        progress: (bytes_done, bytes_total),
                        progress_label: final(self).files.progress_label,
                        ..old(self).files
                    }
                    &&& final(self).files.progress_label@ == progress_verb(kind) + " "@ + file_name@
                        + ": "@ + decimal(bytes_done as nat) + "/"@ + decimal(bytes_total as nat)
                    &&& final(self).logs == old(self).logs
                    &&& final(self).nym_connect == old(self).nym_connect
                    &&& final(self).status == old(self).status
                    &&& final(self).chat == old(self).chat
                    &&& final(self).mixnet_address == old(self).mixnet_address
                    &&& final(self).mixnet_connected == old(self).mixnet_connected
                },
                AppEvent::TransferComplete { kind, file_name, path } => {
                    &&& final(self).files == FilesViewState {
                        transferring: false,
                        hosting: false,
                        progress: (1u64, 1u64),
                        status: final(self).files.status,
                        ..old(self).files
                    }
                    &&& final(self).files.status@ == complete_verb(kind) + " "@ + file_name@
                        + " \u{2192} "@ + path@
                    &&& logged(old(self).logs, final(self).logs, now@, "INFO"@, final(self).files.status@)
                    &&& final(self).nym_connect == old(self).nym_connect
                    &&& final(self).status == old(self).status
                    &&& final(self).chat == old(self).chat
                    &&& final(self).mixnet_address == old(self).mixnet_address
                    &&& final(self).mixnet_connected == old(self).mixnet_connected
                },
                AppEvent::TransferError { error } => {
                    &&& final(self).files == FilesViewState {
                        transferring: false,
                        hosting: false,
                        status: final(self).files.status,
                        ..old(self).files
                    }
                    &&& final(self).files.status@ == error@
                    &&& logged(old(self).logs, final(self).logs, now@, "ERROR"@, error@)
                    &&& final(self).nym_connect == old(self).nym_connect
                    &&& final(self).status == old(self).status
                    &&& final(self).chat == old(self).chat
                    &&& final(self).mixnet_address == old(self).mixnet_address
                    &&& final(self).mixnet_connected == old(self).mixnet_connected
                },
            },
    {
        match ev {
            AppEvent::Log { level, message } => {
                self.logs.push(now, level.as_str(), message.as_str());
                false
            },
            AppEvent::VpnStatus { .. } => false,
            AppEvent::ConnectProgress { percent, message } => {
                self.nym_connect.connecting = percent < 100;
                self.nym_connect.percent = percent;
                self.nym_connect.message = message;
                false
            },
            AppEvent::Connected { address } => {
                self.nym_connect.connecting = false;
                self.nym_connect.connected = true;
                self.nym_connect.percent = 100;
                self.nym_connect.message = concat("Connected: ", address.as_str());
                self.nym_connect.error = None;
                self.mixnet_connected = true;
                self.mixnet_address = Some(address.clone());
                self.status.mixnet = concat("Connected to Nym \u{2014} ", address.as_str());
                self.chat.host_address = address.clone();
                self.files.host_address = address;
                self.logs.push(now, "INFO", "Nym mixnet connected");
                true
            },
            AppEvent::Disconnected => {
                self.mixnet_connected = false;
                self.mixnet_address = None;
                self.nym_connect = NymConnectState::default();
                self.status.mixnet = "Nym not connected".to_owned();
                self.chat.hosting = false;
                self.chat.connected = false;
                self.files.hosting = false;
                self.files.transferring = false;
                self.logs.push(now, "INFO", "Disconnected from Nym");
                false
            },
            AppEvent::ConnectFailed { error } => {
                self.nym_connect.connecting = false;
                self.logs.push(now, "ERROR", error.as_str());
                self.nym_connect.error = Some(error);
                false
            },
            AppEvent::ChatHosting { address, session_key } => {
                self.chat.hosting = true;
                self.chat.host_address = address;
                self.chat.session_key = session_key;
                self.chat.status = "Hosting \u{2014} waiting for peer\u{2026}".to_owned();
                true
            },
            AppEvent::ChatJoined { peer } => {
                self.chat.connected = true;
                self.chat.hosting = false;
                self.chat.status = concat("Connected with ", peer.as_str());
                false
            },
            AppEvent::ChatMessage { sender_id, content, .. } => {
                let short = short_sender_of(sender_id.as_str());
                let mut line = "[".to_owned();
                line.append(short.as_str());
                line.append("] ");
                line.append(content.as_str());
                let ghost before = self.chat.messages@;
                self.chat.messages.push(line);
                assert(self.chat.messages@.map_values(|m: String| m@) =~= before.map_values(
                    |m: String| m@,
                ).push(chat_line(sender_id@, content@)));
                false
            },
            AppEvent::ChatPeerLeft => {
                self.chat.connected = false;
                self.chat.hosting = false;
                self.chat.status = "Chat ended".to_owned();
                false
            },
            AppEvent::ChatError { error } => {
                self.logs.push(now, "ERROR", error.as_str());
                self.chat.status = error;
                false
            },
            AppEvent::FileHosting { address, session_key, file_name } => {
                self.files.hosting = true;
                self.files.host_address = address;
                self.files.session_key = session_key;
                let mut status = concat("Hosting ", file_name.as_str());
                status.append(" \u{2014} waiting for peer\u{2026}");
                self.files.file_name = file_name;
                self.files.status = status;
                true
            },
            AppEvent::TransferProgress { kind, file_name, bytes_done, bytes_total } => {
                self.files.transferring = true;
                self.files.progress = (bytes_done, bytes_total);
                let mut label = match kind {
                    TransferKind::Send => "Sending".to_owned(),
                    TransferKind::Receive => "Receiving".to_owned(),
                };
                label.append(" ");
                label.append(file_name.as_str());
                label.append(": ");
                let done_text = u64_to_string(bytes_done);
                label.append(done_text.as_str());
                label.append("/");
                let total_text = u64_to_string(bytes_total);
                label.append(total_text.as_str());
                self.files.progress_label = label;
                false
            },
            AppEvent::TransferComplete { kind, file_name, path } => {
                self.files.transferring = false;
                self.files.hosting = false;
                self.files.progress = (1, 1);
                let mut status = match kind {
                    TransferKind::Send => "Sent".to_owned(),
                    TransferKind::Receive => "Received".to_owned(),
                };
                status.append(" ");
                status.append(file_name.as_str());
                status.append(" \u{2192} ");
                status.append(path.as_str());
                self.logs.push(now, "INFO", status.as_str());
                self.files.status = status;
                false
            },
            AppEvent::TransferError { error } => {
                self.files.transferring = false;
                self.files.hosting = false;
                self.logs.push(now, "ERROR", error.as_str());
                self.files.status = error;
                false
            },
        }
    }
}

/// `text` is the text of some session key.
pub open spec fn is_key_text(text: Seq<char>) -> bool {
    exists|k: Seq<u8>| k.len() == crate::crypto::KEY_LEN && #[trigger] b64url_encode(k) == text
}

/// The text of a fresh random session key.
fn fresh_key_text() -> (text: String)
    ensures
        is_key_text(text@),
{
    let key = SessionKey::generate();
    let text = key.to_base64();
    assert(b64url_encode(key@) == text@);
    text
}

/// `s` without surrounding white space, as an owned string.
fn trimmed(s: &str) -> (t: String)
    ensures
        t@ == trim_ws(s@),
{
    str_trim(s).to_owned()
}

impl ChatViewState {
    pub open spec fn is_initial(&self) -> bool {
        &&& !self.mode_host
        &&& self.session_key@.len() == 0
        &&& self.host_address@.len() == 0
        &&& self.join_address@.len() == 0
        &&& self.join_key@.len() == 0
        &&& self.input@.len() == 0
        &&& self.messages@.len() == 0
        &&& self.status@.len() == 0
        &&& !self.hosting
        &&& !self.connected
    }

    /// Whether the host tab offers Start Hosting (rather than Stop).
    pub fn can_start_host(&self) -> (b: bool)
        ensures
            b == (!self.hosting && !self.connected),
    {
        !self.hosting && !self.connected
    }

    /// The host tab makes a session key when there is none.
    pub fn ensure_key(&mut self)
        ensures
            old(self).session_key@.len() > 0 ==> *final(self) == *old(self),
            old(self).session_key@.len() == 0 ==> is_key_text(final(self).session_key@)
                && *final(self) == (ChatViewState {
                session_key: final(self).session_key,
                ..*old(self)
            }),
    {
        if self.session_key.as_str().is_empty() {
            self.session_key = fresh_key_text();
        }
    }

    /// Send pressed: while connected, a message that is not blank after
    /// trimming is sent trimmed and the input cleared.
    pub fn take_input(&mut self) -> (action: ChatAction)
        ensures
            (old(self).connected && trim_ws(old(self).input@).len() > 0) ==> ((action matches ChatAction::Send(
                c,
            ) && c@ == trim_ws(old(self).input@)) && final(self).input@.len() == 0
                && *final(self) == (ChatViewState { input: final(self).input, ..*old(self) })),
            !(old(self).connected && trim_ws(old(self).input@).len() > 0) ==> action
                == ChatAction::Nothing && *final(self) == *old(self),
    {
        if self.connected {
            let content = trimmed(self.input.as_str());
            if !content.as_str().is_empty() {
                self.input = String::new();
                return ChatAction::Send(content);
            }
        }
        ChatAction::Nothing
    }
}

impl Default for ChatViewState {
    fn default() -> (s: Self)
        ensures
            s.is_initial(),
    {
        ChatViewState {
            mode_host: false,
            session_key: String::new(),
            host_address: String::new(),
            join_address: String::new(),
            join_key: String::new(),
            input: String::new(),
            messages: Vec::new(),
            status: String::new(),
            hosting: false,
            connected: false,
        }
    }
}

impl<P> FilesViewState<P> {
    pub open spec fn is_initial(&self) -> bool {
        &&& !self.mode_host
        &&& self.selected_path is None
        &&& self.session_key@.len() == 0
        &&& self.host_address@.len() == 0
        &&& self.password@.len() == 0
        &&& self.auto_shutdown
        &&& self.join_address@.len() == 0
        &&& self.join_key@.len() == 0
        &&& self.join_password@.len() == 0
        &&& self.dest_dir is None
        &&& self.status@.len() == 0
        &&& !self.hosting
        &&& !self.transferring
        &&& self.progress == (0u64, 0u64)
        &&& self.progress_label@.len() == 0
        &&& self.file_name@.len() == 0
    }

    /// The file page as the application starts it: nothing chosen, and
    /// auto-shutdown after a transfer switched on.
    pub fn new() -> (s: Self)
        ensures
            s.is_initial(),
    {
        FilesViewState {
            mode_host: false,
            selected_path: None,
            session_key: String::new(),
            host_address: String::new(),
            password: String::new(),
            auto_shutdown: true,
            join_address: String::new(),
            join_key: String::new(),
            join_password: String::new(),
            dest_dir: None,
            status: String::new(),
            hosting: false,
            transferring: false,
            progress: (0, 0),
            progress_label: String::new(),
            file_name: String::new(),
        }
    }

    /// Whether Start Sharing is shown and enabled.
    pub fn can_start_host(&self) -> (b: bool)
        ensures
            b == (!self.hosting && !self.transferring && self.selected_path is Some),
    {
        !self.hosting && !self.transferring && self.selected_path.is_some()
    }

    /// Whether Stop is shown in place of Start Sharing.
    pub fn can_stop_host(&self) -> (b: bool)
        ensures
            b == (self.hosting || self.transferring),
    {
        self.hosting || self.transferring
    }

    /// Whether Receive File is shown and enabled.
    pub fn can_receive(&self) -> (b: bool)
        ensures
            b == (!self.transferring && self.dest_dir is Some && self.join_address@.len() > 0
                && self.join_key@.len() > 0),
    {
        !self.transferring && self.dest_dir.is_some() && !self.join_address.as_str().is_empty()
            && !self.join_key.as_str().is_empty()
    }

    /// Whether the progress bar is shown: during a transfer, or once some
    /// progress was made.
    pub fn progress_visible(&self) -> (b: bool)
        ensures
            b == (self.transferring || (self.progress.0 > 0 && self.progress.1 > 0)),
    {
        self.transferring || (self.progress.0 > 0 && self.progress.1 > 0)
    }

    /// The host tab makes a session key when there is none.
    pub fn ensure_key(&mut self)
        ensures
            old(self).session_key@.len() > 0 ==> *final(self) == *old(self),
            old(self).session_key@.len() == 0 ==> is_key_text(final(self).session_key@)
                && *final(self) == (FilesViewState {
                session_key: final(self).session_key,
                ..*old(self)
            }),
    {
        if self.session_key.as_str().is_empty() {
            self.session_key = fresh_key_text();
        }
    }
}

/// Whether a page of the main screen can be opened (hosting and browsing
/// are not there yet).
pub fn page_enabled(page: Page) -> (b: bool)
    ensures
        b == (page == Page::Files || page == Page::Chat),
{
    match page {
        Page::Files | Page::Chat => true,
        _ => false,
    }
}

/// The text, or nothing when it is empty.
fn non_empty(text: &String) -> (o: Option<String>)
    ensures
        text@.len() == 0 ==> o is None,
        text@.len() > 0 ==> o == Some(*text),
{
    if text.as_str().is_empty() {
        None
    } else {
        Some(text.clone())
    }
}

impl<P: Clone> AppModel<P> {
    pub open spec fn is_initial(&self) -> bool {
        &&& self.screen == Screen::NymConnect
        &&& self.page == Page::Files
        &&& self.nym_connect.is_initial()
        &&& self.status.mixnet@ == "Nym not connected"@
        &&& !self.logs.open && self.logs.entries@.len() == 0 && self.logs.filter@.len() == 0
        &&& self.chat.is_initial()
        &&& self.files.is_initial()
        &&& self.mixnet_address is None
        &&& !self.mixnet_connected
    }

    /// The front end as it starts: on the connect screen, file page selected.
    pub fn new() -> (m: Self)
        ensures
            m.is_initial(),
    {
        AppModel {
            screen: Screen::NymConnect,
            page: Page::Files,
            nym_connect: NymConnectState::default(),
            status: StatusBarState::default(),
            logs: LogsState::default(),
            chat: ChatViewState::default(),
            files: FilesViewState::new(),
            mixnet_address: None,
            mixnet_connected: false,
        }
    }

    /// Opens `page` if it can be opened.
    pub fn select_page(&mut self, page: Page)
        ensures
            final(self).page == (if page_enabled_spec(page) {
                page
            } else {
                old(self).page
            }),
            page == Page::Files || page == Page::Chat ==> final(self).page == page,
            page == Page::Hosting || page == Page::Browser ==> final(self).page == old(self).page,
    {
        if page_enabled(page) {
            self.page = page;
        }
    }

    /// What the connect dialog's buttons do.
    pub fn on_connect_action(&mut self, action: NymConnectAction) -> (effects: Vec<UiEffect<P>>)
        ensures
            action == NymConnectAction::Connect ==> final(self).nym_connect.connecting
                && final(self).nym_connect.error is None && final(self).nym_connect.percent == 5
                && final(self).nym_connect.message@ == "Starting\u{2026}"@
                && final(self).nym_connect.connected == old(self).nym_connect.connected
                && final(self).screen == old(self).screen && effects@.len() == 1
                && (effects@[0] matches UiEffect::Send(NymCommand::Connect)),
            action == NymConnectAction::Continue ==> final(self).screen == Screen::Main
                && final(self).nym_connect == old(self).nym_connect && effects@.len() == 0,
            action == NymConnectAction::Quit ==> final(self).screen == old(self).screen
                && final(self).nym_connect == old(self).nym_connect && effects@.len() == 2
                && (effects@[0] matches UiEffect::Send(NymCommand::Kill)) && effects@[1] is Close,
            action == NymConnectAction::Nothing ==> final(self).screen == old(self).screen
                && final(self).nym_connect == old(self).nym_connect && effects@.len() == 0,
            final(self).page == old(self).page,
            final(self).logs == old(self).logs,
            final(self).chat == old(self).chat,
            final(self).files == old(self).files,
            final(self).status == old(self).status,
            final(self).mixnet_address == old(self).mixnet_address,
            final(self).mixnet_connected == old(self).mixnet_connected,
    {
        let mut effects = Vec::new();
        match action {
            NymConnectAction::Connect => {
                self.nym_connect.connecting = true;
                self.nym_connect.error = None;
                self.nym_connect.percent = 5;
                self.nym_connect.message = "Starting\u{2026}".to_owned();
                effects.push(UiEffect::Send(NymCommand::Connect));
            },
            NymConnectAction::Continue => {
                self.screen = Screen::Main;
            },
            NymConnectAction::Quit => {
                effects.push(UiEffect::Send(NymCommand::Kill));
                effects.push(UiEffect::Close);
            },
            NymConnectAction::Nothing => {},
        }
        effects
    }

    /// What the status bar's buttons do.
    pub fn on_status_action(&mut self, action: StatusAction) -> (effects: Vec<UiEffect<P>>)
        ensures
            action == StatusAction::Logs ==> final(self).logs.open && final(self).logs.entries
                == old(self).logs.entries && final(self).logs.filter == old(self).logs.filter
                && final(self).screen == old(self).screen && effects@.len() == 0,
            action == StatusAction::Kill ==> final(self).screen == Screen::NymConnect
                && final(self).logs == old(self).logs && effects@.len() == 1
                && (effects@[0] matches UiEffect::Send(NymCommand::Kill)),
            action == StatusAction::Nothing ==> final(self).screen == old(self).screen
                && final(self).logs == old(self).logs && effects@.len() == 0,
            final(self).page == old(self).page,
            final(self).nym_connect == old(self).nym_connect,
            final(self).chat == old(self).chat,
            final(self).files == old(self).files,
            final(self).status == old(self).status,
            final(self).mixnet_address == old(self).mixnet_address,
            final(self).mixnet_connected == old(self).mixnet_connected,
    {
        let mut effects = Vec::new();
        match action {
            StatusAction::Logs => {
                self.logs.open = true;
            },
            StatusAction::Kill => {
                effects.push(UiEffect::Send(NymCommand::Kill));
                self.screen = Screen::NymConnect;
            },
            StatusAction::Nothing => {},
        }
        effects
    }
}

/// Whether a page of the main screen can be opened.
pub open spec fn page_enabled_spec(page: Page) -> bool {
    page == Page::Files || page == Page::Chat
}

/// `new` is `old` with only the session key replaced: kept when there was
/// one, else the text of a fresh key.
pub open spec fn files_key_ensured<P>(old: FilesViewState<P>, new: FilesViewState<P>) -> bool {
    &&& new == (FilesViewState { session_key: new.session_key, ..old })
    &&& old.session_key@.len() > 0 ==> new.session_key == old.session_key
    &&& old.session_key@.len() == 0 ==> is_key_text(new.session_key@)
}

/// The password to send: none when the field is empty.
pub open spec fn password_of(field: String, password: Option<String>) -> bool {
    &&& field@.len() == 0 ==> password is None
    &&& field@.len() > 0 ==> password == Some(field)
}

/// What a file-page action did to the page (`old` to `new`) and asked for.
pub open spec fn files_action_done<P: Clone>(
    old: FilesViewState<P>,
    new: FilesViewState<P>,
    action: FilesAction,
    effects: Seq<UiEffect<P>>,
) -> bool {
    match action {
        FilesAction::PickFile => new == old && effects.len() == 1 && effects[0] is PickFile,
        FilesAction::PickDest => new == old && effects.len() == 1 && effects[0] is PickDest,
        FilesAction::StartHost => match old.selected_path {
            None => new == old && effects.len() == 0,
            Some(selected) => {
                &&& files_key_ensured(old, new)
                &&& effects.len() == 2
                &&& effects[0] matches UiEffect::Send(
                    NymCommand::HostFile { path, session_key, password, auto_shutdown },
                ) && cloned(selected, path) && session_key == new.session_key && auto_shutdown
                    == old.auto_shutdown && password_of(old.password, password)
                &&& effects[1] is RefreshQrs
            },
        },
        FilesAction::StopHost => {
            &&& new == (FilesViewState { hosting: false, transferring: false, ..old })
            &&& effects.len() == 1
            &&& effects[0] matches UiEffect::Send(NymCommand::StopFile)
        },
        FilesAction::StartReceive => match old.dest_dir {
            None => new == old && effects.len() == 0,
            Some(dir) => {
                &&& new == (FilesViewState { transferring: true, status: new.status, ..old })
                &&& new.status@ == "Connecting to host\u{2026}"@
                &&& effects.len() == 1
                &&& effects[0] matches UiEffect::Send(
                    NymCommand::ReceiveFile { address, session_key, dest_dir, password },
                ) && address@ == trim_ws(old.join_address@) && session_key@ == trim_ws(
                    old.join_key@,
                ) && cloned(dir, dest_dir) && password_of(old.join_password, password)
            },
        },
        FilesAction::CopyAddress => {
            &&& new == old
            &&& effects.len() == 1
            &&& effects[0] matches UiEffect::Copy(t) && t == old.host_address
        },
        FilesAction::CopyKey => {
            &&& new == old
            &&& effects.len() == 1
            &&& effects[0] matches UiEffect::Copy(t) && t == old.session_key
        },
        FilesAction::RegenerateKey => {
            &&& new == (FilesViewState { session_key: new.session_key, ..old })
            &&& is_key_text(new.session_key@)
            &&& effects.len() == 1
            &&& effects[0] is RefreshQrs
        },
        FilesAction::Nothing => new == old && effects.len() == 0,
    }
}

impl<P: Clone> AppModel<P> {
    /// Before the chat page is drawn: an empty host address takes the
    /// mixnet address, when there is one.
    pub fn prefill_chat_address(&mut self)
        ensures
            (old(self).chat.host_address@.len() == 0 && old(self).mixnet_address is Some) ==> (
            final(self).chat == ChatViewState {
                host_address: final(self).chat.host_address,
                ..old(self).chat
            } && final(self).chat.host_address == old(self).mixnet_address.unwrap()),
            !(old(self).chat.host_address@.len() == 0 && old(self).mixnet_address is Some) ==> final(self).chat == old(self).chat,
            final(self).files == old(self).files,
            final(self).mixnet_address == old(self).mixnet_address,
    {
        if self.chat.host_address.as_str().is_empty() {
            match &self.mixnet_address {
                Some(a) => {
                    self.chat.host_address = a.clone();
                },
                None => {},
            }
        }
    }

    /// Before the file page is drawn: an empty host address takes the
    /// mixnet address, when there is one.
    pub fn prefill_files_address(&mut self)
        ensures
            (old(self).files.host_address@.len() == 0 && old(self).mixnet_address is Some) ==> (
            final(self).files == FilesViewState {
                host_address: final(self).files.host_address,
                ..old(self).files
            } && final(self).files.host_address == old(self).mixnet_address.unwrap()),
            !(old(self).files.host_address@.len() == 0 && old(self).mixnet_address is Some)
                ==> final(self).files == old(self).files,
            final(self).chat == old(self).chat,
            final(self).mixnet_address == old(self).mixnet_address,
    {
        if self.files.host_address.as_str().is_empty() {
            match &self.mixnet_address {
                Some(a) => {
                    self.files.host_address = a.clone();
                },
                None => {},
            }
        }
    }

    /// The payload of the chat page's QR code, where address and key are set.
    pub fn chat_qr_payload(&self) -> (payload: Option<String>)
        ensures
            self.chat.host_address@.len() == 0 || self.chat.session_key@.len() == 0 ==> payload
                is None,
            self.chat.host_address@.len() > 0 && self.chat.session_key@.len() > 0 ==> (payload matches Some(
                p,
            ) && p@ == qr_payload_of(self.chat.host_address@, self.chat.session_key@)),
    {
        qr_payload(self.chat.host_address.as_str(), self.chat.session_key.as_str())
    }

    /// The payload of the file page's QR code, where address and key are set.
    pub fn files_qr_payload(&self) -> (payload: Option<String>)
        ensures
            self.files.host_address@.len() == 0 || self.files.session_key@.len() == 0 ==> payload
                is None,
            self.files.host_address@.len() > 0 && self.files.session_key@.len() > 0 ==> (payload matches Some(
                p,
            ) && p@ == qr_payload_of(self.files.host_address@, self.files.session_key@)),
    {
        qr_payload(self.files.host_address.as_str(), self.files.session_key.as_str())
    }

    /// What the chat page's buttons do.
    pub fn on_chat_action(&mut self, action: ChatAction) -> (effects: Vec<UiEffect<P>>)
        ensures
            final(self).screen == old(self).screen,
            final(self).page == old(self).page,
            final(self).nym_connect == old(self).nym_connect,
            final(self).logs == old(self).logs,
            final(self).files == old(self).files,
            final(self).status == old(self).status,
            final(self).mixnet_address == old(self).mixnet_address,
            final(self).mixnet_connected == old(self).mixnet_connected,
            match action {
                ChatAction::StartHost => {
                    &&& final(self).chat == ChatViewState {
                        session_key: final(self).chat.session_key,
                        ..old(self).chat
                    }
                    &&& old(self).chat.session_key@.len() > 0 ==> final(self).chat.session_key
                        == old(self).chat.session_key
                    &&& old(self).chat.session_key@.len() == 0 ==> is_key_text(
                        final(self).chat.session_key@,
                    )
                    &&& effects@.len() == 2
                    &&& effects@[0] matches UiEffect::Send(NymCommand::HostChat { session_key })
                        && session_key == final(self).chat.session_key
                    &&& effects@[1] is RefreshQrs
                },
                ChatAction::Join => {
                    &&& final(self).chat == old(self).chat
                    &&& effects@.len() == 1
                    &&& effects@[0] matches UiEffect::Send(NymCommand::JoinChat { address, session_key })
                        && address@ == trim_ws(old(self).chat.join_address@) && session_key@
                        == trim_ws(old(self).chat.join_key@)
                },
                ChatAction::Send(content) => {
                    &&& final(self).chat == old(self).chat
                    &&& effects@.len() == 1
                    &&& effects@[0] matches UiEffect::Send(NymCommand::SendChat { content: c })
                        && c == content
                },
                ChatAction::Stop => {
                    &&& final(self).chat == ChatViewState {
                        hosting: false,
                        connected: false,
                        ..old(self).chat
                    }
                    &&& effects@.len() == 1
                    &&& effects@[0] matches UiEffect::Send(NymCommand::StopChat)
                },
                ChatAction::CopyAddress => {
                    &&& final(self).chat == old(self).chat
                    &&& effects@.len() == 1
                    &&& effects@[0] matches UiEffect::Copy(t) && t == old(self).chat.host_address
                },
                ChatAction::CopyKey => {
                    &&& final(self).chat == old(self).chat
                    &&& effects@.len() == 1
                    &&& effects@[0] matches UiEffect::Copy(t) && t == old(self).chat.session_key
                },
                ChatAction::RegenerateKey => {
                    &&& final(self).chat == ChatViewState {
                        session_key: final(self).chat.session_key,
                        ..old(self).chat
                    }
                    &&& is_key_text(final(self).chat.session_key@)
                    &&& effects@.len() == 1
                    &&& effects@[0] is RefreshQrs
                },
                ChatAction::Nothing => final(self).chat == old(self).chat && effects@.len() == 0,
            },
    {
        let mut effects = Vec::new();
        match action {
            ChatAction::StartHost => {
                self.chat.ensure_key();
                effects.push(
                    UiEffect::Send(NymCommand::HostChat { session_key: self.chat.session_key.clone() }),
                );
                effects.push(UiEffect::RefreshQrs);
            },
            ChatAction::Join => {
                let address = trimmed(self.chat.join_address.as_str());
                let session_key = trimmed(self.chat.join_key.as_str());
                effects.push(UiEffect::Send(NymCommand::JoinChat { address, session_key }));
            },
            ChatAction::Send(content) => {
                effects.push(UiEffect::Send(NymCommand::SendChat { content }));
            },
            ChatAction::Stop => {
                effects.push(UiEffect::Send(NymCommand::StopChat));
                self.chat.hosting = false;
                self.chat.connected = false;
            },
            ChatAction::CopyAddress => {
                effects.push(UiEffect::Copy(self.chat.host_address.clone()));
            },
            ChatAction::CopyKey => {
                effects.push(UiEffect::Copy(self.chat.session_key.clone()));
            },
            ChatAction::RegenerateKey => {
                self.chat.session_key = fresh_key_text();
                effects.push(UiEffect::RefreshQrs);
            },
            ChatAction::Nothing => {},
        }
        effects
    }

    /// What the file page's buttons do.
    pub fn on_files_action(&mut self, action: FilesAction) -> (effects: Vec<UiEffect<P>>)
        ensures
            final(self).screen == old(self).screen,
            final(self).page == old(self).page,
            final(self).nym_connect == old(self).nym_connect,
            final(self).logs == old(self).logs,
            final(self).chat == old(self).chat,
            final(self).status == old(self).status,
            final(self).mixnet_address == old(self).mixnet_address,
            final(self).mixnet_connected == old(self).mixnet_connected,
            files_action_done(old(self).files, final(self).files, action, effects@),
    {
        let mut effects = Vec::new();
        match action {
            FilesAction::PickFile => {
                effects.push(UiEffect::PickFile);
            },
            FilesAction::PickDest => {
                effects.push(UiEffect::PickDest);
            },
            FilesAction::StartHost => {
                match self.files.selected_path.clone() {
                    Some(path) => {
                        self.files.ensure_key();
                        let password = non_empty(&self.files.password);
                        effects.push(
                            UiEffect::Send(
                                NymCommand::HostFile {
                                    path,
                                    session_key: self.files.session_key.clone(),
                                    password,
                                    auto_shutdown: self.files.auto_shutdown,
                                },
                            ),
                        );
                        effects.push(UiEffect::RefreshQrs);
                    },
                    None => {},
                }
            },
            FilesAction::StopHost => {
                effects.push(UiEffect::Send(NymCommand::StopFile));
                self.files.hosting = false;
                self.files.transferring = false;
            },
            FilesAction::StartReceive => {
                match self.files.dest_dir.clone() {
                    Some(dest_dir) => {
                        let password = non_empty(&self.files.join_password);
                        let address = trimmed(self.files.join_address.as_str());
                        let session_key = trimmed(self.files.join_key.as_str());
                        effects.push(
                            UiEffect::Send(
                                NymCommand::ReceiveFile { address, session_key, dest_dir, password },
                            ),
                        );
                        self.files.transferring = true;
                        self.files.status = "Connecting to host\u{2026}".to_owned();
                    },
                    None => {},
                }
            },
            FilesAction::CopyAddress => {
                effects.push(UiEffect::Copy(self.files.host_address.clone()));
            },
            FilesAction::CopyKey => {
                effects.push(UiEffect::Copy(self.files.session_key.clone()));
            },
            FilesAction::RegenerateKey => {
                self.files.session_key = fresh_key_text();
                effects.push(UiEffect::RefreshQrs);
            },
            FilesAction::Nothing => {},
        }
        effects
    }
}

/// Starting to host a file sends the key that the page shows: a key that
/// was already on the page (and may have been shared with the peer) is kept
/// and sent as it is; only an empty key field gets a fresh key, which is then
/// both shown and sent.
pub proof fn lemma_start_host_sends_page_key<P: Clone>(
    old: FilesViewState<P>,
    new: FilesViewState<P>,
    effects: Seq<UiEffect<P>>,
)
    requires
        files_action_done(old, new, FilesAction::StartHost, effects),
        old.selected_path is Some,
    ensures
        effects.len() == 2,
        effects[0] matches UiEffect::Send(NymCommand::HostFile { session_key, .. })
            && session_key == new.session_key,
        old.session_key@.len() > 0 ==> new.session_key == old.session_key,
        old.session_key@.len() > 0 ==> (effects[0] matches UiEffect::Send(
            NymCommand::HostFile { session_key, .. },
        ) && session_key == old.session_key),
        old.session_key@.len() == 0 ==> is_key_text(new.session_key@),
        new.selected_path == old.selected_path && new.password == old.password && new.join_key
            == old.join_key,
{
}

/// Receiving a file uses what the receive tab holds: the trimmed host
/// address and the trimmed key typed there; the host tab's own session key
/// plays no part.
pub proof fn lemma_start_receive_uses_join_fields<P: Clone>(
    old: FilesViewState<P>,
    new: FilesViewState<P>,
    effects: Seq<UiEffect<P>>,
)
    requires
        files_action_done(old, new, FilesAction::StartReceive, effects),
        old.dest_dir is Some,
    ensures
        effects.len() == 1,
        effects[0] matches UiEffect::Send(
            NymCommand::ReceiveFile { address, session_key, password, .. },
        ) && session_key@ == trim_ws(old.join_key@) && address@ == trim_ws(old.join_address@)
            && (old.join_password@.len() == 0 ==> password is None),
        new.transferring,
        new.session_key == old.session_key,
{
}

/// The copy buttons of the file page copy exactly what they are next to:
/// Copy by the key copies the page's session key, Copy by the address its
/// Nym address; the page does not change.
pub proof fn lemma_file_copy_buttons<P: Clone>(
    old: FilesViewState<P>,
    new: FilesViewState<P>,
    action: FilesAction,
    effects: Seq<UiEffect<P>>,
)
    requires
        files_action_done(old, new, action, effects),
        action == FilesAction::CopyKey || action == FilesAction::CopyAddress,
    ensures
        new == old,
        effects.len() == 1,
        action == FilesAction::CopyKey ==> (effects[0] matches UiEffect::Copy(t) && t
            == old.session_key),
        action == FilesAction::CopyAddress ==> (effects[0] matches UiEffect::Copy(t) && t
            == old.host_address),
{
}

/// File Sharing and Secure Chat can always be opened from any page; Website
/// Hosting and Mixnet Browser are placeholders that leave the current page.
/// (`new_page` is the page after `select_page(page)` from `old_page`.)
pub proof fn lemma_select_page_opens_main_pages(old_page: Page, page: Page, new_page: Page)
    requires
        new_page == (if page_enabled_spec(page) {
            page
        } else {
            old_page
        }),
    ensures
        page == Page::Files ==> new_page == Page::Files,
        page == Page::Chat ==> new_page == Page::Chat,
        page == Page::Hosting ==> new_page == old_page,
        page == Page::Browser ==> new_page == old_page,
{
}

/// The log never holds more than 2000 lines once it holds no more than that.
pub proof fn lemma_log_stays_bounded(entries: Seq<String>, line: Seq<char>)
    requires
        entries.len() <= LOG_LIMIT,
    ensures
        appended_log(entries, line).len() <= LOG_LIMIT,
        appended_log(entries, line).last() == line,
{
}

/// Whether the log window shows `line` under `filter`: every line when the
/// filter is empty, else the lines that contain it, ignoring case.
pub open spec fn log_visible(line: Seq<char>, filter: Seq<char>) -> bool {
    filter.len() == 0 || contains_text(lowercase(line), lowercase(filter))
}

/// Whether the log window shows `line` under `filter`.
pub fn log_line_visible(line: &str, filter: &str) -> (shown: bool)
    ensures
        shown == log_visible(line@, filter@),
{
    if filter.is_empty() {
        return true;
    }
    let l = str_to_lowercase(line);
    let f = str_to_lowercase(filter);
    contains_str(l.as_str(), f.as_str())
}

} // verus!
