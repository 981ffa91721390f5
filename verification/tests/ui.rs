use secure_passage::events::{AppEvent, TransferKind};
use secure_passage::ui::{
    page_enabled, qr_payload, AppModel, ChatAction, FilesAction, LogsState, NymConnectAction,
    NymConnectState, Page, Screen, StatusAction, StatusBarState, UiEffect, VpnAction, VpnButton,
    VpnDialogState,
};
use secure_passage::worker::NymCommand;

type Model = AppModel<String>;

#[test]
fn initial_states() {
    let m = Model::new();
    assert_eq!(m.screen, Screen::NymConnect);
    assert_eq!(m.page, Page::Files);
    assert!(m.files.auto_shutdown);
    assert_eq!(m.status.mixnet, "Nym not connected");
    let nc = NymConnectState::default();
    assert_eq!(nc.message, "Ready to connect to the Nym mixnet.");
    assert!(nc.can_connect() && !nc.can_enter());
    assert_eq!(StatusBarState::default().mixnet, "Nym not connected");
    assert_eq!(VpnDialogState::default().detail, "Click Check to look up your public IP / org.");
}

#[test]
fn connect_events_update_the_dialog() {
    let mut m = Model::new();
    assert!(!m.handle_event(AppEvent::ConnectProgress { percent: 30, message: "Building".into() }, "t"));
    assert!(m.nym_connect.connecting);
    assert_eq!(m.nym_connect.percent, 30);
    assert!(m.handle_event(AppEvent::Connected { address: "me@gw".into() }, "12:00:00"));
    assert!(m.nym_connect.connected && !m.nym_connect.connecting);
    assert_eq!(m.nym_connect.message, "Connected: me@gw");
    assert_eq!(m.status.mixnet, "Connected to Nym — me@gw");
    assert_eq!(m.chat.host_address, "me@gw");
    assert_eq!(m.files.host_address, "me@gw");
    assert_eq!(m.mixnet_address.as_deref(), Some("me@gw"));
    assert_eq!(m.logs.entries, vec!["[12:00:00] [INFO] Nym mixnet connected".to_string()]);
    m.chat.hosting = true;
    m.handle_event(AppEvent::Disconnected, "t");
    assert!(!m.mixnet_connected && m.mixnet_address.is_none());
    assert_eq!(m.nym_connect.message, "Ready to connect to the Nym mixnet.");
    assert!(!m.chat.hosting);
    assert_eq!(m.logs.entries.last().unwrap(), "[t] [INFO] Disconnected from Nym");
}

#[test]
fn connect_failure_is_shown_and_logged() {
    let mut m = Model::new();
    m.on_connect_action(NymConnectAction::Connect);
    assert!(m.nym_connect.connecting);
    assert_eq!(m.nym_connect.percent, 5);
    assert_eq!(m.nym_connect.message, "Starting…");
    m.handle_event(AppEvent::ConnectFailed { error: "no gateway".into() }, "t");
    assert!(!m.nym_connect.connecting);
    assert_eq!(m.nym_connect.error.as_deref(), Some("no gateway"));
    assert_eq!(m.logs.entries, vec!["[t] [ERROR] no gateway".to_string()]);
}

#[test]
fn chat_events_update_the_chat_page() {
    let mut m = Model::new();
    assert!(m.handle_event(AppEvent::ChatHosting { address: "a".into(), session_key: "k".into() }, "t"));
    assert!(m.chat.hosting);
    assert_eq!(m.chat.status, "Hosting — waiting for peer…");
    m.handle_event(AppEvent::ChatJoined { peer: "bob".into() }, "t");
    assert!(m.chat.connected && !m.chat.hosting);
    assert_eq!(m.chat.status, "Connected with bob");
    m.handle_event(AppEvent::ChatMessage { sender_id: "0123456789abcdef".into(), content: "hi".into(), timestamp: 0, message_id: "m".into() }, "t");
    m.handle_event(AppEvent::ChatMessage { sender_id: "short".into(), content: "yo".into(), timestamp: 0, message_id: "m".into() }, "t");
    assert_eq!(m.chat.messages, vec!["[01234567] hi".to_string(), "[short] yo".to_string()]);
    m.handle_event(AppEvent::ChatError { error: "oops".into() }, "t");
    assert_eq!(m.chat.status, "oops");
    m.handle_event(AppEvent::ChatPeerLeft, "t");
    assert_eq!(m.chat.status, "Chat ended");
    assert!(!m.chat.connected);
}

#[test]
fn transfer_events_update_the_file_page() {
    let mut m = Model::new();
    assert!(m.handle_event(AppEvent::FileHosting { address: "a".into(), session_key: "k".into(), file_name: "f.txt".into() }, "t"));
    assert_eq!(m.files.status, "Hosting f.txt — waiting for peer…");
    m.handle_event(AppEvent::TransferProgress { kind: TransferKind::Send, file_name: "f.txt".into(), bytes_done: 5, bytes_total: 10 }, "t");
    assert!(m.files.transferring);
    assert_eq!(m.files.progress, (5, 10));
    assert_eq!(m.files.progress_label, "Sending f.txt: 5/10");
    assert!(m.files.progress_visible());
    m.handle_event(AppEvent::TransferComplete { kind: TransferKind::Receive, file_name: "f.txt".into(), path: "/d/f.txt".into() }, "t");
    assert!(!m.files.transferring && !m.files.hosting);
    assert_eq!(m.files.progress, (1, 1));
    assert_eq!(m.files.status, "Received f.txt → /d/f.txt");
    assert_eq!(m.logs.entries.last().unwrap(), "[t] [INFO] Received f.txt → /d/f.txt");
    m.handle_event(AppEvent::TransferError { error: "bad".into() }, "t");
    assert_eq!(m.files.status, "bad");
}

#[test]
fn logs_drop_the_oldest_500_past_2000() {
    let mut logs = LogsState::default();
    for i in 0..2000 {
        logs.push("t", "INFO", &i.to_string());
    }
    assert_eq!(logs.entries.len(), 2000);
    logs.push("t", "INFO", "next");
    assert_eq!(logs.entries.len(), 1501);
    assert_eq!(logs.entries[0], "[t] [INFO] 500");
    assert_eq!(logs.entries.last().unwrap(), "[t] [INFO] next");
}

#[test]
fn chat_actions_make_commands() {
    let mut m = Model::new();
    m.mixnet_address = Some("me".into());
    m.prefill_chat_address();
    assert_eq!(m.chat.host_address, "me");
    let fx = m.on_chat_action(ChatAction::StartHost);
    assert_eq!(m.chat.session_key.len(), 43);
    assert!(matches!(&fx[0], UiEffect::Send(NymCommand::HostChat { session_key }) if *session_key == m.chat.session_key));
    assert!(matches!(fx[1], UiEffect::RefreshQrs));
    assert_eq!(m.chat_qr_payload(), Some(format!("me|{}", m.chat.session_key)));
    m.chat.join_address = "  peer \n".into();
    m.chat.join_key = " key ".into();
    let fx = m.on_chat_action(ChatAction::Join);
    assert!(matches!(&fx[0], UiEffect::Send(NymCommand::JoinChat { address, session_key }) if address == "peer" && session_key == "key"));
    m.chat.hosting = true;
    let fx = m.on_chat_action(ChatAction::Stop);
    assert!(!m.chat.hosting);
    assert!(matches!(fx[0], UiEffect::Send(NymCommand::StopChat)));
}

#[test]
fn chat_input_is_sent_trimmed_only_when_connected() {
    let mut m = Model::new();
    m.chat.input = "  hello  ".into();
    assert_eq!(m.chat.take_input(), ChatAction::Nothing);
    m.chat.connected = true;
    assert_eq!(m.chat.take_input(), ChatAction::Send("hello".into()));
    assert!(m.chat.input.is_empty());
    m.chat.input = "   ".into();
    assert_eq!(m.chat.take_input(), ChatAction::Nothing);
}

#[test]
fn file_actions_make_commands() {
    let mut m = Model::new();
    assert!(m.on_files_action(FilesAction::StartHost).is_empty());
    m.files.selected_path = Some("/tmp/file".into());
    m.files.password = "pw".into();
    let fx = m.on_files_action(FilesAction::StartHost);
    assert!(matches!(&fx[0], UiEffect::Send(NymCommand::HostFile { path, password, auto_shutdown: true, .. })
        if path == "/tmp/file" && password.as_deref() == Some("pw")));
    m.files.dest_dir = Some("/dl".into());
    m.files.join_address = " host ".into();
    let fx = m.on_files_action(FilesAction::StartReceive);
    assert!(matches!(&fx[0], UiEffect::Send(NymCommand::ReceiveFile { address, dest_dir, password: None, .. })
        if address == "host" && dest_dir == "/dl"));
    assert!(m.files.transferring);
    assert_eq!(m.files.status, "Connecting to host…");
    let fx = m.on_files_action(FilesAction::StopHost);
    assert!(!m.files.transferring);
    assert!(matches!(fx[0], UiEffect::Send(NymCommand::StopFile)));
}

#[test]
fn dialogs_and_status_bar() {
    let mut m = Model::new();
    m.on_connect_action(NymConnectAction::Continue);
    assert_eq!(m.screen, Screen::Main);
    let fx = m.on_status_action(StatusAction::Kill);
    assert_eq!(m.screen, Screen::NymConnect);
    assert!(matches!(fx[0], UiEffect::Send(NymCommand::Kill)));
    m.on_status_action(StatusAction::Logs);
    assert!(m.logs.open);
    let fx = m.on_connect_action(NymConnectAction::Quit);
    assert!(matches!(fx[1], UiEffect::Close));
    let mut vpn = VpnDialogState::default();
    assert_eq!(vpn.press(VpnButton::Check), VpnAction::Check);
    assert_eq!(vpn.press(VpnButton::Skip), VpnAction::Continue);
    assert!(vpn.done && vpn.skipped);
    m.select_page(Page::Hosting);
    assert_eq!(m.page, Page::Files);
    m.select_page(Page::Chat);
    assert_eq!(m.page, Page::Chat);
    assert!(!page_enabled(Page::Browser));
    assert_eq!(qr_payload("a", ""), None);
}
