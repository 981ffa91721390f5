use secure_passage::crypto::SessionKey;
use secure_passage::events::AppEvent;
use secure_passage::worker::{failure_event, key_error_text_of, plan_command, Job, NymCommand};
use secure_passage::SessionKeyError;

type Cmd = NymCommand<String>;

fn key_text() -> String {
    SessionKey::from_bytes([3u8; 32]).to_base64()
}

fn one_error(events: &[AppEvent]) -> (bool, String) {
    assert_eq!(events.len(), 1);
    match &events[0] {
        AppEvent::ChatError { error } => (true, error.clone()),
        AppEvent::TransferError { error } => (false, error.clone()),
        other => panic!("unexpected event {other:?}"),
    }
}

#[test]
fn connect_when_not_connected_starts_connecting() {
    let plan = plan_command(false, &None, false, Cmd::Connect);
    assert!(!plan.cancel_active && !plan.close_chat);
    assert!(plan.events.is_empty());
    assert!(matches!(plan.job, Job::Connect));
}

#[test]
fn connect_when_connected_reports_the_address() {
    let plan = plan_command(true, &Some("addr".to_string()), false, Cmd::Connect);
    assert!(matches!(plan.job, Job::Idle));
    assert_eq!(plan.events.len(), 2);
    assert!(matches!(&plan.events[0], AppEvent::Log { level, message }
        if level == "INFO" && message == "Already connected to the Nym mixnet"));
    assert!(matches!(&plan.events[1], AppEvent::Connected { address } if address == "addr"));
    let plan = plan_command(true, &None, false, Cmd::Connect);
    assert_eq!(plan.events.len(), 1);
}

#[test]
fn kill_and_disconnect_cancel_and_disconnect() {
    for cmd in [Cmd::Kill, Cmd::Disconnect] {
        let plan = plan_command(true, &Some("a".into()), true, cmd);
        assert!(plan.cancel_active && plan.close_chat);
        assert!(matches!(plan.job, Job::Disconnect));
    }
}

#[test]
fn host_chat_needs_a_key_and_an_address() {
    let bad = plan_command(true, &Some("a".into()), false, Cmd::HostChat { session_key: "??".into() });
    assert_eq!(one_error(&bad.events), (true, "invalid session key encoding".to_string()));
    let short = plan_command(true, &Some("a".into()), false, Cmd::HostChat { session_key: "AAAA".into() });
    assert_eq!(one_error(&short.events), (true, "invalid session key length".to_string()));
    let offline = plan_command(false, &None, false, Cmd::HostChat { session_key: key_text() });
    assert_eq!(one_error(&offline.events), (true, "Not connected".to_string()));
    let ok = plan_command(true, &Some("me@gw".into()), false, Cmd::HostChat { session_key: key_text() });
    assert!(ok.cancel_active && ok.close_chat);
    assert!(matches!(&ok.events[0], AppEvent::ChatHosting { address, session_key }
        if address == "me@gw" && *session_key == key_text()));
    assert!(matches!(&ok.events[1], AppEvent::Log { message, .. }
        if message == "Chat host waiting for peer stream…"));
    match ok.job {
        Job::HostChat { key } => assert_eq!(key.to_base64(), key_text()),
        _ => panic!("expected a chat host job"),
    }
}

#[test]
fn join_chat_logs_and_opens_a_stream() {
    let plan = plan_command(true, &None, false, Cmd::JoinChat { address: "peer".into(), session_key: key_text() });
    assert!(matches!(&plan.events[0], AppEvent::Log { message, .. }
        if message == "Opening chat stream to peer…"));
    assert!(matches!(plan.job, Job::JoinChat { address, .. } if address == "peer"));
}

#[test]
fn send_chat_needs_an_open_session() {
    let closed = plan_command(true, &None, false, Cmd::SendChat { content: "hi".into() });
    assert_eq!(one_error(&closed.events), (true, "No active chat session".to_string()));
    let open = plan_command(true, &None, true, Cmd::SendChat { content: "hi".into() });
    assert!(!open.cancel_active);
    assert!(matches!(open.job, Job::ForwardChat { content } if content == "hi"));
}

#[test]
fn stop_chat_reports_peer_left() {
    let plan = plan_command(true, &None, true, Cmd::StopChat);
    assert!(plan.cancel_active && plan.close_chat);
    assert!(matches!(plan.events[..], [AppEvent::ChatPeerLeft]));
}

#[test]
fn file_commands_are_checked() {
    let host = Cmd::HostFile { path: "/tmp/f".into(), session_key: key_text(), password: None, auto_shutdown: true };
    let offline = plan_command(false, &None, false, host);
    assert_eq!(one_error(&offline.events), (false, "Not connected".to_string()));
    let host = Cmd::HostFile { path: "/tmp/f".into(), session_key: key_text(), password: Some("pw".into()), auto_shutdown: false };
    let plan = plan_command(true, &Some("me".into()), false, host);
    assert!(matches!(plan.job, Job::HostFile { ref path, ref password, auto_shutdown: false, .. }
        if path == "/tmp/f" && password.as_deref() == Some("pw")));
    let recv = Cmd::ReceiveFile { address: "h".into(), session_key: "x".into(), dest_dir: "/d".into(), password: None };
    assert_eq!(one_error(&plan_command(true, &None, false, recv).events).0, false);
    let stop = plan_command(true, &None, false, Cmd::StopFile);
    assert!(stop.cancel_active && stop.events.is_empty());
}

#[test]
fn failures_are_reported_where_the_job_belongs() {
    let e = failure_event::<String>(&Job::Connect, "boom".into());
    assert!(matches!(e, Some(AppEvent::ConnectFailed { error }) if error == "boom"));
    let e = failure_event::<String>(&Job::JoinChat { key: SessionKey::generate(), address: "a".into() }, "x".into());
    assert!(matches!(e, Some(AppEvent::ChatError { .. })));
    let e = failure_event::<String>(&Job::Idle, "x".into());
    assert!(e.is_none());
    assert_eq!(key_error_text_of(SessionKeyError::Decrypt), "decryption failed");
}
