use secure_passage::events::{AppEvent, TransferKind};
use secure_passage::protocol::{file_meta, password_challenge};
use secure_passage::session::{
    chat_session_step, host_completion, host_first_step, host_on_challenge, receive_completion,
    ChatSessionEvent, HostStep,
};

fn is_info(ev: &AppEvent, text: &str) -> bool {
    matches!(ev, AppEvent::Log { level, message } if level == "INFO" && message == text)
}

#[test]
fn chat_messages_are_shown_and_the_session_goes_on() {
    let step = chat_session_step(ChatSessionEvent::Sent {
        sender_id: "me".into(),
        content: "hi".into(),
        timestamp: 1.5f64.to_bits(),
        message_id: "m1".into(),
    });
    assert!(!step.end);
    assert_eq!(step.events.len(), 1);
    match &step.events[0] {
        AppEvent::ChatMessage { sender_id, content, timestamp, message_id } => {
            assert_eq!(sender_id, "me");
            assert_eq!(content, "hi");
            assert_eq!(f64::from_bits(*timestamp), 1.5);
            assert_eq!(message_id, "m1");
        }
        other => panic!("unexpected event {other:?}"),
    }

    let step = chat_session_step(ChatSessionEvent::Received {
        sender_id: "peer".into(),
        content: "hello".into(),
        timestamp: 7,
        message_id: "m2".into(),
    });
    assert!(!step.end);
    assert!(matches!(&step.events[..], [AppEvent::ChatMessage { sender_id, content, .. }]
        if sender_id == "peer" && content == "hello"));
}

#[test]
fn chat_session_ends_on_cancel_and_closed_outbox() {
    let step = chat_session_step(ChatSessionEvent::Cancelled);
    assert!(step.end);
    assert!(matches!(&step.events[..], [AppEvent::ChatPeerLeft]));

    let step = chat_session_step(ChatSessionEvent::OutboxClosed);
    assert!(step.end);
    assert!(step.events.is_empty());
}

#[test]
fn chat_session_ends_on_stream_errors() {
    let step = chat_session_step(ChatSessionEvent::SendFailed { error: "broken pipe".into() });
    assert!(step.end);
    assert!(matches!(&step.events[..], [AppEvent::ChatError { error }] if error == "broken pipe"));

    let step = chat_session_step(ChatSessionEvent::ReceiveFailed { error: "eof".into() });
    assert!(step.end);
    assert!(matches!(&step.events[..], [AppEvent::ChatError { error }, AppEvent::ChatPeerLeft]
        if error == "chat stream ended: eof"));
}

#[test]
fn host_waits_for_a_challenge_only_when_protected() {
    let open = file_meta("a.txt", b"data", None);
    assert!(matches!(host_first_step(&open), HostStep::SendFile));
    let protected = file_meta("a.txt", b"data", Some("pw"));
    assert!(matches!(host_first_step(&protected), HostStep::ReadChallenge));
}

#[test]
fn host_sends_only_after_the_right_challenge() {
    let protected = file_meta("a.txt", b"data", Some("pw"));
    let good = password_challenge("pw");
    assert!(matches!(host_on_challenge(&protected, &good), HostStep::SendFile));

    let bad = password_challenge("wrong");
    match host_on_challenge(&protected, &bad) {
        HostStep::Reject { events } => {
            assert!(matches!(&events[..], [AppEvent::TransferError { error }]
                if error == "Password mismatch"));
        }
        _ => panic!("a wrong challenge must be rejected"),
    }

    // The challenge is the hash itself, not the password.
    match host_on_challenge(&protected, b"pw") {
        HostStep::Reject { .. } => {}
        _ => panic!("the raw password is no valid challenge"),
    }

    let open = file_meta("a.txt", b"data", None);
    assert!(matches!(host_on_challenge(&open, b"anything"), HostStep::SendFile));
}

#[test]
fn host_completion_reports_and_shuts_down_on_request() {
    let c = host_completion("a.txt".into(), "/tmp/a.txt".into(), true);
    assert!(c.shutdown);
    assert_eq!(c.events.len(), 3);
    assert!(matches!(&c.events[0], AppEvent::TransferComplete { kind: TransferKind::Send, file_name, path }
        if file_name == "a.txt" && path == "/tmp/a.txt"));
    assert!(is_info(&c.events[1], "File send complete"));
    assert!(is_info(&c.events[2], "Auto-shutdown after transfer"));

    let c = host_completion("a.txt".into(), "/tmp/a.txt".into(), false);
    assert!(!c.shutdown);
    assert_eq!(c.events.len(), 2);
    assert!(is_info(&c.events[1], "File send complete"));
}

#[test]
fn receive_completion_names_the_saved_path() {
    let events = receive_completion("a.txt".into(), "/home/u/a.txt".into());
    assert_eq!(events.len(), 2);
    assert!(matches!(&events[0], AppEvent::TransferComplete { kind: TransferKind::Receive, file_name, path }
        if file_name == "a.txt" && path == "/home/u/a.txt"));
    assert!(is_info(&events[1], "File saved to /home/u/a.txt"));
}
