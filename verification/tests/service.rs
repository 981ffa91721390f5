use secure_passage::events::AppEvent;
use secure_passage::protocol::{chat_handshake, ChatHandshake, ProtocolError};
use secure_passage::service::{connect_progress, dialled_event, ConnectStage, ServiceState};
use secure_passage::session::{host_ready_log, hosted_file_name, hosting_event};
use secure_passage::worker::{plan_channel_closed, plan_command, Job, NymCommand};

type State = ServiceState<&'static str, u8, u16, u32>;

fn is_info(ev: &AppEvent, text: &str) -> bool {
    matches!(ev, AppEvent::Log { level, message } if level == "INFO" && message == text)
}

fn is_progress(ev: &AppEvent, pct: u8, text: &str) -> bool {
    matches!(ev, AppEvent::ConnectProgress { percent, message } if *percent == pct && message == text)
}

fn idle(s: &State) -> bool {
    s.client.is_none()
        && s.listener.is_none()
        && s.address.is_none()
        && s.chat_out.is_none()
        && s.active_cancel.is_none()
}

#[test]
fn connect_reports_each_stage_then_the_address() {
    assert!(is_progress(&connect_progress(ConnectStage::Preparing), 10, "Preparing persistent identity…"));
    assert!(is_progress(&connect_progress(ConnectStage::Building), 30, "Building mixnet client…"));
    assert!(is_progress(
        &connect_progress(ConnectStage::Joining),
        60,
        "Connecting to gateway (this may take a minute)…"
    ));

    let mut s = State::new();
    assert!(idle(&s));
    s.listener = Some(1);
    let events = s.connected("client", "abc.def@gw".to_string());
    assert_eq!(events.len(), 3);
    assert!(is_info(&events[0], "Connected. Nym address: abc.def@gw"));
    assert!(is_progress(&events[1], 100, "Connected"));
    assert!(matches!(&events[2], AppEvent::Connected { address } if address == "abc.def@gw"));
    assert_eq!(s.client, Some("client"));
    assert_eq!(s.address.as_deref(), Some("abc.def@gw"));
    assert_eq!(s.listener, None);
}

#[test]
fn disconnect_hands_back_the_handles_and_ends_with_disconnected() {
    let mut s = State::new();
    s.connected("client", "addr".to_string());
    s.listener = Some(7);
    s.chat_out = Some(9);
    s.active_cancel = Some(11);
    let d = s.disconnect();
    assert_eq!(d.client, Some("client"));
    assert_eq!(d.cancel, Some(11));
    assert_eq!(d.events.len(), 2);
    assert!(is_info(&d.events[0], "Disconnecting from Nym mixnet…"));
    assert!(matches!(d.events[1], AppEvent::Disconnected));
    assert!(idle(&s));

    let d = s.disconnect();
    assert!(d.client.is_none());
    assert!(matches!(&d.events[..], [AppEvent::Disconnected]));
    assert!(idle(&s));
}

#[test]
fn cancel_active_closes_the_session_only() {
    let mut s = State::new();
    s.connected("client", "addr".to_string());
    s.chat_out = Some(3);
    s.active_cancel = Some(4);
    assert_eq!(s.cancel_active(), Some(4));
    assert!(s.chat_out.is_none() && s.active_cancel.is_none());
    assert_eq!(s.client, Some("client"));
    assert_eq!(s.cancel_active(), None);
}

#[test]
fn chat_opens_only_on_the_right_handshake() {
    let mut s = State::new();
    let bad = ChatHandshake { magic: "SPCHAT02".into(), sender_id: "peer".into(), role: "peer".into() };
    assert_eq!(s.open_chat(bad, 1, 2).unwrap_err(), ProtocolError::InvalidHandshakeMagic);
    assert!(idle(&s));

    let events = s.open_chat(chat_handshake("peer-id", "peer"), 1, 2).unwrap();
    assert_eq!(events.len(), 2);
    assert!(is_info(&events[0], "Chat handshake ok with peer-id"));
    assert!(matches!(&events[1], AppEvent::ChatJoined { peer } if peer == "peer-id"));
    assert_eq!(s.chat_out, Some(1));
    assert_eq!(s.active_cancel, Some(2));

    assert!(matches!(dialled_event("x@y".into()), AppEvent::ChatJoined { peer } if peer == "x@y"));
}

#[test]
fn commands_then_closed_channel_end_disconnected() {
    let mut s = State::new();
    let mut events = Vec::new();
    for cmd in [
        NymCommand::<String>::SendChat { content: "hi".into() },
        NymCommand::HostChat { session_key: "A".repeat(43) },
    ] {
        let plan = plan_command(s.client.is_some(), &s.address, s.chat_out.is_some(), cmd);
        assert!(matches!(plan.job, Job::Idle));
        events.extend(plan.events);
    }
    let closing = plan_channel_closed::<String>();
    assert!(matches!(closing.job, Job::Disconnect));
    events.extend(s.disconnect().events);
    assert_eq!(events.len(), 3);
    assert!(matches!(&events[0], AppEvent::ChatError { error } if error == "No active chat session"));
    assert!(matches!(&events[1], AppEvent::ChatError { error } if error == "Not connected"));
    assert!(matches!(events[2], AppEvent::Disconnected));
    assert!(idle(&s));
}

#[test]
fn hosted_file_is_announced_by_name() {
    assert_eq!(hosted_file_name(Some("report.pdf")), "report.pdf");
    assert_eq!(hosted_file_name(None), "file");
    let ev = hosting_event("addr".into(), "key".into(), "report.pdf".into());
    assert!(matches!(&ev, AppEvent::FileHosting { address, session_key, file_name }
        if address == "addr" && session_key == "key" && file_name == "report.pdf"));
    assert!(is_info(&host_ready_log("report.pdf", 262161), "File host ready: report.pdf (262161 bytes)"));
    assert!(is_info(&host_ready_log("e", 0), "File host ready: e (0 bytes)"));
}
