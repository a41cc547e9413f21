use rust_zmq_chat::chat::{mesh_plan, peer_notice, startup_errors, PeerNotice, Transport};
use rust_zmq_chat::client_app::ClientApp;
use rust_zmq_chat::network::{
    display_filter, LogEntry, LogLevel, PublishedMessage, PublisherEvent, ReceivedMessage,
    SubscriberEvent,
};
use rust_zmq_chat::server_app::ServerApp;
use rust_zmq_chat::splash::{strip_verbatim_prefix, SplashSignal, SplashState};
use rust_zmq_chat::worker::{
    PublisherSetupStep, PublisherWorker, SubscriberSetupStep, SubscriberWorker,
};
use rust_zmq_chat::text::byte_list;
use rust_zmq_chat::view::{received_panel, sent_panel};

#[test]
fn byte_lists_match_debug_output() {
    assert_eq!(byte_list(&[]), "[]");
    assert_eq!(byte_list(&[0]), "[0]");
    assert_eq!(byte_list(&[255, 1, 37]), "[255, 1, 37]");
    let all: Vec<u8> = (0..=255).collect();
    assert_eq!(byte_list(&all), format!("{:?}", all));
}

#[test]
fn non_empty_filters_are_quoted() {
    for f in ["a", "<all messages>", "\"", "x\ny"] {
        let label = display_filter(f);
        assert!(label.starts_with('"') && label.ends_with('"') && label.len() >= 2);
        assert_ne!(label, "<all messages>");
    }
}

#[test]
fn sent_panel_newest_first() {
    assert_eq!(sent_panel(&[]).notice.as_deref(), Some("Nothing published yet."));
    assert_eq!(sent_panel(&[]).count, "0");
    let msgs: Vec<PublishedMessage> = (0..3)
        .map(|i| PublishedMessage {
            at: format!("00:00:0{i}"),
            endpoint: "tcp://e".to_string(),
            topic: if i == 1 { String::new() } else { format!("t{i}") },
            payload: format!("p{i}"),
            frame_count: if i == 1 { 1 } else { 2 },
        })
        .collect();
    let panel = sent_panel(&msgs);
    assert!(panel.notice.is_none());
    assert_eq!(panel.count, "3");
    assert_eq!(panel.cards.len(), 3);
    assert_eq!(panel.cards[0].topic, "t2");
    assert_eq!(panel.cards[0].frames, "2 frames");
    assert_eq!(panel.cards[1].topic, "<no topic>");
    assert_eq!(panel.cards[1].frames, "1 frame");
    assert_eq!(panel.cards[2].at, "00:00:00");
    assert_eq!(panel.cards[2].payload, "p0");
    assert_eq!(panel.cards[2].endpoint, "tcp://e");
    assert!(panel.cards.iter().all(|c| c.frames_line.is_none()));
}

#[test]
fn received_panel_newest_first() {
    assert_eq!(received_panel(&[]).notice.as_deref(), Some("Nothing received yet."));
    let msgs = vec![
        ReceivedMessage {
            at: "01:00:00".to_string(),
            endpoint: "ipc://x".to_string(),
            topic: String::new(),
            payload: "solo".to_string(),
            frames: vec!["solo".to_string()],
        },
        ReceivedMessage {
            at: "01:00:01".to_string(),
            endpoint: "ipc://x".to_string(),
            topic: "t".to_string(),
            payload: "a | b".to_string(),
            frames: vec!["t".to_string(), "a".to_string(), "b".to_string()],
        },
    ];
    let panel = received_panel(&msgs);
    assert!(panel.notice.is_none());
    assert_eq!(panel.cards[0].frames, "3 frames");
    assert_eq!(panel.cards[0].frames_line.as_deref(), Some("Frames: t | a | b"));
    assert_eq!(panel.cards[1].topic, "<no topic>");
    assert_eq!(panel.cards[1].frames_line, None);
}

#[test]
fn startup_error_lines_in_peer_order() {
    let plans = mesh_plan(Transport::IPC);
    let outcomes = vec![Err("busy".to_string()), Ok(()), Err("gone".to_string())];
    assert_eq!(
        startup_errors(&plans, &outcomes),
        vec![
            "Alice (ipc://alice.ipc) failed: busy".to_string(),
            "Charlie (ipc://charlie.ipc) failed: gone".to_string()
        ]
    );
    assert!(startup_errors(&plans, &[Ok(()), Ok(()), Ok(())]).is_empty());
}

#[test]
fn clearing_lists() {
    let mut s = ServerApp::new();
    s.clear_logs();
    assert!(s.logs.is_empty());
    let mut c = ClientApp::new();
    c.drain_events(vec![SubscriberEvent::Log(LogEntry::info("x".to_string()))]);
    c.clear_received_messages();
    assert!(c.received_messages.is_empty());
    assert_eq!(c.logs.len(), 2);
    c.clear_logs();
    assert!(c.logs.is_empty());
}

#[test]
fn listener_stops_at_first_done_signal() {
    let signals = vec![
        SplashSignal { progress: Some(40), status: Some("a".to_string()), done: None },
        SplashSignal { progress: Some(70), status: None, done: Some(true) },
        SplashSignal { progress: Some(5), status: Some("late".to_string()), done: Some(false) },
    ];
    let mut state = SplashState::new();
    let mut heard = 0;
    for signal in signals {
        heard += 1;
        if !state.apply(signal) {
            break;
        }
    }
    assert_eq!(heard, 2);
    assert_eq!((state.progress, state.status.as_str(), state.done), (70, "a", true));
}

#[test]
fn setup_failures_report_one_error_and_no_state() {
    let mut p = PublisherWorker::new("tcp://x:1".to_string());
    let (answer, events) = p.setup_failure_report(PublisherSetupStep::Bind, "in use");
    assert_eq!(answer, Err("Failed to bind PUB socket to tcp://x:1: in use".to_string()));
    assert_eq!(events.len(), 1);
    match &events[0] {
        PublisherEvent::Log(e) => {
            assert_eq!(e.level, LogLevel::Error);
            assert_eq!(e.message, "Failed to bind PUB socket to tcp://x:1: in use");
        }
        _ => panic!("expected an error line"),
    }
    let mut s = SubscriberWorker::new("tcp://x:1".to_string(), "f".to_string());
    let (answer, events) = s.setup_failure_report(SubscriberSetupStep::Subscribe, "bad");
    assert_eq!(answer, Err("Failed to subscribe with filter \"f\": bad".to_string()));
    assert_eq!(events.len(), 1);
    match &events[0] {
        SubscriberEvent::Log(e) => {
            assert_eq!(e.level, LogLevel::Error);
            assert_eq!(e.message, "Failed to subscribe with filter \"f\": bad");
        }
        _ => panic!("expected an error line"),
    }
}

#[test]
fn verbatim_prefix_is_stripped() {
    assert_eq!(strip_verbatim_prefix("\\\\?\\C:\\apps\\tool.exe"), "C:\\apps\\tool.exe");
    assert_eq!(strip_verbatim_prefix("C:\\apps\\tool.exe"), "C:\\apps\\tool.exe");
    assert_eq!(strip_verbatim_prefix("\\\\?"), "\\\\?");
    assert_eq!(strip_verbatim_prefix(""), "");
}

#[test]
fn binder_listens_on_its_address() {
    assert_eq!(
        peer_notice("ipc:///tmp/zmqtest.ipc", PeerNotice::ListeningOn("ipc:///tmp/zmqtest.ipc".to_string())),
        ("Subscriber binding to ipc:///tmp/zmqtest.ipc".to_string(), true)
    );
}
