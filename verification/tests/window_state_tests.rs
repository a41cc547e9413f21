use rust_zmq_chat::client_app::{ClientApp, CLIENT_MAX_LOGS, CLIENT_MAX_MESSAGES};
use rust_zmq_chat::network::{
    ConnectionState, LogEntry, LogLevel, PublishedMessage, PublisherEvent, ReceivedMessage,
    SubscriberEvent,
};
use rust_zmq_chat::server_app::{ServerApp, SERVER_MAX_LOGS, SERVER_MAX_MESSAGES};
use rust_zmq_chat::view::Rgb;

fn last_log(logs: &[LogEntry]) -> (LogLevel, String) {
    let e = logs.last().unwrap();
    (e.level, e.message.clone())
}

fn published(n: usize) -> PublishedMessage {
    PublishedMessage {
        at: "00:00:00".to_string(),
        endpoint: "tcp://e".to_string(),
        topic: format!("t{n}"),
        payload: format!("p{n}"),
        frame_count: 2,
    }
}

fn received(n: usize) -> ReceivedMessage {
    ReceivedMessage {
        at: "00:00:00".to_string(),
        endpoint: "tcp://e".to_string(),
        topic: format!("t{n}"),
        payload: format!("p{n}"),
        frames: vec![format!("t{n}"), format!("p{n}")],
    }
}

#[test]
fn server_starts_stopped_with_greeting() {
    let s = ServerApp::new();
    assert_eq!(s.endpoint, "tcp://127.0.0.1:5555");
    assert_eq!(s.topic, "demo");
    assert_eq!(s.payload, "hello from the ZeroMQ PUB server");
    assert_eq!(s.status, ConnectionState::Stopped);
    assert!(s.session.is_none());
    assert_eq!(s.logs.len(), 1);
    assert_eq!(
        last_log(&s.logs),
        (LogLevel::Info, "Ready. Bind the PUB socket, then start one or more client windows.".to_string())
    );
    assert!(s.sent_messages.is_empty());
    assert_eq!(s.status_text(), ("Stopped", Rgb { r: 220, g: 94, b: 94 }));
}

#[test]
fn server_bind_publish_disconnect() {
    let mut s = ServerApp::new();
    s.bind_finished(Err("Timed out while binding the PUB socket.".to_string()));
    assert_eq!(s.status, ConnectionState::Stopped);
    assert_eq!(last_log(&s.logs), (LogLevel::Error, "Timed out while binding the PUB socket.".to_string()));

    assert!(s.prepare_publish().is_none());
    assert_eq!(last_log(&s.logs), (LogLevel::Warning, "Bind the server before publishing.".to_string()));

    s.bind_finished(Ok("tcp://127.0.0.1:5555".to_string()));
    assert_eq!(s.status, ConnectionState::Running);
    assert_eq!(s.session.as_deref(), Some("tcp://127.0.0.1:5555"));
    assert_eq!(last_log(&s.logs), (LogLevel::Info, "PUB server is live on tcp://127.0.0.1:5555".to_string()));
    assert_eq!(s.status_text(), ("Bound", Rgb { r: 116, g: 201, b: 132 }));

    s.payload = "  \n ".to_string();
    assert!(s.prepare_publish().is_none());
    assert_eq!(last_log(&s.logs), (LogLevel::Warning, "Enter a payload before publishing.".to_string()));

    s.payload = "  hello \t".to_string();
    let before = s.logs.len();
    assert_eq!(s.prepare_publish(), Some(("demo".to_string(), "hello".to_string())));
    assert_eq!(s.logs.len(), before);

    s.publish_finished(Ok(()));
    assert_eq!(s.logs.len(), before);
    s.publish_finished(Err("The publisher worker is no longer available.".to_string()));
    assert_eq!(
        last_log(&s.logs),
        (LogLevel::Error, "The publisher worker is no longer available.".to_string())
    );

    assert!(s.disconnect());
    assert!(s.session.is_none());
    assert_eq!(s.status, ConnectionState::Stopped);
    assert_eq!(last_log(&s.logs), (LogLevel::Warning, "PUB server disconnected from tcp://127.0.0.1:5555".to_string()));
    let count = s.logs.len();
    assert!(!s.disconnect());
    assert_eq!(s.logs.len(), count);

    s.fill_ping();
    assert_eq!(s.topic, "demo");
    assert_eq!(s.payload, "{\"kind\":\"ping\",\"source\":\"server\"}");
}

#[test]
fn server_drain_events() {
    let mut s = ServerApp::new();
    s.bind_finished(Ok("tcp://e".to_string()));
    let stopped = s.drain_events(vec![
        PublisherEvent::State(ConnectionState::Running),
        PublisherEvent::Log(LogEntry::info("a".to_string())),
        PublisherEvent::Published(published(1)),
    ]);
    assert!(!stopped);
    assert!(s.session.is_some());
    assert_eq!(s.status, ConnectionState::Running);
    assert_eq!(last_log(&s.logs), (LogLevel::Info, "a".to_string()));
    assert_eq!(s.sent_messages.len(), 1);

    let stopped = s.drain_events(vec![
        PublisherEvent::Log(LogEntry::info("PUB socket for tcp://e stopped".to_string())),
        PublisherEvent::State(ConnectionState::Stopped),
    ]);
    assert!(stopped);
    assert!(s.session.is_none());
    assert_eq!(s.status, ConnectionState::Stopped);
}

#[test]
fn server_lists_stay_bounded_and_batches_agree() {
    let events = |from: usize, to: usize| -> Vec<PublisherEvent> {
        (from..to)
            .flat_map(|i| {
                vec![
                    PublisherEvent::Log(LogEntry::info(format!("line {i}"))),
                    PublisherEvent::Published(published(i)),
                ]
            })
            .collect()
    };
    let mut once = ServerApp::new();
    once.drain_events(events(0, 500));
    let mut twice = ServerApp::new();
    twice.drain_events(events(0, 250));
    twice.drain_events(events(250, 500));
    assert_eq!(once.logs.len(), SERVER_MAX_LOGS);
    assert_eq!(once.sent_messages.len(), SERVER_MAX_MESSAGES);
    let msgs = |a: &ServerApp| a.logs.iter().map(|e| e.message.clone()).collect::<Vec<_>>();
    assert_eq!(msgs(&once), msgs(&twice));
    assert_eq!(once.logs.last().unwrap().message, "line 499");
    assert_eq!(once.logs[0].message, "line 200");
    let topics = |a: &ServerApp| a.sent_messages.iter().map(|m| m.topic.clone()).collect::<Vec<_>>();
    assert_eq!(topics(&once), topics(&twice));
    assert_eq!(once.sent_messages[0].topic, "t300");
}

#[test]
fn client_starts_stopped_with_greeting() {
    let c = ClientApp::new();
    assert_eq!(c.endpoint, "tcp://127.0.0.1:5555");
    assert_eq!(c.filter, "");
    assert_eq!(c.status, ConnectionState::Stopped);
    assert!(c.session.is_none());
    assert_eq!(
        last_log(&c.logs),
        (LogLevel::Info, "Ready. Connect to a PUB endpoint and watch the incoming frames.".to_string())
    );
    assert!(c.received_messages.is_empty());
    assert_eq!(c.status_text(), ("Stopped", Rgb { r: 220, g: 94, b: 94 }));
}

#[test]
fn client_connect_filter_disconnect() {
    let mut c = ClientApp::new();
    assert!(c.prepare_apply_filter().is_none());
    assert_eq!(
        last_log(&c.logs),
        (LogLevel::Warning, "Connect the subscriber before applying a filter.".to_string())
    );
    c.connect_finished(Err("Failed to connect SUB socket to x: invalid".to_string()));
    assert_eq!(c.status, ConnectionState::Stopped);
    assert_eq!(last_log(&c.logs), (LogLevel::Error, "Failed to connect SUB socket to x: invalid".to_string()));

    c.connect_finished(Ok("ipc:///tmp/zmq_pubsub.ipc".to_string()));
    assert_eq!(c.status, ConnectionState::Running);
    assert_eq!(c.status_text(), ("Connected", Rgb { r: 116, g: 201, b: 132 }));
    assert_eq!(last_log(&c.logs), (LogLevel::Info, "SUB client connected to ipc:///tmp/zmq_pubsub.ipc".to_string()));

    c.filter = "news".to_string();
    assert_eq!(c.prepare_apply_filter(), Some("news".to_string()));
    c.apply_filter_finished(Err("The subscriber worker is no longer available.".to_string()));
    assert_eq!(
        last_log(&c.logs),
        (LogLevel::Error, "The subscriber worker is no longer available.".to_string())
    );

    assert!(c.disconnect());
    assert_eq!(
        last_log(&c.logs),
        (LogLevel::Warning, "SUB client disconnected from ipc:///tmp/zmq_pubsub.ipc".to_string())
    );
    assert!(!c.disconnect());
}

#[test]
fn client_drain_events_and_bounds() {
    let mut c = ClientApp::new();
    c.connect_finished(Ok("tcp://e".to_string()));
    let mut events = Vec::new();
    for i in 0..400 {
        events.push(SubscriberEvent::Message(received(i)));
        events.push(SubscriberEvent::Log(LogEntry::info(format!("l{i}"))));
    }
    events.push(SubscriberEvent::State(ConnectionState::Stopped));
    assert!(c.drain_events(events));
    assert!(c.session.is_none());
    assert_eq!(c.status, ConnectionState::Stopped);
    assert_eq!(c.logs.len(), CLIENT_MAX_LOGS);
    assert_eq!(c.received_messages.len(), CLIENT_MAX_MESSAGES);
    assert_eq!(c.received_messages[0].topic, "t100");
    assert_eq!(c.logs.last().unwrap().message, "l399");
}
