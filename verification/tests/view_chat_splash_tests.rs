use rust_zmq_chat::chat::{
    binder_message, bubble_colour, compose_message, ipc_socket_path, mesh_plan,
    peer_notice, peer_start_error, ping_message, received_text, same_text,
    BinderApp, ChatMessage, PeerNotice, Transport,
};
use rust_zmq_chat::launcher::LauncherApp;
use rust_zmq_chat::network::{LogEntry, LogLevel};
use rust_zmq_chat::splash::{splash_app_name, splash_endpoint, tester_signals, SplashSignal, SplashState};
use rust_zmq_chat::view::{frame_count_label, frames_line, level_colour, log_panel, topic_label, Rgb};

fn is_uuid_v4(s: &str) -> bool {
    let b = s.as_bytes();
    b.len() == 36
        && [8, 13, 18, 23].iter().all(|&i| b[i] == b'-')
        && b.iter().enumerate().all(|(i, c)| [8, 13, 18, 23].contains(&i) || c.is_ascii_hexdigit() && !c.is_ascii_uppercase())
        && b[14] == b'4'
        && matches!(b[19], b'8' | b'9' | b'a' | b'b')
}

fn entry(level: LogLevel, at: &str, message: &str) -> LogEntry {
    LogEntry { at: at.to_string(), level, message: message.to_string() }
}

#[test]
fn log_panel_shows_newest_first() {
    let empty = log_panel(&[]);
    assert_eq!(empty.notice.as_deref(), Some("No log entries."));
    assert!(empty.lines.is_empty());

    let few = vec![entry(LogLevel::Info, "10:00:00", "a"), entry(LogLevel::Error, "10:00:01", "b")];
    let panel = log_panel(&few);
    assert!(panel.notice.is_none());
    assert_eq!(panel.lines.len(), 2);
    assert_eq!(panel.lines[0].text, "[10:00:01] b");
    assert_eq!(panel.lines[0].level, LogLevel::Error);
    assert_eq!(panel.lines[1].text, "[10:00:00] a");

    let many: Vec<LogEntry> = (0..20).map(|i| entry(LogLevel::Warning, "00:00:00", &format!("m{i}"))).collect();
    let panel = log_panel(&many);
    assert_eq!(panel.notice.as_deref(), Some("Showing the latest 12 entries out of 20."));
    assert_eq!(panel.lines.len(), 12);
    assert_eq!(panel.lines[0].text, "[00:00:00] m19");
    assert_eq!(panel.lines[11].text, "[00:00:00] m8");
}

#[test]
fn labels_and_colours() {
    assert_eq!(topic_label(""), "<no topic>");
    assert_eq!(topic_label("demo"), "demo");
    assert_eq!(frame_count_label(0), "0 frames");
    assert_eq!(frame_count_label(1), "1 frame");
    assert_eq!(frame_count_label(2), "2 frames");
    assert_eq!(frames_line(&["a".to_string()]), None);
    assert_eq!(frames_line(&["a".to_string(), "b".to_string()]).as_deref(), Some("Frames: a | b"));
    assert_eq!(level_colour(LogLevel::Info), Rgb { r: 179, g: 200, b: 228 });
    assert_eq!(level_colour(LogLevel::Warning), Rgb { r: 235, g: 189, b: 82 });
    assert_eq!(level_colour(LogLevel::Error), Rgb { r: 235, g: 112, b: 112 });
}

#[test]
fn chat_messages() {
    let m = ChatMessage::new("Alice".to_string(), "hi".to_string());
    assert_eq!(m.sender, "Alice");
    assert_eq!(m.content, "hi");
    assert!(is_uuid_v4(&m.id), "id was {}", m.id);
    assert!(m.timestamp > 1_600_000_000);
    let other = ChatMessage::new("Alice".to_string(), "hi".to_string());
    assert_ne!(m.id, other.id);

    assert!(compose_message("Bob", "").is_none());
    let c = compose_message("Bob", "yo").unwrap();
    assert_eq!((c.sender.as_str(), c.content.as_str()), ("Bob", "yo"));
    let p = ping_message();
    assert_eq!((p.sender.as_str(), p.content.as_str()), ("System", "PING (Manual Test)"));
}

#[test]
fn mesh_connects_every_peer_to_the_others() {
    let ipc = mesh_plan(Transport::IPC);
    assert_eq!(ipc.len(), 3);
    assert_eq!(ipc[0].name, "Alice");
    assert_eq!(ipc[0].address, "ipc://alice.ipc");
    assert_eq!(ipc[0].subscriptions, vec!["ipc://bob.ipc".to_string(), "ipc://charlie.ipc".to_string()]);
    assert_eq!(ipc[1].name, "Bob");
    assert_eq!(ipc[1].subscriptions, vec!["ipc://alice.ipc".to_string(), "ipc://charlie.ipc".to_string()]);
    assert_eq!(ipc[2].name, "Charlie");
    assert_eq!(ipc[2].subscriptions, vec!["ipc://alice.ipc".to_string(), "ipc://bob.ipc".to_string()]);
    let tcp = mesh_plan(Transport::TCP);
    assert_eq!(tcp[0].address, "tcp://127.0.0.1:5555");
    assert_eq!(tcp[1].address, "tcp://127.0.0.1:5556");
    assert_eq!(tcp[2].address, "tcp://127.0.0.1:5557");
    for (i, plan) in tcp.iter().enumerate() {
        assert!(!plan.subscriptions.contains(&plan.address));
        for (j, other) in tcp.iter().enumerate() {
            if i != j {
                assert!(plan.subscriptions.contains(&other.address));
            }
        }
    }
    assert_eq!(peer_start_error("Alice", "ipc://alice.ipc", "busy"), "Alice (ipc://alice.ipc) failed: busy");
}

#[test]
fn bubble_colours() {
    assert_eq!(bubble_colour("Alice", "Alice"), Rgb { r: 40, g: 120, b: 40 });
    // "Bob" bytes sum to 275, which wraps to 19; 19 % 3 == 1.
    assert_eq!(bubble_colour("Bob", "Alice"), Rgb { r: 120, g: 60, b: 40 });
    // "Alice" bytes sum to 478, which wraps to 222; 222 % 3 == 0.
    assert_eq!(bubble_colour("Alice", "Bob"), Rgb { r: 40, g: 60, b: 120 });
    // "System" bytes sum to 645, which wraps to 133; 133 % 3 == 1.
    assert_eq!(bubble_colour("System", "Bob"), Rgb { r: 120, g: 60, b: 40 });
    // "ad" bytes sum to 197; 197 % 3 == 2.
    assert_eq!(bubble_colour("ad", "Bob"), Rgb { r: 100, g: 40, b: 100 });
    assert!(same_text("héllo", "héllo"));
    assert!(!same_text("abc", "abd"));
    assert!(!same_text("ab", "abc"));
}

#[test]
fn ipc_paths() {
    assert_eq!(ipc_socket_path("ipc://alice.ipc").as_deref(), Some("alice.ipc"));
    assert_eq!(ipc_socket_path("ipc:///tmp/x.ipc").as_deref(), Some("/tmp/x.ipc"));
    assert_eq!(ipc_socket_path("ipc://ipc://x").as_deref(), Some("x"));
    assert_eq!(ipc_socket_path("ipc://").as_deref(), Some(""));
    assert_eq!(ipc_socket_path("tcp://127.0.0.1:5555"), None);
    assert_eq!(ipc_socket_path("ipc:/"), None);
}

#[test]
fn peer_notices() {
    assert_eq!(peer_notice("a", PeerNotice::Binding), ("Publisher binding to a".to_string(), true));
    assert_eq!(peer_notice("a", PeerNotice::Connecting("b".to_string())), ("Subscriber connecting to b".to_string(), true));
    assert_eq!(peer_notice("a", PeerNotice::PollingStarted), ("[a] Subscriber polling thread started.".to_string(), true));
    assert_eq!(peer_notice("a", PeerNotice::SendFailed("e".to_string())), ("[a] PUB send error: e".to_string(), true));
    assert_eq!(peer_notice("a", PeerNotice::NonUtf8(vec![255, 1])), ("[a] Received non-UTF8 data: [255, 1]".to_string(), true));
    assert_eq!(peer_notice("a", PeerNotice::NonUtf8(vec![])), ("[a] Received non-UTF8 data: []".to_string(), true));
    assert_eq!(peer_notice("a", PeerNotice::ReceivedBytes(12)), ("[a] Received 12 bytes.".to_string(), true));
    assert_eq!(peer_notice("a", PeerNotice::Content("hi".to_string())), ("[a] Content: hi".to_string(), true));
    assert_eq!(peer_notice("a", PeerNotice::ReceiveFailed("e".to_string())), ("[a] SUB recv error: e".to_string(), true));
    assert_eq!(peer_notice("a", PeerNotice::PollFailed("e".to_string())), ("[a] ZMQ Poll error: e".to_string(), false));
}

#[test]
fn binder_decisions() {
    assert_eq!(received_text(b"plain"), "plain");
    assert_eq!(received_text(&[b'a', 0xff, b'b']), "a\u{fffd}b");
    let parsed = ChatMessage { id: "i".to_string(), sender: "Bob".to_string(), content: "c".to_string(), timestamp: 5 };
    let m = binder_message("raw".to_string(), Some(parsed));
    assert_eq!((m.id.as_str(), m.sender.as_str(), m.timestamp), ("i", "Bob", 5));
    let m = binder_message("raw text".to_string(), None);
    assert_eq!((m.sender.as_str(), m.content.as_str()), ("External", "raw text"));
    assert!(is_uuid_v4(&m.id));

    let mut b = BinderApp::new();
    assert_eq!(b.addr, "ipc:///tmp/zmqtest.ipc");
    assert!(!b.is_running && b.error.is_none());
    b.start_finished(Err("Address in use".to_string()));
    assert!(!b.is_running);
    assert_eq!(b.error.as_deref(), Some("Failed to bind: Address in use"));
    b.start_finished(Ok(()));
    assert!(b.is_running && b.error.is_none());
}

#[test]
fn splash_signals() {
    let mut s = SplashState::new();
    assert_eq!((s.progress, s.status.as_str(), s.done), (0, "Initializing...", false));
    assert!(s.apply(SplashSignal { progress: Some(250), status: None, done: None }));
    assert_eq!(s.progress, 100);
    assert!(s.apply(SplashSignal { progress: None, status: Some("x".to_string()), done: Some(false) }));
    assert_eq!((s.progress, s.status.as_str(), s.done), (100, "x", false));
    assert!(!s.apply(SplashSignal { progress: Some(3), status: None, done: Some(true) }));
    assert_eq!((s.progress, s.done), (3, true));

    let mut fresh = SplashState::new();
    let signals = tester_signals();
    assert_eq!(signals.len(), 6);
    let keeps: Vec<bool> = signals.into_iter().map(|sig| fresh.apply(sig)).collect();
    assert_eq!(keeps, vec![true, true, true, true, true, false]);
    assert_eq!((fresh.progress, fresh.status.as_str(), fresh.done), (100, "Starting application...", true));

    assert_eq!(splash_app_name(None), "Splash Demo");
    assert_eq!(splash_app_name(Some(None)), "Application");
    assert_eq!(splash_app_name(Some(Some("editor".to_string()))), "editor");
    assert_eq!(splash_endpoint("C:\\Temp\\fast_splash.ipc"), "ipc://C:/Temp/fast_splash.ipc");
    assert_eq!(splash_endpoint("/tmp/fast_splash.ipc"), "ipc:///tmp/fast_splash.ipc");
}

#[test]
fn launcher_lines() {
    let l = LauncherApp::new();
    let (tcp, ipc) = l.default_lines();
    assert_eq!(tcp, "TCP example: tcp://127.0.0.1:5555");
    assert!(ipc == "IPC example: ipc:///tmp/zmq_pubsub.ipc" || ipc == "IPC example: ipc://C:/git/ZA/rust_zmq_chat/zmq_pubsub.ipc");
}
