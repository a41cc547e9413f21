use rust_zmq_chat::history::trim_vec;
use rust_zmq_chat::network::{
    display_filter, render_frame, split_frames, ConnectionState, LogEntry, LogLevel,
};
use rust_zmq_chat::text::{decimal_text, join_text, trim_text};
use rust_zmq_chat::{default_ipc_endpoint, default_tcp_endpoint, ipc_endpoint_for_separator};

fn is_clock(s: &str) -> bool {
    let b = s.as_bytes();
    b.len() == 8
        && b[2] == b':'
        && b[5] == b':'
        && b.iter().enumerate().all(|(i, c)| i == 2 || i == 5 || c.is_ascii_digit())
}

#[test]
fn default_endpoints() {
    assert_eq!(default_tcp_endpoint(), "tcp://127.0.0.1:5555");
    if std::path::MAIN_SEPARATOR == '\\' {
        assert_eq!(default_ipc_endpoint(), "ipc://C:/git/ZA/rust_zmq_chat/zmq_pubsub.ipc");
    } else {
        assert_eq!(default_ipc_endpoint(), "ipc:///tmp/zmq_pubsub.ipc");
    }
    assert_eq!(ipc_endpoint_for_separator('\\'), "ipc://C:/git/ZA/rust_zmq_chat/zmq_pubsub.ipc");
    assert_eq!(ipc_endpoint_for_separator('/'), "ipc:///tmp/zmq_pubsub.ipc");
}

#[test]
fn log_entries_carry_level_message_and_clock_time() {
    let i = LogEntry::info("hello".to_string());
    assert_eq!(i.level, LogLevel::Info);
    assert_eq!(i.message, "hello");
    assert!(is_clock(&i.at), "clock text was {:?}", i.at);
    let w = LogEntry::warning("careful".to_string());
    assert_eq!(w.level, LogLevel::Warning);
    assert_eq!(w.message, "careful");
    assert!(is_clock(&w.at));
    let e = LogEntry::error("broken".to_string());
    assert_eq!(e.level, LogLevel::Error);
    assert_eq!(e.message, "broken");
    assert!(is_clock(&e.at));
    assert_ne!(ConnectionState::Running, ConnectionState::Stopped);
}

fn strings(items: &[&str]) -> Vec<String> {
    items.iter().map(|s| s.to_string()).collect()
}

#[test]
fn split_frames_cases() {
    assert_eq!(split_frames(&[]), (String::new(), String::new()));
    assert_eq!(split_frames(&strings(&["only"])), (String::new(), "only".to_string()));
    assert_eq!(split_frames(&strings(&["demo", "hi"])), ("demo".to_string(), "hi".to_string()));
    assert_eq!(
        split_frames(&strings(&["t", "a", "b", "c"])),
        ("t".to_string(), "a | b | c".to_string())
    );
}

#[test]
fn render_frame_text_and_binary() {
    assert_eq!(render_frame(b"hello"), "hello");
    assert_eq!(render_frame("héllo".as_bytes()), "héllo");
    assert_eq!(render_frame(&[]), "");
    assert_eq!(render_frame(&[0xff, 0x00, 0x1a]), "<3 bytes: FF 00 1A>");
    let long: Vec<u8> = (0..30u8).map(|i| 0xe0 | (i & 0x0f)).collect();
    let shown: Vec<String> = long.iter().take(24).map(|b| format!("{b:02X}")).collect();
    assert_eq!(render_frame(&long), format!("<30 bytes: {} ...>", shown.join(" ")));
    let exact: Vec<u8> = vec![0xc3; 24];
    let shown: Vec<String> = exact.iter().map(|b| format!("{b:02X}")).collect();
    assert_eq!(render_frame(&exact), format!("<24 bytes: {}>", shown.join(" ")));
}

#[test]
fn display_filter_cases() {
    assert_eq!(display_filter(""), "<all messages>");
    assert_eq!(display_filter("demo"), "\"demo\"");
    assert_eq!(display_filter("a\"b"), "\"a\\\"b\"");
}

#[test]
fn trim_vec_keeps_newest() {
    let mut v = vec![1, 2, 3, 4, 5];
    trim_vec(&mut v, 3);
    assert_eq!(v, vec![3, 4, 5]);
    trim_vec(&mut v, 3);
    assert_eq!(v, vec![3, 4, 5]);
    trim_vec(&mut v, 10);
    assert_eq!(v, vec![3, 4, 5]);
    trim_vec(&mut v, 0);
    assert!(v.is_empty());
}

#[test]
fn trim_vec_in_batches_matches_once() {
    let mut a: Vec<u32> = (0..250).collect();
    trim_vec(&mut a, 200);
    a.extend(250..300);
    trim_vec(&mut a, 200);
    let mut b: Vec<u32> = (0..300).collect();
    trim_vec(&mut b, 200);
    assert_eq!(a, b);
    assert_eq!(b.len(), 200);
    assert_eq!(b[0], 100);
}

#[test]
fn text_helpers() {
    assert_eq!(decimal_text(0), "0");
    assert_eq!(decimal_text(7), "7");
    assert_eq!(decimal_text(1234567), "1234567");
    assert_eq!(decimal_text(usize::MAX), usize::MAX.to_string());
    assert_eq!(join_text(&strings(&["a", "b"]), ", "), "a, b");
    assert_eq!(join_text(&[], ", "), "");
    assert_eq!(trim_text("  hi there \n"), "hi there");
    assert_eq!(trim_text("\u{3000}x\u{2028}"), "x");
    assert_eq!(trim_text(" \t "), "");
    assert_eq!(trim_text("\u{200b}x"), "\u{200b}x");
}

