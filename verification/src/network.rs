//! The values that pass between the publisher and subscriber workers and the
//! windows that drive them, and how received frames are turned into text.
use vstd::prelude::*;
use vstd::utf8::{decode_utf8, valid_utf8};
use crate::sys::{debug_quoted, debug_str, decode_utf8_text, is_clock_text, local_clock_text};
use crate::history::newest;
use crate::text::{decimal, decimal_text, hex2, join_text, joined, push_hex2, views};

verus! {

/// Whether a worker's socket is live.
#[derive(Clone, Copy, Debug, PartialEq, Eq, Structural)]
pub enum ConnectionState {
    Running,
    Stopped,
}

/// The severity of an activity-log line.
#[derive(Clone, Copy, Debug, PartialEq, Eq, Structural)]
pub enum LogLevel {
    Info,
    Warning,
    Error,
}

/// One line of the activity log, stamped with the local time `HH:MM:SS`.
#[derive(Clone, Debug)]
pub struct LogEntry {
    pub at: String,
    pub level: LogLevel,
    pub message: String,
}

impl LogEntry {
    /// An informational line, stamped with the current local time.
    pub fn info(message: String) -> (r: LogEntry)
        ensures
            r.level == LogLevel::Info,
            r.message == message,
            is_clock_text(r.at@),
    {
        LogEntry { at: local_clock_text(), level: LogLevel::Info, message }
    }

    /// A warning line, stamped with the current local time.
    pub fn warning(message: String) -> (r: LogEntry)
        ensures
            r.level == LogLevel::Warning,
            r.message == message,
            is_clock_text(r.at@),
    {
        LogEntry { at: local_clock_text(), level: LogLevel::Warning, message }
    }

    /// An error line, stamped with the current local time.
    pub fn error(message: String) -> (r: LogEntry)
        ensures
            r.level == LogLevel::Error,
            r.message == message,
            is_clock_text(r.at@),
    {
        LogEntry { at: local_clock_text(), level: LogLevel::Error, message }
    }
}

/// Whether `after` is the log `before` with one more line of the given level
/// and message, stamped with a clock time, trimmed to its newest `max` lines.
pub open spec fn appended_log(
    before: Seq<LogEntry>,
    after: Seq<LogEntry>,
    level: LogLevel,
    message: Seq<char>,
    max: nat,
) -> bool {
    &&& after.len() > 0
    &&& after == newest(before.push(after.last()), max)
    &&& after.last().level == level
    &&& after.last().message@ == message
    &&& is_clock_text(after.last().at@)
}

/// A message that the publisher put on the wire.
#[derive(Clone, Debug)]
pub struct PublishedMessage {
    pub at: String,
    pub endpoint: String,
    pub topic: String,
    pub payload: String,
    pub frame_count: usize,
}

/// A message that the subscriber took off the wire, each frame rendered as text.
#[derive(Clone, Debug)]
pub struct ReceivedMessage {
    pub at: String,
    pub endpoint: String,
    pub topic: String,
    pub payload: String,
    pub frames: Vec<String>,
}

/// What the publisher window asks of its worker.
pub enum PublisherCommand {
    Publish { topic: String, payload: String },
    Shutdown,
}

/// What the publisher worker reports back.
pub enum PublisherEvent {
    State(ConnectionState),
    Log(LogEntry),
    Published(PublishedMessage),
}

/// What the subscriber window asks of its worker.
pub enum SubscriberCommand {
    UpdateFilter(String),
    Shutdown,
}

/// What the subscriber worker reports back.
pub enum SubscriberEvent {
    State(ConnectionState),
    Log(LogEntry),
    Message(ReceivedMessage),
}

/// The separator between the frames that follow the topic frame.
pub open spec fn frame_separator() -> Seq<char> {
    " | "@
}

/// The topic and payload read from a list of frames: no frame gives neither,
/// a single frame is the payload, and otherwise the first frame is the topic
/// and the rest, joined with `" | "`, is the payload.
pub open spec fn split_frames_spec(frames: Seq<Seq<char>>) -> (Seq<char>, Seq<char>) {
    if frames.len() == 0 {
        (Seq::empty(), Seq::empty())
    } else if frames.len() == 1 {
        (Seq::empty(), frames[0])
    } else {
        (frames[0], joined(frames.drop_first(), frame_separator()))
    }
}

/// Splits received frames into a topic and a payload.
pub fn split_frames(frames: &[String]) -> (r: (String, String))
    ensures
        (r.0@, r.1@) == split_frames_spec(views(frames@)),
{
    let n = frames.len();
    if n == 0 {
        (String::new(), String::new())
    } else if n == 1 {
        (String::new(), frames[0].clone())
    } else {
        let topic = frames[0].clone();
        let mut rest: Vec<String> = Vec::new();
        let mut i: usize = 1;
        while i < n
            invariant
                n == frames@.len(),
                1 <= i <= n,
                rest@ == frames@.subrange(1, i as int),
            decreases n - i,
        {
            rest.push(frames[i].clone());
            i = i + 1;
        }
        let payload = join_text(rest.as_slice(), " | ");
        assert(views(rest@) =~= views(frames@).drop_first());
        (topic, payload)
    }
}

/// The number of bytes of a binary frame that are shown in hexadecimal.
pub open spec fn preview_limit() -> nat {
    24
}

/// The hexadecimal digits of `bytes`, a space between neighbours.
pub open spec fn hex_preview(bytes: Seq<u8>) -> Seq<char> {
    joined(Seq::new(bytes.len(), |i: int| hex2(bytes[i])), " "@)
}

/// How a frame that is not UTF-8 is shown: its length and its first 24 bytes
/// in hexadecimal, with `" ..."` when bytes were left out.
pub open spec fn binary_frame_text(frame: Seq<u8>) -> Seq<char> {
    let shown = if frame.len() > preview_limit() {
        frame.take(preview_limit() as int)
    } else {
        frame
    };
    "<"@ + decimal(frame.len()) + " bytes: "@ + hex_preview(shown) + (if frame.len()
        > preview_limit() {
        " ..."@
    } else {
        ""@
    }) + ">"@
}

/// How a received frame is shown: its text when it is UTF-8, and a
/// hexadecimal preview otherwise.
pub open spec fn rendered_frame(frame: Seq<u8>) -> Seq<char> {
    if valid_utf8(frame) {
        decode_utf8(frame)
    } else {
        binary_frame_text(frame)
    }
}

fn push_hex_preview(out: &mut String, bytes: &[u8], count: usize)
    requires
        count <= bytes@.len(),
    ensures
        final(out)@ == old(out)@ + hex_preview(bytes@.take(count as int)),
{
    let ghost start = old(out)@;
    let ghost shown = bytes@.take(count as int);
    let ghost hs = Seq::new(shown.len(), |i: int| hex2(shown[i]));
    let mut i: usize = 0;
    while i < count
        invariant
            count <= bytes@.len(),
            shown == bytes@.take(count as int),
            hs == Seq::new(shown.len(), |i: int| hex2(shown[i])),
            i <= count,
            out@ == start + joined(hs.take(i as int), " "@),
        decreases count - i,
    {
        if i == 0 {
            assert(hs.take(1) =~= seq![hs[0]]);
        } else {
            assert(hs.take(i + 1).drop_last() =~= hs.take(i as int));
            out.append(" ");
        }
        push_hex2(out, bytes[i]);
        i = i + 1;
    }
    assert(hs.take(count as int) =~= hs);
}

/// A received frame as text: the frame itself when it is UTF-8, otherwise
/// `<N bytes: XX XX ...>` with at most 24 bytes shown.
pub fn render_frame(frame: &[u8]) -> (r: String)
    ensures
        r@ == rendered_frame(frame@),
{
    match decode_utf8_text(frame) {
        Some(text) => text,
        None => {
            let n = frame.len();
            let shown = if n > 24 { 24 } else { n };
            let mut out = String::new();
            out.append("<");
            let count = decimal_text(n);
            out.append(count.as_str());
            out.append(" bytes: ");
            push_hex_preview(&mut out, frame, shown);
            let ghost before_suffix = out@;
            if n > 24 {
                out.append(" ...");
            }
            proof {
                reveal_strlit("");
                assert(n <= 24 ==> out@ =~= before_suffix + ""@);
            }
            out.append(">");
            assert(shown < n ==> frame@.take(shown as int) == frame@.take(preview_limit() as int));
            assert(shown == n ==> frame@.take(shown as int) =~= frame@);
            out
        }
    }
}

/// How a subscription filter is named in log lines: the empty filter matches
/// every message, any other is shown quoted.
pub open spec fn filter_label(filter: Seq<char>) -> Seq<char> {
    if filter.len() == 0 {
        "<all messages>"@
    } else {
        debug_str(filter)
    }
}

/// The subscription filter as it is named in log lines.
pub fn display_filter(filter: &str) -> (r: String)
    ensures
        r@ == filter_label(filter@),
        filter@.len() > 0 ==> r@.len() >= 2 && r@[0] == '"' && r@.last() == '"',
        filter@.len() > 0 ==> r@ != "<all messages>"@,
{
    if filter.is_empty() {
        String::from_str("<all messages>")
    } else {
        let quoted = debug_quoted(filter);
        proof {
            reveal_strlit("<all messages>");
            assert("<all messages>"@[0] == '<');
        }
        quoted
    }
}

} // verus!
