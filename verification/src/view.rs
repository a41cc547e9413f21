//! What the windows show: colours, labels and the lines of their panels.
use vstd::prelude::*;
use crate::network::{LogEntry, LogLevel, PublishedMessage, ReceivedMessage};
use crate::text::{decimal, decimal_text, join_text, joined, views};

verus! {

/// A colour as red, green and blue intensities.
#[derive(Clone, Copy, Debug, PartialEq, Eq, Structural)]
pub struct Rgb {
    pub r: u8,
    pub g: u8,
    pub b: u8,
}

/// The colour of a live connection in the status line.
pub open spec fn live_colour() -> Rgb {
    Rgb { r: 116, g: 201, b: 132 }
}

/// The colour of a stopped connection in the status line.
pub open spec fn stopped_colour() -> Rgb {
    Rgb { r: 220, g: 94, b: 94 }
}

/// The colour a log line of each level is drawn in.
pub open spec fn level_colour_spec(level: LogLevel) -> Rgb {
    match level {
        LogLevel::Info => Rgb { r: 179, g: 200, b: 228 },
        LogLevel::Warning => Rgb { r: 235, g: 189, b: 82 },
        LogLevel::Error => Rgb { r: 235, g: 112, b: 112 },
    }
}

/// The colour a log line of the given level is drawn in.
pub fn level_colour(level: LogLevel) -> (r: Rgb)
    ensures
        r == level_colour_spec(level),
{
    match level {
        LogLevel::Info => Rgb { r: 179, g: 200, b: 228 },
        LogLevel::Warning => Rgb { r: 235, g: 189, b: 82 },
        LogLevel::Error => Rgb { r: 235, g: 112, b: 112 },
    }
}

/// How many log lines the activity panel shows.
pub const LOG_PANEL_LINES: usize = 12;

/// A log line as the panel writes it: `[time] message`.
pub open spec fn log_line_text(entry: LogEntry) -> Seq<char> {
    "["@ + entry.at@ + "] "@ + entry.message@
}

/// The note above the activity panel's lines: a placeholder when the log is
/// empty, a count when older lines are hidden, and none otherwise.
pub open spec fn log_panel_notice(count: nat) -> Option<Seq<char>> {
    if count == 0 {
        Some("No log entries."@)
    } else if count > LOG_PANEL_LINES {
        Some("Showing the latest 12 entries out of "@ + decimal(count) + "."@)
    } else {
        None
    }
}

/// One line of the activity panel.
pub struct LogLine {
    pub level: LogLevel,
    pub text: String,
}

/// What the activity panel shows.
pub struct LogPanel {
    /// The note above the lines, if any.
    pub notice: Option<String>,
    /// The newest log lines, newest first.
    pub lines: Vec<LogLine>,
}

/// The view of an optional string.
pub open spec fn opt_view(o: Option<String>) -> Option<Seq<char>> {
    match o {
        Some(s) => Some(s@),
        None => None,
    }
}

/// The activity panel for `logs`: the newest twelve lines, newest first,
/// under a note that says when the log is empty or when lines are hidden.
pub fn log_panel(logs: &[LogEntry]) -> (r: LogPanel)
    ensures
        opt_view(r.notice) == log_panel_notice(logs@.len()),
        r.lines@.len() == if logs@.len() > LOG_PANEL_LINES {
            LOG_PANEL_LINES as nat
        } else {
            logs@.len()
        },
        forall|i: int|
            0 <= i < r.lines@.len() ==> {
                let entry = logs@[logs@.len() - 1 - i];
                &&& (#[trigger] r.lines@[i]).level == entry.level
                &&& r.lines@[i].text@ == log_line_text(entry)
            },
{
    let n = logs.len();
    let notice = if n == 0 {
        Some(String::from_str("No log entries."))
    } else if n > LOG_PANEL_LINES {
        let mut m = String::from_str("Showing the latest 12 entries out of ");
        let count = decimal_text(n);
        m.append(count.as_str());
        m.append(".");
        Some(m)
    } else {
        None
    };
    let shown = if n > LOG_PANEL_LINES { LOG_PANEL_LINES } else { n };
    let mut lines: Vec<LogLine> = Vec::new();
    let mut i: usize = 0;
    while i < shown
        invariant
            n == logs@.len(),
            shown <= n,
            shown == if n > LOG_PANEL_LINES { LOG_PANEL_LINES } else { n },
            i <= shown,
            lines@.len() == i,
            forall|j: int|
                0 <= j < i ==> {
                    let entry = logs@[n - 1 - j];
                    &&& (#[trigger] lines@[j]).level == entry.level
                    &&& lines@[j].text@ == log_line_text(entry)
                },
        decreases shown - i,
    {
        let entry = &logs[n - 1 - i];
        let mut text = String::from_str("[");
        text.append(entry.at.as_str());
        text.append("] ");
        text.append(entry.message.as_str());
        lines.push(LogLine { level: entry.level, text });
        i = i + 1;
    }
    LogPanel { notice, lines }
}

/// How a message's topic is labelled: `<no topic>` when it has none.
pub open spec fn topic_label_spec(topic: Seq<char>) -> Seq<char> {
    if topic.len() == 0 {
        "<no topic>"@
    } else {
        topic
    }
}

/// The label of a message's topic.
pub fn topic_label(topic: &str) -> (r: String)
    ensures
        r@ == topic_label_spec(topic@),
{
    if topic.is_empty() {
        String::from_str("<no topic>")
    } else {
        String::from_str(topic)
    }
}

/// How a frame count is labelled: `1 frame`, `2 frames`, `0 frames`.
pub open spec fn frame_count_label_spec(count: nat) -> Seq<char> {
    decimal(count) + " frame"@ + if count == 1 {
        ""@
    } else {
        "s"@
    }
}

/// The label of a frame count.
pub fn frame_count_label(count: usize) -> (r: String)
    ensures
        r@ == frame_count_label_spec(count as nat),
{
    let mut r = decimal_text(count);
    r.append(" frame");
    let ghost before_suffix = r@;
    if count != 1 {
        r.append("s");
    }
    proof {
        reveal_strlit("");
        assert(count == 1 ==> r@ =~= before_suffix + ""@);
    }
    r
}

/// The line listing a received message's frames, shown only when it has more
/// than one.
pub open spec fn frames_line_spec(frames: Seq<Seq<char>>) -> Option<Seq<char>> {
    if frames.len() > 1 {
        Some("Frames: "@ + joined(frames, " | "@))
    } else {
        None
    }
}

/// The line listing a received message's frames, if it has more than one.
pub fn frames_line(frames: &[String]) -> (r: Option<String>)
    ensures
        opt_view(r) == frames_line_spec(views(frames@)),
{
    if frames.len() > 1 {
        let mut line = String::from_str("Frames: ");
        let all = join_text(frames, " | ");
        line.append(all.as_str());
        Some(line)
    } else {
        None
    }
}

/// One message as a panel shows it.
pub struct MessageCard {
    /// When it was sent or received.
    pub at: String,
    /// Its topic, or `<no topic>`.
    pub topic: String,
    /// Its frame count, as `N frame(s)`.
    pub frames: String,
    /// Its payload.
    pub payload: String,
    /// The list of its frames, shown when it has more than one.
    pub frames_line: Option<String>,
    /// The endpoint it went through.
    pub endpoint: String,
}

/// What a message panel shows.
pub struct MessagePanel {
    /// The number of messages, as the sent panel's header writes it.
    pub count: String,
    /// The placeholder shown when there are no messages.
    pub notice: Option<String>,
    /// The messages, newest first.
    pub cards: Vec<MessageCard>,
}

/// Whether `card` shows the sent message `m`.
pub open spec fn shows_sent(card: MessageCard, m: PublishedMessage) -> bool {
    &&& card.at@ == m.at@
    &&& card.topic@ == topic_label_spec(m.topic@)
    &&& card.frames@ == frame_count_label_spec(m.frame_count as nat)
    &&& card.payload@ == m.payload@
    &&& card.frames_line is None
    &&& card.endpoint@ == m.endpoint@
}

/// Whether `card` shows the received message `m`.
pub open spec fn shows_received(card: MessageCard, m: ReceivedMessage) -> bool {
    &&& card.at@ == m.at@
    &&& card.topic@ == topic_label_spec(m.topic@)
    &&& card.frames@ == frame_count_label_spec(m.frames@.len())
    &&& card.payload@ == m.payload@
    &&& opt_view(card.frames_line) == frames_line_spec(views(m.frames@))
    &&& card.endpoint@ == m.endpoint@
}

/// The sent-messages panel: the count, a placeholder when nothing was sent,
/// and every message, newest first.
pub fn sent_panel(messages: &[PublishedMessage]) -> (r: MessagePanel)
    ensures
        r.count@ == decimal(messages@.len()),
        opt_view(r.notice) == if messages@.len() == 0 {
            Some("Nothing published yet."@)
        } else {
            None
        },
        r.cards@.len() == messages@.len(),
        forall|i: int|
            0 <= i < r.cards@.len() ==> shows_sent(
                #[trigger] r.cards@[i],
                messages@[messages@.len() - 1 - i],
            ),
{
    let n = messages.len();
    let notice = if n == 0 {
        Some(String::from_str("Nothing published yet."))
    } else {
        None
    };
    let mut cards: Vec<MessageCard> = Vec::new();
    let mut i: usize = 0;
    while i < n
        invariant
            n == messages@.len(),
            i <= n,
            cards@.len() == i,
            forall|j: int|
                0 <= j < i ==> shows_sent(#[trigger] cards@[j], messages@[n - 1 - j]),
        decreases n - i,
    {
        let m = &messages[n - 1 - i];
        cards.push(
            MessageCard {
                at: String::from_str(m.at.as_str()),
                topic: topic_label(m.topic.as_str()),
                frames: frame_count_label(m.frame_count),
                payload: String::from_str(m.payload.as_str()),
                frames_line: None,
                endpoint: String::from_str(m.endpoint.as_str()),
            },
        );
        i = i + 1;
    }
    MessagePanel { count: decimal_text(n), notice, cards }
}

/// The received-messages panel: the count, a placeholder when nothing was
/// received, and every message, newest first.
pub fn received_panel(messages: &[ReceivedMessage]) -> (r: MessagePanel)
    ensures
        r.count@ == decimal(messages@.len()),
        opt_view(r.notice) == if messages@.len() == 0 {
            Some("Nothing received yet."@)
        } else {
            None
        },
        r.cards@.len() == messages@.len(),
        forall|i: int|
            0 <= i < r.cards@.len() ==> shows_received(
                #[trigger] r.cards@[i],
                messages@[messages@.len() - 1 - i],
            ),
{
    let n = messages.len();
    let notice = if n == 0 {
        Some(String::from_str("Nothing received yet."))
    } else {
        None
    };
    let mut cards: Vec<MessageCard> = Vec::new();
    let mut i: usize = 0;
    while i < n
        invariant
            n == messages@.len(),
            i <= n,
            cards@.len() == i,
            forall|j: int|
                0 <= j < i ==> shows_received(#[trigger] cards@[j], messages@[n - 1 - j]),
        decreases n - i,
    {
        let m = &messages[n - 1 - i];
        cards.push(
            MessageCard {
                at: String::from_str(m.at.as_str()),
                topic: topic_label(m.topic.as_str()),
                frames: frame_count_label(m.frames.len()),
                payload: String::from_str(m.payload.as_str()),
                frames_line: frames_line(m.frames.as_slice()),
                endpoint: String::from_str(m.endpoint.as_str()),
            },
        );
        i = i + 1;
    }
    MessagePanel { count: decimal_text(n), notice, cards }
}

} // verus!
