//! The state of the publisher window and how each button and each worker
//! report changes it. The window owns the worker's handle; this state records
//! the endpoint of the live session, if any.
use vstd::prelude::*;
use crate::default_tcp_endpoint;
use crate::history::{lemma_newest_batches, newest, trim_vec};
use crate::network::{appended_log, ConnectionState, LogEntry, LogLevel, PublishedMessage, PublisherEvent};
use crate::text::{trim_text, trimmed};
use crate::view::{live_colour, stopped_colour, Rgb};

verus! {

/// The most activity-log lines the publisher window keeps.
pub const SERVER_MAX_LOGS: usize = 300;

/// The most sent messages the publisher window keeps.
pub const SERVER_MAX_MESSAGES: usize = 200;

/// The log lines among `events`, in order.
pub open spec fn publisher_logs(events: Seq<PublisherEvent>) -> Seq<LogEntry>
    decreases events.len(),
{
    if events.len() == 0 {
        Seq::empty()
    } else {
        publisher_logs(events.drop_last()) + match events.last() {
            PublisherEvent::Log(entry) => seq![entry],
            _ => Seq::empty(),
        }
    }
}

/// The published messages among `events`, in order.
pub open spec fn published_messages(events: Seq<PublisherEvent>) -> Seq<PublishedMessage>
    decreases events.len(),
{
    if events.len() == 0 {
        Seq::empty()
    } else {
        published_messages(events.drop_last()) + match events.last() {
            PublisherEvent::Published(m) => seq![m],
            _ => Seq::empty(),
        }
    }
}

/// The connection state after `events`: the last state they report, or
/// `start` when they report none.
pub open spec fn publisher_state_after(events: Seq<PublisherEvent>, start: ConnectionState) -> ConnectionState
    decreases events.len(),
{
    if events.len() == 0 {
        start
    } else {
        match events.last() {
            PublisherEvent::State(s) => s,
            _ => publisher_state_after(events.drop_last(), start),
        }
    }
}

/// Whether any of `events` reports that the worker stopped.
pub open spec fn publisher_reports_stop(events: Seq<PublisherEvent>) -> bool
    decreases events.len(),
{
    if events.len() == 0 {
        false
    } else {
        publisher_reports_stop(events.drop_last()) || events.last() == PublisherEvent::State(
            ConnectionState::Stopped,
        )
    }
}

/// The JSON payload that the "Fill Ping" button writes.
pub open spec fn ping_payload() -> Seq<char> {
    "{\"kind\":\"ping\",\"source\":\"server\"}"@
}

/// The publisher window's state.
pub struct ServerApp {
    /// The endpoint typed in the bind field.
    pub endpoint: String,
    /// The topic typed in the topic field; empty sends a single frame.
    pub topic: String,
    /// The payload typed in the payload field.
    pub payload: String,
    /// Whether the publisher is live, as last reported.
    pub status: ConnectionState,
    /// The endpoint of the live publisher session, if there is one.
    pub session: Option<String>,
    /// The activity log, oldest first.
    pub logs: Vec<LogEntry>,
    /// The messages sent, oldest first.
    pub sent_messages: Vec<PublishedMessage>,
}

impl ServerApp {
    /// The bounds the window keeps its lists within.
    pub open spec fn wf(&self) -> bool {
        &&& self.logs@.len() <= SERVER_MAX_LOGS
        &&& self.sent_messages@.len() <= SERVER_MAX_MESSAGES
    }

    /// A stopped window on the default TCP endpoint, with the demo topic and
    /// payload and a greeting in the log.
    pub fn new() -> (r: ServerApp)
        ensures
            r.wf(),
            r.endpoint@ == "tcp://127.0.0.1:5555"@,
            r.topic@ == "demo"@,
            r.payload@ == "hello from the ZeroMQ PUB server"@,
            r.status == ConnectionState::Stopped,
            r.session is None,
            r.logs@.len() == 1,
            r.logs@[0].level == LogLevel::Info,
            r.logs@[0].message@ == "Ready. Bind the PUB socket, then start one or more client windows."@,
            r.sent_messages@.len() == 0,
    {
        let greeting = LogEntry::info(
            String::from_str("Ready. Bind the PUB socket, then start one or more client windows."),
        );
        ServerApp {
            endpoint: default_tcp_endpoint(),
            topic: String::from_str("demo"),
            payload: String::from_str("hello from the ZeroMQ PUB server"),
            status: ConnectionState::Stopped,
            session: None,
            logs: vec![greeting],
            sent_messages: Vec::new(),
        }
    }

    fn log(&mut self, entry: LogEntry)
        ensures
            final(self).logs@ == newest(old(self).logs@.push(entry), SERVER_MAX_LOGS as nat),
            final(self).logs@.len() > 0,
            final(self).logs@.last() == entry,
            final(self).endpoint == old(self).endpoint,
            final(self).topic == old(self).topic,
            final(self).payload == old(self).payload,
            final(self).status == old(self).status,
            final(self).session == old(self).session,
            final(self).sent_messages == old(self).sent_messages,
    {
        self.logs.push(entry);
        trim_vec(&mut self.logs, SERVER_MAX_LOGS);
    }

    /// Ends the live session, if any. Returns whether there was one, so that
    /// the window shuts its worker down; a warning naming the endpoint is then
    /// logged. The window is stopped either way.
    pub fn disconnect(&mut self) -> (had_session: bool)
        requires
            old(self).wf(),
        ensures
            final(self).wf(),
            had_session == old(self).session is Some,
            final(self).session is None,
            final(self).status == ConnectionState::Stopped,
            match old(self).session {
                Some(ep) => appended_log(
                    old(self).logs@,
                    final(self).logs@,
                    LogLevel::Warning,
                    "PUB server disconnected from "@ + ep@,
                    SERVER_MAX_LOGS as nat,
                ),
                None => final(self).logs == old(self).logs,
            },
            final(self).endpoint == old(self).endpoint,
            final(self).topic == old(self).topic,
            final(self).payload == old(self).payload,
            final(self).sent_messages == old(self).sent_messages,
    {
        let had = self.session.is_some();
        match self.session.take() {
            Some(ep) => {
                let mut m = String::from_str("PUB server disconnected from ");
                m.append(ep.as_str());
                self.log(LogEntry::warning(m));
            },
            None => {},
        }
        self.status = ConnectionState::Stopped;
        had
    }

    /// Records the outcome of binding: on success the window runs, keeps the
    /// session's endpoint and logs where it is live; on failure it is stopped
    /// and logs the error.
    pub fn bind_finished(&mut self, result: Result<String, String>)
        requires
            old(self).wf(),
        ensures
            final(self).wf(),
            match result {
                Ok(ep) => {
                    &&& final(self).status == ConnectionState::Running
                    &&& final(self).session == Some(ep)
                    &&& appended_log(
                        old(self).logs@,
                        final(self).logs@,
                        LogLevel::Info,
                        "PUB server is live on "@ + ep@,
                        SERVER_MAX_LOGS as nat,
                    )
                },
                Err(e) => {
                    &&& final(self).status == ConnectionState::Stopped
                    &&& final(self).session == old(self).session
                    &&& appended_log(
                        old(self).logs@,
                        final(self).logs@,
                        LogLevel::Error,
                        e@,
                        SERVER_MAX_LOGS as nat,
                    )
                },
            },
            final(self).endpoint == old(self).endpoint,
            final(self).topic == old(self).topic,
            final(self).payload == old(self).payload,
            final(self).sent_messages == old(self).sent_messages,
    {
        match result {
            Ok(ep) => {
                self.status = ConnectionState::Running;
                let mut m = String::from_str("PUB server is live on ");
                m.append(ep.as_str());
                self.log(LogEntry::info(m));
                self.session = Some(ep);
            },
            Err(e) => {
                self.status = ConnectionState::Stopped;
                self.log(LogEntry::error(e));
            },
        }
    }

    /// Decides whether the typed message can be published. The payload is
    /// trimmed of surrounding white space; an empty payload or a missing
    /// session is refused with a warning, otherwise the topic and the trimmed
    /// payload are returned for the worker.
    pub fn prepare_publish(&mut self) -> (r: Option<(String, String)>)
        requires
            old(self).wf(),
        ensures
            final(self).wf(),
            final(self).endpoint == old(self).endpoint,
            final(self).topic == old(self).topic,
            final(self).payload == old(self).payload,
            final(self).status == old(self).status,
            final(self).session == old(self).session,
            final(self).sent_messages == old(self).sent_messages,
            if trimmed(old(self).payload@).len() == 0 {
                &&& r is None
                &&& appended_log(
                    old(self).logs@,
                    final(self).logs@,
                    LogLevel::Warning,
                    "Enter a payload before publishing."@,
                    SERVER_MAX_LOGS as nat,
                )
            } else if old(self).session is None {
                &&& r is None
                &&& appended_log(
                    old(self).logs@,
                    final(self).logs@,
                    LogLevel::Warning,
                    "Bind the server before publishing."@,
                    SERVER_MAX_LOGS as nat,
                )
            } else {
                &&& r matches Some((topic, payload))
                &&& topic == old(self).topic
                &&& payload@ == trimmed(old(self).payload@)
                &&& final(self).logs == old(self).logs
            },
    {
        let payload = trim_text(self.payload.as_str());
        if payload.as_str().is_empty() {
            self.log(LogEntry::warning(String::from_str("Enter a payload before publishing.")));
            return None;
        }
        if self.session.is_none() {
            self.log(LogEntry::warning(String::from_str("Bind the server before publishing.")));
            return None;
        }
        Some((self.topic.clone(), payload))
    }

    /// Records the answer of the worker's handle to a publish request: an
    /// error is logged, success changes nothing.
    pub fn publish_finished(&mut self, result: Result<(), String>)
        requires
            old(self).wf(),
        ensures
            final(self).wf(),
            match result {
                Ok(()) => final(self).logs == old(self).logs,
                Err(e) => appended_log(
                    old(self).logs@,
                    final(self).logs@,
                    LogLevel::Error,
                    e@,
                    SERVER_MAX_LOGS as nat,
                ),
            },
            final(self).endpoint == old(self).endpoint,
            final(self).topic == old(self).topic,
            final(self).payload == old(self).payload,
            final(self).status == old(self).status,
            final(self).session == old(self).session,
            final(self).sent_messages == old(self).sent_messages,
    {
        match result {
            Ok(()) => {},
            Err(e) => self.log(LogEntry::error(e)),
        }
    }

    /// Takes in the events the worker reported since the last frame: state
    /// changes set the status, log lines and published messages are appended,
    /// and both lists are trimmed to their bounds. Returns whether the worker
    /// reported that it stopped; the session is then dropped.
    pub fn drain_events(&mut self, events: Vec<PublisherEvent>) -> (stopped: bool)
        ensures
            final(self).wf(),
            final(self).logs@ == newest(
                old(self).logs@ + publisher_logs(events@),
                SERVER_MAX_LOGS as nat,
            ),
            final(self).sent_messages@ == newest(
                old(self).sent_messages@ + published_messages(events@),
                SERVER_MAX_MESSAGES as nat,
            ),
            events@.len() == 1 && events@[0] is Published && old(self).sent_messages@.len()
                < SERVER_MAX_MESSAGES ==> final(self).sent_messages@ == old(self).sent_messages@.push(
                events@[0]->Published_0,
            ),
            final(self).status == publisher_state_after(events@, old(self).status),
            stopped == publisher_reports_stop(events@),
            final(self).session == if stopped {
                None
            } else {
                old(self).session
            },
            final(self).endpoint == old(self).endpoint,
            final(self).topic == old(self).topic,
            final(self).payload == old(self).payload,
    {
        let ghost all = events@;
        let ghost logs0 = self.logs@;
        let ghost sent0 = self.sent_messages@;
        let ghost status0 = self.status;
        let mut stopped = false;
        for event in it: events
            invariant
                it.seq() == all,
                self.logs@ == logs0 + publisher_logs(all.take(it.index() as int)),
                self.sent_messages@ == sent0 + published_messages(all.take(it.index() as int)),
                self.status == publisher_state_after(all.take(it.index() as int), status0),
                stopped == publisher_reports_stop(all.take(it.index() as int)),
                self.session == old(self).session,
                self.endpoint == old(self).endpoint,
                self.topic == old(self).topic,
                self.payload == old(self).payload,
        {
            let ghost k = it.index() as int;
            assert(all.take(k + 1).drop_last() =~= all.take(k));
            assert(all.take(k + 1).last() == all[k]);
            assert(event == all[k]);
            match event {
                PublisherEvent::State(state) => {
                    self.status = state;
                    match state {
                        ConnectionState::Stopped => {
                            stopped = true;
                        },
                        ConnectionState::Running => {},
                    }
                },
                PublisherEvent::Log(entry) => {
                    self.logs.push(entry);
                },
                PublisherEvent::Published(message) => {
                    self.sent_messages.push(message);
                },
            }
        }
        assert(all.take(all.len() as int) =~= all);
        trim_vec(&mut self.logs, SERVER_MAX_LOGS);
        trim_vec(&mut self.sent_messages, SERVER_MAX_MESSAGES);
        proof {
            if all.len() == 1 && all[0] is Published && sent0.len() < SERVER_MAX_MESSAGES {
                lemma_server_drain_one_message(sent0, all[0]->Published_0);
                assert(all =~= seq![PublisherEvent::Published(all[0]->Published_0)]);
            }
        }
        if stopped {
            self.session = None;
        }
        stopped
    }

    /// The status line's label and colour: bound or stopped.
    pub fn status_text(&self) -> (r: (&'static str, Rgb))
        ensures
            match self.status {
                ConnectionState::Running => r.0@ == "Bound"@ && r.1 == live_colour(),
                ConnectionState::Stopped => r.0@ == "Stopped"@ && r.1 == stopped_colour(),
            },
    {
        match self.status {
            ConnectionState::Running => ("Bound", Rgb { r: 116, g: 201, b: 132 }),
            ConnectionState::Stopped => ("Stopped", Rgb { r: 220, g: 94, b: 94 }),
        }
    }

    /// Empties the activity log, as its Clear button does.
    pub fn clear_logs(&mut self)
        ensures
            final(self).logs@.len() == 0,
            final(self).endpoint == old(self).endpoint,
            final(self).topic == old(self).topic,
            final(self).payload == old(self).payload,
            final(self).status == old(self).status,
            final(self).session == old(self).session,
            final(self).sent_messages == old(self).sent_messages,
    {
        self.logs.clear();
    }

    /// Fills the topic and payload with a ready-made ping message.
    pub fn fill_ping(&mut self)
        ensures
            final(self).topic@ == "demo"@,
            final(self).payload@ == ping_payload(),
            final(self).endpoint == old(self).endpoint,
            final(self).status == old(self).status,
            final(self).session == old(self).session,
            final(self).logs == old(self).logs,
            final(self).sent_messages == old(self).sent_messages,
    {
        self.topic = String::from_str("demo");
        self.payload = String::from_str("{\"kind\":\"ping\",\"source\":\"server\"}");
    }
}

proof fn lemma_publisher_specs_concat(a: Seq<PublisherEvent>, b: Seq<PublisherEvent>, start: ConnectionState)
    ensures
        publisher_logs(a + b) == publisher_logs(a) + publisher_logs(b),
        published_messages(a + b) == published_messages(a) + published_messages(b),
        publisher_state_after(a + b, start) == publisher_state_after(b, publisher_state_after(a, start)),
        publisher_reports_stop(a + b) == (publisher_reports_stop(a) || publisher_reports_stop(b)),
    decreases b.len(),
{
    if b.len() == 0 {
        assert(a + b =~= a);
        assert(publisher_logs(a) + publisher_logs(b) =~= publisher_logs(a));
        assert(published_messages(a) + published_messages(b) =~= published_messages(a));
    } else {
        lemma_publisher_specs_concat(a, b.drop_last(), start);
        assert((a + b).drop_last() =~= a + b.drop_last());
        assert((a + b).last() == b.last());
        assert(publisher_logs(a + b) =~= publisher_logs(a) + publisher_logs(b));
        assert(published_messages(a + b) =~= published_messages(a) + published_messages(b));
    }
}

/// Draining the publisher's events in two batches leaves the window as
/// draining them all at once would: the same log, the same sent messages,
/// the same status, and the session dropped exactly when either batch
/// reported a stop.
pub proof fn lemma_server_drain_in_batches(
    logs: Seq<LogEntry>,
    sent: Seq<PublishedMessage>,
    status: ConnectionState,
    first: Seq<PublisherEvent>,
    second: Seq<PublisherEvent>,
)
    ensures
        newest(
            newest(logs + publisher_logs(first), SERVER_MAX_LOGS as nat) + publisher_logs(second),
            SERVER_MAX_LOGS as nat,
        ) == newest(logs + publisher_logs(first + second), SERVER_MAX_LOGS as nat),
        newest(
            newest(sent + published_messages(first), SERVER_MAX_MESSAGES as nat)
                + published_messages(second),
            SERVER_MAX_MESSAGES as nat,
        ) == newest(sent + published_messages(first + second), SERVER_MAX_MESSAGES as nat),
        publisher_state_after(second, publisher_state_after(first, status))
            == publisher_state_after(first + second, status),
        (publisher_reports_stop(first) || publisher_reports_stop(second))
            == publisher_reports_stop(first + second),
{
    lemma_publisher_specs_concat(first, second, status);
    lemma_newest_batches(logs + publisher_logs(first), publisher_logs(second), SERVER_MAX_LOGS as nat);
    assert(logs + publisher_logs(first) + publisher_logs(second) =~= logs + publisher_logs(first + second));
    lemma_newest_batches(sent + published_messages(first), published_messages(second), SERVER_MAX_MESSAGES as nat);
    assert(sent + published_messages(first) + published_messages(second) =~= sent + published_messages(first + second));
}

/// Draining takes in every Published event and every log event, whatever
/// their content, and nothing else: the messages a batch adds are exactly
/// the messages of its `Published` events, in order, and the log lines are
/// exactly those of its `Log` events, in order.
pub proof fn lemma_server_drain_takes_every_event(events: Seq<PublisherEvent>)
    ensures
        published_messages(events) == events.filter_map(
            |e: PublisherEvent|
                match e {
                    PublisherEvent::Published(m) => Some(m),
                    _ => None,
                },
        ),
        publisher_logs(events) == events.filter_map(
            |e: PublisherEvent|
                match e {
                    PublisherEvent::Log(entry) => Some(entry),
                    _ => None,
                },
        ),
    decreases events.len(),
{
    if events.len() > 0 {
        lemma_server_drain_takes_every_event(events.drop_last());
    }
}

/// Draining a single message into a list below its bound appends that
/// message at the end and grows the list by one, whatever the message holds.
pub proof fn lemma_server_drain_one_message(list: Seq<PublishedMessage>, m: PublishedMessage)
    requires
        list.len() < SERVER_MAX_MESSAGES,
    ensures
        newest(list + published_messages(seq![PublisherEvent::Published(m)]), SERVER_MAX_MESSAGES as nat) == list.push(m),
        newest(list + published_messages(seq![PublisherEvent::Published(m)]), SERVER_MAX_MESSAGES as nat).len() == list.len()
            + 1,
{
    let one = seq![PublisherEvent::Published(m)];
    assert(one.drop_last() =~= Seq::<PublisherEvent>::empty());
    assert(one.last() == one[0]);
    assert(published_messages(one.drop_last()).len() == 0);
    assert(published_messages(one) =~= seq![m]);
    assert(list + seq![m] =~= list.push(m));
}

/// Draining a single log event into a log below its bound appends that line.
pub proof fn lemma_server_drain_one_log(logs: Seq<LogEntry>, entry: LogEntry)
    requires
        logs.len() < SERVER_MAX_LOGS,
    ensures
        newest(logs + publisher_logs(seq![PublisherEvent::Log(entry)]), SERVER_MAX_LOGS as nat) == logs.push(entry),
{
    let one = seq![PublisherEvent::Log(entry)];
    assert(one.drop_last() =~= Seq::<PublisherEvent>::empty());
    assert(one.last() == one[0]);
    assert(publisher_logs(one.drop_last()).len() == 0);
    assert(publisher_logs(one) =~= seq![entry]);
    assert(logs + seq![entry] =~= logs.push(entry));
}

} // verus!
