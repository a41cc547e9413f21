//! The state of the subscriber window and how each button and each worker
//! report changes it. The window owns the worker's handle; this state records
//! the endpoint of the live session, if any.
use vstd::prelude::*;
use crate::default_tcp_endpoint;
use crate::history::{lemma_newest_batches, newest, trim_vec};
use crate::network::{
    appended_log, ConnectionState, LogEntry, LogLevel, ReceivedMessage, SubscriberEvent,
};
use crate::view::{live_colour, stopped_colour, Rgb};

verus! {

/// The most activity-log lines the subscriber window keeps.
pub const CLIENT_MAX_LOGS: usize = 300;

/// The most received messages the subscriber window keeps.
pub const CLIENT_MAX_MESSAGES: usize = 300;

/// The log lines among `events`, in order.
pub open spec fn subscriber_logs(events: Seq<SubscriberEvent>) -> Seq<LogEntry>
    decreases events.len(),
{
    if events.len() == 0 {
        Seq::empty()
    } else {
        subscriber_logs(events.drop_last()) + match events.last() {
            SubscriberEvent::Log(entry) => seq![entry],
            _ => Seq::empty(),
        }
    }
}

/// The received messages among `events`, in order.
pub open spec fn received_messages(events: Seq<SubscriberEvent>) -> Seq<ReceivedMessage>
    decreases events.len(),
{
    if events.len() == 0 {
        Seq::empty()
    } else {
        received_messages(events.drop_last()) + match events.last() {
            SubscriberEvent::Message(m) => seq![m],
            _ => Seq::empty(),
        }
    }
}

/// The connection state after `events`: the last state they report, or
/// `start` when they report none.
pub open spec fn subscriber_state_after(events: Seq<SubscriberEvent>, start: ConnectionState) -> ConnectionState
    decreases events.len(),
{
    if events.len() == 0 {
        start
    } else {
        match events.last() {
            SubscriberEvent::State(s) => s,
            _ => subscriber_state_after(events.drop_last(), start),
        }
    }
}

/// Whether any of `events` reports that the worker stopped.
pub open spec fn subscriber_reports_stop(events: Seq<SubscriberEvent>) -> bool
    decreases events.len(),
{
    if events.len() == 0 {
        false
    } else {
        subscriber_reports_stop(events.drop_last()) || events.last() == SubscriberEvent::State(
            ConnectionState::Stopped,
        )
    }
}

/// The subscriber window's state.
pub struct ClientApp {
    /// The endpoint typed in the remote endpoint field.
    pub endpoint: String,
    /// The subscription filter typed in the filter field; empty receives all.
    pub filter: String,
    /// Whether the subscriber is live, as last reported.
    pub status: ConnectionState,
    /// The endpoint of the live subscriber session, if there is one.
    pub session: Option<String>,
    /// The activity log, oldest first.
    pub logs: Vec<LogEntry>,
    /// The messages received, oldest first.
    pub received_messages: Vec<ReceivedMessage>,
}

impl ClientApp {
    /// The bounds the window keeps its lists within.
    pub open spec fn wf(&self) -> bool {
        &&& self.logs@.len() <= CLIENT_MAX_LOGS
        &&& self.received_messages@.len() <= CLIENT_MAX_MESSAGES
    }

    /// A stopped window on the default TCP endpoint with an empty filter and a
    /// greeting in the log.
    pub fn new() -> (r: ClientApp)
        ensures
            r.wf(),
            r.endpoint@ == "tcp://127.0.0.1:5555"@,
            r.filter@ == Seq::<char>::empty(),
            r.status == ConnectionState::Stopped,
            r.session is None,
            r.logs@.len() == 1,
            r.logs@[0].level == LogLevel::Info,
            r.logs@[0].message@ == "Ready. Connect to a PUB endpoint and watch the incoming frames."@,
            r.received_messages@.len() == 0,
    {
        let greeting = LogEntry::info(
            String::from_str("Ready. Connect to a PUB endpoint and watch the incoming frames."),
        );
        ClientApp {
            endpoint: default_tcp_endpoint(),
            filter: String::new(),
            status: ConnectionState::Stopped,
            session: None,
            logs: vec![greeting],
            received_messages: Vec::new(),
        }
    }

    fn log(&mut self, entry: LogEntry)
        ensures
            final(self).logs@ == newest(old(self).logs@.push(entry), CLIENT_MAX_LOGS as nat),
            final(self).logs@.len() > 0,
            final(self).logs@.last() == entry,
            final(self).endpoint == old(self).endpoint,
            final(self).filter == old(self).filter,
            final(self).status == old(self).status,
            final(self).session == old(self).session,
            final(self).received_messages == old(self).received_messages,
    {
        self.logs.push(entry);
        trim_vec(&mut self.logs, CLIENT_MAX_LOGS);
    }

    /// Ends the live session, if any. Returns whether there was one, so that
    /// the window shuts its worker down; a warning naming the endpoint is then
    /// logged. The window is stopped either way.
    pub fn disconnect(&mut self) -> (had_session: bool)
        requires
            old(self).wf(),
        ensures
            final(self).wf(),
            had_session == old(self).session is Some,
            final(self).session is None,
            final(self).status == ConnectionState::Stopped,
            match old(self).session {
                Some(ep) => appended_log(
                    old(self).logs@,
                    final(self).logs@,
                    LogLevel::Warning,
                    "SUB client disconnected from "@ + ep@,
                    CLIENT_MAX_LOGS as nat,
                ),
                None => final(self).logs == old(self).logs,
            },
            final(self).endpoint == old(self).endpoint,
            final(self).filter == old(self).filter,
            final(self).received_messages == old(self).received_messages,
    {
        let had = self.session.is_some();
        match self.session.take() {
            Some(ep) => {
                let mut m = String::from_str("SUB client disconnected from ");
                m.append(ep.as_str());
                self.log(LogEntry::warning(m));
            },
            None => {},
        }
        self.status = ConnectionState::Stopped;
        had
    }

    /// Records the outcome of connecting: on success the window runs, keeps
    /// the session's endpoint and logs where it is connected; on failure it is
    /// stopped and logs the error.
    pub fn connect_finished(&mut self, result: Result<String, String>)
        requires
            old(self).wf(),
        ensures
            final(self).wf(),
            match result {
                Ok(ep) => {
                    &&& final(self).status == ConnectionState::Running
                    &&& final(self).session == Some(ep)
                    &&& appended_log(
                        old(self).logs@,
                        final(self).logs@,
                        LogLevel::Info,
                        "SUB client connected to "@ + ep@,
                        CLIENT_MAX_LOGS as nat,
                    )
                },
                Err(e) => {
                    &&& final(self).status == ConnectionState::Stopped
                    &&& final(self).session == old(self).session
                    &&& appended_log(
                        old(self).logs@,
                        final(self).logs@,
                        LogLevel::Error,
                        e@,
                        CLIENT_MAX_LOGS as nat,
                    )
                },
            },
            final(self).endpoint == old(self).endpoint,
            final(self).filter == old(self).filter,
            final(self).received_messages == old(self).received_messages,
    {
        match result {
            Ok(ep) => {
                self.status = ConnectionState::Running;
                let mut m = String::from_str("SUB client connected to ");
                m.append(ep.as_str());
                self.log(LogEntry::info(m));
                self.session = Some(ep);
            },
            Err(e) => {
                self.status = ConnectionState::Stopped;
                self.log(LogEntry::error(e));
            },
        }
    }

    /// Decides whether the typed filter can be sent to the worker: without a
    /// session it is refused with a warning, otherwise the filter is returned.
    pub fn prepare_apply_filter(&mut self) -> (r: Option<String>)
        requires
            old(self).wf(),
        ensures
            final(self).wf(),
            final(self).endpoint == old(self).endpoint,
            final(self).filter == old(self).filter,
            final(self).status == old(self).status,
            final(self).session == old(self).session,
            final(self).received_messages == old(self).received_messages,
            if old(self).session is None {
                &&& r is None
                &&& appended_log(
                    old(self).logs@,
                    final(self).logs@,
                    LogLevel::Warning,
                    "Connect the subscriber before applying a filter."@,
                    CLIENT_MAX_LOGS as nat,
                )
            } else {
                &&& r == Some(old(self).filter)
                &&& final(self).logs == old(self).logs
            },
    {
        if self.session.is_none() {
            self.log(
                LogEntry::warning(String::from_str("Connect the subscriber before applying a filter.")),
            );
            return None;
        }
        Some(self.filter.clone())
    }

    /// Records the answer of the worker's handle to a filter update: an error
    /// is logged, success changes nothing.
    pub fn apply_filter_finished(&mut self, result: Result<(), String>)
        requires
            old(self).wf(),
        ensures
            final(self).wf(),
            match result {
                Ok(()) => final(self).logs == old(self).logs,
                Err(e) => appended_log(
                    old(self).logs@,
                    final(self).logs@,
                    LogLevel::Error,
                    e@,
                    CLIENT_MAX_LOGS as nat,
                ),
            },
            final(self).endpoint == old(self).endpoint,
            final(self).filter == old(self).filter,
            final(self).status == old(self).status,
            final(self).session == old(self).session,
            final(self).received_messages == old(self).received_messages,
    {
        match result {
            Ok(()) => {},
            Err(e) => self.log(LogEntry::error(e)),
        }
    }

    /// Takes in the events the worker reported since the last frame: state
    /// changes set the status, log lines and received messages are appended,
    /// and both lists are trimmed to their bounds. Returns whether the worker
    /// reported that it stopped; the session is then dropped.
    pub fn drain_events(&mut self, events: Vec<SubscriberEvent>) -> (stopped: bool)
        ensures
            final(self).wf(),
            final(self).logs@ == newest(
                old(self).logs@ + subscriber_logs(events@),
                CLIENT_MAX_LOGS as nat,
            ),
            final(self).received_messages@ == newest(
                old(self).received_messages@ + received_messages(events@),
                CLIENT_MAX_MESSAGES as nat,
            ),
            events@.len() == 1 && events@[0] is Message && old(self).received_messages@.len()
                < CLIENT_MAX_MESSAGES ==> final(self).received_messages@ == old(self).received_messages@.push(
                events@[0]->Message_0,
            ),
            final(self).status == subscriber_state_after(events@, old(self).status),
            stopped == subscriber_reports_stop(events@),
            final(self).session == if stopped {
                None
            } else {
                old(self).session
            },
            final(self).endpoint == old(self).endpoint,
            final(self).filter == old(self).filter,
    {
        let ghost all = events@;
        let ghost logs0 = self.logs@;
        let ghost received0 = self.received_messages@;
        let ghost status0 = self.status;
        let mut stopped = false;
        for event in it: events
            invariant
                it.seq() == all,
                self.logs@ == logs0 + subscriber_logs(all.take(it.index() as int)),
                self.received_messages@ == received0 + received_messages(
                    all.take(it.index() as int),
                ),
                self.status == subscriber_state_after(all.take(it.index() as int), status0),
                stopped == subscriber_reports_stop(all.take(it.index() as int)),
                self.session == old(self).session,
                self.endpoint == old(self).endpoint,
                self.filter == old(self).filter,
        {
            let ghost k = it.index() as int;
            assert(all.take(k + 1).drop_last() =~= all.take(k));
            assert(all.take(k + 1).last() == all[k]);
            assert(event == all[k]);
            match event {
                SubscriberEvent::State(state) => {
                    self.status = state;
                    match state {
                        ConnectionState::Stopped => {
                            stopped = true;
                        },
                        ConnectionState::Running => {},
                    }
                },
                SubscriberEvent::Log(entry) => {
                    self.logs.push(entry);
                },
                SubscriberEvent::Message(message) => {
                    self.received_messages.push(message);
                },
            }
        }
        assert(all.take(all.len() as int) =~= all);
        trim_vec(&mut self.logs, CLIENT_MAX_LOGS);
        trim_vec(&mut self.received_messages, CLIENT_MAX_MESSAGES);
        proof {
            if all.len() == 1 && all[0] is Message && received0.len() < CLIENT_MAX_MESSAGES {
                lemma_client_drain_one_message(received0, all[0]->Message_0);
                assert(all =~= seq![SubscriberEvent::Message(all[0]->Message_0)]);
            }
        }
        if stopped {
            self.session = None;
        }
        stopped
    }

    /// Empties the activity log, as its Clear button does.
    pub fn clear_logs(&mut self)
        ensures
            final(self).logs@.len() == 0,
            final(self).endpoint == old(self).endpoint,
            final(self).filter == old(self).filter,
            final(self).status == old(self).status,
            final(self).session == old(self).session,
            final(self).received_messages == old(self).received_messages,
    {
        self.logs.clear();
    }

    /// Empties the list of received messages, as its Clear button does.
    pub fn clear_received_messages(&mut self)
        ensures
            final(self).received_messages@.len() == 0,
            final(self).endpoint == old(self).endpoint,
            final(self).filter == old(self).filter,
            final(self).status == old(self).status,
            final(self).session == old(self).session,
            final(self).logs == old(self).logs,
    {
        self.received_messages.clear();
    }

    /// The status line's label and colour: connected or stopped.
    pub fn status_text(&self) -> (r: (&'static str, Rgb))
        ensures
            match self.status {
                ConnectionState::Running => r.0@ == "Connected"@ && r.1 == live_colour(),
                ConnectionState::Stopped => r.0@ == "Stopped"@ && r.1 == stopped_colour(),
            },
    {
        match self.status {
            ConnectionState::Running => ("Connected", Rgb { r: 116, g: 201, b: 132 }),
            ConnectionState::Stopped => ("Stopped", Rgb { r: 220, g: 94, b: 94 }),
        }
    }
}

proof fn lemma_subscriber_specs_concat(
    a: Seq<SubscriberEvent>,
    b: Seq<SubscriberEvent>,
    start: ConnectionState,
)
    ensures
        subscriber_logs(a + b) == subscriber_logs(a) + subscriber_logs(b),
        received_messages(a + b) == received_messages(a) + received_messages(b),
        subscriber_state_after(a + b, start) == subscriber_state_after(
            b,
            subscriber_state_after(a, start),
        ),
        subscriber_reports_stop(a + b) == (subscriber_reports_stop(a) || subscriber_reports_stop(
            b,
        )),
    decreases b.len(),
{
    if b.len() == 0 {
        assert(a + b =~= a);
        assert(subscriber_logs(a) + subscriber_logs(b) =~= subscriber_logs(a));
        assert(received_messages(a) + received_messages(b) =~= received_messages(a));
    } else {
        lemma_subscriber_specs_concat(a, b.drop_last(), start);
        assert((a + b).drop_last() =~= a + b.drop_last());
        assert((a + b).last() == b.last());
        assert(subscriber_logs(a + b) =~= subscriber_logs(a) + subscriber_logs(b));
        assert(received_messages(a + b) =~= received_messages(a) + received_messages(b));
    }
}

/// Draining the subscriber's events in two batches leaves the window as
/// draining them all at once would: the same log, the same received
/// messages, the same status, and the session dropped exactly when either
/// batch reported a stop.
pub proof fn lemma_client_drain_in_batches(
    logs: Seq<LogEntry>,
    received: Seq<ReceivedMessage>,
    status: ConnectionState,
    first: Seq<SubscriberEvent>,
    second: Seq<SubscriberEvent>,
)
    ensures
        newest(
            newest(logs + subscriber_logs(first), CLIENT_MAX_LOGS as nat) + subscriber_logs(second),
            CLIENT_MAX_LOGS as nat,
        ) == newest(logs + subscriber_logs(first + second), CLIENT_MAX_LOGS as nat),
        newest(
            newest(received + received_messages(first), CLIENT_MAX_MESSAGES as nat)
                + received_messages(second),
            CLIENT_MAX_MESSAGES as nat,
        ) == newest(received + received_messages(first + second), CLIENT_MAX_MESSAGES as nat),
        subscriber_state_after(second, subscriber_state_after(first, status))
            == subscriber_state_after(first + second, status),
        (subscriber_reports_stop(first) || subscriber_reports_stop(second))
            == subscriber_reports_stop(first + second),
{
    lemma_subscriber_specs_concat(first, second, status);
    lemma_newest_batches(logs + subscriber_logs(first), subscriber_logs(second), CLIENT_MAX_LOGS as nat);
    assert(logs + subscriber_logs(first) + subscriber_logs(second) =~= logs + subscriber_logs(
        first + second,
    ));
    lemma_newest_batches(
        received + received_messages(first),
        received_messages(second),
        CLIENT_MAX_MESSAGES as nat,
    );
    assert(received + received_messages(first) + received_messages(second) =~= received
        + received_messages(first + second));
}

/// Draining takes in every Message event and every log event, whatever
/// their content, and nothing else: the messages a batch adds are exactly
/// the messages of its `Message` events, in order, and the log lines are
/// exactly those of its `Log` events, in order.
pub proof fn lemma_client_drain_takes_every_event(events: Seq<SubscriberEvent>)
    ensures
        received_messages(events) == events.filter_map(
            |e: SubscriberEvent|
                match e {
                    SubscriberEvent::Message(m) => Some(m),
                    _ => None,
                },
        ),
        subscriber_logs(events) == events.filter_map(
            |e: SubscriberEvent|
                match e {
                    SubscriberEvent::Log(entry) => Some(entry),
                    _ => None,
                },
        ),
    decreases events.len(),
{
    if events.len() > 0 {
        lemma_client_drain_takes_every_event(events.drop_last());
    }
}

/// Draining a single message into a list below its bound appends that
/// message at the end and grows the list by one, whatever the message holds.
pub proof fn lemma_client_drain_one_message(list: Seq<ReceivedMessage>, m: ReceivedMessage)
    requires
        list.len() < CLIENT_MAX_MESSAGES,
    ensures
        newest(list + received_messages(seq![SubscriberEvent::Message(m)]), CLIENT_MAX_MESSAGES as nat) == list.push(m),
        newest(list + received_messages(seq![SubscriberEvent::Message(m)]), CLIENT_MAX_MESSAGES as nat).len() == list.len()
            + 1,
{
    let one = seq![SubscriberEvent::Message(m)];
    assert(one.drop_last() =~= Seq::<SubscriberEvent>::empty());
    assert(one.last() == one[0]);
    assert(received_messages(one.drop_last()).len() == 0);
    assert(received_messages(one) =~= seq![m]);
    assert(list + seq![m] =~= list.push(m));
}

/// Draining a single log event into a log below its bound appends that line.
pub proof fn lemma_client_drain_one_log(logs: Seq<LogEntry>, entry: LogEntry)
    requires
        logs.len() < CLIENT_MAX_LOGS,
    ensures
        newest(logs + subscriber_logs(seq![SubscriberEvent::Log(entry)]), CLIENT_MAX_LOGS as nat) == logs.push(entry),
{
    let one = seq![SubscriberEvent::Log(entry)];
    assert(one.drop_last() =~= Seq::<SubscriberEvent>::empty());
    assert(one.last() == one[0]);
    assert(subscriber_logs(one.drop_last()).len() == 0);
    assert(subscriber_logs(one) =~= seq![entry]);
    assert(logs + seq![entry] =~= logs.push(entry));
}

} // verus!
