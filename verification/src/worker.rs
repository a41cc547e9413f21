//! The decisions of the publisher and subscriber workers. Each worker owns a
//! socket on a thread of its own; the thread performs the socket calls and
//! hands each outcome to the state machine here, which says what to do next
//! and what to report.
use vstd::prelude::*;
use crate::network::{
    display_filter, filter_label, render_frame, rendered_frame, split_frames, split_frames_spec,
    ConnectionState, LogEntry, LogLevel, PublishedMessage, PublisherCommand, PublisherEvent,
    ReceivedMessage, SubscriberCommand, SubscriberEvent,
};
use crate::sys::{debug_quoted, debug_str, is_clock_text, local_clock_text};
use crate::text::{joined, views};
use vstd::utf8::{encode_utf8, encode_utf8_decode_utf8, encode_utf8_valid_utf8};

verus! {

/// Where a worker is in its life.
#[derive(Clone, Copy, Debug, PartialEq, Eq, Structural)]
pub enum WorkerPhase {
    /// The socket is being set up.
    Starting,
    /// The socket is live and commands are served.
    Running,
    /// The worker has stopped or never started.
    Stopped,
}

/// The setup steps of the publisher's socket, in order.
#[derive(Clone, Copy, Debug, PartialEq, Eq, Structural)]
pub enum PublisherSetupStep {
    CreateSocket,
    Configure,
    Bind,
}

/// The setup steps of the subscriber's socket, in order.
#[derive(Clone, Copy, Debug, PartialEq, Eq, Structural)]
pub enum SubscriberSetupStep {
    CreateSocket,
    Configure,
    Connect,
    Subscribe,
}

/// What woke the publisher worker: a command, a quiet poll interval, or the
/// loss of the command channel.
pub enum PublisherWake {
    Command(PublisherCommand),
    Timeout,
    Disconnected,
}

/// What the publisher worker does next.
pub enum PublisherStep {
    /// Send these frames, then report with `on_sent`.
    Send { topic: String, payload: String, frames: Vec<String> },
    /// Wait for the next command.
    Wait,
    /// Leave the loop and report with `finish`.
    Stop,
}

/// What the subscriber worker found on its command channel.
pub enum SubscriberWake {
    Command(SubscriberCommand),
    Empty,
    Disconnected,
}

/// What the subscriber worker does next.
pub enum SubscriberStep {
    /// Drop the subscription `unsubscribe`, take `subscribe`, then report with
    /// `on_resubscribed`.
    Resubscribe { unsubscribe: String, subscribe: String },
    /// Poll the socket for a message, then report with `on_poll`.
    Poll,
    /// Leave the loop and report with `finish`.
    Stop,
}

/// What a poll of the subscriber's socket gave.
pub enum PollOutcome {
    /// A message arrived; these are its frames.
    Received(Vec<Vec<u8>>),
    /// The socket was readable but reading failed with this error.
    ReceiveFailed(String),
    /// Nothing arrived within the poll interval.
    Quiet,
    /// Polling itself failed with this error.
    PollFailed(String),
}

/// Whether `e` is a log event of the given level and message.
pub open spec fn is_log_event(e: PublisherEvent, level: LogLevel, message: Seq<char>) -> bool {
    e matches PublisherEvent::Log(entry) && entry.level == level && entry.message@ == message
        && is_clock_text(entry.at@)
}

/// Whether `e` is a subscriber log event of the given level and message.
pub open spec fn is_sub_log_event(e: SubscriberEvent, level: LogLevel, message: Seq<char>) -> bool {
    e matches SubscriberEvent::Log(entry) && entry.level == level && entry.message@ == message
        && is_clock_text(entry.at@)
}

/// The message logged when a publisher setup step fails with `error`.
pub open spec fn publisher_setup_text(
    step: PublisherSetupStep,
    endpoint: Seq<char>,
    error: Seq<char>,
) -> Seq<char> {
    match step {
        PublisherSetupStep::CreateSocket => "Failed to create PUB socket: "@ + error,
        PublisherSetupStep::Configure => "Failed to configure PUB socket: "@ + error,
        PublisherSetupStep::Bind => "Failed to bind PUB socket to "@ + endpoint + ": "@ + error,
    }
}

/// The message logged when a subscriber setup step fails with `error`.
pub open spec fn subscriber_setup_text(
    step: SubscriberSetupStep,
    endpoint: Seq<char>,
    filter: Seq<char>,
    error: Seq<char>,
) -> Seq<char> {
    match step {
        SubscriberSetupStep::CreateSocket => "Failed to create SUB socket: "@ + error,
        SubscriberSetupStep::Configure => "Failed to configure SUB socket: "@ + error,
        SubscriberSetupStep::Connect => "Failed to connect SUB socket to "@ + endpoint + ": "@
            + error,
        SubscriberSetupStep::Subscribe => "Failed to subscribe with filter "@ + debug_str(filter)
            + ": "@ + error,
    }
}

/// The frames that carry a publication: the payload alone when the topic is
/// empty, else the topic frame followed by the payload frame.
pub open spec fn publication_frames(topic: Seq<char>, payload: Seq<char>) -> Seq<Seq<char>> {
    if topic.len() == 0 {
        seq![payload]
    } else {
        seq![topic, payload]
    }
}

/// The setup error of a subscription refused with `error`, given the filter
/// as `{:?}` writes it.
pub fn subscribe_failure_text(quoted_filter: &str, error: &str) -> (r: String)
    ensures
        r@ == "Failed to subscribe with filter "@ + quoted_filter@ + ": "@ + error@,
{
    let mut m = String::from_str("Failed to subscribe with filter ");
    m.append(quoted_filter);
    m.append(": ");
    m.append(error);
    m
}

/// The error logged when replacing the subscription failed with `error`,
/// given the new filter as `{:?}` writes it.
pub fn filter_update_failure_text(quoted_filter: &str, error: &str) -> (r: String)
    ensures
        r@ == "Failed to update filter to "@ + quoted_filter@ + ": "@ + error@,
{
    let mut m = String::from_str("Failed to update filter to ");
    m.append(quoted_filter);
    m.append(": ");
    m.append(error);
    m
}

/// The state of a publisher worker: the endpoint its socket binds to and the
/// phase it is in.
pub struct PublisherWorker {
    pub endpoint: String,
    pub phase: WorkerPhase,
}

impl PublisherWorker {
    /// A worker about to set up a PUB socket bound to `endpoint`.
    pub fn new(endpoint: String) -> (r: PublisherWorker)
        ensures
            r.endpoint == endpoint,
            r.phase == WorkerPhase::Starting,
    {
        PublisherWorker { endpoint, phase: WorkerPhase::Starting }
    }

    /// A setup step failed with `error`: the worker stops, and the returned
    /// message is both the startup error and the text of the error it logs.
    pub fn setup_failed(&mut self, step: PublisherSetupStep, error: &str) -> (r: String)
        requires
            old(self).phase == WorkerPhase::Starting,
        ensures
            r@ == publisher_setup_text(step, old(self).endpoint@, error@),
            final(self).phase == WorkerPhase::Stopped,
            final(self).endpoint == old(self).endpoint,
    {
        self.phase = WorkerPhase::Stopped;
        match step {
            PublisherSetupStep::CreateSocket => {
                let mut m = String::from_str("Failed to create PUB socket: ");
                m.append(error);
                m
            },
            PublisherSetupStep::Configure => {
                let mut m = String::from_str("Failed to configure PUB socket: ");
                m.append(error);
                m
            },
            PublisherSetupStep::Bind => {
                let mut m = String::from_str("Failed to bind PUB socket to ");
                m.append(self.endpoint.as_str());
                m.append(": ");
                m.append(error);
                m
            },
        }
    }

    /// What a failed setup step reports: the answer to the starter is an
    /// error carrying the step's failure text, and the only event is an error
    /// line with that same text; the worker reports no state, and stops.
    pub fn setup_failure_report(&mut self, step: PublisherSetupStep, error: &str) -> (r: (
        Result<(), String>,
        Vec<PublisherEvent>,
    ))
        requires
            old(self).phase == WorkerPhase::Starting,
        ensures
            r.0 matches Err(m) && m@ == publisher_setup_text(step, old(self).endpoint@, error@),
            r.1@.len() == 1,
            is_log_event(
                r.1@[0],
                LogLevel::Error,
                publisher_setup_text(step, old(self).endpoint@, error@),
            ),
            final(self).phase == WorkerPhase::Stopped,
            final(self).endpoint == old(self).endpoint,
    {
        let message = self.setup_failed(step, error);
        let mut events: Vec<PublisherEvent> = Vec::new();
        events.push(PublisherEvent::Log(LogEntry::error(message.clone())));
        (Err(message), events)
    }

    /// The socket is bound: the worker runs, and reports that it runs and
    /// where it is bound.
    pub fn bound(&mut self) -> (r: Vec<PublisherEvent>)
        requires
            old(self).phase == WorkerPhase::Starting,
        ensures
            final(self).phase == WorkerPhase::Running,
            final(self).endpoint == old(self).endpoint,
            r@.len() == 2,
            r@[0] == PublisherEvent::State(ConnectionState::Running),
            is_log_event(r@[1], LogLevel::Info, "PUB socket bound to "@ + old(self).endpoint@),
    {
        self.phase = WorkerPhase::Running;
        let mut m = String::from_str("PUB socket bound to ");
        m.append(self.endpoint.as_str());
        let mut events: Vec<PublisherEvent> = Vec::new();
        events.push(PublisherEvent::State(ConnectionState::Running));
        events.push(PublisherEvent::Log(LogEntry::info(m)));
        events
    }

    /// What a running worker does when woken: a publication is sent as its
    /// frames, a quiet interval waits, and a shutdown request or the loss of
    /// the command channel stops the loop.
    pub fn on_wake(&self, wake: PublisherWake) -> (r: PublisherStep)
        requires
            self.phase == WorkerPhase::Running,
        ensures
            match wake {
                PublisherWake::Command(PublisherCommand::Publish { topic, payload }) => {
                    &&& r matches PublisherStep::Send { topic: t, payload: p, frames }
                    &&& t == topic
                    &&& p == payload
                    &&& views(frames@) == publication_frames(topic@, payload@)
                },
                PublisherWake::Command(PublisherCommand::Shutdown) => r is Stop,
                PublisherWake::Timeout => r is Wait,
                PublisherWake::Disconnected => r is Stop,
            },
    {
        match wake {
            PublisherWake::Command(PublisherCommand::Publish { topic, payload }) => {
                let mut frames: Vec<String> = Vec::new();
                if topic.as_str().is_empty() {
                    frames.push(payload.clone());
                } else {
                    frames.push(topic.clone());
                    frames.push(payload.clone());
                }
                assert(views(frames@) =~= publication_frames(topic@, payload@));
                PublisherStep::Send { topic, payload, frames }
            },
            PublisherWake::Command(PublisherCommand::Shutdown) => PublisherStep::Stop,
            PublisherWake::Timeout => PublisherStep::Wait,
            PublisherWake::Disconnected => PublisherStep::Stop,
        }
    }

    /// The report on a send: the published message, with as many frames as
    /// were sent, or an error line naming the endpoint.
    pub fn on_sent(&self, topic: String, payload: String, outcome: Result<(), String>) -> (r:
        PublisherEvent)
        ensures
            match outcome {
                Ok(()) => {
                    &&& r matches PublisherEvent::Published(m)
                    &&& m.endpoint@ == self.endpoint@
                    &&& m.topic == topic
                    &&& m.payload == payload
                    &&& m.frame_count == publication_frames(topic@, payload@).len()
                    &&& is_clock_text(m.at@)
                },
                Err(e) => is_log_event(
                    r,
                    LogLevel::Error,
                    "Publish failed on "@ + self.endpoint@ + ": "@ + e@,
                ),
            },
    {
        match outcome {
            Ok(()) => {
                let frame_count: usize = if topic.as_str().is_empty() { 1 } else { 2 };
                PublisherEvent::Published(
                    PublishedMessage {
                        at: local_clock_text(),
                        endpoint: self.endpoint.clone(),
                        topic,
                        payload,
                        frame_count,
                    },
                )
            },
            Err(e) => {
                let mut m = String::from_str("Publish failed on ");
                m.append(self.endpoint.as_str());
                m.append(": ");
                m.append(e.as_str());
                PublisherEvent::Log(LogEntry::error(m))
            },
        }
    }

    /// The loop has ended: the worker stops, and reports that it stopped.
    pub fn finish(&mut self) -> (r: Vec<PublisherEvent>)
        requires
            old(self).phase == WorkerPhase::Running,
        ensures
            final(self).phase == WorkerPhase::Stopped,
            final(self).endpoint == old(self).endpoint,
            r@.len() == 2,
            is_log_event(r@[0], LogLevel::Info, "PUB socket for "@ + old(self).endpoint@ + " stopped"@),
            r@[1] == PublisherEvent::State(ConnectionState::Stopped),
    {
        self.phase = WorkerPhase::Stopped;
        let mut m = String::from_str("PUB socket for ");
        m.append(self.endpoint.as_str());
        m.append(" stopped");
        let mut events: Vec<PublisherEvent> = Vec::new();
        events.push(PublisherEvent::Log(LogEntry::info(m)));
        events.push(PublisherEvent::State(ConnectionState::Stopped));
        events
    }
}

/// The views of the rendered frames of a message.
pub open spec fn rendered_frames(raw: Seq<Vec<u8>>) -> Seq<Seq<char>> {
    raw.map_values(|f: Vec<u8>| rendered_frame(f@))
}

/// The state of a subscriber worker: the endpoint its socket connects to,
/// the filter it is subscribed with, and the phase it is in.
pub struct SubscriberWorker {
    pub endpoint: String,
    pub filter: String,
    pub phase: WorkerPhase,
}

impl SubscriberWorker {
    /// A worker about to set up a SUB socket connected to `endpoint` and
    /// subscribed with `filter`.
    pub fn new(endpoint: String, filter: String) -> (r: SubscriberWorker)
        ensures
            r.endpoint == endpoint,
            r.filter == filter,
            r.phase == WorkerPhase::Starting,
    {
        SubscriberWorker { endpoint, filter, phase: WorkerPhase::Starting }
    }

    /// A setup step failed with `error`: the worker stops, and the returned
    /// message is both the startup error and the text of the error it logs.
    pub fn setup_failed(&mut self, step: SubscriberSetupStep, error: &str) -> (r: String)
        requires
            old(self).phase == WorkerPhase::Starting,
        ensures
            r@ == subscriber_setup_text(step, old(self).endpoint@, old(self).filter@, error@),
            final(self).phase == WorkerPhase::Stopped,
            final(self).endpoint == old(self).endpoint,
            final(self).filter == old(self).filter,
    {
        self.phase = WorkerPhase::Stopped;
        match step {
            SubscriberSetupStep::CreateSocket => {
                let mut m = String::from_str("Failed to create SUB socket: ");
                m.append(error);
                m
            },
            SubscriberSetupStep::Configure => {
                let mut m = String::from_str("Failed to configure SUB socket: ");
                m.append(error);
                m
            },
            SubscriberSetupStep::Connect => {
                let mut m = String::from_str("Failed to connect SUB socket to ");
                m.append(self.endpoint.as_str());
                m.append(": ");
                m.append(error);
                m
            },
            SubscriberSetupStep::Subscribe => {
                let quoted = debug_quoted(self.filter.as_str());
                subscribe_failure_text(quoted.as_str(), error)
            },
        }
    }

    /// What a failed setup step reports: the answer to the starter is an
    /// error carrying the step's failure text, and the only event is an error
    /// line with that same text; the worker reports no state, and stops.
    pub fn setup_failure_report(&mut self, step: SubscriberSetupStep, error: &str) -> (r: (
        Result<(), String>,
        Vec<SubscriberEvent>,
    ))
        requires
            old(self).phase == WorkerPhase::Starting,
        ensures
            r.0 matches Err(m) && m@ == subscriber_setup_text(
                step,
                old(self).endpoint@,
                old(self).filter@,
                error@,
            ),
            r.1@.len() == 1,
            is_sub_log_event(
                r.1@[0],
                LogLevel::Error,
                subscriber_setup_text(step, old(self).endpoint@, old(self).filter@, error@),
            ),
            final(self).phase == WorkerPhase::Stopped,
            final(self).endpoint == old(self).endpoint,
            final(self).filter == old(self).filter,
    {
        let message = self.setup_failed(step, error);
        let mut events: Vec<SubscriberEvent> = Vec::new();
        events.push(SubscriberEvent::Log(LogEntry::error(message.clone())));
        (Err(message), events)
    }

    /// The socket is connected and subscribed: the worker runs, and reports
    /// that it runs, where it is connected and with which filter.
    pub fn connected(&mut self) -> (r: Vec<SubscriberEvent>)
        requires
            old(self).phase == WorkerPhase::Starting,
        ensures
            final(self).phase == WorkerPhase::Running,
            final(self).endpoint == old(self).endpoint,
            final(self).filter == old(self).filter,
            r@.len() == 2,
            r@[0] == SubscriberEvent::State(ConnectionState::Running),
            is_sub_log_event(
                r@[1],
                LogLevel::Info,
                "SUB socket connected to "@ + old(self).endpoint@ + " with filter "@
                    + filter_label(old(self).filter@),
            ),
    {
        self.phase = WorkerPhase::Running;
        let mut m = String::from_str("SUB socket connected to ");
        m.append(self.endpoint.as_str());
        m.append(" with filter ");
        let label = display_filter(self.filter.as_str());
        m.append(label.as_str());
        let mut events: Vec<SubscriberEvent> = Vec::new();
        events.push(SubscriberEvent::State(ConnectionState::Running));
        events.push(SubscriberEvent::Log(LogEntry::info(m)));
        events
    }

    /// What a running worker does with what it found on its command channel:
    /// a new filter replaces the current subscription, an empty channel lets
    /// it poll the socket, and a shutdown request or the loss of the channel
    /// stops the loop.
    pub fn on_command(&self, wake: SubscriberWake) -> (r: SubscriberStep)
        requires
            self.phase == WorkerPhase::Running,
        ensures
            match wake {
                SubscriberWake::Command(SubscriberCommand::UpdateFilter(next)) => {
                    &&& r matches SubscriberStep::Resubscribe { unsubscribe, subscribe }
                    &&& unsubscribe@ == self.filter@
                    &&& subscribe == next
                },
                SubscriberWake::Command(SubscriberCommand::Shutdown) => r is Stop,
                SubscriberWake::Empty => r is Poll,
                SubscriberWake::Disconnected => r is Stop,
            },
    {
        match wake {
            SubscriberWake::Command(SubscriberCommand::UpdateFilter(next)) => {
                SubscriberStep::Resubscribe { unsubscribe: self.filter.clone(), subscribe: next }
            },
            SubscriberWake::Command(SubscriberCommand::Shutdown) => SubscriberStep::Stop,
            SubscriberWake::Empty => SubscriberStep::Poll,
            SubscriberWake::Disconnected => SubscriberStep::Stop,
        }
    }

    /// The report on replacing the subscription with `next`: on success the
    /// worker's filter becomes `next`; on failure it keeps the old one and
    /// logs the error.
    pub fn on_resubscribed(&mut self, next: String, outcome: Result<(), String>) -> (r:
        SubscriberEvent)
        ensures
            final(self).endpoint == old(self).endpoint,
            final(self).phase == old(self).phase,
            match outcome {
                Ok(()) => {
                    &&& final(self).filter == next
                    &&& is_sub_log_event(
                        r,
                        LogLevel::Info,
                        "Subscription filter updated to "@ + filter_label(next@),
                    )
                },
                Err(e) => {
                    &&& final(self).filter == old(self).filter
                    &&& is_sub_log_event(
                        r,
                        LogLevel::Error,
                        "Failed to update filter to "@ + debug_str(next@) + ": "@ + e@,
                    )
                },
            },
    {
        match outcome {
            Ok(()) => {
                let mut m = String::from_str("Subscription filter updated to ");
                let label = display_filter(next.as_str());
                m.append(label.as_str());
                self.filter = next;
                SubscriberEvent::Log(LogEntry::info(m))
            },
            Err(e) => {
                let quoted = debug_quoted(next.as_str());
                SubscriberEvent::Log(LogEntry::error(filter_update_failure_text(quoted.as_str(), e.as_str())))
            },
        }
    }

    /// A message as the subscriber reports it: every frame rendered as text,
    /// and the topic and payload read from the rendered frames.
    pub fn received_message(&self, raw: Vec<Vec<u8>>) -> (r: ReceivedMessage)
        ensures
            r.endpoint@ == self.endpoint@,
            views(r.frames@) == rendered_frames(raw@),
            (r.topic@, r.payload@) == split_frames_spec(rendered_frames(raw@)),
            is_clock_text(r.at@),
            r.frames@.len() == raw@.len(),
            forall|i: int|
                0 <= i < raw@.len() ==> (#[trigger] r.frames@[i])@ == rendered_frame(raw@[i]@),
            raw@.len() == 0 ==> r.topic@.len() == 0 && r.payload@.len() == 0,
            raw@.len() == 1 ==> r.topic@.len() == 0 && r.payload@ == rendered_frame(raw@[0]@),
            raw@.len() >= 2 ==> r.topic@ == rendered_frame(raw@[0]@) && r.payload@ == joined(
                Seq::new((raw@.len() - 1) as nat, |i: int| rendered_frame(raw@[i + 1]@)),
                " | "@,
            ),
    {
        let mut frames: Vec<String> = Vec::new();
        let n = raw.len();
        let mut i: usize = 0;
        while i < n
            invariant
                n == raw@.len(),
                i <= n,
                frames@.len() == i,
                views(frames@) == rendered_frames(raw@.take(i as int)),
            decreases n - i,
        {
            let text = render_frame(raw[i].as_slice());
            let ghost before = frames@;
            frames.push(text);
            assert(raw@.take(i + 1) =~= raw@.take(i as int).push(raw@[i as int]));
            assert forall|j: int| 0 <= j < i + 1 implies #[trigger] views(frames@)[j]
                == rendered_frames(raw@.take(i + 1))[j] by {
                if j < i {
                    assert(views(before)[j] == rendered_frames(raw@.take(i as int))[j]);
                }
            }
            assert(views(frames@) =~= rendered_frames(raw@.take(i + 1)));
            i = i + 1;
        }
        assert(raw@.take(n as int) =~= raw@);
        let (topic, payload) = split_frames(frames.as_slice());
        proof {
            lemma_rendered_frames_complete(raw@);
            assert forall|i: int| 0 <= i < raw@.len() implies (#[trigger] frames@[i])@
                == rendered_frame(raw@[i]@) by {
                assert(views(frames@)[i] == frames@[i]@);
            }
            if raw@.len() >= 2 {
                assert(rendered_frames(raw@).drop_first() =~= Seq::new(
                    (raw@.len() - 1) as nat,
                    |i: int| rendered_frame(raw@[i + 1]@),
                ));
            }
        }
        ReceivedMessage {
            at: local_clock_text(),
            endpoint: self.endpoint.clone(),
            topic,
            payload,
            frames,
        }
    }

    /// The report on a poll, and whether to keep polling: a message is passed
    /// on, a failed read is logged, a quiet interval reports nothing, and a
    /// failed poll is logged and ends the loop.
    pub fn on_poll(&self, outcome: PollOutcome) -> (r: (Option<SubscriberEvent>, bool))
        requires
            self.phase == WorkerPhase::Running,
        ensures
            match outcome {
                PollOutcome::Received(raw) => {
                    &&& r.1
                    &&& r.0 matches Some(SubscriberEvent::Message(m))
                    &&& m.endpoint@ == self.endpoint@
                    &&& views(m.frames@) == rendered_frames(raw@)
                    &&& (m.topic@, m.payload@) == split_frames_spec(rendered_frames(raw@))
                    &&& is_clock_text(m.at@)
                    &&& m.frames@.len() == raw@.len()
                    &&& forall|i: int|
                        0 <= i < raw@.len() ==> (#[trigger] m.frames@[i])@ == rendered_frame(
                            raw@[i]@,
                        )
                    &&& raw@.len() == 0 ==> m.topic@.len() == 0 && m.payload@.len() == 0
                    &&& raw@.len() == 1 ==> m.topic@.len() == 0 && m.payload@ == rendered_frame(
                        raw@[0]@,
                    )
                    &&& raw@.len() >= 2 ==> m.topic@ == rendered_frame(raw@[0]@) && m.payload@
                        == joined(
                        Seq::new((raw@.len() - 1) as nat, |i: int| rendered_frame(raw@[i + 1]@)),
                        " | "@,
                    )
                },
                PollOutcome::ReceiveFailed(e) => {
                    &&& r.1
                    &&& r.0 matches Some(ev)
                    &&& is_sub_log_event(
                        ev,
                        LogLevel::Error,
                        "Receive failed on "@ + self.endpoint@ + ": "@ + e@,
                    )
                },
                PollOutcome::Quiet => r.1 && r.0 is None,
                PollOutcome::PollFailed(e) => {
                    &&& !r.1
                    &&& r.0 matches Some(ev)
                    &&& is_sub_log_event(
                        ev,
                        LogLevel::Error,
                        "Polling failed on "@ + self.endpoint@ + ": "@ + e@,
                    )
                },
            },
    {
        match outcome {
            PollOutcome::Received(raw) => {
                let message = self.received_message(raw);
                (Some(SubscriberEvent::Message(message)), true)
            },
            PollOutcome::ReceiveFailed(e) => {
                let mut m = String::from_str("Receive failed on ");
                m.append(self.endpoint.as_str());
                m.append(": ");
                m.append(e.as_str());
                (Some(SubscriberEvent::Log(LogEntry::error(m))), true)
            },
            PollOutcome::Quiet => (None, true),
            PollOutcome::PollFailed(e) => {
                let mut m = String::from_str("Polling failed on ");
                m.append(self.endpoint.as_str());
                m.append(": ");
                m.append(e.as_str());
                (Some(SubscriberEvent::Log(LogEntry::error(m))), false)
            },
        }
    }

    /// The loop has ended: the worker stops, and reports that it stopped.
    pub fn finish(&mut self) -> (r: Vec<SubscriberEvent>)
        requires
            old(self).phase == WorkerPhase::Running,
        ensures
            final(self).phase == WorkerPhase::Stopped,
            final(self).endpoint == old(self).endpoint,
            final(self).filter == old(self).filter,
            r@.len() == 2,
            is_sub_log_event(
                r@[0],
                LogLevel::Info,
                "SUB socket for "@ + old(self).endpoint@ + " stopped"@,
            ),
            r@[1] == SubscriberEvent::State(ConnectionState::Stopped),
    {
        self.phase = WorkerPhase::Stopped;
        let mut m = String::from_str("SUB socket for ");
        m.append(self.endpoint.as_str());
        m.append(" stopped");
        let mut events: Vec<SubscriberEvent> = Vec::new();
        events.push(SubscriberEvent::Log(LogEntry::info(m)));
        events.push(SubscriberEvent::State(ConnectionState::Stopped));
        events
    }
}

/// How a command reached a worker's channel.
#[derive(Clone, Copy, Debug, PartialEq, Eq, Structural)]
pub enum Delivery {
    /// There is no worker to send to.
    NoWorker,
    /// The command is on the channel.
    Delivered,
    /// The worker has gone and dropped its end of the channel.
    WorkerGone,
}

/// What `PublisherHandle::publish` answers for each way the command went.
pub open spec fn publish_answer(d: Delivery) -> Result<(), Seq<char>> {
    match d {
        Delivery::NoWorker => Err("The publisher is not running."@),
        Delivery::Delivered => Ok(()),
        Delivery::WorkerGone => Err("The publisher worker is no longer available."@),
    }
}

/// What `SubscriberHandle::update_filter` answers for each way the command went.
pub open spec fn update_filter_answer(d: Delivery) -> Result<(), Seq<char>> {
    match d {
        Delivery::NoWorker => Err("The subscriber is not running."@),
        Delivery::Delivered => Ok(()),
        Delivery::WorkerGone => Err("The subscriber worker is no longer available."@),
    }
}

/// The view of a result whose error is a `String`.
pub open spec fn result_view(r: Result<(), String>) -> Result<(), Seq<char>> {
    match r {
        Ok(()) => Ok(()),
        Err(e) => Err(e@),
    }
}

/// The answer of a publish request, given how the command went.
pub fn publish_result(d: Delivery) -> (r: Result<(), String>)
    ensures
        result_view(r) == publish_answer(d),
{
    match d {
        Delivery::NoWorker => Err(String::from_str("The publisher is not running.")),
        Delivery::Delivered => Ok(()),
        Delivery::WorkerGone => Err(String::from_str("The publisher worker is no longer available.")),
    }
}

/// The answer of a filter update, given how the command went.
pub fn update_filter_result(d: Delivery) -> (r: Result<(), String>)
    ensures
        result_view(r) == update_filter_answer(d),
{
    match d {
        Delivery::NoWorker => Err(String::from_str("The subscriber is not running.")),
        Delivery::Delivered => Ok(()),
        Delivery::WorkerGone => Err(String::from_str("The subscriber worker is no longer available.")),
    }
}

/// What a starting worker signalled within the startup timeout.
pub enum ReadySignal {
    /// The socket is set up.
    Ready,
    /// Setup failed with this message.
    Failed(String),
    /// Nothing arrived in time.
    TimedOut,
}

/// The outcome of starting a publisher, given its ready signal.
pub fn publisher_start_result(signal: ReadySignal) -> (r: Result<(), String>)
    ensures
        match signal {
            ReadySignal::Ready => r is Ok,
            ReadySignal::Failed(e) => r == Err::<(), String>(e),
            ReadySignal::TimedOut => result_view(r) == Err::<(), Seq<char>>(
                "Timed out while binding the PUB socket."@,
            ),
        },
{
    match signal {
        ReadySignal::Ready => Ok(()),
        ReadySignal::Failed(e) => Err(e),
        ReadySignal::TimedOut => Err(String::from_str("Timed out while binding the PUB socket.")),
    }
}

/// The outcome of starting a subscriber, given its ready signal.
pub fn subscriber_start_result(signal: ReadySignal) -> (r: Result<(), String>)
    ensures
        match signal {
            ReadySignal::Ready => r is Ok,
            ReadySignal::Failed(e) => r == Err::<(), String>(e),
            ReadySignal::TimedOut => result_view(r) == Err::<(), Seq<char>>(
                "Timed out while connecting the SUB socket."@,
            ),
        },
{
    match signal {
        ReadySignal::Ready => Ok(()),
        ReadySignal::Failed(e) => Err(e),
        ReadySignal::TimedOut => Err(String::from_str("Timed out while connecting the SUB socket.")),
    }
}

/// A publication read back by a subscriber: the frames the publisher sends
/// for `topic` and `payload`, put on the wire as UTF-8 and rendered by the
/// subscriber, split into the same topic and payload. The number of frames is
/// the frame count the publisher reports.
pub proof fn lemma_publication_round_trip(topic: Seq<char>, payload: Seq<char>)
    ensures
        split_frames_spec(
            publication_frames(topic, payload).map_values(
                |f: Seq<char>| rendered_frame(encode_utf8(f)),
            ),
        ) == (topic, payload),
        publication_frames(topic, payload).len() == if topic.len() == 0 {
            1nat
        } else {
            2nat
        },
{
    let frames = publication_frames(topic, payload);
    let wire = frames.map_values(|f: Seq<char>| rendered_frame(encode_utf8(f)));
    encode_utf8_valid_utf8(topic);
    encode_utf8_decode_utf8(topic);
    encode_utf8_valid_utf8(payload);
    encode_utf8_decode_utf8(payload);
    if topic.len() == 0 {
        assert(wire[0] == payload);
    } else {
        assert(wire[0] == topic);
        assert(wire[1] == payload);
        assert(wire.drop_first() =~= seq![payload]);
        assert(joined(seq![payload], " | "@) == payload);
    }
}

/// Rendering keeps every frame of a message, in order: one rendered frame
/// per raw frame, the `i`-th being the rendering of the `i`-th raw frame.
pub proof fn lemma_rendered_frames_complete(raw: Seq<Vec<u8>>)
    ensures
        rendered_frames(raw).len() == raw.len(),
        forall|i: int|
            0 <= i < raw.len() ==> #[trigger] rendered_frames(raw)[i] == rendered_frame(raw[i]@),
{
}

} // verus!
