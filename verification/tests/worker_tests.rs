use rust_zmq_chat::network::{
    ConnectionState, LogLevel, PublisherCommand, PublisherEvent, SubscriberCommand,
    SubscriberEvent,
};
use rust_zmq_chat::worker::{
    filter_update_failure_text, publish_result, publisher_start_result, subscribe_failure_text,
    subscriber_start_result, update_filter_result, Delivery, PollOutcome, PublisherSetupStep,
    PublisherStep, PublisherWake, PublisherWorker, ReadySignal, SubscriberSetupStep,
    SubscriberStep, SubscriberWake, SubscriberWorker, WorkerPhase,
};

fn log_of(event: &PublisherEvent) -> (LogLevel, String) {
    match event {
        PublisherEvent::Log(entry) => (entry.level, entry.message.clone()),
        _ => panic!("not a log event"),
    }
}

fn sub_log_of(event: &SubscriberEvent) -> (LogLevel, String) {
    match event {
        SubscriberEvent::Log(entry) => (entry.level, entry.message.clone()),
        _ => panic!("not a log event"),
    }
}

#[test]
fn publisher_setup_failures_name_the_step() {
    let mut w = PublisherWorker::new("tcp://x:1".to_string());
    assert_eq!(w.setup_failed(PublisherSetupStep::CreateSocket, "boom"), "Failed to create PUB socket: boom");
    assert_eq!(w.phase, WorkerPhase::Stopped);
    let mut w = PublisherWorker::new("tcp://x:1".to_string());
    assert_eq!(w.setup_failed(PublisherSetupStep::Configure, "e"), "Failed to configure PUB socket: e");
    let mut w = PublisherWorker::new("tcp://x:1".to_string());
    assert_eq!(w.setup_failed(PublisherSetupStep::Bind, "in use"), "Failed to bind PUB socket to tcp://x:1: in use");
}

#[test]
fn publisher_life_cycle() {
    let mut w = PublisherWorker::new("ipc:///tmp/a.ipc".to_string());
    let started = w.bound();
    assert_eq!(w.phase, WorkerPhase::Running);
    assert!(matches!(started[0], PublisherEvent::State(ConnectionState::Running)));
    assert_eq!(log_of(&started[1]), (LogLevel::Info, "PUB socket bound to ipc:///tmp/a.ipc".to_string()));

    match w.on_wake(PublisherWake::Command(PublisherCommand::Publish {
        topic: String::new(),
        payload: "hi".to_string(),
    })) {
        PublisherStep::Send { topic, payload, frames } => {
            assert_eq!(topic, "");
            assert_eq!(payload, "hi");
            assert_eq!(frames, vec!["hi".to_string()]);
        }
        _ => panic!("expected a send"),
    }
    match w.on_wake(PublisherWake::Command(PublisherCommand::Publish {
        topic: "demo".to_string(),
        payload: "hi".to_string(),
    })) {
        PublisherStep::Send { frames, .. } => assert_eq!(frames, vec!["demo".to_string(), "hi".to_string()]),
        _ => panic!("expected a send"),
    }
    assert!(matches!(w.on_wake(PublisherWake::Timeout), PublisherStep::Wait));
    assert!(matches!(w.on_wake(PublisherWake::Command(PublisherCommand::Shutdown)), PublisherStep::Stop));
    assert!(matches!(w.on_wake(PublisherWake::Disconnected), PublisherStep::Stop));

    match w.on_sent("demo".to_string(), "hi".to_string(), Ok(())) {
        PublisherEvent::Published(m) => {
            assert_eq!(m.frame_count, 2);
            assert_eq!(m.endpoint, "ipc:///tmp/a.ipc");
            assert_eq!(m.topic, "demo");
            assert_eq!(m.payload, "hi");
            assert_eq!(m.at.len(), 8);
        }
        _ => panic!("expected a publication"),
    }
    match w.on_sent(String::new(), "hi".to_string(), Ok(())) {
        PublisherEvent::Published(m) => assert_eq!(m.frame_count, 1),
        _ => panic!("expected a publication"),
    }
    let failed = w.on_sent("t".to_string(), "p".to_string(), Err("no route".to_string()));
    assert_eq!(log_of(&failed), (LogLevel::Error, "Publish failed on ipc:///tmp/a.ipc: no route".to_string()));

    let end = w.finish();
    assert_eq!(w.phase, WorkerPhase::Stopped);
    assert_eq!(log_of(&end[0]), (LogLevel::Info, "PUB socket for ipc:///tmp/a.ipc stopped".to_string()));
    assert!(matches!(end[1], PublisherEvent::State(ConnectionState::Stopped)));
}

#[test]
fn subscriber_setup_failures_name_the_step() {
    let mut w = SubscriberWorker::new("tcp://h:2".to_string(), "news".to_string());
    assert_eq!(w.setup_failed(SubscriberSetupStep::CreateSocket, "e"), "Failed to create SUB socket: e");
    let mut w = SubscriberWorker::new("tcp://h:2".to_string(), "news".to_string());
    assert_eq!(w.setup_failed(SubscriberSetupStep::Configure, "e"), "Failed to configure SUB socket: e");
    let mut w = SubscriberWorker::new("tcp://h:2".to_string(), "news".to_string());
    assert_eq!(w.setup_failed(SubscriberSetupStep::Connect, "e"), "Failed to connect SUB socket to tcp://h:2: e");
    let mut w = SubscriberWorker::new("tcp://h:2".to_string(), "news".to_string());
    assert_eq!(w.setup_failed(SubscriberSetupStep::Subscribe, "e"), "Failed to subscribe with filter \"news\": e");
    assert_eq!(subscribe_failure_text("\"x\"", "bad"), "Failed to subscribe with filter \"x\": bad");
    assert_eq!(filter_update_failure_text("\"x\"", "bad"), "Failed to update filter to \"x\": bad");
}

#[test]
fn subscriber_life_cycle() {
    let mut w = SubscriberWorker::new("tcp://h:2".to_string(), String::new());
    let started = w.connected();
    assert!(matches!(started[0], SubscriberEvent::State(ConnectionState::Running)));
    assert_eq!(
        sub_log_of(&started[1]),
        (LogLevel::Info, "SUB socket connected to tcp://h:2 with filter <all messages>".to_string())
    );

    match w.on_command(SubscriberWake::Command(SubscriberCommand::UpdateFilter("news".to_string()))) {
        SubscriberStep::Resubscribe { unsubscribe, subscribe } => {
            assert_eq!(unsubscribe, "");
            assert_eq!(subscribe, "news");
        }
        _ => panic!("expected a resubscription"),
    }
    assert!(matches!(w.on_command(SubscriberWake::Empty), SubscriberStep::Poll));
    assert!(matches!(w.on_command(SubscriberWake::Disconnected), SubscriberStep::Stop));
    assert!(matches!(w.on_command(SubscriberWake::Command(SubscriberCommand::Shutdown)), SubscriberStep::Stop));

    let ok = w.on_resubscribed("news".to_string(), Ok(()));
    assert_eq!(w.filter, "news");
    assert_eq!(sub_log_of(&ok), (LogLevel::Info, "Subscription filter updated to \"news\"".to_string()));
    let bad = w.on_resubscribed("sport".to_string(), Err("invalid".to_string()));
    assert_eq!(w.filter, "news");
    assert_eq!(sub_log_of(&bad), (LogLevel::Error, "Failed to update filter to \"sport\": invalid".to_string()));

    let (event, keep) = w.on_poll(PollOutcome::Received(vec![b"demo".to_vec(), b"a".to_vec(), vec![0xff]]));
    assert!(keep);
    match event {
        Some(SubscriberEvent::Message(m)) => {
            assert_eq!(m.topic, "demo");
            assert_eq!(m.payload, "a | <1 bytes: FF>");
            assert_eq!(m.frames, vec!["demo".to_string(), "a".to_string(), "<1 bytes: FF>".to_string()]);
            assert_eq!(m.endpoint, "tcp://h:2");
        }
        _ => panic!("expected a message"),
    }
    let (event, keep) = w.on_poll(PollOutcome::ReceiveFailed("eagain".to_string()));
    assert!(keep);
    assert_eq!(sub_log_of(&event.unwrap()), (LogLevel::Error, "Receive failed on tcp://h:2: eagain".to_string()));
    let (event, keep) = w.on_poll(PollOutcome::Quiet);
    assert!(keep && event.is_none());
    let (event, keep) = w.on_poll(PollOutcome::PollFailed("term".to_string()));
    assert!(!keep);
    assert_eq!(sub_log_of(&event.unwrap()), (LogLevel::Error, "Polling failed on tcp://h:2: term".to_string()));

    let end = w.finish();
    assert_eq!(sub_log_of(&end[0]), (LogLevel::Info, "SUB socket for tcp://h:2 stopped".to_string()));
    assert!(matches!(end[1], SubscriberEvent::State(ConnectionState::Stopped)));
}

#[test]
fn publication_round_trip_through_a_subscriber() {
    let mut w = SubscriberWorker::new("tcp://h:2".to_string(), String::new());
    w.connected();
    for (topic, payload) in [("", "solo"), ("demo", "héllo wörld"), ("a b", "x | y")] {
        let mut p = PublisherWorker::new("tcp://h:2".to_string());
        p.bound();
        let frames = match p.on_wake(PublisherWake::Command(PublisherCommand::Publish {
            topic: topic.to_string(),
            payload: payload.to_string(),
        })) {
            PublisherStep::Send { frames, .. } => frames,
            _ => panic!("expected a send"),
        };
        let raw: Vec<Vec<u8>> = frames.iter().map(|f| f.as_bytes().to_vec()).collect();
        match w.on_poll(PollOutcome::Received(raw)).0 {
            Some(SubscriberEvent::Message(m)) => {
                assert_eq!(m.topic, topic);
                assert_eq!(m.payload, payload);
            }
            _ => panic!("expected a message"),
        }
    }
}

#[test]
fn handle_answers() {
    assert_eq!(publish_result(Delivery::NoWorker), Err("The publisher is not running.".to_string()));
    assert_eq!(publish_result(Delivery::Delivered), Ok(()));
    assert_eq!(
        publish_result(Delivery::WorkerGone),
        Err("The publisher worker is no longer available.".to_string())
    );
    assert_eq!(update_filter_result(Delivery::NoWorker), Err("The subscriber is not running.".to_string()));
    assert_eq!(update_filter_result(Delivery::Delivered), Ok(()));
    assert_eq!(
        update_filter_result(Delivery::WorkerGone),
        Err("The subscriber worker is no longer available.".to_string())
    );
    assert_eq!(publisher_start_result(ReadySignal::Ready), Ok(()));
    assert_eq!(publisher_start_result(ReadySignal::Failed("x".to_string())), Err("x".to_string()));
    assert_eq!(
        publisher_start_result(ReadySignal::TimedOut),
        Err("Timed out while binding the PUB socket.".to_string())
    );
    assert_eq!(subscriber_start_result(ReadySignal::Ready), Ok(()));
    assert_eq!(subscriber_start_result(ReadySignal::Failed("y".to_string())), Err("y".to_string()));
    assert_eq!(
        subscriber_start_result(ReadySignal::TimedOut),
        Err("Timed out while connecting the SUB socket.".to_string())
    );
}
