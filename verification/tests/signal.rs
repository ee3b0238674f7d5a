use sigbot::clock::{timestamp, timestamp_of_millis};
use sigbot::content::{
    AttachmentPointer, Content, ContentBody, DataMessage, GroupContextV2, Metadata, Quote,
    Reaction, Sent, SyncMessage, Thread,
};
use sigbot::paths::{config_dir, threads_db_path};
use sigbot::signal::config::{
    select_task, show_link, LinkAction, LinkRequest, SignalConfig, SignalServers, Task,
};
use sigbot::signal::dispatch::{DispatchAction, DispatchEvent, DispatchStage};
use sigbot::signal::handle::{ComposeError, SignalHandle};
use sigbot::signal::incoming::{
    incoming_signal_task, IncomingAction, IncomingEnd, IncomingEvent, IncomingStage, Received,
};
use sigbot::signal::outgoing::{
    outgoing_signal_task, outgoing_signal_task_at, OutgoingAction, OutgoingEnd, OutgoingEvent,
    OutgoingStage,
};
use sigbot::signal::{ManagerReply, ManagerRequest, SignalMsg};

const CONTACT: Thread = Thread::Contact([5; 16]);
const GROUP: Thread = Thread::Group([6; 32]);

fn content(timestamp: u64, body: ContentBody) -> Content {
    Content {
        metadata: Metadata { sender: "alice".to_string(), timestamp, details: String::new() },
        thread: Some(CONTACT),
        body,
    }
}

fn text(body: &str, timestamp: Option<u64>) -> DataMessage {
    let mut message = DataMessage::default();
    message.body = Some(body.to_string());
    message.timestamp = timestamp;
    message
}

fn pointer() -> AttachmentPointer {
    AttachmentPointer {
        content_type: Some("audio/aac".to_string()),
        file_name: None,
        encoded: vec![4, 5, 6],
    }
}

fn handle() -> SignalHandle {
    let running = SignalConfig::<u8>::in_dir("/tmp".to_string(), "x").run(0);
    SignalHandle::new(running.signal.out_chan_tx)
}

fn sent(order: SignalMsg) -> (Thread, DataMessage) {
    match order {
        SignalMsg::Send(thread, ContentBody::DataMessage(message)) => (thread, message),
        other => panic!("not a message: {:?}", other),
    }
}

#[test]
fn millis_are_cut_to_sixty_four_bits() {
    assert_eq!(timestamp_of_millis(0), 0);
    assert_eq!(timestamp_of_millis(1_700_000_000_123), 1_700_000_000_123);
    assert_eq!(timestamp_of_millis(u64::MAX as u128), u64::MAX);
    assert_eq!(timestamp_of_millis(u64::MAX as u128 + 1), 0);
    assert_eq!(timestamp_of_millis(3 * (u64::MAX as u128 + 1) + 17), 17);
}

#[test]
fn the_clock_is_the_system_clock() {
    let millis = || {
        std::time::SystemTime::now()
            .duration_since(std::time::UNIX_EPOCH)
            .unwrap()
            .as_millis() as u64
    };
    let before = millis();
    let now = timestamp().unwrap();
    let after = millis();
    assert!(before <= now && now <= after);
}

#[test]
fn a_text_is_sent_to_its_thread() {
    let (thread, message) = sent(handle().send_at(&GROUP, "hello", 77));
    assert_eq!(thread, GROUP);
    assert_eq!(message, text("hello", Some(77)));
    let before = timestamp().unwrap();
    let (thread, message) = sent(handle().send(&CONTACT, "now").unwrap());
    assert_eq!(thread, CONTACT);
    let sent_at = message.timestamp.unwrap();
    assert!(before <= sent_at && sent_at <= timestamp().unwrap());
    assert_eq!(message.body, Some("now".to_string()));
}

#[test]
fn a_reaction_refers_to_the_message() {
    let message = content(1000, ContentBody::DataMessage(text("x", Some(999))));
    let (thread, reaction) = sent(handle().react_at(&message, "👍", 5).unwrap());
    let mut expected = DataMessage::default();
    expected.timestamp = Some(5);
    expected.reaction = Some(Reaction {
        emoji: Some("👍".to_string()),
        target_author_aci: Some("alice".to_string()),
        target_sent_timestamp: Some(999),
        rest: vec![],
    });
    assert_eq!(thread, CONTACT);
    assert_eq!(reaction, expected);
    let before = timestamp().unwrap();
    let (_, mut reaction) = sent(handle().react(&message, "👍").unwrap());
    let sent_at = reaction.timestamp.unwrap();
    assert!(before <= sent_at && sent_at <= timestamp().unwrap());
    reaction.timestamp = Some(5);
    assert_eq!(reaction, expected);
}

#[test]
fn a_reaction_to_an_own_message_without_a_timestamp() {
    let report = content(
        1000,
        ContentBody::SynchronizeMessage(SyncMessage {
            sent: Some(Sent { message: Some(text("x", None)), rest: vec![] }),
            padding: None,
            rest: vec![],
        }),
    );
    let (_, reaction) = sent(handle().react(&report, "🦻").unwrap());
    assert_eq!(reaction.reaction.unwrap().target_sent_timestamp, Some(0));
}

#[test]
fn there_is_nothing_to_react_to_in_other_content() {
    let other = content(1000, ContentBody::Other(vec![8]));
    assert_eq!(other.datamessage(), None);
    for order in [handle().react(&other, "👍"), handle().react_at(&other, "👍", 1)] {
        assert_eq!(order.err(), Some(ComposeError::NoDataMessage));
    }
}

#[test]
fn a_quote_refers_to_the_message() {
    let mut message = content(1000, ContentBody::DataMessage(text("x", Some(999))));
    message.thread = Some(GROUP);
    let (thread, answer) = sent(handle().quote_at(&message, "pong", 5));
    let mut expected = text("pong", Some(5));
    expected.quote = Some(Quote {
        id: Some(1000),
        author_aci: Some("alice".to_string()),
        rest: vec![],
    });
    assert_eq!(thread, GROUP);
    assert_eq!(answer, expected);
    let before = timestamp().unwrap();
    let (_, mut answer) = sent(handle().quote(&message, "pong").unwrap());
    let sent_at = answer.timestamp.unwrap();
    assert!(before <= sent_at && sent_at <= timestamp().unwrap());
    answer.timestamp = Some(5);
    assert_eq!(answer, expected);
}

#[test]
fn an_attachment_is_asked_for_and_delivered() {
    let (order, answer) = handle().get_attachment(&pointer());
    let (stage, action) =
        outgoing_signal_task(OutgoingStage::Waiting, OutgoingEvent::Ordered(Some(order)));
    match action {
        OutgoingAction::Fetch(asked) => assert_eq!(asked, pointer()),
        other => panic!("{:?}", other),
    }
    let (stage, action) = outgoing_signal_task(stage, OutgoingEvent::Fetched(Some(vec![1, 2])));
    match action {
        OutgoingAction::Reply(reply_to, reply) => reply_to.send(reply).unwrap(),
        other => panic!("{:?}", other),
    }
    assert_eq!(answer.recv().unwrap().into_attachment(), vec![1, 2]);
    let (stage, action) = outgoing_signal_task(stage, OutgoingEvent::Replied(true));
    assert!(matches!(stage, OutgoingStage::Waiting));
    assert!(matches!(action, OutgoingAction::Receive));
}

#[test]
fn an_attachment_that_cannot_be_fetched_closes_the_way_back() {
    let (order, answer) = handle().manager_request(ManagerRequest::GetAttachment(pointer()));
    let (stage, _) =
        outgoing_signal_task(OutgoingStage::Waiting, OutgoingEvent::Ordered(Some(order)));
    let (stage, action) = outgoing_signal_task(stage, OutgoingEvent::Fetched(None));
    assert!(matches!(stage, OutgoingStage::Waiting));
    assert!(matches!(action, OutgoingAction::Receive));
    assert!(answer.recv().is_err());
}

#[test]
fn an_answer_that_is_not_taken_ends_the_task() {
    let (stage, action) =
        outgoing_signal_task(OutgoingStage::Replying, OutgoingEvent::Replied(false));
    assert!(matches!(stage, OutgoingStage::Ended));
    assert!(matches!(action, OutgoingAction::End(OutgoingEnd::ReplyNotTaken)));
    let (_, action) = outgoing_signal_task(OutgoingStage::Waiting, OutgoingEvent::Ordered(None));
    assert!(matches!(action, OutgoingAction::End(OutgoingEnd::NoMoreOrders)));
    let (_, action) = outgoing_signal_task(OutgoingStage::Waiting, OutgoingEvent::Worked);
    assert!(matches!(action, OutgoingAction::End(OutgoingEnd::OutOfTurn)));
}

#[test]
fn contacts_get_messages_unchanged() {
    let order = handle().send_at(&CONTACT, "hi", 3);
    let (stage, action) = outgoing_signal_task_at(
        OutgoingStage::Waiting,
        OutgoingEvent::Ordered(Some(order)),
        Some(77),
    );
    match action {
        OutgoingAction::SendToContact(uuid, ContentBody::DataMessage(message), now) => {
            assert_eq!(uuid, [5; 16]);
            assert_eq!(message, text("hi", Some(3)));
            assert_eq!(now, 77);
        }
        other => panic!("{:?}", other),
    }
    let (stage, action) = outgoing_signal_task(stage, OutgoingEvent::Worked);
    assert!(matches!(stage, OutgoingStage::Waiting));
    assert!(matches!(action, OutgoingAction::Receive));
}

#[test]
fn groups_get_messages_with_their_mark() {
    let order = handle().send_at(&GROUP, "hi", 3);
    let (_, action) = outgoing_signal_task_at(
        OutgoingStage::Waiting,
        OutgoingEvent::Ordered(Some(order)),
        Some(78),
    );
    let mut expected = text("hi", Some(3));
    expected.group_v2 =
        Some(GroupContextV2 { master_key: Some(vec![6; 32]), revision: Some(2), rest: vec![] });
    match action {
        OutgoingAction::SendToGroup(master_key, message, now) => {
            assert_eq!(master_key, [6; 32]);
            assert_eq!(message, expected);
            assert_eq!(now, 78);
        }
        other => panic!("{:?}", other),
    }
}

#[test]
fn only_messages_go_to_groups() {
    let order = handle().send_message(GROUP, ContentBody::Other(vec![8]));
    let (_, action) =
        outgoing_signal_task(OutgoingStage::Waiting, OutgoingEvent::Ordered(Some(order)));
    assert!(matches!(action, OutgoingAction::Refuse));
    let order = handle().send_message(CONTACT, ContentBody::Other(vec![8]));
    let (_, action) =
        outgoing_signal_task(OutgoingStage::Waiting, OutgoingEvent::Ordered(Some(order)));
    match action {
        OutgoingAction::SendToContact(_, ContentBody::Other(encoded), _) => {
            assert_eq!(encoded, vec![8])
        }
        other => panic!("{:?}", other),
    }
}

#[test]
fn messages_are_sent_with_the_time_of_sending() {
    for thread in [CONTACT, GROUP] {
        let before = timestamp().unwrap();
        let order = handle().send_at(&thread, "hi", 3);
        let (_, action) =
            outgoing_signal_task(OutgoingStage::Waiting, OutgoingEvent::Ordered(Some(order)));
        let now = match action {
            OutgoingAction::SendToContact(_, _, now) => now,
            OutgoingAction::SendToGroup(_, _, now) => now,
            other => panic!("{:?}", other),
        };
        assert!(before <= now && now <= timestamp().unwrap());
    }
}

#[test]
fn nothing_is_sent_by_a_clock_before_the_epoch() {
    for thread in [CONTACT, GROUP] {
        let order = handle().send_at(&thread, "hi", 3);
        let (stage, action) = outgoing_signal_task_at(
            OutgoingStage::Waiting,
            OutgoingEvent::Ordered(Some(order)),
            None,
        );
        assert!(matches!(stage, OutgoingStage::Ended));
        assert!(matches!(action, OutgoingAction::End(OutgoingEnd::ClockBeforeEpoch)));
    }
    let order = handle().send_message(GROUP, ContentBody::Other(vec![8]));
    let (_, action) = outgoing_signal_task_at(
        OutgoingStage::Waiting,
        OutgoingEvent::Ordered(Some(order)),
        None,
    );
    assert!(matches!(action, OutgoingAction::Refuse));
}

#[test]
fn what_is_no_order_is_ignored() {
    for msg in [
        SignalMsg::Received(content(0, ContentBody::Other(vec![8]))),
        SignalMsg::Error("x".to_string()),
    ] {
        let (stage, action) = outgoing_signal_task(
            OutgoingStage::Waiting,
            OutgoingEvent::Ordered(Some(msg.clone())),
        );
        assert!(matches!(stage, OutgoingStage::Working));
        match (msg, action) {
            (SignalMsg::Received(a), OutgoingAction::Ignore(SignalMsg::Received(b))) => {
                assert_eq!(a, b)
            }
            (SignalMsg::Error(a), OutgoingAction::Ignore(SignalMsg::Error(b))) => {
                assert_eq!(a, b)
            }
            other => panic!("{:?}", other),
        }
    }
}

#[test]
fn fresh_messages_are_handed_on_in_order() {
    let replay = 100;
    let mut stage = IncomingStage::Opening;
    let mut forwarded = Vec::new();
    let mut events = vec![IncomingEvent::Opened(true)];
    for timestamp in [99, 100, 7, 101] {
        events.push(IncomingEvent::Next(Some(Received::QueueEmpty)));
        events.push(IncomingEvent::Next(Some(Received::Content(content(
            timestamp,
            ContentBody::Other(vec![8]),
        )))));
        if timestamp >= replay {
            events.push(IncomingEvent::Forwarded(true));
        }
        events.push(IncomingEvent::Next(Some(Received::Contacts)));
        events.push(IncomingEvent::Next(None));
        events.push(IncomingEvent::Opened(true));
    }
    for event in events {
        let (next, action) = incoming_signal_task(replay, stage, event);
        stage = next;
        match action {
            IncomingAction::Forward(SignalMsg::Received(content)) => {
                forwarded.push(content.metadata.timestamp)
            }
            IncomingAction::Next | IncomingAction::Open => {}
            other => panic!("{:?}", other),
        }
    }
    assert_eq!(stage, IncomingStage::Reading);
    assert_eq!(forwarded, vec![100, 101]);
}

#[test]
fn a_stream_that_cannot_be_opened_is_reported() {
    for (taken, end) in [(true, IncomingEnd::NotOpened), (false, IncomingEnd::NotReported)] {
        let (stage, action) =
            incoming_signal_task(0, IncomingStage::Opening, IncomingEvent::Opened(false));
        match action {
            IncomingAction::Forward(SignalMsg::Error(reason)) => {
                assert_eq!(reason, "failed to initialize messages stream")
            }
            other => panic!("{:?}", other),
        }
        let (stage, action) = incoming_signal_task(0, stage, IncomingEvent::Forwarded(taken));
        assert_eq!(stage, IncomingStage::Ended);
        assert!(matches!(action, IncomingAction::End(reason) if reason == end));
    }
}

#[test]
fn nobody_wants_messages_any_more() {
    let (stage, action) =
        incoming_signal_task(0, IncomingStage::Forwarding, IncomingEvent::Forwarded(false));
    assert_eq!(stage, IncomingStage::Ended);
    assert!(matches!(action, IncomingAction::End(IncomingEnd::NotWanted)));
    let (_, action) = incoming_signal_task(0, stage, IncomingEvent::Opened(true));
    assert!(matches!(action, IncomingAction::End(IncomingEnd::OutOfTurn)));
}

#[test]
fn every_handler_gets_every_message() {
    let config = SignalConfig::in_dir("/tmp".to_string(), "x")
        .register_handler("first")
        .register_handler("second")
        .register_handler("third");
    assert_eq!(config.handlers, vec!["first", "second", "third"]);
    let signal = config.run(0).signal;
    let mut stage = DispatchStage::Waiting;
    for timestamp in [1, 2] {
        let arrived = content(timestamp, ContentBody::Other(vec![8]));
        let mut event = DispatchEvent::Arrived(Some(SignalMsg::Received(arrived.clone())));
        for at in 0..3 {
            let (next, action) = signal.run(stage, event);
            assert_eq!(action, DispatchAction::Handle(at));
            assert_eq!(next, DispatchStage::Delivering { content: arrived.clone(), at });
            stage = next;
            event = DispatchEvent::Handled;
        }
        let (next, action) = signal.run(stage, event);
        assert_eq!(action, DispatchAction::Receive);
        assert_eq!(next, DispatchStage::Waiting);
        stage = next;
    }
}

#[test]
fn what_is_no_message_reaches_no_handler() {
    let config = SignalConfig::in_dir("/tmp".to_string(), "x").register_handler(1u8);
    let signal = config.run(0).signal;
    let (order, _answer) = handle().get_attachment(&pointer());
    let mut stage = DispatchStage::Waiting;
    for msg in [order, SignalMsg::Send(GROUP, ContentBody::Other(vec![8]))] {
        let (next, action) = signal.run(stage, DispatchEvent::Arrived(Some(msg)));
        assert_eq!((&next, action), (&DispatchStage::Waiting, DispatchAction::Receive));
        stage = next;
    }
    let arrived = SignalMsg::Received(content(1, ContentBody::Other(vec![8])));
    let (stage, action) = signal.run(stage, DispatchEvent::Arrived(Some(arrived)));
    assert_eq!(action, DispatchAction::Handle(0));
    let (stage, action) = signal.run(stage, DispatchEvent::Handled);
    assert_eq!(action, DispatchAction::Receive);
    let (_, action) = signal.run(stage, DispatchEvent::Arrived(None));
    assert_eq!(action, DispatchAction::Closed);
}

#[test]
fn dispatching_ends_on_failure_and_on_closing() {
    let signal = SignalConfig::<u8>::in_dir("/tmp".to_string(), "x").run(0).signal;
    let arrived = |msg| DispatchEvent::Arrived(msg);
    let (stage, action) = signal.run(
        DispatchStage::Waiting,
        arrived(Some(SignalMsg::Received(content(1, ContentBody::Other(vec![8]))))),
    );
    assert_eq!((stage, action), (DispatchStage::Waiting, DispatchAction::Receive));
    let (stage, action) = signal.run(
        DispatchStage::Waiting,
        arrived(Some(SignalMsg::Send(CONTACT, ContentBody::Other(vec![8])))),
    );
    assert_eq!((stage, action), (DispatchStage::Waiting, DispatchAction::Receive));
    let (stage, action) =
        signal.run(DispatchStage::Waiting, arrived(Some(SignalMsg::Error("gone".to_string()))));
    assert_eq!(
        (stage, action),
        (DispatchStage::Ended, DispatchAction::Failed("gone".to_string()))
    );
    let (stage, action) = signal.run(DispatchStage::Waiting, arrived(None));
    assert_eq!((stage, action), (DispatchStage::Ended, DispatchAction::Closed));
    let (stage, action) = signal.run(DispatchStage::Waiting, DispatchEvent::Handled);
    assert_eq!((stage, action), (DispatchStage::Ended, DispatchAction::OutOfTurn));
}

#[test]
fn files_are_below_the_home_directory() {
    assert_eq!(config_dir(), shellexpand::tilde("~/.config/sigbot").into_owned());
    assert_eq!(
        threads_db_path(),
        shellexpand::tilde("~/.config/sigbot/tester/threads.db").into_owned()
    );
    assert!(config_dir().ends_with("/.config/sigbot"));
}

#[test]
fn the_data_of_a_device_is_below_the_base() {
    let path = |base: &str, name: &str| {
        SignalConfig::<u8>::in_dir(base.to_string(), name).db_path
    };
    if std::path::MAIN_SEPARATOR == '/' {
        assert_eq!(path("/home/a/.config/sigbot", "tester"), "/home/a/.config/sigbot/tester");
        assert_eq!(path("/data/", "tester"), "/data/tester");
        assert_eq!(path("", "tester"), "tester");
        assert_eq!(path("/data", "/elsewhere"), "/elsewhere");
        assert_eq!(path("/data", ""), "/data/");
        assert_eq!(path("/data", "a/b"), "/data/a/b");
    }
}

#[test]
fn a_new_device() {
    let config = SignalConfig::<u8>::new("tester");
    assert_eq!(config.device_name, "tester");
    assert_eq!(config.base_dir, config_dir());
    assert_eq!(config.separator, std::path::MAIN_SEPARATOR);
    if config.separator == '/' {
        assert_eq!(config.db_path, format!("{}/tester", config_dir()));
    }
    assert_eq!(config.servers, SignalServers::Production);
    assert!(config.handlers.is_empty());
    assert_eq!(
        config.link(),
        LinkRequest {
            db_path: config.db_path.clone(),
            servers: SignalServers::Production,
            device_name: "tester".to_string(),
        }
    );
}

#[test]
fn the_channels_connect_both_sides() {
    let running =
        SignalConfig::in_dir("/tmp".to_string(), "x").register_handler(9u8).run(12345);
    assert_eq!(running.replay_timestamp, 12345);
    assert_eq!(running.db_path, "/tmp/x");
    assert_eq!(running.signal.handlers, vec![9u8]);
    assert_eq!(running.in_chan_tx.capacity(), Some(1024));
    assert_eq!(running.out_chan_rx.capacity(), Some(1024));
    running.in_chan_tx.send(SignalMsg::Error("in".to_string())).unwrap();
    running.signal.out_chan_tx.send(SignalMsg::Error("out".to_string())).unwrap();
    assert!(matches!(running.signal.in_chan_rx.try_recv(), Ok(SignalMsg::Error(s)) if s == "in"));
    assert!(matches!(running.out_chan_rx.try_recv(), Ok(SignalMsg::Error(s)) if s == "out"));
}

#[test]
fn linking() {
    assert_eq!(
        show_link(Ok("sgnl://linkdevice".to_string())),
        LinkAction::ShowCode("sgnl://linkdevice".to_string())
    );
    assert_eq!(
        show_link(Err("canceled".to_string())),
        LinkAction::LogError("Error linking device: canceled".to_string())
    );
}

#[test]
fn subcommands() {
    assert_eq!(select_task(Some("run")), Some(Task::Run));
    assert_eq!(select_task(Some("link")), Some(Task::Link));
    assert_eq!(select_task(Some("ru")), None);
    assert_eq!(select_task(None), None);
}

#[test]
fn requests_in_flight_do_not_get_each_others_answers() {
    let handle = handle();
    let mut second = pointer();
    second.encoded = vec![9];
    let (first_order, first_answer) = handle.get_attachment(&pointer());
    let (second_order, second_answer) = handle.get_attachment(&second);
    let mut stage = OutgoingStage::Waiting;
    for (order, data) in [(second_order, vec![2, 2]), (first_order, vec![1])] {
        let (next, _) = outgoing_signal_task(stage, OutgoingEvent::Ordered(Some(order)));
        let (next, action) = outgoing_signal_task(next, OutgoingEvent::Fetched(Some(data)));
        match action {
            OutgoingAction::Reply(reply_to, reply) => reply_to.send(reply).unwrap(),
            other => panic!("{:?}", other),
        }
        let (next, action) = outgoing_signal_task(next, OutgoingEvent::Replied(true));
        assert!(matches!(action, OutgoingAction::Receive));
        stage = next;
    }
    assert_eq!(first_answer.recv().unwrap().into_attachment(), vec![1]);
    assert_eq!(second_answer.recv().unwrap().into_attachment(), vec![2, 2]);
    assert!(first_answer.recv().is_err());
    assert!(second_answer.recv().is_err());
}

#[test]
fn messages_between_the_sides_can_be_copied() {
    let (order, answer) = handle().manager_request(ManagerRequest::GetAttachment(pointer()));
    match (order.clone(), order) {
        (SignalMsg::ManagerRequest(a, copied), SignalMsg::ManagerRequest(b, reply_to)) => {
            let (ManagerRequest::GetAttachment(a), ManagerRequest::GetAttachment(b)) = (a, b);
            assert_eq!(a, b);
            assert!(copied.same_channel(&reply_to));
            let reply = ManagerReply::Attachment(vec![1, 2, 3]);
            copied.send(reply.clone()).unwrap();
            assert_eq!(answer.recv().unwrap(), reply);
        }
        other => panic!("{:?}", other),
    }
    let order = handle().send_at(&GROUP, "twice", 4);
    assert_eq!(sent(order.clone()), sent(order));
    let request = ManagerRequest::GetAttachment(pointer());
    let ManagerRequest::GetAttachment(copied) = request.clone();
    assert_eq!(copied, pointer());
}

#[test]
fn what_goes_wrong_is_told_in_words() {
    assert_eq!(ComposeError::NoDataMessage.message(), "extracting datamessage for react()");
    assert_eq!(ComposeError::ClockBeforeEpoch.message(), "Time went backwards");
}

#[test]
fn a_reply_brings_its_attachment() {
    assert_eq!(ManagerReply::Attachment(vec![8]).into_attachment(), vec![8]);
}
