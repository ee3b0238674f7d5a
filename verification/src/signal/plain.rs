//! What goes between the network and the handlers, said of the messages themselves: each law here
//! speaks of what a call is given and what it gives back.
use crate::clock::clock_reads;
use crate::content::{AttachmentPointer, Content, ContentBody, DataMessage, Thread};
use crate::signal::config::{select_task, SignalConfig, Running, Task};
use crate::signal::dispatch::{DispatchAction, DispatchEvent, DispatchStage, Signal};
use crate::signal::handle::{ComposeError, SignalHandle};
use crate::signal::incoming::{
    incoming_signal_task, IncomingAction, IncomingEnd, IncomingEvent, IncomingStage, Received,
};
use crate::signal::outgoing::{
    outgoing_signal_task, outgoing_signal_task_at, OutgoingAction, OutgoingEnd, OutgoingEvent,
    OutgoingStage,
};
use crate::signal::{connected, queue_limit, ManagerReply, ManagerRequest, SignalMsg};
use vstd::prelude::*;

verus! {

/// A text is sent to the conversation that it is meant for, as it was written and with the time at
/// which it was written. Nothing else is set in the message.
pub proof fn law_a_text_is_sent_as_it_is(
    handle: SignalHandle,
    thread: Thread,
    body: &str,
    now: u64,
    order: SignalMsg,
)
    requires
        call_ensures(SignalHandle::send_at, (&handle, &thread, body, now), order),
    ensures
        order matches SignalMsg::Send(to, ContentBody::DataMessage(message)) && to == thread
            && message.body is Some && message.body->0@ == body@ && message.timestamp == Some(now)
            && message.quote is None && message.reaction is None && message.group_v2 is None
            && message.profile_key is None && message.attachments@.len() == 0 && message.rest@.len()
            == 0,
{
    let message = order->Send_1->DataMessage_0;
    assert(message@.attachments.len() == message.attachments@.len());
}

/// An emoji is put on the message that is answered: on the one with its author and with the
/// timestamp that its author gave it, whether it came in or was written on another device, and in
/// its own conversation. Nothing else is set in the message that says so. Where nobody wrote
/// anything, there is nothing to put it on.
pub proof fn law_an_emoji_is_put_on_the_message(
    handle: SignalHandle,
    content: Content,
    emoji: &str,
    now: u64,
    order: Result<SignalMsg, ComposeError>,
)
    requires
        content.thread is Some,
        call_ensures(SignalHandle::react_at, (&handle, &content, emoji, now), order),
    ensures
        match content.body {
            ContentBody::DataMessage(_) => order is Ok,
            ContentBody::SynchronizeMessage(sync) => order is Ok <==> sync.sent is Some
                && sync.sent->0.message is Some,
            ContentBody::Other(_) => order is Err,
        },
        order matches Err(error) ==> error == ComposeError::NoDataMessage,
        order matches Ok(sent) ==> (sent matches SignalMsg::Send(
            to,
            ContentBody::DataMessage(message),
        ) && to == content.thread->0 && message.timestamp == Some(now) && message.body is None
            && message.quote is None && message.group_v2 is None && message.profile_key is None
            && message.attachments@.len() == 0 && message.rest@.len() == 0 && message.reaction
            is Some && message.reaction->0.rest@.len() == 0 && message.reaction->0.emoji is Some
            && message.reaction->0.emoji->0@ == emoji@
            && message.reaction->0.target_author_aci is Some
            && message.reaction->0.target_author_aci->0@ == content.metadata.sender@ && {
            &&& content.body matches ContentBody::DataMessage(target)
                ==> message.reaction->0.target_sent_timestamp == Some(
                match target.timestamp {
                    Some(stamp) => stamp,
                    None => 0u64,
                },
            )
            &&& content.body matches ContentBody::SynchronizeMessage(sync)
                ==> message.reaction->0.target_sent_timestamp == Some(
                match sync.sent->0.message->0.timestamp {
                    Some(stamp) => stamp,
                    None => 0u64,
                },
            )
        }),
{
    if order is Ok {
        let message = order->Ok_0->Send_1->DataMessage_0;
        assert(message@.attachments.len() == message.attachments@.len());
    }
}

/// An answer quotes the message that it answers: the one with its sender and with the timestamp
/// that it was received with, whatever the time of the answer is, and in its own conversation, be
/// that with a contact or in a group. Nothing else is set in the answer.
pub proof fn law_an_answer_quotes_the_message(
    handle: SignalHandle,
    content: Content,
    body: &str,
    now: u64,
    order: SignalMsg,
)
    requires
        content.thread is Some,
        call_ensures(SignalHandle::quote_at, (&handle, &content, body, now), order),
    ensures
        order matches SignalMsg::Send(to, ContentBody::DataMessage(message)) && to
            == content.thread->0 && message.body is Some && message.body->0@ == body@
            && message.timestamp == Some(now) && message.reaction is None && message.group_v2
            is None && message.profile_key is None && message.attachments@.len() == 0
            && message.rest@.len() == 0 && message.quote is Some && message.quote->0.rest@.len()
            == 0 && message.quote->0.id == Some(content.metadata.timestamp)
            && message.quote->0.author_aci is Some && message.quote->0.author_aci->0@
            == content.metadata.sender@,
{
    let message = order->Send_1->DataMessage_0;
    assert(message@.attachments.len() == message.attachments@.len());
}

/// What a quote refers to does not depend on when the answer is written or on what it says.
pub proof fn law_what_is_quoted_depends_on_the_message_alone(
    handle: SignalHandle,
    content: Content,
    a: &str,
    b: &str,
    now_a: u64,
    now_b: u64,
    order_a: SignalMsg,
    order_b: SignalMsg,
)
    requires
        content.thread is Some,
        call_ensures(SignalHandle::quote_at, (&handle, &content, a, now_a), order_a),
        call_ensures(SignalHandle::quote_at, (&handle, &content, b, now_b), order_b),
    ensures
        order_a->Send_1->DataMessage_0.quote->0.id == order_b->Send_1->DataMessage_0.quote->0.id,
        order_a->Send_1->DataMessage_0.quote->0.author_aci->0@
            == order_b->Send_1->DataMessage_0.quote->0.author_aci->0@,
{
    law_an_answer_quotes_the_message(handle, content, a, now_a, order_a);
    law_an_answer_quotes_the_message(handle, content, b, now_b, order_b);
}

/// A text, an emoji and an answer that are written now are what they would be at some time that
/// the clock reads. They fail only where the clock stands before the epoch, and an emoji also
/// where there is nothing to put it on.
pub proof fn law_what_is_written_now_carries_the_time(
    handle: SignalHandle,
    thread: Thread,
    content: Content,
    text: &str,
    sent: Result<SignalMsg, ComposeError>,
    reacted: Result<SignalMsg, ComposeError>,
    quoted: Result<SignalMsg, ComposeError>,
)
    requires
        content.thread is Some,
        call_ensures(SignalHandle::send, (&handle, &thread, text), sent),
        call_ensures(SignalHandle::react, (&handle, &content, text), reacted),
        call_ensures(SignalHandle::quote, (&handle, &content, text), quoted),
    ensures
        sent matches Ok(order) ==> (order matches SignalMsg::Send(
            to,
            ContentBody::DataMessage(message),
        ) && to == thread && message.timestamp is Some && clock_reads(message.timestamp)
            && message.body is Some && message.body->0@ == text@ && message.quote is None
            && message.reaction is None),
        sent matches Err(error) ==> error == ComposeError::ClockBeforeEpoch && clock_reads(None),
        quoted matches Ok(order) ==> (order matches SignalMsg::Send(
            to,
            ContentBody::DataMessage(message),
        ) && to == content.thread->0 && message.timestamp is Some && clock_reads(
            message.timestamp,
        ) && message.body is Some && message.body->0@ == text@ && message.quote is Some
            && message.quote->0.id == Some(content.metadata.timestamp)
            && message.quote->0.author_aci is Some && message.quote->0.author_aci->0@
            == content.metadata.sender@ && message.reaction is None),
        quoted matches Err(error) ==> error == ComposeError::ClockBeforeEpoch && clock_reads(None),
        reacted matches Ok(order) ==> (order matches SignalMsg::Send(
            to,
            ContentBody::DataMessage(message),
        ) && to == content.thread->0 && message.timestamp is Some && clock_reads(
            message.timestamp,
        ) && message.body is None && message.quote is None && message.reaction is Some
            && message.reaction->0.emoji is Some && message.reaction->0.emoji->0@ == text@
            && message.reaction->0.target_author_aci is Some
            && message.reaction->0.target_author_aci->0@ == content.metadata.sender@ && {
            &&& content.body matches ContentBody::DataMessage(target)
                ==> message.reaction->0.target_sent_timestamp == Some(
                match target.timestamp {
                    Some(stamp) => stamp,
                    None => 0u64,
                },
            )
            &&& content.body matches ContentBody::SynchronizeMessage(sync)
                ==> message.reaction->0.target_sent_timestamp == Some(
                match sync.sent->0.message->0.timestamp {
                    Some(stamp) => stamp,
                    None => 0u64,
                },
            )
        }),
        reacted matches Err(error) ==> match content.body {
            ContentBody::DataMessage(_) => error == ComposeError::ClockBeforeEpoch && clock_reads(
                None,
            ),
            ContentBody::SynchronizeMessage(sync) => if sync.sent is Some
                && sync.sent->0.message is Some {
                error == ComposeError::ClockBeforeEpoch && clock_reads(None)
            } else {
                error == ComposeError::NoDataMessage
            },
            ContentBody::Other(_) => error == ComposeError::NoDataMessage,
        },
{
}

/// What a handler gives to be sent is ordered as it is, to the conversation that it is given for.
pub proof fn law_an_order_is_what_was_given(
    handle: SignalHandle,
    thread: Thread,
    body: ContentBody,
    order: SignalMsg,
)
    requires
        call_ensures(SignalHandle::send_message, (&handle, thread, body), order),
    ensures
        order matches SignalMsg::Send(to, given) && to == thread && given@ == body@,
{
}

/// A request goes out as it was made, with a way back that is connected to the place where its
/// answer is awaited, and to nothing else.
pub proof fn law_a_request_has_its_own_way_back(
    handle: SignalHandle,
    pointer: AttachmentPointer,
    request: ManagerRequest,
    asked: (SignalMsg, flume::Receiver<ManagerReply>),
    fetching: (SignalMsg, flume::Receiver<ManagerReply>),
)
    requires
        call_ensures(SignalHandle::manager_request, (&handle, request), asked),
        call_ensures(SignalHandle::get_attachment, (&handle, &pointer), fetching),
    ensures
        asked.0 matches SignalMsg::ManagerRequest(made, reply_to) && made@ == request@ && connected(
            reply_to,
            asked.1,
        ) && (forall|other: flume::Receiver<ManagerReply>| #[trigger]
            connected(reply_to, other) ==> other == asked.1) && (forall|
            other: flume::Sender<ManagerReply>,
        | #[trigger] connected(other, asked.1) ==> other == reply_to),
        fetching.0 matches SignalMsg::ManagerRequest(
            ManagerRequest::GetAttachment(wanted),
            reply_to,
        ) && wanted@ == pointer@ && wanted.encoded@ == pointer.encoded@ && connected(
            reply_to,
            fetching.1,
        ),
{
}

/// An answer gives the attachment that it brings.
pub proof fn law_an_answer_gives_its_attachment(brought: Vec<u8>, data: Vec<u8>)
    requires
        call_ensures(ManagerReply::into_attachment, (ManagerReply::Attachment(brought),), data),
    ensures
        data@ == brought@,
{
}

/// What went wrong is told in these words.
pub proof fn law_the_words_of_errors(nothing: String, clock: String)
    requires
        call_ensures(ComposeError::message, (&ComposeError::NoDataMessage,), nothing),
        call_ensures(ComposeError::message, (&ComposeError::ClockBeforeEpoch,), clock),
    ensures
        nothing@ == "extracting datamessage for react()"@,
        clock@ == "Time went backwards"@,
{
}

/// Every message that is not older than the start of the replay is handed on as it is, whatever it
/// holds, whoever sent it and wherever it belongs. Every older one is passed over.
pub proof fn law_every_fresh_message_is_handed_on(
    replay_timestamp: u64,
    content: Content,
    next: (IncomingStage, IncomingAction),
)
    requires
        call_ensures(
            incoming_signal_task,
            (
                replay_timestamp,
                IncomingStage::Reading,
                IncomingEvent::Next(Some(Received::Content(content))),
            ),
            next,
        ),
    ensures
        content.metadata.timestamp >= replay_timestamp ==> next.0 == IncomingStage::Forwarding && (
        next.1 matches IncomingAction::Forward(SignalMsg::Received(given)) && given@ == content@
            && given.metadata.timestamp == content.metadata.timestamp),
        content.metadata.timestamp < replay_timestamp ==> next.0 == IncomingStage::Reading && next.1
            is Next,
{
}

/// What the network delivers besides messages is passed over. A stream that ends is opened again.
/// Where nobody takes messages any more, the task ends. A stream that cannot be opened is reported
/// to the handlers, in these words, and ends the task.
pub proof fn law_the_stream_is_read_to_its_end(
    replay_timestamp: u64,
    stage: IncomingStage,
    event: IncomingEvent,
    next: (IncomingStage, IncomingAction),
)
    requires
        call_ensures(incoming_signal_task, (replay_timestamp, stage, event), next),
    ensures
        stage == IncomingStage::Opening && event == IncomingEvent::Opened(true) ==> next.0
            == IncomingStage::Reading && next.1 is Next,
        stage == IncomingStage::Opening && event == IncomingEvent::Opened(false) ==> next.0
            == IncomingStage::Reporting && (next.1 matches IncomingAction::Forward(
            SignalMsg::Error(reason),
        ) && reason@ == "failed to initialize messages stream"@),
        stage == IncomingStage::Reporting && event == IncomingEvent::Forwarded(true) ==> next.0
            == IncomingStage::Ended && next.1 == IncomingAction::End(IncomingEnd::NotOpened),
        stage == IncomingStage::Reporting && event == IncomingEvent::Forwarded(false) ==> next.0
            == IncomingStage::Ended && next.1 == IncomingAction::End(IncomingEnd::NotReported),
        stage == IncomingStage::Reading && (event == IncomingEvent::Next(
            Some(Received::QueueEmpty),
        ) || event == IncomingEvent::Next(Some(Received::Contacts))) ==> next.0
            == IncomingStage::Reading && next.1 is Next,
        stage == IncomingStage::Reading && event == IncomingEvent::Next(None) ==> next.0
            == IncomingStage::Opening && next.1 is Open,
        stage == IncomingStage::Forwarding && event == IncomingEvent::Forwarded(true) ==> next.0
            == IncomingStage::Reading && next.1 is Next,
        stage == IncomingStage::Forwarding && event == IncomingEvent::Forwarded(false) ==> next.0
            == IncomingStage::Ended && next.1 == IncomingAction::End(IncomingEnd::NotWanted),
        (match stage {
            IncomingStage::Opening => !(event is Opened),
            IncomingStage::Reading => !(event is Next),
            IncomingStage::Forwarding => !(event is Forwarded),
            IncomingStage::Reporting => !(event is Forwarded),
            IncomingStage::Ended => true,
        }) ==> next.0 == IncomingStage::Ended && next.1 == IncomingAction::End(
            IncomingEnd::OutOfTurn,
        ),
{
}

/// What is sent to a contact reaches that contact as it is, whatever it holds, with the time at
/// which it is sent.
pub proof fn law_contacts_get_what_is_sent(
    uuid: [u8; 16],
    body: ContentBody,
    now: u64,
    at: (OutgoingStage, OutgoingAction),
    live: (OutgoingStage, OutgoingAction),
)
    requires
        call_ensures(
            outgoing_signal_task_at,
            (
                OutgoingStage::Waiting,
                OutgoingEvent::Ordered(Some(SignalMsg::Send(Thread::Contact(uuid), body))),
                Some(now),
            ),
            at,
        ),
        call_ensures(
            outgoing_signal_task,
            (
                OutgoingStage::Waiting,
                OutgoingEvent::Ordered(Some(SignalMsg::Send(Thread::Contact(uuid), body))),
            ),
            live,
        ),
    ensures
        at.0 is Working,
        at.1 matches OutgoingAction::SendToContact(to, sent, stamp) && to == uuid && sent@ == body@
            && stamp == now,
        (live.1 matches OutgoingAction::SendToContact(to, sent, stamp) && to == uuid && sent@
            == body@ && clock_reads(Some(stamp)) && live.0 is Working) || (live.1
            == OutgoingAction::End(OutgoingEnd::ClockBeforeEpoch) && clock_reads(None)),
{
}

/// What is sent to a group reaches that group, with the time at which it is sent. It carries the
/// group's mark, the group's own key in revision two, in place of any that it had, and is
/// otherwise as it was written.
pub proof fn law_groups_get_what_is_sent(
    key: [u8; 32],
    written: DataMessage,
    now: u64,
    at: (OutgoingStage, OutgoingAction),
    live: (OutgoingStage, OutgoingAction),
)
    requires
        call_ensures(
            outgoing_signal_task_at,
            (
                OutgoingStage::Waiting,
                OutgoingEvent::Ordered(
                    Some(SignalMsg::Send(Thread::Group(key), ContentBody::DataMessage(written))),
                ),
                Some(now),
            ),
            at,
        ),
        call_ensures(
            outgoing_signal_task,
            (
                OutgoingStage::Waiting,
                OutgoingEvent::Ordered(
                    Some(SignalMsg::Send(Thread::Group(key), ContentBody::DataMessage(written))),
                ),
            ),
            live,
        ),
    ensures
        at.0 is Working,
        at.1 matches OutgoingAction::SendToGroup(to, sent, stamp) && to == key && stamp == now
            && sent.group_v2 is Some && sent.group_v2->0.master_key is Some
            && sent.group_v2->0.master_key->0@ == key@ && sent.group_v2->0.revision == Some(2u32)
            && sent.group_v2->0.rest@.len() == 0 && sent@.body == written@.body
            && sent@.attachments == written@.attachments && sent@.profile_key
            == written@.profile_key && sent.timestamp == written.timestamp && sent@.quote
            == written@.quote && sent@.reaction == written@.reaction && sent.rest@
            == written.rest@,
        (live.1 matches OutgoingAction::SendToGroup(to, sent, stamp) && to == key && clock_reads(
            Some(stamp),
        ) && sent.group_v2 is Some && sent.group_v2->0.master_key is Some
            && sent.group_v2->0.master_key->0@ == key@ && sent.group_v2->0.revision == Some(2u32)
            && sent@.body == written@.body && sent@.quote == written@.quote && sent@.reaction
            == written@.reaction && sent.timestamp == written.timestamp && live.0 is Working) || (
        live.1 == OutgoingAction::End(OutgoingEnd::ClockBeforeEpoch) && clock_reads(None)),
{
}

/// Only messages go to groups; anything else is refused, and the task goes on. What is no order is
/// ignored, and the task goes on too. A request is carried out, and its answer, with all that was
/// fetched, goes back over its own way. Without a clock nothing is sent, and the task ends, as it
/// does where there are no more orders or where an answer is not taken.
pub proof fn law_orders_are_carried_out(
    stage: OutgoingStage,
    event: OutgoingEvent,
    now: Option<u64>,
    next: (OutgoingStage, OutgoingAction),
)
    requires
        call_ensures(outgoing_signal_task_at, (stage, event, now), next),
    ensures
        stage is Waiting ==> (event matches OutgoingEvent::Ordered(Some(
            SignalMsg::Send(Thread::Group(_), body),
        )) ==> (!(body is DataMessage) ==> next.0 is Working && next.1 is Refuse)),
        stage is Waiting && now is None ==> (event matches OutgoingEvent::Ordered(Some(
            SignalMsg::Send(thread, body),
        )) ==> (thread is Contact || body is DataMessage ==> next.0 is Ended && next.1
            == OutgoingAction::End(OutgoingEnd::ClockBeforeEpoch))),
        stage is Waiting ==> (event matches OutgoingEvent::Ordered(Some(
            SignalMsg::ManagerRequest(ManagerRequest::GetAttachment(pointer), reply_to),
        )) ==> next.0 == OutgoingStage::Fetching(reply_to) && (
        next.1 matches OutgoingAction::Fetch(wanted) && wanted@ == pointer@ && wanted.encoded@
            == pointer.encoded@)),
        stage is Waiting ==> (event matches OutgoingEvent::Ordered(Some(
            SignalMsg::Received(content),
        )) ==> next.0 is Working && (next.1 matches OutgoingAction::Ignore(
            SignalMsg::Received(given),
        ) && given@ == content@)),
        stage is Waiting ==> (event matches OutgoingEvent::Ordered(Some(SignalMsg::Error(reason)))
            ==> next.0 is Working && (next.1 matches OutgoingAction::Ignore(
            SignalMsg::Error(given),
        ) && given@ == reason@)),
        stage is Waiting && event == OutgoingEvent::Ordered(None) ==> next.0 is Ended && next.1
            == OutgoingAction::End(OutgoingEnd::NoMoreOrders),
        stage is Working && event is Worked ==> next.0 is Waiting && next.1 is Receive,
        stage matches OutgoingStage::Fetching(reply_to) ==> (event matches OutgoingEvent::Fetched(
            Some(data),
        ) ==> next.0 is Replying && (next.1 matches OutgoingAction::Reply(
            to,
            ManagerReply::Attachment(given),
        ) && to == reply_to && given@ == data@)),
        stage is Fetching && event == OutgoingEvent::Fetched(None) ==> next.0 is Waiting && next.1
            is Receive,
        stage is Replying && event == OutgoingEvent::Replied(true) ==> next.0 is Waiting && next.1
            is Receive,
        stage is Replying && event == OutgoingEvent::Replied(false) ==> next.0 is Ended && next.1
            == OutgoingAction::End(OutgoingEnd::ReplyNotTaken),
        (match stage {
            OutgoingStage::Waiting => !(event is Ordered),
            OutgoingStage::Working => !(event is Worked),
            OutgoingStage::Fetching(_) => !(event is Fetched),
            OutgoingStage::Replying => !(event is Replied),
            OutgoingStage::Ended => true,
        }) ==> next.0 is Ended && next.1 == OutgoingAction::End(OutgoingEnd::OutOfTurn),
{
}

/// What the task does by itself is what it does at the time that the clock reads, and where nothing
/// is sent the clock makes no difference.
pub proof fn law_the_clock_matters_only_to_sending(
    stage: OutgoingStage,
    event: OutgoingEvent,
    now: Option<u64>,
    at: (OutgoingStage, OutgoingAction),
    live: (OutgoingStage, OutgoingAction),
)
    requires
        match event {
            OutgoingEvent::Ordered(Some(SignalMsg::Send(thread, body))) => !(thread is Contact)
                && !(body is DataMessage),
            _ => true,
        },
        call_ensures(outgoing_signal_task_at, (stage, event, now), at),
        call_ensures(outgoing_signal_task, (stage, event), live),
    ensures
        live.0 == at.0,
        live.1@ == at.1@,
{
}

/// A message that arrives goes to the first handler, and from each handler to the next, as it is
/// and whatever it holds. After the last one the next message is awaited.
pub proof fn law_handlers_get_the_message_as_it_is<H>(
    signal: Signal<H>,
    content: Content,
    at: usize,
    first: (DispatchStage, DispatchAction),
    next: (DispatchStage, DispatchAction),
)
    requires
        call_ensures(
            Signal::<H>::run,
            (
                &signal,
                DispatchStage::Waiting,
                DispatchEvent::Arrived(Some(SignalMsg::Received(content))),
            ),
            first,
        ),
        call_ensures(
            Signal::<H>::run,
            (&signal, DispatchStage::Delivering { content, at }, DispatchEvent::Handled),
            next,
        ),
    ensures
        signal.handlers@.len() > 0 ==> first.1 == DispatchAction::Handle(0) && (
        first.0 matches DispatchStage::Delivering { content: given, at: place } && given@
            == content@ && place == 0),
        signal.handlers@.len() == 0 ==> first.0 is Waiting && first.1 is Receive,
        at + 1 < signal.handlers@.len() ==> next.1 == DispatchAction::Handle((at + 1) as usize) && (
        next.0 matches DispatchStage::Delivering { content: given, at: place } && given@
            == content@ && place == at + 1),
        at + 1 >= signal.handlers@.len() ==> next.0 is Waiting && next.1 is Receive,
{
    assert(signal.handlers.len() == signal.handlers@.len());
}

/// What arrives and is no message reaches no handler. A failure of the network layer ends the
/// dispatching with its reason, and so does the closing of the channel.
pub proof fn law_what_is_no_message_reaches_no_handler<H>(
    signal: Signal<H>,
    stage: DispatchStage,
    event: DispatchEvent,
    next: (DispatchStage, DispatchAction),
)
    requires
        call_ensures(Signal::<H>::run, (&signal, stage, event), next),
    ensures
        stage is Waiting ==> (event matches DispatchEvent::Arrived(Some(SignalMsg::Error(reason)))
            ==> next.0 is Ended && (next.1 matches DispatchAction::Failed(told) && told@
            == reason@)),
        stage is Waiting && event == DispatchEvent::Arrived(None) ==> next.0 is Ended && next.1
            is Closed,
        stage is Waiting ==> (event matches DispatchEvent::Arrived(Some(msg)) ==> (msg is Send
            || msg is ManagerRequest ==> next.0 is Waiting && next.1 is Receive)),
        (match stage {
            DispatchStage::Waiting => !(event is Arrived),
            DispatchStage::Delivering { .. } => !(event is Handled),
            DispatchStage::Ended => true,
        }) ==> next.0 is Ended && next.1 is OutOfTurn,
{
}

/// The two words that the program obeys.
pub proof fn law_the_program_obeys_two_words(name: &str, task: Option<Task>, none: Option<Task>)
    requires
        call_ensures(select_task, (Some(name),), task),
        call_ensures(select_task, (None::<&str>,), none),
    ensures
        name@ == "run"@ ==> task == Some(Task::Run),
        name@ == "link"@ ==> task == Some(Task::Link),
        name@ != "run"@ && name@ != "link"@ ==> task is None,
        none is None,
{
    reveal_strlit("run");
    reveal_strlit("link");
    assert("run"@.len() != "link"@.len());
}

/// The handlers of a device are connected to the network by two channels, in each of which a
/// thousand and twenty-four messages can wait. They stay in the order in which they were
/// registered, and the device's data stays where it is.
pub proof fn law_the_handlers_are_connected<H>(
    config: SignalConfig<H>,
    handler: H,
    replay_timestamp: u64,
    registered: SignalConfig<H>,
    running: Running<H>,
)
    requires
        call_ensures(SignalConfig::<H>::register_handler, (config, handler), registered),
        call_ensures(SignalConfig::<H>::run, (registered, replay_timestamp), running),
    ensures
        queue_limit(running.in_chan_tx, running.signal.in_chan_rx) == Some(1024usize),
        queue_limit(running.signal.out_chan_tx, running.out_chan_rx) == Some(1024usize),
        running.signal.handlers@ == config.handlers@.push(handler),
        running.db_path@ == config.db_path@,
        running.replay_timestamp == replay_timestamp,
{
}

} // verus!
