//! What handlers hand to the network.
use crate::clock::{clock_reads, timestamp};
use crate::content::{
    AttachmentPointer, Content, ContentBody, ContentBodyView, ContentView, DataMessage,
    DataMessageView, Quote, QuoteView, Reaction, ReactionView, Thread,
};
use crate::signal::{
    connected, own_way, reply_channel, ManagerReply, ManagerReplyView, ManagerRequest,
    ManagerRequestView, SignalMsg, SignalMsgView,
};
use vstd::prelude::*;

verus! {

/// Why an answer cannot be written.
#[derive(Debug, PartialEq, Eq, Clone, Copy, Structural)]
pub enum ComposeError {
    /// Nobody wrote the message, so there is nothing to react to.
    NoDataMessage,
    /// The clock stands before the Unix epoch.
    ClockBeforeEpoch,
}

impl ComposeError {
    /// What went wrong, in words.
    pub open spec fn words(self) -> Seq<char> {
        match self {
            ComposeError::NoDataMessage => "extracting datamessage for react()"@,
            ComposeError::ClockBeforeEpoch => "Time went backwards"@,
        }
    }

    /// What went wrong, in words.
    pub fn message(&self) -> (text: String)
        ensures
            text@ == self.words(),
    {
        match self {
            ComposeError::NoDataMessage => "extracting datamessage for react()".to_owned(),
            ComposeError::ClockBeforeEpoch => "Time went backwards".to_owned(),
        }
    }
}

/// The way to the network.
pub struct SignalHandle {
    pub out_chan_tx: flume::Sender<SignalMsg>,
}

/// A text.
pub open spec fn text_message(text: Seq<char>, now: u64) -> DataMessageView {
    DataMessageView { body: Some(text), timestamp: Some(now), ..DataMessageView::empty() }
}

/// An emoji on the message `target`, which is known by its author and by the timestamp that its
/// author gave it.
pub open spec fn reaction_message(
    content: ContentView,
    target: DataMessageView,
    emoji: Seq<char>,
    now: u64,
) -> DataMessageView {
    DataMessageView {
        timestamp: Some(now),
        reaction: Some(
            ReactionView {
                emoji: Some(emoji),
                target_author_aci: Some(content.metadata.sender),
                target_sent_timestamp: Some(target.sent_at()),
                rest: Seq::empty(),
            },
        ),
        ..DataMessageView::empty()
    }
}

/// A text that quotes a message, which is known by its author and by the timestamp that it was
/// received with.
pub open spec fn quoting_message(
    content: ContentView,
    text: Seq<char>,
    now: u64,
) -> DataMessageView {
    DataMessageView {
        body: Some(text),
        timestamp: Some(now),
        quote: Some(
            QuoteView {
                author_aci: Some(content.metadata.sender),
                id: Some(content.metadata.timestamp),
                rest: Seq::empty(),
            },
        ),
        ..DataMessageView::empty()
    }
}

/// The order to send a message to a conversation.
pub open spec fn order_to_send(thread: Thread, message: DataMessageView) -> SignalMsgView {
    SignalMsgView::Send(thread, ContentBodyView::DataMessage(message))
}

impl SignalHandle {
    /// The way to the network through a channel.
    pub fn new(out_chan_tx: flume::Sender<SignalMsg>) -> (handle: Self)
        ensures
            handle.out_chan_tx == out_chan_tx,
    {
        Self { out_chan_tx }
    }

    /// The order to send a message to a conversation.
    pub fn send_message(&self, thread: Thread, message: ContentBody) -> (order: SignalMsg)
        ensures
            order@ == SignalMsgView::Send(thread, message@),
    {
        SignalMsg::Send(thread, message)
    }

    /// The order to send a text, as written at the time `now`.
    pub fn send_at(&self, thread: &Thread, body: &str, now: u64) -> (order: SignalMsg)
        ensures
            order@ == order_to_send(*thread, text_message(body@, now)),
    {
        let mut message = DataMessage::default();
        message.body = Some(body.to_owned());
        message.timestamp = Some(now);
        self.send_message(*thread, ContentBody::DataMessage(message))
    }

    /// The order to send a text, as written now.
    pub fn send(&self, thread: &Thread, body: &str) -> (order: Result<SignalMsg, ComposeError>)
        ensures
            order matches Ok(sent) ==> exists|now: u64|
                clock_reads(Some(now)) && sent@ == order_to_send(
                    *thread,
                    #[trigger] text_message(body@, now),
                ),
            order matches Err(error) ==> clock_reads(None) && error
                == ComposeError::ClockBeforeEpoch,
    {
        match timestamp() {
            Some(now) => {
                let order = self.send_at(thread, body, now);
                assert(order@ == order_to_send(*thread, text_message(body@, now)));
                Ok(order)
            },
            None => Err(ComposeError::ClockBeforeEpoch),
        }
    }

    /// The order to send a message to the conversation of another message.
    fn send_in_thread(&self, content: &Content, message: ContentBody) -> (order: SignalMsg)
        requires
            content@.thread is Some,
        ensures
            order@ == SignalMsgView::Send(content@.thread->0, message@),
    {
        let thread = content.thread.unwrap();
        self.send_message(thread, message)
    }

    /// The order to put an emoji on a message, as done at the time `now`.
    pub fn react_at(&self, content: &Content, emoji: &str, now: u64) -> (order: Result<
        SignalMsg,
        ComposeError,
    >)
        requires
            content@.thread is Some,
        ensures
            match content@.data_message() {
                Some(target) => order matches Ok(sent) && sent@ == order_to_send(
                    content@.thread->0,
                    reaction_message(content@, target, emoji@, now),
                ),
                None => order matches Err(error) && error == ComposeError::NoDataMessage,
            },
    {
        match content.datamessage() {
            Some(target) => {
                let mut message = DataMessage::default();
                message.timestamp = Some(now);
                message.reaction = Some(
                    Reaction {
                        emoji: Some(emoji.to_owned()),
                        target_author_aci: Some(content.metadata.sender.clone()),
                        target_sent_timestamp: Some(target.timestamp()),
                        rest: Vec::new(),
                    },
                );
                Ok(self.send_in_thread(content, ContentBody::DataMessage(message)))
            },
            None => Err(ComposeError::NoDataMessage),
        }
    }

    /// The order to put an emoji on a message, as done now.
    pub fn react(&self, content: &Content, emoji: &str) -> (order: Result<
        SignalMsg,
        ComposeError,
    >)
        requires
            content@.thread is Some,
        ensures
            match content@.data_message() {
                Some(target) => match order {
                    Ok(sent) => exists|now: u64|
                        clock_reads(Some(now)) && sent@ == order_to_send(
                            content@.thread->0,
                            #[trigger] reaction_message(content@, target, emoji@, now),
                        ),
                    Err(error) => clock_reads(None) && error == ComposeError::ClockBeforeEpoch,
                },
                None => order matches Err(error) && error == ComposeError::NoDataMessage,
            },
    {
        if content.datamessage().is_none() {
            return Err(ComposeError::NoDataMessage);
        }
        match timestamp() {
            Some(now) => self.react_at(content, emoji, now),
            None => Err(ComposeError::ClockBeforeEpoch),
        }
    }

    /// The order to answer a message with a text that quotes it, as written at the time `now`.
    pub fn quote_at(&self, content: &Content, body: &str, now: u64) -> (order: SignalMsg)
        requires
            content@.thread is Some,
        ensures
            order@ == order_to_send(content@.thread->0, quoting_message(content@, body@, now)),
    {
        let mut message = DataMessage::default();
        message.body = Some(body.to_owned());
        message.timestamp = Some(now);
        message.quote = Some(
            Quote {
                author_aci: Some(content.metadata.sender.clone()),
                id: Some(content.metadata.timestamp),
                rest: Vec::new(),
            },
        );
        self.send_in_thread(content, ContentBody::DataMessage(message))
    }

    /// The order to answer a message with a text that quotes it, as written now.
    pub fn quote(&self, content: &Content, body: &str) -> (order: Result<
        SignalMsg,
        ComposeError,
    >)
        requires
            content@.thread is Some,
        ensures
            order matches Ok(sent) ==> exists|now: u64|
                clock_reads(Some(now)) && sent@ == order_to_send(
                    content@.thread->0,
                    #[trigger] quoting_message(content@, body@, now),
                ),
            order matches Err(error) ==> clock_reads(None) && error
                == ComposeError::ClockBeforeEpoch,
    {
        match timestamp() {
            Some(now) => {
                let order = self.quote_at(content, body, now);
                assert(order@ == order_to_send(
                    content@.thread->0,
                    quoting_message(content@, body@, now),
                ));
                Ok(order)
            },
            None => Err(ComposeError::ClockBeforeEpoch),
        }
    }

    /// A request of the network layer, and where its answer will arrive. Nothing else arrives
    /// there.
    pub fn manager_request(&self, request: ManagerRequest) -> (asked: (
        SignalMsg,
        flume::Receiver<ManagerReply>,
    ))
        ensures
            asked.0@ matches SignalMsgView::ManagerRequest(made, reply_to) && made == request@
                && own_way(reply_to, asked.1),
    {
        let (reply_to, answer) = reply_channel();
        (SignalMsg::ManagerRequest(request, reply_to), answer)
    }

    /// The request to fetch an attachment, and where it will arrive. Nothing else arrives there.
    pub fn get_attachment(&self, attachment_pointer: &AttachmentPointer) -> (asked: (
        SignalMsg,
        flume::Receiver<ManagerReply>,
    ))
        ensures
            asked.0@ matches SignalMsgView::ManagerRequest(made, reply_to) && made
                == ManagerRequestView::GetAttachment(attachment_pointer@) && own_way(
                reply_to,
                asked.1,
            ),
    {
        self.manager_request(ManagerRequest::GetAttachment(attachment_pointer.clone()))
    }
}

impl ManagerReply {
    /// The attachment that an answer brings.
    pub fn into_attachment(self) -> (data: Vec<u8>)
        ensures
            self@ == ManagerReplyView::Attachment(data@),
    {
        let ManagerReply::Attachment(data) = self;
        data
    }
}

/// Requests that wait for their answers in different places do not get each other's: neither
/// answer arrives where the other one is awaited.
pub proof fn law_answers_do_not_cross(
    a_tx: flume::Sender<ManagerReply>,
    a_rx: flume::Receiver<ManagerReply>,
    b_tx: flume::Sender<ManagerReply>,
    b_rx: flume::Receiver<ManagerReply>,
)
    requires
        own_way(a_tx, a_rx),
        own_way(b_tx, b_rx),
        a_rx != b_rx,
    ensures
        a_tx != b_tx,
        !connected(a_tx, b_rx),
        !connected(b_tx, a_rx),
{
}

} // verus!
