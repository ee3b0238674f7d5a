//! Messages between the network and the handlers.
use crate::content::{
    AttachmentPointer, AttachmentPointerView, Content, ContentBody, ContentBodyView,
    ContentView, Thread,
};
use crate::text::copy_bytes;
use vstd::prelude::*;

pub mod config;
pub mod dispatch;
pub mod handle;
pub mod incoming;
pub mod outgoing;
pub mod plain;

verus! {

/// The sending end of a channel.
#[verifier::external_type_specification]
#[verifier::external_body]
#[verifier::reject_recursive_types(T)]
pub struct ExSender<T>(flume::Sender<T>);

/// The receiving end of a channel.
#[verifier::external_type_specification]
#[verifier::external_body]
#[verifier::reject_recursive_types(T)]
pub struct ExReceiver<T>(flume::Receiver<T>);

/// `flume::Sender::clone`: the same end once more. A sending end is the channel that it belongs to
/// and nothing more, and the copy belongs to the same one.
pub assume_specification<T>[ <flume::Sender<T> as Clone>::clone ](
    sender: &flume::Sender<T>,
) -> (copy: flume::Sender<T>)
    ensures
        copy == *sender,
;

/// Something that only the network layer can do, asked of it by a handler.
#[derive(Debug)]
pub enum ManagerRequest {
    GetAttachment(AttachmentPointer),
}

#[verifier::ext_equal]
pub enum ManagerRequestView {
    GetAttachment(AttachmentPointerView),
}

impl View for ManagerRequest {
    type V = ManagerRequestView;

    open spec fn view(&self) -> ManagerRequestView {
        match self {
            ManagerRequest::GetAttachment(pointer) => ManagerRequestView::GetAttachment(pointer@),
        }
    }
}

impl Clone for ManagerRequest {
    fn clone(&self) -> (copy: Self)
        ensures
            copy@ == self@,
    {
        match self {
            ManagerRequest::GetAttachment(pointer) => ManagerRequest::GetAttachment(
                pointer.clone(),
            ),
        }
    }
}

/// The answer to a request.
#[derive(Debug, PartialEq, Eq)]
pub enum ManagerReply {
    Attachment(Vec<u8>),
}

#[verifier::ext_equal]
pub enum ManagerReplyView {
    Attachment(Seq<u8>),
}

impl View for ManagerReply {
    type V = ManagerReplyView;

    open spec fn view(&self) -> ManagerReplyView {
        match self {
            ManagerReply::Attachment(data) => ManagerReplyView::Attachment(data@),
        }
    }
}

impl Clone for ManagerReply {
    fn clone(&self) -> (copy: Self)
        ensures
            copy@ == self@,
    {
        match self {
            ManagerReply::Attachment(data) => ManagerReply::Attachment(copy_bytes(data)),
        }
    }
}

/// What travels between the network and the handlers.
#[derive(Debug)]
pub enum SignalMsg {
    /// A message has arrived.
    Received(Content),
    /// A message is to be sent to a conversation.
    Send(Thread, ContentBody),
    /// A request, and where its answer is to go.
    ManagerRequest(ManagerRequest, flume::Sender<ManagerReply>),
    /// No more messages will arrive, for this reason.
    Error(String),
}

#[verifier::ext_equal]
pub enum SignalMsgView {
    Received(ContentView),
    Send(Thread, ContentBodyView),
    ManagerRequest(ManagerRequestView, flume::Sender<ManagerReply>),
    Error(Seq<char>),
}

impl View for SignalMsg {
    type V = SignalMsgView;

    open spec fn view(&self) -> SignalMsgView {
        match self {
            SignalMsg::Received(content) => SignalMsgView::Received(content@),
            SignalMsg::Send(thread, body) => SignalMsgView::Send(*thread, body@),
            SignalMsg::ManagerRequest(request, reply_to) => SignalMsgView::ManagerRequest(
                request@,
                *reply_to,
            ),
            SignalMsg::Error(reason) => SignalMsgView::Error(reason@),
        }
    }
}

impl Clone for SignalMsg {
    fn clone(&self) -> (copy: Self)
        ensures
            copy@ == self@,
    {
        match self {
            SignalMsg::Received(content) => SignalMsg::Received(content.clone()),
            SignalMsg::Send(thread, body) => SignalMsg::Send(*thread, body.clone()),
            SignalMsg::ManagerRequest(request, reply_to) => SignalMsg::ManagerRequest(
                request.clone(),
                reply_to.clone(),
            ),
            SignalMsg::Error(reason) => SignalMsg::Error(reason.clone()),
        }
    }
}

/// How many messages can wait between the two ends of a channel, where they are the ends of one
/// channel and it has such a limit.
pub uninterp spec fn queue_limit(
    tx: flume::Sender<SignalMsg>,
    rx: flume::Receiver<SignalMsg>,
) -> Option<usize>;

/// Whether what is sent at one end arrives at the other: they are ends of one channel.
pub uninterp spec fn connected(
    tx: flume::Sender<ManagerReply>,
    rx: flume::Receiver<ManagerReply>,
) -> bool;

/// `flume::bounded`: the two ends of a new channel, in which `limit` messages can wait.
#[verifier::external_body]
pub(crate) fn message_channel(limit: usize) -> (ends: (
    flume::Sender<SignalMsg>,
    flume::Receiver<SignalMsg>,
))
    ensures
        queue_limit(ends.0, ends.1) == Some(limit),
{
    flume::bounded(limit)
}

/// Whether what is sent at one end arrives at the other and nowhere else, and nothing that is
/// sent elsewhere arrives there.
pub open spec fn own_way(
    tx: flume::Sender<ManagerReply>,
    rx: flume::Receiver<ManagerReply>,
) -> bool {
    &&& connected(tx, rx)
    &&& forall|other: flume::Receiver<ManagerReply>| #[trigger]
        connected(tx, other) ==> other == rx
    &&& forall|other: flume::Sender<ManagerReply>| #[trigger]
        connected(other, rx) ==> other == tx
}

/// `flume::unbounded`: the two ends of a new channel, and of no other. Like a sending end, a
/// receiving end is the channel that it belongs to and nothing more, so that whatever end is
/// connected to one of the two is the other, or a copy of it. That the channel is another one
/// than those of other calls is not stated: a contract speaks of one call.
#[verifier::external_body]
pub(crate) fn reply_channel() -> (ends: (
    flume::Sender<ManagerReply>,
    flume::Receiver<ManagerReply>,
))
    ensures
        connected(ends.0, ends.1),
        forall|other: flume::Receiver<ManagerReply>| #[trigger]
            connected(ends.0, other) ==> other == ends.1,
        forall|other: flume::Sender<ManagerReply>| #[trigger]
            connected(other, ends.1) ==> other == ends.0,
{
    flume::unbounded()
}

/// The views of what travels between the network and the handlers tell everything as it is.
pub proof fn law_views_tell_what_travels(msg: SignalMsg, pointer: AttachmentPointer, data: Vec<u8>)
    ensures
        msg@ == (match msg {
            SignalMsg::Received(content) => SignalMsgView::Received(content@),
            SignalMsg::Send(thread, body) => SignalMsgView::Send(thread, body@),
            SignalMsg::ManagerRequest(request, reply_to) => SignalMsgView::ManagerRequest(
                request@,
                reply_to,
            ),
            SignalMsg::Error(reason) => SignalMsgView::Error(reason@),
        }),
        ManagerRequest::GetAttachment(pointer)@ == ManagerRequestView::GetAttachment(pointer@),
        ManagerReply::Attachment(data)@ == ManagerReplyView::Attachment(data@),
{
}

} // verus!
