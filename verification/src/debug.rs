//! A handler that logs every message, without what should not be in a log.
use crate::content::{
    Content, ContentBody, ContentBodyView, ContentView, DataMessageView, SentView,
    SyncMessageView,
};
use crate::handler::{
    AbortReason, HandlerAction, HandlerActionView, HandlerEvent, HandlerEventView, Outcome,
    SignalMsgHandler,
};
use vstd::prelude::*;

verus! {

/// A report of a sent message without its padding and without the sender's profile key. Other
/// messages are left as they are.
pub open spec fn redacted(content: ContentView) -> ContentView {
    match content.body {
        ContentBodyView::SynchronizeMessage(sync) => ContentView {
            body: ContentBodyView::SynchronizeMessage(
                SyncMessageView {
                    padding: None,
                    sent: match sync.sent {
                        Some(sent) => Some(
                            SentView {
                                message: match sent.message {
                                    Some(message) => Some(
                                        DataMessageView { profile_key: None, ..message },
                                    ),
                                    None => None,
                                },
                                ..sent
                            },
                        ),
                        None => None,
                    },
                    ..sync
                },
            ),
            ..content
        },
        _ => content,
    }
}

/// A copy of a message, fit to be logged.
pub fn redact(content: &Content) -> (copy: Content)
    ensures
        copy@ == redacted(content@),
{
    let mut copy = content.clone();
    if let ContentBody::SynchronizeMessage(sync) = &mut copy.body {
        sync.padding = None;
        if let Some(sent) = &mut sync.sent {
            if let Some(message) = &mut sent.message {
                message.profile_key = None;
            }
        }
    }
    copy
}

/// The handler that logs messages.
#[derive(Debug, PartialEq, Eq)]
pub struct DebugHandler {}

/// How far the logging of a message has come.
#[derive(Debug, PartialEq, Eq, Clone, Copy)]
pub enum DebugStage {
    Idle,
    Logging,
    Finished,
}

/// What follows when the handler is told of `event` in `stage`.
pub open spec fn debug_step(content: ContentView, stage: DebugStage, event: HandlerEventView) -> (
    DebugStage,
    HandlerActionView,
) {
    match (stage, event) {
        (DebugStage::Idle, HandlerEventView::Start) => (
            DebugStage::Logging,
            HandlerActionView::Log(redacted(content)),
        ),
        (DebugStage::Logging, HandlerEventView::Logged) => (
            DebugStage::Finished,
            HandlerActionView::Done(Outcome::Handled),
        ),
        _ => (DebugStage::Finished, HandlerActionView::Abort(AbortReason::OutOfTurn)),
    }
}

impl SignalMsgHandler for DebugHandler {
    type Stage = DebugStage;

    open spec fn first_stage(&self) -> DebugStage {
        DebugStage::Idle
    }

    open spec fn step(&self, content: ContentView, stage: DebugStage, event: HandlerEventView) -> (
        DebugStage,
        HandlerActionView,
    ) {
        debug_step(content, stage, event)
    }

    fn start(&self) -> DebugStage {
        DebugStage::Idle
    }

    fn handle(&self, content: &Content, stage: DebugStage, event: HandlerEvent) -> (next: (
        DebugStage,
        HandlerAction,
    )) {
        match (stage, event) {
            (DebugStage::Idle, HandlerEvent::Start) => (
                DebugStage::Logging,
                HandlerAction::Log(redact(content)),
            ),
            (DebugStage::Logging, HandlerEvent::Logged) => (
                DebugStage::Finished,
                HandlerAction::Done(Outcome::Handled),
            ),
            _ => (DebugStage::Finished, HandlerAction::Abort(AbortReason::OutOfTurn)),
        }
    }
}

/// A logged report tells neither its padding nor the profile key of the message that it reports.
pub proof fn law_secrets_are_not_logged(content: ContentView)
    requires
        content.body is SynchronizeMessage,
    ensures
        redacted(content).body matches ContentBodyView::SynchronizeMessage(sync)
            && sync.padding is None,
        redacted(content).data_message() matches Some(message) ==> message.profile_key is None,
{
}

/// A message with the padding and the profile key of another put in, where it has a place for
/// them.
pub open spec fn with_secrets_of(whole: ContentView, shown: ContentView) -> ContentView {
    match (whole.body, shown.body) {
        (
            ContentBodyView::SynchronizeMessage(from),
            ContentBodyView::SynchronizeMessage(sync),
        ) => ContentView {
            body: ContentBodyView::SynchronizeMessage(
                SyncMessageView {
                    padding: from.padding,
                    sent: match (whole.data_message(), sync.sent) {
                        (Some(secret), Some(sent)) => Some(
                            SentView {
                                message: match sent.message {
                                    Some(message) => Some(
                                        DataMessageView {
                                            profile_key: secret.profile_key,
                                            ..message
                                        },
                                    ),
                                    None => None,
                                },
                                ..sent
                            },
                        ),
                        _ => sync.sent,
                    },
                    ..sync
                },
            ),
            ..shown
        },
        _ => shown,
    }
}

/// Nothing else is lost: with the padding and the profile key put back, what is logged is the
/// whole message, whatever kind of message it is.
pub proof fn law_the_rest_is_logged(content: ContentView)
    ensures
        with_secrets_of(content, redacted(content)) == content,
{
}

/// Messages that are no reports are logged as they are.
pub proof fn law_other_messages_are_logged_whole(content: ContentView)
    requires
        !(content.body is SynchronizeMessage),
    ensures
        redacted(content) == content,
{
}

/// To redact a redacted message changes nothing.
pub proof fn law_redacting_twice(content: ContentView)
    ensures
        redacted(redacted(content)) == redacted(content),
{
}

/// What is logged of a report is the report without its padding and without the profile key of the
/// message that it reports; everything else that it holds is logged, and of every other kind of
/// message all of it. That is what the handler logs, as its first and only deed.
pub proof fn law_what_is_logged(
    handler: DebugHandler,
    content: Content,
    stage: DebugStage,
    copy: Content,
    next: (DebugStage, HandlerAction),
    end: (DebugStage, HandlerAction),
)
    requires
        call_ensures(redact, (&content,), copy),
        call_ensures(<DebugHandler as SignalMsgHandler>::start, (&handler,), stage),
        call_ensures(
            <DebugHandler as SignalMsgHandler>::handle,
            (&handler, &content, stage, HandlerEvent::Start),
            next,
        ),
        call_ensures(
            <DebugHandler as SignalMsgHandler>::handle,
            (&handler, &content, next.0, HandlerEvent::Logged),
            end,
        ),
    ensures
        copy@.metadata == content@.metadata,
        copy.thread == content.thread,
        !(content.body is SynchronizeMessage) ==> copy@.body == content@.body,
        content.body matches ContentBody::SynchronizeMessage(sync) ==> (
        copy.body matches ContentBody::SynchronizeMessage(shown) && shown.padding is None
            && shown.rest@ == sync.rest@ && (shown.sent is Some <==> sync.sent is Some) && (
        shown.sent is Some ==> shown.sent->0.rest@ == sync.sent->0.rest@ && (
        shown.sent->0.message is Some <==> sync.sent->0.message is Some)) && (shown.sent is Some
            && shown.sent->0.message is Some ==> {
            &&& shown.sent->0.message->0.profile_key is None
            &&& shown.sent->0.message->0@.body == sync.sent->0.message->0@.body
            &&& shown.sent->0.message->0@.attachments == sync.sent->0.message->0@.attachments
            &&& shown.sent->0.message->0@.group_v2 == sync.sent->0.message->0@.group_v2
            &&& shown.sent->0.message->0.timestamp == sync.sent->0.message->0.timestamp
            &&& shown.sent->0.message->0@.quote == sync.sent->0.message->0@.quote
            &&& shown.sent->0.message->0@.reaction == sync.sent->0.message->0@.reaction
            &&& shown.sent->0.message->0.rest@ == sync.sent->0.message->0.rest@
        })),
        next.1 matches HandlerAction::Log(logged) && logged@ == copy@,
        end.0 is Finished && end.1 == HandlerAction::Done(Outcome::Handled),
{
}

} // verus!
