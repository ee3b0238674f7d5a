//! From the network to the handlers.
use crate::content::{Content, ContentView};
use crate::signal::{SignalMsg, SignalMsgView};
use vstd::prelude::*;

verus! {

/// What the network delivers.
#[derive(Debug, PartialEq, Eq)]
pub enum Received {
    /// Everything that was waiting has been delivered.
    QueueEmpty,
    /// The list of contacts has been updated.
    Contacts,
    /// A message.
    Content(Content),
}

#[verifier::ext_equal]
pub enum ReceivedView {
    QueueEmpty,
    Contacts,
    Content(ContentView),
}

impl View for Received {
    type V = ReceivedView;

    open spec fn view(&self) -> ReceivedView {
        match self {
            Received::QueueEmpty => ReceivedView::QueueEmpty,
            Received::Contacts => ReceivedView::Contacts,
            Received::Content(content) => ReceivedView::Content(content@),
        }
    }
}

/// How far the task has come.
#[derive(Debug, PartialEq, Eq, Clone, Copy, Structural)]
pub enum IncomingStage {
    /// The stream of messages is being opened.
    Opening,
    /// The next delivery is awaited.
    Reading,
    /// A message is being handed on.
    Forwarding,
    /// It is being reported that the stream could not be opened.
    Reporting,
    /// The task has ended.
    Ended,
}

/// What the task is told.
#[derive(Debug, PartialEq, Eq)]
pub enum IncomingEvent {
    /// Whether the stream of messages was opened.
    Opened(bool),
    /// The next delivery, or that the stream has ended.
    Next(Option<Received>),
    /// Whether somebody still takes what is handed on.
    Forwarded(bool),
}

#[verifier::ext_equal]
pub enum IncomingEventView {
    Opened(bool),
    Next(Option<ReceivedView>),
    Forwarded(bool),
}

impl View for IncomingEvent {
    type V = IncomingEventView;

    open spec fn view(&self) -> IncomingEventView {
        match self {
            IncomingEvent::Opened(done) => IncomingEventView::Opened(*done),
            IncomingEvent::Next(item) => IncomingEventView::Next(
                crate::text::option_view(*item),
            ),
            IncomingEvent::Forwarded(done) => IncomingEventView::Forwarded(*done),
        }
    }
}

/// How the task ends.
#[derive(Debug, PartialEq, Eq, Clone, Copy, Structural)]
pub enum IncomingEnd {
    /// Nobody takes messages any more, which is a proper end.
    NotWanted,
    /// The stream of messages could not be opened.
    NotOpened,
    /// The stream could not be opened, and nobody was there to be told.
    NotReported,
    /// The task was told something that it was not waiting for.
    OutOfTurn,
}

/// What the task asks for.
#[derive(Debug)]
pub enum IncomingAction {
    /// Open the stream of messages.
    Open,
    /// Wait for the next delivery.
    Next,
    /// Hand something on to the handlers.
    Forward(SignalMsg),
    /// Nothing more.
    End(IncomingEnd),
}

#[verifier::ext_equal]
pub enum IncomingActionView {
    Open,
    Next,
    Forward(SignalMsgView),
    End(IncomingEnd),
}

impl View for IncomingAction {
    type V = IncomingActionView;

    open spec fn view(&self) -> IncomingActionView {
        match self {
            IncomingAction::Open => IncomingActionView::Open,
            IncomingAction::Next => IncomingActionView::Next,
            IncomingAction::Forward(msg) => IncomingActionView::Forward(msg@),
            IncomingAction::End(end) => IncomingActionView::End(*end),
        }
    }
}

/// Whether a delivery is handed on: a message that is not older than `replay_timestamp`.
pub open spec fn is_wanted(item: ReceivedView, replay_timestamp: u64) -> bool {
    item matches ReceivedView::Content(content) && content.metadata.timestamp >= replay_timestamp
}

/// What follows when the task is told of `event` in `stage`. Messages from before
/// `replay_timestamp` are passed over. A stream that has ended is opened again.
pub open spec fn incoming_step(
    replay_timestamp: u64,
    stage: IncomingStage,
    event: IncomingEventView,
) -> (IncomingStage, IncomingActionView) {
    match (stage, event) {
        (IncomingStage::Opening, IncomingEventView::Opened(done)) => if done {
            (IncomingStage::Reading, IncomingActionView::Next)
        } else {
            (
                IncomingStage::Reporting,
                IncomingActionView::Forward(
                    SignalMsgView::Error("failed to initialize messages stream"@),
                ),
            )
        },
        (IncomingStage::Reporting, IncomingEventView::Forwarded(done)) => (
            IncomingStage::Ended,
            IncomingActionView::End(
                if done {
                    IncomingEnd::NotOpened
                } else {
                    IncomingEnd::NotReported
                },
            ),
        ),
        (IncomingStage::Reading, IncomingEventView::Next(delivered)) => match delivered {
            Some(item) => if is_wanted(item, replay_timestamp) {
                (
                    IncomingStage::Forwarding,
                    IncomingActionView::Forward(SignalMsgView::Received(item->Content_0)),
                )
            } else {
                (IncomingStage::Reading, IncomingActionView::Next)
            },
            None => (IncomingStage::Opening, IncomingActionView::Open),
        },
        (IncomingStage::Forwarding, IncomingEventView::Forwarded(done)) => if done {
            (IncomingStage::Reading, IncomingActionView::Next)
        } else {
            (IncomingStage::Ended, IncomingActionView::End(IncomingEnd::NotWanted))
        },
        _ => (IncomingStage::Ended, IncomingActionView::End(IncomingEnd::OutOfTurn)),
    }
}

/// Takes one step of the task that hands on what the network delivers. It begins in `Opening`,
/// with the stream of messages being opened.
pub fn incoming_signal_task(
    replay_timestamp: u64,
    stage: IncomingStage,
    event: IncomingEvent,
) -> (next: (IncomingStage, IncomingAction))
    ensures
        (next.0, next.1@) == incoming_step(replay_timestamp, stage, event@),
{
    match (stage, event) {
        (IncomingStage::Opening, IncomingEvent::Opened(done)) => if done {
            (IncomingStage::Reading, IncomingAction::Next)
        } else {
            (
                IncomingStage::Reporting,
                IncomingAction::Forward(
                    SignalMsg::Error("failed to initialize messages stream".to_owned()),
                ),
            )
        },
        (IncomingStage::Reporting, IncomingEvent::Forwarded(done)) => {
            let end = if done {
                IncomingEnd::NotOpened
            } else {
                IncomingEnd::NotReported
            };
            (IncomingStage::Ended, IncomingAction::End(end))
        },
        (IncomingStage::Reading, IncomingEvent::Next(delivered)) => match delivered {
            Some(Received::Content(content)) => if content.metadata.timestamp < replay_timestamp {
                (IncomingStage::Reading, IncomingAction::Next)
            } else {
                (
                    IncomingStage::Forwarding,
                    IncomingAction::Forward(SignalMsg::Received(content)),
                )
            },
            Some(Received::QueueEmpty) => (IncomingStage::Reading, IncomingAction::Next),
            Some(Received::Contacts) => (IncomingStage::Reading, IncomingAction::Next),
            None => (IncomingStage::Opening, IncomingAction::Open),
        },
        (IncomingStage::Forwarding, IncomingEvent::Forwarded(done)) => if done {
            (IncomingStage::Reading, IncomingAction::Next)
        } else {
            (IncomingStage::Ended, IncomingAction::End(IncomingEnd::NotWanted))
        },
        _ => (IncomingStage::Ended, IncomingAction::End(IncomingEnd::OutOfTurn)),
    }
}

/// What the task asks for, in order, when it is told of `events` one after the other.
pub open spec fn incoming_actions(
    replay_timestamp: u64,
    stage: IncomingStage,
    events: Seq<IncomingEventView>,
) -> Seq<IncomingActionView>
    decreases events.len(),
{
    if events.len() == 0 {
        Seq::empty()
    } else {
        let (next, action) = incoming_step(replay_timestamp, stage, events[0]);
        seq![action] + incoming_actions(replay_timestamp, next, events.skip(1))
    }
}

/// The messages that are handed on among `actions`.
pub open spec fn handed_on(actions: Seq<IncomingActionView>) -> Seq<ContentView>
    decreases actions.len(),
{
    if actions.len() == 0 {
        Seq::empty()
    } else {
        (match actions[0] {
            IncomingActionView::Forward(SignalMsgView::Received(content)) => seq![content],
            _ => Seq::empty(),
        }) + handed_on(actions.skip(1))
    }
}

/// The messages among `items` that are not older than `replay_timestamp`, in order.
pub open spec fn wanted(items: Seq<Option<ReceivedView>>, replay_timestamp: u64) -> Seq<ContentView>
    decreases items.len(),
{
    if items.len() == 0 {
        Seq::empty()
    } else {
        (match items[0] {
            Some(ReceivedView::Content(content)) => if content.metadata.timestamp
                >= replay_timestamp {
                seq![content]
            } else {
                Seq::empty()
            },
            _ => Seq::empty(),
        }) + wanted(items.skip(1), replay_timestamp)
    }
}

/// What the task is told while the network delivers `items`, where nothing stands for the end of
/// a stream that can be opened again, and everything that the task hands on is taken.
pub open spec fn delivery(items: Seq<Option<ReceivedView>>, replay_timestamp: u64) -> Seq<
    IncomingEventView,
>
    decreases items.len(),
{
    if items.len() == 0 {
        Seq::empty()
    } else {
        seq![IncomingEventView::Next(items[0])] + ((match items[0] {
            Some(ReceivedView::Content(content)) => if content.metadata.timestamp
                >= replay_timestamp {
                seq![IncomingEventView::Forwarded(true)]
            } else {
                Seq::empty()
            },
            Some(_) => Seq::empty(),
            None => seq![IncomingEventView::Opened(true)],
        }) + delivery(items.skip(1), replay_timestamp))
    }
}

/// The first event leads to the first action; the rest follows from the stage that it led to.
proof fn lemma_incoming_first(
    replay_timestamp: u64,
    stage: IncomingStage,
    event: IncomingEventView,
    rest: Seq<IncomingEventView>,
)
    ensures
        incoming_actions(replay_timestamp, stage, seq![event] + rest) == seq![
            incoming_step(replay_timestamp, stage, event).1,
        ] + incoming_actions(
            replay_timestamp,
            incoming_step(replay_timestamp, stage, event).0,
            rest,
        ),
{
    assert((seq![event] + rest).skip(1) =~= rest);
}

/// What the first action hands on comes before what the others do.
proof fn lemma_handed_on_first(action: IncomingActionView, rest: Seq<IncomingActionView>)
    ensures
        handed_on(seq![action] + rest) == (match action {
            IncomingActionView::Forward(SignalMsgView::Received(content)) => seq![content],
            _ => Seq::<ContentView>::empty(),
        }) + handed_on(rest),
{
    assert((seq![action] + rest).skip(1) =~= rest);
}

/// While the task reads, it hands on what is wanted and nothing else.
proof fn lemma_reading_hands_on(items: Seq<Option<ReceivedView>>, replay_timestamp: u64)
    ensures
        handed_on(
            incoming_actions(
                replay_timestamp,
                IncomingStage::Reading,
                delivery(items, replay_timestamp),
            ),
        ) == wanted(items, replay_timestamp),
    decreases items.len(),
{
    if items.len() > 0 {
        let rest = delivery(items.skip(1), replay_timestamp);
        let tail = incoming_actions(replay_timestamp, IncomingStage::Reading, rest);
        let next = IncomingEventView::Next(items[0]);
        let (stage, action) = incoming_step(replay_timestamp, IncomingStage::Reading, next);
        lemma_reading_hands_on(items.skip(1), replay_timestamp);
        lemma_handed_on_first(IncomingActionView::Next, tail);
        assert(Seq::<ContentView>::empty() + handed_on(tail) =~= handed_on(tail));
        if stage == IncomingStage::Reading {
            assert(delivery(items, replay_timestamp) =~= seq![next] + rest);
            lemma_incoming_first(replay_timestamp, stage, next, rest);
        } else {
            let reply = if stage == IncomingStage::Opening {
                IncomingEventView::Opened(true)
            } else {
                IncomingEventView::Forwarded(true)
            };
            assert(delivery(items, replay_timestamp) =~= seq![next] + (seq![reply] + rest));
            lemma_incoming_first(
                replay_timestamp,
                IncomingStage::Reading,
                next,
                seq![reply] + rest,
            );
            lemma_incoming_first(replay_timestamp, stage, reply, rest);
            lemma_handed_on_first(action, seq![IncomingActionView::Next] + tail);
        }
    }
}

/// The handlers get exactly the messages that are not older than the start of the replay, each
/// once and in the order of their arrival, also where the stream has to be opened anew.
pub proof fn law_fresh_messages_are_handed_on(
    items: Seq<Option<ReceivedView>>,
    replay_timestamp: u64,
)
    ensures
        handed_on(
            incoming_actions(
                replay_timestamp,
                IncomingStage::Opening,
                seq![IncomingEventView::Opened(true)] + delivery(items, replay_timestamp),
            ),
        ) == wanted(items, replay_timestamp),
{
    let events = delivery(items, replay_timestamp);
    let tail = incoming_actions(replay_timestamp, IncomingStage::Reading, events);
    lemma_reading_hands_on(items, replay_timestamp);
    lemma_incoming_first(
        replay_timestamp,
        IncomingStage::Opening,
        IncomingEventView::Opened(true),
        events,
    );
    lemma_handed_on_first(IncomingActionView::Next, tail);
    assert(Seq::<ContentView>::empty() + handed_on(tail) =~= handed_on(tail));
}

/// Whatever happens, no message from before the start of the replay reaches the handlers.
pub proof fn law_old_messages_are_never_handed_on(
    replay_timestamp: u64,
    stage: IncomingStage,
    events: Seq<IncomingEventView>,
    place: int,
)
    requires
        0 <= place < handed_on(incoming_actions(replay_timestamp, stage, events)).len(),
    ensures
        handed_on(
            incoming_actions(replay_timestamp, stage, events),
        )[place].metadata.timestamp >= replay_timestamp,
    decreases events.len(),
{
    if events.len() > 0 {
        let (next, action) = incoming_step(replay_timestamp, stage, events[0]);
        let tail = incoming_actions(replay_timestamp, next, events.skip(1));
        lemma_handed_on_first(action, tail);
        let head = match action {
            IncomingActionView::Forward(SignalMsgView::Received(content)) => seq![content],
            _ => Seq::<ContentView>::empty(),
        };
        if place >= head.len() {
            assert((head + handed_on(tail))[place] == handed_on(tail)[place - head.len()]);
            law_old_messages_are_never_handed_on(
                replay_timestamp,
                next,
                events.skip(1),
                place - head.len(),
            );
        }
    }
}

/// A stream that ends is opened again, and one that cannot be opened ends the task, with a report
/// to the handlers.
pub proof fn law_a_failed_stream_is_reported(replay_timestamp: u64)
    ensures
        incoming_actions(
            replay_timestamp,
            IncomingStage::Reading,
            seq![
                IncomingEventView::Next(None),
                IncomingEventView::Opened(false),
                IncomingEventView::Forwarded(true),
            ],
        ) == seq![
            IncomingActionView::Open,
            IncomingActionView::Forward(
                SignalMsgView::Error("failed to initialize messages stream"@),
            ),
            IncomingActionView::End(IncomingEnd::NotOpened),
        ],
{
    let ended = IncomingEventView::Next(None);
    let refused = IncomingEventView::Opened(false);
    let told = IncomingEventView::Forwarded(true);
    let none = Seq::<IncomingEventView>::empty();
    lemma_incoming_first(replay_timestamp, IncomingStage::Reading, ended, seq![refused, told]);
    lemma_incoming_first(replay_timestamp, IncomingStage::Opening, refused, seq![told]);
    lemma_incoming_first(replay_timestamp, IncomingStage::Reporting, told, none);
    assert(seq![ended, refused, told] =~= seq![ended] + seq![refused, told]);
    assert(seq![refused, told] =~= seq![refused] + seq![told]);
    assert(seq![told] =~= seq![told] + none);
    assert(incoming_actions(
        replay_timestamp,
        IncomingStage::Reading,
        seq![ended, refused, told],
    ) =~= seq![
        IncomingActionView::Open,
        IncomingActionView::Forward(SignalMsgView::Error("failed to initialize messages stream"@)),
        IncomingActionView::End(IncomingEnd::NotOpened),
    ]);
}

} // verus!
