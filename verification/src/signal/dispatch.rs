//! From arrived messages to the handlers.
use crate::content::{Content, ContentView};
use crate::signal::{SignalMsg, SignalMsgView};
use crate::text::option_view;
use vstd::prelude::*;

verus! {

/// The two channels to and from the network, and the handlers in the order in which they were
/// registered.
pub struct Signal<H> {
    pub out_chan_tx: flume::Sender<SignalMsg>,
    pub in_chan_rx: flume::Receiver<SignalMsg>,
    pub handlers: Vec<H>,
}

/// How far the dispatching has come.
#[derive(Debug, PartialEq, Eq)]
pub enum DispatchStage {
    /// The next message is awaited.
    Waiting,
    /// A message is with the handler at `at`.
    Delivering { content: Content, at: usize },
    /// The dispatching has ended.
    Ended,
}

#[verifier::ext_equal]
pub enum DispatchStageView {
    Waiting,
    Delivering { content: ContentView, at: usize },
    Ended,
}

impl View for DispatchStage {
    type V = DispatchStageView;

    open spec fn view(&self) -> DispatchStageView {
        match self {
            DispatchStage::Waiting => DispatchStageView::Waiting,
            DispatchStage::Delivering { content, at } => DispatchStageView::Delivering {
                content: content@,
                at: *at,
            },
            DispatchStage::Ended => DispatchStageView::Ended,
        }
    }
}

/// What the dispatching is told.
#[derive(Debug)]
pub enum DispatchEvent {
    /// What has arrived, or that nothing will any more.
    Arrived(Option<SignalMsg>),
    /// The handler is done with the message.
    Handled,
}

#[verifier::ext_equal]
pub enum DispatchEventView {
    Arrived(Option<SignalMsgView>),
    Handled,
}

impl View for DispatchEvent {
    type V = DispatchEventView;

    open spec fn view(&self) -> DispatchEventView {
        match self {
            DispatchEvent::Arrived(msg) => DispatchEventView::Arrived(option_view(*msg)),
            DispatchEvent::Handled => DispatchEventView::Handled,
        }
    }
}

/// What the dispatching asks for.
#[derive(Debug, PartialEq, Eq)]
pub enum DispatchAction {
    /// Wait for the next message.
    Receive,
    /// Let the handler at this place handle the message.
    Handle(usize),
    /// Nothing more: the network layer has failed, for this reason.
    Failed(String),
    /// Nothing more: nothing will arrive any more.
    Closed,
    /// Nothing more: the dispatching was told something that it was not waiting for.
    OutOfTurn,
}

#[verifier::ext_equal]
pub enum DispatchActionView {
    Receive,
    Handle(usize),
    Failed(Seq<char>),
    Closed,
    OutOfTurn,
}

impl View for DispatchAction {
    type V = DispatchActionView;

    open spec fn view(&self) -> DispatchActionView {
        match self {
            DispatchAction::Receive => DispatchActionView::Receive,
            DispatchAction::Handle(at) => DispatchActionView::Handle(*at),
            DispatchAction::Failed(reason) => DispatchActionView::Failed(reason@),
            DispatchAction::Closed => DispatchActionView::Closed,
            DispatchAction::OutOfTurn => DispatchActionView::OutOfTurn,
        }
    }
}

/// What follows when the handlers before `at` are done with a message, where there are `count`
/// handlers.
pub open spec fn pass_on(count: nat, content: ContentView, at: int) -> (
    DispatchStageView,
    DispatchActionView,
) {
    if at < count {
        (
            DispatchStageView::Delivering { content, at: at as usize },
            DispatchActionView::Handle(at as usize),
        )
    } else {
        (DispatchStageView::Waiting, DispatchActionView::Receive)
    }
}

/// What follows when the dispatching is told of `event` in `stage`, where there are `count`
/// handlers. Each of them gets every message, one after the other.
pub open spec fn dispatch_step(count: nat, stage: DispatchStageView, event: DispatchEventView) -> (
    DispatchStageView,
    DispatchActionView,
) {
    match (stage, event) {
        (DispatchStageView::Waiting, DispatchEventView::Arrived(arrived)) => match arrived {
            Some(SignalMsgView::Received(content)) => pass_on(count, content, 0),
            Some(SignalMsgView::Error(reason)) => (
                DispatchStageView::Ended,
                DispatchActionView::Failed(reason),
            ),
            Some(_) => (DispatchStageView::Waiting, DispatchActionView::Receive),
            None => (DispatchStageView::Ended, DispatchActionView::Closed),
        },
        (DispatchStageView::Delivering { content, at }, DispatchEventView::Handled) => pass_on(
            count,
            content,
            at + 1,
        ),
        _ => (DispatchStageView::Ended, DispatchActionView::OutOfTurn),
    }
}

impl<H> Signal<H> {
    /// What follows when the handlers before `at` are done with a message.
    fn deliver(&self, content: Content, at: usize) -> (next: (DispatchStage, DispatchAction))
        ensures
            (next.0@, next.1@) == pass_on(self.handlers@.len(), content@, at as int),
    {
        if at < self.handlers.len() {
            (DispatchStage::Delivering { content, at }, DispatchAction::Handle(at))
        } else {
            (DispatchStage::Waiting, DispatchAction::Receive)
        }
    }

    /// Takes one step of the dispatching. It begins in `Waiting`, with the first message being
    /// awaited.
    pub fn run(&self, stage: DispatchStage, event: DispatchEvent) -> (next: (
        DispatchStage,
        DispatchAction,
    ))
        ensures
            (next.0@, next.1@) == dispatch_step(self.handlers@.len(), stage@, event@),
    {
        match (stage, event) {
            (DispatchStage::Waiting, DispatchEvent::Arrived(arrived)) => match arrived {
                Some(SignalMsg::Received(content)) => self.deliver(content, 0),
                Some(SignalMsg::Error(reason)) => (
                    DispatchStage::Ended,
                    DispatchAction::Failed(reason),
                ),
                Some(SignalMsg::Send(_, _)) => (DispatchStage::Waiting, DispatchAction::Receive),
                Some(SignalMsg::ManagerRequest(_, _)) => (
                    DispatchStage::Waiting,
                    DispatchAction::Receive,
                ),
                None => (DispatchStage::Ended, DispatchAction::Closed),
            },
            (DispatchStage::Delivering { content, at }, DispatchEvent::Handled) => {
                if at < self.handlers.len() {
                    self.deliver(content, at + 1)
                } else {
                    (DispatchStage::Waiting, DispatchAction::Receive)
                }
            },
            _ => (DispatchStage::Ended, DispatchAction::OutOfTurn),
        }
    }
}

/// What the dispatching asks for, in order, when it is told of `events` one after the other.
pub open spec fn dispatch_actions(
    count: nat,
    stage: DispatchStageView,
    events: Seq<DispatchEventView>,
) -> Seq<DispatchActionView>
    decreases events.len(),
{
    if events.len() == 0 {
        Seq::empty()
    } else {
        let (next, action) = dispatch_step(count, stage, events[0]);
        seq![action] + dispatch_actions(count, next, events.skip(1))
    }
}

/// The message that a stage is about, if it is about one.
pub open spec fn message_of(stage: DispatchStageView) -> Option<ContentView> {
    match stage {
        DispatchStageView::Delivering { content, .. } => Some(content),
        _ => None,
    }
}

/// From the handler at `at` on, each handler gets its turn, and then the next message is awaited.
proof fn lemma_turns(count: nat, content: ContentView, at: int, rest: Seq<DispatchEventView>)
    requires
        0 <= at <= count <= usize::MAX,
    ensures
        seq![pass_on(count, content, at).1] + dispatch_actions(
            count,
            pass_on(count, content, at).0,
            Seq::new((count - at) as nat, |i: int| DispatchEventView::Handled) + rest,
        ) == Seq::new((count - at) as nat, |i: int| DispatchActionView::Handle((at + i) as usize))
            + seq![DispatchActionView::Receive] + dispatch_actions(
            count,
            DispatchStageView::Waiting,
            rest,
        ),
    decreases count - at,
{
    let turns = Seq::new((count - at) as nat, |i: int| DispatchEventView::Handled);
    let handles = Seq::new(
        (count - at) as nat,
        |i: int| DispatchActionView::Handle((at + i) as usize),
    );
    let after = seq![DispatchActionView::Receive] + dispatch_actions(
        count,
        DispatchStageView::Waiting,
        rest,
    );
    let here = pass_on(count, content, at);
    let events = turns + rest;
    if at < count {
        let next_turns = Seq::new((count - at - 1) as nat, |i: int| DispatchEventView::Handled);
        let next_handles = Seq::new(
            (count - at - 1) as nat,
            |i: int| DispatchActionView::Handle((at + 1 + i) as usize),
        );
        lemma_turns(count, content, at + 1, rest);
        assert(events.skip(1) =~= next_turns + rest);
        assert(events[0] == DispatchEventView::Handled);
        assert(handles =~= seq![here.1] + next_handles);
        assert(seq![here.1] + dispatch_actions(count, here.0, events) =~= handles + seq![
            DispatchActionView::Receive,
        ] + dispatch_actions(count, DispatchStageView::Waiting, rest));
    } else {
        assert(events =~= rest);
        assert(seq![here.1] + dispatch_actions(count, here.0, events) =~= handles + seq![
            DispatchActionView::Receive,
        ] + dispatch_actions(count, DispatchStageView::Waiting, rest));
    }
}

/// Every message that arrives is given to every handler, once and in the order in which they were
/// registered, before the next message is awaited; what follows does not depend on it.
pub proof fn law_every_handler_gets_every_message(
    count: nat,
    content: ContentView,
    rest: Seq<DispatchEventView>,
)
    requires
        count <= usize::MAX,
    ensures
        dispatch_actions(
            count,
            DispatchStageView::Waiting,
            seq![DispatchEventView::Arrived(Some(SignalMsgView::Received(content)))] + (Seq::new(
                count,
                |i: int| DispatchEventView::Handled,
            ) + rest),
        ) == Seq::new(count, |i: int| DispatchActionView::Handle(i as usize)) + seq![
            DispatchActionView::Receive,
        ] + dispatch_actions(count, DispatchStageView::Waiting, rest),
{
    let arrived = DispatchEventView::Arrived(Some(SignalMsgView::Received(content)));
    let turns = Seq::new(count, |i: int| DispatchEventView::Handled);
    let events = seq![arrived] + (turns + rest);
    lemma_turns(count, content, 0, rest);
    assert(events.skip(1) =~= turns + rest);
    assert(Seq::new((count - 0) as nat, |i: int| DispatchEventView::Handled) =~= turns);
    assert(Seq::new((count - 0) as nat, |i: int| DispatchActionView::Handle((0 + i) as usize))
        =~= Seq::new(count, |i: int| DispatchActionView::Handle(i as usize)));
}

/// What happens when `msgs` arrive one after the other, and each of `count` handlers deals with
/// each message among them.
pub open spec fn arrivals(count: nat, msgs: Seq<SignalMsgView>) -> Seq<DispatchEventView>
    decreases msgs.len(),
{
    if msgs.len() == 0 {
        Seq::empty()
    } else {
        let arrived = seq![DispatchEventView::Arrived(Some(msgs[0]))];
        let later = arrivals(count, msgs.skip(1));
        if msgs[0] is Received {
            arrived + (Seq::new(count, |i: int| DispatchEventView::Handled) + later)
        } else {
            arrived + later
        }
    }
}

/// What is asked for when `msgs` arrive: with each message all of `count` handlers get their turn,
/// with anything else none does, and then the next is awaited.
pub open spec fn rounds(count: nat, msgs: Seq<SignalMsgView>) -> Seq<DispatchActionView>
    decreases msgs.len(),
{
    if msgs.len() == 0 {
        Seq::empty()
    } else {
        let later = rounds(count, msgs.skip(1));
        if msgs[0] is Received {
            Seq::new(count, |i: int| DispatchActionView::Handle(i as usize)) + seq![
                DispatchActionView::Receive,
            ] + later
        } else {
            seq![DispatchActionView::Receive] + later
        }
    }
}

/// Whatever arrives, as long as it is no failure of the network layer: each message is given to
/// every handler, and all handlers are done with one message before the next is awaited. What is
/// no message is passed over.
pub proof fn law_messages_are_handed_on_in_turn(
    count: nat,
    msgs: Seq<SignalMsgView>,
    rest: Seq<DispatchEventView>,
)
    requires
        count <= usize::MAX,
        forall|i: int| 0 <= i < msgs.len() ==> !(#[trigger] msgs[i] is Error),
    ensures
        dispatch_actions(count, DispatchStageView::Waiting, arrivals(count, msgs) + rest) == rounds(
            count,
            msgs,
        ) + dispatch_actions(count, DispatchStageView::Waiting, rest),
    decreases msgs.len(),
{
    let after = dispatch_actions(count, DispatchStageView::Waiting, rest);
    let events = arrivals(count, msgs) + rest;
    if msgs.len() == 0 {
        assert(events =~= rest);
        assert(rounds(count, msgs) + after =~= after);
    } else {
        let first = msgs[0];
        let others = msgs.skip(1);
        let later = arrivals(count, others) + rest;
        let arrived = DispatchEventView::Arrived(Some(first));
        assert(!(first is Error));
        assert forall|i: int| 0 <= i < others.len() implies !(#[trigger] others[i] is Error) by {
            assert(others[i] == msgs[i + 1]);
        }
        law_messages_are_handed_on_in_turn(count, others, rest);
        if let SignalMsgView::Received(content) = first {
            let turns = Seq::new(count, |i: int| DispatchEventView::Handled);
            let round = Seq::new(count, |i: int| DispatchActionView::Handle(i as usize)) + seq![
                DispatchActionView::Receive,
            ];
            law_every_handler_gets_every_message(count, content, later);
            assert(events =~= seq![arrived] + (turns + later));
            assert(round + (rounds(count, others) + after) =~= round + rounds(count, others)
                + after);
        } else {
            let receive = seq![DispatchActionView::Receive];
            assert(events =~= seq![arrived] + later);
            assert(events.skip(1) =~= later);
            assert(receive + (rounds(count, others) + after) =~= receive + rounds(count, others)
                + after);
        }
    }
}

/// Once everything that arrived has been handed on, the closing of the channel ends the
/// dispatching, and nothing is lost before it.
pub proof fn law_closing_comes_after_everything(count: nat, msgs: Seq<SignalMsgView>)
    requires
        count <= usize::MAX,
        forall|i: int| 0 <= i < msgs.len() ==> !(#[trigger] msgs[i] is Error),
    ensures
        dispatch_actions(
            count,
            DispatchStageView::Waiting,
            arrivals(count, msgs) + seq![DispatchEventView::Arrived(None)],
        ) == rounds(count, msgs) + seq![DispatchActionView::Closed],
{
    let closing = seq![DispatchEventView::Arrived(None)];
    law_messages_are_handed_on_in_turn(count, msgs, closing);
    reveal_with_fuel(dispatch_actions, 2);
    assert(closing.skip(1) =~= Seq::<DispatchEventView>::empty());
    assert(dispatch_actions(count, DispatchStageView::Waiting, closing) =~= seq![
        DispatchActionView::Closed,
    ]);
}

/// A handler is only ever asked to handle the message that arrived last: a step to another handler
/// keeps the message, and a step to a first handler takes the one that arrives.
pub proof fn law_handlers_get_the_message_that_arrived(
    count: nat,
    stage: DispatchStageView,
    event: DispatchEventView,
)
    requires
        dispatch_step(count, stage, event).1 is Handle,
    ensures
        match stage {
            DispatchStageView::Delivering { content, .. } => message_of(
                dispatch_step(count, stage, event).0,
            ) == Some(content),
            _ => event matches DispatchEventView::Arrived(Some(SignalMsgView::Received(content)))
                && message_of(dispatch_step(count, stage, event).0) == Some(content),
        },
{
}

/// Only registered handlers are asked for.
pub proof fn law_only_registered_handlers_are_asked(
    count: nat,
    stage: DispatchStageView,
    event: DispatchEventView,
)
    requires
        count <= usize::MAX,
    ensures
        dispatch_step(count, stage, event).1 matches DispatchActionView::Handle(at) ==> at < count,
{
}

} // verus!
