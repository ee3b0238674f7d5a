//! From the handlers to the network.
use crate::clock::{clock_reads, timestamp};
use crate::content::{
    AttachmentPointer, AttachmentPointerView, ContentBody, ContentBodyView, DataMessage,
    DataMessageView, GroupContextV2, GroupContextV2View, Thread,
};
use crate::signal::handle::order_to_send;
use crate::signal::{
    ManagerReply, ManagerReplyView, ManagerRequest, ManagerRequestView, SignalMsg,
    SignalMsgView,
};
use crate::text::option_view;
use vstd::prelude::*;

verus! {

/// How far the task has come.
#[derive(Debug)]
pub enum OutgoingStage {
    /// The next order is awaited.
    Waiting,
    /// An order is being carried out, or was refused; either way the next one follows.
    Working,
    /// An attachment is being fetched, to be sent there.
    Fetching(flume::Sender<ManagerReply>),
    /// An answer is being sent.
    Replying,
    /// The task has ended.
    Ended,
}

/// What the task is told.
#[derive(Debug)]
pub enum OutgoingEvent {
    /// The next order, or that there will be none.
    Ordered(Option<SignalMsg>),
    /// The task is done with an order, well or badly.
    Worked,
    /// The attachment, if it could be fetched.
    Fetched(Option<Vec<u8>>),
    /// Whether the answer was taken.
    Replied(bool),
}

#[verifier::ext_equal]
pub enum OutgoingEventView {
    Ordered(Option<SignalMsgView>),
    Worked,
    Fetched(Option<Seq<u8>>),
    Replied(bool),
}

impl View for OutgoingEvent {
    type V = OutgoingEventView;

    open spec fn view(&self) -> OutgoingEventView {
        match self {
            OutgoingEvent::Ordered(order) => OutgoingEventView::Ordered(option_view(*order)),
            OutgoingEvent::Worked => OutgoingEventView::Worked,
            OutgoingEvent::Fetched(data) => OutgoingEventView::Fetched(option_view(*data)),
            OutgoingEvent::Replied(done) => OutgoingEventView::Replied(*done),
        }
    }
}

/// How the task ends.
#[derive(Debug, PartialEq, Eq, Clone, Copy, Structural)]
pub enum OutgoingEnd {
    /// There are no more orders.
    NoMoreOrders,
    /// An answer was not taken.
    ReplyNotTaken,
    /// A message was to be sent while the clock stood before the Unix epoch.
    ClockBeforeEpoch,
    /// The task was told something that it was not waiting for.
    OutOfTurn,
}

/// What the task asks for.
#[derive(Debug)]
pub enum OutgoingAction {
    /// Wait for the next order.
    Receive,
    /// Send something to a contact, as sent at this time.
    SendToContact([u8; 16], ContentBody, u64),
    /// Send a message to a group, as sent at this time.
    SendToGroup([u8; 32], DataMessage, u64),
    /// Warn that an order cannot be carried out, because only messages go to groups.
    Refuse,
    /// Note what arrived that is no order.
    Ignore(SignalMsg),
    /// Fetch an attachment.
    Fetch(AttachmentPointer),
    /// Send an answer.
    Reply(flume::Sender<ManagerReply>, ManagerReply),
    /// Nothing more.
    End(OutgoingEnd),
}

#[verifier::ext_equal]
pub enum OutgoingActionView {
    Receive,
    SendToContact([u8; 16], ContentBodyView, u64),
    SendToGroup([u8; 32], DataMessageView, u64),
    Refuse,
    Ignore(SignalMsgView),
    Fetch(AttachmentPointerView),
    Reply(flume::Sender<ManagerReply>, ManagerReplyView),
    End(OutgoingEnd),
}

impl View for OutgoingAction {
    type V = OutgoingActionView;

    open spec fn view(&self) -> OutgoingActionView {
        match self {
            OutgoingAction::Receive => OutgoingActionView::Receive,
            OutgoingAction::SendToContact(uuid, body, now) => OutgoingActionView::SendToContact(
                *uuid,
                body@,
                *now,
            ),
            OutgoingAction::SendToGroup(key, message, now) => OutgoingActionView::SendToGroup(
                *key,
                message@,
                *now,
            ),
            OutgoingAction::Refuse => OutgoingActionView::Refuse,
            OutgoingAction::Ignore(other) => OutgoingActionView::Ignore(other@),
            OutgoingAction::Fetch(pointer) => OutgoingActionView::Fetch(pointer@),
            OutgoingAction::Reply(reply_to, reply) => OutgoingActionView::Reply(*reply_to, reply@),
            OutgoingAction::End(end) => OutgoingActionView::End(*end),
        }
    }
}

/// A message with the mark of the group that it is sent to.
pub open spec fn for_group(master_key: [u8; 32], message: DataMessageView) -> DataMessageView {
    DataMessageView {
        group_v2: Some(
            GroupContextV2View {
                master_key: Some(master_key@),
                revision: Some(2),
                rest: Seq::empty(),
            },
        ),
        ..message
    }
}

/// What follows on an order that is carried out while the clock reads `now`, which matters only
/// where something is sent.
pub open spec fn carry_out(order: SignalMsgView, now: Option<u64>) -> (
    OutgoingStage,
    OutgoingActionView,
) {
    match order {
        SignalMsgView::Send(thread, body) => match (thread, body, now) {
            (Thread::Contact(uuid), _, Some(stamp)) => (
                OutgoingStage::Working,
                OutgoingActionView::SendToContact(uuid, body, stamp),
            ),
            (Thread::Group(key), ContentBodyView::DataMessage(message), Some(stamp)) => (
                OutgoingStage::Working,
                OutgoingActionView::SendToGroup(key, for_group(key, message), stamp),
            ),
            (Thread::Contact(_), _, None) => (
                OutgoingStage::Ended,
                OutgoingActionView::End(OutgoingEnd::ClockBeforeEpoch),
            ),
            (Thread::Group(_), ContentBodyView::DataMessage(_), None) => (
                OutgoingStage::Ended,
                OutgoingActionView::End(OutgoingEnd::ClockBeforeEpoch),
            ),
            (Thread::Group(_), _, _) => (OutgoingStage::Working, OutgoingActionView::Refuse),
        },
        SignalMsgView::ManagerRequest(ManagerRequestView::GetAttachment(pointer), reply_to) => (
            OutgoingStage::Fetching(reply_to),
            OutgoingActionView::Fetch(pointer),
        ),
        SignalMsgView::Received(_) => (OutgoingStage::Working, OutgoingActionView::Ignore(order)),
        SignalMsgView::Error(_) => (OutgoingStage::Working, OutgoingActionView::Ignore(order)),
    }
}

/// Whether something is sent, and so the clock is read, when the task is told of `event` in
/// `stage`.
pub open spec fn reads_clock(stage: OutgoingStage, event: OutgoingEventView) -> bool {
    &&& stage is Waiting
    &&& event matches OutgoingEventView::Ordered(Some(SignalMsgView::Send(thread, body)))
    &&& thread is Contact || body is DataMessage
}

/// What follows when the task is told of `event` in `stage` while the clock reads `now`, which
/// matters only where something is sent. An attachment that cannot be fetched is not answered: the
/// way back is closed instead.
pub open spec fn outgoing_step(
    stage: OutgoingStage,
    event: OutgoingEventView,
    now: Option<u64>,
) -> (OutgoingStage, OutgoingActionView) {
    match (stage, event) {
        (OutgoingStage::Waiting, OutgoingEventView::Ordered(ordered)) => match ordered {
            Some(order) => carry_out(order, now),
            None => (OutgoingStage::Ended, OutgoingActionView::End(OutgoingEnd::NoMoreOrders)),
        },
        (OutgoingStage::Working, OutgoingEventView::Worked) => (
            OutgoingStage::Waiting,
            OutgoingActionView::Receive,
        ),
        (OutgoingStage::Fetching(reply_to), OutgoingEventView::Fetched(fetched)) => match fetched {
            Some(data) => (
                OutgoingStage::Replying,
                OutgoingActionView::Reply(reply_to, ManagerReplyView::Attachment(data)),
            ),
            None => (OutgoingStage::Waiting, OutgoingActionView::Receive),
        },
        (OutgoingStage::Replying, OutgoingEventView::Replied(done)) => if done {
            (OutgoingStage::Waiting, OutgoingActionView::Receive)
        } else {
            (OutgoingStage::Ended, OutgoingActionView::End(OutgoingEnd::ReplyNotTaken))
        },
        _ => (OutgoingStage::Ended, OutgoingActionView::End(OutgoingEnd::OutOfTurn)),
    }
}

/// What follows on an order that is carried out while the clock reads `now`.
fn route(order: SignalMsg, now: Option<u64>) -> (next: (OutgoingStage, OutgoingAction))
    ensures
        (next.0, next.1@) == carry_out(order@, now),
{
    match order {
        SignalMsg::Send(thread, body) => match thread {
            Thread::Contact(uuid) => match now {
                Some(stamp) => (
                    OutgoingStage::Working,
                    OutgoingAction::SendToContact(uuid, body, stamp),
                ),
                None => (
                    OutgoingStage::Ended,
                    OutgoingAction::End(OutgoingEnd::ClockBeforeEpoch),
                ),
            },
            Thread::Group(master_key) => match body {
                ContentBody::DataMessage(unmarked) => match now {
                    Some(stamp) => {
                        let mut message = unmarked;
                        message.group_v2 = Some(
                            GroupContextV2 {
                                master_key: Some(
                                    vstd::slice::slice_to_vec(master_key.as_slice()),
                                ),
                                revision: Some(2),
                                rest: Vec::new(),
                            },
                        );
                        (
                            OutgoingStage::Working,
                            OutgoingAction::SendToGroup(master_key, message, stamp),
                        )
                    },
                    None => (
                        OutgoingStage::Ended,
                        OutgoingAction::End(OutgoingEnd::ClockBeforeEpoch),
                    ),
                },
                _ => (OutgoingStage::Working, OutgoingAction::Refuse),
            },
        },
        SignalMsg::ManagerRequest(request, reply_to) => match request {
            ManagerRequest::GetAttachment(pointer) => (
                OutgoingStage::Fetching(reply_to),
                OutgoingAction::Fetch(pointer),
            ),
        },
        other => (OutgoingStage::Working, OutgoingAction::Ignore(other)),
    }
}

/// Takes one step of the task that carries out the orders of the handlers, while the clock reads
/// `now`. The task begins in `Waiting`, with the first order being awaited.
pub fn outgoing_signal_task_at(
    stage: OutgoingStage,
    event: OutgoingEvent,
    now: Option<u64>,
) -> (next: (OutgoingStage, OutgoingAction))
    ensures
        (next.0, next.1@) == outgoing_step(stage, event@, now),
{
    match (stage, event) {
        (OutgoingStage::Waiting, OutgoingEvent::Ordered(ordered)) => match ordered {
            Some(order) => route(order, now),
            None => (OutgoingStage::Ended, OutgoingAction::End(OutgoingEnd::NoMoreOrders)),
        },
        (OutgoingStage::Working, OutgoingEvent::Worked) => (
            OutgoingStage::Waiting,
            OutgoingAction::Receive,
        ),
        (OutgoingStage::Fetching(reply_to), OutgoingEvent::Fetched(fetched)) => match fetched {
            Some(data) => (
                OutgoingStage::Replying,
                OutgoingAction::Reply(reply_to, ManagerReply::Attachment(data)),
            ),
            None => (OutgoingStage::Waiting, OutgoingAction::Receive),
        },
        (OutgoingStage::Replying, OutgoingEvent::Replied(done)) => if done {
            (OutgoingStage::Waiting, OutgoingAction::Receive)
        } else {
            (OutgoingStage::Ended, OutgoingAction::End(OutgoingEnd::ReplyNotTaken))
        },
        _ => (OutgoingStage::Ended, OutgoingAction::End(OutgoingEnd::OutOfTurn)),
    }
}

/// Whether something is sent, and so the clock is read, when the task is told of `event` in
/// `stage`.
fn sends(stage: &OutgoingStage, event: &OutgoingEvent) -> (found: bool)
    ensures
        found == reads_clock(*stage, event@),
{
    match (stage, event) {
        (OutgoingStage::Waiting, OutgoingEvent::Ordered(Some(SignalMsg::Send(thread, body)))) => {
            match (thread, body) {
                (Thread::Contact(_), _) => true,
                (_, ContentBody::DataMessage(_)) => true,
                _ => false,
            }
        },
        _ => false,
    }
}

/// Takes one step of the task that carries out the orders of the handlers. It begins in
/// `Waiting`, with the first order being awaited. What is sent carries the time of the step.
pub fn outgoing_signal_task(stage: OutgoingStage, event: OutgoingEvent) -> (next: (
    OutgoingStage,
    OutgoingAction,
))
    ensures
        reads_clock(stage, event@) ==> exists|now: Option<u64>| #[trigger]
            clock_reads(now) && (next.0, next.1@) == outgoing_step(stage, event@, now),
        !reads_clock(stage, event@) ==> (next.0, next.1@) == outgoing_step(stage, event@, None),
{
    if sends(&stage, &event) {
        let now = timestamp();
        outgoing_signal_task_at(stage, event, now)
    } else {
        outgoing_signal_task_at(stage, event, None)
    }
}

/// Where a message goes that is sent to a conversation at the time `now`.
pub open spec fn destined(
    thread: Thread,
    message: DataMessageView,
    now: u64,
) -> OutgoingActionView {
    match thread {
        Thread::Contact(uuid) => OutgoingActionView::SendToContact(
            uuid,
            ContentBodyView::DataMessage(message),
            now,
        ),
        Thread::Group(key) => OutgoingActionView::SendToGroup(key, for_group(key, message), now),
    }
}

/// What a handler writes to a conversation goes to that conversation, with the time at which it is
/// sent: to the contact as it was written, to the group with the group's mark and otherwise as it
/// was written.
pub proof fn law_messages_go_to_their_thread(thread: Thread, message: DataMessageView, now: u64)
    ensures
        outgoing_step(
            OutgoingStage::Waiting,
            OutgoingEventView::Ordered(Some(order_to_send(thread, message))),
            Some(now),
        ) == (OutgoingStage::Working, destined(thread, message, now)),
{
}

/// The clock matters only where something is sent.
pub proof fn law_only_sending_needs_the_clock(
    stage: OutgoingStage,
    event: OutgoingEventView,
    a: Option<u64>,
    b: Option<u64>,
)
    requires
        !reads_clock(stage, event),
    ensures
        outgoing_step(stage, event, a) == outgoing_step(stage, event, b),
{
}

/// The group's mark is the group's own, and it is all that is added to a message.
pub proof fn law_the_mark_is_all_that_is_added(master_key: [u8; 32], message: DataMessageView)
    ensures
        for_group(master_key, message).group_v2 matches Some(group) && group.master_key == Some(
            master_key@,
        ),
        (DataMessageView { group_v2: message.group_v2, ..for_group(master_key, message) })
            == message,
{
}

/// A handler that asks for an attachment is sent what was fetched for it, and over no other way
/// than its own.
pub proof fn law_requests_are_answered(
    pointer: AttachmentPointerView,
    reply_to: flume::Sender<ManagerReply>,
    data: Seq<u8>,
    now: Option<u64>,
)
    ensures
        ({
            let order = SignalMsgView::ManagerRequest(
                ManagerRequestView::GetAttachment(pointer),
                reply_to,
            );
            let asked = outgoing_step(
                OutgoingStage::Waiting,
                OutgoingEventView::Ordered(Some(order)),
                now,
            );
            let fetched = outgoing_step(asked.0, OutgoingEventView::Fetched(Some(data)), now);
            &&& asked.1 == OutgoingActionView::Fetch(pointer)
            &&& fetched.1 == OutgoingActionView::Reply(
                reply_to,
                ManagerReplyView::Attachment(data),
            )
        }),
{
}

/// The task outlives everything but the end of the orders, an answer that is not taken and a clock
/// before the epoch: after any order it comes back to wait for the next.
pub proof fn law_orders_do_not_end_the_task(
    order: SignalMsgView,
    fetched: Option<Seq<u8>>,
    now: u64,
)
    ensures
        ({
            let begun = outgoing_step(
                OutgoingStage::Waiting,
                OutgoingEventView::Ordered(Some(order)),
                Some(now),
            );
            match begun.0 {
                OutgoingStage::Working => outgoing_step(
                    begun.0,
                    OutgoingEventView::Worked,
                    Some(now),
                ) == (OutgoingStage::Waiting, OutgoingActionView::Receive),
                OutgoingStage::Fetching(_) => {
                    let went_on = outgoing_step(
                        begun.0,
                        OutgoingEventView::Fetched(fetched),
                        Some(now),
                    );
                    ||| went_on == (OutgoingStage::Waiting, OutgoingActionView::Receive)
                    ||| fetched is Some && outgoing_step(
                        went_on.0,
                        OutgoingEventView::Replied(true),
                        Some(now),
                    ) == (OutgoingStage::Waiting, OutgoingActionView::Receive)
                },
                _ => false,
            }
        }),
{
}

/// An event, and what the clock reads when the task is told of it.
pub struct Moment {
    pub event: OutgoingEventView,
    pub now: Option<u64>,
}

/// What the task asks for, in order, when it is told of one event after the other.
pub open spec fn outgoing_actions(stage: OutgoingStage, moments: Seq<Moment>) -> Seq<
    OutgoingActionView,
>
    decreases moments.len(),
{
    if moments.len() == 0 {
        Seq::empty()
    } else {
        let (next, action) = outgoing_step(stage, moments[0].event, moments[0].now);
        seq![action] + outgoing_actions(next, moments.skip(1))
    }
}

/// An order, what was fetched for it where it is a request, and the time at which it is carried
/// out.
pub struct Turn {
    pub order: SignalMsgView,
    pub fetched: Option<Seq<u8>>,
    pub now: u64,
}

impl Turn {
    /// What happens when the order is carried out and every answer is taken.
    pub open spec fn moments(self) -> Seq<Moment> {
        let now = Some(self.now);
        let ordered = Moment { event: OutgoingEventView::Ordered(Some(self.order)), now };
        if self.order is ManagerRequest {
            let fetched = Moment { event: OutgoingEventView::Fetched(self.fetched), now };
            if self.fetched is Some {
                seq![ordered, fetched, Moment { event: OutgoingEventView::Replied(true), now }]
            } else {
                seq![ordered, fetched]
            }
        } else {
            seq![ordered, Moment { event: OutgoingEventView::Worked, now }]
        }
    }

    /// What the task does about the order before it turns to the next one.
    pub open spec fn actions(self) -> Seq<OutgoingActionView> {
        match (self.order, self.fetched) {
            (
                SignalMsgView::ManagerRequest(
                    ManagerRequestView::GetAttachment(pointer),
                    reply_to,
                ),
                Some(data),
            ) => seq![
                OutgoingActionView::Fetch(pointer),
                OutgoingActionView::Reply(reply_to, ManagerReplyView::Attachment(data)),
                OutgoingActionView::Receive,
            ],
            _ => seq![carry_out(self.order, Some(self.now)).1, OutgoingActionView::Receive],
        }
    }
}

/// What happens when orders are carried out one after the other.
pub open spec fn all_moments(turns: Seq<Turn>) -> Seq<Moment>
    decreases turns.len(),
{
    if turns.len() == 0 {
        Seq::empty()
    } else {
        turns[0].moments() + all_moments(turns.skip(1))
    }
}

/// What the task does about orders, one after the other.
pub open spec fn all_actions(turns: Seq<Turn>) -> Seq<OutgoingActionView>
    decreases turns.len(),
{
    if turns.len() == 0 {
        Seq::empty()
    } else {
        turns[0].actions() + all_actions(turns.skip(1))
    }
}

/// The first event leads to the first action; the rest follows from the stage that it led to.
proof fn lemma_outgoing_first(stage: OutgoingStage, moment: Moment, rest: Seq<Moment>)
    ensures
        outgoing_actions(stage, seq![moment] + rest) == seq![
            outgoing_step(stage, moment.event, moment.now).1,
        ] + outgoing_actions(outgoing_step(stage, moment.event, moment.now).0, rest),
{
    assert((seq![moment] + rest).skip(1) =~= rest);
}

/// After an order the task is where it was before it.
proof fn lemma_turn(turn: Turn, rest: Seq<Moment>)
    ensures
        outgoing_actions(OutgoingStage::Waiting, turn.moments() + rest) == turn.actions()
            + outgoing_actions(OutgoingStage::Waiting, rest),
{
    let now = Some(turn.now);
    let moments = turn.moments() + rest;
    let ordered = Moment { event: OutgoingEventView::Ordered(Some(turn.order)), now };
    let begun = carry_out(turn.order, now).0;
    let after = outgoing_actions(OutgoingStage::Waiting, rest);
    if turn.order is ManagerRequest {
        let got = Moment { event: OutgoingEventView::Fetched(turn.fetched), now };
        if turn.fetched is Some {
            let replied = Moment { event: OutgoingEventView::Replied(true), now };
            assert(moments =~= seq![ordered] + (seq![got] + (seq![replied] + rest)));
            lemma_outgoing_first(
                OutgoingStage::Waiting,
                ordered,
                seq![got] + (seq![replied] + rest),
            );
            lemma_outgoing_first(begun, got, seq![replied] + rest);
            lemma_outgoing_first(OutgoingStage::Replying, replied, rest);
        } else {
            assert(moments =~= seq![ordered] + (seq![got] + rest));
            lemma_outgoing_first(OutgoingStage::Waiting, ordered, seq![got] + rest);
            lemma_outgoing_first(begun, got, rest);
        }
    } else {
        let worked = Moment { event: OutgoingEventView::Worked, now };
        assert(moments =~= seq![ordered] + (seq![worked] + rest));
        lemma_outgoing_first(OutgoingStage::Waiting, ordered, seq![worked] + rest);
        lemma_outgoing_first(begun, worked, rest);
    }
    assert(outgoing_actions(OutgoingStage::Waiting, moments) =~= turn.actions() + after);
}

/// Orders are carried out one after the other, in the order in which they were given, each as if
/// it were the only one. So each request is answered with what was fetched for it, over its own
/// way and no other, however many are in flight.
pub proof fn law_orders_are_carried_out_in_turn(turns: Seq<Turn>, rest: Seq<Moment>)
    ensures
        outgoing_actions(OutgoingStage::Waiting, all_moments(turns) + rest) == all_actions(turns)
            + outgoing_actions(OutgoingStage::Waiting, rest),
    decreases turns.len(),
{
    let after = outgoing_actions(OutgoingStage::Waiting, rest);
    if turns.len() == 0 {
        assert(all_moments(turns) + rest =~= rest);
        assert(all_actions(turns) + after =~= after);
    } else {
        let turn = turns[0];
        let others = turns.skip(1);
        law_orders_are_carried_out_in_turn(others, rest);
        lemma_turn(turn, all_moments(others) + rest);
        assert(all_moments(turns) + rest =~= turn.moments() + (all_moments(others) + rest));
        assert(turn.actions() + (all_actions(others) + after) =~= all_actions(turns) + after);
    }
}

} // verus!
