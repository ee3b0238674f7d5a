//! What a handler of messages can ask for, and what it is told in return.
//!
//! A handler does not talk to the network itself. It is a state machine: it is told what has
//! happened, moves to its next stage and says what is to be done. Whoever runs it does that, and
//! tells it how it went.
use crate::bot::thread_state::{BotThreadState, WhisperModel};
use crate::content::{AttachmentPointer, AttachmentPointerView, Content, ContentView, Thread};
use crate::text::option_view;
use vstd::prelude::*;

verus! {

/// The form of a voice message.
#[allow(clippy::upper_case_acronyms)]
#[derive(Debug, PartialEq, Eq, Clone, Copy, Structural)]
pub enum AudioType {
    AAC,
    M4A,
}

/// Why a voice message cannot be transcribed.
#[derive(Debug, PartialEq, Eq, Clone, Copy, Structural)]
pub enum AudioError {
    /// The voice message could not be fetched, for whatever reason.
    NotFetched,
}

impl AudioError {
    /// What went wrong, in words.
    pub open spec fn words(self) -> Seq<char> {
        match self {
            AudioError::NotFetched => "failed to fetch attachment"@,
        }
    }

    /// What went wrong, in words.
    pub fn message(&self) -> (text: String)
        ensures
            text@ == self.words(),
    {
        match self {
            AudioError::NotFetched => "failed to fetch attachment".to_owned(),
        }
    }
}

/// How the handling of a message ended.
#[derive(Debug, PartialEq, Eq, Clone, Copy, Structural)]
pub enum Outcome {
    /// What the message asked for was done.
    Handled,
    /// The message was a text of the account's owner, but no command.
    NotACommand,
    /// The message was of no interest.
    Skipped,
    /// No conversation could be told from the message.
    NoThread,
}

/// Why the handling of a message broke off.
#[derive(Debug, PartialEq, Eq, Clone, Copy, Structural)]
pub enum AbortReason {
    /// The settings of the conversation could not be read.
    LoadFailed,
    /// An answer could not be handed to the network.
    SendFailed,
    /// The settings of the conversation could not be stored.
    SaveFailed,
    /// The handler was told something that it was not waiting for.
    OutOfTurn,
}

/// What a handler is told.
#[derive(Debug, PartialEq, Eq)]
pub enum HandlerEvent {
    /// A message is to be handled.
    Start,
    /// The settings of the conversation, if they could be read.
    Loaded(Option<BotThreadState>),
    /// Whether the answer was handed to the network.
    Sent(bool),
    /// The attachment, if it could be fetched.
    Fetched(Option<Vec<u8>>),
    /// The transcript, if the voice message could be transcribed.
    Transcribed(Option<String>),
    /// Whether the settings were stored.
    Saved(bool),
    /// The message was logged.
    Logged,
}

#[verifier::ext_equal]
pub enum HandlerEventView {
    Start,
    Loaded(Option<BotThreadState>),
    Sent(bool),
    Fetched(Option<Seq<u8>>),
    Transcribed(Option<Seq<char>>),
    Saved(bool),
    Logged,
}

impl View for HandlerEvent {
    type V = HandlerEventView;

    open spec fn view(&self) -> HandlerEventView {
        match self {
            HandlerEvent::Start => HandlerEventView::Start,
            HandlerEvent::Loaded(state) => HandlerEventView::Loaded(*state),
            HandlerEvent::Sent(done) => HandlerEventView::Sent(*done),
            HandlerEvent::Fetched(data) => HandlerEventView::Fetched(option_view(*data)),
            HandlerEvent::Transcribed(text) => HandlerEventView::Transcribed(option_view(*text)),
            HandlerEvent::Saved(done) => HandlerEventView::Saved(*done),
            HandlerEvent::Logged => HandlerEventView::Logged,
        }
    }
}

/// What a handler asks for.
#[derive(Debug, PartialEq, Eq)]
pub enum HandlerAction {
    /// Read the settings of a conversation.
    Load(Thread),
    /// Put an emoji on the message.
    React(String),
    /// Answer the message with a text that quotes it.
    Quote(String),
    /// Store settings for a conversation.
    Save(Thread, BotThreadState),
    /// Fetch an attachment.
    Fetch(AttachmentPointer),
    /// Decode a voice message and transcribe it with a model.
    Transcribe(WhisperModel, AudioType, Vec<u8>),
    /// Log a message.
    Log(Content),
    /// Nothing more: the message has been dealt with.
    Done(Outcome),
    /// Nothing more: the message cannot be dealt with.
    Abort(AbortReason),
}

#[verifier::ext_equal]
pub enum HandlerActionView {
    Load(Thread),
    React(Seq<char>),
    Quote(Seq<char>),
    Save(Thread, BotThreadState),
    Fetch(AttachmentPointerView),
    Transcribe(WhisperModel, AudioType, Seq<u8>),
    Log(ContentView),
    Done(Outcome),
    Abort(AbortReason),
}

impl View for HandlerAction {
    type V = HandlerActionView;

    open spec fn view(&self) -> HandlerActionView {
        match self {
            HandlerAction::Load(thread) => HandlerActionView::Load(*thread),
            HandlerAction::React(emoji) => HandlerActionView::React(emoji@),
            HandlerAction::Quote(text) => HandlerActionView::Quote(text@),
            HandlerAction::Save(thread, state) => HandlerActionView::Save(*thread, *state),
            HandlerAction::Fetch(pointer) => HandlerActionView::Fetch(pointer@),
            HandlerAction::Transcribe(model, audio, data) => HandlerActionView::Transcribe(
                *model,
                *audio,
                data@,
            ),
            HandlerAction::Log(content) => HandlerActionView::Log(content@),
            HandlerAction::Done(outcome) => HandlerActionView::Done(*outcome),
            HandlerAction::Abort(reason) => HandlerActionView::Abort(*reason),
        }
    }
}

/// A handler of messages.
pub trait SignalMsgHandler {
    /// How far the handling of one message has come.
    type Stage;

    /// The stage before anything has happened.
    spec fn first_stage(&self) -> Self::Stage;

    /// What follows when the handler is told of `event` in `stage` while it handles `content`:
    /// its next stage, and what it asks for.
    spec fn step(
        &self,
        content: ContentView,
        stage: Self::Stage,
        event: HandlerEventView,
    ) -> (Self::Stage, HandlerActionView);

    /// The stage before anything has happened.
    fn start(&self) -> (stage: Self::Stage)
        ensures
            stage == self.first_stage(),
    ;

    /// Takes one step in the handling of `content`.
    fn handle(&self, content: &Content, stage: Self::Stage, event: HandlerEvent) -> (next: (
        Self::Stage,
        HandlerAction,
    ))
        ensures
            (next.0, next.1@) == self.step(content@, stage, event@),
    ;
}

/// What a handler asks for, in order, when it is told of `events` one after the other.
pub open spec fn actions_of<H: SignalMsgHandler>(
    handler: H,
    content: ContentView,
    stage: H::Stage,
    events: Seq<HandlerEventView>,
) -> Seq<HandlerActionView>
    decreases events.len(),
{
    if events.len() == 0 {
        Seq::empty()
    } else {
        let (next, action) = handler.step(content, stage, events[0]);
        seq![action] + actions_of(handler, content, next, events.skip(1))
    }
}

/// The first event leads to the first action; the rest follows from the stage that it led to.
pub proof fn lemma_actions_of_first<H: SignalMsgHandler>(
    handler: H,
    content: ContentView,
    stage: H::Stage,
    event: HandlerEventView,
    rest: Seq<HandlerEventView>,
)
    ensures
        actions_of(handler, content, stage, seq![event] + rest) == seq![
            handler.step(content, stage, event).1,
        ] + actions_of(handler, content, handler.step(content, stage, event).0, rest),
{
    assert((seq![event] + rest).skip(1) =~= rest);
}

/// The views of what a handler is told and of what it asks for tell everything as it is.
pub proof fn law_views_tell_events_and_actions(event: HandlerEvent, action: HandlerAction)
    ensures
        event@ == (match event {
            HandlerEvent::Start => HandlerEventView::Start,
            HandlerEvent::Loaded(state) => HandlerEventView::Loaded(state),
            HandlerEvent::Sent(done) => HandlerEventView::Sent(done),
            HandlerEvent::Fetched(Some(data)) => HandlerEventView::Fetched(Some(data@)),
            HandlerEvent::Fetched(None) => HandlerEventView::Fetched(None),
            HandlerEvent::Transcribed(Some(text)) => HandlerEventView::Transcribed(Some(text@)),
            HandlerEvent::Transcribed(None) => HandlerEventView::Transcribed(None),
            HandlerEvent::Saved(done) => HandlerEventView::Saved(done),
            HandlerEvent::Logged => HandlerEventView::Logged,
        }),
        action@ == (match action {
            HandlerAction::Load(thread) => HandlerActionView::Load(thread),
            HandlerAction::React(emoji) => HandlerActionView::React(emoji@),
            HandlerAction::Quote(text) => HandlerActionView::Quote(text@),
            HandlerAction::Save(thread, state) => HandlerActionView::Save(thread, state),
            HandlerAction::Fetch(pointer) => HandlerActionView::Fetch(pointer@),
            HandlerAction::Transcribe(model, audio, data) => HandlerActionView::Transcribe(
                model,
                audio,
                data@,
            ),
            HandlerAction::Log(content) => HandlerActionView::Log(content@),
            HandlerAction::Done(outcome) => HandlerActionView::Done(outcome),
            HandlerAction::Abort(reason) => HandlerActionView::Abort(reason),
        }),
{
}

} // verus!
