//! The bot: it obeys the commands that the owner of the account writes, and answers voice
//! messages with their transcripts.
use crate::bot::command::{
    command_of, parse_command, reply_to, state_after, Command, Reply, ReplyView,
};
use crate::bot::thread_state::{BotThreadState, WhisperModel};
use crate::content::{
    attachment_views, AttachmentPointer, AttachmentPointerView, Content, ContentBody,
    ContentBodyView, ContentView, Sent, SyncMessage,
};
use crate::handler::{
    AbortReason, AudioError, AudioType, HandlerAction, HandlerActionView, HandlerEvent,
    HandlerEventView, Outcome, SignalMsgHandler,
};
use crate::quick_hash::{machine_keeps, machine_order, ByteOrder, QuickHash};
use crate::text::{concat, ends_with, has_suffix, same_text};
use vstd::prelude::*;

pub mod command;
pub mod laws;
pub mod plain;
pub mod thread_state;

verus! {

/// State that the bot shares between conversations. It has none.
#[derive(Debug, PartialEq, Eq)]
pub struct BotState {}

impl BotState {
    /// The state at the start.
    pub fn new() -> (state: Self)
        ensures
            state == (BotState {  }),
    {
        Self {  }
    }
}

/// The bot. It tells by their hashes whether settings have changed, and hashes depend on the order
/// in which the machine keeps numbers.
#[derive(Debug, PartialEq, Eq, Clone, Copy)]
pub struct Bot {
    pub order: ByteOrder,
}

/// What the bot finds in a message.
pub enum Subject<'a> {
    /// A text that the owner of the account wrote on another device.
    OwnText(&'a String),
    /// A message without a text, and what is attached to it.
    Attachments(&'a Vec<AttachmentPointer>),
    /// Nothing that concerns the bot.
    Nothing,
}

#[verifier::ext_equal]
pub enum SubjectView {
    OwnText(Seq<char>),
    Attachments(Seq<AttachmentPointerView>),
    Nothing,
}

impl<'a> View for Subject<'a> {
    type V = SubjectView;

    open spec fn view(&self) -> SubjectView {
        match self {
            Subject::OwnText(text) => SubjectView::OwnText(text@),
            Subject::Attachments(list) => SubjectView::Attachments(attachment_views(list@)),
            Subject::Nothing => SubjectView::Nothing,
        }
    }
}

/// What the bot finds in a message. Texts concern it only where another device of the same
/// account sent them; attachments do whoever sent them, but not beside a text.
pub open spec fn subject_of(content: ContentView) -> SubjectView {
    match content.body {
        ContentBodyView::SynchronizeMessage(sync) => match sync.sent {
            Some(sent) => match sent.message {
                Some(message) => match message.body {
                    Some(text) => SubjectView::OwnText(text),
                    None => SubjectView::Attachments(message.attachments),
                },
                None => SubjectView::Nothing,
            },
            None => SubjectView::Nothing,
        },
        ContentBodyView::DataMessage(message) => match message.body {
            Some(_) => SubjectView::Nothing,
            None => SubjectView::Attachments(message.attachments),
        },
        ContentBodyView::Other(_) => SubjectView::Nothing,
    }
}

/// The attachments that concern the bot in a message.
pub open spec fn attachments_of(content: ContentView) -> Seq<AttachmentPointerView> {
    match subject_of(content) {
        SubjectView::Attachments(list) => list,
        _ => Seq::empty(),
    }
}

/// Whether an attachment is a voice message.
pub open spec fn is_voice(pointer: AttachmentPointerView) -> bool {
    pointer.media_type() == "audio/aac"@
}

/// The place of the first voice message in `list` from `from` on, or the list's length.
pub open spec fn next_voice(list: Seq<AttachmentPointerView>, from: int) -> int
    decreases list.len() - from,
{
    if from >= list.len() {
        list.len() as int
    } else if is_voice(list[from]) {
        from
    } else {
        next_voice(list, from + 1)
    }
}

/// The form of a voice message, which its file name tells.
pub open spec fn audio_type_of(pointer: AttachmentPointerView) -> AudioType {
    match pointer.file_name {
        Some(name) => if has_suffix(name, ".m4a"@) {
            AudioType::M4A
        } else {
            AudioType::AAC
        },
        None => AudioType::AAC,
    }
}

/// The answer to a voice message.
pub open spec fn transcript_text(transcript: Seq<char>) -> Seq<char> {
    "TRANSCRIPT:\n"@ + transcript
}

/// How far the bot has come with a message.
#[derive(Debug, PartialEq, Eq, Clone, Copy)]
pub enum BotStage {
    /// Nothing has happened yet.
    Idle,
    /// The settings of the conversation are being read.
    Loading,
    /// A command is being answered; it changes the settings from `before` to `after`.
    Replying { before: BotThreadState, after: BotThreadState },
    /// Changed settings are being stored.
    Saving,
    /// An emoji is being put on the message for the voice message at `at`.
    Reacting { state: BotThreadState, at: usize },
    /// The voice message at `at` is being fetched.
    Fetching { state: BotThreadState, at: usize },
    /// The voice message at `at` is being transcribed.
    Transcribing { state: BotThreadState, at: usize },
    /// The transcript of the voice message at `at` is being sent.
    Quoting { state: BotThreadState, at: usize },
    /// The message has been dealt with, or given up.
    Finished,
}

/// The handling is given up.
pub open spec fn give_up(reason: AbortReason) -> (BotStage, HandlerActionView) {
    (BotStage::Finished, HandlerActionView::Abort(reason))
}

/// What follows once a command has been answered: settings that changed are stored for the
/// message's conversation. Whether they changed is told by their hash.
pub open spec fn conclude(
    order: ByteOrder,
    content: ContentView,
    before: BotThreadState,
    after: BotThreadState,
) -> (BotStage, HandlerActionView) {
    if after.digest(order) != before.digest(order) {
        match content.thread {
            Some(thread) => (BotStage::Saving, HandlerActionView::Save(thread, after)),
            None => give_up(AbortReason::OutOfTurn),
        }
    } else {
        (BotStage::Finished, HandlerActionView::Done(Outcome::Handled))
    }
}

/// What follows on a command.
pub open spec fn obey(
    order: ByteOrder,
    content: ContentView,
    state: BotThreadState,
    command: Command,
) -> (BotStage, HandlerActionView) {
    let after = state_after(command, state);
    let stage = BotStage::Replying { before: state, after };
    match reply_to(command, state) {
        ReplyView::Quote(text) => (stage, HandlerActionView::Quote(text)),
        ReplyView::React(emoji) => (stage, HandlerActionView::React(emoji)),
        ReplyView::Silence => conclude(order, content, state, after),
    }
}

/// What follows once the attachments before `from` have been dealt with: the next voice message
/// is noticed with an emoji, and other attachments are passed over.
pub open spec fn attend(
    state: BotThreadState,
    list: Seq<AttachmentPointerView>,
    from: int,
) -> (BotStage, HandlerActionView) {
    let at = next_voice(list, from);
    if at < list.len() {
        (BotStage::Reacting { state, at: at as usize }, HandlerActionView::React("🦻"@))
    } else {
        (BotStage::Finished, HandlerActionView::Done(Outcome::Handled))
    }
}

/// What follows once the settings of the conversation are known.
pub open spec fn consider(order: ByteOrder, content: ContentView, state: BotThreadState) -> (
    BotStage,
    HandlerActionView,
) {
    match subject_of(content) {
        SubjectView::OwnText(text) => match command_of(text) {
            Some(command) => obey(order, content, state, command),
            None => (BotStage::Finished, HandlerActionView::Done(Outcome::NotACommand)),
        },
        SubjectView::Attachments(list) => attend(state, list, 0),
        SubjectView::Nothing => (BotStage::Finished, HandlerActionView::Done(Outcome::Skipped)),
    }
}

/// What follows when the bot is told of `event` in `stage` while it handles `content`, on a machine
/// that keeps numbers in `order`.
pub open spec fn bot_step(
    order: ByteOrder,
    content: ContentView,
    stage: BotStage,
    event: HandlerEventView,
) -> (BotStage, HandlerActionView) {
    let list = attachments_of(content);
    match (stage, event) {
        (BotStage::Idle, HandlerEventView::Start) => match content.thread {
            Some(thread) => (BotStage::Loading, HandlerActionView::Load(thread)),
            None => (BotStage::Finished, HandlerActionView::Done(Outcome::NoThread)),
        },
        (BotStage::Loading, HandlerEventView::Loaded(loaded)) => match loaded {
            Some(state) => consider(order, content, state),
            None => give_up(AbortReason::LoadFailed),
        },
        (BotStage::Replying { before, after }, HandlerEventView::Sent(done)) => if done {
            conclude(order, content, before, after)
        } else {
            give_up(AbortReason::SendFailed)
        },
        (BotStage::Saving, HandlerEventView::Saved(done)) => if done {
            (BotStage::Finished, HandlerActionView::Done(Outcome::Handled))
        } else {
            give_up(AbortReason::SaveFailed)
        },
        (BotStage::Reacting { state, at }, HandlerEventView::Sent(done)) => if at >= list.len() {
            give_up(AbortReason::OutOfTurn)
        } else if done {
            (BotStage::Fetching { state, at }, HandlerActionView::Fetch(list[at as int]))
        } else {
            give_up(AbortReason::SendFailed)
        },
        (BotStage::Fetching { state, at }, HandlerEventView::Fetched(fetched)) => if at
            >= list.len() {
            give_up(AbortReason::OutOfTurn)
        } else {
            match fetched {
                Some(data) => (
                    BotStage::Transcribing { state, at },
                    HandlerActionView::Transcribe(
                        state.whisper_model,
                        audio_type_of(list[at as int]),
                        data,
                    ),
                ),
                None => attend(state, list, at + 1),
            }
        },
        (BotStage::Transcribing { state, at }, HandlerEventView::Transcribed(transcribed)) => if at
            >= list.len() {
            give_up(AbortReason::OutOfTurn)
        } else {
            match transcribed {
                Some(transcript) => (
                    BotStage::Quoting { state, at },
                    HandlerActionView::Quote(transcript_text(transcript)),
                ),
                None => attend(state, list, at + 1),
            }
        },
        (BotStage::Quoting { state, at }, HandlerEventView::Sent(done)) => if at >= list.len() {
            give_up(AbortReason::OutOfTurn)
        } else if done {
            attend(state, list, at + 1)
        } else {
            give_up(AbortReason::SendFailed)
        },
        _ => give_up(AbortReason::OutOfTurn),
    }
}

/// What the bot finds in a message.
pub fn subject<'a>(content: &'a Content) -> (subject: Subject<'a>)
    ensures
        subject@ == subject_of(content@),
{
    match &content.body {
        ContentBody::SynchronizeMessage(
            SyncMessage { sent: Some(Sent { message: Some(message), .. }), .. },
        ) => match &message.body {
            Some(text) => Subject::OwnText(text),
            None => Subject::Attachments(&message.attachments),
        },
        ContentBody::DataMessage(message) => match &message.body {
            Some(_) => Subject::Nothing,
            None => Subject::Attachments(&message.attachments),
        },
        _ => Subject::Nothing,
    }
}

impl Bot {
    /// The bot on this machine.
    pub fn new() -> (bot: Self)
        ensures
            machine_keeps(bot.order),
    {
        Bot { order: machine_order() }
    }

    /// The form of a voice message, which its file name tells.
    pub fn audio_type(pointer: &AttachmentPointer) -> (audio: AudioType)
        ensures
            audio == audio_type_of(pointer@),
    {
        match &pointer.file_name {
            Some(name) => if ends_with(name.as_str(), ".m4a") {
                AudioType::M4A
            } else {
                AudioType::AAC
            },
            None => AudioType::AAC,
        }
    }

    /// What follows once a voice message has been fetched, or could not be: what is to be
    /// transcribed, with which model and in which form, or the error that there is nothing to
    /// transcribe.
    pub fn process_audio_attachment(
        &self,
        state: &BotThreadState,
        pointer: &AttachmentPointer,
        fetched: Option<Vec<u8>>,
    ) -> (work: Result<(WhisperModel, AudioType, Vec<u8>), AudioError>)
        ensures
            match fetched {
                Some(data) => work == Ok::<_, AudioError>(
                    (state.whisper_model, audio_type_of(pointer@), data),
                ),
                None => work == Err::<(WhisperModel, AudioType, Vec<u8>), _>(
                    AudioError::NotFetched,
                ),
            },
    {
        match fetched {
            Some(data) => Ok((state.whisper_model, Self::audio_type(pointer), data)),
            None => Err(AudioError::NotFetched),
        }
    }

    /// What follows once the attachments before `from` have been dealt with.
    pub fn handle_attachments(
        &self,
        state: BotThreadState,
        list: &Vec<AttachmentPointer>,
        from: usize,
    ) -> (next: (BotStage, HandlerAction))
        ensures
            (next.0, next.1@) == attend(state, attachment_views(list@), from as int),
    {
        let ghost views = attachment_views(list@);
        let mut at: usize = from;
        while at < list.len()
            invariant
                views == attachment_views(list@),
                next_voice(views, at as int) == next_voice(views, from as int),
            decreases list.len() - at,
        {
            assert(views[at as int] == list@[at as int]@);
            if same_text(list[at].content_type(), "audio/aac") {
                return (BotStage::Reacting { state, at }, HandlerAction::React("🦻".to_owned()));
            }
            at += 1;
        }
        (BotStage::Finished, HandlerAction::Done(Outcome::Handled))
    }

    /// The handling is given up.
    fn give_up(&self, reason: AbortReason) -> (next: (BotStage, HandlerAction))
        ensures
            (next.0, next.1@) == give_up(reason),
    {
        (BotStage::Finished, HandlerAction::Abort(reason))
    }

    /// What follows once a command has been answered.
    fn conclude(&self, content: &Content, before: BotThreadState, after: BotThreadState) -> (next: (
        BotStage,
        HandlerAction,
    ))
        ensures
            (next.0, next.1@) == conclude(self.order, content@, before, after),
    {
        if after.hash_in(self.order) != before.hash_in(self.order) {
            match content.thread {
                Some(thread) => (BotStage::Saving, HandlerAction::Save(thread, after)),
                None => self.give_up(AbortReason::OutOfTurn),
            }
        } else {
            (BotStage::Finished, HandlerAction::Done(Outcome::Handled))
        }
    }

    /// What follows once the settings of the conversation are known.
    fn consider(&self, content: &Content, state: BotThreadState) -> (next: (
        BotStage,
        HandlerAction,
    ))
        ensures
            (next.0, next.1@) == consider(self.order, content@, state),
    {
        match subject(content) {
            Subject::OwnText(text) => match parse_command(text.as_str()) {
                Some(command) => {
                    let after = command.apply(&state);
                    let stage = BotStage::Replying { before: state, after };
                    match command.reply(&state) {
                        Reply::Quote(answer) => (stage, HandlerAction::Quote(answer)),
                        Reply::React(emoji) => (stage, HandlerAction::React(emoji)),
                        Reply::Silence => self.conclude(content, state, after),
                    }
                },
                None => (BotStage::Finished, HandlerAction::Done(Outcome::NotACommand)),
            },
            Subject::Attachments(list) => self.handle_attachments(state, list, 0),
            Subject::Nothing => (BotStage::Finished, HandlerAction::Done(Outcome::Skipped)),
        }
    }

    /// What follows in a stage that concerns the voice message at `at`.
    fn handle_voice(
        &self,
        content: &Content,
        stage: BotStage,
        at: usize,
        event: HandlerEvent,
    ) -> (next: (BotStage, HandlerAction))
        requires
            match stage {
                BotStage::Reacting { at: place, .. } => place == at,
                BotStage::Fetching { at: place, .. } => place == at,
                BotStage::Transcribing { at: place, .. } => place == at,
                BotStage::Quoting { at: place, .. } => place == at,
                _ => false,
            },
        ensures
            (next.0, next.1@) == bot_step(self.order, content@, stage, event@),
    {
        let list = match subject(content) {
            Subject::Attachments(list) => list,
            _ => {
                return self.give_up(AbortReason::OutOfTurn);
            },
        };
        if at >= list.len() {
            return self.give_up(AbortReason::OutOfTurn);
        }
        let pointer = &list[at];
        assert(attachments_of(content@)[at as int] == pointer@);
        match (stage, event) {
            (BotStage::Reacting { state, .. }, HandlerEvent::Sent(done)) => if done {
                (BotStage::Fetching { state, at }, HandlerAction::Fetch(pointer.clone()))
            } else {
                self.give_up(AbortReason::SendFailed)
            },
            (
                BotStage::Fetching { state, .. },
                HandlerEvent::Fetched(fetched),
            ) => match self.process_audio_attachment(&state, pointer, fetched) {
                Ok((model, audio, data)) => (
                    BotStage::Transcribing { state, at },
                    HandlerAction::Transcribe(model, audio, data),
                ),
                Err(AudioError::NotFetched) => self.handle_attachments(state, list, at + 1),
            },
            (
                BotStage::Transcribing { state, .. },
                HandlerEvent::Transcribed(transcribed),
            ) => match transcribed {
                Some(transcript) => (
                    BotStage::Quoting { state, at },
                    HandlerAction::Quote(concat("TRANSCRIPT:\n", transcript.as_str())),
                ),
                None => self.handle_attachments(state, list, at + 1),
            },
            (BotStage::Quoting { state, .. }, HandlerEvent::Sent(done)) => if done {
                self.handle_attachments(state, list, at + 1)
            } else {
                self.give_up(AbortReason::SendFailed)
            },
            _ => self.give_up(AbortReason::OutOfTurn),
        }
    }
}

impl SignalMsgHandler for Bot {
    type Stage = BotStage;

    open spec fn first_stage(&self) -> BotStage {
        BotStage::Idle
    }

    open spec fn step(&self, content: ContentView, stage: BotStage, event: HandlerEventView) -> (
        BotStage,
        HandlerActionView,
    ) {
        bot_step(self.order, content, stage, event)
    }

    fn start(&self) -> BotStage {
        BotStage::Idle
    }

    fn handle(&self, content: &Content, stage: BotStage, event: HandlerEvent) -> (next: (
        BotStage,
        HandlerAction,
    )) {
        match stage {
            BotStage::Reacting { at, .. } => {
                return self.handle_voice(content, stage, at, event);
            },
            BotStage::Fetching { at, .. } => {
                return self.handle_voice(content, stage, at, event);
            },
            BotStage::Transcribing { at, .. } => {
                return self.handle_voice(content, stage, at, event);
            },
            BotStage::Quoting { at, .. } => {
                return self.handle_voice(content, stage, at, event);
            },
            _ => {},
        }
        match (stage, event) {
            (BotStage::Idle, HandlerEvent::Start) => match content.thread {
                Some(thread) => (BotStage::Loading, HandlerAction::Load(thread)),
                None => (BotStage::Finished, HandlerAction::Done(Outcome::NoThread)),
            },
            (BotStage::Loading, HandlerEvent::Loaded(loaded)) => match loaded {
                Some(state) => self.consider(content, state),
                None => self.give_up(AbortReason::LoadFailed),
            },
            (BotStage::Replying { before, after }, HandlerEvent::Sent(done)) => if done {
                self.conclude(content, before, after)
            } else {
                self.give_up(AbortReason::SendFailed)
            },
            (BotStage::Saving, HandlerEvent::Saved(done)) => if done {
                (BotStage::Finished, HandlerAction::Done(Outcome::Handled))
            } else {
                self.give_up(AbortReason::SaveFailed)
            },
            _ => self.give_up(AbortReason::OutOfTurn),
        }
    }
}

} // verus!
