//! What the bot does, said of the messages themselves: each law here speaks of what a call is
//! given and what it gives back.
use crate::bot::command::{command_text, Command, ModelSize};
use crate::bot::laws::{
    command_actions, command_events, law_command_is_carried_out, lemma_next_voice, opening,
};
use crate::bot::thread_state::{BotThreadState, WhisperModel};
use crate::bot::{attachments_of, is_voice, next_voice, subject, Bot, BotStage, Subject};
use crate::content::{
    attachment_views, AttachmentPointer, Content, ContentBody, ContentBodyView, ContentView,
    DataMessage, DataMessageView, Sent, SentView, SyncMessage, SyncMessageView, Thread,
};
use crate::handler::{
    actions_of, AbortReason, AudioError, AudioType, HandlerAction, HandlerActionView, HandlerEvent,
    HandlerEventView, Outcome, SignalMsgHandler,
};
use crate::quick_hash::QuickHash;
use vstd::prelude::*;

verus! {

/// The handling of a message begins with the settings of its conversation, whatever the message
/// holds. Where no conversation can be told, it ends there.
pub proof fn law_handling_begins_with_the_conversation(
    bot: Bot,
    content: Content,
    stage: BotStage,
    next: (BotStage, HandlerAction),
)
    requires
        call_ensures(<Bot as SignalMsgHandler>::start, (&bot,), stage),
        call_ensures(
            <Bot as SignalMsgHandler>::handle,
            (&bot, &content, stage, HandlerEvent::Start),
            next,
        ),
    ensures
        content.thread matches Some(thread) ==> next == (
            BotStage::Loading,
            HandlerAction::Load(thread),
        ),
        content.thread is None ==> next == (
            BotStage::Finished,
            HandlerAction::Done(Outcome::NoThread),
        ),
{
}

/// What the account's owner writes is a command where it is one of eight texts, to the letter, and
/// whatever else the message holds. A ping is answered with a text that tells whether the bot is
/// enabled, the command for the medium model with nothing, and every other command with a thumb.
/// Only one command changes the settings: it enables the bot.
pub proof fn law_the_owners_texts_are_commands(
    bot: Bot,
    content: Content,
    sync: SyncMessage,
    sent: Sent,
    message: DataMessage,
    text: String,
    state: BotThreadState,
    next: (BotStage, HandlerAction),
)
    requires
        content.body == ContentBody::SynchronizeMessage(sync),
        sync.sent == Some(sent),
        sent.message == Some(message),
        message.body == Some(text),
        call_ensures(
            <Bot as SignalMsgHandler>::handle,
            (&bot, &content, BotStage::Loading, HandlerEvent::Loaded(Some(state))),
            next,
        ),
    ensures
        text@ == "/bot ping"@ && state.enabled ==> (next.1 matches HandlerAction::Quote(answer)
            && answer@ == "pong"@),
        text@ == "/bot ping"@ && !state.enabled ==> (next.1 matches HandlerAction::Quote(answer)
            && answer@ == "pong (disabled)"@),
        text@ == "/bot enable"@ || text@ == "/bot disable"@ || text@ == "/bot model tiny"@ || text@
            == "/bot model base"@ || text@ == "/bot model small"@ || text@ == "/bot model large"@
            ==> (next.1 matches HandlerAction::React(emoji) && emoji@ == "👍"@),
        text@ == "/bot enable"@ ==> next.0 == (BotStage::Replying {
            before: state,
            after: BotThreadState { enabled: true, whisper_model: state.whisper_model },
        }),
        text@ == "/bot ping"@ || text@ == "/bot disable"@ || text@ == "/bot model tiny"@ || text@
            == "/bot model base"@ || text@ == "/bot model small"@ || text@ == "/bot model large"@
            ==> next.0 == (BotStage::Replying { before: state, after: state }),
        text@ == "/bot model medium"@ ==> next == (
            BotStage::Finished,
            HandlerAction::Done(Outcome::Handled),
        ),
        text@ != "/bot ping"@ && text@ != "/bot enable"@ && text@ != "/bot disable"@ && text@
            != "/bot model tiny"@ && text@ != "/bot model base"@ && text@ != "/bot model small"@
            && text@ != "/bot model medium"@ && text@ != "/bot model large"@ ==> next == (
            BotStage::Finished,
            HandlerAction::Done(Outcome::NotACommand),
        ),
{
    lemma_texts_differ(text@);
}

/// No text of a command is the text of another.
proof fn lemma_texts_differ(text: Seq<char>)
    ensures
        text == "/bot enable"@ ==> text != "/bot ping"@,
        text == "/bot model tiny"@ ==> text != "/bot ping"@ && text != "/bot enable"@,
        text == "/bot model base"@ ==> text != "/bot ping"@ && text != "/bot enable"@ && text
            != "/bot model tiny"@,
        text == "/bot model small"@ ==> text != "/bot ping"@ && text != "/bot enable"@ && text
            != "/bot model tiny"@ && text != "/bot model base"@,
        text == "/bot model medium"@ ==> text != "/bot ping"@ && text != "/bot enable"@ && text
            != "/bot model tiny"@ && text != "/bot model base"@ && text != "/bot model small"@,
        text == "/bot model large"@ ==> text != "/bot ping"@ && text != "/bot enable"@ && text
            != "/bot model tiny"@ && text != "/bot model base"@ && text != "/bot model small"@
            && text != "/bot model medium"@,
        text == "/bot disable"@ ==> text != "/bot ping"@ && text != "/bot enable"@ && text
            != "/bot model tiny"@ && text != "/bot model base"@ && text != "/bot model small"@
            && text != "/bot model medium"@ && text != "/bot model large"@,
{
    reveal_strlit("/bot ping");
    reveal_strlit("/bot enable");
    reveal_strlit("/bot model tiny");
    reveal_strlit("/bot model base");
    reveal_strlit("/bot model small");
    reveal_strlit("/bot model medium");
    reveal_strlit("/bot model large");
    reveal_strlit("/bot disable");
    assert("/bot model tiny"@[11] == 't');
    assert("/bot model base"@[11] == 'b');
    assert("/bot model small"@[11] == 's');
    assert("/bot model medium"@[11] == 'm');
    assert("/bot model large"@[11] == 'l');
    assert("/bot enable"@[5] == 'e');
    assert("/bot disable"@[5] == 'd');
    assert("/bot ping"@[5] == 'p');
    assert("/bot model tiny"@[5] == 'm');
}

/// Once a command has been answered, the settings are stored exactly where their hash has changed,
/// and then as the command left them and for the conversation that it was written in. Settings
/// that are the same are not stored.
pub proof fn law_changed_settings_are_stored(
    bot: Bot,
    content: Content,
    before: BotThreadState,
    after: BotThreadState,
    hash_before: u64,
    hash_after: u64,
    next: (BotStage, HandlerAction),
)
    requires
        call_ensures(<BotThreadState as QuickHash>::hash_in, (&before, bot.order), hash_before),
        call_ensures(<BotThreadState as QuickHash>::hash_in, (&after, bot.order), hash_after),
        call_ensures(
            <Bot as SignalMsgHandler>::handle,
            (&bot, &content, BotStage::Replying { before, after }, HandlerEvent::Sent(true)),
            next,
        ),
    ensures
        hash_before == hash_after ==> next == (
            BotStage::Finished,
            HandlerAction::Done(Outcome::Handled),
        ),
        before == after ==> next == (BotStage::Finished, HandlerAction::Done(Outcome::Handled)),
        hash_before != hash_after && content.thread is Some ==> next == (
            BotStage::Saving,
            HandlerAction::Save(content.thread->0, after),
        ),
        hash_before != hash_after && content.thread is None ==> next == (
            BotStage::Finished,
            HandlerAction::Abort(AbortReason::OutOfTurn),
        ),
{
}

/// What others write is no command, whatever it says, and neither is a message without words and
/// without attachments of its own: a report of something else than a message, or a kind of message
/// that the bot does not look into.
pub proof fn law_what_is_of_no_concern_is_skipped(
    bot: Bot,
    content: Content,
    state: BotThreadState,
    next: (BotStage, HandlerAction),
)
    requires
        match content.body {
            ContentBody::DataMessage(message) => message.body is Some,
            ContentBody::SynchronizeMessage(sync) => match sync.sent {
                Some(sent) => sent.message is None,
                None => true,
            },
            ContentBody::Other(_) => true,
        },
        call_ensures(
            <Bot as SignalMsgHandler>::handle,
            (&bot, &content, BotStage::Loading, HandlerEvent::Loaded(Some(state))),
            next,
        ),
    ensures
        next == (BotStage::Finished, HandlerAction::Done(Outcome::Skipped)),
{
}

/// The attachments of a message without a text are what the bot looks at, whether the message came
/// in or was written on another device.
proof fn lemma_attachments(content: Content, message: DataMessage)
    requires
        message.body is None,
        match content.body {
            ContentBody::DataMessage(inner) => inner == message,
            ContentBody::SynchronizeMessage(sync) => match sync.sent {
                Some(sent) => sent.message == Some(message),
                None => false,
            },
            ContentBody::Other(_) => false,
        },
    ensures
        attachments_of(content@) == attachment_views(message.attachments@),
        forall|i: int|
            0 <= i < message.attachments@.len() ==> is_voice(
                #[trigger] attachment_views(message.attachments@)[i],
            ) == (message.attachments@[i].content_type is Some
                && message.attachments@[i].content_type->0@ == "audio/aac"@),
{
    reveal_strlit("audio/aac");
    assert("audio/aac"@.len() == 9);
    assert forall|i: int| 0 <= i < message.attachments@.len() implies is_voice(
        #[trigger] attachment_views(message.attachments@)[i],
    ) == (message.attachments@[i].content_type is Some
        && message.attachments@[i].content_type->0@ == "audio/aac"@) by {
        assert(attachment_views(message.attachments@)[i] == message.attachments@[i]@);
    }
}

/// Of the attachments of a message without a text, the bot turns to the first whose content type
/// is `audio/aac`, and to no other: at first from the beginning of the list, and after a voice
/// message, whether it was lost, unclear or answered, from the place behind it. It notes it with an
/// ear. Where there is none, the message has been dealt with.
pub proof fn law_the_bot_turns_to_the_next_voice_message(
    bot: Bot,
    content: Content,
    message: DataMessage,
    state: BotThreadState,
    stage: BotStage,
    event: HandlerEvent,
    from: int,
    next: (BotStage, HandlerAction),
)
    requires
        message.body is None,
        match content.body {
            ContentBody::DataMessage(inner) => inner == message,
            ContentBody::SynchronizeMessage(sync) => match sync.sent {
                Some(sent) => sent.message == Some(message),
                None => false,
            },
            ContentBody::Other(_) => false,
        },
        match (stage, event) {
            (BotStage::Loading, HandlerEvent::Loaded(Some(loaded))) => loaded == state && from
                == 0,
            (BotStage::Fetching { state: s, at }, HandlerEvent::Fetched(None)) => s == state && at
                < message.attachments@.len() && from == at + 1,
            (BotStage::Transcribing { state: s, at }, HandlerEvent::Transcribed(None)) => s == state
                && at < message.attachments@.len() && from == at + 1,
            (BotStage::Quoting { state: s, at }, HandlerEvent::Sent(true)) => s == state && at
                < message.attachments@.len() && from == at + 1,
            _ => false,
        },
        call_ensures(
            <Bot as SignalMsgHandler>::handle,
            (&bot, &content, stage, event),
            next,
        ),
    ensures
        next.0 is Reacting || next == (BotStage::Finished, HandlerAction::Done(Outcome::Handled)),
        next.0 is Finished ==> forall|i: int|
            from <= i < message.attachments@.len() ==> !((#[trigger]
            message.attachments@[i]).content_type is Some
                && message.attachments@[i].content_type->0@ == "audio/aac"@),
        next.0 matches BotStage::Reacting { state: s, at } ==> {
            &&& s == state
            &&& from <= at < message.attachments@.len()
            &&& message.attachments@[at as int].content_type is Some
            &&& message.attachments@[at as int].content_type->0@ == "audio/aac"@
            &&& forall|i: int|
                from <= i < at ==> !((#[trigger] message.attachments@[i]).content_type is Some
                    && message.attachments@[i].content_type->0@ == "audio/aac"@)
        },
        next.0 is Reacting ==> (next.1 matches HandlerAction::React(emoji) && emoji@ == "🦻"@),
{
    let list = attachment_views(message.attachments@);
    lemma_attachments(content, message);
    lemma_next_voice(list, from);
    let place = next_voice(list, from);
    assert(list.len() == message.attachments.len());
    if place < list.len() {
        assert(is_voice(list[place]));
    }
    assert forall|i: int| from <= i < place && i < message.attachments@.len() implies !((#[trigger]
    message.attachments@[i]).content_type is Some && message.attachments@[i].content_type->0@
        == "audio/aac"@) by {
        assert(!is_voice(list[i]));
    }
}

/// A voice message that has been noted is fetched: the very one.
pub proof fn law_the_noted_voice_message_is_fetched(
    bot: Bot,
    content: Content,
    message: DataMessage,
    state: BotThreadState,
    at: usize,
    next: (BotStage, HandlerAction),
)
    requires
        message.body is None,
        match content.body {
            ContentBody::DataMessage(inner) => inner == message,
            ContentBody::SynchronizeMessage(sync) => match sync.sent {
                Some(sent) => sent.message == Some(message),
                None => false,
            },
            ContentBody::Other(_) => false,
        },
        at < message.attachments@.len(),
        call_ensures(
            <Bot as SignalMsgHandler>::handle,
            (&bot, &content, BotStage::Reacting { state, at }, HandlerEvent::Sent(true)),
            next,
        ),
    ensures
        next.0 == (BotStage::Fetching { state, at }),
        next.1 matches HandlerAction::Fetch(pointer) && pointer.encoded@
            == message.attachments@[at as int].encoded@ && pointer@
            == message.attachments@[at as int]@,
{
    lemma_attachments(content, message);
}

/// What was fetched is transcribed as a whole, with the model of the conversation, and in the form
/// that the file name tells: the one form where the name ends in `.m4a`, the other everywhere else.
pub proof fn law_what_was_fetched_is_transcribed(
    bot: Bot,
    content: Content,
    message: DataMessage,
    state: BotThreadState,
    at: usize,
    data: Vec<u8>,
    next: (BotStage, HandlerAction),
)
    requires
        message.body is None,
        match content.body {
            ContentBody::DataMessage(inner) => inner == message,
            ContentBody::SynchronizeMessage(sync) => match sync.sent {
                Some(sent) => sent.message == Some(message),
                None => false,
            },
            ContentBody::Other(_) => false,
        },
        at < message.attachments@.len(),
        call_ensures(
            <Bot as SignalMsgHandler>::handle,
            (&bot, &content, BotStage::Fetching { state, at }, HandlerEvent::Fetched(Some(data))),
            next,
        ),
    ensures
        next.0 == (BotStage::Transcribing { state, at }),
        next.1 matches HandlerAction::Transcribe(model, audio, whole) && model
            == state.whisper_model && whole@ == data@ && (audio == AudioType::M4A <==> {
            &&& message.attachments@[at as int].file_name is Some
            &&& message.attachments@[at as int].file_name->0@.len() >= 4
            &&& message.attachments@[at as int].file_name->0@.skip(
                message.attachments@[at as int].file_name->0@.len() - 4,
            ) == ".m4a"@
        }),
{
    lemma_attachments(content, message);
    reveal_strlit(".m4a");
}

/// A transcript is sent as a whole: the text that is quoted is a heading of twelve characters and
/// then the transcript, every character of it and nothing more.
pub proof fn law_the_whole_transcript_is_sent(
    bot: Bot,
    content: Content,
    message: DataMessage,
    state: BotThreadState,
    at: usize,
    transcript: String,
    next: (BotStage, HandlerAction),
)
    requires
        message.body is None,
        match content.body {
            ContentBody::DataMessage(inner) => inner == message,
            ContentBody::SynchronizeMessage(sync) => match sync.sent {
                Some(sent) => sent.message == Some(message),
                None => false,
            },
            ContentBody::Other(_) => false,
        },
        at < message.attachments@.len(),
        call_ensures(
            <Bot as SignalMsgHandler>::handle,
            (
                &bot,
                &content,
                BotStage::Transcribing { state, at },
                HandlerEvent::Transcribed(Some(transcript)),
            ),
            next,
        ),
    ensures
        next.0 == (BotStage::Quoting { state, at }),
        next.1 matches HandlerAction::Quote(text) && text@.len() == 12 + transcript@.len()
            && text@.take(12) == "TRANSCRIPT:\n"@ && text@.skip(12) == transcript@,
{
    lemma_attachments(content, message);
    reveal_strlit("TRANSCRIPT:\n");
    assert(("TRANSCRIPT:\n"@ + transcript@).take(12) =~= "TRANSCRIPT:\n"@);
    assert(("TRANSCRIPT:\n"@ + transcript@).skip(12) =~= transcript@);
}

/// Different transcripts are answered with different texts.
pub proof fn law_different_transcripts_give_different_answers(
    bot: Bot,
    content: Content,
    message: DataMessage,
    state: BotThreadState,
    at: usize,
    a: String,
    b: String,
    next_a: (BotStage, HandlerAction),
    next_b: (BotStage, HandlerAction),
)
    requires
        message.body is None,
        match content.body {
            ContentBody::DataMessage(inner) => inner == message,
            ContentBody::SynchronizeMessage(sync) => match sync.sent {
                Some(sent) => sent.message == Some(message),
                None => false,
            },
            ContentBody::Other(_) => false,
        },
        at < message.attachments@.len(),
        a@ != b@,
        call_ensures(
            <Bot as SignalMsgHandler>::handle,
            (
                &bot,
                &content,
                BotStage::Transcribing { state, at },
                HandlerEvent::Transcribed(Some(a)),
            ),
            next_a,
        ),
        call_ensures(
            <Bot as SignalMsgHandler>::handle,
            (
                &bot,
                &content,
                BotStage::Transcribing { state, at },
                HandlerEvent::Transcribed(Some(b)),
            ),
            next_b,
        ),
    ensures
        next_a.1 is Quote,
        next_b.1 is Quote,
        next_a.1->Quote_0@ != next_b.1->Quote_0@,
{
    law_the_whole_transcript_is_sent(bot, content, message, state, at, a, next_a);
    law_the_whole_transcript_is_sent(bot, content, message, state, at, b, next_b);
}

/// Settings that were stored end the handling well. Whatever fails ends it too, with what failed:
/// the settings could not be read, an answer could not be sent, or settings could not be stored.
pub proof fn law_failures_end_the_handling(
    bot: Bot,
    content: Content,
    message: DataMessage,
    stage: BotStage,
    event: HandlerEvent,
    next: (BotStage, HandlerAction),
)
    requires
        message.body is None,
        match content.body {
            ContentBody::DataMessage(inner) => inner == message,
            ContentBody::SynchronizeMessage(sync) => match sync.sent {
                Some(sent) => sent.message == Some(message),
                None => false,
            },
            ContentBody::Other(_) => false,
        },
        call_ensures(
            <Bot as SignalMsgHandler>::handle,
            (&bot, &content, stage, event),
            next,
        ),
    ensures
        stage is Loading && event == HandlerEvent::Loaded(None) ==> next == (
            BotStage::Finished,
            HandlerAction::Abort(AbortReason::LoadFailed),
        ),
        (match stage {
            BotStage::Replying { .. } => true,
            BotStage::Reacting { at, .. } => at < message.attachments@.len(),
            BotStage::Quoting { at, .. } => at < message.attachments@.len(),
            _ => false,
        }) && event == HandlerEvent::Sent(false) ==> next == (
            BotStage::Finished,
            HandlerAction::Abort(AbortReason::SendFailed),
        ),
        stage is Saving && event == HandlerEvent::Saved(false) ==> next == (
            BotStage::Finished,
            HandlerAction::Abort(AbortReason::SaveFailed),
        ),
{
    lemma_attachments(content, message);
}

/// Whatever message it is about, a command's failures end the handling, and stored settings end it
/// well.
pub proof fn law_commands_come_to_an_end(
    bot: Bot,
    content: Content,
    stage: BotStage,
    event: HandlerEvent,
    next: (BotStage, HandlerAction),
)
    requires
        call_ensures(
            <Bot as SignalMsgHandler>::handle,
            (&bot, &content, stage, event),
            next,
        ),
    ensures
        stage is Loading && event == HandlerEvent::Loaded(None) ==> next == (
            BotStage::Finished,
            HandlerAction::Abort(AbortReason::LoadFailed),
        ),
        stage is Replying && event == HandlerEvent::Sent(false) ==> next == (
            BotStage::Finished,
            HandlerAction::Abort(AbortReason::SendFailed),
        ),
        stage is Saving && event == HandlerEvent::Saved(true) ==> next == (
            BotStage::Finished,
            HandlerAction::Done(Outcome::Handled),
        ),
        stage is Saving && event == HandlerEvent::Saved(false) ==> next == (
            BotStage::Finished,
            HandlerAction::Abort(AbortReason::SaveFailed),
        ),
{
}

/// The bot is told something that it does not wait for only by mistake; then it gives up.
pub proof fn law_what_comes_out_of_turn_is_refused(
    bot: Bot,
    content: Content,
    stage: BotStage,
    event: HandlerEvent,
    next: (BotStage, HandlerAction),
)
    requires
        match stage {
            BotStage::Idle => !(event is Start),
            BotStage::Loading => !(event is Loaded),
            BotStage::Replying { .. } => !(event is Sent),
            BotStage::Saving => !(event is Saved),
            BotStage::Reacting { .. } => !(event is Sent),
            BotStage::Fetching { .. } => !(event is Fetched),
            BotStage::Transcribing { .. } => !(event is Transcribed),
            BotStage::Quoting { .. } => !(event is Sent),
            BotStage::Finished => true,
        },
        call_ensures(
            <Bot as SignalMsgHandler>::handle,
            (&bot, &content, stage, event),
            next,
        ),
    ensures
        next == (BotStage::Finished, HandlerAction::Abort(AbortReason::OutOfTurn)),
{
}

/// The form of a voice message is told by the last four characters of its file name.
pub proof fn law_the_name_tells_the_form(pointer: AttachmentPointer, audio: AudioType)
    requires
        call_ensures(Bot::audio_type, (&pointer,), audio),
    ensures
        audio == AudioType::M4A <==> {
            &&& pointer.file_name is Some
            &&& pointer.file_name->0@.len() >= 4
            &&& pointer.file_name->0@.skip(pointer.file_name->0@.len() - 4) == ".m4a"@
        },
{
    reveal_strlit(".m4a");
}

/// What was fetched is worked on as a whole, with the model of the settings and in the form that
/// the file name tells. What was not fetched is an error, which says so.
pub proof fn law_work_on_a_voice_message(
    bot: Bot,
    state: BotThreadState,
    pointer: AttachmentPointer,
    fetched: Option<Vec<u8>>,
    work: Result<(WhisperModel, AudioType, Vec<u8>), AudioError>,
)
    requires
        call_ensures(Bot::process_audio_attachment, (&bot, &state, &pointer, fetched), work),
    ensures
        fetched matches Some(data) ==> (work matches Ok(found) && found.0 == state.whisper_model
            && found.2@ == data@ && (found.1 == AudioType::M4A <==> {
            &&& pointer.file_name is Some
            &&& pointer.file_name->0@.len() >= 4
            &&& pointer.file_name->0@.skip(pointer.file_name->0@.len() - 4) == ".m4a"@
        })),
        fetched is None ==> (work matches Err(error) && forall|text: String| #[trigger]
            call_ensures(AudioError::message, (&error,), text) ==> text@
                == "failed to fetch attachment"@),
{
    reveal_strlit(".m4a");
}

/// The next voice message of a list is the first at or behind a place whose content type is
/// `audio/aac`.
pub proof fn law_the_list_is_searched_in_order(
    bot: Bot,
    state: BotThreadState,
    list: Vec<AttachmentPointer>,
    from: usize,
    next: (BotStage, HandlerAction),
)
    requires
        call_ensures(Bot::handle_attachments, (&bot, state, &list, from), next),
    ensures
        next.0 is Reacting || next == (BotStage::Finished, HandlerAction::Done(Outcome::Handled)),
        next.0 is Finished ==> forall|i: int|
            from <= i < list@.len() ==> !((#[trigger] list@[i]).content_type is Some
                && list@[i].content_type->0@ == "audio/aac"@),
        next.0 matches BotStage::Reacting { state: s, at } ==> {
            &&& s == state
            &&& from <= at < list@.len()
            &&& list@[at as int].content_type is Some
            &&& list@[at as int].content_type->0@ == "audio/aac"@
            &&& forall|i: int|
                from <= i < at ==> !((#[trigger] list@[i]).content_type is Some
                    && list@[i].content_type->0@ == "audio/aac"@)
        },
        next.0 is Reacting ==> (next.1 matches HandlerAction::React(emoji) && emoji@ == "🦻"@),
{
    let views = attachment_views(list@);
    reveal_strlit("audio/aac");
    assert("audio/aac"@.len() == 9);
    lemma_next_voice(views, from as int);
    assert forall|i: int| 0 <= i < list@.len() implies #[trigger] is_voice(views[i]) == (
    list@[i].content_type is Some && list@[i].content_type->0@ == "audio/aac"@) by {
        assert(views[i] == list@[i]@);
    }
    let place = next_voice(views, from as int);
    assert(views.len() == list.len());
    if place < views.len() {
        assert(is_voice(views[place]));
    }
    assert forall|i: int| from <= i < place && i < list@.len() implies !((#[trigger]
    list@[i]).content_type is Some && list@[i].content_type->0@ == "audio/aac"@) by {
        assert(!is_voice(views[i]));
    }
}

/// The text that the account's owner wrote, the attachments of a message without a text, or
/// nothing: that is what the bot finds in a message.
pub proof fn law_what_the_bot_finds(content: Content, found: Subject<'_>)
    requires
        call_ensures(subject, (&content,), found),
    ensures
        match content.body {
            ContentBody::DataMessage(message) => match message.body {
                Some(_) => found is Nothing,
                None => found matches Subject::Attachments(list) && list@.len()
                    == message.attachments@.len() && forall|i: int|
                    0 <= i < list@.len() ==> (#[trigger] list@[i])@ == message.attachments@[i]@,
            },
            ContentBody::SynchronizeMessage(sync) => match sync.sent {
                Some(sent) => match sent.message {
                    Some(message) => match message.body {
                        Some(text) => found matches Subject::OwnText(own) && own@ == text@,
                        None => found matches Subject::Attachments(list) && list@.len()
                            == message.attachments@.len() && forall|i: int|
                            0 <= i < list@.len() ==> (#[trigger] list@[i])@
                                == message.attachments@[i]@,
                    },
                    None => found is Nothing,
                },
                None => found is Nothing,
            },
            ContentBody::Other(_) => found is Nothing,
        },
{
    if let Subject::Attachments(list) = found {
        assert forall|i: int| 0 <= i < list@.len() implies (#[trigger] list@[i])@
            == attachments_of(content@)[i] by {
            assert(attachment_views(list@)[i] == list@[i]@);
        }
        assert(attachment_views(list@).len() == list@.len());
    }
}

/// From its arrival to the end, a command of the account's owner is obeyed in any conversation,
/// with a contact or in a group, and whatever else the message holds: the settings are read, the
/// command is answered, changed settings are stored, and that is all.
pub proof fn law_the_owner_is_obeyed_to_the_end(
    bot: Bot,
    content: ContentView,
    sync: SyncMessageView,
    sent: SentView,
    message: DataMessageView,
    text: Seq<char>,
    thread: Thread,
    state: BotThreadState,
)
    requires
        content.thread == Some(thread),
        content.body == ContentBodyView::SynchronizeMessage(sync),
        sync.sent == Some(sent),
        sent.message == Some(message),
        message.body == Some(text),
    ensures
        text == "/bot ping"@ ==> actions_of(
            bot,
            content,
            bot.first_stage(),
            opening(state, seq![HandlerEventView::Sent(true)]),
        ) == seq![
            HandlerActionView::Load(thread),
            HandlerActionView::Quote(
                if state.enabled {
                    "pong"@
                } else {
                    "pong (disabled)"@
                },
            ),
            HandlerActionView::Done(Outcome::Handled),
        ],
        text == "/bot disable"@ || text == "/bot model tiny"@ || text == "/bot model base"@ || text
            == "/bot model small"@ || text == "/bot model large"@ || (text == "/bot enable"@
            && state.enabled) ==> actions_of(
            bot,
            content,
            bot.first_stage(),
            opening(state, seq![HandlerEventView::Sent(true)]),
        ) == seq![
            HandlerActionView::Load(thread),
            HandlerActionView::React("👍"@),
            HandlerActionView::Done(Outcome::Handled),
        ],
        text == "/bot model medium"@ ==> actions_of(
            bot,
            content,
            bot.first_stage(),
            opening(state, Seq::empty()),
        ) == seq![HandlerActionView::Load(thread), HandlerActionView::Done(Outcome::Handled)],
        text == "/bot enable"@ && (BotThreadState { enabled: true, ..state }).digest(bot.order)
            != state.digest(bot.order) ==> actions_of(
            bot,
            content,
            bot.first_stage(),
            opening(state, seq![HandlerEventView::Sent(true), HandlerEventView::Saved(true)]),
        ) == seq![
            HandlerActionView::Load(thread),
            HandlerActionView::React("👍"@),
            HandlerActionView::Save(thread, BotThreadState { enabled: true, ..state }),
            HandlerActionView::Done(Outcome::Handled),
        ],
{
    let commands = seq![
        Command::Ping,
        Command::Enable,
        Command::Disable,
        Command::Model(ModelSize::Tiny),
        Command::Model(ModelSize::Base),
        Command::Model(ModelSize::Small),
        Command::Model(ModelSize::Medium),
        Command::Model(ModelSize::Large),
    ];
    assert forall|i: int|
        0 <= i < commands.len() && text == command_text(
            #[trigger] commands[i],
        ) implies actions_of(
        bot,
        content,
        bot.first_stage(),
        opening(state, command_events(bot.order, commands[i], state)),
    ) == command_actions(bot.order, thread, commands[i], state) by {
        law_command_is_carried_out(bot, content, thread, state, commands[i]);
    }
    let one = seq![HandlerEventView::Sent(true)];
    let none = Seq::<HandlerEventView>::empty();
    assert(commands[0] == Command::Ping && commands[1] == Command::Enable && commands[2]
        == Command::Disable && commands[3] == Command::Model(ModelSize::Tiny) && commands[4]
        == Command::Model(ModelSize::Base) && commands[5] == Command::Model(ModelSize::Small)
        && commands[6] == Command::Model(ModelSize::Medium) && commands[7] == Command::Model(
        ModelSize::Large,
    ));
    assert(one + none =~= one);
    assert(none + none =~= none);
    assert(one + seq![HandlerEventView::Saved(true)] =~= seq![
        HandlerEventView::Sent(true),
        HandlerEventView::Saved(true),
    ]);
}

} // verus!
