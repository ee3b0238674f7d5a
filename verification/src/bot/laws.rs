//! What holds of the bot as a whole: what it does from the arrival of a message to the end, and
//! what it never does.
use crate::bot::command::{
    command_of, command_text, law_command_is_its_text, reply_to, state_after, Command,
    ReplyView,
};
use crate::bot::thread_state::{
    law_get_after_put, state_of, store_after, stored_for, BotThreadState, ModelCatalog,
};
use crate::bot::{
    attachments_of, attend, bot_step, consider, is_voice, next_voice, subject_of, Bot, BotStage,
    SubjectView,
};
use crate::content::{AttachmentPointerView, ContentView, Thread};
use crate::handler::{
    actions_of, lemma_actions_of_first, AbortReason, AudioType, HandlerActionView,
    HandlerEventView, Outcome, SignalMsgHandler,
};
use crate::quick_hash::{ByteOrder, QuickHash};
use vstd::prelude::*;

verus! {

/// The events of a message whose conversation has the settings `state`, where `rest` is what
/// happens once those are known.
pub open spec fn opening(state: BotThreadState, rest: Seq<HandlerEventView>) -> Seq<
    HandlerEventView,
> {
    seq![HandlerEventView::Start] + (seq![HandlerEventView::Loaded(Some(state))] + rest)
}

/// A message starts with its conversation's settings; what follows rests on them and on the
/// message.
proof fn lemma_opening(
    bot: Bot,
    content: ContentView,
    thread: Thread,
    state: BotThreadState,
    rest: Seq<HandlerEventView>,
)
    requires
        content.thread == Some(thread),
    ensures
        actions_of(bot, content, BotStage::Idle, opening(state, rest)) == seq![
            HandlerActionView::Load(thread),
            consider(bot.order, content, state).1,
        ] + actions_of(bot, content, consider(bot.order, content, state).0, rest),
{
    let loaded = HandlerEventView::Loaded(Some(state));
    lemma_actions_of_first(
        bot,
        content,
        BotStage::Idle,
        HandlerEventView::Start,
        seq![loaded] + rest,
    );
    lemma_actions_of_first(bot, content, BotStage::Loading, loaded, rest);
    assert(actions_of(bot, content, BotStage::Idle, opening(state, rest)) =~= seq![
        HandlerActionView::Load(thread),
        consider(bot.order, content, state).1,
    ] + actions_of(bot, content, consider(bot.order, content, state).0, rest));
}

/// The answer that a command gets, as what the bot asks for.
pub open spec fn answer(command: Command, state: BotThreadState) -> Seq<HandlerActionView> {
    match reply_to(command, state) {
        ReplyView::Quote(text) => seq![HandlerActionView::Quote(text)],
        ReplyView::React(emoji) => seq![HandlerActionView::React(emoji)],
        ReplyView::Silence => Seq::empty(),
    }
}

/// Whether the settings are stored after a command.
pub open spec fn saves(order: ByteOrder, command: Command, state: BotThreadState) -> bool {
    state_after(command, state).digest(order) != state.digest(order)
}

/// What happens once the settings are known, when a command is carried out without a hitch.
pub open spec fn command_events(
    order: ByteOrder,
    command: Command,
    state: BotThreadState,
) -> Seq<HandlerEventView> {
    (if reply_to(command, state) is Silence {
        Seq::<HandlerEventView>::empty()
    } else {
        seq![HandlerEventView::Sent(true)]
    }) + (if saves(order, command, state) {
        seq![HandlerEventView::Saved(true)]
    } else {
        Seq::<HandlerEventView>::empty()
    })
}

/// What the bot does on a command, when nothing goes wrong.
pub open spec fn command_actions(
    order: ByteOrder,
    thread: Thread,
    command: Command,
    state: BotThreadState,
) -> Seq<HandlerActionView> {
    seq![HandlerActionView::Load(thread)] + answer(command, state) + (if saves(
        order,
        command,
        state,
    ) {
        seq![HandlerActionView::Save(thread, state_after(command, state))]
    } else {
        Seq::<HandlerActionView>::empty()
    }) + seq![HandlerActionView::Done(Outcome::Handled)]
}

/// A command of the account's owner is carried out: the settings are read, the command is
/// answered, changed settings are stored, and that is all.
pub proof fn law_command_is_carried_out(
    bot: Bot,
    content: ContentView,
    thread: Thread,
    state: BotThreadState,
    command: Command,
)
    requires
        content.thread == Some(thread),
        subject_of(content) == SubjectView::OwnText(command_text(command)),
    ensures
        actions_of(
            bot,
            content,
            BotStage::Idle,
            opening(state, command_events(bot.order, command, state)),
        ) == command_actions(bot.order, thread, command, state),
{
    let none = Seq::<HandlerEventView>::empty();
    law_command_is_its_text(command_text(command), command);
    let after = state_after(command, state);
    let replying = BotStage::Replying { before: state, after };
    let events = command_events(bot.order, command, state);
    let sent = HandlerEventView::Sent(true);
    let saved = HandlerEventView::Saved(true);
    lemma_opening(bot, content, thread, state, events);
    lemma_actions_of_first(bot, content, BotStage::Saving, saved, none);
    assert(seq![saved] + none =~= seq![saved]);
    if reply_to(command, state) is Silence {
        if saves(bot.order, command, state) {
            assert(events =~= seq![saved]);
        } else {
            assert(events =~= none);
        }
    } else {
        if saves(bot.order, command, state) {
            assert(events =~= seq![sent] + seq![saved]);
            lemma_actions_of_first(bot, content, replying, sent, seq![saved]);
        } else {
            assert(events =~= seq![sent] + none);
            lemma_actions_of_first(bot, content, replying, sent, none);
        }
    }
    assert(actions_of(bot, content, BotStage::Idle, opening(state, events))
        =~= command_actions(bot.order, thread, command, state));
}

/// A command that leaves the settings as they were stores nothing.
pub proof fn law_unchanged_settings_are_not_stored(
    order: ByteOrder,
    command: Command,
    state: BotThreadState,
)
    requires
        state_after(command, state) == state,
    ensures
        !saves(order, command, state),
{
}

/// Settings are stored only as the enabling command leaves them, in the conversation that it was
/// written in, and only where the bot was not enabled before.
pub proof fn law_only_enabling_is_stored(
    bot: Bot,
    content: ContentView,
    state: BotThreadState,
    rest: Seq<HandlerEventView>,
    place: int,
)
    requires
        0 <= place < actions_of(
            bot,
            content,
            BotStage::Idle,
            opening(state, rest),
        ).len(),
        actions_of(bot, content, BotStage::Idle, opening(state, rest))[place] is Save,
    ensures
        content.thread is Some,
        actions_of(bot, content, BotStage::Idle, opening(state, rest))[place]
            == HandlerActionView::Save(
            content.thread->0,
            (BotThreadState { enabled: true, ..state }),
        ),
        subject_of(content) == SubjectView::OwnText(command_text(Command::Enable)),
        !state.enabled,
{
    match content.thread {
        None => {
            law_no_thread_no_answer(bot, content, opening(state, rest), place);
        },
        Some(thread) => {
            lemma_opening(bot, content, thread, state, rest);
            let next = consider(bot.order, content, state);
            let all = actions_of(bot, content, BotStage::Idle, opening(state, rest));
            let tail = actions_of(bot, content, next.0, rest);
            assert(all == seq![HandlerActionView::Load(thread), next.1] + tail);
            if let SubjectView::OwnText(text) = subject_of(content) {
                if let Some(command) = command_of(text) {
                    law_command_is_its_text(text, command);
                }
            }
            if place >= 2 {
                assert(all[place] == tail[place - 2]);
                lemma_saves_from(bot, content, state, next.0, rest, place - 2);
            }
        },
    }
}

/// What a stage can still store, once the settings were found to be `before`.
spec fn can_save(stage: BotStage, before: BotThreadState) -> bool {
    match stage {
        BotStage::Idle => false,
        BotStage::Loading => false,
        BotStage::Replying { before: b, after } => b == before && (after != before ==> after == (
        BotThreadState { enabled: true, ..before })),
        _ => true,
    }
}

/// From a stage after the settings are known, only what the answered command left is stored.
proof fn lemma_saves_from(
    bot: Bot,
    content: ContentView,
    state: BotThreadState,
    stage: BotStage,
    events: Seq<HandlerEventView>,
    place: int,
)
    requires
        can_save(stage, state),
        0 <= place < actions_of(bot, content, stage, events).len(),
        actions_of(bot, content, stage, events)[place] is Save,
    ensures
        content.thread is Some,
        stage matches BotStage::Replying { after, .. } && after != state && actions_of(
            bot,
            content,
            stage,
            events,
        )[place] == HandlerActionView::Save(content.thread->0, after),
    decreases events.len(),
{
    let (next, action) = bot_step(bot.order, content, stage, events[0]);
    let rest = actions_of(bot, content, next, events.skip(1));
    assert(actions_of(bot, content, stage, events) == seq![action] + rest);
    if place > 0 {
        assert((seq![action] + rest)[place] == rest[place - 1]);
        lemma_saves_from(bot, content, state, next, events.skip(1), place - 1);
    }
}

/// A text that is no command of the account's owner is read and left alone.
pub proof fn law_other_texts_are_left_alone(
    bot: Bot,
    content: ContentView,
    thread: Thread,
    state: BotThreadState,
)
    requires
        content.thread == Some(thread),
        attachments_of(content).len() == 0,
        forall|command: Command|
            subject_of(content) != SubjectView::OwnText(#[trigger] command_text(command)),
    ensures
        actions_of(
            bot,
            content,
            BotStage::Idle,
            opening(state, Seq::empty()),
        ).len() == 2,
        actions_of(bot, content, BotStage::Idle, opening(state, Seq::empty()))[0]
            == HandlerActionView::Load(thread),
        actions_of(bot, content, BotStage::Idle, opening(state, Seq::empty()))[1]
            is Done,
{
    lemma_opening(bot, content, thread, state, Seq::empty());
    if let SubjectView::OwnText(text) = subject_of(content) {
        if let Some(command) = command_of(text) {
            law_command_is_its_text(text, command);
            assert(subject_of(content) != SubjectView::OwnText(command_text(command)));
        }
    }
}

/// Nobody but the owner of the account can command the bot: what somebody else wrote is no
/// command, whatever it says.
pub proof fn law_only_the_owner_commands(content: ContentView)
    requires
        content.body is DataMessage,
    ensures
        !(subject_of(content) is OwnText),
{
}

/// Once the handling has ended, nothing is asked for any more.
proof fn lemma_nothing_after_the_end(
    bot: Bot,
    content: ContentView,
    events: Seq<HandlerEventView>,
    place: int,
)
    requires
        0 <= place < actions_of(bot, content, BotStage::Finished, events).len(),
    ensures
        actions_of(bot, content, BotStage::Finished, events)[place]
            == HandlerActionView::Abort(AbortReason::OutOfTurn),
    decreases events.len(),
{
    let refusal = HandlerActionView::Abort(AbortReason::OutOfTurn);
    let rest = actions_of(bot, content, BotStage::Finished, events.skip(1));
    assert(actions_of(bot, content, BotStage::Finished, events) == seq![refusal] + rest);
    if place > 0 {
        assert((seq![refusal] + rest)[place] == rest[place - 1]);
        lemma_nothing_after_the_end(bot, content, events.skip(1), place - 1);
    }
}

/// A message of which no conversation can be told is neither answered nor looked into, whatever
/// happens.
pub proof fn law_no_thread_no_answer(
    bot: Bot,
    content: ContentView,
    events: Seq<HandlerEventView>,
    place: int,
)
    requires
        content.thread is None,
        0 <= place < actions_of(bot, content, BotStage::Idle, events).len(),
    ensures
        ({
            let action = actions_of(bot, content, BotStage::Idle, events)[place];
            action == HandlerActionView::Done(Outcome::NoThread) || action
                == HandlerActionView::Abort(AbortReason::OutOfTurn)
        }),
{
    let (next, action) = bot_step(bot.order, content, BotStage::Idle, events[0]);
    let rest = actions_of(bot, content, next, events.skip(1));
    assert(actions_of(bot, content, BotStage::Idle, events) == seq![action] + rest);
    if place > 0 {
        assert((seq![action] + rest)[place] == rest[place - 1]);
        lemma_nothing_after_the_end(bot, content, events.skip(1), place - 1);
    }
}

/// What becomes of a voice message: it cannot be fetched; it is fetched, but cannot be
/// transcribed; or it is transcribed.
pub enum Fate {
    Lost,
    Unclear(Seq<u8>),
    Clear(Seq<u8>, Seq<char>),
}

/// What happens with one voice message after its emoji was sent, by its fate.
pub open spec fn fate_events(fate: Fate) -> Seq<HandlerEventView> {
    match fate {
        Fate::Lost => seq![HandlerEventView::Fetched(None)],
        Fate::Unclear(data) => seq![
            HandlerEventView::Fetched(Some(data)),
            HandlerEventView::Transcribed(None),
        ],
        Fate::Clear(data, transcript) => seq![
            HandlerEventView::Fetched(Some(data)),
            HandlerEventView::Transcribed(Some(transcript)),
            HandlerEventView::Sent(true),
        ],
    }
}

/// What the bot does with a voice message that it has asked for, by its fate.
pub open spec fn fate_actions(
    state: BotThreadState,
    pointer: AttachmentPointerView,
    fate: Fate,
) -> Seq<HandlerActionView> {
    let named = pointer.file_name is Some && pointer.file_name->0.len() >= 4
        && pointer.file_name->0.skip(pointer.file_name->0.len() - 4) == ".m4a"@;
    let audio = if named {
        AudioType::M4A
    } else {
        AudioType::AAC
    };
    let model = state.whisper_model;
    match fate {
        Fate::Lost => Seq::empty(),
        Fate::Unclear(data) => seq![HandlerActionView::Transcribe(model, audio, data)],
        Fate::Clear(data, transcript) => seq![
            HandlerActionView::Transcribe(model, audio, data),
            HandlerActionView::Quote("TRANSCRIPT:\n"@ + transcript),
        ],
    }
}

/// What happens from the first voice message at or after `from` on, where `fates` tells what
/// becomes of each and every answer can be sent.
pub open spec fn voice_events(
    list: Seq<AttachmentPointerView>,
    from: int,
    fates: spec_fn(int) -> Fate,
) -> Seq<HandlerEventView>
    decreases list.len() - from,
    when from >= 0
    via voice_events_end
{
    let at = next_voice(list, from);
    if at >= list.len() {
        Seq::empty()
    } else {
        seq![HandlerEventView::Sent(true)] + (fate_events(fates(at)) + voice_events(
            list,
            at + 1,
            fates,
        ))
    }
}

#[via_fn]
proof fn voice_events_end(
    list: Seq<AttachmentPointerView>,
    from: int,
    fates: spec_fn(int) -> Fate,
) {
    lemma_next_voice(list, from);
}

/// What the bot does about the voice messages at or after `from`: each gets an emoji and is
/// fetched, with what was fetched it is transcribed, and the transcript is sent.
pub open spec fn voice_actions(
    state: BotThreadState,
    list: Seq<AttachmentPointerView>,
    from: int,
    fates: spec_fn(int) -> Fate,
) -> Seq<HandlerActionView>
    decreases list.len() - from,
    when from >= 0
    via voice_actions_end
{
    let at = next_voice(list, from);
    if at >= list.len() {
        seq![HandlerActionView::Done(Outcome::Handled)]
    } else {
        seq![HandlerActionView::React("🦻"@), HandlerActionView::Fetch(list[at])] + (fate_actions(
            state,
            list[at],
            fates(at),
        ) + voice_actions(state, list, at + 1, fates))
    }
}

#[via_fn]
proof fn voice_actions_end(
    state: BotThreadState,
    list: Seq<AttachmentPointerView>,
    from: int,
    fates: spec_fn(int) -> Fate,
) {
    lemma_next_voice(list, from);
}

/// The next voice message is a voice message, and there is none between.
pub proof fn lemma_next_voice(list: Seq<AttachmentPointerView>, from: int)
    requires
        0 <= from,
    ensures
        from <= list.len() ==> from <= next_voice(list, from) <= list.len(),
        from > list.len() ==> next_voice(list, from) == list.len(),
        next_voice(list, from) < list.len() ==> is_voice(list[next_voice(list, from)]),
        forall|i: int| from <= i < next_voice(list, from) ==> !is_voice(#[trigger] list[i]),
    decreases list.len() - from,
{
    if from < list.len() && !is_voice(list[from]) {
        lemma_next_voice(list, from + 1);
    }
}

/// Whatever becomes of a voice message that is being fetched, the bot then turns to what comes
/// after it.
proof fn lemma_fate(
    bot: Bot,
    content: ContentView,
    state: BotThreadState,
    at: usize,
    fate: Fate,
    rest: Seq<HandlerEventView>,
)
    requires
        at < attachments_of(content).len(),
    ensures
        ({
            let next = attend(state, attachments_of(content), at + 1);
            actions_of(
                bot,
                content,
                BotStage::Fetching { state, at },
                fate_events(fate) + rest,
            ) == fate_actions(state, attachments_of(content)[at as int], fate) + (seq![next.1]
                + actions_of(bot, content, next.0, rest))
        }),
{
    let pointer = attachments_of(content)[at as int];
    let next = attend(state, attachments_of(content), at + 1);
    let fetching = BotStage::Fetching { state, at };
    let transcribing = BotStage::Transcribing { state, at };
    let quoting = BotStage::Quoting { state, at };
    let events = fate_events(fate) + rest;
    reveal_strlit(".m4a");
    assert(".m4a"@.len() == 4);
    let after = seq![next.1] + actions_of(bot, content, next.0, rest);
    match fate {
        Fate::Lost => {
            let fetched = HandlerEventView::Fetched(None);
            lemma_actions_of_first(bot, content, fetching, fetched, rest);
        },
        Fate::Unclear(data) => {
            let fetched = HandlerEventView::Fetched(Some(data));
            let transcribed = HandlerEventView::Transcribed(None);
            assert(events =~= seq![fetched] + (seq![transcribed] + rest));
            lemma_actions_of_first(bot, content, fetching, fetched, seq![transcribed] + rest);
            lemma_actions_of_first(bot, content, transcribing, transcribed, rest);
        },
        Fate::Clear(data, transcript) => {
            let fetched = HandlerEventView::Fetched(Some(data));
            let transcribed = HandlerEventView::Transcribed(Some(transcript));
            let sent = HandlerEventView::Sent(true);
            assert(events =~= seq![fetched] + (seq![transcribed] + (seq![sent] + rest)));
            lemma_actions_of_first(
                bot,
                content,
                fetching,
                fetched,
                seq![transcribed] + (seq![sent] + rest),
            );
            lemma_actions_of_first(bot, content, transcribing, transcribed, seq![sent] + rest);
            lemma_actions_of_first(bot, content, quoting, sent, rest);
        },
    }
    assert(actions_of(bot, content, fetching, events) =~= fate_actions(state, pointer, fate)
        + after);
}

/// From any place in the list on, the bot does what `voice_actions` says.
proof fn lemma_voice_run(
    bot: Bot,
    content: ContentView,
    state: BotThreadState,
    from: int,
    fates: spec_fn(int) -> Fate,
)
    requires
        0 <= from,
        attachments_of(content).len() <= usize::MAX,
    ensures
        seq![attend(state, attachments_of(content), from).1] + actions_of(
            bot,
            content,
            attend(state, attachments_of(content), from).0,
            voice_events(attachments_of(content), from, fates),
        ) == voice_actions(state, attachments_of(content), from, fates),
    decreases attachments_of(content).len() - from,
{
    let list = attachments_of(content);
    let at = next_voice(list, from);
    let events = voice_events(list, from, fates);
    lemma_next_voice(list, from);
    if at < list.len() {
        let place = at as usize;
        let reacting = BotStage::Reacting { state, at: place };
        let rest = voice_events(list, at + 1, fates);
        let sent = HandlerEventView::Sent(true);
        let react = HandlerActionView::React("🦻"@);
        let fetch = HandlerActionView::Fetch(list[at]);
        lemma_voice_run(bot, content, state, at + 1, fates);
        lemma_actions_of_first(bot, content, reacting, sent, fate_events(fates(at)) + rest);
        lemma_fate(bot, content, state, place, fates(at), rest);
        let done = fate_actions(state, list[at], fates(at)) + voice_actions(
            state,
            list,
            at + 1,
            fates,
        );
        assert(seq![react] + (seq![fetch] + done) =~= seq![react, fetch] + done);
    } else {
        assert(seq![HandlerActionView::Done(Outcome::Handled)] + actions_of(
            bot,
            content,
            BotStage::Finished,
            events,
        ) =~= seq![HandlerActionView::Done(Outcome::Handled)]);
    }
}

/// Every voice message that is attached to a message without a text is dealt with, in order and
/// whatever became of those before it: it gets an emoji and is fetched; if that worked it is
/// transcribed with the conversation's model; if that worked too the transcript is sent, quoting
/// the message. Other attachments are passed over. Whether the bot is enabled in the conversation
/// makes no difference.
pub proof fn law_voice_messages_are_answered(
    bot: Bot,
    content: ContentView,
    thread: Thread,
    state: BotThreadState,
    fates: spec_fn(int) -> Fate,
)
    requires
        content.thread == Some(thread),
        subject_of(content) is Attachments,
        attachments_of(content).len() <= usize::MAX,
    ensures
        actions_of(
            bot,
            content,
            BotStage::Idle,
            opening(state, voice_events(attachments_of(content), 0, fates)),
        ) == seq![HandlerActionView::Load(thread)] + voice_actions(
            state,
            attachments_of(content),
            0,
            fates,
        ),
{
    let list = attachments_of(content);
    let events = voice_events(list, 0, fates);
    lemma_opening(bot, content, thread, state, events);
    lemma_voice_run(bot, content, state, 0, fates);
    let next = attend(state, list, 0);
    let tail = actions_of(bot, content, next.0, events);
    assert(seq![HandlerActionView::Load(thread), next.1] + tail =~= seq![
        HandlerActionView::Load(thread),
    ] + (seq![next.1] + tail));
}

/// Whether two stages differ in nothing but whether the bot is enabled, and are about a voice
/// message or the end.
spec fn alike(a: BotStage, b: BotStage) -> bool {
    match (a, b) {
        (BotStage::Reacting { state: s, at: i }, BotStage::Reacting { state: t, at: j }) => i == j
            && s.whisper_model == t.whisper_model,
        (BotStage::Fetching { state: s, at: i }, BotStage::Fetching { state: t, at: j }) => i == j
            && s.whisper_model == t.whisper_model,
        (
            BotStage::Transcribing { state: s, at: i },
            BotStage::Transcribing { state: t, at: j },
        ) => i == j && s.whisper_model == t.whisper_model,
        (BotStage::Quoting { state: s, at: i }, BotStage::Quoting { state: t, at: j }) => i == j
            && s.whisper_model == t.whisper_model,
        (BotStage::Finished, BotStage::Finished) => true,
        _ => false,
    }
}

/// From stages that differ only in whether the bot is enabled, the bot does the same.
proof fn lemma_alike(
    bot: Bot,
    content: ContentView,
    a: BotStage,
    b: BotStage,
    events: Seq<HandlerEventView>,
)
    requires
        alike(a, b),
    ensures
        actions_of(bot, content, a, events) == actions_of(bot, content, b, events),
    decreases events.len(),
{
    if events.len() > 0 {
        lemma_alike(
            bot,
            content,
            bot_step(bot.order, content, a, events[0]).0,
            bot_step(bot.order, content, b, events[0]).0,
            events.skip(1),
        );
    }
}

/// Without a conversation the settings are not even looked at.
proof fn lemma_opening_without_thread(
    bot: Bot,
    content: ContentView,
    a: BotThreadState,
    b: BotThreadState,
    rest: Seq<HandlerEventView>,
)
    requires
        content.thread is None,
    ensures
        actions_of(bot, content, BotStage::Idle, opening(a, rest)) == actions_of(
            bot,
            content,
            BotStage::Idle,
            opening(b, rest),
        ),
{
    let start = HandlerEventView::Start;
    let with_a = HandlerEventView::Loaded(Some(a));
    let with_b = HandlerEventView::Loaded(Some(b));
    lemma_actions_of_first(bot, content, BotStage::Idle, start, seq![with_a] + rest);
    lemma_actions_of_first(bot, content, BotStage::Idle, start, seq![with_b] + rest);
    lemma_actions_of_first(bot, content, BotStage::Finished, with_a, rest);
    lemma_actions_of_first(bot, content, BotStage::Finished, with_b, rest);
}

/// Whether the bot is enabled in a conversation makes no difference to anything but the commands
/// of the account's owner: on every other message it does the same, whatever happens.
pub proof fn law_enabling_concerns_commands_only(
    bot: Bot,
    content: ContentView,
    a: BotThreadState,
    b: BotThreadState,
    rest: Seq<HandlerEventView>,
)
    requires
        a.whisper_model == b.whisper_model,
        forall|command: Command|
            subject_of(content) != SubjectView::OwnText(#[trigger] command_text(command)),
    ensures
        actions_of(bot, content, BotStage::Idle, opening(a, rest)) == actions_of(
            bot,
            content,
            BotStage::Idle,
            opening(b, rest),
        ),
{
    if let SubjectView::OwnText(text) = subject_of(content) {
        if let Some(command) = command_of(text) {
            law_command_is_its_text(text, command);
            assert(subject_of(content) != SubjectView::OwnText(command_text(command)));
        }
    }
    match content.thread {
        Some(thread) => {
            lemma_opening(bot, content, thread, a, rest);
            lemma_opening(bot, content, thread, b, rest);
            lemma_alike(
                bot,
                content,
                consider(bot.order, content, a).0,
                consider(bot.order, content, b).0,
                rest,
            );
        },
        None => {
            lemma_opening_without_thread(bot, content, a, b, rest);
        },
    }
}

/// What the bot does that reaches beyond its store: emojis, answers, and what it has fetched and
/// transcribed for them.
pub open spec fn goes_out(action: HandlerActionView) -> bool {
    action is React || action is Quote || action is Fetch || action is Transcribe
}

/// What goes out among `actions`, in order.
pub open spec fn sent_among(actions: Seq<HandlerActionView>) -> Seq<HandlerActionView> {
    actions.filter(|action: HandlerActionView| goes_out(action))
}

/// A stage from which nothing goes out any more.
spec fn quiet(stage: BotStage) -> bool {
    stage is Replying || stage is Saving || stage is Finished
}

/// What goes out is what goes out of the first action, and then of the others.
proof fn lemma_sent_first(action: HandlerActionView, rest: Seq<HandlerActionView>)
    ensures
        sent_among(seq![action] + rest) == (if goes_out(action) {
            seq![action]
        } else {
            Seq::<HandlerActionView>::empty()
        }) + sent_among(rest),
{
    reveal_with_fuel(Seq::filter, 2);
    let out = |action: HandlerActionView| goes_out(action);
    Seq::filter_distributes_over_add(seq![action], rest, out);
    assert(seq![action].drop_last() =~= Seq::<HandlerActionView>::empty());
    assert(seq![action].filter(out) =~= (if goes_out(action) {
        seq![action]
    } else {
        Seq::<HandlerActionView>::empty()
    }));
}

/// Whether the same goes out from two stages: they differ only in whether the bot is enabled, or
/// nothing goes out from either.
spec fn matched(a: BotStage, b: BotStage) -> bool {
    alike(a, b) || quiet(a) && quiet(b)
}

/// Stages from which the same goes out lead to such stages, and what goes out on the way is the
/// same.
proof fn lemma_matched_step(
    bot: Bot,
    content: ContentView,
    a: BotStage,
    b: BotStage,
    event: HandlerEventView,
)
    requires
        matched(a, b),
    ensures
        ({
            let from_a = bot_step(bot.order, content, a, event);
            let from_b = bot_step(bot.order, content, b, event);
            &&& matched(from_a.0, from_b.0)
            &&& goes_out(from_a.1) || goes_out(from_b.1) ==> from_a.1 == from_b.1
        }),
{
}

/// From stages that differ only in whether the bot is enabled, or from which nothing goes out any
/// more, the same goes out.
proof fn lemma_same_goes_out(
    bot: Bot,
    content: ContentView,
    a: BotStage,
    b: BotStage,
    events: Seq<HandlerEventView>,
)
    requires
        matched(a, b),
    ensures
        sent_among(actions_of(bot, content, a, events)) == sent_among(
            actions_of(bot, content, b, events),
        ),
    decreases events.len(),
{
    if events.len() > 0 {
        let from_a = bot_step(bot.order, content, a, events[0]);
        let from_b = bot_step(bot.order, content, b, events[0]);
        lemma_matched_step(bot, content, a, b, events[0]);
        lemma_same_goes_out(bot, content, from_a.0, from_b.0, events.skip(1));
        lemma_sent_first(from_a.1, actions_of(bot, content, from_a.0, events.skip(1)));
        lemma_sent_first(from_b.1, actions_of(bot, content, from_b.0, events.skip(1)));
    }
}

/// Whether the bot is enabled in a conversation shows in the answer to a ping and nowhere else:
/// on every other message, commands included, the same goes out, whatever happens.
pub proof fn law_enabling_shows_in_the_ping_only(
    bot: Bot,
    content: ContentView,
    a: BotThreadState,
    b: BotThreadState,
    rest: Seq<HandlerEventView>,
)
    requires
        a.whisper_model == b.whisper_model,
        subject_of(content) != SubjectView::OwnText(command_text(Command::Ping)),
    ensures
        sent_among(actions_of(bot, content, BotStage::Idle, opening(a, rest))) == sent_among(
            actions_of(bot, content, BotStage::Idle, opening(b, rest)),
        ),
{
    match content.thread {
        Some(thread) => {
            let load = HandlerActionView::Load(thread);
            let from_a = consider(bot.order, content, a);
            let from_b = consider(bot.order, content, b);
            let after_a = actions_of(bot, content, from_a.0, rest);
            let after_b = actions_of(bot, content, from_b.0, rest);
            lemma_opening(bot, content, thread, a, rest);
            lemma_opening(bot, content, thread, b, rest);
            lemma_same_goes_out(bot, content, from_a.0, from_b.0, rest);
            assert(seq![load, from_a.1] + after_a =~= seq![load] + (seq![from_a.1] + after_a));
            assert(seq![load, from_b.1] + after_b =~= seq![load] + (seq![from_b.1] + after_b));
            lemma_sent_first(load, seq![from_a.1] + after_a);
            lemma_sent_first(load, seq![from_b.1] + after_b);
            lemma_sent_first(from_a.1, after_a);
            lemma_sent_first(from_b.1, after_b);
        },
        None => {
            lemma_opening_without_thread(bot, content, a, b, rest);
        },
    }
}

/// The bot reads and stores settings only for the conversation that a message came in.
pub proof fn law_the_bot_stays_in_the_thread(
    bot: Bot,
    content: ContentView,
    stage: BotStage,
    event: HandlerEventView,
)
    ensures
        bot_step(bot.order, content, stage, event).1 matches HandlerActionView::Load(thread)
            ==> content.thread == Some(thread),
        bot_step(bot.order, content, stage, event).1 matches HandlerActionView::Save(thread, _)
            ==> content.thread == Some(thread),
{
}

/// An upper bound on how many more steps the bot can take.
pub open spec fn steps_left(content: ContentView, stage: BotStage) -> int {
    let count = attachments_of(content).len() as int;
    match stage {
        BotStage::Idle => 4 * count + 4,
        BotStage::Loading => 4 * count + 3,
        BotStage::Replying { .. } => 2,
        BotStage::Saving => 1,
        BotStage::Reacting { at, .. } => if at < count {
            4 * (count - at)
        } else {
            1
        },
        BotStage::Fetching { at, .. } => if at < count {
            4 * (count - at) - 1
        } else {
            1
        },
        BotStage::Transcribing { at, .. } => if at < count {
            4 * (count - at) - 2
        } else {
            1
        },
        BotStage::Quoting { at, .. } => if at < count {
            4 * (count - at) - 3
        } else {
            1
        },
        BotStage::Finished => 0,
    }
}

/// The bot comes to an end with every message, whatever it is told: each step leaves fewer to
/// take.
pub proof fn law_every_message_comes_to_an_end(
    bot: Bot,
    content: ContentView,
    stage: BotStage,
    event: HandlerEventView,
)
    requires
        attachments_of(content).len() <= usize::MAX,
    ensures
        steps_left(content, stage) >= 0,
        stage != BotStage::Finished ==> steps_left(
            content,
            bot_step(bot.order, content, stage, event).0,
        ) < steps_left(content, stage),
        stage == BotStage::Finished ==> bot_step(bot.order, content, stage, event).0
            == BotStage::Finished,
{
    let list = attachments_of(content);
    lemma_next_voice(list, 0);
    match stage {
        BotStage::Fetching { at, .. } => lemma_next_voice(list, at + 1),
        BotStage::Transcribing { at, .. } => lemma_next_voice(list, at + 1),
        BotStage::Quoting { at, .. } => lemma_next_voice(list, at + 1),
        _ => {},
    }
}

/// The bot says that it is done exactly when it is: no step is left after it, and only then.
pub proof fn law_the_end_is_announced(
    bot: Bot,
    content: ContentView,
    stage: BotStage,
    event: HandlerEventView,
)
    ensures
        bot_step(bot.order, content, stage, event).0 == BotStage::Finished <==> (bot_step(
            bot.order,
            content,
            stage,
            event,
        ).1 is Done || bot_step(bot.order, content, stage, event).1 is Abort),
{
}

/// Where the bot answers a message it can: the message has a conversation to answer in, and where
/// the answer is an emoji somebody wrote the message that it is put on.
pub proof fn law_answers_have_a_target(
    bot: Bot,
    content: ContentView,
    events: Seq<HandlerEventView>,
    place: int,
)
    requires
        0 <= place < actions_of(bot, content, BotStage::Idle, events).len(),
    ensures
        ({
            let action = actions_of(bot, content, BotStage::Idle, events)[place];
            &&& action is React || action is Quote ==> content.thread is Some
            &&& action is React ==> content.data_message() is Some
        }),
{
    if content.thread is None {
        law_no_thread_no_answer(bot, content, events, place);
    }
    lemma_reactions_have_a_target(bot, content, BotStage::Idle, events, place);
}

/// From any stage on, a reaction is to something that somebody wrote.
proof fn lemma_reactions_have_a_target(
    bot: Bot,
    content: ContentView,
    stage: BotStage,
    events: Seq<HandlerEventView>,
    place: int,
)
    requires
        0 <= place < actions_of(bot, content, stage, events).len(),
    ensures
        actions_of(bot, content, stage, events)[place] is React
            ==> content.data_message() is Some,
    decreases events.len(),
{
    let (next, action) = bot_step(bot.order, content, stage, events[0]);
    let rest = actions_of(bot, content, next, events.skip(1));
    assert(actions_of(bot, content, stage, events) == seq![action] + rest);
    if place > 0 {
        assert((seq![action] + rest)[place] == rest[place - 1]);
        lemma_reactions_have_a_target(bot, content, next, events.skip(1), place - 1);
    }
}

/// What the enabling command stores is what the next message of the conversation finds: a ping
/// is then answered without the note that the bot is disabled.
pub proof fn law_enabling_lasts(
    store: Map<Seq<u8>, Seq<u8>>,
    thread: Thread,
    state: BotThreadState,
    catalog: ModelCatalog,
)
    requires
        catalog.offers(state.whisper_model),
    ensures
        ({
            let enabled = state_after(Command::Enable, state);
            let found = state_of(
                stored_for(store_after(store, thread, enabled), thread),
                catalog,
            );
            &&& found == enabled
            &&& reply_to(Command::Ping, found) == ReplyView::Quote("pong"@)
        }),
{
    law_get_after_put(store, thread, state_after(Command::Enable, state), catalog);
}

} // verus!
