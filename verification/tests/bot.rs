use sigbot::bot::thread_state::{BotThreadState, WhisperModel};
use sigbot::bot::{Bot, BotStage, BotState};
use sigbot::content::{
    AttachmentPointer, Content, ContentBody, DataMessage, Metadata, Sent, SyncMessage, Thread,
};
use sigbot::debug::{redact, DebugHandler};
use sigbot::handler::{
    AbortReason, AudioError, AudioType, HandlerAction, HandlerEvent, Outcome, SignalMsgHandler,
};
use sigbot::quick_hash::machine_order;

const THREAD: Thread = Thread::Contact([5; 16]);

fn settings(enabled: bool) -> BotThreadState {
    BotThreadState { enabled, whisper_model: WhisperModel { index: 2 } }
}

fn content(body: ContentBody) -> Content {
    Content {
        metadata: Metadata {
            sender: "alice".to_string(),
            timestamp: 1000,
            details: "sent from device 3".to_string(),
        },
        thread: Some(THREAD),
        body,
    }
}

fn own(message: DataMessage) -> Content {
    content(ContentBody::SynchronizeMessage(SyncMessage {
        sent: Some(Sent { message: Some(message), rest: vec![41] }),
        padding: Some(vec![1, 2, 3]),
        rest: vec![42],
    }))
}

fn own_text(text: &str) -> Content {
    let mut message = DataMessage::default();
    message.body = Some(text.to_string());
    own(message)
}

fn pointer(content_type: &str, file_name: Option<&str>) -> AttachmentPointer {
    AttachmentPointer {
        content_type: Some(content_type.to_string()),
        file_name: file_name.map(|name| name.to_string()),
        encoded: content_type.as_bytes().to_vec(),
    }
}

fn with_attachments(attachments: Vec<AttachmentPointer>) -> Content {
    let mut message = DataMessage::default();
    message.attachments = attachments;
    content(ContentBody::DataMessage(message))
}

fn run<H: SignalMsgHandler>(
    handler: &H,
    content: &Content,
    events: Vec<HandlerEvent>,
) -> Vec<HandlerAction> {
    let mut stage = handler.start();
    let mut actions = Vec::new();
    for event in events {
        let (next, action) = handler.handle(content, stage, event);
        stage = next;
        actions.push(action);
    }
    actions
}

fn start(state: BotThreadState, rest: Vec<HandlerEvent>) -> Vec<HandlerEvent> {
    let mut events = vec![HandlerEvent::Start, HandlerEvent::Loaded(Some(state))];
    events.extend(rest);
    events
}

#[test]
fn constructors() {
    assert_eq!(Bot::new(), Bot { order: machine_order() });
    assert_eq!(BotState::new(), BotState {});
}

#[test]
fn ping_is_answered_and_nothing_is_stored() {
    let actions = run(
        &Bot::new(),
        &own_text("/bot ping"),
        start(settings(false), vec![HandlerEvent::Sent(true)]),
    );
    assert_eq!(
        actions,
        vec![
            HandlerAction::Load(THREAD),
            HandlerAction::Quote("pong (disabled)".to_string()),
            HandlerAction::Done(Outcome::Handled),
        ]
    );
}

#[test]
fn enabling_is_stored() {
    let actions = run(
        &Bot::new(),
        &own_text("/bot enable"),
        start(settings(false), vec![HandlerEvent::Sent(true), HandlerEvent::Saved(true)]),
    );
    assert_eq!(
        actions,
        vec![
            HandlerAction::Load(THREAD),
            HandlerAction::React("👍".to_string()),
            HandlerAction::Save(THREAD, settings(true)),
            HandlerAction::Done(Outcome::Handled),
        ]
    );
}

#[test]
fn enabling_again_stores_nothing() {
    let actions = run(
        &Bot::new(),
        &own_text("/bot enable"),
        start(settings(true), vec![HandlerEvent::Sent(true)]),
    );
    assert_eq!(actions[2], HandlerAction::Done(Outcome::Handled));
}

#[test]
fn disabling_is_acknowledged_and_changes_nothing() {
    let actions = run(
        &Bot::new(),
        &own_text("/bot disable"),
        start(settings(true), vec![HandlerEvent::Sent(true)]),
    );
    assert_eq!(actions[1], HandlerAction::React("👍".to_string()));
    assert_eq!(actions[2], HandlerAction::Done(Outcome::Handled));
}

#[test]
fn the_medium_model_command_ends_without_an_answer() {
    let actions = run(&Bot::new(), &own_text("/bot model medium"), start(settings(true), vec![]));
    assert_eq!(
        actions,
        vec![HandlerAction::Load(THREAD), HandlerAction::Done(Outcome::Handled)]
    );
}

#[test]
fn other_texts_are_left_alone() {
    let actions = run(&Bot::new(), &own_text("good morning"), start(settings(true), vec![]));
    assert_eq!(
        actions,
        vec![HandlerAction::Load(THREAD), HandlerAction::Done(Outcome::NotACommand)]
    );
}

#[test]
fn commands_of_others_are_not_obeyed() {
    let mut message = DataMessage::default();
    message.body = Some("/bot enable".to_string());
    let actions = run(
        &Bot::new(),
        &content(ContentBody::DataMessage(message)),
        start(settings(false), vec![]),
    );
    assert_eq!(
        actions,
        vec![HandlerAction::Load(THREAD), HandlerAction::Done(Outcome::Skipped)]
    );
}

#[test]
fn messages_without_words_or_attachments() {
    for body in [
        ContentBody::Other(vec![1, 2]),
        ContentBody::SynchronizeMessage(SyncMessage {
            sent: None,
            padding: None,
            rest: vec![],
        }),
        ContentBody::SynchronizeMessage(SyncMessage {
            sent: Some(Sent { message: None, rest: vec![] }),
            padding: None,
            rest: vec![],
        }),
    ] {
        let actions = run(&Bot::new(), &content(body), start(settings(true), vec![]));
        assert_eq!(actions[1], HandlerAction::Done(Outcome::Skipped));
    }
    let actions = run(&Bot::new(), &with_attachments(vec![]), start(settings(true), vec![]));
    assert_eq!(actions[1], HandlerAction::Done(Outcome::Handled));
}

#[test]
fn without_a_thread_nothing_is_done() {
    let mut message = own_text("/bot enable");
    message.thread = None;
    let actions = run(
        &Bot::new(),
        &message,
        vec![HandlerEvent::Start, HandlerEvent::Loaded(Some(settings(false)))],
    );
    assert_eq!(
        actions,
        vec![
            HandlerAction::Done(Outcome::NoThread),
            HandlerAction::Abort(AbortReason::OutOfTurn),
        ]
    );
}

#[test]
fn voice_messages_are_transcribed_in_order() {
    let first = pointer("audio/aac", Some("note.m4a"));
    let picture = pointer("image/png", Some("cat.m4a"));
    let second = pointer("audio/aac", Some("m4a.aac"));
    let third = pointer("audio/aac", None);
    let message = with_attachments(vec![
        first.clone(),
        picture,
        second.clone(),
        third.clone(),
        pointer("audio/mpeg", None),
    ]);
    let actions = run(
        &Bot::new(),
        &message,
        start(
            settings(false),
            vec![
                HandlerEvent::Sent(true),
                HandlerEvent::Fetched(Some(vec![1])),
                HandlerEvent::Transcribed(Some("hello".to_string())),
                HandlerEvent::Sent(true),
                HandlerEvent::Sent(true),
                HandlerEvent::Fetched(None),
                HandlerEvent::Sent(true),
                HandlerEvent::Fetched(Some(vec![3])),
                HandlerEvent::Transcribed(None),
            ],
        ),
    );
    let ear = HandlerAction::React("🦻".to_string());
    let model = WhisperModel { index: 2 };
    assert_eq!(actions.len(), 11);
    assert_eq!(actions[1], ear);
    assert_eq!(actions[2], HandlerAction::Fetch(first));
    assert_eq!(actions[3], HandlerAction::Transcribe(model, AudioType::M4A, vec![1]));
    assert_eq!(actions[4], HandlerAction::Quote("TRANSCRIPT:\nhello".to_string()));
    assert_eq!(actions[5], ear);
    assert_eq!(actions[6], HandlerAction::Fetch(second));
    assert_eq!(actions[7], ear);
    assert_eq!(actions[8], HandlerAction::Fetch(third));
    assert_eq!(actions[9], HandlerAction::Transcribe(model, AudioType::AAC, vec![3]));
    assert_eq!(actions[10], HandlerAction::Done(Outcome::Handled));
}

#[test]
fn own_voice_messages_are_transcribed_too() {
    let mut message = DataMessage::default();
    message.attachments = vec![pointer("audio/aac", None)];
    let actions = run(&Bot::new(), &own(message), start(settings(true), vec![]));
    assert_eq!(actions[1], HandlerAction::React("🦻".to_string()));
}

#[test]
fn a_voice_message_beside_a_text_is_not_transcribed() {
    let mut message = DataMessage::default();
    message.body = Some("listen".to_string());
    message.attachments = vec![pointer("audio/aac", None)];
    let actions = run(
        &Bot::new(),
        &content(ContentBody::DataMessage(message)),
        start(settings(true), vec![]),
    );
    assert_eq!(actions[1], HandlerAction::Done(Outcome::Skipped));
}

#[test]
fn the_file_name_tells_the_form() {
    assert_eq!(Bot::audio_type(&pointer("audio/aac", Some("x.m4a"))), AudioType::M4A);
    assert_eq!(Bot::audio_type(&pointer("audio/aac", Some(".m4a"))), AudioType::M4A);
    assert_eq!(Bot::audio_type(&pointer("audio/aac", Some("ünïcödé.m4a"))), AudioType::M4A);
    assert_eq!(Bot::audio_type(&pointer("audio/aac", Some("m4a"))), AudioType::AAC);
    assert_eq!(Bot::audio_type(&pointer("audio/aac", Some("x.M4A"))), AudioType::AAC);
    assert_eq!(Bot::audio_type(&pointer("audio/aac", Some(""))), AudioType::AAC);
    assert_eq!(Bot::audio_type(&pointer("audio/aac", None)), AudioType::AAC);
}

#[test]
fn what_was_fetched_is_transcribed_and_what_was_not_is_an_error() {
    let voice = pointer("audio/aac", Some("x.m4a"));
    assert_eq!(
        Bot::new().process_audio_attachment(&settings(true), &voice, Some(vec![1, 2])),
        Ok((WhisperModel { index: 2 }, AudioType::M4A, vec![1, 2]))
    );
    let lost = Bot::new().process_audio_attachment(&settings(true), &voice, None);
    assert_eq!(lost, Err(AudioError::NotFetched));
    assert_eq!(lost.unwrap_err().message(), "failed to fetch attachment");
}

#[test]
fn enabling_shows_in_the_ping_only() {
    let out = |text: &str, enabled| -> Vec<HandlerAction> {
        let events = start(settings(enabled), vec![HandlerEvent::Sent(true)]);
        run(&Bot::new(), &own_text(text), events)
            .into_iter()
            .filter(|a| matches!(a, HandlerAction::React(_) | HandlerAction::Quote(_)))
            .collect()
    };
    for text in ["/bot enable", "/bot disable", "/bot model base", "/bot model medium", "hi"] {
        assert_eq!(out(text, false), out(text, true));
    }
    assert_eq!(out("/bot enable", true), vec![HandlerAction::React("👍".to_string())]);
    assert_ne!(out("/bot ping", false), out("/bot ping", true));
}

#[test]
fn an_attachment_without_a_type_is_no_voice_message() {
    let untyped = AttachmentPointer { content_type: None, file_name: None, encoded: vec![] };
    assert_eq!(untyped.content_type(), "");
    let actions = run(&Bot::new(), &with_attachments(vec![untyped]), start(settings(true), vec![]));
    assert_eq!(actions[1], HandlerAction::Done(Outcome::Handled));
}

#[test]
fn failures_break_the_handling_off() {
    let bot = Bot::new();
    let text = own_text("/bot enable");
    let voice = with_attachments(vec![pointer("audio/aac", None)]);
    let actions = run(
        &bot,
        &text,
        vec![HandlerEvent::Start, HandlerEvent::Loaded(None)],
    );
    assert_eq!(actions[1], HandlerAction::Abort(AbortReason::LoadFailed));
    let actions = run(&bot, &text, start(settings(false), vec![HandlerEvent::Sent(false)]));
    assert_eq!(actions[2], HandlerAction::Abort(AbortReason::SendFailed));
    let actions = run(
        &bot,
        &text,
        start(settings(false), vec![HandlerEvent::Sent(true), HandlerEvent::Saved(false)]),
    );
    assert_eq!(actions[3], HandlerAction::Abort(AbortReason::SaveFailed));
    let actions = run(&bot, &voice, start(settings(false), vec![HandlerEvent::Sent(false)]));
    assert_eq!(actions[2], HandlerAction::Abort(AbortReason::SendFailed));
    let actions = run(
        &bot,
        &voice,
        start(
            settings(false),
            vec![
                HandlerEvent::Sent(true),
                HandlerEvent::Fetched(Some(vec![])),
                HandlerEvent::Transcribed(Some(String::new())),
                HandlerEvent::Sent(false),
            ],
        ),
    );
    assert_eq!(actions[5], HandlerAction::Abort(AbortReason::SendFailed));
}

#[test]
fn an_event_out_of_turn_ends_the_handling() {
    let bot = Bot::new();
    let text = own_text("/bot ping");
    let (stage, action) = bot.handle(&text, BotStage::Idle, HandlerEvent::Sent(true));
    assert_eq!(stage, BotStage::Finished);
    assert_eq!(action, HandlerAction::Abort(AbortReason::OutOfTurn));
    let beyond = BotStage::Quoting { state: settings(true), at: 7 };
    let (stage, action) = bot.handle(&text, beyond, HandlerEvent::Sent(true));
    assert_eq!(stage, BotStage::Finished);
    assert_eq!(action, HandlerAction::Abort(AbortReason::OutOfTurn));
}

#[test]
fn the_log_does_not_tell_secrets() {
    let mut message = DataMessage::default();
    message.body = Some("hi".to_string());
    message.profile_key = Some(vec![9; 32]);
    message.rest = vec![43, 44];
    let mut shown_message = message.clone();
    shown_message.profile_key = None;
    let shown = content(ContentBody::SynchronizeMessage(SyncMessage {
        sent: Some(Sent { message: Some(shown_message), rest: vec![41] }),
        padding: None,
        rest: vec![42],
    }));
    let whole = own(message.clone());
    assert_eq!(redact(&whole), shown);
    assert_eq!(redact(&shown), shown);
    let from_others = content(ContentBody::DataMessage(message));
    assert_eq!(redact(&from_others), from_others);
    let receipt = content(ContentBody::Other(vec![5, 6, 7]));
    assert_eq!(redact(&receipt), receipt);
    let actions = run(
        &DebugHandler {},
        &whole,
        vec![HandlerEvent::Start, HandlerEvent::Logged, HandlerEvent::Logged],
    );
    assert_eq!(
        actions,
        vec![
            HandlerAction::Log(shown),
            HandlerAction::Done(Outcome::Handled),
            HandlerAction::Abort(AbortReason::OutOfTurn),
        ]
    );
}

#[test]
fn voice_messages_are_answered_whether_or_not_the_bot_is_enabled() {
    let voice = with_attachments(vec![pointer("audio/aac", Some("x.m4a"))]);
    let events = |enabled| {
        start(
            settings(enabled),
            vec![
                HandlerEvent::Sent(true),
                HandlerEvent::Fetched(Some(vec![7])),
                HandlerEvent::Transcribed(Some("hello".to_string())),
                HandlerEvent::Sent(true),
            ],
        )
    };
    let actions = run(&Bot::new(), &voice, events(false));
    assert_eq!(actions, run(&Bot::new(), &voice, events(true)));
    assert_eq!(
        actions[3],
        HandlerAction::Transcribe(WhisperModel { index: 2 }, AudioType::M4A, vec![7])
    );
    assert_eq!(actions[4], HandlerAction::Quote("TRANSCRIPT:\nhello".to_string()));
    let ping = own_text("/bot ping");
    assert_ne!(
        run(&Bot::new(), &ping, start(settings(false), vec![])),
        run(&Bot::new(), &ping, start(settings(true), vec![]))
    );
}
