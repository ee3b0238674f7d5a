use sigbot::bot::command::{parse_command, Command, ModelSize, Reply};
use sigbot::bot::thread_state::{BotThreadState, WhisperModel};

fn settings(enabled: bool) -> BotThreadState {
    BotThreadState { enabled, whisper_model: WhisperModel { index: 3 } }
}

#[test]
fn every_command_is_recognised() {
    let all = [
        ("/bot ping", Command::Ping),
        ("/bot enable", Command::Enable),
        ("/bot model tiny", Command::Model(ModelSize::Tiny)),
        ("/bot model base", Command::Model(ModelSize::Base)),
        ("/bot model small", Command::Model(ModelSize::Small)),
        ("/bot model medium", Command::Model(ModelSize::Medium)),
        ("/bot model large", Command::Model(ModelSize::Large)),
        ("/bot disable", Command::Disable),
    ];
    for (text, command) in all {
        assert_eq!(parse_command(text), Some(command));
    }
}

#[test]
fn commands_are_matched_to_the_letter() {
    for text in [
        "", "/bot", "/bot ping ", " /bot ping", "/Bot ping", "/bot pin", "/bot pings",
        "/bot model", "/bot model huge", "bot ping", "hello",
    ] {
        assert_eq!(parse_command(text), None);
    }
}

#[test]
fn ping_tells_whether_the_bot_is_enabled() {
    assert_eq!(Command::Ping.reply(&settings(true)), Reply::Quote("pong".to_string()));
    assert_eq!(
        Command::Ping.reply(&settings(false)),
        Reply::Quote("pong (disabled)".to_string())
    );
}

#[test]
fn other_commands_get_a_thumb() {
    for command in [
        Command::Enable,
        Command::Disable,
        Command::Model(ModelSize::Tiny),
        Command::Model(ModelSize::Base),
        Command::Model(ModelSize::Small),
        Command::Model(ModelSize::Large),
    ] {
        assert_eq!(command.reply(&settings(false)), Reply::React("👍".to_string()));
    }
}

#[test]
fn the_medium_model_is_met_with_silence() {
    assert_eq!(Command::Model(ModelSize::Medium).reply(&settings(true)), Reply::Silence);
}

#[test]
fn only_enabling_changes_settings() {
    assert_eq!(Command::Enable.apply(&settings(false)), settings(true));
    assert_eq!(Command::Enable.apply(&settings(true)), settings(true));
    for command in [Command::Ping, Command::Disable, Command::Model(ModelSize::Large)] {
        assert_eq!(command.apply(&settings(false)), settings(false));
        assert_eq!(command.apply(&settings(true)), settings(true));
    }
}

#[test]
fn ping_after_enable() {
    let after = Command::Enable.apply(&settings(false));
    assert_eq!(Command::Ping.reply(&after), Reply::Quote("pong".to_string()));
}
