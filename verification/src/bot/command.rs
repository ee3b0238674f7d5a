//! The commands that the owner of the account can write to the bot.
use crate::bot::thread_state::BotThreadState;
use crate::text::same_text;
use vstd::prelude::*;

verus! {

/// The sizes of model that a command can name.
#[derive(Debug, PartialEq, Eq, Clone, Copy, Structural)]
pub enum ModelSize {
    Tiny,
    Base,
    Small,
    Medium,
    Large,
}

/// A command.
#[derive(Debug, PartialEq, Eq, Clone, Copy, Structural)]
pub enum Command {
    Ping,
    Enable,
    Model(ModelSize),
    Disable,
}

/// How the bot answers a command.
#[derive(Debug, PartialEq, Eq)]
pub enum Reply {
    /// A message that quotes the command.
    Quote(String),
    /// An emoji on the command.
    React(String),
    /// No answer.
    Silence,
}

#[verifier::ext_equal]
pub enum ReplyView {
    Quote(Seq<char>),
    React(Seq<char>),
    Silence,
}

impl View for Reply {
    type V = ReplyView;

    open spec fn view(&self) -> ReplyView {
        match self {
            Reply::Quote(text) => ReplyView::Quote(text@),
            Reply::React(emoji) => ReplyView::React(emoji@),
            Reply::Silence => ReplyView::Silence,
        }
    }
}

/// The text of a command.
pub open spec fn command_text(command: Command) -> Seq<char> {
    match command {
        Command::Ping => "/bot ping"@,
        Command::Enable => "/bot enable"@,
        Command::Model(ModelSize::Tiny) => "/bot model tiny"@,
        Command::Model(ModelSize::Base) => "/bot model base"@,
        Command::Model(ModelSize::Small) => "/bot model small"@,
        Command::Model(ModelSize::Medium) => "/bot model medium"@,
        Command::Model(ModelSize::Large) => "/bot model large"@,
        Command::Disable => "/bot disable"@,
    }
}

/// The command that a text is, if it is one.
pub open spec fn command_of(text: Seq<char>) -> Option<Command> {
    if text == "/bot ping"@ {
        Some(Command::Ping)
    } else if text == "/bot enable"@ {
        Some(Command::Enable)
    } else if text == "/bot model tiny"@ {
        Some(Command::Model(ModelSize::Tiny))
    } else if text == "/bot model base"@ {
        Some(Command::Model(ModelSize::Base))
    } else if text == "/bot model small"@ {
        Some(Command::Model(ModelSize::Small))
    } else if text == "/bot model medium"@ {
        Some(Command::Model(ModelSize::Medium))
    } else if text == "/bot model large"@ {
        Some(Command::Model(ModelSize::Large))
    } else if text == "/bot disable"@ {
        Some(Command::Disable)
    } else {
        None
    }
}

/// The answer to a command in a conversation with the settings `state`.
pub open spec fn reply_to(command: Command, state: BotThreadState) -> ReplyView {
    match command {
        Command::Ping => if state.enabled {
            ReplyView::Quote("pong"@)
        } else {
            ReplyView::Quote("pong (disabled)"@)
        },
        Command::Model(ModelSize::Medium) => ReplyView::Silence,
        _ => ReplyView::React("👍"@),
    }
}

/// The settings of a conversation once a command has been carried out in it. Only one command
/// changes them.
pub open spec fn state_after(command: Command, state: BotThreadState) -> BotThreadState {
    match command {
        Command::Enable => BotThreadState { enabled: true, ..state },
        _ => state,
    }
}

/// No two commands have the same text.
pub proof fn law_command_texts_are_distinct(a: Command, b: Command)
    requires
        command_text(a) == command_text(b),
    ensures
        a == b,
{
    reveal_strlit("/bot ping");
    reveal_strlit("/bot enable");
    reveal_strlit("/bot model tiny");
    reveal_strlit("/bot model base");
    reveal_strlit("/bot model small");
    reveal_strlit("/bot model medium");
    reveal_strlit("/bot model large");
    reveal_strlit("/bot disable");
    let x = command_text(a);
    let y = command_text(b);
    assert(x.len() == y.len());
    assert(x[5] == y[5]);
    if x.len() > 11 {
        assert(x[11] == y[11]);
    }
}

/// A text is read as a command exactly where it is that command's text, to the letter.
pub proof fn law_command_is_its_text(text: Seq<char>, command: Command)
    ensures
        command_of(text) == Some(command) <==> text == command_text(command),
{
    if text == command_text(command) {
        law_command_texts_are_distinct(command, command_of(text)->0);
    }
}

/// The bot is enabled in a conversation from the enabling command on: no command takes that
/// back.
pub proof fn law_enabled_stays_enabled(command: Command, state: BotThreadState)
    ensures
        state_after(Command::Enable, state).enabled,
        state.enabled ==> state_after(command, state).enabled,
{
}

/// To enable the bot twice changes nothing the second time.
pub proof fn law_enabling_twice(state: BotThreadState)
    ensures
        state_after(Command::Enable, state_after(Command::Enable, state)) == state_after(
            Command::Enable,
            state,
        ),
{
}

/// No command changes the model.
pub proof fn law_commands_keep_the_model(command: Command, state: BotThreadState)
    ensures
        state_after(command, state).whisper_model == state.whisper_model,
{
}

/// A ping after the enabling command is answered without the note that the bot is disabled.
pub proof fn law_ping_after_enable(state: BotThreadState)
    ensures
        reply_to(Command::Ping, state_after(Command::Enable, state)) == ReplyView::Quote("pong"@),
{
}

/// The command that a text is, if it is one.
pub fn parse_command(text: &str) -> (command: Option<Command>)
    ensures
        command == command_of(text@),
{
    if same_text(text, "/bot ping") {
        Some(Command::Ping)
    } else if same_text(text, "/bot enable") {
        Some(Command::Enable)
    } else if same_text(text, "/bot model tiny") {
        Some(Command::Model(ModelSize::Tiny))
    } else if same_text(text, "/bot model base") {
        Some(Command::Model(ModelSize::Base))
    } else if same_text(text, "/bot model small") {
        Some(Command::Model(ModelSize::Small))
    } else if same_text(text, "/bot model medium") {
        Some(Command::Model(ModelSize::Medium))
    } else if same_text(text, "/bot model large") {
        Some(Command::Model(ModelSize::Large))
    } else if same_text(text, "/bot disable") {
        Some(Command::Disable)
    } else {
        None
    }
}

impl Command {
    /// The answer to the command in a conversation with the settings `state`.
    pub fn reply(self, state: &BotThreadState) -> (reply: Reply)
        ensures
            reply@ == reply_to(self, *state),
    {
        match self {
            Command::Ping => {
                let text = if state.enabled {
                    "pong"
                } else {
                    "pong (disabled)"
                };
                Reply::Quote(text.to_owned())
            },
            Command::Enable => Reply::React("👍".to_owned()),
            Command::Model(size) => match size {
                ModelSize::Medium => Reply::Silence,
                _ => Reply::React("👍".to_owned()),
            },
            Command::Disable => Reply::React("👍".to_owned()),
        }
    }

    /// The settings of a conversation once the command has been carried out in it.
    pub fn apply(self, state: &BotThreadState) -> (after: BotThreadState)
        ensures
            after == state_after(self, *state),
    {
        let mut after = *state;
        if let Command::Enable = self {
            after.enabled = true;
        }
        after
    }
}

/// A text is read as a command exactly where it is one of these eight, to the letter.
pub proof fn law_the_eight_commands(text: &str, command: Option<Command>)
    requires
        call_ensures(parse_command, (text,), command),
    ensures
        command == Some(Command::Ping) <==> text@ == "/bot ping"@,
        command == Some(Command::Enable) <==> text@ == "/bot enable"@,
        command == Some(Command::Disable) <==> text@ == "/bot disable"@,
        command == Some(Command::Model(ModelSize::Tiny)) <==> text@ == "/bot model tiny"@,
        command == Some(Command::Model(ModelSize::Base)) <==> text@ == "/bot model base"@,
        command == Some(Command::Model(ModelSize::Small)) <==> text@ == "/bot model small"@,
        command == Some(Command::Model(ModelSize::Medium)) <==> text@ == "/bot model medium"@,
        command == Some(Command::Model(ModelSize::Large)) <==> text@ == "/bot model large"@,
{
    law_command_is_its_text(text@, Command::Ping);
    law_command_is_its_text(text@, Command::Enable);
    law_command_is_its_text(text@, Command::Disable);
    law_command_is_its_text(text@, Command::Model(ModelSize::Tiny));
    law_command_is_its_text(text@, Command::Model(ModelSize::Base));
    law_command_is_its_text(text@, Command::Model(ModelSize::Small));
    law_command_is_its_text(text@, Command::Model(ModelSize::Medium));
    law_command_is_its_text(text@, Command::Model(ModelSize::Large));
}

/// A ping is answered with a text that tells whether the bot is enabled, the command for the medium
/// model with nothing, and every other command with a thumb. Only the enabling command changes the
/// settings, and of those only the flag.
pub proof fn law_what_a_command_does(
    command: Command,
    state: BotThreadState,
    reply: Reply,
    after: BotThreadState,
)
    requires
        call_ensures(Command::reply, (command, &state), reply),
        call_ensures(Command::apply, (command, &state), after),
    ensures
        command == Command::Ping ==> (reply matches Reply::Quote(text) && text@ == (
        if state.enabled {
            "pong"@
        } else {
            "pong (disabled)"@
        })),
        command == Command::Model(ModelSize::Medium) ==> reply is Silence,
        command != Command::Ping && command != Command::Model(ModelSize::Medium) ==> (
        reply matches Reply::React(emoji) && emoji@ == "👍"@),
        after.whisper_model == state.whisper_model,
        after.enabled <==> state.enabled || command == Command::Enable,
{
}

} // verus!
