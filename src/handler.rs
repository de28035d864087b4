//! What the bot answers: its tag in a channel and the reply to each command.

use crate::command::Command;
use vstd::prelude::*;

verus! {

/// The reply to a request for help.
pub const HELP_REPLY: &'static str = "Type your annotation in \"title. tag 1,tag 2, tag 3. time.\" or \n  \"title. tag 1,tag 2, tag 3.\"";

/// The reply once an annotation has been handed on to be saved.
pub const DONE_REPLY: &'static str = "Done! Annotation added.";

/// The reply to a message that is neither.
pub const UNKNOWN_REPLY: &'static str = "Sorry, I don't know what you want";

/// The bot's settings: its chat token and where annotations are sent.
#[derive(Clone, Debug)]
pub struct Config {
    pub slack_key: String,
    pub url: String,
}

/// Answers the messages of a chat session with the settings it was made with.
pub struct EventHandler {
    pub config: Config,
}

impl EventHandler {
    pub fn new(config: Config) -> (r: EventHandler)
        ensures
            r.config == config,
    {
        EventHandler { config: config }
    }
}

/// How the chat writes a mention of the user `id`.
pub open spec fn mention_of(id: Seq<char>) -> Seq<char> {
    "<@"@ + id + ">"@
}

/// The mention of the user `id`, as it stands at the start of a message
/// addressed to that user.
pub fn bot_tag(id: &str) -> (r: String)
    ensures
        r@ == mention_of(id@),
{
    let mut r = "<@".to_owned();
    r.append(id);
    r.append(">");
    r
}

/// The text of the reply to `cmd`.
pub open spec fn reply_text(cmd: Command) -> Seq<char> {
    match cmd {
        Command::Help => HELP_REPLY@,
        Command::Annotate(_) => DONE_REPLY@,
        Command::Unrecognized => UNKNOWN_REPLY@,
    }
}

/// The reply to `cmd`.
pub fn reply_for(cmd: &Command) -> (r: String)
    ensures
        r@ == reply_text(*cmd),
{
    match cmd {
        Command::Help => HELP_REPLY.to_owned(),
        Command::Annotate(_) => DONE_REPLY.to_owned(),
        Command::Unrecognized => UNKNOWN_REPLY.to_owned(),
    }
}

} // verus!
