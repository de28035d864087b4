//! Interprets chat messages addressed to an annotation bot: a message is
//! either a request for help, an annotation (title, tags, time), or neither.

pub mod clock;
pub mod command;
pub mod handler;
pub mod text;

pub use command::{parse_command, parse_command_at, Annotate, Command};
pub use handler::{bot_tag, reply_for, Config, EventHandler};
pub use text::{is_whitespace_char, split_trimmed, strip_tag, trim_str};
