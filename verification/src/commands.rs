//! What each command decides, apart from how it is asked and answered.

use vstd::prelude::*;
use crate::text::same_text;

pub mod add_msg;
pub mod list_msg;
pub mod register;
pub mod remove_msg;
pub mod unregister;

verus! {

/// The commands that are served.
#[derive(Debug, Clone, Copy, PartialEq, Eq, Structural)]
pub enum Command {
    Register,
    Unregister,
    AddMsg,
    ListMsg,
    RemoveMsg,
}

/// Why a command was turned down before it changed anything.
#[derive(Debug, Clone, Copy, PartialEq, Eq, Structural)]
pub enum CommandError {
    /// No message category was given.
    MissingType,
    /// No message text was given.
    MissingMessage,
    /// The tag given names none of the three message categories.
    InvalidType,
}

impl CommandError {
    /// The refusal in words, as the user is told.
    pub open spec fn message_spec(self) -> Seq<char> {
        match self {
            CommandError::MissingType => "❌ Type de message manquant !"@,
            CommandError::MissingMessage => "❌ Message manquant !"@,
            CommandError::InvalidType =>
                "❌ Type de message invalide ! Types valides : thirty_min, one_hour, three_hours"@,
        }
    }

    /// The refusal in words, as the user is told.
    pub fn message(self) -> (text: &'static str)
        ensures
            text@ == self.message_spec(),
    {
        match self {
            CommandError::MissingType => "❌ Type de message manquant !",
            CommandError::MissingMessage => "❌ Message manquant !",
            CommandError::InvalidType =>
                "❌ Type de message invalide ! Types valides : thirty_min, one_hour, three_hours",
        }
    }
}

/// The answer to a command name that is not served.
pub const NOT_IMPLEMENTED: &'static str = "This command is not implemented :(";

/// The command a name stands for, if it is served.
pub open spec fn command_named(name: Seq<char>) -> Option<Command> {
    if name == "register"@ {
        Some(Command::Register)
    } else if name == "unregister"@ {
        Some(Command::Unregister)
    } else if name == "add_msg"@ {
        Some(Command::AddMsg)
    } else if name == "list_msg"@ {
        Some(Command::ListMsg)
    } else if name == "remove_msg"@ {
        Some(Command::RemoveMsg)
    } else {
        None
    }
}

/// The command a name stands for; `None` for a name that is not served.
pub fn parse_command(name: &str) -> (command: Option<Command>)
    ensures
        command == command_named(name@),
{
    if same_text(name, "register") {
        Some(Command::Register)
    } else if same_text(name, "unregister") {
        Some(Command::Unregister)
    } else if same_text(name, "add_msg") {
        Some(Command::AddMsg)
    } else if same_text(name, "list_msg") {
        Some(Command::ListMsg)
    } else if same_text(name, "remove_msg") {
        Some(Command::RemoveMsg)
    } else {
        None
    }
}

} // verus!
