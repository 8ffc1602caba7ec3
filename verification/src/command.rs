//! The chat commands that the bot answers.

use vstd::prelude::*;
use crate::text::str_eq;

verus! {

/// A command of the bot. A message is a command where its whole content is
/// the command's literal.
#[derive(Debug, Clone, Copy, PartialEq, Eq, Structural)]
pub enum Command {
    /// `!ping`
    Ping,
    /// `!join`
    Join,
    /// `!leave`
    Leave,
    /// `!test`
    Test,
}

impl Command {
    /// The literal that a message must consist of to be this command.
    pub open spec fn literal(self) -> Seq<char> {
        match self {
            Command::Ping => "!ping"@,
            Command::Join => "!join"@,
            Command::Leave => "!leave"@,
            Command::Test => "!test"@,
        }
    }

    /// The literal of the command as a string slice.
    pub fn as_str(self) -> (s: &'static str)
        ensures
            s@ == self.literal(),
    {
        match self {
            Command::Ping => "!ping",
            Command::Join => "!join",
            Command::Leave => "!leave",
            Command::Test => "!test",
        }
    }
}

/// The command that a message of the given content is, if it is one.
pub open spec fn command_of(content: Seq<char>) -> Option<Command> {
    if content == Command::Ping.literal() {
        Some(Command::Ping)
    } else if content == Command::Join.literal() {
        Some(Command::Join)
    } else if content == Command::Leave.literal() {
        Some(Command::Leave)
    } else if content == Command::Test.literal() {
        Some(Command::Test)
    } else {
        None
    }
}

/// The literals of two different commands differ.
pub proof fn lemma_literals_differ(a: Command, b: Command)
    requires
        a != b,
    ensures
        a.literal() != b.literal(),
{
    reveal_strlit("!ping");
    reveal_strlit("!join");
    reveal_strlit("!leave");
    reveal_strlit("!test");
    let x = a.literal();
    let y = b.literal();
    if x.len() == y.len() {
        assert(x[1] != y[1]);
    }
}

/// A content is a command exactly where it is that command's literal.
pub proof fn lemma_command_of_literal(content: Seq<char>, command: Command)
    ensures
        command_of(content) == Some(command) <==> content == command.literal(),
        command_of(content) is None <==> forall|c: Command| content != #[trigger] c.literal(),
{
    lemma_literals_differ(Command::Ping, Command::Join);
    lemma_literals_differ(Command::Ping, Command::Leave);
    lemma_literals_differ(Command::Ping, Command::Test);
    lemma_literals_differ(Command::Join, Command::Leave);
    lemma_literals_differ(Command::Join, Command::Test);
    lemma_literals_differ(Command::Leave, Command::Test);
    if command_of(content) is None {
        assert forall|c: Command| content != #[trigger] c.literal() by {
            match c {
                Command::Ping => {},
                Command::Join => {},
                Command::Leave => {},
                Command::Test => {},
            }
        }
    } else {
        let found = command_of(content)->0;
        assert(content == found.literal());
    }
}

/// Reads the content of a message as a command.
pub fn parse_command(content: &str) -> (command: Option<Command>)
    ensures
        command == command_of(content@),
{
    if str_eq(content, Command::Ping.as_str()) {
        Some(Command::Ping)
    } else if str_eq(content, Command::Join.as_str()) {
        Some(Command::Join)
    } else if str_eq(content, Command::Leave.as_str()) {
        Some(Command::Leave)
    } else if str_eq(content, Command::Test.as_str()) {
        Some(Command::Test)
    } else {
        None
    }
}

} // verus!
