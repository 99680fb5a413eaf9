//! Parsing of operator console lines into commands.

use vstd::prelude::*;
use vstd::string::StringExecFns;
use crate::text::{str_eq, trim, trim_spec};

verus! {

/// A parsed operator console command.
pub enum Command {
    /// Leave the channel and end the session.
    Quit,
    /// Send the fixed greeting to the channel.
    Hello,
    /// Relay the given text to the channel as typed.
    Freeform(String),
}

/// What parsing must yield for the raw line `line`: the two exact
/// commands where the trimmed line matches them, else `Freeform` of
/// the line exactly as given, untrimmed, so a relayed line keeps its
/// spacing. The branches are exclusive, so each line falls under
/// exactly one command.
pub open spec fn is_parsed_command(line: Seq<char>, c: Command) -> bool {
    let t = trim_spec(line);
    if t == "!quit"@ {
        c is Quit
    } else if t == "!hello"@ {
        c is Hello
    } else {
        c matches Command::Freeform(text) && text@ == line
    }
}

/// Every line falls under exactly one command kind, decided by its
/// trimmed form: `Quit` exactly for `"!quit"`, `Hello` exactly for
/// `"!hello"` (where that is not already `"!quit"`), and `Freeform`
/// exactly for everything else.
pub proof fn lemma_parse_partition(line: Seq<char>, c: Command)
    requires
        is_parsed_command(line, c),
    ensures
        c is Quit <==> trim_spec(line) == "!quit"@,
        c is Hello <==> trim_spec(line) == "!hello"@ && trim_spec(line) != "!quit"@,
        c is Freeform <==> trim_spec(line) != "!quit"@ && trim_spec(line) != "!hello"@,
{
}

/// Maps one console line to a `Command`. Parsing is total: the
/// `"!quit"` and `"!hello"` commands match the line with surrounding
/// whitespace removed, and any other line becomes `Freeform` of the
/// line exactly as given, untrimmed, for send fidelity.
pub fn parse_command(line: &str) -> (c: Command)
    ensures
        is_parsed_command(line@, c),
{
    let t = trim(line);
    if str_eq(t, "!quit") {
        Command::Quit
    } else if str_eq(t, "!hello") {
        Command::Hello
    } else {
        Command::Freeform(String::from_str(line))
    }
}

} // verus!
