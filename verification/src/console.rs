//! The console loop's decision rules: what one raw operator line asks
//! the session to do.

use vstd::prelude::*;
use vstd::string::{StrSliceExecFns, StringExecFns};
use crate::command::{parse_command, Command};
use crate::text::{trim, trim_spec};

verus! {

/// The farewell sent to the channel when the operator quits.
pub open spec fn spec_farewell_text() -> Seq<char> {
    "I'm out of here!"@
}

/// The fixed greeting the operator can send with `"!hello"`.
pub open spec fn spec_greeting_text() -> Seq<char> {
    "Hello there!"@
}

/// What the console loop must do after reading one raw line.
pub enum ConsoleAction {
    /// The line was empty after trimming: show the prompt again.
    Skip,
    /// Send the farewell, leave the channel, fire the shutdown signal,
    /// and exit the loop.
    Quit { farewell: String },
    /// Send `text` to the channel and keep reading.
    Say { text: String },
}

/// The text of the outbound send, if any, that one raw console line
/// produces: nothing for a blank line, the farewell for `"!quit"`,
/// the fixed greeting for `"!hello"`, else the line itself, verbatim
/// and untrimmed.
pub open spec fn console_send(line: Seq<char>) -> Option<Seq<char>> {
    let t = trim_spec(line);
    if t.len() == 0 {
        None
    } else if t == "!quit"@ {
        Some(spec_farewell_text())
    } else if t == "!hello"@ {
        Some(spec_greeting_text())
    } else {
        Some(line)
    }
}

/// Whether one raw console line ends the session: only a line whose
/// trimmed form is `"!quit"`.
pub open spec fn console_quits(line: Seq<char>) -> bool {
    trim_spec(line) == "!quit"@ && trim_spec(line).len() != 0
}

/// The console rule: which action one raw line produces.
pub open spec fn is_console_action(line: Seq<char>, a: ConsoleAction) -> bool {
    let t = trim_spec(line);
    if t.len() == 0 {
        a is Skip
    } else if t == "!quit"@ {
        a matches ConsoleAction::Quit { farewell } && farewell@ == spec_farewell_text()
    } else if t == "!hello"@ {
        a matches ConsoleAction::Say { text } && text@ == spec_greeting_text()
    } else {
        a matches ConsoleAction::Say { text } && text@ == line
    }
}

/// Decides the console loop's response to one raw line: blank lines
/// are silently skipped, `"!quit"` ends the session with a farewell,
/// `"!hello"` sends the fixed greeting, and any other line is relayed
/// verbatim, exactly as typed.
pub fn console_action(line: &str) -> (a: ConsoleAction)
    ensures
        is_console_action(line@, a),
{
    let t = trim(line);
    if t.unicode_len() == 0 {
        ConsoleAction::Skip
    } else {
        match parse_command(line) {
            Command::Quit => ConsoleAction::Quit {
                farewell: String::from_str("I'm out of here!"),
            },
            Command::Hello => ConsoleAction::Say { text: String::from_str("Hello there!") },
            Command::Freeform(text) => ConsoleAction::Say { text },
        }
    }
}

} // verus!
