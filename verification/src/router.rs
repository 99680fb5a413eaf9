//! The event router: the reaction rules applied to each inbound chat
//! event, and the console repaint that frames an asynchronously
//! displayed line.

use vstd::prelude::*;
use vstd::string::StringExecFns;
use crate::text::str_eq;

verus! {

/// One inbound event from the chat service.
pub enum ChatEvent {
    /// A message in the joined channel.
    ChannelMessage { sender_name: String, text: String },
    /// A private whisper to the bot.
    DirectMessage { sender_name: String, text: String },
    /// A user entered the channel.
    UserJoined { login: String },
    /// A user left the channel.
    UserLeft { login: String },
    /// Any other protocol event; ignored.
    Other,
}

/// The login name reserved for the bot itself.
pub open spec fn spec_bot_login() -> Seq<char> {
    "daegonica_software"@
}

/// The login name reserved for the bot itself, as the transport
/// reports it in join events.
pub fn bot_login() -> (r: &'static str)
    ensures
        r@ == spec_bot_login(),
{
    "daegonica_software"
}

/// The reply to a `"!hello"` channel message from `sender`.
pub open spec fn hello_reply(sender: Seq<char>) -> Seq<char> {
    "Hello "@ + sender
}

/// The console line shown for a channel message.
pub open spec fn message_display(sender: Seq<char>, text: Seq<char>) -> Seq<char> {
    "["@ + sender + "]: "@ + text
}

/// The console line shown for a whisper.
pub open spec fn whisper_display(sender: Seq<char>, text: Seq<char>) -> Seq<char> {
    "(w) "@ + sender + ": "@ + text
}

/// The console line shown when a user enters the channel.
pub open spec fn joined_display(login: Seq<char>) -> Seq<char> {
    "("@ + login + ") joined chat."@
}

/// The console line shown when a user leaves the channel.
pub open spec fn left_display(login: Seq<char>) -> Seq<char> {
    "("@ + login + ") left chat."@
}

/// The announcement sent when the bot's own login joins the channel.
pub open spec fn spec_activation_text() -> Seq<char> {
    "twitch_bot activated."@
}

/// The reply rule: the text of the outbound send, if any, that one
/// inbound event triggers.
pub open spec fn reaction_send(event: ChatEvent) -> Option<Seq<char>> {
    match event {
        ChatEvent::ChannelMessage { sender_name, text } => if text@ == "!hello"@ {
            Some(hello_reply(sender_name@))
        } else {
            None
        },
        ChatEvent::DirectMessage { .. } => None,
        ChatEvent::UserJoined { login } => if login@ == spec_bot_login() {
            Some(spec_activation_text())
        } else {
            None
        },
        ChatEvent::UserLeft { .. } => None,
        ChatEvent::Other => None,
    }
}

/// The display rule: the console line, if any, that one inbound event
/// produces. The bot's own join is announced, not displayed.
pub open spec fn reaction_display(event: ChatEvent) -> Option<Seq<char>> {
    match event {
        ChatEvent::ChannelMessage { sender_name, text } => Some(
            message_display(sender_name@, text@),
        ),
        ChatEvent::DirectMessage { sender_name, text } => Some(
            whisper_display(sender_name@, text@),
        ),
        ChatEvent::UserJoined { login } => if login@ == spec_bot_login() {
            None
        } else {
            Some(joined_display(login@))
        },
        ChatEvent::UserLeft { login } => Some(left_display(login@)),
        ChatEvent::Other => None,
    }
}

/// Whether the optional string `o` holds exactly the optional text `t`.
pub open spec fn option_text_is(o: Option<String>, t: Option<Seq<char>>) -> bool {
    match o {
        Some(s) => t matches Some(v) && s@ == v,
        None => t is None,
    }
}

/// The outcome of routing one inbound event: at most one outbound send
/// and at most one console display line.
pub struct Reaction {
    /// Text to send to the channel, if the event triggers a reply.
    pub send: Option<String>,
    /// Line to show on the console, if the event is displayed.
    pub display: Option<String>,
}

/// Applies the reaction rules to one inbound event: exactly the send
/// and the display line that `reaction_send` and `reaction_display`
/// give, for every event.
pub fn route_event(event: &ChatEvent) -> (r: Reaction)
    ensures
        option_text_is(r.send, reaction_send(*event)),
        option_text_is(r.display, reaction_display(*event)),
{
    match event {
        ChatEvent::ChannelMessage { sender_name, text } => {
            let send = if str_eq(text.as_str(), "!hello") {
                Some(String::from_str("Hello ").concat(sender_name.as_str()))
            } else {
                None
            };
            let display = String::from_str("[").concat(sender_name.as_str()).concat(
                "]: ",
            ).concat(text.as_str());
            Reaction { send, display: Some(display) }
        },
        ChatEvent::DirectMessage { sender_name, text } => {
            let display = String::from_str("(w) ").concat(sender_name.as_str()).concat(
                ": ",
            ).concat(text.as_str());
            Reaction { send: None, display: Some(display) }
        },
        ChatEvent::UserJoined { login } => {
            if str_eq(login.as_str(), bot_login()) {
                Reaction { send: Some(String::from_str("twitch_bot activated.")), display: None }
            } else {
                let display = String::from_str("(").concat(login.as_str()).concat(") joined chat.");
                Reaction { send: None, display: Some(display) }
            }
        },
        ChatEvent::UserLeft { login } => {
            let display = String::from_str("(").concat(login.as_str()).concat(") left chat.");
            Reaction { send: None, display: Some(display) }
        },
        ChatEvent::Other => Reaction { send: None, display: None },
    }
}

/// The console repaint for an asynchronously displayed line: erase the
/// pending input line, print the message, and re-show the prompt on the
/// next line.
pub open spec fn spec_repaint(msg: Seq<char>) -> Seq<char> {
    "\r\x1b[2K"@ + msg + "\n> "@
}

/// Frames a display line for the console so the prompt is never
/// interleaved mid-line.
pub fn display_repaint(msg: &str) -> (r: String)
    ensures
        r@ == spec_repaint(msg@),
{
    String::from_str("\r\x1b[2K").concat(msg).concat("\n> ")
}

} // verus!
