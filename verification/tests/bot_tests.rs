use twitch_bot::chatters::chatters_url;
use twitch_bot::command::{parse_command, Command};
use twitch_bot::console::{console_action, ConsoleAction};
use twitch_bot::router::{bot_login, display_repaint, route_event, ChatEvent};
use twitch_bot::session::{Config, Session, ShutdownSignal, StartupError};
use twitch_bot::text::trim;

fn channel_message(sender: &str, text: &str) -> ChatEvent {
    ChatEvent::ChannelMessage { sender_name: sender.to_string(), text: text.to_string() }
}

#[test]
fn parse_quit() {
    assert!(matches!(parse_command("!quit"), Command::Quit));
}

#[test]
fn parse_hello() {
    assert!(matches!(parse_command("!hello"), Command::Hello));
}

#[test]
fn parse_freeform() {
    match parse_command("foo bar") {
        Command::Freeform(text) => assert_eq!(text, "foo bar"),
        _ => panic!("expected a freeform command"),
    }
}

#[test]
fn parse_matches_commands_after_trimming() {
    assert!(matches!(parse_command("  !quit \t"), Command::Quit));
    assert!(matches!(parse_command("\n!hello\r\n"), Command::Hello));
}

#[test]
fn parse_keeps_freeform_lines_untrimmed() {
    match parse_command("  say this  ") {
        Command::Freeform(text) => assert_eq!(text, "  say this  "),
        _ => panic!("expected a freeform command"),
    }
}

#[test]
fn parse_trims_unicode_whitespace() {
    assert!(matches!(parse_command("\u{a0}!quit\u{3000}"), Command::Quit));
    assert!(matches!(parse_command("\u{2028}!hello\u{205f}"), Command::Hello));
}

#[test]
fn parse_near_misses_are_freeform() {
    assert!(matches!(parse_command("!quit now"), Command::Freeform(_)));
    assert!(matches!(parse_command("!Hello"), Command::Freeform(_)));
}

#[test]
fn trim_strips_both_ends() {
    assert_eq!(trim("  a b  "), "a b");
    assert_eq!(trim("\t\r\n"), "");
    assert_eq!(trim("x"), "x");
    assert_eq!(trim(""), "");
}

#[test]
fn trim_strips_unicode_whitespace() {
    assert_eq!(trim("\u{a0}\u{2003}x\u{200a}\u{3000}"), "x");
    assert_eq!(trim("\u{1680}\u{2028}\u{2029}\u{202f}\u{85}"), "");
}

#[test]
fn hello_message_triggers_reply() {
    let r = route_event(&channel_message("alice", "!hello"));
    assert_eq!(r.send.as_deref(), Some("Hello alice"));
    assert_eq!(r.display.as_deref(), Some("[alice]: !hello"));
}

#[test]
fn other_message_only_displays() {
    let r = route_event(&channel_message("alice", "how are you"));
    assert!(r.send.is_none());
    assert_eq!(r.display.as_deref(), Some("[alice]: how are you"));
}

#[test]
fn whisper_only_displays() {
    let r = route_event(&ChatEvent::DirectMessage {
        sender_name: "carol".to_string(),
        text: "psst".to_string(),
    });
    assert!(r.send.is_none());
    assert_eq!(r.display.as_deref(), Some("(w) carol: psst"));
}

#[test]
fn bot_join_announces_without_display() {
    let r = route_event(&ChatEvent::UserJoined { login: bot_login().to_string() });
    assert_eq!(r.send.as_deref(), Some("twitch_bot activated."));
    assert!(r.display.is_none());
}

#[test]
fn other_join_only_displays() {
    let r = route_event(&ChatEvent::UserJoined { login: "bob".to_string() });
    assert!(r.send.is_none());
    assert_eq!(r.display.as_deref(), Some("(bob) joined chat."));
}

#[test]
fn part_only_displays() {
    let r = route_event(&ChatEvent::UserLeft { login: "bob".to_string() });
    assert!(r.send.is_none());
    assert_eq!(r.display.as_deref(), Some("(bob) left chat."));
}

#[test]
fn other_event_is_ignored() {
    let r = route_event(&ChatEvent::Other);
    assert!(r.send.is_none());
    assert!(r.display.is_none());
}

#[test]
fn console_quit_carries_farewell() {
    match console_action("!quit") {
        ConsoleAction::Quit { farewell } => assert_eq!(farewell, "I'm out of here!"),
        _ => panic!("expected a quit action"),
    }
}

#[test]
fn console_hello_sends_greeting() {
    match console_action("!hello") {
        ConsoleAction::Say { text } => assert_eq!(text, "Hello there!"),
        _ => panic!("expected a say action"),
    }
}

#[test]
fn console_freeform_relays_line_verbatim() {
    match console_action("  good evening all  ") {
        ConsoleAction::Say { text } => assert_eq!(text, "  good evening all  "),
        _ => panic!("expected a say action"),
    }
}

#[test]
fn console_blank_line_is_skipped() {
    assert!(matches!(console_action(""), ConsoleAction::Skip));
    assert!(matches!(console_action("   \t"), ConsoleAction::Skip));
}

#[test]
fn shutdown_fires_once_and_stays_fired() {
    let mut s = ShutdownSignal::new();
    assert!(!s.is_fired());
    s.fire();
    assert!(s.is_fired());
}

#[test]
fn shutdown_firing_twice_equals_firing_once() {
    let mut once = ShutdownSignal::new();
    once.fire();
    let mut twice = ShutdownSignal::new();
    twice.fire();
    twice.fire();
    assert_eq!(once.is_fired(), twice.is_fired());
}

#[test]
fn config_requires_all_three_values() {
    let ok = Config::from_values(
        Some("id".to_string()),
        Some("secret".to_string()),
        Some("chan".to_string()),
    );
    match ok {
        Ok(c) => {
            assert_eq!(c.client_id, "id");
            assert_eq!(c.client_secret, "secret");
            assert_eq!(c.channel, "chan");
        }
        Err(_) => panic!("expected a valid configuration"),
    }
}

#[test]
fn config_reports_first_missing_value() {
    let r = Config::from_values(None, Some("s".to_string()), Some("c".to_string()));
    assert!(matches!(r, Err(StartupError::MissingClientId)));
    let r = Config::from_values(Some("i".to_string()), None, Some("c".to_string()));
    assert!(matches!(r, Err(StartupError::MissingClientSecret)));
    let r = Config::from_values(Some("i".to_string()), Some("s".to_string()), None);
    assert!(matches!(r, Err(StartupError::MissingChannel)));
    let r = Config::from_values(None, None, None);
    assert!(matches!(r, Err(StartupError::MissingClientId)));
}

#[test]
fn session_routes_hello_to_its_channel() {
    let s = Session::new("testchan".to_string());
    let eff = s.on_chat_event(&channel_message("bob", "!hello"));
    let send = eff.send.expect("expected one outbound send");
    assert_eq!(send.channel, "testchan");
    assert_eq!(send.text, "Hello bob");
    let display = eff.display.expect("expected one display line");
    assert!(display.contains("[bob]: !hello"));
    assert!(!eff.leave);
    assert!(!eff.fire_shutdown);
    assert!(!eff.exit_loop);
}

#[test]
fn session_quit_ends_the_session() {
    let mut s = Session::new("testchan".to_string());
    let eff = s.on_console_line("!quit");
    let send = eff.send.expect("expected the farewell send");
    assert_eq!(send.channel, "testchan");
    assert_eq!(send.text, "I'm out of here!");
    assert!(eff.leave);
    assert!(eff.fire_shutdown);
    assert!(eff.exit_loop);
    assert!(s.shutdown_fired());
    assert!(s.router_should_exit());
    s.on_router_exit();
}

#[test]
fn session_blank_line_changes_nothing() {
    let mut s = Session::new("testchan".to_string());
    let eff = s.on_console_line("");
    assert!(eff.send.is_none());
    assert!(eff.display.is_none());
    assert!(!eff.leave);
    assert!(!eff.fire_shutdown);
    assert!(!eff.exit_loop);
    assert!(!s.shutdown_fired());
    assert!(!s.router_should_exit());
}

#[test]
fn session_freeform_line_is_relayed_verbatim() {
    let mut s = Session::new("testchan".to_string());
    let eff = s.on_console_line(" good evening ");
    let send = eff.send.expect("expected the line to be sent");
    assert_eq!(send.channel, "testchan");
    assert_eq!(send.text, " good evening ");
    assert!(!eff.exit_loop);
    assert!(!s.shutdown_fired());
}

#[test]
fn session_console_end_leaves_signal_alone() {
    let mut s = Session::new("testchan".to_string());
    s.on_console_end();
    assert!(!s.shutdown_fired());
}

#[test]
fn repaint_erases_and_frames_the_line() {
    assert_eq!(display_repaint("[a]: hi"), "\r\x1b[2K[a]: hi\n> ");
}

#[test]
fn chatters_url_is_exact() {
    assert_eq!(
        chatters_url("123", "456"),
        "https://api.twitch.tv/helix/chat/chatters?broadcaster_id=123&moderator_id=456"
    );
}
