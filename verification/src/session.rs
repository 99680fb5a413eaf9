//! The session lifecycle: startup configuration, the single-shot
//! shutdown signal, and the state machine that ties the event router
//! and the console loop to one channel.
//!
//! The surrounding runtime owns the real connection and console; it
//! feeds events and lines in as plain values, performs the actions a
//! step returns, and relays the modeled shutdown through its own
//! broadcast primitive.

use vstd::prelude::*;
use crate::console::{console_action, console_quits, console_send, ConsoleAction};
use crate::router::{option_text_is, reaction_display, reaction_send, route_event, ChatEvent};

verus! {

/// The single-shot shutdown notification shared by the two loops.
/// Once fired it stays fired for every current and future observer.
pub struct ShutdownSignal {
    fired: bool,
}

/// The state a shutdown signal has after it is fired, whatever state
/// it had before.
pub closed spec fn spec_fire(s: ShutdownSignal) -> ShutdownSignal {
    ShutdownSignal { fired: true }
}

impl ShutdownSignal {
    /// Whether the signal has been fired.
    pub closed spec fn spec_fired(self) -> bool {
        self.fired
    }

    /// A fresh, unfired signal.
    pub fn new() -> (s: ShutdownSignal)
        ensures
            !s.spec_fired(),
    {
        ShutdownSignal { fired: false }
    }

    /// Fires the signal. The resulting state does not depend on the
    /// state before, so firing twice leaves what one firing leaves.
    pub fn fire(&mut self)
        ensures
            *final(self) == spec_fire(*old(self)),
            final(self).spec_fired(),
    {
        self.fired = true;
    }

    /// Whether the signal has been fired; once true it stays true.
    pub fn is_fired(&self) -> (b: bool)
        ensures
            b == self.spec_fired(),
    {
        self.fired
    }
}

/// Firing the shutdown signal twice has the same observable effect as
/// firing it once: the state after a second firing is the state after
/// the first.
pub proof fn lemma_fire_idempotent(s: ShutdownSignal)
    ensures
        spec_fire(spec_fire(s)) == spec_fire(s),
        spec_fire(s).spec_fired(),
{
}

/// A fatal startup failure: one of the three required configuration
/// values is absent.
pub enum StartupError {
    /// The service identity value is absent.
    MissingClientId,
    /// The service secret value is absent.
    MissingClientSecret,
    /// The target channel name is absent.
    MissingChannel,
}

/// The three required configuration values the process starts from.
pub struct Config {
    /// The service identity.
    pub client_id: String,
    /// The service secret.
    pub client_secret: String,
    /// The name of the channel the session joins.
    pub channel: String,
}

impl Config {
    /// Validates the three required configuration values. Succeeds if
    /// and only if all three are present; the error names the first
    /// absent value, checked in the order identity, secret, channel.
    pub fn from_values(
        client_id: Option<String>,
        client_secret: Option<String>,
        channel: Option<String>,
    ) -> (r: Result<Config, StartupError>)
        ensures
            r is Ok <==> client_id is Some && client_secret is Some && channel is Some,
            r matches Ok(c) ==> {
                &&& client_id matches Some(i) && c.client_id == i
                &&& client_secret matches Some(s) && c.client_secret == s
                &&& channel matches Some(h) && c.channel == h
            },
            r matches Err(e) ==> {
                &&& (e is MissingClientId <==> client_id is None)
                &&& (e is MissingClientSecret <==> client_id is Some && client_secret is None)
                &&& (e is MissingChannel <==> client_id is Some && client_secret is Some
                    && channel is None)
            },
    {
        match (client_id, client_secret, channel) {
            (None, _, _) => Err(StartupError::MissingClientId),
            (Some(_), None, _) => Err(StartupError::MissingClientSecret),
            (Some(_), Some(_), None) => Err(StartupError::MissingChannel),
            (Some(i), Some(s), Some(h)) => Ok(
                Config { client_id: i, client_secret: s, channel: h },
            ),
        }
    }
}

/// One outbound message to the chat service.
pub struct Outbound {
    /// The channel the text is sent to.
    pub channel: String,
    /// The text sent.
    pub text: String,
}

/// Whether the optional outbound `o` is exactly a send of the optional
/// text `t` to `channel`.
pub open spec fn outbound_is(o: Option<Outbound>, channel: Seq<char>, t: Option<Seq<char>>) -> bool {
    match o {
        Some(ob) => t matches Some(v) && ob.channel@ == channel && ob.text@ == v,
        None => t is None,
    }
}

/// The externally visible actions one step of a loop asks for. The
/// runtime performs them; a failed send or leave is discarded there
/// and never re-enters the library.
pub struct StepEffects {
    /// Message to send to the channel, if any.
    pub send: Option<Outbound>,
    /// Line to show on the console, if any.
    pub display: Option<String>,
    /// Whether to leave the channel.
    pub leave: bool,
    /// Whether to fire the shared shutdown signal.
    pub fire_shutdown: bool,
    /// Whether the loop that took this step exits afterwards.
    pub exit_loop: bool,
}

/// The live session: one immutable channel name, one shutdown signal,
/// and the run state of the two loops.
pub struct Session {
    channel: String,
    shutdown: ShutdownSignal,
    router_done: bool,
    console_done: bool,
}

impl Session {
    /// The name of the channel this session is joined to; fixed for
    /// the session's lifetime.
    pub closed spec fn spec_channel(self) -> Seq<char> {
        self.channel@
    }

    /// Whether the shared shutdown signal has been fired.
    pub closed spec fn spec_shutdown_fired(self) -> bool {
        self.shutdown.spec_fired()
    }

    /// Whether the event router's loop has exited.
    pub closed spec fn spec_router_done(self) -> bool {
        self.router_done
    }

    /// Whether the console loop has exited.
    pub closed spec fn spec_console_done(self) -> bool {
        self.console_done
    }

    /// A fresh session for `channel`: shutdown unfired, both loops
    /// running.
    pub fn new(channel: String) -> (s: Session)
        ensures
            s.spec_channel() == channel@,
            !s.spec_shutdown_fired(),
            !s.spec_router_done(),
            !s.spec_console_done(),
    {
        Session {
            channel,
            shutdown: ShutdownSignal::new(),
            router_done: false,
            console_done: false,
        }
    }

    /// The channel name, for the runtime's own calls.
    pub fn channel(&self) -> (r: &String)
        ensures
            r@ == self.spec_channel(),
    {
        &self.channel
    }

    /// Whether the shutdown signal has been fired.
    pub fn shutdown_fired(&self) -> (b: bool)
        ensures
            b == self.spec_shutdown_fired(),
    {
        self.shutdown.is_fired()
    }

    /// Routes one inbound chat event. The session state is unchanged;
    /// the effects are exactly the send and display the reaction rules
    /// give, addressed to this session's channel.
    pub fn on_chat_event(&self, event: &ChatEvent) -> (eff: StepEffects)
        ensures
            outbound_is(eff.send, self.spec_channel(), reaction_send(*event)),
            option_text_is(eff.display, reaction_display(*event)),
            !eff.leave,
            !eff.fire_shutdown,
            !eff.exit_loop,
    {
        let r = route_event(event);
        let send = match r.send {
            Some(text) => Some(Outbound { channel: self.channel.clone(), text }),
            None => None,
        };
        StepEffects {
            send,
            display: r.display,
            leave: false,
            fire_shutdown: false,
            exit_loop: false,
        }
    }

    /// The router's exit test between events: it leaves its loop as
    /// soon as the shutdown signal has fired.
    pub fn router_should_exit(&self) -> (b: bool)
        ensures
            b == self.spec_shutdown_fired(),
    {
        self.shutdown.is_fired()
    }

    /// The inbound event stream ended or the router observed the
    /// shutdown signal: its loop exits cleanly. Nothing else changes.
    pub fn on_router_exit(&mut self)
        ensures
            final(self).spec_router_done(),
            final(self).spec_channel() == old(self).spec_channel(),
            final(self).spec_shutdown_fired() == old(self).spec_shutdown_fired(),
            final(self).spec_console_done() == old(self).spec_console_done(),
    {
        self.router_done = true;
    }

    /// Console input ended without a quit: the console loop exits
    /// cleanly and the shutdown signal is left as it is.
    pub fn on_console_end(&mut self)
        ensures
            final(self).spec_console_done(),
            final(self).spec_channel() == old(self).spec_channel(),
            final(self).spec_shutdown_fired() == old(self).spec_shutdown_fired(),
            final(self).spec_router_done() == old(self).spec_router_done(),
    {
        self.console_done = true;
    }

    /// Acts on one raw console line. A blank line changes nothing; a
    /// quit sends the farewell, leaves the channel, fires the shutdown
    /// signal and ends the console loop; any other line is sent and
    /// the loop continues.
    pub fn on_console_line(&mut self, line: &str) -> (eff: StepEffects)
        ensures
            outbound_is(eff.send, old(self).spec_channel(), console_send(line@)),
            eff.display is None,
            eff.leave == console_quits(line@),
            eff.fire_shutdown == console_quits(line@),
            eff.exit_loop == console_quits(line@),
            final(self).spec_channel() == old(self).spec_channel(),
            final(self).spec_router_done() == old(self).spec_router_done(),
            final(self).spec_console_done() == (old(self).spec_console_done() || console_quits(
                line@,
            )),
            final(self).spec_shutdown_fired() == (old(self).spec_shutdown_fired()
                || console_quits(line@)),
    {
        match console_action(line) {
            ConsoleAction::Skip => StepEffects {
                send: None,
                display: None,
                leave: false,
                fire_shutdown: false,
                exit_loop: false,
            },
            ConsoleAction::Quit { farewell } => {
                self.shutdown.fire();
                self.console_done = true;
                StepEffects {
                    send: Some(Outbound { channel: self.channel.clone(), text: farewell }),
                    display: None,
                    leave: true,
                    fire_shutdown: true,
                    exit_loop: true,
                }
            },
            ConsoleAction::Say { text } => StepEffects {
                send: Some(Outbound { channel: self.channel.clone(), text }),
                display: None,
                leave: false,
                fire_shutdown: false,
                exit_loop: false,
            },
        }
    }
}

} // verus!
