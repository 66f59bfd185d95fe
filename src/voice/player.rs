//! The player task's decisions.
//!
//! One task per guild multiplexes the voice websocket, the main gateway's
//! events, control commands and the streamer. The task itself waits on all
//! of them; here is what it does with each thing it receives.

use vstd::prelude::*;
use crate::voice::error::Error;
use crate::voice::payload::Speaking;
use crate::voice::streamer::{PacketStreamer, Status, StreamerView};
use crate::voice::ws::{self, is_disconnected, is_resumable, Session};

verus! {

/// An error for when a player is closed.
#[derive(Clone, Copy, Debug, PartialEq, Eq, Structural)]
pub struct PlayerClosed;

/// What a player reports.
pub enum EventType {
    /// The player is ready to play a sound.
    Ready,
    /// The player has started a sound.
    Playing,
    /// The player stopped playing a sound.
    Stopped,
    /// The player has crashed with an error.
    Error(Error),
}

/// An event that a player produces, tagged with its guild.
pub struct Event {
    pub guild_id: u64,
    pub kind: EventType,
}

/// A voice state update, as the player reads it.
pub struct VoiceStateInfo {
    pub user_id: u64,
    pub channel_id: Option<u64>,
    pub session_id: String,
}

/// A voice server update, as the player reads it.
pub struct VoiceServerInfo {
    pub endpoint: Option<String>,
    pub token: String,
}

/// An event of the main gateway that concerns the player.
pub enum GatewayEvent {
    VoiceStateUpdate(VoiceStateInfo),
    VoiceServerUpdate(VoiceServerInfo),
}

/// A control command; `S` is the audio source.
pub enum Command<S> {
    Play(S),
    Pause,
    Resume,
    Stop,
}

/// The updates a joining player waits for.
pub struct Join {
    pub user_id: u64,
    pub guild_id: u64,
    pub state: Option<VoiceStateInfo>,
    pub server: Option<VoiceServerInfo>,
}

impl Join {
    /// Nothing received yet.
    pub fn new(user_id: u64, guild_id: u64) -> (r: Join)
        ensures
            r.user_id == user_id,
            r.guild_id == guild_id,
            r.state is None,
            r.server is None,
    {
        Join { user_id, guild_id, state: None, server: None }
    }

    /// Records an update: this user's voice state, or a voice server that
    /// has an endpoint. Returns whether both have arrived.
    pub fn on_event(&mut self, ev: GatewayEvent) -> (r: bool)
        ensures
            final(self).user_id == old(self).user_id,
            final(self).guild_id == old(self).guild_id,
            ev matches GatewayEvent::VoiceStateUpdate(s) ==> (s.user_id == old(self).user_id
                ==> final(self).state == Some(s) && final(self).server == old(self).server),
            ev matches GatewayEvent::VoiceStateUpdate(s) ==> (s.user_id != old(self).user_id
                ==> *final(self) == *old(self)),
            ev matches GatewayEvent::VoiceServerUpdate(v) ==> (v.endpoint is Some
                ==> final(self).server == Some(v) && final(self).state == old(self).state),
            ev matches GatewayEvent::VoiceServerUpdate(v) ==> (v.endpoint is None
                ==> *final(self) == *old(self)),
            r == (final(self).state is Some && final(self).server is Some),
    {
        match ev {
            GatewayEvent::VoiceStateUpdate(s) => {
                if s.user_id == self.user_id {
                    self.state = Some(s);
                }
            },
            GatewayEvent::VoiceServerUpdate(v) => {
                if v.endpoint.is_some() {
                    self.server = Some(v);
                }
            },
        }
        self.state.is_some() && self.server.is_some()
    }

    /// The session to connect with, once both updates arrived: the
    /// server's endpoint and token with the voice state's session id.
    /// Joining with one of them missing fails with `CannotJoin`.
    pub fn session(&self) -> (r: Result<Session, Error>)
        ensures
            (self.state is Some && self.server is Some && self.server->Some_0.endpoint is Some)
                <==> r is Ok,
            r is Err ==> r matches Err(Error::CannotJoin),
            r matches Ok(s) ==> {
                &&& s.guild_id == self.guild_id
                &&& s.user_id == self.user_id
                &&& s.session_id == self.state->Some_0.session_id
                &&& s.endpoint == self.server->Some_0.endpoint->Some_0
                &&& s.token == self.server->Some_0.token
            },
    {
        match (&self.state, &self.server) {
            (Some(state), Some(server)) => match &server.endpoint {
                Some(endpoint) => Ok(
                    Session {
                        endpoint: endpoint.clone(),
                        guild_id: self.guild_id,
                        user_id: self.user_id,
                        session_id: state.session_id.clone(),
                        token: server.token.clone(),
                    },
                ),
                None => Err(Error::CannotJoin),
            },
            _ => Err(Error::CannotJoin),
        }
    }
}

/// What the task does after the voice websocket failed.
#[derive(Clone, Copy, Debug, PartialEq, Eq, Structural)]
pub enum WsFailure {
    /// A forced disconnect: wait for the gateway to move the session.
    WaitForGateway,
    /// A resumable error: reconnect.
    Reconnect,
    /// Any other error ends the task.
    Fatal,
}

/// Classifies a failure of the voice websocket.
pub fn on_ws_error(err: &ws::Error) -> (r: WsFailure)
    ensures
        is_disconnected(err) <==> r == WsFailure::WaitForGateway,
        !is_disconnected(err) && is_resumable(err) <==> r == WsFailure::Reconnect,
        !is_disconnected(err) && !is_resumable(err) <==> r == WsFailure::Fatal,
{
    if err.disconnected() {
        WsFailure::WaitForGateway
    } else if err.can_resume() {
        WsFailure::Reconnect
    } else {
        WsFailure::Fatal
    }
}

/// What the task does with a main gateway event.
pub enum GatewayAction {
    /// The session moved: rebuild the connection with the new server.
    Reconnect(VoiceServerInfo),
    /// Record the player's new voice state.
    UpdateState(VoiceStateInfo),
    /// The player's voice state lost its channel: the player was
    /// disconnected.
    Disconnected,
    /// Not about this player.
    Ignore,
}

/// Decides what to do with a main gateway event while the task runs, or
/// while it waits for the gateway after a forced disconnect.
pub fn on_gateway_event(user_id: u64, ev: GatewayEvent) -> (r: GatewayAction)
    ensures
        ev matches GatewayEvent::VoiceServerUpdate(v) ==> r == GatewayAction::Reconnect(v),
        ev matches GatewayEvent::VoiceStateUpdate(s) ==> (s.user_id != user_id ==> r
            == GatewayAction::Ignore),
        ev matches GatewayEvent::VoiceStateUpdate(s) ==> (s.user_id == user_id
            && s.channel_id is None ==> r == GatewayAction::Disconnected),
        ev matches GatewayEvent::VoiceStateUpdate(s) ==> (s.user_id == user_id
            && s.channel_id is Some ==> r == GatewayAction::UpdateState(s)),
{
    match ev {
        GatewayEvent::VoiceServerUpdate(v) => GatewayAction::Reconnect(v),
        GatewayEvent::VoiceStateUpdate(s) => {
            if s.user_id != user_id {
                GatewayAction::Ignore
            } else if s.channel_id.is_none() {
                GatewayAction::Disconnected
            } else {
                GatewayAction::UpdateState(s)
            }
        },
    }
}

/// A reconnect is possible only while the player is in a channel.
pub fn check_reconnect(state: &VoiceStateInfo) -> (r: Result<(), Error>)
    ensures
        r is Ok <==> state.channel_id is Some,
        r is Err ==> r matches Err(Error::Disconnected),
{
    if state.channel_id.is_some() {
        Ok(())
    } else {
        Err(Error::Disconnected)
    }
}

/// The session after the server moved: the new endpoint and token, the
/// session id kept. A server update without an endpoint cannot be joined.
pub fn moved_session(session: &Session, server: VoiceServerInfo) -> (r: Result<Session, Error>)
    ensures
        server.endpoint is Some <==> r is Ok,
        r is Err ==> r matches Err(Error::CannotJoin),
        r matches Ok(s) ==> {
            &&& s.endpoint == server.endpoint->Some_0
            &&& s.token == server.token
            &&& s.session_id == session.session_id
            &&& s.guild_id == session.guild_id
            &&& s.user_id == session.user_id
        },
{
    match server.endpoint {
        Some(endpoint) => Ok(session.moved(endpoint, server.token)),
        None => Err(Error::CannotJoin),
    }
}

/// After a reconnect, a player that is streaming tells the new server it
/// is speaking.
pub fn speaking_after_reconnect(streaming: bool, ssrc: u32) -> (r: Option<Speaking>)
    ensures
        streaming <==> r is Some,
        r matches Some(s) ==> s == (Speaking { speaking: 1, delay: Some(0), ssrc }),
{
    if streaming {
        Some(Speaking { speaking: 1, delay: Some(0), ssrc })
    } else {
        None
    }
}

/// Applies a control command to the streamer. Returns whether the source
/// the streamer had is to be closed, and the source to install, if any.
///
/// `Play` replaces the source, `Stop` removes it; `Pause` and `Resume`
/// leave the streamer as it is.
pub fn apply_command<S>(streamer: &mut PacketStreamer, command: Command<S>) -> (r: (bool, Option<S>))
    requires
        old(streamer)@.wf(),
    ensures
        final(streamer)@.wf(),
        command matches Command::Play(s) ==> r.1 == Some(s) && final(streamer)@ == (StreamerView {
            has_source: true,
            ..old(streamer)@.after_break()
        }) && r.0 == old(streamer)@.has_source,
        command is Stop ==> r.1 is None && final(streamer)@ == (StreamerView {
            has_source: false,
            ..old(streamer)@.after_break()
        }) && r.0 == old(streamer)@.has_source,
        (command is Pause || command is Resume) ==> r == (false, None::<S>) && final(streamer)@
            == old(streamer)@,
        final(streamer)@.streaming() == old(streamer)@.streaming(),
{
    match command {
        Command::Play(s) => {
            let had = streamer.take_source();
            streamer.source();
            (had, Some(s))
        },
        Command::Stop => {
            let had = streamer.take_source();
            (had, None)
        },
        Command::Pause => (false, None),
        Command::Resume => (false, None),
    }
}

/// What the task does when the streamer reports a status: the speaking
/// payload to send, the value of the shared `playing` flag, if it changes,
/// and the event to publish.
pub struct StatusReaction {
    pub speaking: Speaking,
    pub playing: Option<bool>,
    pub publish: bool,
}

/// Reacts to a streamer status. `Started` sends speaking on, sets
/// `playing` and publishes `Playing`. `Stopped` sends speaking off; when no
/// source remains, it clears `playing` and publishes `Stopped`.
pub fn on_status(status: Status, has_source: bool) -> (r: StatusReaction)
    ensures
        status matches Status::Started(ssrc) ==> r == (StatusReaction {
            speaking: Speaking { speaking: 1, delay: Some(0), ssrc },
            playing: Some(true),
            publish: true,
        }),
        status matches Status::Stopped(ssrc) ==> r == (StatusReaction {
            speaking: Speaking { speaking: 0, delay: Some(0), ssrc },
            playing: if has_source {
                None
            } else {
                Some(false)
            },
            publish: !has_source,
        }),
{
    match status {
        Status::Started(ssrc) => StatusReaction {
            speaking: Speaking { speaking: 1, delay: Some(0), ssrc },
            playing: Some(true),
            publish: true,
        },
        Status::Stopped(ssrc) => StatusReaction {
            speaking: Speaking { speaking: 0, delay: Some(0), ssrc },
            playing: if has_source {
                None
            } else {
                Some(false)
            },
            publish: !has_source,
        },
    }
}

/// The event a status publishes, if any.
pub fn status_event(guild_id: u64, status: Status, has_source: bool) -> (r: Option<Event>)
    ensures
        status is Started ==> (r matches Some(e) && e.guild_id == guild_id && e.kind is Playing),
        status is Stopped ==> (has_source <==> r is None),
        status is Stopped && !has_source ==> (r matches Some(e) && e.guild_id == guild_id
            && e.kind is Stopped),
{
    match status {
        Status::Started(_) => Some(Event { guild_id, kind: EventType::Playing }),
        Status::Stopped(_) => {
            if has_source {
                None
            } else {
                Some(Event { guild_id, kind: EventType::Stopped })
            }
        },
    }
}

} // verus!
