//! The voice websocket's decisions: close codes, which errors can be
//! resumed, the heartbeat, the handshake and the choice of encryption mode.
//!
//! The socket itself is driven by the caller, which hands each received
//! message and each elapsed deadline to the functions here.

use vstd::prelude::*;
use crate::voice::crypto;
use crate::voice::payload::{
    event_op, supported_mode, ClientConnect, ClientDisconnect, EncryptionMode, GatewayEvent, Heartbeat,
    HeartbeatAck, Hello, Identify, Ready, Resume, SelectProtocol, SelectProtocolData,
    OpCode, SessionDescription, Speaking,
};
use crate::voice::rtp::IpDiscoveryError;
use serde_json::Error as JsonError;
use tungstenite::Error as TungsteniteError;

verus! {

#[verifier::external_type_specification]
#[verifier::external_body]
pub struct ExJsonError(JsonError);

#[verifier::external_type_specification]
#[verifier::external_body]
pub struct ExTungsteniteError(TungsteniteError);

/// Api error code, sent in a close frame.
#[derive(Clone, Copy, Debug, PartialEq, Eq, Structural)]
pub enum Code {
    UnknownOpcode,
    BadPayload,
    NotAuthenticated,
    AuthenticationFailed,
    AlreadyAuthenticated,
    InvalidSession,
    SessionTimeout,
    ServerNotFound,
    UnknownProtocol,
    Disconnected,
    VoiceServerCrashed,
    UnknownEncryption,
}

/// The close code that stands for an api error code.
pub open spec fn code_value(c: Code) -> u16 {
    match c {
        Code::UnknownOpcode => 4001,
        Code::BadPayload => 4002,
        Code::NotAuthenticated => 4003,
        Code::AuthenticationFailed => 4004,
        Code::AlreadyAuthenticated => 4005,
        Code::InvalidSession => 4006,
        Code::SessionTimeout => 4009,
        Code::ServerNotFound => 4011,
        Code::UnknownProtocol => 4012,
        Code::Disconnected => 4014,
        Code::VoiceServerCrashed => 4015,
        Code::UnknownEncryption => 4016,
    }
}

/// The close codes that stand for an api error code.
pub open spec fn is_api_code(code: u16) -> bool {
    (4001 <= code <= 4006) || code == 4009 || (4011 <= code <= 4012) || (4014 <= code <= 4016)
}

impl Code {
    /// The api error code a close code stands for, if any.
    pub fn from_code(code: u16) -> (r: Option<Code>)
        ensures
            r is Some <==> is_api_code(code),
            r matches Some(c) ==> code_value(c) == code,
    {
        match code {
            4001 => Some(Code::UnknownOpcode),
            4002 => Some(Code::BadPayload),
            4003 => Some(Code::NotAuthenticated),
            4004 => Some(Code::AuthenticationFailed),
            4005 => Some(Code::AlreadyAuthenticated),
            4006 => Some(Code::InvalidSession),
            4009 => Some(Code::SessionTimeout),
            4011 => Some(Code::ServerNotFound),
            4012 => Some(Code::UnknownProtocol),
            4014 => Some(Code::Disconnected),
            4015 => Some(Code::VoiceServerCrashed),
            4016 => Some(Code::UnknownEncryption),
            _ => None,
        }
    }

    /// The close code of the api error code.
    pub fn code(&self) -> (r: u16)
        ensures
            r == code_value(*self),
    {
        match self {
            Code::UnknownOpcode => 4001,
            Code::BadPayload => 4002,
            Code::NotAuthenticated => 4003,
            Code::AuthenticationFailed => 4004,
            Code::AlreadyAuthenticated => 4005,
            Code::InvalidSession => 4006,
            Code::SessionTimeout => 4009,
            Code::ServerNotFound => 4011,
            Code::UnknownProtocol => 4012,
            Code::Disconnected => 4014,
            Code::VoiceServerCrashed => 4015,
            Code::UnknownEncryption => 4016,
        }
    }
}

/// Every api error code's close code reads back as that code.
pub proof fn lemma_code_round_trip(c: Code)
    ensures
        is_api_code(code_value(c)),
        forall|d: Code| code_value(d) == code_value(c) ==> d == c,
{
}

/// Api error: a close frame with a known code.
pub struct ApiError {
    pub code: Code,
    pub message: String,
}

/// A close frame whose code is not an api error code.
pub struct CloseInfo {
    pub code: u16,
    pub reason: String,
}

/// Websocket protocol error.
pub enum ProtocolError {
    /// Payload failed to decode; holds the payload text.
    Deser(JsonError, String),
    /// Payload failed to encode.
    Ser(JsonError),
    /// The server offered no supported encryption mode; holds the first mode
    /// it offered.
    UnsupportedEncryptionMode(EncryptionMode),
    /// The server sent a payload without a valid opcode.
    MissingOpcode,
}

/// Connection error.
pub enum Error {
    /// The server closed the connection with an api error code.
    Api(ApiError),
    /// The server closed the connection otherwise.
    Closed(Option<CloseInfo>),
    /// A payload could not be read or written.
    Protocol(ProtocolError),
    /// The connection was reset without a closing handshake.
    Reset(TungsteniteError),
    /// Another websocket error.
    Ws(TungsteniteError),
    /// IO error.
    Io(std::io::Error),
    /// IP discovery failed.
    IpDiscovery(IpDiscoveryError),
}

/// The error is a forced disconnect.
pub open spec fn is_disconnected(e: &Error) -> bool {
    e matches Error::Api(a) && a.code == Code::Disconnected
}

/// The error can be recovered from by resuming the session.
pub open spec fn is_resumable(e: &Error) -> bool {
    ||| e matches Error::Api(a) && a.code == Code::VoiceServerCrashed
    ||| e is Reset
}

impl Error {
    /// Checks if the error was a result of being disconnected gracefully.
    pub fn disconnected(&self) -> (r: bool)
        ensures
            r == is_disconnected(self),
    {
        match self {
            Error::Api(err) => match err.code {
                Code::Disconnected => true,
                _ => false,
            },
            _ => false,
        }
    }

    /// Checks if we can safely resume after an error.
    pub fn can_resume(&self) -> (r: bool)
        ensures
            r == is_resumable(self),
    {
        match self {
            Error::Api(err) => match err.code {
                Code::VoiceServerCrashed => true,
                _ => false,
            },
            Error::Reset(_) => true,
            _ => false,
        }
    }

    /// The error a close frame stands for: an api error when its code is
    /// one, else `Closed` with the frame.
    pub fn from_close(frame: Option<CloseInfo>) -> (r: Error)
        ensures
            frame matches Some(f) ==> (is_api_code(f.code) ==> (r matches Error::Api(a)
                && code_value(a.code) == f.code && a.message == f.reason)),
            frame matches Some(f) ==> (!is_api_code(f.code) ==> r == Error::Closed(frame)),
            frame is None ==> r == Error::Closed(None),
    {
        match frame {
            Some(f) => match Code::from_code(f.code) {
                Some(code) => Error::Api(ApiError { code, message: f.reason }),
                None => Error::Closed(Some(f)),
            },
            None => Error::Closed(None),
        }
    }
}

/// A forced disconnect is never taken for a resumable error.
pub proof fn lemma_disconnect_not_resumable(e: &Error)
    ensures
        is_disconnected(e) ==> !is_resumable(e),
{
}

/// Session information of a websocket.
pub struct Session {
    /// The endpoint of the session.
    pub endpoint: String,
    /// Id of the server of the voice channel.
    pub guild_id: u64,
    /// Id of the current user.
    pub user_id: u64,
    /// The id of the session.
    pub session_id: String,
    /// The token of the session.
    pub token: String,
}

impl Session {
    /// The `IDENTIFY` payload for the session.
    pub fn identify(&self) -> (r: Identify)
        ensures
            r.guild_id == self.guild_id,
            r.user_id == self.user_id,
            r.session_id == self.session_id,
            r.token == self.token,
    {
        Identify {
            guild_id: self.guild_id,
            user_id: self.user_id,
            session_id: self.session_id.clone(),
            token: self.token.clone(),
        }
    }

    /// The `RESUME` payload for the session.
    pub fn resume(&self) -> (r: Resume)
        ensures
            r.guild_id == self.guild_id,
            r.session_id == self.session_id,
            r.token == self.token,
    {
        Resume {
            guild_id: self.guild_id,
            session_id: self.session_id.clone(),
            token: self.token.clone(),
        }
    }

    /// The session moved to another server: the endpoint and token are
    /// replaced, the session id is kept.
    pub fn moved(&self, endpoint: String, token: String) -> (r: Session)
        ensures
            r.endpoint == endpoint,
            r.token == token,
            r.guild_id == self.guild_id,
            r.user_id == self.user_id,
            r.session_id == self.session_id,
    {
        Session {
            endpoint,
            guild_id: self.guild_id,
            user_id: self.user_id,
            session_id: self.session_id.clone(),
            token,
        }
    }
}

/// What a heartbeater holds: the interval and the next deadline in
/// milliseconds, and the nonce of the last heartbeat.
pub ghost struct HeartbeaterView {
    pub interval: u64,
    pub nonce: u64,
    pub next: u64,
}

/// Manages heartbeat state.
pub struct Heartbeater {
    interval: u64,
    nonce: u64,
    next: u64,
}

impl View for Heartbeater {
    type V = HeartbeaterView;

    closed spec fn view(&self) -> HeartbeaterView {
        HeartbeaterView { interval: self.interval, nonce: self.nonce, next: self.next }
    }
}

/// `a + b`, or the largest `u64` when that does not fit.
pub open spec fn saturating_add(a: u64, b: u64) -> u64 {
    if a + b > u64::MAX {
        u64::MAX
    } else {
        (a + b) as u64
    }
}

impl Heartbeater {
    /// Creates a heartbeater that beats every `interval` milliseconds,
    /// starting at `now`.
    pub fn new(interval: u64, now: u64) -> (r: Heartbeater)
        ensures
            r@ == (HeartbeaterView { interval, nonce: 0, next: saturating_add(now, interval) }),
    {
        Heartbeater { interval, nonce: 0, next: now.saturating_add(interval) }
    }

    /// When the next heartbeat is due.
    pub fn next_deadline(&self) -> (r: u64)
        ensures
            r == self@.next,
    {
        self.next
    }

    /// The heartbeat to send once the deadline passed, at `now`: the nonce
    /// moves on by one first, and the next deadline is one interval later.
    pub fn next(&mut self, now: u64) -> (r: Heartbeat)
        ensures
            final(self)@.nonce == (old(self)@.nonce + 1) % 0x1_0000_0000_0000_0000,
            r == Heartbeat(final(self)@.nonce),
            final(self)@.next == saturating_add(now, old(self)@.interval),
            final(self)@.interval == old(self)@.interval,
    {
        self.nonce = self.nonce.wrapping_add(1);
        self.next = now.saturating_add(self.interval);
        Heartbeat(self.nonce)
    }

    /// The current nonce of the heartbeater.
    pub fn nonce(&self) -> (r: u64)
        ensures
            r == self@.nonce,
    {
        self.nonce
    }

    /// The acknowledgement answers the last heartbeat sent.
    pub fn acknowledges(&self, ack: HeartbeatAck) -> (r: bool)
        ensures
            r == (ack.0 == self@.nonce),
    {
        ack.0 == self.nonce
    }
}

/// Voice event surfaced to the player.
pub enum Event {
    Speaking(Speaking),
    ClientConnect(ClientConnect),
    ClientDisconnect(ClientDisconnect),
}

/// What to do with one item the websocket produced.
pub enum Received {
    /// Surface the event.
    Event(Event),
    /// A heartbeat acknowledgement; `current` tells whether it answers the
    /// last heartbeat sent.
    Ack { current: bool },
    /// Log the event and go on.
    Ignored(GatewayEvent),
    /// Log the protocol error and go on.
    ProtocolIgnored(ProtocolError),
    /// Resume the session, then go on.
    Resume(Error),
    /// Surface the error.
    Failed(Error),
}

/// Decides what the connection does with one item it received.
pub fn on_receive(heartbeater: &Heartbeater, item: Result<GatewayEvent, Error>) -> (r: Received)
    ensures
        item matches Ok(GatewayEvent::HeartbeatAck(a)) ==> r == (Received::Ack {
            current: a.0 == heartbeater@.nonce,
        }),
        item matches Ok(GatewayEvent::Speaking(s)) ==> r == Received::Event(Event::Speaking(s)),
        item matches Ok(GatewayEvent::ClientConnect(c)) ==> r == Received::Event(
            Event::ClientConnect(c),
        ),
        item matches Ok(GatewayEvent::ClientDisconnect(c)) ==> r == Received::Event(
            Event::ClientDisconnect(c),
        ),
        item matches Ok(e) ==> (!(e is HeartbeatAck || e is Speaking || e is ClientConnect
            || e is ClientDisconnect) ==> r == Received::Ignored(e)),
        item matches Err(Error::Protocol(p)) ==> r == Received::ProtocolIgnored(p),
        item matches Err(e) ==> (!(e is Protocol) && is_resumable(&e) ==> r == Received::Resume(e)),
        item matches Err(e) ==> (!(e is Protocol) && !is_resumable(&e) ==> r == Received::Failed(
            e,
        )),
{
    match item {
        Ok(GatewayEvent::HeartbeatAck(ack)) => Received::Ack { current: heartbeater.acknowledges(ack) },
        Ok(GatewayEvent::Speaking(ev)) => Received::Event(Event::Speaking(ev)),
        Ok(GatewayEvent::ClientConnect(ev)) => Received::Event(Event::ClientConnect(ev)),
        Ok(GatewayEvent::ClientDisconnect(ev)) => Received::Event(Event::ClientDisconnect(ev)),
        Ok(ev) => Received::Ignored(ev),
        Err(Error::Protocol(err)) => Received::ProtocolIgnored(err),
        Err(err) => {
            if err.can_resume() {
                Received::Resume(err)
            } else {
                Received::Failed(err)
            }
        },
    }
}

/// The `Hello` and `Ready` events a handshake waits for.
pub struct HelloReady {
    pub hello: Option<Hello>,
    pub ready: Option<Ready>,
}

/// What a handshake step made of an event.
pub enum Progress {
    /// Both `Hello` and `Ready` have arrived.
    Complete,
    /// Still waiting.
    Waiting,
    /// An event the handshake does not expect; to be logged and dropped.
    Unexpected(GatewayEvent),
}

impl HelloReady {
    /// Nothing received yet.
    pub fn new() -> (r: HelloReady)
        ensures
            r.hello is None && r.ready is None,
    {
        HelloReady { hello: None, ready: None }
    }

    /// Records a `Hello` or a `Ready`; any other event is handed back.
    pub fn on_event(&mut self, ev: GatewayEvent) -> (r: Progress)
        ensures
            ev matches GatewayEvent::Hello(h) ==> final(self).hello == Some(h) && final(self).ready
                == old(self).ready,
            ev matches GatewayEvent::Ready(x) ==> final(self).ready == Some(x) && final(self).hello
                == old(self).hello,
            !(ev is Hello || ev is Ready) ==> *final(self) == *old(self) && r == Progress::Unexpected(
                ev,
            ),
            (ev is Hello || ev is Ready) ==> (r is Complete <==> (final(self).hello is Some
                && final(self).ready is Some)) && (r is Waiting <==> !(final(self).hello is Some
                && final(self).ready is Some)),
    {
        match ev {
            GatewayEvent::Hello(h) => {
                self.hello = Some(h);
            },
            GatewayEvent::Ready(x) => {
                self.ready = Some(x);
            },
            other => {
                return Progress::Unexpected(other);
            },
        }
        if self.hello.is_some() && self.ready.is_some() {
            Progress::Complete
        } else {
            Progress::Waiting
        }
    }
}

/// What the handshake does with an event while it waits for the session
/// description: keep the description, or hand the event back to be logged.
pub fn on_description_event(ev: GatewayEvent) -> (r: Result<SessionDescription, GatewayEvent>)
    ensures
        ev matches GatewayEvent::SessionDescription(d) ==> r == Ok::<
            SessionDescription,
            GatewayEvent,
        >(d),
        !(ev is SessionDescription) ==> r == Err::<SessionDescription, GatewayEvent>(ev),
{
    match ev {
        GatewayEvent::SessionDescription(d) => Ok(d),
        other => Err(other),
    }
}

/// The mode a list of offered modes holds, if any.
pub open spec fn offers(modes: Seq<EncryptionMode>, m: crypto::EncryptionMode) -> bool {
    exists|i: int| 0 <= i < modes.len() && supported_mode(#[trigger] modes[i]) == Some(m)
}

/// The preferred mode among those offered: `Lite`, else `Suffix`, else
/// `Normal`.
pub open spec fn preferred_mode(modes: Seq<EncryptionMode>) -> Option<crypto::EncryptionMode> {
    if offers(modes, crypto::EncryptionMode::Lite) {
        Some(crypto::EncryptionMode::Lite)
    } else if offers(modes, crypto::EncryptionMode::Suffix) {
        Some(crypto::EncryptionMode::Suffix)
    } else if offers(modes, crypto::EncryptionMode::Normal) {
        Some(crypto::EncryptionMode::Normal)
    } else {
        None
    }
}

/// Finds the first offered mode that stands for `m`.
fn find_mode(modes: &Vec<EncryptionMode>, m: crypto::EncryptionMode) -> (r: Option<usize>)
    ensures
        r matches Some(i) ==> i < modes@.len() && supported_mode(modes@[i as int]) == Some(m),
        r is None ==> !offers(modes@, m),
{
    let mut i: usize = 0;
    while i < modes.len()
        invariant
            i <= modes@.len(),
            forall|k: int| 0 <= k < i ==> supported_mode(#[trigger] modes@[k]) != Some(m),
        decreases modes@.len() - i,
    {
        if modes[i].supported() == Some(m) {
            return Some(i);
        }
        i += 1;
    }
    None
}

/// Chooses the encryption mode among those offered: prefer `Lite`, else
/// `Suffix`, else `Normal`. Returns the mode as named on the wire and as the
/// encryptor takes it.
pub fn select_mode(modes: &Vec<EncryptionMode>) -> (r: Result<
    (EncryptionMode, crypto::EncryptionMode),
    ProtocolError,
>)
    ensures
        r is Err <==> preferred_mode(modes@) is None,
        r matches Ok((m, c)) ==> preferred_mode(modes@) == Some(c) && supported_mode(m) == Some(c),
        r matches Err(e) ==> e is UnsupportedEncryptionMode,
{
    let mut chosen = find_mode(modes, crypto::EncryptionMode::Lite);
    let mut c = crypto::EncryptionMode::Lite;
    if chosen.is_none() {
        chosen = find_mode(modes, crypto::EncryptionMode::Suffix);
        c = crypto::EncryptionMode::Suffix;
    }
    if chosen.is_none() {
        chosen = find_mode(modes, crypto::EncryptionMode::Normal);
        c = crypto::EncryptionMode::Normal;
    }
    match chosen {
        Some(i) => {
            proof {
                assert(supported_mode(modes@[i as int]) == Some(c));
            }
            Ok((modes[i].duplicate(), c))
        },
        None => {
            let offered = if modes.len() > 0 {
                modes[0].duplicate()
            } else {
                EncryptionMode::Other(String::new())
            };
            Err(ProtocolError::UnsupportedEncryptionMode(offered))
        },
    }
}

/// The `SELECT_PROTOCOL` payload: UDP, at the address and port that IP
/// discovery found, with the chosen mode.
pub fn select_protocol(address: String, port: u16, mode: EncryptionMode) -> (r: SelectProtocol)
    ensures
        r.protocol@ == "udp"@,
        r.data.address == address,
        r.data.port == port,
        r.data.mode == mode,
{
    SelectProtocol {
        protocol: "udp".to_string(),
        data: SelectProtocolData { address, port, mode },
    }
}

/// A resume is complete once the server sends `Resumed`; other events are
/// logged and dropped meanwhile.
pub fn resume_complete(ev: &GatewayEvent) -> (r: bool)
    ensures
        r == ev is Resumed,
{
    match ev {
        GatewayEvent::Resumed => true,
        _ => false,
    }
}

/// Where a handshake stands.
#[derive(Clone, Copy, Debug, PartialEq, Eq, Structural)]
pub enum HandshakeState {
    /// `Identify` is sent; waiting for `Hello` and `Ready`.
    AwaitingHelloReady,
    /// The UDP socket is to be set up and IP discovery run.
    Discovering,
    /// `SelectProtocol` is sent; waiting for the session description.
    AwaitingDescription,
    /// The session description arrived.
    Done,
}

/// What the caller is to do next in a handshake.
pub enum HandshakeStep {
    /// Send this event on the websocket.
    Send(GatewayEvent),
    /// Bind a UDP socket to `0.0.0.0:port`, connect it to `(ip, port)`, run
    /// IP discovery for `ssrc`, and hand the result to `on_discovered`.
    Discover { ip: String, port: u16, ssrc: u32 },
    /// Keep receiving.
    Wait,
    /// An event the handshake does not expect: log it and keep receiving.
    Unexpected(GatewayEvent),
    /// The handshake cannot go on.
    Fail(ProtocolError),
    /// The handshake is complete: the RTP socket is made of these.
    Complete {
        ssrc: u32,
        mode: crypto::EncryptionMode,
        secret_key: [u8; 32],
        heartbeat_interval: u64,
    },
}

/// The handshake with a voice server: `Identify`, then `Hello` and `Ready`,
/// IP discovery, `SelectProtocol`, then the session description.
pub struct Handshake {
    state: HandshakeState,
    wait: HelloReady,
    mode: Option<crypto::EncryptionMode>,
    sent: Ghost<Seq<OpCode>>,
}

/// What a handshake holds: where it stands, the opcodes it sent, the
/// `Hello` and `Ready` it received, and the mode it chose.
pub ghost struct HandshakeView {
    pub state: HandshakeState,
    pub sent: Seq<OpCode>,
    pub mode: Option<crypto::EncryptionMode>,
    pub hello: Option<Hello>,
    pub ready: Option<Ready>,
}

impl View for Handshake {
    type V = HandshakeView;

    closed spec fn view(&self) -> HandshakeView {
        HandshakeView {
            state: self.state,
            sent: self.sent@,
            mode: self.mode,
            hello: self.wait.hello,
            ready: self.wait.ready,
        }
    }
}

impl HandshakeView {
    /// The handshake's own invariant: what was sent matches where it
    /// stands.
    pub open spec fn wf(self) -> bool {
        &&& (self.state == HandshakeState::AwaitingHelloReady || self.state
            == HandshakeState::Discovering) ==> self.sent == seq![OpCode::Identify]
        &&& (self.state == HandshakeState::AwaitingDescription || self.state
            == HandshakeState::Done) ==> self.sent == seq![OpCode::Identify, OpCode::SelectProtocol]
            && self.mode is Some && self.mode == preferred_mode(self.ready->Some_0.modes@)
        &&& self.state != HandshakeState::AwaitingHelloReady ==> self.hello is Some
            && self.ready is Some
    }
}

/// The opcode a step sends, if it sends one.
pub open spec fn step_sends(step: &HandshakeStep) -> Seq<OpCode> {
    match step {
        HandshakeStep::Send(e) => seq![event_op(e)],
        _ => Seq::empty(),
    }
}

impl Handshake {
    /// Starts a handshake for the session; the `Identify` returned goes out
    /// first.
    pub fn start(session: &Session) -> (r: (Handshake, GatewayEvent))
        ensures
            r.0@.wf(),
            r.0@.state == HandshakeState::AwaitingHelloReady,
            r.0@.sent == seq![OpCode::Identify],
            r.0@.hello is None && r.0@.ready is None && r.0@.mode is None,
            r.1 matches GatewayEvent::Identify(i) && i.guild_id == session.guild_id && i.user_id
                == session.user_id && i.session_id == session.session_id && i.token == session.token,
    {
        assert(Seq::<OpCode>::empty().push(OpCode::Identify) =~= seq![OpCode::Identify]);
        let hs = Handshake {
            state: HandshakeState::AwaitingHelloReady,
            wait: HelloReady::new(),
            mode: None,
            sent: Ghost(Seq::empty().push(OpCode::Identify)),
        };
        (hs, GatewayEvent::Identify(session.identify()))
    }

    /// Where the handshake stands.
    pub fn state(&self) -> (r: HandshakeState)
        ensures
            r == self@.state,
    {
        self.state
    }

    /// Handles an event received from the websocket.
    ///
    /// While waiting for `Hello` and `Ready`, each is kept, in whatever
    /// order they come; once both are there, IP discovery comes next, at
    /// `Ready`'s address and for its SSRC. While waiting for the session
    /// description, it completes the handshake. Anything else is
    /// unexpected and changes nothing.
    pub fn on_event(&mut self, ev: GatewayEvent) -> (r: HandshakeStep)
        requires
            old(self)@.wf(),
        ensures
            final(self)@.wf(),
            final(self)@.sent == old(self)@.sent + step_sends(&r),
            !(r is Send),
            old(self)@.state == HandshakeState::AwaitingHelloReady ==> {
                &&& (ev matches GatewayEvent::Hello(h) ==> final(self)@.hello == Some(h)
                    && final(self)@.ready == old(self)@.ready)
                &&& (ev matches GatewayEvent::Ready(x) ==> final(self)@.ready == Some(x)
                    && final(self)@.hello == old(self)@.hello)
                &&& (!(ev is Hello || ev is Ready) ==> final(self)@ == old(self)@ && r
                    == HandshakeStep::Unexpected(ev))
                &&& ((ev is Hello || ev is Ready) && final(self)@.hello is Some
                    && final(self)@.ready is Some ==> final(self)@.state
                    == HandshakeState::Discovering && final(self)@.mode == old(self)@.mode && r
                    == (HandshakeStep::Discover {
                    ip: final(self)@.ready->Some_0.ip,
                    port: final(self)@.ready->Some_0.port,
                    ssrc: final(self)@.ready->Some_0.ssrc,
                }))
                &&& ((ev is Hello || ev is Ready) && !(final(self)@.hello is Some
                    && final(self)@.ready is Some) ==> final(self)@.state
                    == HandshakeState::AwaitingHelloReady && r is Wait)
            },
            old(self)@.state == HandshakeState::AwaitingDescription ==> {
                &&& (ev matches GatewayEvent::SessionDescription(d) ==> r == (HandshakeStep::Complete {
                    ssrc: old(self)@.ready->Some_0.ssrc,
                    mode: old(self)@.mode->Some_0,
                    secret_key: d.secret_key,
                    heartbeat_interval: old(self)@.hello->Some_0.heartbeat_interval,
                }) && final(self)@ == (HandshakeView {
                    state: HandshakeState::Done,
                    ..old(self)@
                }))
                &&& (!(ev is SessionDescription) ==> final(self)@ == old(self)@ && r
                    == HandshakeStep::Unexpected(ev))
            },
            (old(self)@.state == HandshakeState::Discovering || old(self)@.state
                == HandshakeState::Done) ==> final(self)@ == old(self)@ && r
                == HandshakeStep::Unexpected(ev),
    {
        match self.state {
            HandshakeState::AwaitingHelloReady => match self.wait.on_event(ev) {
                Progress::Complete => {
                    self.state = HandshakeState::Discovering;
                    match &self.wait.ready {
                        Some(ready) => HandshakeStep::Discover {
                            ip: ready.ip.clone(),
                            port: ready.port,
                            ssrc: ready.ssrc,
                        },
                        None => HandshakeStep::Wait,
                    }
                },
                Progress::Waiting => HandshakeStep::Wait,
                Progress::Unexpected(ev) => HandshakeStep::Unexpected(ev),
            },
            HandshakeState::AwaitingDescription => match on_description_event(ev) {
                Ok(desc) => {
                    self.state = HandshakeState::Done;
                    match (&self.wait.ready, &self.wait.hello, self.mode) {
                        (Some(ready), Some(hello), Some(mode)) => HandshakeStep::Complete {
                            ssrc: ready.ssrc,
                            mode,
                            secret_key: desc.secret_key,
                            heartbeat_interval: hello.heartbeat_interval,
                        },
                        _ => HandshakeStep::Wait,
                    }
                },
                Err(ev) => HandshakeStep::Unexpected(ev),
            },
            _ => HandshakeStep::Unexpected(ev),
        }
    }

    /// IP discovery found the address and port the server sees: chooses
    /// the preferred encryption mode among those `Ready` offered (`Lite`,
    /// else `Suffix`, else `Normal`) and returns the `SelectProtocol` to
    /// send, or fails, changing nothing, when none is supported.
    pub fn on_discovered(&mut self, address: String, port: u16) -> (r: HandshakeStep)
        requires
            old(self)@.wf(),
            old(self)@.state == HandshakeState::Discovering,
        ensures
            final(self)@.wf(),
            final(self)@.sent == old(self)@.sent + step_sends(&r),
            final(self)@.hello == old(self)@.hello,
            final(self)@.ready == old(self)@.ready,
            r is Send || r is Fail,
            r is Fail <==> preferred_mode(old(self)@.ready->Some_0.modes@) is None,
            r is Fail ==> final(self)@ == old(self)@ && r matches HandshakeStep::Fail(
                ProtocolError::UnsupportedEncryptionMode(_),
            ),
            r is Send ==> final(self)@.state == HandshakeState::AwaitingDescription
                && final(self)@.mode == preferred_mode(old(self)@.ready->Some_0.modes@),
            r is Send ==> (r matches HandshakeStep::Send(GatewayEvent::SelectProtocol(p))
                && p.data.address == address && p.data.port == port && p.protocol@ == "udp"@
                && supported_mode(p.data.mode) == final(self)@.mode),
    {
        let chosen = match &self.wait.ready {
            Some(ready) => select_mode(&ready.modes),
            None => Err(ProtocolError::MissingOpcode),
        };
        match chosen {
            Ok((mode, c)) => {
                self.mode = Some(c);
                self.state = HandshakeState::AwaitingDescription;
                self.sent = Ghost(self.sent@.push(OpCode::SelectProtocol));
                proof {
                    assert(seq![OpCode::Identify].push(OpCode::SelectProtocol) =~= seq![
                        OpCode::Identify,
                        OpCode::SelectProtocol,
                    ]);
                }
                let step = HandshakeStep::Send(GatewayEvent::SelectProtocol(select_protocol(address, port, mode)));
                assert(self.sent@ =~= old(self)@.sent + step_sends(&step));
                step
            },
            Err(e) => {
                assert(old(self)@.sent =~= old(self)@.sent + step_sends(&HandshakeStep::Fail(e)));
                HandshakeStep::Fail(e)
            },
        }
    }
}

/// A handshake that completes has sent exactly `Identify`, then
/// `SelectProtocol`.
pub proof fn lemma_handshake_outbound(h: HandshakeView)
    requires
        h.wf(),
        h.state == HandshakeState::Done,
    ensures
        h.sent == seq![OpCode::Identify, OpCode::SelectProtocol],
{
}

} // verus!
