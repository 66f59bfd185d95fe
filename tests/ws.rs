use swc::voice::crypto;
use swc::voice::payload::{
    EncryptionMode, GatewayEvent, HeartbeatAck, Hello, Ready, SessionDescription, Speaking,
};
use swc::voice::ws::{
    on_description_event, on_receive, resume_complete, select_mode, select_protocol, ApiError,
    CloseInfo, Code, Error, Event, Heartbeater, HelloReady, Progress, ProtocolError, Received,
    Session,
};

fn session() -> Session {
    Session {
        endpoint: String::from("v.example"),
        guild_id: 1,
        user_id: 42,
        session_id: String::from("S"),
        token: String::from("T"),
    }
}

#[test]
fn close_codes_map_to_api_codes() {
    assert_eq!(Code::from_code(4014), Some(Code::Disconnected));
    assert_eq!(Code::from_code(4015), Some(Code::VoiceServerCrashed));
    assert_eq!(Code::from_code(4001), Some(Code::UnknownOpcode));
    assert_eq!(Code::from_code(4016), Some(Code::UnknownEncryption));
    assert_eq!(Code::from_code(4007), None);
    assert_eq!(Code::from_code(1000), None);
    assert_eq!(Code::SessionTimeout.code(), 4009);
    for c in 4000u16..4020 {
        if let Some(code) = Code::from_code(c) {
            assert_eq!(code.code(), c);
        }
    }
}

#[test]
fn forced_disconnect_and_resumable_errors() {
    let e = Error::from_close(Some(CloseInfo { code: 4014, reason: String::from("bye") }));
    assert!(e.disconnected());
    assert!(!e.can_resume());
    let e = Error::from_close(Some(CloseInfo { code: 4015, reason: String::from("crash") }));
    assert!(e.can_resume());
    assert!(!e.disconnected());
    match e {
        Error::Api(ApiError { code, message }) => {
            assert_eq!(code, Code::VoiceServerCrashed);
            assert_eq!(message, "crash");
        }
        _ => panic!("expected an api error"),
    }
    let e = Error::Reset(tungstenite::Error::ConnectionClosed);
    assert!(e.can_resume());
    let e = Error::Ws(tungstenite::Error::ConnectionClosed);
    assert!(!e.can_resume());
    let e = Error::from_close(Some(CloseInfo { code: 1000, reason: String::new() }));
    assert!(matches!(e, Error::Closed(Some(CloseInfo { code: 1000, .. }))));
    assert!(matches!(Error::from_close(None), Error::Closed(None)));
    let e = Error::from_close(Some(CloseInfo { code: 4004, reason: String::new() }));
    assert!(!e.can_resume() && !e.disconnected());
}

#[test]
fn heartbeat_nonce_increments_before_send() {
    let mut hb = Heartbeater::new(15000, 100);
    assert_eq!(hb.next_deadline(), 15100);
    assert_eq!(hb.nonce(), 0);
    let beat = hb.next(15100);
    assert_eq!(beat.0, 1);
    assert_eq!(hb.nonce(), 1);
    assert_eq!(hb.next_deadline(), 30100);
    assert!(hb.acknowledges(HeartbeatAck(1)));
    assert!(!hb.acknowledges(HeartbeatAck(0)));
    let far = Heartbeater::new(10, u64::MAX - 5);
    assert_eq!(far.next_deadline(), u64::MAX);
}

#[test]
fn received_items_are_sorted() {
    let hb = Heartbeater::new(1000, 0);
    assert!(matches!(
        on_receive(&hb, Ok(GatewayEvent::HeartbeatAck(HeartbeatAck(0)))),
        Received::Ack { current: true }
    ));
    assert!(matches!(
        on_receive(&hb, Ok(GatewayEvent::HeartbeatAck(HeartbeatAck(3)))),
        Received::Ack { current: false }
    ));
    let speaking = Speaking { speaking: 1, delay: None, ssrc: 5 };
    assert!(matches!(
        on_receive(&hb, Ok(GatewayEvent::Speaking(speaking))),
        Received::Event(Event::Speaking(_))
    ));
    assert!(matches!(on_receive(&hb, Ok(GatewayEvent::Resumed)), Received::Ignored(_)));
    assert!(matches!(
        on_receive(&hb, Err(Error::Protocol(ProtocolError::MissingOpcode))),
        Received::ProtocolIgnored(ProtocolError::MissingOpcode)
    ));
    let crash = Error::from_close(Some(CloseInfo { code: 4015, reason: String::new() }));
    assert!(matches!(on_receive(&hb, Err(crash)), Received::Resume(_)));
    let gone = Error::from_close(Some(CloseInfo { code: 4014, reason: String::new() }));
    assert!(matches!(on_receive(&hb, Err(gone)), Received::Failed(_)));
}

fn ready(modes: Vec<EncryptionMode>) -> Ready {
    Ready { ssrc: 0xDEADBEEF, ip: String::from("127.0.0.1"), port: 50000, modes }
}

#[test]
fn handshake_waits_for_hello_and_ready() {
    let mut wait = HelloReady::new();
    assert!(matches!(wait.on_event(GatewayEvent::Resumed), Progress::Unexpected(_)));
    assert!(matches!(
        wait.on_event(GatewayEvent::Hello(Hello { heartbeat_interval: 15000 })),
        Progress::Waiting
    ));
    assert!(matches!(
        wait.on_event(GatewayEvent::Ready(ready(vec![EncryptionMode::Lite]))),
        Progress::Complete
    ));
    assert_eq!(wait.hello.unwrap().heartbeat_interval, 15000);
    assert_eq!(wait.ready.unwrap().ssrc, 0xDEADBEEF);
}

#[test]
fn handshake_takes_session_description() {
    let desc = SessionDescription { mode: EncryptionMode::Lite, secret_key: [0; 32] };
    assert!(on_description_event(GatewayEvent::SessionDescription(desc)).is_ok());
    assert!(on_description_event(GatewayEvent::Resumed).is_err());
    assert!(resume_complete(&GatewayEvent::Resumed));
    assert!(!resume_complete(&GatewayEvent::Hello(Hello { heartbeat_interval: 1 })));
}

#[test]
fn mode_preference_is_lite_then_suffix_then_normal() {
    let modes = vec![
        EncryptionMode::Normal,
        EncryptionMode::Suffix,
        EncryptionMode::Lite,
        EncryptionMode::Other(String::from("aead_aes256_gcm")),
    ];
    let (m, c) = select_mode(&modes).ok().unwrap();
    assert!(matches!(m, EncryptionMode::Lite));
    assert_eq!(c, crypto::EncryptionMode::Lite);
    let (m, c) = select_mode(&vec![EncryptionMode::Normal, EncryptionMode::Suffix]).ok().unwrap();
    assert!(matches!(m, EncryptionMode::Suffix));
    assert_eq!(c, crypto::EncryptionMode::Suffix);
    let (_, c) = select_mode(&vec![EncryptionMode::Normal]).ok().unwrap();
    assert_eq!(c, crypto::EncryptionMode::Normal);
}

#[test]
fn no_supported_mode_is_an_error() {
    let offered = vec![EncryptionMode::Other(String::from("aead_aes256_gcm"))];
    match select_mode(&offered) {
        Err(ProtocolError::UnsupportedEncryptionMode(EncryptionMode::Other(s))) => {
            assert_eq!(s, "aead_aes256_gcm")
        }
        _ => panic!("expected an unsupported mode"),
    }
    assert!(select_mode(&Vec::new()).is_err());
}

#[test]
fn session_payloads() {
    let s = session();
    let id = s.identify();
    assert_eq!((id.guild_id, id.user_id), (1, 42));
    assert_eq!((id.session_id.as_str(), id.token.as_str()), ("S", "T"));
    let r = s.resume();
    assert_eq!((r.guild_id, r.session_id.as_str(), r.token.as_str()), (1, "S", "T"));
    let moved = s.moved(String::from("w.example"), String::from("U"));
    assert_eq!(moved.endpoint, "w.example");
    assert_eq!(moved.token, "U");
    assert_eq!(moved.session_id, "S");
    let sp = select_protocol(String::from("1.2.3.4"), 5, EncryptionMode::Lite);
    assert_eq!(sp.protocol, "udp");
    assert_eq!(sp.data.address, "1.2.3.4");
    assert_eq!(sp.data.port, 5);
}

use swc::voice::payload::OpCode;
use swc::voice::ws::{Handshake, HandshakeState, HandshakeStep};

#[test]
fn handshake_sends_identify_then_select_protocol() {
    let (mut hs, identify) = Handshake::start(&session());
    let mut outbound = vec![identify.op()];
    assert!(matches!(hs.on_event(GatewayEvent::Hello(Hello { heartbeat_interval: 15000 })), HandshakeStep::Wait));
    assert!(matches!(hs.on_event(GatewayEvent::Resumed), HandshakeStep::Unexpected(_)));
    match hs.on_event(GatewayEvent::Ready(ready(vec![EncryptionMode::Lite]))) {
        HandshakeStep::Discover { ip, port, ssrc } => {
            assert_eq!((ip.as_str(), port, ssrc), ("127.0.0.1", 50000, 0xDEADBEEF));
        }
        _ => panic!("expected IP discovery"),
    }
    assert_eq!(hs.state(), HandshakeState::Discovering);
    match hs.on_discovered(String::from("203.0.113.5"), 4242) {
        HandshakeStep::Send(GatewayEvent::SelectProtocol(p)) => {
            assert_eq!(p.protocol, "udp");
            assert_eq!(p.data.address, "203.0.113.5");
            assert_eq!(p.data.port, 4242);
            assert_eq!(p.data.mode.as_str(), "xsalsa20_poly1305_lite");
            outbound.push(OpCode::SelectProtocol);
        }
        _ => panic!("expected select protocol"),
    }
    let desc = SessionDescription { mode: EncryptionMode::Lite, secret_key: [3; 32] };
    match hs.on_event(GatewayEvent::SessionDescription(desc)) {
        HandshakeStep::Complete { ssrc, mode, secret_key, heartbeat_interval } => {
            assert_eq!(ssrc, 0xDEADBEEF);
            assert_eq!(mode, crypto::EncryptionMode::Lite);
            assert_eq!(secret_key, [3; 32]);
            assert_eq!(heartbeat_interval, 15000);
        }
        _ => panic!("expected completion"),
    }
    assert_eq!(outbound, vec![OpCode::Identify, OpCode::SelectProtocol]);
    assert_eq!(hs.state(), HandshakeState::Done);
}

#[test]
fn handshake_fails_without_supported_mode() {
    let (mut hs, _) = Handshake::start(&session());
    hs.on_event(GatewayEvent::Ready(ready(vec![EncryptionMode::Other(String::from("x"))])));
    hs.on_event(GatewayEvent::Hello(Hello { heartbeat_interval: 1 }));
    assert!(matches!(
        hs.on_discovered(String::from("1.1.1.1"), 1),
        HandshakeStep::Fail(ProtocolError::UnsupportedEncryptionMode(_))
    ));
    assert_eq!(hs.state(), HandshakeState::Discovering);
}

#[test]
fn handshake_takes_hello_and_ready_in_any_order() {
    let (mut hs, _) = Handshake::start(&session());
    assert!(matches!(hs.on_event(GatewayEvent::Ready(ready(vec![EncryptionMode::Normal, EncryptionMode::Suffix]))), HandshakeStep::Wait));
    assert!(matches!(hs.on_event(GatewayEvent::HeartbeatAck(HeartbeatAck(1))), HandshakeStep::Unexpected(_)));
    match hs.on_event(GatewayEvent::Hello(Hello { heartbeat_interval: 100 })) {
        HandshakeStep::Discover { ssrc, .. } => assert_eq!(ssrc, 0xDEADBEEF),
        _ => panic!("expected IP discovery"),
    }
    match hs.on_discovered(String::from("10.0.0.1"), 9) {
        HandshakeStep::Send(GatewayEvent::SelectProtocol(p)) => assert_eq!(p.data.mode.as_str(), "xsalsa20_poly1305_suffix"),
        _ => panic!("expected select protocol"),
    }
    assert!(matches!(hs.on_event(GatewayEvent::Resumed), HandshakeStep::Unexpected(_)));
    let desc = SessionDescription { mode: EncryptionMode::Suffix, secret_key: [1; 32] };
    match hs.on_event(GatewayEvent::SessionDescription(desc)) {
        HandshakeStep::Complete { mode, heartbeat_interval, .. } => {
            assert_eq!(mode, crypto::EncryptionMode::Suffix);
            assert_eq!(heartbeat_interval, 100);
        }
        _ => panic!("expected completion"),
    }
}
