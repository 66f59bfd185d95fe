use swc::voice::rtp::{self, IpDiscoveryError};
use swc::voice::error::Error;
use swc::voice::player::{
    apply_command, check_reconnect, moved_session, on_gateway_event, on_status, on_ws_error,
    speaking_after_reconnect, status_event, Command, EventType, GatewayAction, GatewayEvent, Join,
    VoiceServerInfo, VoiceStateInfo, WsFailure,
};
use swc::voice::streamer::{PacketStreamer, Status};
use swc::voice::ws::{self, CloseInfo, Session};

fn state(user_id: u64, channel: Option<u64>) -> VoiceStateInfo {
    VoiceStateInfo { user_id, channel_id: channel, session_id: String::from("S") }
}

fn server(endpoint: Option<&str>) -> VoiceServerInfo {
    VoiceServerInfo { endpoint: endpoint.map(String::from), token: String::from("T") }
}

#[test]
fn join_needs_both_updates() {
    let mut join = Join::new(42, 1);
    assert!(!join.on_event(GatewayEvent::VoiceStateUpdate(state(7, Some(3)))));
    assert!(join.state.is_none());
    assert!(!join.on_event(GatewayEvent::VoiceServerUpdate(server(None))));
    assert!(matches!(join.session(), Err(Error::CannotJoin)));
    assert!(!join.on_event(GatewayEvent::VoiceServerUpdate(server(Some("v.example")))));
    assert!(join.on_event(GatewayEvent::VoiceStateUpdate(state(42, Some(7)))));
    let s = join.session().ok().unwrap();
    assert_eq!(s.endpoint, "v.example");
    assert_eq!(s.token, "T");
    assert_eq!(s.session_id, "S");
    assert_eq!((s.guild_id, s.user_id), (1, 42));
}

#[test]
fn websocket_failures() {
    let e = ws::Error::from_close(Some(CloseInfo { code: 4014, reason: String::new() }));
    assert_eq!(on_ws_error(&e), WsFailure::WaitForGateway);
    let e = ws::Error::from_close(Some(CloseInfo { code: 4015, reason: String::new() }));
    assert_eq!(on_ws_error(&e), WsFailure::Reconnect);
    let e = ws::Error::from_close(Some(CloseInfo { code: 4006, reason: String::new() }));
    assert_eq!(on_ws_error(&e), WsFailure::Fatal);
}

#[test]
fn gateway_events() {
    assert!(matches!(
        on_gateway_event(42, GatewayEvent::VoiceServerUpdate(server(Some("x")))),
        GatewayAction::Reconnect(_)
    ));
    assert!(matches!(
        on_gateway_event(42, GatewayEvent::VoiceStateUpdate(state(1, None))),
        GatewayAction::Ignore
    ));
    assert!(matches!(
        on_gateway_event(42, GatewayEvent::VoiceStateUpdate(state(42, None))),
        GatewayAction::Disconnected
    ));
    assert!(matches!(
        on_gateway_event(42, GatewayEvent::VoiceStateUpdate(state(42, Some(9)))),
        GatewayAction::UpdateState(_)
    ));
    assert!(check_reconnect(&state(42, Some(1))).is_ok());
    assert!(matches!(check_reconnect(&state(42, None)), Err(Error::Disconnected)));
}

#[test]
fn session_moves_keep_session_id() {
    let s = Session {
        endpoint: String::from("a"),
        guild_id: 1,
        user_id: 2,
        session_id: String::from("S"),
        token: String::from("old"),
    };
    let m = moved_session(&s, VoiceServerInfo { endpoint: Some(String::from("b")), token: String::from("new") })
        .ok()
        .unwrap();
    assert_eq!((m.endpoint.as_str(), m.token.as_str(), m.session_id.as_str()), ("b", "new", "S"));
    assert!(moved_session(&s, server(None)).is_err());
    assert_eq!(speaking_after_reconnect(true, 5).unwrap().speaking, 1);
    assert!(speaking_after_reconnect(false, 5).is_none());
}

#[test]
fn commands_drive_the_streamer() {
    let mut s = PacketStreamer::new(200, 0);
    let (close, install) = apply_command(&mut s, Command::Play(7u32));
    assert!(!close);
    assert_eq!(install, Some(7));
    assert!(s.has_source());
    let (close, install) = apply_command::<u32>(&mut s, Command::Pause);
    assert!(!close && install.is_none() && s.has_source());
    let (close, install) = apply_command::<u32>(&mut s, Command::Resume);
    assert!(!close && install.is_none());
    let (close, _) = apply_command(&mut s, Command::Play(8u32));
    assert!(close);
    let (close, install) = apply_command::<u32>(&mut s, Command::Stop);
    assert!(close && install.is_none() && !s.has_source());
}

#[test]
fn statuses_become_speaking_and_events() {
    let r = on_status(Status::Started(9), true);
    assert_eq!(r.speaking.speaking, 1);
    assert_eq!(r.speaking.ssrc, 9);
    assert_eq!(r.speaking.delay, Some(0));
    assert_eq!(r.playing, Some(true));
    assert!(r.publish);
    let r = on_status(Status::Stopped(9), true);
    assert_eq!(r.speaking.speaking, 0);
    assert_eq!(r.playing, None);
    assert!(!r.publish);
    let r = on_status(Status::Stopped(9), false);
    assert_eq!(r.playing, Some(false));
    assert!(r.publish);
    let e = status_event(3, Status::Started(1), false).unwrap();
    assert_eq!(e.guild_id, 3);
    assert!(matches!(e.kind, EventType::Playing));
    assert!(status_event(3, Status::Stopped(1), true).is_none());
    assert!(matches!(status_event(3, Status::Stopped(1), false).unwrap().kind, EventType::Stopped));
}

#[test]
fn ip_discovery_failure_is_an_rtp_error() {
    let err = Error::from_ws(ws::Error::IpDiscovery(IpDiscoveryError::InvalidSsrc(0xDEADBEEF, 0xCAFEBABE)));
    assert!(matches!(
        err,
        Error::Rtp(rtp::Error::IpDiscovery(IpDiscoveryError::InvalidSsrc(0xDEADBEEF, 0xCAFEBABE)))
    ));
    let err = Error::from_ws(ws::Error::from_close(None));
    assert!(matches!(err, Error::Ws(ws::Error::Closed(None))));
}
