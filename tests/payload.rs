use swc::voice::payload::{
    find_opcode, frame, EncryptionMode, GatewayEvent, GatewayEventDeserializer, OpCode,
};

#[test]
fn test_opcode_resume() {
    const PAYLOAD: &'static str = r#"{"op":9,"d":null}"#;

    let event = GatewayEventDeserializer::from_json(&PAYLOAD).unwrap();

    let event = event.event_without_data().unwrap();

    assert!(matches!(event, GatewayEvent::Resumed));
}

#[test]
fn opcode_scan_reads_number_after_key() {
    assert_eq!(find_opcode(br#"{"op":2,"d":{}}"#), Some(2));
    assert_eq!(find_opcode(br#"{"d":{"ssrc":1},"op":13}"#), Some(13));
    assert_eq!(find_opcode(br#"{"op": 8 ,"d":{}}"#), Some(8));
    assert_eq!(find_opcode(br#"{"op":+6}"#), Some(6));
    assert_eq!(find_opcode(br#"{"op":007,"d":1}"#), Some(7));
}

#[test]
fn opcode_scan_rejects_missing_or_bad_numbers() {
    assert_eq!(find_opcode(br#"{"d":{}}"#), None);
    assert_eq!(find_opcode(br#"{"op":256,"d":{}}"#), None);
    assert_eq!(find_opcode(br#"{"op":"x","d":{}}"#), None);
    assert_eq!(find_opcode(br#"{"op":,"d":{}}"#), None);
    assert_eq!(find_opcode(br#"{"op":4"#), None);
    assert_eq!(find_opcode(b""), None);
    assert!(GatewayEventDeserializer::from_json(r#"{"d":null}"#).is_none());
}

#[test]
fn frame_writes_opcode_then_data() {
    let framed = frame(OpCode::Heartbeat, b"5");
    assert_eq!(framed, br#"{"op":3,"d":5}"#.to_vec());
    let framed = frame(OpCode::ClientDisconnect, br#"{"user_id":"1"}"#);
    assert_eq!(framed, br#"{"op":13,"d":{"user_id":"1"}}"#.to_vec());
}

#[test]
fn framed_payloads_scan_back_to_their_opcode() {
    let ops = [
        OpCode::Identify,
        OpCode::SelectProtocol,
        OpCode::Ready,
        OpCode::Heartbeat,
        OpCode::SessionDescription,
        OpCode::Speaking,
        OpCode::HeartbeatAck,
        OpCode::Resume,
        OpCode::Hello,
        OpCode::Resumed,
        OpCode::ClientConnect,
        OpCode::ClientDisconnect,
    ];
    for op in ops {
        let framed = frame(op, br#"{"op":99,"x":[1,2]}"#);
        assert_eq!(find_opcode(&framed), Some(op.code()));
        assert_eq!(OpCode::from_code(op.code()), Some(op));
    }
}

#[test]
fn opcode_numbers() {
    assert_eq!(OpCode::Identify.code(), 0);
    assert_eq!(OpCode::Hello.code(), 8);
    assert_eq!(OpCode::ClientConnect.code(), 12);
    assert_eq!(OpCode::from_code(10), None);
    assert_eq!(OpCode::from_code(11), None);
    assert_eq!(OpCode::from_code(14), None);
}

#[test]
fn deserializer_knows_the_opcode() {
    let d = GatewayEventDeserializer::from_json(r#"{"op":6,"d":42}"#).unwrap();
    assert_eq!(d.op(), 6);
    assert_eq!(d.opcode(), Some(OpCode::HeartbeatAck));
    assert!(d.event_without_data().is_none());
    let d = GatewayEventDeserializer::new(11);
    assert_eq!(d.opcode(), None);
}

#[test]
fn encryption_mode_names() {
    assert_eq!(EncryptionMode::Normal.as_str(), "xsalsa20_poly1305");
    assert_eq!(EncryptionMode::Suffix.as_str(), "xsalsa20_poly1305_suffix");
    assert_eq!(EncryptionMode::Lite.as_str(), "xsalsa20_poly1305_lite");
    assert!(matches!(EncryptionMode::from_name("xsalsa20_poly1305_lite"), EncryptionMode::Lite));
    assert!(matches!(EncryptionMode::from_name("xsalsa20_poly1305"), EncryptionMode::Normal));
    assert!(matches!(EncryptionMode::from_name("xsalsa20_poly1305_suffix"), EncryptionMode::Suffix));
    match EncryptionMode::from_name("aead_aes256_gcm") {
        EncryptionMode::Other(s) => assert_eq!(s, "aead_aes256_gcm"),
        _ => panic!("unknown mode taken for a supported one"),
    }
    assert!(EncryptionMode::Other(String::from("x")).supported().is_none());
    assert!(EncryptionMode::Lite.supported().is_some());
}

#[test]
fn event_reports_its_opcode() {
    assert_eq!(GatewayEvent::Resumed.op(), OpCode::Resumed);
    let ev = GatewayEvent::Heartbeat(swc::voice::payload::Heartbeat(3));
    assert_eq!(ev.op(), OpCode::Heartbeat);
}

#[test]
fn opcode_scan_trims_unicode_whitespace() {
    assert_eq!(find_opcode("{\"op\":\u{a0}5}".as_bytes()), Some(5));
    assert_eq!(find_opcode("{\"op\":\u{3000}12\u{2009},\"d\":1}".as_bytes()), Some(12));
    assert_eq!(find_opcode("{\"op\":\u{85}\u{1680}7\u{205f}}".as_bytes()), Some(7));
    assert_eq!(find_opcode("{\"op\":\u{200b}5}".as_bytes()), None);
    let d = GatewayEventDeserializer::from_json("{\"op\":\u{a0}5}").unwrap();
    assert_eq!(d.op(), 5);
}
