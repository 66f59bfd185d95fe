use swc::voice::crypto::{open_packet, EncryptionMode, Encryptor};
use swc::voice::rtp::Socket;
use swc::voice::streamer::{PacketStreamer, Status, Step};

const SSRC: u32 = 0xDEADBEEF;
const SILENCE: [u8; 3] = [0xF8, 0xFF, 0xFE];

fn socket() -> Socket {
    Socket::new(SSRC, Encryptor::new(EncryptionMode::Normal, vec![7u8; 32]))
}

fn plain(wire: &[u8]) -> Vec<u8> {
    open_packet(&vec![7u8; 32], EncryptionMode::Normal, wire).unwrap()
}

/// What happened while driving the streamer: datagrams with their send
/// instants, and statuses.
#[derive(Debug, PartialEq)]
enum Out {
    Sent(u64, Vec<u8>),
    Status(Status),
}

/// Drives the streamer the way a caller does, with a source that hands out
/// `frames` at once and then ends; stops once `limit` items came out or the
/// streamer goes idle.
fn drive(streamer: &mut PacketStreamer, rtp: &mut Socket, frames: &mut Vec<Vec<u8>>, now: &mut u64, limit: usize) -> Vec<Out> {
    let mut out = Vec::new();
    while out.len() < limit {
        match streamer.next_step(rtp.ssrc()) {
            Step::Send { at } => {
                if *now < at {
                    *now = at;
                }
                let d = streamer.send_packet(rtp).ok().unwrap();
                out.push(Out::Sent(*now, plain(&d)));
            }
            Step::Status(s) => out.push(Out::Status(s)),
            Step::Continue => {}
            Step::Read { .. } => {
                let frame = if frames.is_empty() { Vec::new() } else { frames.remove(0) };
                if let Some(s) = streamer.on_read(&frame, *now, rtp.ssrc()) {
                    out.push(Out::Status(s));
                }
            }
            Step::Idle => break,
        }
    }
    out
}

#[test]
fn new_streamer_is_idle() {
    let mut s = PacketStreamer::new(200, 0);
    assert!(!s.has_source());
    assert!(!s.is_streaming());
    assert_eq!(s.next_step(SSRC), Step::Idle);
}

#[test]
fn hundred_frames_are_paced_twenty_ms_apart() {
    let mut s = PacketStreamer::new(200, 0);
    let mut rtp = socket();
    s.source();
    let mut frames: Vec<Vec<u8>> = (0..100u8).map(|i| vec![i; 10]).collect();
    let mut now = 1000;
    let out = drive(&mut s, &mut rtp, &mut frames, &mut now, 101);
    assert_eq!(out[0], Out::Status(Status::Started(SSRC)));
    let sends: Vec<&Out> = out[1..].iter().collect();
    assert_eq!(sends.len(), 100);
    for (i, o) in sends.iter().enumerate() {
        match o {
            Out::Sent(at, payload) => {
                assert_eq!(*at, 1020 + 20 * i as u64);
                assert_eq!(payload, &vec![i as u8; 10]);
            }
            _ => panic!("expected a datagram"),
        }
    }
    assert_eq!(rtp.sequence(), 100);
    assert_eq!(rtp.timestamp(), 96000);
}

#[test]
fn end_of_source_sends_five_silence_frames_then_stopped() {
    let mut s = PacketStreamer::new(200, 0);
    let mut rtp = socket();
    s.source();
    let mut frames: Vec<Vec<u8>> = (0..3u8).map(|i| vec![i + 1; 4]).collect();
    let mut now = 0;
    let out = drive(&mut s, &mut rtp, &mut frames, &mut now, 100);
    assert_eq!(out[0], Out::Status(Status::Started(SSRC)));
    let silence: Vec<&Out> = out.iter().filter(|o| matches!(o, Out::Sent(_, p) if p[..] == SILENCE[..])).collect();
    assert_eq!(silence.len(), 5);
    // the last silence frame is prepared when `Stopped` is reported, and
    // goes out right after
    assert_eq!(out[out.len() - 2], Out::Status(Status::Stopped(SSRC)));
    assert_eq!(out[out.len() - 1], Out::Sent(160, SILENCE.to_vec()));
    assert_eq!(out.len(), 1 + 3 + 5 + 1);
    assert!(!s.has_source());
    assert!(!s.is_streaming());
}

#[test]
fn stall_past_patience_breaks_the_stream() {
    let mut s = PacketStreamer::new(200, 0);
    let mut rtp = socket();
    s.source();
    assert_eq!(s.next_step(SSRC), Step::Read { deadline: None });
    assert_eq!(s.on_read(&[1, 2], 0, SSRC), Some(Status::Started(SSRC)));
    assert_eq!(s.next_step(SSRC), Step::Send { at: 20 });
    s.send_packet(&mut rtp).ok().unwrap();
    assert_eq!(s.next_step(SSRC), Step::Read { deadline: Some(240) });
    s.on_timeout();
    assert_eq!(s.silence_frames(), 5);
    assert!(s.is_streaming());
    let mut statuses = Vec::new();
    let mut silence = 0;
    loop {
        match s.next_step(SSRC) {
            Step::Send { .. } => {
                let d = s.send_packet(&mut rtp).ok().unwrap();
                assert_eq!(plain(&d), SILENCE.to_vec());
                silence += 1;
            }
            Step::Status(st) => statuses.push(st),
            Step::Continue => {}
            Step::Read { deadline } => {
                assert_eq!(deadline, None);
                break;
            }
            Step::Idle => panic!("source is still there"),
        }
    }
    assert_eq!(statuses, vec![Status::Stopped(SSRC)]);
    assert_eq!(silence, 5);
    assert!(!s.is_streaming());
    assert_eq!(s.on_read(&[9], 700, SSRC), Some(Status::Started(SSRC)));
    assert_eq!(s.next_step(SSRC), Step::Send { at: 720 });
}

#[test]
fn replacing_a_playing_source_inserts_silence() {
    let mut s = PacketStreamer::new(200, 0);
    s.source();
    s.next_step(SSRC);
    s.on_read(&[5], 0, SSRC);
    assert!(s.is_streaming());
    s.source();
    assert_eq!(s.silence_frames(), 5);
    assert!(s.has_source());
    s.source();
    assert_eq!(s.silence_frames(), 5);
    assert!(s.take_source());
    assert!(!s.take_source());
    assert_eq!(s.silence_frames(), 5);
}

#[test]
fn statuses_alternate_over_a_script() {
    let mut s = PacketStreamer::new(200, 0);
    let mut rtp = socket();
    let mut now = 0;
    let mut statuses = Vec::new();
    for round in 0..4u8 {
        s.source();
        let mut frames = vec![vec![round; 3]; 2 + round as usize];
        for o in drive(&mut s, &mut rtp, &mut frames, &mut now, 1000) {
            if let Out::Status(st) = o {
                statuses.push(st);
            }
        }
    }
    assert_eq!(statuses.len(), 8);
    for (i, st) in statuses.iter().enumerate() {
        if i % 2 == 0 {
            assert_eq!(*st, Status::Started(SSRC));
        } else {
            assert_eq!(*st, Status::Stopped(SSRC));
        }
    }
}

#[test]
fn dropped_read_loses_nothing() {
    let mut s = PacketStreamer::new(200, 0);
    let mut rtp = socket();
    s.source();
    s.next_step(SSRC);
    s.on_read(&[1], 0, SSRC);
    // a wait for the deadline that is given up leaves the packet ready
    assert_eq!(s.next_step(SSRC), Step::Send { at: 20 });
    assert_eq!(s.next_step(SSRC), Step::Send { at: 20 });
    let d = s.send_packet(&mut rtp).ok().unwrap();
    assert_eq!(plain(&d), vec![1]);
    // a read that is given up leaves the next read as it was
    assert_eq!(s.next_step(SSRC), Step::Read { deadline: Some(240) });
    assert_eq!(s.next_step(SSRC), Step::Read { deadline: Some(240) });
    assert_eq!(rtp.sequence(), 1);
}
