use gencam_server::codec::{decode, encode};
use gencam_server::frames::{frame_reply, FrameError, FRAME_HEIGHT, FRAME_WIDTH};
use gencam_server::packet::{Packet, PacketKind};
use gencam_server::session::{Action, Event, Reply, Session, SessionState};

fn request_bytes() -> Vec<u8> {
    encode(&Packet::image_request())
}

fn pixels_for(counter: u64) -> Vec<u8> {
    vec![counter as u8; 12]
}

#[test]
fn scenario_request_gets_first_frame() {
    let mut s = Session::new();
    assert_eq!(s.counter(), 0);
    let a = s.on_event(&Event::Message(request_bytes()));
    assert_eq!(a, Action::Send(Reply::Frame(1)));
    assert_eq!(s.counter(), 1);
    let out = encode(&frame_reply(Ok(pixels_for(1))));
    let p = decode(&out).unwrap();
    assert_eq!(p.kind(), PacketKind::Image);
    assert_eq!((p.width(), p.height()), (64, 64));
    assert_eq!(p.payload(), Some(&pixels_for(1)));
}

#[test]
fn scenario_unknown_kind_gets_acknowledge() {
    let mut s = Session::new();
    let a = s.on_event(&Event::Message(encode(&Packet::unknown())));
    assert_eq!(a, Action::Send(Reply::Acknowledge));
    assert_eq!(s.counter(), 0);
    let p = decode(&encode(&Packet::acknowledge())).unwrap();
    assert_eq!(p.kind(), PacketKind::Acknowledge);
    assert!(p.payload().is_none());
}

#[test]
fn scenario_three_ticks_three_frames() {
    let mut s = Session::new();
    let mut sent = Vec::new();
    for _ in 0..3 {
        sent.push(s.on_event(&Event::Tick));
    }
    assert_eq!(
        sent,
        vec![
            Action::Send(Reply::Frame(1)),
            Action::Send(Reply::Frame(2)),
            Action::Send(Reply::Frame(3)),
        ]
    );
    assert!(s.is_active());
}

#[test]
fn scenario_malformed_bytes_get_acknowledge() {
    let mut s = Session::new();
    let a = s.on_event(&Event::Message(vec![0xff, 0x01, 0x02]));
    assert_eq!(a, Action::Send(Reply::Acknowledge));
    assert_eq!(s.state(), SessionState::Active);
    assert_eq!(s.counter(), 0);
}

#[test]
fn one_reply_per_event_in_order() {
    let mut s = Session::new();
    let events = vec![
        Event::Tick,
        Event::Message(request_bytes()),
        Event::Message(encode(&Packet::acknowledge())),
        Event::Tick,
        Event::Message(vec![7]),
        Event::Message(request_bytes()),
    ];
    let mut sent = Vec::new();
    for e in &events {
        sent.push(s.on_event(e));
    }
    assert_eq!(
        sent,
        vec![
            Action::Send(Reply::Frame(1)),
            Action::Send(Reply::Frame(2)),
            Action::Send(Reply::Acknowledge),
            Action::Send(Reply::Frame(3)),
            Action::Send(Reply::Acknowledge),
            Action::Send(Reply::Frame(4)),
        ]
    );
    assert_eq!(s.counter(), 4);
}

#[test]
fn control_messages_are_ignored() {
    let mut s = Session::new();
    assert_eq!(s.on_event(&Event::Control), Action::Ignore);
    assert_eq!(s.counter(), 0);
    assert!(s.is_active());
}

#[test]
fn close_and_read_error_stop_the_session() {
    let mut s = Session::new();
    s.on_event(&Event::Tick);
    assert_eq!(s.on_event(&Event::Close), Action::Stop);
    assert_eq!(s.state(), SessionState::Closing);
    assert_eq!(s.on_event(&Event::Tick), Action::Stop);
    assert_eq!(s.counter(), 1);
    s.close();
    assert_eq!(s.state(), SessionState::Closed);

    let mut t = Session::new();
    assert_eq!(t.on_event(&Event::ReadError), Action::Stop);
    assert_eq!(t.state(), SessionState::Closing);
}

#[test]
fn send_failure_ends_the_session() {
    let mut s = Session::new();
    s.send_failed();
    assert_eq!(s.state(), SessionState::Closing);
    assert_eq!(s.on_event(&Event::Message(request_bytes())), Action::Stop);
    s.close();
    s.send_failed();
    assert_eq!(s.state(), SessionState::Closed);
}

#[test]
fn failed_frame_degrades_to_acknowledge() {
    let p = frame_reply(Err(FrameError::LoadError));
    assert_eq!(p.kind(), PacketKind::Acknowledge);
    assert!(p.payload().is_none());
    let q = frame_reply(Ok(vec![3, 4]));
    assert_eq!(q.kind(), PacketKind::Image);
    assert_eq!((q.width(), q.height()), (FRAME_WIDTH, FRAME_HEIGHT));
}

#[test]
fn malformed_then_request_gets_next_frame() {
    let mut s = Session::new();
    s.on_event(&Event::Tick);
    assert_eq!(s.on_event(&Event::Message(vec![1, 2, 3])), Action::Send(Reply::Acknowledge));
    assert_eq!(s.counter(), 1);
    assert!(s.is_active());
    assert_eq!(s.on_event(&Event::Message(request_bytes())), Action::Send(Reply::Frame(2)));
}

#[test]
fn control_messages_send_nothing_between_replies() {
    let mut s = Session::new();
    let events = vec![Event::Control, Event::Tick, Event::Control, Event::Message(vec![]), Event::Control];
    let sent: Vec<Action> = events.iter().map(|e| s.on_event(e)).collect();
    let replies = sent.iter().filter(|a| matches!(a, Action::Send(_))).count();
    assert_eq!(replies, 2);
    assert_eq!(
        sent,
        vec![
            Action::Ignore,
            Action::Send(Reply::Frame(1)),
            Action::Ignore,
            Action::Send(Reply::Acknowledge),
            Action::Ignore,
        ]
    );
}

