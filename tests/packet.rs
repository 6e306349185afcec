use gencam_server::packet::{Packet, PacketKind};

#[test]
fn constructors_keep_payload_rule() {
    let r = Packet::image_request();
    assert_eq!(r.kind(), PacketKind::ImageRequest);
    assert!(r.payload().is_none());
    let i = Packet::image(vec![1, 2], 64, 64);
    assert_eq!(i.kind(), PacketKind::Image);
    assert_eq!(i.payload(), Some(&vec![1u8, 2]));
    assert_eq!((i.width(), i.height()), (64, 64));
    let a = Packet::acknowledge();
    assert_eq!(a.kind(), PacketKind::Acknowledge);
    assert!(a.payload().is_none());
    let u = Packet::unknown();
    assert_eq!(u.kind(), PacketKind::Unknown);
    assert!(u.payload().is_none());
}

#[test]
fn from_parts_refuses_broken_payload_rule() {
    assert!(Packet::from_parts(PacketKind::Image, 0, 64, 64, None).is_none());
    assert!(Packet::from_parts(PacketKind::Acknowledge, 0, 0, 0, Some(vec![])).is_none());
    assert!(Packet::from_parts(PacketKind::Unknown, 0, 0, 0, Some(vec![1])).is_none());
    let p = Packet::from_parts(PacketKind::Image, 7, 3, 4, Some(vec![])).unwrap();
    assert_eq!(p.sequence(), 7);
    assert_eq!(p.payload(), Some(&Vec::new()));
    let q = Packet::from_parts(PacketKind::ImageRequest, 9, 0, 0, None).unwrap();
    assert_eq!(q.sequence(), 9);
}
