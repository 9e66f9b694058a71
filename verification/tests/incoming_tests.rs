use joy2qlc::osc::{incoming_line, incoming_text_of, Incoming};
use rosc::{encoder, OscBundle, OscMessage, OscPacket, OscTime, OscType};

fn bytes_of(p: &OscPacket) -> Vec<u8> {
    encoder::encode(p).unwrap()
}

#[test]
fn incoming_message_line() {
    let p = OscPacket::Message(OscMessage {
        addr: "/cc/7".to_string(),
        args: vec![OscType::Int(3), OscType::Nil],
    });
    assert_eq!(
        incoming_line(&bytes_of(&p), "10.0.0.2:9000"),
        Some("IN /cc/7 [Int(3), Nil] from 10.0.0.2:9000".to_string())
    );
    let bare = OscPacket::Message(OscMessage { addr: "/ping".to_string(), args: vec![] });
    assert_eq!(incoming_line(&bytes_of(&bare), "h:1"), Some("IN /ping [] from h:1".to_string()));
}

#[test]
fn incoming_bundle_line() {
    let inner = OscPacket::Message(OscMessage { addr: "/a".to_string(), args: vec![OscType::Int(1)] });
    let p = OscPacket::Bundle(OscBundle {
        timetag: OscTime { seconds: 1, fractional: 2 },
        content: vec![inner.clone(), inner],
    });
    assert_eq!(
        incoming_line(&bytes_of(&p), "h:1"),
        Some("IN bundle @ OscTime { seconds: 1, fractional: 2 } (2 msgs) from h:1".to_string())
    );
}

#[test]
fn incoming_garbage_is_no_packet() {
    assert_eq!(incoming_line(&[1, 2, 3], "h:1"), None);
    assert_eq!(incoming_line(&[], "h:1"), None);
}

#[test]
fn incoming_text_of_decoded_packets() {
    let m = Incoming::Message { addr: "/x".to_string(), args: vec!["A".to_string(), "B".to_string(), "C".to_string()] };
    assert_eq!(incoming_text_of(&m, "s"), "IN /x [A, B, C] from s");
    let b = Incoming::Bundle { timetag: "T".to_string(), count: 12 };
    assert_eq!(incoming_text_of(&b, "s"), "IN bundle @ T (12 msgs) from s");
}
