// The full datagram cycle against the real byte codec: malformed input
// costs one datagram and nothing else; well-formed input is answered
// with one response datagram per completed operation.

use raug_server::server::{DatagramError, Server};
use rosc::{OscBundle, OscMessage, OscPacket, OscTime, OscType};

fn message(addr: &str, args: Vec<OscType>) -> OscPacket {
    OscPacket::Message(OscMessage { addr: addr.to_string(), args })
}

fn encode(p: &OscPacket) -> Vec<u8> {
    rosc::encoder::encode(p).expect("encodes")
}

fn decode_one(buf: &[u8]) -> OscMessage {
    let (_, packet) = rosc::decoder::decode_udp(buf).expect("decodes");
    match packet {
        OscPacket::Message(m) => m,
        OscPacket::Bundle(_) => panic!("expected a single message"),
    }
}

#[test]
fn malformed_then_valid_datagram() {
    let mut s = Server::new(0, 2);
    let nodes_before = s.nodes.len();
    // Malformed bytes: no reply, nothing changed, nothing fatal.
    let (out, failure) = s.handle_datagram(b"this is not a wire packet");
    assert!(out.is_empty());
    assert!(matches!(failure, Some(DatagramError::Decode(_))));
    assert_eq!(s.nodes.len(), nodes_before);
    // The next, well-formed datagram is answered correctly.
    let buf = encode(&message("/add_constant_f32", vec![OscType::Float(1.0)]));
    let (out, failure) = s.handle_datagram(&buf);
    assert!(failure.is_none());
    assert_eq!(out.len(), 1);
    let m = decode_one(&out[0]);
    assert_eq!(m.addr, "/response/node_index");
    assert_eq!(m.args, vec![OscType::Int(3)]);
}

#[test]
fn bundle_datagram_is_answered_in_order() {
    let mut s = Server::new(0, 2);
    let bundle = OscPacket::Bundle(OscBundle {
        timetag: OscTime::from((0, 1)),
        content: vec![
            message("/play", vec![]),
            message("/add_constant_f32", vec![OscType::Float(1.0)]),
            message("/stop", vec![]),
        ],
    });
    let (out, failure) = s.handle_datagram(&encode(&bundle));
    assert!(failure.is_none());
    assert_eq!(out.len(), 3);
    assert_eq!(decode_one(&out[0]).addr, "/response/none");
    let m = decode_one(&out[1]);
    assert_eq!(m.addr, "/response/node_index");
    assert_eq!(m.args, vec![OscType::Int(3)]);
    assert_eq!(decode_one(&out[2]).addr, "/response/none");
}

#[test]
fn unrecognized_request_gets_no_response() {
    let mut s = Server::new(0, 2);
    let (out, failure) = s.handle_datagram(&encode(&message("/frobnicate", vec![])));
    assert!(out.is_empty());
    assert!(matches!(failure, Some(DatagramError::Parse(_))));
}

#[test]
fn float_bits_survive_the_wire() {
    let mut s = Server::new(0, 2);
    let value = -0.125f32;
    let buf = encode(&message("/add_constant_f32", vec![OscType::Float(value)]));
    let (out, failure) = s.handle_datagram(&buf);
    assert!(failure.is_none());
    assert_eq!(out.len(), 1);
    // The constant node holds exactly the bits that were sent.
    match &s.nodes[3] {
        raug_server::server::NodeKind::ConstantF32(bits) => {
            assert_eq!(*bits, value.to_bits());
        },
        other => panic!("unexpected node kind: {other:?}"),
    }
}
