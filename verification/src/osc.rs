//! Model of the wire message tree and the trusted byte codec.
//!
//! A datagram decodes into a single message (address plus ordered typed
//! arguments) or an ordered bundle of nested packets. The byte-level codec
//! is rosc's; this module declares it as trusted and converts between rosc's
//! tree and the model the verified protocol layer works on.

use vstd::prelude::*;

verus! {

/// One typed argument of a wire message: 32-bit integer, 32-bit float,
/// boolean or string. A float argument is carried as its raw bit pattern,
/// so the protocol layer never computes on it. Any other wire type decodes
/// to `Other`, which every command rejects as an argument-shape error.
#[derive(Debug, Clone)]
pub enum OscValue {
    Int(i32),
    Float(u32),
    Bool(bool),
    Str(String),
    Other,
}

/// An address plus ordered typed arguments: the atomic command unit.
#[derive(Debug, Clone)]
pub struct Message {
    pub addr: String,
    pub args: Vec<OscValue>,
}

/// A decoded datagram: a single message or an ordered bundle of nested
/// packets, flattened depth-first before dispatch. Bundle time tags carry
/// no semantics here and are dropped on decode.
#[derive(Debug)]
pub enum Packet {
    Message(Message),
    Bundle(Vec<Packet>),
}

/// True when the string equals `a`.
pub fn string_is(s: &String, a: &str) -> (r: bool)
    ensures
        r == (s@ == a@),
{
    *s == a.to_owned()
}

/// True when the message's address equals `a`.
pub fn addr_is(m: &Message, a: &str) -> (r: bool)
    ensures
        r == (m.addr@ == a@),
{
    string_is(&m.addr, a)
}

/// A datagram whose bytes are not a well-formed wire packet; carries a
/// description of the underlying cause. Never fatal: the transport drops
/// the datagram and keeps serving.
#[derive(Debug, Clone)]
pub struct DecodeError {
    pub cause: String,
}

#[verifier::external_type_specification]
#[verifier::external_body]
pub struct ExOscPacket(rosc::OscPacket);

#[verifier::external_type_specification]
#[verifier::external_body]
pub struct ExOscType(rosc::OscType);

/// Relies on the shape of rosc::OscType alone: maps the four argument
/// types this protocol speaks to their model values (a float to its raw
/// bits) and every other wire type to `Other`.
#[verifier::external_body]
fn value_from_wire(t: &rosc::OscType) -> OscValue {
    match t {
        rosc::OscType::Int(i) => OscValue::Int(*i),
        rosc::OscType::Float(f) => OscValue::Float(f.to_bits()),
        rosc::OscType::Bool(b) => OscValue::Bool(*b),
        rosc::OscType::String(s) => OscValue::Str(s.clone()),
        _ => OscValue::Other,
    }
}

/// Relies on the shape of rosc::OscPacket alone: rebuilds the same message
/// tree over the model types, dropping bundle time tags.
#[verifier::external_body]
fn packet_from_wire(p: &rosc::OscPacket) -> Packet {
    match p {
        rosc::OscPacket::Message(m) => Packet::Message(Message {
            addr: m.addr.clone(),
            args: m.args.iter().map(value_from_wire).collect(),
        }),
        rosc::OscPacket::Bundle(b) => Packet::Bundle(
            b.content.iter().map(packet_from_wire).collect(),
        ),
    }
}

/// Relies on the shape of rosc::OscType alone, and on
/// byteorder::BigEndian::read_f32 to rebuild a float from the raw bits the
/// model carries: the inverse of `value_from_wire` on the four spoken
/// types; `Other` becomes Nil.
#[verifier::external_body]
fn value_to_wire(v: &OscValue) -> rosc::OscType {
    match v {
        OscValue::Int(i) => rosc::OscType::Int(*i),
        OscValue::Float(bits) => rosc::OscType::Float(
            <byteorder::BigEndian as byteorder::ByteOrder>::read_f32(&bits.to_be_bytes()),
        ),
        OscValue::Bool(b) => rosc::OscType::Bool(*b),
        OscValue::Str(s) => rosc::OscType::String(s.clone()),
        OscValue::Other => rosc::OscType::Nil,
    }
}

/// The packet a given datagram decodes to, if any. The decoder is a
/// function of the bytes alone, so its result carries this name; which
/// bytes decode, and to what, is not assumed.
pub uninterp spec fn decoded_packet_spec(bytes: Seq<u8>) -> Option<Packet>;

/// The datagram bytes a given wire message encodes to, if any. The
/// encoder is a function of the address and arguments alone, so its
/// result carries this name; nothing more is assumed of the bytes.
pub uninterp spec fn encoded_message_spec(addr: Seq<char>, args: Seq<OscValue>) -> Option<Vec<u8>>;

/// Relies on rosc::decoder::decode_udp to turn datagram bytes into a wire
/// packet, or an error on malformed bytes. The result is named by
/// `decoded_packet_spec`; malformed bytes only ever cost the one
/// datagram, and every caller must handle every packet shape.
#[verifier::external_body]
pub fn decode_datagram(buf: &[u8]) -> (r: Result<Packet, DecodeError>)
    ensures
        r matches Ok(p) ==> decoded_packet_spec(buf@) == Some(p),
        r matches Err(_) ==> decoded_packet_spec(buf@) is None,
{
    match rosc::decoder::decode_udp(buf) {
        Ok((_, p)) => Ok(packet_from_wire(&p)),
        Err(e) => Err(DecodeError { cause: format!("{e:?}") }),
    }
}

/// Relies on rosc::encoder::encode to turn one wire message into
/// datagram bytes. The result is named by `encoded_message_spec`;
/// nothing more is assumed of the bytes.
#[verifier::external_body]
pub fn encode_message(m: &Message) -> (r: Result<Vec<u8>, DecodeError>)
    ensures
        r matches Ok(b) ==> encoded_message_spec(m.addr@, m.args@) == Some(b),
        r matches Err(_) ==> encoded_message_spec(m.addr@, m.args@) is None,
{
    let msg = rosc::OscMessage {
        addr: m.addr.clone(),
        args: m.args.iter().map(value_to_wire).collect(),
    };
    match rosc::encoder::encode(&rosc::OscPacket::Message(msg)) {
        Ok(bytes) => Ok(bytes),
        Err(e) => Err(DecodeError { cause: format!("{e:?}") }),
    }
}

} // verus!
