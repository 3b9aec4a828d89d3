// The wire codec and command model, exercised through the real byte
// codec where bytes are involved.

use raug_server::graph::{
    GraphOp, GraphOpResponse, InvalidGraphOpError, InvalidGraphOpResponseError, NameOrIndex,
};
use raug_server::osc::{decode_datagram, encode_message, Message, OscValue, Packet};

fn ops_of(p: &Packet) -> Vec<GraphOp> {
    GraphOp::try_from_osc(p).expect("well-formed packet")
}

#[test]
fn round_trip_play_stop() {
    assert_eq!(ops_of(&GraphOp::Play.to_osc()), vec![GraphOp::Play]);
    assert_eq!(ops_of(&GraphOp::Stop.to_osc()), vec![GraphOp::Stop]);
}

#[test]
fn round_trip_constants() {
    let f = GraphOp::AddConstantF32(1.5f32.to_bits());
    assert_eq!(ops_of(&f.clone().to_osc()), vec![f]);
    let b = GraphOp::AddConstantBool(true);
    assert_eq!(ops_of(&b.clone().to_osc()), vec![b]);
    let s = GraphOp::AddConstantString("hello".to_string());
    assert_eq!(ops_of(&s.clone().to_osc()), vec![s]);
}

#[test]
fn round_trip_graph_ops() {
    let ops = vec![
        GraphOp::AddProcessor { name: "SineOscillator".to_string() },
        GraphOp::AddToMix {
            mixer_channel: 3,
            source: 7,
            source_output: NameOrIndex::Name("out".to_string()),
        },
        GraphOp::AddToMix { mixer_channel: 0, source: 2, source_output: NameOrIndex::Index(0) },
        GraphOp::Connect {
            source: 4,
            source_output: NameOrIndex::Index(0),
            target: 5,
            target_input: NameOrIndex::Name("b".to_string()),
        },
        GraphOp::ReplaceNode { replaced: 9, replacement: 11 },
    ];
    for op in ops {
        assert_eq!(ops_of(&op.clone().to_osc()), vec![op]);
    }
}

#[test]
fn round_trip_responses() {
    for r in [GraphOpResponse::NodeIndex(7), GraphOpResponse::Empty] {
        let parsed = GraphOpResponse::try_from_osc(&r.to_osc()).expect("well-formed");
        assert_eq!(parsed, vec![r]);
    }
}

#[test]
fn round_trip_through_bytes() {
    // Through the real byte codec: a float survives as its exact bits,
    // a string survives verbatim. Fails if the codec wrappers hand
    // anything back unchanged or mangled.
    let op = GraphOp::AddConstantF32(3.25f32.to_bits());
    let bytes = encode_message(&op.clone().to_osc_message()).expect("encodes");
    let packet = decode_datagram(&bytes).expect("decodes");
    assert_eq!(ops_of(&packet), vec![op]);

    let op = GraphOp::AddConstantString("très".to_string());
    let bytes = encode_message(&op.clone().to_osc_message()).expect("encodes");
    let packet = decode_datagram(&bytes).expect("decodes");
    assert_eq!(ops_of(&packet), vec![op]);
}

#[test]
fn unknown_address_is_reported() {
    let m = Packet::Message(Message { addr: "/nope".to_string(), args: vec![] });
    assert_eq!(
        GraphOp::try_from_osc(&m),
        Err(InvalidGraphOpError::UnknownOperation("/nope".to_string()))
    );
}

#[test]
fn argument_shape_is_rejected() {
    // Right address, wrong arity.
    let m = Packet::Message(Message { addr: "/add_constant_f32".to_string(), args: vec![] });
    assert_eq!(GraphOp::try_from_osc(&m), Err(InvalidGraphOpError::ArgumentShape));
    // Right address and arity, wrong type.
    let m = Packet::Message(Message {
        addr: "/add_constant_f32".to_string(),
        args: vec![OscValue::Int(3)],
    });
    assert_eq!(GraphOp::try_from_osc(&m), Err(InvalidGraphOpError::ArgumentShape));
    // A play with stray arguments.
    let m = Packet::Message(Message {
        addr: "/play".to_string(),
        args: vec![OscValue::Bool(true)],
    });
    assert_eq!(GraphOp::try_from_osc(&m), Err(InvalidGraphOpError::ArgumentShape));
    // A port argument of an unusable wire type.
    let m = Packet::Message(Message {
        addr: "/connect".to_string(),
        args: vec![
            OscValue::Int(0),
            OscValue::Other,
            OscValue::Int(1),
            OscValue::Int(0),
        ],
    });
    assert_eq!(GraphOp::try_from_osc(&m), Err(InvalidGraphOpError::ArgumentShape));
}

#[test]
fn name_or_index_decodes_by_wire_type() {
    assert_eq!(
        NameOrIndex::try_from(&OscValue::Str("freq".to_string())),
        Ok(NameOrIndex::Name("freq".to_string()))
    );
    assert_eq!(NameOrIndex::try_from(&OscValue::Int(3)), Ok(NameOrIndex::Index(3)));
    assert!(NameOrIndex::try_from(&OscValue::Bool(true)).is_err());
}

#[test]
fn unknown_response_is_reported() {
    let m = Packet::Message(Message { addr: "/response/what".to_string(), args: vec![] });
    assert_eq!(
        GraphOpResponse::try_from_osc(&m),
        Err(InvalidGraphOpResponseError::UnknownResponse("/response/what".to_string()))
    );
    let m = Packet::Message(Message { addr: "/response/node_index".to_string(), args: vec![] });
    assert_eq!(
        GraphOpResponse::try_from_osc(&m),
        Err(InvalidGraphOpResponseError::ArgumentShape)
    );
}

#[test]
fn as_node_index_reads_the_handle() {
    assert_eq!(GraphOpResponse::NodeIndex(4).as_node_index(), Some(4));
    assert_eq!(GraphOpResponse::Empty.as_node_index(), None);
}

#[test]
fn bundles_flatten_depth_first() {
    let bundle = Packet::Bundle(vec![
        GraphOp::Play.to_osc(),
        Packet::Bundle(vec![
            GraphOp::AddConstantBool(false).to_osc(),
            GraphOp::Stop.to_osc(),
        ]),
        GraphOp::AddConstantF32(0.5f32.to_bits()).to_osc(),
    ]);
    assert_eq!(
        ops_of(&bundle),
        vec![
            GraphOp::Play,
            GraphOp::AddConstantBool(false),
            GraphOp::Stop,
            GraphOp::AddConstantF32(0.5f32.to_bits()),
        ]
    );
}

#[test]
fn bundle_with_one_bad_leaf_is_rejected_whole() {
    let bundle = Packet::Bundle(vec![
        GraphOp::Play.to_osc(),
        Packet::Message(Message { addr: "/bogus".to_string(), args: vec![] }),
        GraphOp::Stop.to_osc(),
    ]);
    assert_eq!(
        GraphOp::try_from_osc(&bundle),
        Err(InvalidGraphOpError::UnknownOperation("/bogus".to_string()))
    );
}
