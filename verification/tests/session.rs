// The session state machine: graph construction, mixer topology,
// transport control, per-packet dispatch, and the full datagram cycle.

use raug_server::graph::{GraphOp, GraphOpResponse, NameOrIndex};
use raug_server::osc::Packet;
use raug_server::server::{lookup_processor, Edge, OpError, ProcKind, Server};

fn fresh() -> Server {
    Server::new(0, 2)
}

#[test]
fn fresh_session_has_two_channels_into_master() {
    let s = fresh();
    assert_eq!(s.num_mixer_channels(), 2);
    assert_eq!(s.mixer, vec![0, 1]);
    assert_eq!(s.master, 2);
    assert_eq!(
        s.edges,
        vec![
            Edge { source: 0, source_output: 0, target: 2, target_input: 0 },
            Edge { source: 1, source_output: 0, target: 2, target_input: 1 },
        ]
    );
    assert!(!s.running);
}

#[test]
fn known_processor_gets_fresh_handle() {
    let mut s = fresh();
    let op = GraphOp::AddProcessor { name: "SineOscillator".to_string() };
    assert_eq!(op.apply(&mut s), Ok(GraphOpResponse::NodeIndex(3)));
    assert_eq!(s.nodes.len(), 4);
}

#[test]
fn unknown_processor_allocates_nothing() {
    let mut s = fresh();
    let before = s.nodes.len();
    let op = GraphOp::AddProcessor { name: "sine".to_string() };
    assert_eq!(op.apply(&mut s), Err(OpError::UnknownProcessor));
    assert_eq!(s.nodes.len(), before);
    // The next successful creation still gets the next handle.
    let op = GraphOp::AddProcessor { name: "SineOscillator".to_string() };
    assert_eq!(op.apply(&mut s), Ok(GraphOpResponse::NodeIndex(3)));
}

#[test]
fn handles_increase_strictly() {
    let mut s = fresh();
    let h1 = GraphOp::AddConstantF32(1.0f32.to_bits()).apply(&mut s).unwrap();
    let h2 = GraphOp::AddConstantBool(true).apply(&mut s).unwrap();
    let h3 = GraphOp::AddProcessor { name: "Add".to_string() }.apply(&mut s).unwrap();
    assert_eq!(h1, GraphOpResponse::NodeIndex(3));
    assert_eq!(h2, GraphOpResponse::NodeIndex(4));
    assert_eq!(h3, GraphOpResponse::NodeIndex(5));
}

#[test]
fn registry_holds_exactly_the_seven() {
    for (name, kind) in [
        ("Add", ProcKind::Add),
        ("Sub", ProcKind::Sub),
        ("Mul", ProcKind::Mul),
        ("Div", ProcKind::Div),
        ("Neg", ProcKind::Neg),
        ("SineOscillator", ProcKind::SineOscillator),
        ("BlSawOscillator", ProcKind::BlSawOscillator),
    ] {
        assert_eq!(lookup_processor(&name.to_string()), Ok(kind));
    }
    assert!(lookup_processor(&"Passthrough".to_string()).is_err());
    assert!(lookup_processor(&"add".to_string()).is_err());
}

#[test]
fn connect_by_names_resolves_ports() {
    let mut s = fresh();
    GraphOp::AddConstantF32(2.0f32.to_bits()).apply(&mut s).unwrap(); // node 3
    GraphOp::AddProcessor { name: "Add".to_string() }.apply(&mut s).unwrap(); // node 4
    let op = GraphOp::Connect {
        source: 3,
        source_output: NameOrIndex::Name("out".to_string()),
        target: 4,
        target_input: NameOrIndex::Name("b".to_string()),
    };
    assert_eq!(op.apply(&mut s), Ok(GraphOpResponse::Empty));
    assert_eq!(
        s.edges.last(),
        Some(&Edge { source: 3, source_output: 0, target: 4, target_input: 1 })
    );
}

#[test]
fn connect_bad_port_changes_nothing() {
    let mut s = fresh();
    GraphOp::AddConstantF32(2.0f32.to_bits()).apply(&mut s).unwrap(); // node 3
    GraphOp::AddProcessor { name: "Neg".to_string() }.apply(&mut s).unwrap(); // node 4
    let edges_before = s.edges.clone();
    // A named input that Neg does not declare.
    let op = GraphOp::Connect {
        source: 3,
        source_output: NameOrIndex::Index(0),
        target: 4,
        target_input: NameOrIndex::Name("frequency".to_string()),
    };
    assert_eq!(op.apply(&mut s), Err(OpError::InvalidPort));
    assert_eq!(s.edges, edges_before);
    // An out-of-range input index.
    let op = GraphOp::Connect {
        source: 3,
        source_output: NameOrIndex::Index(0),
        target: 4,
        target_input: NameOrIndex::Index(1),
    };
    assert_eq!(op.apply(&mut s), Err(OpError::InvalidPort));
    assert_eq!(s.edges, edges_before);
    // A handle the session never issued.
    let op = GraphOp::Connect {
        source: 99,
        source_output: NameOrIndex::Index(0),
        target: 4,
        target_input: NameOrIndex::Index(0),
    };
    assert_eq!(op.apply(&mut s), Err(OpError::InvalidPort));
    assert_eq!(s.edges, edges_before);
}

#[test]
fn add_to_mix_grows_channels_in_order() {
    let mut s = fresh();
    assert_eq!(s.num_mixer_channels(), 2);
    let op = GraphOp::AddToMix {
        mixer_channel: 5,
        source: 0,
        source_output: NameOrIndex::Index(0),
    };
    assert_eq!(op.apply(&mut s), Ok(GraphOpResponse::Empty));
    // Channels 2, 3, 4, 5 now exist, created in order as nodes 3..=6.
    assert_eq!(s.num_mixer_channels(), 6);
    assert_eq!(s.mixer, vec![0, 1, 3, 4, 5, 6]);
    // Channels 0 and 1 keep their original connections.
    assert_eq!(s.edges[0], Edge { source: 0, source_output: 0, target: 2, target_input: 0 });
    assert_eq!(s.edges[1], Edge { source: 1, source_output: 0, target: 2, target_input: 1 });
    // Each new channel is summed into the master bus at its own input.
    for i in 2..6u32 {
        let channel = s.mixer[i as usize];
        assert!(s.edges.contains(&Edge {
            source: channel,
            source_output: 0,
            target: 2,
            target_input: i,
        }));
    }
    // And the source output feeds channel 5's sole input.
    assert_eq!(
        s.edges.last(),
        Some(&Edge { source: 0, source_output: 0, target: 6, target_input: 0 })
    );
}

#[test]
fn mixer_channel_is_lazy_and_stable() {
    let mut s = fresh();
    let h = s.mixer_channel(3).unwrap();
    assert_eq!(s.num_mixer_channels(), 4);
    assert_eq!(h, s.mixer[3]);
    // Asking for an existing channel grows nothing.
    let h1 = s.mixer_channel(1).unwrap();
    assert_eq!(s.num_mixer_channels(), 4);
    assert_eq!(h1, 1);
}

#[test]
fn replace_node_rewires_every_edge() {
    let mut s = fresh();
    GraphOp::AddConstantF32(1.0f32.to_bits()).apply(&mut s).unwrap(); // node 3
    GraphOp::AddProcessor { name: "Add".to_string() }.apply(&mut s).unwrap(); // node 4
    GraphOp::AddProcessor { name: "Mul".to_string() }.apply(&mut s).unwrap(); // node 5
    // 3 -> 4.a, 3 -> 4.b, 4 -> channel 0's input.
    for input in ["a", "b"] {
        GraphOp::Connect {
            source: 3,
            source_output: NameOrIndex::Index(0),
            target: 4,
            target_input: NameOrIndex::Name(input.to_string()),
        }
        .apply(&mut s)
        .unwrap();
    }
    GraphOp::Connect {
        source: 4,
        source_output: NameOrIndex::Index(0),
        target: 0,
        target_input: NameOrIndex::Index(0),
    }
    .apply(&mut s)
    .unwrap();
    let before = s.edges.clone();
    let op = GraphOp::ReplaceNode { replaced: 4, replacement: 5 };
    assert_eq!(op.apply(&mut s), Ok(GraphOpResponse::NodeIndex(5)));
    // Same number of edges, every endpoint 4 now 5, same port indices.
    assert_eq!(s.edges.len(), before.len());
    for (old, new) in before.iter().zip(s.edges.iter()) {
        let expect = Edge {
            source: if old.source == 4 { 5 } else { old.source },
            source_output: old.source_output,
            target: if old.target == 4 { 5 } else { old.target },
            target_input: old.target_input,
        };
        assert_eq!(*new, expect);
    }
    // A handle the session never issued is refused.
    let op = GraphOp::ReplaceNode { replaced: 77, replacement: 5 };
    assert_eq!(op.apply(&mut s), Err(OpError::Engine));
}

#[test]
fn play_is_exclusive_stop_is_idempotent() {
    let mut s = fresh();
    assert_eq!(GraphOp::Play.apply(&mut s), Ok(GraphOpResponse::Empty));
    assert!(s.running);
    // A second play while active fails without corrupting anything.
    assert_eq!(GraphOp::Play.apply(&mut s), Err(OpError::Engine));
    assert!(s.running);
    assert_eq!(GraphOp::Stop.apply(&mut s), Ok(GraphOpResponse::Empty));
    assert!(!s.running);
    // Stopping with nothing running is a no-op.
    assert_eq!(GraphOp::Stop.apply(&mut s), Ok(GraphOpResponse::Empty));
    assert!(!s.running);
}

#[test]
fn bundle_yields_three_ordered_responses() {
    let mut s = fresh();
    let bundle = Packet::Bundle(vec![
        GraphOp::Play.to_osc(),
        GraphOp::AddConstantF32(1.0f32.to_bits()).to_osc(),
        GraphOp::Stop.to_osc(),
    ]);
    let (resps, failure) = s.apply_osc(&bundle).unwrap();
    assert_eq!(
        resps,
        vec![
            GraphOpResponse::Empty,
            GraphOpResponse::NodeIndex(3),
            GraphOpResponse::Empty,
        ]
    );
    assert_eq!(failure, None);
}

#[test]
fn packet_failure_keeps_prior_results() {
    let mut s = fresh();
    let bundle = Packet::Bundle(vec![
        GraphOp::AddConstantBool(true).to_osc(),
        GraphOp::AddProcessor { name: "nope".to_string() }.to_osc(),
        GraphOp::AddConstantBool(false).to_osc(),
    ]);
    let (resps, failure) = s.apply_osc(&bundle).unwrap();
    // The first result stands; the failure stops the rest of the packet.
    assert_eq!(resps, vec![GraphOpResponse::NodeIndex(3)]);
    assert_eq!(failure, Some(OpError::UnknownProcessor));
    // The third operation was never applied.
    assert_eq!(s.nodes.len(), 4);
}

#[test]
fn empty_bundle_yields_no_responses() {
    let mut s = fresh();
    let (resps, failure) = s.apply_osc(&Packet::Bundle(vec![])).unwrap();
    assert!(resps.is_empty());
    assert_eq!(failure, None);
    assert_eq!(s.nodes.len(), 3);
}

#[test]
fn add_to_mix_resolves_output_by_name() {
    let mut s = fresh();
    GraphOp::AddConstantF32(1.0f32.to_bits()).apply(&mut s).unwrap(); // node 3
    let op = GraphOp::AddToMix {
        mixer_channel: 0,
        source: 3,
        source_output: NameOrIndex::Name("out".to_string()),
    };
    assert_eq!(op.apply(&mut s), Ok(GraphOpResponse::Empty));
    assert_eq!(
        s.edges.last(),
        Some(&Edge { source: 3, source_output: 0, target: 0, target_input: 0 })
    );
    // A name no output table declares fails before anything grows.
    let op = GraphOp::AddToMix {
        mixer_channel: 9,
        source: 3,
        source_output: NameOrIndex::Name("wet".to_string()),
    };
    assert_eq!(op.apply(&mut s), Err(OpError::InvalidPort));
    assert_eq!(s.num_mixer_channels(), 2);
}
