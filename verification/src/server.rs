//! The session: a model of the signal graph (nodes, edges, mixer topology)
//! and the transport state, and how each operation mutates it.
//!
//! The session owns the authoritative model the protocol layer decides
//! against; actually rendering audio from it is the engine collaborator's
//! job and happens outside this crate. Node handles are indices into the
//! session's append-only node arena: they are issued monotonically and
//! never reused, and are valid only for the session that issued them.

use vstd::prelude::*;

use crate::graph::{parse_packet_spec, GraphOp, GraphOpResponse, InvalidGraphOpError, NameOrIndex};
use crate::osc::{
    decode_datagram, decoded_packet_spec, encode_message, encoded_message_spec, string_is,
    DecodeError, Packet,
};

verus! {

/// The fixed processor registry.
#[derive(Debug, Clone, Copy, PartialEq, Eq, Structural)]
pub enum ProcKind {
    Add,
    Sub,
    Mul,
    Div,
    Neg,
    SineOscillator,
    BlSawOscillator,
}

/// What a node in the session's graph model is. A 32-bit float constant
/// is carried as its raw bit pattern.
#[derive(Debug, Clone, PartialEq, Eq)]
pub enum NodeKind {
    ConstantF32(u32),
    ConstantBool(bool),
    ConstantString(String),
    Processor(ProcKind),
    /// A mixer channel: a passthrough whose sole input is summed into the
    /// master bus.
    Channel,
    /// The master bus: the node whose output feeds playback. Its input
    /// count is the session's current mixer width, one input per channel.
    Master,
}

/// A directed edge from a source node's output port to a target node's
/// input port.
#[derive(Debug, Clone, Copy, PartialEq, Eq, Structural)]
pub struct Edge {
    pub source: u32,
    pub source_output: u32,
    pub target: u32,
    pub target_input: u32,
}

/// Why an operation failed to apply. A reference to a node the session
/// never issued resolves no port and is reported as `InvalidPort` where a
/// port is being resolved; `Engine` covers the graph layer's own refusals
/// (a render already active, or an exhausted node arena).
#[derive(Debug, Clone, Copy, PartialEq, Eq, Structural)]
pub enum OpError {
    UnknownProcessor,
    InvalidPort,
    Engine,
}

/// Why a datagram produced no further work: its bytes did not decode,
/// its packet did not parse, or an operation failed mid-packet. The
/// transport logs it and keeps serving; none of these is ever fatal.
#[derive(Debug, Clone)]
pub enum DatagramError {
    Decode(DecodeError),
    Parse(InvalidGraphOpError),
    Op(OpError),
}

/// The processor name was not in the registry.
#[derive(Debug, Clone, Copy, PartialEq, Eq, Structural)]
pub struct UnknownProcessorError;

/// The mathematical model of a session: the node arena, the edge list,
/// the mixer channels (each the handle of its channel node), the master
/// bus handle, and whether a render is active.
pub struct ServerView {
    pub nodes: Seq<NodeKind>,
    pub edges: Seq<Edge>,
    pub mixer: Seq<u32>,
    pub master: u32,
    pub running: bool,
    pub audio_inputs: usize,
    pub audio_outputs: usize,
}

impl ServerView {
    /// Session invariant: handles fit 32 bits, the master handle and all
    /// mixer and edge endpoints name allocated nodes, and every mixer
    /// channel `i` is summed into the master bus at input `i`.
    pub open spec fn wf(self) -> bool {
        &&& self.nodes.len() <= u32::MAX as nat
        &&& self.mixer.len() <= u32::MAX as nat
        &&& 2 <= self.mixer.len()
        &&& (self.master as nat) < self.nodes.len()
        &&& forall|i: int|
            0 <= i < self.mixer.len() ==> ((#[trigger] self.mixer[i]) as nat) < self.nodes.len()
        &&& forall|i: int|
            0 <= i < self.mixer.len() ==> self.edges.contains(
                Edge {
                    source: self.mixer[i],
                    source_output: 0,
                    target: self.master,
                    target_input: i as u32,
                },
            )
        &&& forall|j: int|
            0 <= j < self.edges.len() ==> ((#[trigger] self.edges[j]).source as nat)
                < self.nodes.len() && (self.edges[j].target as nat) < self.nodes.len()
    }
}

/// Input ports a node kind declares, by position: arithmetic processors
/// take `a` and `b`, negation takes `in`, oscillators take `frequency`,
/// a channel takes `in`; constants and the master bus declare none.
pub open spec fn table_num_inputs(k: NodeKind) -> nat {
    match k {
        NodeKind::ConstantF32(_) => 0,
        NodeKind::ConstantBool(_) => 0,
        NodeKind::ConstantString(_) => 0,
        NodeKind::Processor(p) => match p {
            ProcKind::Add => 2,
            ProcKind::Sub => 2,
            ProcKind::Mul => 2,
            ProcKind::Div => 2,
            ProcKind::Neg => 1,
            ProcKind::SineOscillator => 1,
            ProcKind::BlSawOscillator => 1,
        },
        NodeKind::Channel => 1,
        NodeKind::Master => 0,
    }
}

/// The input slot a symbolic name resolves to on a node kind.
pub open spec fn input_name_slot(k: NodeKind, s: Seq<char>) -> Option<u32> {
    match k {
        NodeKind::Processor(p) => match p {
            ProcKind::Add | ProcKind::Sub | ProcKind::Mul | ProcKind::Div => if s == "a"@ {
                Some(0u32)
            } else if s == "b"@ {
                Some(1u32)
            } else {
                None
            },
            ProcKind::Neg => if s == "in"@ {
                Some(0u32)
            } else {
                None
            },
            ProcKind::SineOscillator | ProcKind::BlSawOscillator => if s == "frequency"@ {
                Some(0u32)
            } else {
                None
            },
        },
        NodeKind::Channel => if s == "in"@ {
            Some(0u32)
        } else {
            None
        },
        _ => None,
    }
}

/// How many inputs the node behind handle `h` has: the master bus has one
/// input per mixer channel, every other node what its kind declares.
pub open spec fn node_num_inputs(v: ServerView, h: u32) -> nat {
    if h == v.master {
        v.mixer.len()
    } else {
        table_num_inputs(v.nodes[h as int])
    }
}

/// Resolve an input port reference against the node behind handle `h`:
/// a name against the kind's declared input names, an index against the
/// node's input count.
pub open spec fn resolve_input_spec(v: ServerView, h: u32, r: NameOrIndex) -> Option<u32> {
    match r {
        NameOrIndex::Name(s) => input_name_slot(v.nodes[h as int], s@),
        NameOrIndex::Index(i) => if (i as nat) < node_num_inputs(v, h) {
            Some(i)
        } else {
            None
        },
    }
}

/// Resolve an output port reference: every node declares exactly one
/// output, named `out`, at index 0.
pub open spec fn resolve_output_spec(r: NameOrIndex) -> Option<u32> {
    match r {
        NameOrIndex::Name(s) => if s@ == "out"@ {
            Some(0u32)
        } else {
            None
        },
        NameOrIndex::Index(i) => if i == 0 {
            Some(0u32)
        } else {
            None
        },
    }
}

/// The registry lookup: which processor a name instantiates.
pub open spec fn proc_kind_spec(name: Seq<char>) -> Option<ProcKind> {
    if name == "Add"@ {
        Some(ProcKind::Add)
    } else if name == "Sub"@ {
        Some(ProcKind::Sub)
    } else if name == "Mul"@ {
        Some(ProcKind::Mul)
    } else if name == "Div"@ {
        Some(ProcKind::Div)
    } else if name == "Neg"@ {
        Some(ProcKind::Neg)
    } else if name == "SineOscillator"@ {
        Some(ProcKind::SineOscillator)
    } else if name == "BlSawOscillator"@ {
        Some(ProcKind::BlSawOscillator)
    } else {
        None
    }
}

/// The model a fresh session starts from: two mixer channels (nodes 0 and
/// 1), the master bus (node 2) summing them at inputs 0 and 1, nothing
/// running.
pub open spec fn init_view(inputs: usize, outputs: usize) -> ServerView {
    ServerView {
        nodes: seq![NodeKind::Channel, NodeKind::Channel, NodeKind::Master],
        edges: seq![
            Edge { source: 0, source_output: 0, target: 2, target_input: 0 },
            Edge { source: 1, source_output: 0, target: 2, target_input: 1 },
        ],
        mixer: seq![0u32, 1u32],
        master: 2,
        running: false,
        audio_inputs: inputs,
        audio_outputs: outputs,
    }
}

/// Appending one node: the fresh handle is the arena length before the
/// push; a full arena is the graph layer's refusal.
pub open spec fn step_add_node(pre: ServerView, k: NodeKind) -> (ServerView, Result<
    GraphOpResponse,
    OpError,
>) {
    if pre.nodes.len() < u32::MAX as nat {
        (
            ServerView { nodes: pre.nodes.push(k), ..pre },
            Ok(GraphOpResponse::NodeIndex(pre.nodes.len() as u32)),
        )
    } else {
        (pre, Err(OpError::Engine))
    }
}

/// Connecting appends one edge after both handles and both port
/// references resolve; on any failure nothing changes.
pub open spec fn step_connect(
    pre: ServerView,
    source: u32,
    source_output: NameOrIndex,
    target: u32,
    target_input: NameOrIndex,
) -> (ServerView, Result<GraphOpResponse, OpError>) {
    if (source as nat) >= pre.nodes.len() || (target as nat) >= pre.nodes.len() {
        (pre, Err(OpError::InvalidPort))
    } else {
        match (resolve_output_spec(source_output), resolve_input_spec(pre, target, target_input)) {
            (Some(o), Some(i)) => (
                ServerView {
                    edges: pre.edges.push(
                        Edge { source, source_output: o, target, target_input: i },
                    ),
                    ..pre
                },
                Ok(GraphOpResponse::Empty),
            ),
            _ => (pre, Err(OpError::InvalidPort)),
        }
    }
}

/// An edge after a node replacement: every endpoint equal to `a` now
/// names `b`, at the same port indices.
pub open spec fn rewire_edge(e: Edge, a: u32, b: u32) -> Edge {
    Edge {
        source: if e.source == a {
            b
        } else {
            e.source
        },
        source_output: e.source_output,
        target: if e.target == a {
            b
        } else {
            e.target
        },
        target_input: e.target_input,
    }
}

/// Replacing a node rewires every edge incident to `a` onto `b` at the
/// same port indices, atomically; no edge is duplicated or dropped. The
/// replacement also takes over any mixer-channel or master-bus role `a`
/// held, so the mixer invariant survives. The handle `a` stays allocated
/// and is never reissued; whether the engine keeps the node behind it
/// usable is left to the engine.
pub open spec fn step_replace(pre: ServerView, a: u32, b: u32) -> (ServerView, Result<
    GraphOpResponse,
    OpError,
>) {
    if (a as nat) < pre.nodes.len() && (b as nat) < pre.nodes.len() {
        (
            ServerView {
                edges: pre.edges.map_values(|e: Edge| rewire_edge(e, a, b)),
                mixer: pre.mixer.map_values(
                    |h: u32|
                        if h == a {
                            b
                        } else {
                            h
                        },
                ),
                master: if pre.master == a {
                    b
                } else {
                    pre.master
                },
                ..pre
            },
            Ok(GraphOpResponse::NodeIndex(b)),
        )
    } else {
        (pre, Err(OpError::Engine))
    }
}

/// The mixer width after asking that channel `want - 1` exist.
pub open spec fn target_len_spec(v: ServerView, want: nat) -> nat {
    if want <= v.mixer.len() {
        v.mixer.len()
    } else {
        want
    }
}

/// Growing the mixer to `target` channels: each new channel is a fresh
/// passthrough node, created in index order, and summed into the master
/// bus at its own input; existing channels and edges are untouched.
pub open spec fn grow_spec(v: ServerView, target: nat) -> ServerView {
    if target <= v.mixer.len() {
        v
    } else {
        let k = (target - v.mixer.len()) as nat;
        ServerView {
            nodes: v.nodes + Seq::new(k, |j: int| NodeKind::Channel),
            mixer: v.mixer + Seq::new(k, |j: int| (v.nodes.len() + j) as u32),
            edges: v.edges + Seq::new(
                k,
                |j: int|
                    Edge {
                        source: (v.nodes.len() + j) as u32,
                        source_output: 0,
                        target: v.master,
                        target_input: (v.mixer.len() + j) as u32,
                    },
            ),
            ..v
        }
    }
}

/// Adding to the mix: the source handle and its output must resolve
/// first (on failure nothing changes); then the mixer grows to cover the
/// channel and the source output is connected to that channel's sole
/// input. Exhausting the 32-bit handle space is the graph layer's
/// refusal.
pub open spec fn step_add_to_mix(pre: ServerView, ch: u32, src: u32, out: NameOrIndex) -> (
    ServerView,
    Result<GraphOpResponse, OpError>,
) {
    if (src as nat) >= pre.nodes.len() {
        (pre, Err(OpError::InvalidPort))
    } else {
        match resolve_output_spec(out) {
            None => (pre, Err(OpError::InvalidPort)),
            Some(oidx) => {
                let target = target_len_spec(pre, ch as nat + 1);
                if target > u32::MAX as nat || pre.nodes.len() + (target - pre.mixer.len())
                    > u32::MAX as nat {
                    (pre, Err(OpError::Engine))
                } else {
                    let g = grow_spec(pre, target);
                    (
                        ServerView {
                            edges: g.edges.push(
                                Edge {
                                    source: src,
                                    source_output: oidx,
                                    target: g.mixer[ch as int],
                                    target_input: 0,
                                },
                            ),
                            ..g
                        },
                        Ok(GraphOpResponse::Empty),
                    )
                }
            },
        }
    }
}

/// The session's transition function: what one operation does to the
/// model and what it answers.
pub open spec fn step_spec(pre: ServerView, op: GraphOp) -> (ServerView, Result<
    GraphOpResponse,
    OpError,
>) {
    match op {
        GraphOp::Play => if pre.running {
            (pre, Err(OpError::Engine))
        } else {
            (ServerView { running: true, ..pre }, Ok(GraphOpResponse::Empty))
        },
        GraphOp::Stop => (ServerView { running: false, ..pre }, Ok(GraphOpResponse::Empty)),
        GraphOp::AddConstantF32(bits) => step_add_node(pre, NodeKind::ConstantF32(bits)),
        GraphOp::AddConstantBool(b) => step_add_node(pre, NodeKind::ConstantBool(b)),
        GraphOp::AddConstantString(s) => step_add_node(pre, NodeKind::ConstantString(s)),
        GraphOp::AddProcessor { name } => match proc_kind_spec(name@) {
            Some(p) => step_add_node(pre, NodeKind::Processor(p)),
            None => (pre, Err(OpError::UnknownProcessor)),
        },
        GraphOp::AddToMix { mixer_channel, source, source_output } => step_add_to_mix(
            pre,
            mixer_channel,
            source,
            source_output,
        ),
        GraphOp::Connect { source, source_output, target, target_input } => step_connect(
            pre,
            source,
            source_output,
            target,
            target_input,
        ),
        GraphOp::ReplaceNode { replaced, replacement } => step_replace(
            pre,
            replaced,
            replacement,
        ),
    }
}

/// Running operations in order: one response per completed operation;
/// the first failure stops the run, keeps the prior results, and leaves
/// the state as the failing operation left it (failures change nothing).
pub open spec fn run_spec(s: ServerView, ops: Seq<GraphOp>) -> (ServerView, Seq<GraphOpResponse>, Option<
    OpError,
>)
    decreases ops.len(),
{
    if ops.len() == 0 {
        (s, Seq::empty(), None)
    } else {
        let (s1, r1) = step_spec(s, ops[0]);
        match r1 {
            Ok(resp) => {
                let (s2, resps, e) = run_spec(s1, ops.drop_first());
                (s2, seq![resp] + resps, e)
            },
            Err(e) => (s1, Seq::empty(), Some(e)),
        }
    }
}

/// The response datagrams a result sequence encodes to, in order: one
/// per result whose message the encoder accepts.
pub open spec fn response_datagrams_spec(resps: Seq<GraphOpResponse>) -> Seq<Vec<u8>>
    decreases resps.len(),
{
    if resps.len() == 0 {
        Seq::empty()
    } else {
        let rest = response_datagrams_spec(resps.drop_first());
        match encoded_message_spec(
            crate::graph::resp_addr_spec(resps[0]),
            crate::graph::resp_args_spec(resps[0]),
        ) {
            Some(b) => seq![b] + rest,
            None => rest,
        }
    }
}

/// The session: the graph model, the mixer topology, the transport
/// state, and the audio channel configuration the engine collaborator is
/// handed.
#[derive(Debug)]
pub struct Server {
    pub nodes: Vec<NodeKind>,
    pub edges: Vec<Edge>,
    pub mixer: Vec<u32>,
    pub master: u32,
    pub running: bool,
    pub audio_inputs: usize,
    pub audio_outputs: usize,
}

impl View for Server {
    type V = ServerView;

    open spec fn view(&self) -> ServerView {
        ServerView {
            nodes: self.nodes@,
            edges: self.edges@,
            mixer: self.mixer@,
            master: self.master,
            running: self.running,
            audio_inputs: self.audio_inputs,
            audio_outputs: self.audio_outputs,
        }
    }
}

/// How many inputs a node kind declares.
fn table_inputs(k: &NodeKind) -> (n: usize)
    ensures
        n as nat == table_num_inputs(*k),
{
    match k {
        NodeKind::ConstantF32(_) => 0,
        NodeKind::ConstantBool(_) => 0,
        NodeKind::ConstantString(_) => 0,
        NodeKind::Processor(p) => match p {
            ProcKind::Add | ProcKind::Sub | ProcKind::Mul | ProcKind::Div => 2,
            ProcKind::Neg | ProcKind::SineOscillator | ProcKind::BlSawOscillator => 1,
        },
        NodeKind::Channel => 1,
        NodeKind::Master => 0,
    }
}

/// The input slot a symbolic name resolves to on a node kind.
fn input_name_index(k: &NodeKind, s: &String) -> (res: Option<u32>)
    ensures
        res == input_name_slot(*k, s@),
{
    match k {
        NodeKind::Processor(p) => match p {
            ProcKind::Add | ProcKind::Sub | ProcKind::Mul | ProcKind::Div => if string_is(s, "a") {
                Some(0)
            } else if string_is(s, "b") {
                Some(1)
            } else {
                None
            },
            ProcKind::Neg => if string_is(s, "in") {
                Some(0)
            } else {
                None
            },
            ProcKind::SineOscillator | ProcKind::BlSawOscillator => if string_is(s, "frequency") {
                Some(0)
            } else {
                None
            },
        },
        NodeKind::Channel => if string_is(s, "in") {
            Some(0)
        } else {
            None
        },
        _ => None,
    }
}

/// Resolve an output port reference: one output, named `out`, index 0.
fn resolve_output(r: &NameOrIndex) -> (res: Option<u32>)
    ensures
        res == resolve_output_spec(*r),
{
    match r {
        NameOrIndex::Name(s) => if string_is(s, "out") {
            Some(0)
        } else {
            None
        },
        NameOrIndex::Index(i) => if *i == 0 {
            Some(0)
        } else {
            None
        },
    }
}

/// Registry lookup: which processor a name instantiates; an unregistered
/// name is refused.
pub fn lookup_processor(name: &String) -> (r: Result<ProcKind, UnknownProcessorError>)
    ensures
        r == (match proc_kind_spec(name@) {
            Some(p) => Ok::<ProcKind, UnknownProcessorError>(p),
            None => Err::<ProcKind, UnknownProcessorError>(UnknownProcessorError),
        }),
{
    if string_is(name, "Add") {
        Ok(ProcKind::Add)
    } else if string_is(name, "Sub") {
        Ok(ProcKind::Sub)
    } else if string_is(name, "Mul") {
        Ok(ProcKind::Mul)
    } else if string_is(name, "Div") {
        Ok(ProcKind::Div)
    } else if string_is(name, "Neg") {
        Ok(ProcKind::Neg)
    } else if string_is(name, "SineOscillator") {
        Ok(ProcKind::SineOscillator)
    } else if string_is(name, "BlSawOscillator") {
        Ok(ProcKind::BlSawOscillator)
    } else {
        Err(UnknownProcessorError)
    }
}

/// Instantiate a registry processor as a fresh node: an unregistered
/// name is refused before anything is allocated, so a failed lookup
/// never consumes a handle.
fn add_proc_by_name(server: &mut Server, name: &String) -> (r: Result<u32, OpError>)
    ensures
        ({
            let (post, res) = step_spec(old(server)@, GraphOp::AddProcessor { name: *name });
            &&& final(server)@ == post
            &&& (match r {
                Ok(h) => res == Ok::<GraphOpResponse, OpError>(GraphOpResponse::NodeIndex(h)),
                Err(e) => res == Err::<GraphOpResponse, OpError>(e),
            })
        }),
{
    match lookup_processor(name) {
        Ok(p) => server.add_node(NodeKind::Processor(p)),
        Err(UnknownProcessorError) => Err(OpError::UnknownProcessor),
    }
}

impl Server {
    /// A fresh session over the given audio channel configuration: two
    /// mixer channels, each summed into the master bus, nothing running.
    pub fn new(inputs: usize, outputs: usize) -> (s: Server)
        ensures
            s@ == init_view(inputs, outputs),
            s@.wf(),
    {
        let mut nodes: Vec<NodeKind> = Vec::new();
        nodes.push(NodeKind::Channel);
        nodes.push(NodeKind::Channel);
        nodes.push(NodeKind::Master);
        let mut edges: Vec<Edge> = Vec::new();
        edges.push(Edge { source: 0, source_output: 0, target: 2, target_input: 0 });
        edges.push(Edge { source: 1, source_output: 0, target: 2, target_input: 1 });
        let mut mixer: Vec<u32> = Vec::new();
        mixer.push(0);
        mixer.push(1);
        let s = Server {
            nodes,
            edges,
            mixer,
            master: 2,
            running: false,
            audio_inputs: inputs,
            audio_outputs: outputs,
        };
        proof {
            let iv = init_view(inputs, outputs);
            assert(s@.nodes =~= iv.nodes);
            assert(s@.edges =~= iv.edges);
            assert(s@.mixer =~= iv.mixer);
            assert(s@ == iv);
            assert forall|i: int| 0 <= i < s@.mixer.len() implies s@.edges.contains(
                Edge {
                    source: s@.mixer[i],
                    source_output: 0,
                    target: s@.master,
                    target_input: i as u32,
                },
            ) by {
                if i == 0 {
                    assert(s@.edges[0] == Edge {
                        source: s@.mixer[0],
                        source_output: 0,
                        target: s@.master,
                        target_input: 0u32,
                    });
                } else {
                    assert(s@.edges[1] == Edge {
                        source: s@.mixer[1],
                        source_output: 0,
                        target: s@.master,
                        target_input: 1u32,
                    });
                }
            }
            assert(s@.wf());
        }
        s
    }

    /// How many mixer channels exist.
    pub fn num_mixer_channels(&self) -> (n: usize)
        ensures
            n == self@.mixer.len(),
    {
        self.mixer.len()
    }

    /// Start the real-time render. Fails, changing nothing, if a render
    /// is already active. Opening the audio device is the engine
    /// collaborator's step outside this crate; this transition records a
    /// confirmed start, so the render handle is only ever installed on
    /// success.
    pub fn start_graph(&mut self) -> (r: Result<(), OpError>)
        ensures
            old(self)@.running ==> r == Err::<(), OpError>(OpError::Engine) && final(self)@
                == old(self)@,
            !old(self)@.running ==> r == Ok::<(), OpError>(()) && final(self)@ == (ServerView {
                running: true,
                ..old(self)@
            }),
    {
        if self.running {
            Err(OpError::Engine)
        } else {
            self.running = true;
            Ok(())
        }
    }

    /// Stop the render and discard the handle; a no-op when nothing is
    /// running.
    pub fn stop_graph(&mut self)
        ensures
            final(self)@ == (ServerView { running: false, ..old(self)@ }),
    {
        self.running = false;
    }

    /// Append one node to the arena, handing out the next handle; a full
    /// arena is refused.
    fn add_node(&mut self, k: NodeKind) -> (r: Result<u32, OpError>)
        ensures
            final(self)@ == step_add_node(old(self)@, k).0,
            old(self)@.nodes.len() < u32::MAX as nat ==> r == Ok::<u32, OpError>(
                old(self)@.nodes.len() as u32,
            ),
            old(self)@.nodes.len() >= u32::MAX as nat ==> r == Err::<u32, OpError>(OpError::Engine),
    {
        if self.nodes.len() < (u32::MAX as usize) {
            let h = self.nodes.len() as u32;
            self.nodes.push(k);
            Ok(h)
        } else {
            Err(OpError::Engine)
        }
    }

    /// Ensure mixer channel `index` exists, creating intervening
    /// channels lazily in index order, each a fresh passthrough node
    /// summed into the master bus at its own input; returns the
    /// channel's node handle. Existing channels and their connections
    /// are untouched. Refused, changing nothing, only when the 32-bit
    /// handle space would be exhausted.
    pub fn mixer_channel(&mut self, index: usize) -> (r: Result<u32, OpError>)
        requires
            old(self)@.wf(),
        ensures
            final(self)@.wf(),
            ({
                let target = target_len_spec(old(self)@, index as nat + 1);
                if target > u32::MAX as nat || old(self)@.nodes.len() + (target - old(
                    self,
                )@.mixer.len()) > u32::MAX as nat {
                    &&& final(self)@ == old(self)@
                    &&& r == Err::<u32, OpError>(OpError::Engine)
                } else {
                    &&& final(self)@ == grow_spec(old(self)@, target)
                    &&& r == Ok::<u32, OpError>(grow_spec(old(self)@, target).mixer[index as int])
                }
            }),
    {
        if index >= u32::MAX as usize {
            return Err(OpError::Engine);
        }
        let want: u64 = index as u64 + 1;
        let cur: u64 = self.mixer.len() as u64;
        let target: u64 = if want > cur {
            want
        } else {
            cur
        };
        proof {
            assert(target as nat == target_len_spec(old(self)@, index as nat + 1));
        }
        if target > u32::MAX as u64 || self.nodes.len() as u64 + (target - cur) > u32::MAX as u64 {
            return Err(OpError::Engine);
        }
        proof {
            lemma_wf_grow(old(self)@, target as nat);
        }
        while (self.mixer.len() as u64) < target
            invariant
                old(self)@.wf(),
                target as nat == target_len_spec(old(self)@, index as nat + 1),
                target as nat <= u32::MAX as nat,
                old(self)@.nodes.len() + (target as nat - old(self)@.mixer.len()) <= u32::MAX
                    as nat,
                old(self)@.mixer.len() <= self@.mixer.len() <= target as nat,
                self@ == grow_spec(old(self)@, self@.mixer.len()),
            decreases target as int - self@.mixer.len(),
        {
            proof {
                let pre = old(self)@;
                let l = self@.mixer.len();
                assert(self@.nodes.len() == pre.nodes.len() + (l - pre.mixer.len()));
            }
            let h: u32 = self.nodes.len() as u32;
            let ti: u32 = self.mixer.len() as u32;
            self.nodes.push(NodeKind::Channel);
            self.edges.push(
                Edge { source: h, source_output: 0, target: self.master, target_input: ti },
            );
            self.mixer.push(h);
            proof {
                let pre = old(self)@;
                let l2 = self@.mixer.len();
                assert(self@.nodes =~= grow_spec(pre, l2).nodes);
                assert(self@.mixer =~= grow_spec(pre, l2).mixer);
                assert(self@.edges =~= grow_spec(pre, l2).edges);
                assert(self@ == grow_spec(pre, l2));
            }
        }
        proof {
            assert(self@.mixer.len() == target as nat);
            assert((index as nat) < self@.mixer.len());
        }
        Ok(self.mixer[index])
    }

    /// Decode a packet's operations and apply them in order: one
    /// response per completed operation. A malformed packet is rejected
    /// whole, changing nothing. The first failing operation stops the
    /// run and is reported beside the responses already produced, which
    /// stand; no operation is retried.
    pub fn apply_osc(&mut self, packet: &Packet) -> (r: Result<
        (Vec<GraphOpResponse>, Option<OpError>),
        InvalidGraphOpError,
    >)
        requires
            old(self)@.wf(),
        ensures
            final(self)@.wf(),
            (match r {
                Err(e) => parse_packet_spec(*packet) == Err::<Seq<GraphOp>, InvalidGraphOpError>(e)
                    && final(self)@ == old(self)@,
                Ok((resps, eopt)) => {
                    &&& parse_packet_spec(*packet) is Ok
                    &&& run_spec(old(self)@, parse_packet_spec(*packet)->Ok_0) == (
                        final(self)@,
                        resps@,
                        eopt,
                    )
                },
            }),
    {
        let ops = match GraphOp::try_from_osc(packet) {
            Ok(v) => v,
            Err(e) => {
                return Err(e);
            },
        };
        let mut resps: Vec<GraphOpResponse> = Vec::new();
        let mut i: usize = 0;
        proof {
            assert(ops@.skip(0) =~= ops@);
        }
        while i < ops.len()
            invariant
                self@.wf(),
                i <= ops@.len(),
                parse_packet_spec(*packet) == Ok::<Seq<GraphOp>, InvalidGraphOpError>(ops@),
                ({
                    let (sf, rf, ef) = run_spec(self@, ops@.skip(i as int));
                    run_spec(old(self)@, ops@) == (sf, resps@ + rf, ef)
                }),
            decreases ops@.len() - i,
        {
            proof {
                assert(ops@.skip(i as int)[0] == ops@[i as int]);
                assert(ops@.skip(i as int).drop_first() =~= ops@.skip(i as int + 1));
            }
            let ghost prev = self@;
            let ghost prev_resps = resps@;
            match GraphOp::apply(&ops[i], self) {
                Ok(resp) => {
                    resps.push(resp);
                    proof {
                        let (sf2, rf2, ef2) = run_spec(self@, ops@.skip(i as int + 1));
                        assert(prev_resps + (seq![resp] + rf2) =~= resps@ + rf2);
                    }
                    i += 1;
                },
                Err(e) => {
                    proof {
                        assert(resps@ + Seq::<GraphOpResponse>::empty() =~= resps@);
                    }
                    return Ok((resps, Some(e)));
                },
            }
        }
        proof {
            assert(ops@.skip(ops@.len() as int) =~= Seq::<GraphOp>::empty());
            assert(resps@ + Seq::<GraphOpResponse>::empty() =~= resps@);
        }
        Ok((resps, None))
    }

    /// One full receive cycle: decode the datagram, apply its
    /// operations, and encode one response datagram per completed
    /// operation, in order. Bytes that do not decode, and packets that
    /// do not parse, produce no responses and leave the session
    /// unchanged; an operation failure mid-packet keeps the responses
    /// already earned. The reason a datagram fell short is returned for
    /// the transport to log; nothing here is ever fatal to the loop
    /// around it, and node handles and mixer channels are never taken
    /// back.
    pub fn handle_datagram(&mut self, buf: &[u8]) -> (r: (Vec<Vec<u8>>, Option<DatagramError>))
        requires
            old(self)@.wf(),
        ensures
            final(self)@.wf(),
            old(self)@.nodes.len() <= final(self)@.nodes.len(),
            old(self)@.mixer.len() <= final(self)@.mixer.len(),
            ({
                match decoded_packet_spec(buf@) {
                    None => {
                        &&& final(self)@ == old(self)@
                        &&& r.0@ == Seq::<Vec<u8>>::empty()
                        &&& r.1 matches Some(DatagramError::Decode(_))
                    },
                    Some(p) => match parse_packet_spec(p) {
                        Err(e) => {
                            &&& final(self)@ == old(self)@
                            &&& r.0@ == Seq::<Vec<u8>>::empty()
                            &&& r.1 == Some(DatagramError::Parse(e))
                        },
                        Ok(ops) => {
                            let (post, resps, failure) = run_spec(old(self)@, ops);
                            &&& final(self)@ == post
                            &&& r.0@ == response_datagrams_spec(resps)
                            &&& r.1 == (match failure {
                                Some(e) => Some(DatagramError::Op(e)),
                                None => None::<DatagramError>,
                            })
                        },
                    },
                }
            }),
    {
        let packet = match decode_datagram(buf) {
            Ok(p) => p,
            Err(e) => {
                return (Vec::new(), Some(DatagramError::Decode(e)));
            },
        };
        let (resps, failure) = match self.apply_osc(&packet) {
            Ok(pair) => pair,
            Err(e) => {
                return (Vec::new(), Some(DatagramError::Parse(e)));
            },
        };
        proof {
            match parse_packet_spec(packet) {
                Ok(ops) => {
                    lemma_run_monotonic(old(self)@, ops);
                },
                Err(_) => {},
            }
        }
        let ghost resps_seq = resps@;
        let ghost mid = self@;
        let mut out: Vec<Vec<u8>> = Vec::new();
        let mut i: usize = 0;
        proof {
            assert(resps_seq.skip(0) =~= resps_seq);
            assert(out@ + response_datagrams_spec(resps_seq) =~= response_datagrams_spec(
                resps_seq,
            ));
        }
        while i < resps.len()
            invariant
                i <= resps@.len(),
                self@ == mid,
                resps@ == resps_seq,
                response_datagrams_spec(resps_seq) == out@ + response_datagrams_spec(
                    resps_seq.skip(i as int),
                ),
            decreases resps@.len() - i,
        {
            proof {
                assert(resps_seq.skip(i as int)[0] == resps_seq[i as int]);
                assert(resps_seq.skip(i as int).drop_first() =~= resps_seq.skip(i as int + 1));
            }
            let m = resps[i].to_osc_message();
            match encode_message(&m) {
                Ok(bytes) => {
                    proof {
                        assert((out@ + (seq![bytes] + response_datagrams_spec(
                            resps_seq.skip(i as int + 1),
                        ))) =~= (out@.push(bytes) + response_datagrams_spec(
                            resps_seq.skip(i as int + 1),
                        )));
                    }
                    out.push(bytes);
                },
                Err(_) => {},
            }
            i += 1;
        }
        proof {
            assert(resps_seq.skip(resps_seq.len() as int) =~= Seq::<GraphOpResponse>::empty());
            assert(out@ + response_datagrams_spec(Seq::<GraphOpResponse>::empty()) =~= out@);
        }
        (
            out,
            match failure {
                Some(e) => Some(DatagramError::Op(e)),
                None => None,
            },
        )
    }

    /// Resolve an input port reference against the node behind `h`.
    fn resolve_input(&self, h: u32, r: &NameOrIndex) -> (res: Option<u32>)
        requires
            (h as nat) < self@.nodes.len(),
        ensures
            res == resolve_input_spec(self@, h, *r),
    {
        match r {
            NameOrIndex::Index(i) => {
                let n: usize = if h == self.master {
                    self.mixer.len()
                } else {
                    table_inputs(&self.nodes[h as usize])
                };
                if (*i as usize) < n {
                    Some(*i)
                } else {
                    None
                }
            },
            NameOrIndex::Name(s) => input_name_index(&self.nodes[h as usize], s),
        }
    }
}

/// One edge after a node replacement.
fn rewire_exec(e: &Edge, a: u32, b: u32) -> (r: Edge)
    ensures
        r == rewire_edge(*e, a, b),
{
    Edge {
        source: if e.source == a {
            b
        } else {
            e.source
        },
        source_output: e.source_output,
        target: if e.target == a {
            b
        } else {
            e.target
        },
        target_input: e.target_input,
    }
}

impl GraphOp {
    /// Apply this operation to the session: exactly the transition
    /// `step_spec` describes, as one atomic step; every failure leaves
    /// the session unchanged. Driving the engine collaborator (device
    /// open, render thread) happens outside; see `start_graph`.
    pub fn apply(&self, server: &mut Server) -> (r: Result<GraphOpResponse, OpError>)
        requires
            old(server)@.wf(),
        ensures
            final(server)@.wf(),
            (final(server)@, r) == step_spec(old(server)@, *self),
    {
        proof {
            lemma_step_preserves_wf(old(server)@, *self);
        }
        match self {
            GraphOp::Play => match server.start_graph() {
                Ok(()) => Ok(GraphOpResponse::Empty),
                Err(e) => Err(e),
            },
            GraphOp::Stop => {
                server.stop_graph();
                Ok(GraphOpResponse::Empty)
            },
            GraphOp::AddConstantF32(bits) => match server.add_node(NodeKind::ConstantF32(*bits)) {
                Ok(h) => Ok(GraphOpResponse::NodeIndex(h)),
                Err(e) => Err(e),
            },
            GraphOp::AddConstantBool(b) => match server.add_node(NodeKind::ConstantBool(*b)) {
                Ok(h) => Ok(GraphOpResponse::NodeIndex(h)),
                Err(e) => Err(e),
            },
            GraphOp::AddConstantString(s) => match server.add_node(
                NodeKind::ConstantString(s.clone()),
            ) {
                Ok(h) => Ok(GraphOpResponse::NodeIndex(h)),
                Err(e) => Err(e),
            },
            GraphOp::AddProcessor { name } => match add_proc_by_name(server, name) {
                Ok(h) => Ok(GraphOpResponse::NodeIndex(h)),
                Err(e) => Err(e),
            },
            GraphOp::AddToMix { mixer_channel, source, source_output } => {
                if (*source as usize) >= server.nodes.len() {
                    Err(OpError::InvalidPort)
                } else {
                    match resolve_output(source_output) {
                        None => Err(OpError::InvalidPort),
                        Some(oidx) => match server.mixer_channel(*mixer_channel as usize) {
                            Err(e) => Err(e),
                            Ok(ch) => {
                                server.edges.push(
                                    Edge {
                                        source: *source,
                                        source_output: oidx,
                                        target: ch,
                                        target_input: 0,
                                    },
                                );
                                Ok(GraphOpResponse::Empty)
                            },
                        },
                    }
                }
            },
            GraphOp::Connect { source, source_output, target, target_input } => {
                if (*source as usize) >= server.nodes.len() || (*target as usize)
                    >= server.nodes.len() {
                    Err(OpError::InvalidPort)
                } else {
                    match (resolve_output(source_output), server.resolve_input(
                        *target,
                        target_input,
                    )) {
                        (Some(o), Some(i)) => {
                            server.edges.push(
                                Edge {
                                    source: *source,
                                    source_output: o,
                                    target: *target,
                                    target_input: i,
                                },
                            );
                            Ok(GraphOpResponse::Empty)
                        },
                        _ => Err(OpError::InvalidPort),
                    }
                }
            },
            GraphOp::ReplaceNode { replaced, replacement } => {
                let a = *replaced;
                let b = *replacement;
                if (a as usize) < server.nodes.len() && (b as usize) < server.nodes.len() {
                    let mut new_edges: Vec<Edge> = Vec::new();
                    let mut j: usize = 0;
                    while j < server.edges.len()
                        invariant
                            server@ == old(server)@,
                            j <= server@.edges.len(),
                            new_edges@.len() == j,
                            forall|t: int|
                                0 <= t < j ==> #[trigger] new_edges@[t] == rewire_edge(
                                    old(server)@.edges[t],
                                    a,
                                    b,
                                ),
                        decreases server@.edges.len() - j,
                    {
                        let e = rewire_exec(&server.edges[j], a, b);
                        new_edges.push(e);
                        j += 1;
                    }
                    let mut new_mixer: Vec<u32> = Vec::new();
                    let mut t: usize = 0;
                    while t < server.mixer.len()
                        invariant
                            server@ == old(server)@,
                            t <= server@.mixer.len(),
                            new_mixer@.len() == t,
                            forall|q: int|
                                0 <= q < t ==> #[trigger] new_mixer@[q] == (if old(
                                    server,
                                )@.mixer[q] == a {
                                    b
                                } else {
                                    old(server)@.mixer[q]
                                }),
                        decreases server@.mixer.len() - t,
                    {
                        let h = server.mixer[t];
                        new_mixer.push(
                            if h == a {
                                b
                            } else {
                                h
                            },
                        );
                        t += 1;
                    }
                    server.edges = new_edges;
                    server.mixer = new_mixer;
                    if server.master == a {
                        server.master = b;
                    }
                    proof {
                        let st = step_spec(old(server)@, *self).0;
                        assert(final(server)@.edges =~= st.edges);
                        assert(final(server)@.mixer =~= st.mixer);
                        assert((final(server)@, Ok::<GraphOpResponse, OpError>(
                            GraphOpResponse::NodeIndex(b),
                        )) == step_spec(old(server)@, *self));
                    }
                    Ok(GraphOpResponse::NodeIndex(b))
                } else {
                    Err(OpError::Engine)
                }
            },
        }
    }
}

/// An element stays present when a sequence grows by one.
proof fn lemma_contains_push(s: Seq<Edge>, x: Edge, e: Edge)
    requires
        s.contains(e),
    ensures
        s.push(x).contains(e),
{
    let j = choose|j: int| 0 <= j < s.len() && s[j] == e;
    assert(s.push(x)[j] == e);
}

/// Law: growing the mixer preserves the session invariant, widens the
/// mixer to exactly `target` channels without touching the ones that
/// exist, and leaves every existing edge in place.
pub proof fn lemma_wf_grow(pre: ServerView, target: nat)
    requires
        pre.wf(),
        target <= u32::MAX as nat,
        target > pre.mixer.len() ==> pre.nodes.len() + (target - pre.mixer.len()) <= u32::MAX
            as nat,
    ensures
        grow_spec(pre, target).wf(),
        grow_spec(pre, target).mixer.len() == target_len_spec(pre, target),
        forall|i: int|
            0 <= i < pre.mixer.len() ==> #[trigger] grow_spec(pre, target).mixer[i]
                == pre.mixer[i],
        forall|j: int|
            0 <= j < pre.edges.len() ==> #[trigger] grow_spec(pre, target).edges[j]
                == pre.edges[j],
{
    if target <= pre.mixer.len() {
    } else {
        let g = grow_spec(pre, target);
        let k = (target - pre.mixer.len()) as nat;
        assert(g.nodes.len() == pre.nodes.len() + k);
        assert(g.mixer.len() == target);
        assert forall|i: int| 0 <= i < g.mixer.len() implies ((#[trigger] g.mixer[i]) as nat)
            < g.nodes.len() by {
            if i < pre.mixer.len() {
                assert(g.mixer[i] == pre.mixer[i]);
            } else {
                assert(g.mixer[i] == (pre.nodes.len() + (i - pre.mixer.len())) as u32);
            }
        }
        assert forall|j: int| 0 <= j < g.edges.len() implies ((#[trigger] g.edges[j]).source
            as nat) < g.nodes.len() && (g.edges[j].target as nat) < g.nodes.len() by {
            if j < pre.edges.len() {
                assert(g.edges[j] == pre.edges[j]);
            } else {
                assert(g.edges[j] == Edge {
                    source: (pre.nodes.len() + (j - pre.edges.len())) as u32,
                    source_output: 0,
                    target: pre.master,
                    target_input: (pre.mixer.len() + (j - pre.edges.len())) as u32,
                });
            }
        }
        assert forall|i: int| 0 <= i < g.mixer.len() implies g.edges.contains(
            Edge {
                source: g.mixer[i],
                source_output: 0,
                target: g.master,
                target_input: i as u32,
            },
        ) by {
            if i < pre.mixer.len() {
                let e = Edge {
                    source: pre.mixer[i],
                    source_output: 0,
                    target: pre.master,
                    target_input: i as u32,
                };
                let j = choose|j: int| 0 <= j < pre.edges.len() && pre.edges[j] == e;
                assert(g.edges[j] == e);
                assert(g.mixer[i] == pre.mixer[i]);
            } else {
                let j = pre.edges.len() + (i - pre.mixer.len());
                assert(g.edges[j as int] == Edge {
                    source: (pre.nodes.len() + (i - pre.mixer.len())) as u32,
                    source_output: 0,
                    target: pre.master,
                    target_input: (pre.mixer.len() + (i - pre.mixer.len())) as u32,
                });
                assert(g.mixer[i] == (pre.nodes.len() + (i - pre.mixer.len())) as u32);
                assert((pre.mixer.len() + (i - pre.mixer.len())) as u32 == i as u32);
            }
        }
    }
}

/// Law: every operation preserves the session invariant.
pub proof fn lemma_step_preserves_wf(pre: ServerView, op: GraphOp)
    requires
        pre.wf(),
    ensures
        step_spec(pre, op).0.wf(),
{
    let post = step_spec(pre, op).0;
    match op {
        GraphOp::Play => {},
        GraphOp::Stop => {},
        GraphOp::AddConstantF32(_) => {
            lemma_wf_add_node_kind(pre);
        },
        GraphOp::AddConstantBool(_) => {
            lemma_wf_add_node_kind(pre);
        },
        GraphOp::AddConstantString(_) => {
            lemma_wf_add_node_kind(pre);
        },
        GraphOp::AddProcessor { .. } => {
            lemma_wf_add_node_kind(pre);
        },
        GraphOp::AddToMix { mixer_channel, source, source_output } => {
            if (source as nat) < pre.nodes.len() && resolve_output_spec(source_output) is Some {
                let target = target_len_spec(pre, mixer_channel as nat + 1);
                if target <= u32::MAX as nat && pre.nodes.len() + (target - pre.mixer.len())
                    <= u32::MAX as nat {
                    lemma_wf_grow(pre, target);
                    let g = grow_spec(pre, target);
                    let x = Edge {
                        source,
                        source_output: resolve_output_spec(source_output)->0,
                        target: g.mixer[mixer_channel as int],
                        target_input: 0,
                    };
                    assert forall|i: int| 0 <= i < post.mixer.len() implies post.edges.contains(
                        Edge {
                            source: post.mixer[i],
                            source_output: 0,
                            target: post.master,
                            target_input: i as u32,
                        },
                    ) by {
                        lemma_contains_push(
                            g.edges,
                            x,
                            Edge {
                                source: g.mixer[i],
                                source_output: 0,
                                target: g.master,
                                target_input: i as u32,
                            },
                        );
                    }
                    assert(post.wf());
                }
            }
        },
        GraphOp::Connect { source, source_output, target, target_input } => {
            if (source as nat) < pre.nodes.len() && (target as nat) < pre.nodes.len() {
                match (
                    resolve_output_spec(source_output),
                    resolve_input_spec(pre, target, target_input),
                ) {
                    (Some(o), Some(i)) => {
                        let x = Edge { source, source_output: o, target, target_input: i };
                        assert forall|i2: int| 0 <= i2 < post.mixer.len() implies post
                            .edges
                            .contains(
                            Edge {
                                source: post.mixer[i2],
                                source_output: 0,
                                target: post.master,
                                target_input: i2 as u32,
                            },
                        ) by {
                            lemma_contains_push(
                                pre.edges,
                                x,
                                Edge {
                                    source: pre.mixer[i2],
                                    source_output: 0,
                                    target: pre.master,
                                    target_input: i2 as u32,
                                },
                            );
                        }
                        assert(post.wf());
                    },
                    _ => {},
                }
            }
        },
        GraphOp::ReplaceNode { replaced, replacement } => {
            let a = replaced;
            let b = replacement;
            if (a as nat) < pre.nodes.len() && (b as nat) < pre.nodes.len() {
                assert forall|i: int| 0 <= i < post.mixer.len() implies ((
                #[trigger] post.mixer[i]) as nat) < post.nodes.len() by {
                    assert(post.mixer[i] == (if pre.mixer[i] == a {
                        b
                    } else {
                        pre.mixer[i]
                    }));
                }
                assert forall|j: int| 0 <= j < post.edges.len() implies ((
                #[trigger] post.edges[j]).source as nat) < post.nodes.len() && (post.edges[j].target
                    as nat) < post.nodes.len() by {
                    assert(post.edges[j] == rewire_edge(pre.edges[j], a, b));
                }
                assert forall|i: int| 0 <= i < post.mixer.len() implies post.edges.contains(
                    Edge {
                        source: post.mixer[i],
                        source_output: 0,
                        target: post.master,
                        target_input: i as u32,
                    },
                ) by {
                    let e = Edge {
                        source: pre.mixer[i],
                        source_output: 0,
                        target: pre.master,
                        target_input: i as u32,
                    };
                    let j = choose|j: int| 0 <= j < pre.edges.len() && pre.edges[j] == e;
                    assert(post.edges[j] == rewire_edge(e, a, b));
                    assert(post.mixer[i] == (if pre.mixer[i] == a {
                        b
                    } else {
                        pre.mixer[i]
                    }));
                }
                assert(post.wf());
            }
        },
    }
}

/// Appending any node keeps the invariant: nothing existing moves.
proof fn lemma_wf_add_node_kind(pre: ServerView)
    requires
        pre.wf(),
    ensures
        forall|k: NodeKind| #[trigger] step_add_node(pre, k).0.wf(),
{
    assert forall|k: NodeKind| #[trigger] step_add_node(pre, k).0.wf() by {
        let post = step_add_node(pre, k).0;
        if pre.nodes.len() < u32::MAX as nat {
            assert(post.edges == pre.edges);
            assert(post.mixer == pre.mixer);
            assert(post.master == pre.master);
            assert forall|i: int| 0 <= i < post.mixer.len() implies ((
            #[trigger] post.mixer[i]) as nat) < post.nodes.len() by {
                assert((pre.mixer[i] as nat) < pre.nodes.len());
            }
            assert(post.wf());
        }
    }
}


/// Law: no operation ever shrinks the node arena or the mixer: handles
/// and channels, once allocated, are never taken back.
pub proof fn lemma_step_monotonic(s: ServerView, op: GraphOp)
    ensures
        s.nodes.len() <= step_spec(s, op).0.nodes.len(),
        s.mixer.len() <= step_spec(s, op).0.mixer.len(),
{
    let post = step_spec(s, op).0;
    match op {
        GraphOp::AddToMix { mixer_channel, source, source_output } => {
            if (source as nat) < s.nodes.len() && resolve_output_spec(source_output) is Some {
                let target = target_len_spec(s, mixer_channel as nat + 1);
                if target <= u32::MAX as nat && s.nodes.len() + (target - s.mixer.len())
                    <= u32::MAX as nat {
                    assert(grow_spec(s, target).nodes.len() >= s.nodes.len());
                    assert(grow_spec(s, target).mixer.len() >= s.mixer.len());
                }
            }
        },
        GraphOp::ReplaceNode { replaced, replacement } => {
            if (replaced as nat) < s.nodes.len() && (replacement as nat) < s.nodes.len() {
                assert(post.mixer.len() == s.mixer.len());
            }
        },
        _ => {},
    }
}

/// Law: running any operation sequence never shrinks the node arena or
/// the mixer.
pub proof fn lemma_run_monotonic(s: ServerView, ops: Seq<GraphOp>)
    ensures
        s.nodes.len() <= run_spec(s, ops).0.nodes.len(),
        s.mixer.len() <= run_spec(s, ops).0.mixer.len(),
    decreases ops.len(),
{
    if ops.len() == 0 {
    } else {
        lemma_step_monotonic(s, ops[0]);
        let (s1, r1) = step_spec(s, ops[0]);
        match r1 {
            Ok(_) => {
                lemma_run_monotonic(s1, ops.drop_first());
            },
            Err(_) => {},
        }
    }
}

/// Which operations create a node.
pub open spec fn is_node_creating(op: GraphOp) -> bool {
    match op {
        GraphOp::AddConstantF32(_) => true,
        GraphOp::AddConstantBool(_) => true,
        GraphOp::AddConstantString(_) => true,
        GraphOp::AddProcessor { .. } => true,
        _ => false,
    }
}

/// Law: a node-creating operation that succeeds returns exactly the
/// next handle, the arena length, and allocates exactly one node.
pub proof fn lemma_create_fresh_handle(s: ServerView, op: GraphOp, h: u32)
    requires
        is_node_creating(op),
        step_spec(s, op).1 == Ok::<GraphOpResponse, OpError>(GraphOpResponse::NodeIndex(h)),
    ensures
        h as nat == s.nodes.len(),
        step_spec(s, op).0.nodes.len() == s.nodes.len() + 1,
{
}

/// Law: handles returned by successive node-creating operations within
/// one session strictly increase, whatever other operations run in
/// between.
pub proof fn lemma_handle_monotonic(
    s0: ServerView,
    op1: GraphOp,
    mid: Seq<GraphOp>,
    op2: GraphOp,
    h1: u32,
    h2: u32,
)
    requires
        is_node_creating(op1),
        is_node_creating(op2),
        step_spec(s0, op1).1 == Ok::<GraphOpResponse, OpError>(GraphOpResponse::NodeIndex(h1)),
        step_spec(run_spec(step_spec(s0, op1).0, mid).0, op2).1 == Ok::<
            GraphOpResponse,
            OpError,
        >(GraphOpResponse::NodeIndex(h2)),
    ensures
        h1 < h2,
{
    lemma_create_fresh_handle(s0, op1, h1);
    lemma_run_monotonic(step_spec(s0, op1).0, mid);
    lemma_create_fresh_handle(run_spec(step_spec(s0, op1).0, mid).0, op2, h2);
}

/// Law: a connect whose handles or port references do not resolve
/// fails with InvalidPort and leaves the whole session, in particular
/// its edge set, unchanged: there is no partial connection.
pub proof fn lemma_connect_invalid_port(
    s: ServerView,
    source: u32,
    source_output: NameOrIndex,
    target: u32,
    target_input: NameOrIndex,
)
    requires
        ((source as nat) < s.nodes.len() && (target as nat) < s.nodes.len()) ==> (
        resolve_output_spec(source_output) is None || resolve_input_spec(
            s,
            target,
            target_input,
        ) is None),
    ensures
        step_spec(s, GraphOp::Connect { source, source_output, target, target_input }) == (
            s,
            Err::<GraphOpResponse, OpError>(OpError::InvalidPort),
        ),
{
}

/// Law: adding to a mixer channel beyond the current width creates the
/// intervening channels in index order, each summed into the master bus
/// at its own input, without disturbing existing channels or existing
/// edges, and finally connects the source to the channel's sole input.
pub proof fn lemma_add_to_mix_grows(s: ServerView, ch: u32, src: u32, out: NameOrIndex)
    requires
        s.wf(),
        (src as nat) < s.nodes.len(),
        resolve_output_spec(out) is Some,
        ch as nat + 1 <= u32::MAX as nat,
        s.nodes.len() + (target_len_spec(s, ch as nat + 1) - s.mixer.len()) <= u32::MAX as nat,
    ensures
        ({
            let (post, res) = step_spec(
                s,
                GraphOp::AddToMix { mixer_channel: ch, source: src, source_output: out },
            );
            &&& res == Ok::<GraphOpResponse, OpError>(GraphOpResponse::Empty)
            &&& post.mixer.len() == target_len_spec(s, ch as nat + 1)
            &&& forall|i: int| 0 <= i < s.mixer.len() ==> #[trigger] post.mixer[i] == s.mixer[i]
            &&& forall|j: int| 0 <= j < s.edges.len() ==> #[trigger] post.edges[j] == s.edges[j]
            &&& forall|i: int|
                0 <= i < post.mixer.len() ==> post.edges.contains(
                    Edge {
                        source: post.mixer[i],
                        source_output: 0,
                        target: s.master,
                        target_input: i as u32,
                    },
                )
            &&& post.edges.last() == (Edge {
                source: src,
                source_output: resolve_output_spec(out)->0,
                target: post.mixer[ch as int],
                target_input: 0,
            })
        }),
{
    let target = target_len_spec(s, ch as nat + 1);
    lemma_wf_grow(s, target);
    let g = grow_spec(s, target);
    let (post, res) = step_spec(
        s,
        GraphOp::AddToMix { mixer_channel: ch, source: src, source_output: out },
    );
    assert forall|j: int| 0 <= j < s.edges.len() implies #[trigger] post.edges[j]
        == s.edges[j] by {
        assert(post.edges[j] == g.edges[j]);
    }
    assert forall|i: int| 0 <= i < post.mixer.len() implies post.edges.contains(
        Edge {
            source: post.mixer[i],
            source_output: 0,
            target: s.master,
            target_input: i as u32,
        },
    ) by {
        let e = Edge {
            source: g.mixer[i],
            source_output: 0,
            target: g.master,
            target_input: i as u32,
        };
        assert(g.edges.contains(e));
        lemma_contains_push(g.edges, post.edges.last(), e);
    }
}

/// Law: replacing node `a` with node `b` rewires every edge endpoint
/// that named `a` onto `b`, at the same port indices, in one atomic
/// step; no edge is duplicated or dropped and no node moves.
pub proof fn lemma_replace_rewires(s: ServerView, a: u32, b: u32)
    requires
        (a as nat) < s.nodes.len(),
        (b as nat) < s.nodes.len(),
    ensures
        ({
            let (post, res) = step_spec(s, GraphOp::ReplaceNode { replaced: a, replacement: b });
            &&& res == Ok::<GraphOpResponse, OpError>(GraphOpResponse::NodeIndex(b))
            &&& post.nodes == s.nodes
            &&& post.edges.len() == s.edges.len()
            &&& forall|j: int|
                0 <= j < s.edges.len() ==> #[trigger] post.edges[j] == rewire_edge(
                    s.edges[j],
                    a,
                    b,
                )
        }),
{
}



/// Law: a packet of play, add-constant, stop, applied in order to a
/// session that is not rendering and has arena room, answers exactly
/// three ordered responses: nothing, the fresh handle, nothing — and no
/// failure.
pub proof fn lemma_play_add_stop_responses(s: ServerView, bits: u32)
    requires
        !s.running,
        s.nodes.len() < u32::MAX as nat,
    ensures
        ({
            let ops = seq![GraphOp::Play, GraphOp::AddConstantF32(bits), GraphOp::Stop];
            let (post, resps, failure) = run_spec(s, ops);
            &&& resps == seq![
                GraphOpResponse::Empty,
                GraphOpResponse::NodeIndex(s.nodes.len() as u32),
                GraphOpResponse::Empty,
            ]
            &&& failure is None
        }),
{
    let ops = seq![GraphOp::Play, GraphOp::AddConstantF32(bits), GraphOp::Stop];
    let s1 = step_spec(s, GraphOp::Play).0;
    let s2 = step_spec(s1, GraphOp::AddConstantF32(bits)).0;
    let s3 = step_spec(s2, GraphOp::Stop).0;
    assert(ops[0] == GraphOp::Play);
    assert(ops.drop_first() =~= seq![GraphOp::AddConstantF32(bits), GraphOp::Stop]);
    assert(ops.drop_first().drop_first() =~= seq![GraphOp::Stop]);
    assert(ops.drop_first().drop_first().drop_first() =~= Seq::<GraphOp>::empty());
    assert(s1.nodes.len() == s.nodes.len());
    assert(step_spec(s1, GraphOp::AddConstantF32(bits)).1 == Ok::<GraphOpResponse, OpError>(
        GraphOpResponse::NodeIndex(s.nodes.len() as u32),
    ));
    let r3 = run_spec(s3, ops.drop_first().drop_first().drop_first());
    assert(r3 == (s3, Seq::<GraphOpResponse>::empty(), None::<OpError>));
    let r2 = run_spec(s2, ops.drop_first().drop_first());
    assert(r2.1 =~= seq![GraphOpResponse::Empty]);
    let r1 = run_spec(s1, ops.drop_first());
    assert(r1.1 =~= seq![
        GraphOpResponse::NodeIndex(s.nodes.len() as u32),
        GraphOpResponse::Empty,
    ]);
    let r0 = run_spec(s, ops);
    assert(r0.1 =~= seq![
        GraphOpResponse::Empty,
        GraphOpResponse::NodeIndex(s.nodes.len() as u32),
        GraphOpResponse::Empty,
    ]);
    assert(r0.2 is None);
}

} // verus!
