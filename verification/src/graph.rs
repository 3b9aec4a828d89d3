//! The command model: the closed vocabulary of graph and transport
//! operations, the mapping between wire messages and operations, and the
//! mapping between operation results and wire messages.
//!
//! One address maps to exactly one operation kind. Argument lists are
//! destructured with fixed arity and fixed types; any mismatch is a
//! recoverable argument-shape error, never a crash.

use vstd::prelude::*;

use crate::osc::{Message, OscValue, Packet};

verus! {

/// A port argument carried neither a string (name) nor an integer (index).
#[derive(Debug, Clone, Copy, PartialEq, Eq, Structural)]
pub struct InvalidNameOrIndexError;

/// A reference to an input or output slot on a node: symbolic name or
/// numeric index. Resolution against a node's port table depends on the
/// variant.
#[derive(Debug, Clone, PartialEq, Eq)]
pub enum NameOrIndex {
    Name(String),
    Index(u32),
}

/// A wire message that names no recognized request, or names one but
/// carries the wrong number or types of arguments.
#[derive(Debug, Clone, PartialEq, Eq)]
pub enum InvalidGraphOpError {
    /// The address maps to no operation; carries the address.
    UnknownOperation(String),
    /// The address is recognized but the arguments have the wrong shape.
    ArgumentShape,
}

/// A wire message that names no recognized response, or names one but
/// carries the wrong number or types of arguments.
#[derive(Debug, Clone, PartialEq, Eq)]
pub enum InvalidGraphOpResponseError {
    /// The address maps to no response kind; carries the address.
    UnknownResponse(String),
    /// The address is recognized but the arguments have the wrong shape.
    ArgumentShape,
}

/// One requested graph mutation or transport action. Node handles are the
/// session's monotonically issued indices; they are valid only for the
/// session that issued them. A 32-bit float constant is carried as its raw
/// bit pattern.
#[derive(Debug, Clone, PartialEq, Eq)]
pub enum GraphOp {
    Play,
    Stop,
    AddConstantF32(u32),
    AddConstantBool(bool),
    AddConstantString(String),
    AddToMix { mixer_channel: u32, source: u32, source_output: NameOrIndex },
    AddProcessor { name: String },
    Connect { source: u32, source_output: NameOrIndex, target: u32, target_input: NameOrIndex },
    ReplaceNode { replaced: u32, replacement: u32 },
}

/// One result per applied operation: a fresh or returned node handle, or
/// nothing.
#[derive(Debug, Clone, Copy, PartialEq, Eq, Structural)]
pub enum GraphOpResponse {
    NodeIndex(u32),
    Empty,
}

/// How a port argument decodes: wire string to name, wire integer to
/// index (as an unsigned 32-bit value), anything else is rejected.
pub open spec fn name_or_index_spec(v: OscValue) -> Result<NameOrIndex, InvalidNameOrIndexError> {
    match v {
        OscValue::Str(s) => Ok(NameOrIndex::Name(s)),
        OscValue::Int(i) => Ok(NameOrIndex::Index(i as u32)),
        _ => Err(InvalidNameOrIndexError),
    }
}

/// How a port reference encodes: a name as a wire string, an index as a
/// wire integer.
pub open spec fn nio_value_spec(r: NameOrIndex) -> OscValue {
    match r {
        NameOrIndex::Name(s) => OscValue::Str(s),
        NameOrIndex::Index(i) => OscValue::Int(i as i32),
    }
}

impl NameOrIndex {
    /// Decode one wire argument as a port reference.
    pub fn try_from(v: &OscValue) -> (r: Result<NameOrIndex, InvalidNameOrIndexError>)
        ensures
            r == name_or_index_spec(*v),
    {
        match v {
            OscValue::Str(s) => Ok(NameOrIndex::Name(s.clone())),
            OscValue::Int(i) => Ok(NameOrIndex::Index(*i as u32)),
            _ => Err(InvalidNameOrIndexError),
        }
    }

    /// Encode this port reference as one wire argument.
    pub fn to_osc(self) -> (r: OscValue)
        ensures
            r == nio_value_spec(self),
    {
        match self {
            NameOrIndex::Name(s) => OscValue::Str(s),
            NameOrIndex::Index(i) => OscValue::Int(#[verifier::truncate] (i as i32)),
        }
    }
}

/// The address under which an operation travels.
pub open spec fn encode_addr_spec(op: GraphOp) -> Seq<char> {
    match op {
        GraphOp::Play => "/play"@,
        GraphOp::Stop => "/stop"@,
        GraphOp::AddConstantF32(_) => "/add_constant_f32"@,
        GraphOp::AddConstantBool(_) => "/add_constant_bool"@,
        GraphOp::AddConstantString(_) => "/add_constant_string"@,
        GraphOp::AddToMix { .. } => "/add_to_mix"@,
        GraphOp::AddProcessor { .. } => "/add_processor"@,
        GraphOp::Connect { .. } => "/connect"@,
        GraphOp::ReplaceNode { .. } => "/replace_node"@,
    }
}

/// The ordered argument list under which an operation travels.
pub open spec fn encode_args_spec(op: GraphOp) -> Seq<OscValue> {
    match op {
        GraphOp::Play => Seq::empty(),
        GraphOp::Stop => Seq::empty(),
        GraphOp::AddConstantF32(bits) => seq![OscValue::Float(bits)],
        GraphOp::AddConstantBool(b) => seq![OscValue::Bool(b)],
        GraphOp::AddConstantString(s) => seq![OscValue::Str(s)],
        GraphOp::AddToMix { mixer_channel, source, source_output } => seq![
            OscValue::Int(mixer_channel as i32),
            OscValue::Int(source as i32),
            nio_value_spec(source_output),
        ],
        GraphOp::AddProcessor { name } => seq![OscValue::Str(name)],
        GraphOp::Connect { source, source_output, target, target_input } => seq![
            OscValue::Int(source as i32),
            nio_value_spec(source_output),
            OscValue::Int(target as i32),
            nio_value_spec(target_input),
        ],
        GraphOp::ReplaceNode { replaced, replacement } => seq![
            OscValue::Int(replaced as i32),
            OscValue::Int(replacement as i32),
        ],
    }
}

/// True when `p` is the one wire message an operation encodes to: no
/// operation produces more than one message.
pub open spec fn is_op_encoding(p: Packet, op: GraphOp) -> bool {
    p matches Packet::Message(m) && m.addr@ == encode_addr_spec(op) && m.args@
        == encode_args_spec(op)
}

/// What one wire message means as an operation: exactly one operation per
/// recognized address, fixed arity, fixed argument types; an unrecognized
/// address is reported with the address, a shape mismatch as an
/// argument-shape error.
pub open spec fn parse_message_spec(m: Message) -> Result<GraphOp, InvalidGraphOpError> {
    let addr = m.addr@;
    let args = m.args@;
    if addr == "/play"@ {
        if args.len() == 0 {
            Ok(GraphOp::Play)
        } else {
            Err(InvalidGraphOpError::ArgumentShape)
        }
    } else if addr == "/stop"@ {
        if args.len() == 0 {
            Ok(GraphOp::Stop)
        } else {
            Err(InvalidGraphOpError::ArgumentShape)
        }
    } else if addr == "/add_constant_f32"@ {
        if args.len() == 1 {
            match args[0] {
                OscValue::Float(bits) => Ok(GraphOp::AddConstantF32(bits)),
                _ => Err(InvalidGraphOpError::ArgumentShape),
            }
        } else {
            Err(InvalidGraphOpError::ArgumentShape)
        }
    } else if addr == "/add_constant_bool"@ {
        if args.len() == 1 {
            match args[0] {
                OscValue::Bool(b) => Ok(GraphOp::AddConstantBool(b)),
                _ => Err(InvalidGraphOpError::ArgumentShape),
            }
        } else {
            Err(InvalidGraphOpError::ArgumentShape)
        }
    } else if addr == "/add_constant_string"@ {
        if args.len() == 1 {
            match args[0] {
                OscValue::Str(s) => Ok(GraphOp::AddConstantString(s)),
                _ => Err(InvalidGraphOpError::ArgumentShape),
            }
        } else {
            Err(InvalidGraphOpError::ArgumentShape)
        }
    } else if addr == "/add_processor"@ {
        if args.len() == 1 {
            match args[0] {
                OscValue::Str(s) => Ok(GraphOp::AddProcessor { name: s }),
                _ => Err(InvalidGraphOpError::ArgumentShape),
            }
        } else {
            Err(InvalidGraphOpError::ArgumentShape)
        }
    } else if addr == "/add_to_mix"@ {
        if args.len() == 3 {
            match (args[0], args[1], name_or_index_spec(args[2])) {
                (OscValue::Int(c), OscValue::Int(s), Ok(out)) => Ok(
                    GraphOp::AddToMix {
                        mixer_channel: c as u32,
                        source: s as u32,
                        source_output: out,
                    },
                ),
                _ => Err(InvalidGraphOpError::ArgumentShape),
            }
        } else {
            Err(InvalidGraphOpError::ArgumentShape)
        }
    } else if addr == "/connect"@ {
        if args.len() == 4 {
            match (args[0], name_or_index_spec(args[1]), args[2], name_or_index_spec(args[3])) {
                (OscValue::Int(s), Ok(so), OscValue::Int(t), Ok(ti)) => Ok(
                    GraphOp::Connect {
                        source: s as u32,
                        source_output: so,
                        target: t as u32,
                        target_input: ti,
                    },
                ),
                _ => Err(InvalidGraphOpError::ArgumentShape),
            }
        } else {
            Err(InvalidGraphOpError::ArgumentShape)
        }
    } else if addr == "/replace_node"@ {
        if args.len() == 2 {
            match (args[0], args[1]) {
                (OscValue::Int(a), OscValue::Int(b)) => Ok(
                    GraphOp::ReplaceNode { replaced: a as u32, replacement: b as u32 },
                ),
                _ => Err(InvalidGraphOpError::ArgumentShape),
            }
        } else {
            Err(InvalidGraphOpError::ArgumentShape)
        }
    } else {
        Err(InvalidGraphOpError::UnknownOperation(m.addr))
    }
}

/// What a whole packet means: the depth-first flattening of its leaf
/// messages into an ordered operation sequence; the first malformed leaf
/// rejects the whole packet.
pub open spec fn parse_packet_spec(p: Packet) -> Result<Seq<GraphOp>, InvalidGraphOpError>
    decreases p,
{
    match p {
        Packet::Message(m) => match parse_message_spec(m) {
            Ok(op) => Ok(seq![op]),
            Err(e) => Err(e),
        },
        Packet::Bundle(content) => parse_seq_spec(content@),
    }
}

/// Depth-first, order-preserving parse of a sequence of nested packets.
pub open spec fn parse_seq_spec(ps: Seq<Packet>) -> Result<Seq<GraphOp>, InvalidGraphOpError>
    decreases ps,
{
    if ps.len() == 0 {
        Ok(Seq::empty())
    } else {
        match parse_packet_spec(ps[0]) {
            Ok(head) => match parse_seq_spec(ps.drop_first()) {
                Ok(tail) => Ok(head + tail),
                Err(e) => Err(e),
            },
            Err(e) => Err(e),
        }
    }
}

/// Decode one wire message as an operation.
fn parse_op_message(m: &Message) -> (r: Result<GraphOp, InvalidGraphOpError>)
    ensures
        r == parse_message_spec(*m),
{
    let args = &m.args;
    if crate::osc::addr_is(m, "/play") {
        if args.len() == 0 {
            Ok(GraphOp::Play)
        } else {
            Err(InvalidGraphOpError::ArgumentShape)
        }
    } else if crate::osc::addr_is(m, "/stop") {
        if args.len() == 0 {
            Ok(GraphOp::Stop)
        } else {
            Err(InvalidGraphOpError::ArgumentShape)
        }
    } else if crate::osc::addr_is(m, "/add_constant_f32") {
        if args.len() == 1 {
            match &args[0] {
                OscValue::Float(bits) => Ok(GraphOp::AddConstantF32(*bits)),
                _ => Err(InvalidGraphOpError::ArgumentShape),
            }
        } else {
            Err(InvalidGraphOpError::ArgumentShape)
        }
    } else if crate::osc::addr_is(m, "/add_constant_bool") {
        if args.len() == 1 {
            match &args[0] {
                OscValue::Bool(b) => Ok(GraphOp::AddConstantBool(*b)),
                _ => Err(InvalidGraphOpError::ArgumentShape),
            }
        } else {
            Err(InvalidGraphOpError::ArgumentShape)
        }
    } else if crate::osc::addr_is(m, "/add_constant_string") {
        if args.len() == 1 {
            match &args[0] {
                OscValue::Str(s) => Ok(GraphOp::AddConstantString(s.clone())),
                _ => Err(InvalidGraphOpError::ArgumentShape),
            }
        } else {
            Err(InvalidGraphOpError::ArgumentShape)
        }
    } else if crate::osc::addr_is(m, "/add_processor") {
        if args.len() == 1 {
            match &args[0] {
                OscValue::Str(s) => Ok(GraphOp::AddProcessor { name: s.clone() }),
                _ => Err(InvalidGraphOpError::ArgumentShape),
            }
        } else {
            Err(InvalidGraphOpError::ArgumentShape)
        }
    } else if crate::osc::addr_is(m, "/add_to_mix") {
        if args.len() == 3 {
            match (&args[0], &args[1], NameOrIndex::try_from(&args[2])) {
                (OscValue::Int(c), OscValue::Int(s), Ok(out)) => Ok(
                    GraphOp::AddToMix {
                        mixer_channel: *c as u32,
                        source: *s as u32,
                        source_output: out,
                    },
                ),
                _ => Err(InvalidGraphOpError::ArgumentShape),
            }
        } else {
            Err(InvalidGraphOpError::ArgumentShape)
        }
    } else if crate::osc::addr_is(m, "/connect") {
        if args.len() == 4 {
            match (
                &args[0],
                NameOrIndex::try_from(&args[1]),
                &args[2],
                NameOrIndex::try_from(&args[3]),
            ) {
                (OscValue::Int(s), Ok(so), OscValue::Int(t), Ok(ti)) => Ok(
                    GraphOp::Connect {
                        source: *s as u32,
                        source_output: so,
                        target: *t as u32,
                        target_input: ti,
                    },
                ),
                _ => Err(InvalidGraphOpError::ArgumentShape),
            }
        } else {
            Err(InvalidGraphOpError::ArgumentShape)
        }
    } else if crate::osc::addr_is(m, "/replace_node") {
        if args.len() == 2 {
            match (&args[0], &args[1]) {
                (OscValue::Int(a), OscValue::Int(b)) => Ok(
                    GraphOp::ReplaceNode { replaced: *a as u32, replacement: *b as u32 },
                ),
                _ => Err(InvalidGraphOpError::ArgumentShape),
            }
        } else {
            Err(InvalidGraphOpError::ArgumentShape)
        }
    } else {
        Err(InvalidGraphOpError::UnknownOperation(m.addr.clone()))
    }
}

/// One-argument wire list.
fn args1(a: OscValue) -> (r: Vec<OscValue>)
    ensures
        r@ == seq![a],
{
    let mut v: Vec<OscValue> = Vec::new();
    v.push(a);
    proof {
        assert(v@ =~= seq![a]);
    }
    v
}

/// Two-argument wire list.
fn args2(a: OscValue, b: OscValue) -> (r: Vec<OscValue>)
    ensures
        r@ == seq![a, b],
{
    let mut v: Vec<OscValue> = Vec::new();
    v.push(a);
    v.push(b);
    proof {
        assert(v@ =~= seq![a, b]);
    }
    v
}

/// Three-argument wire list.
fn args3(a: OscValue, b: OscValue, c: OscValue) -> (r: Vec<OscValue>)
    ensures
        r@ == seq![a, b, c],
{
    let mut v: Vec<OscValue> = Vec::new();
    v.push(a);
    v.push(b);
    v.push(c);
    proof {
        assert(v@ =~= seq![a, b, c]);
    }
    v
}

/// Four-argument wire list.
fn args4(a: OscValue, b: OscValue, c: OscValue, d: OscValue) -> (r: Vec<OscValue>)
    ensures
        r@ == seq![a, b, c, d],
{
    let mut v: Vec<OscValue> = Vec::new();
    v.push(a);
    v.push(b);
    v.push(c);
    v.push(d);
    proof {
        assert(v@ =~= seq![a, b, c, d]);
    }
    v
}

impl GraphOp {
    /// Decode a whole packet into its ordered operation sequence,
    /// flattening bundles depth-first; the first malformed leaf rejects
    /// the whole packet.
    pub fn try_from_osc(packet: &Packet) -> (r: Result<Vec<GraphOp>, InvalidGraphOpError>)
        ensures
            r matches Ok(v) ==> parse_packet_spec(*packet) == Ok::<
                Seq<GraphOp>,
                InvalidGraphOpError,
            >(v@),
            r matches Err(e) ==> parse_packet_spec(*packet) == Err::<
                Seq<GraphOp>,
                InvalidGraphOpError,
            >(e),
        decreases *packet,
    {
        match packet {
            Packet::Message(m) => match parse_op_message(m) {
                Ok(op) => {
                    let mut ops: Vec<GraphOp> = Vec::new();
                    ops.push(op);
                    proof {
                        assert(ops@ =~= seq![op]);
                    }
                    Ok(ops)
                },
                Err(e) => Err(e),
            },
            Packet::Bundle(content) => {
                let mut ops: Vec<GraphOp> = Vec::new();
                let mut i: usize = 0;
                proof {
                    assert(content@.skip(0) =~= content@);
                }
                while i < content.len()
                    invariant
                        i <= content.len(),
                        *packet == Packet::Bundle(*content),
                        parse_seq_spec(content@) == (match parse_seq_spec(
                            content@.skip(i as int),
                        ) {
                            Ok(tail) => Ok::<Seq<GraphOp>, InvalidGraphOpError>(ops@ + tail),
                            Err(e) => Err::<Seq<GraphOp>, InvalidGraphOpError>(e),
                        }),
                    decreases content.len() - i,
                {
                    proof {
                        assert(decreases_to!(*packet => content@[i as int]));
                        assert(content@.skip(i as int)[0] == content@[i as int]);
                        assert(content@.skip(i as int).drop_first() =~= content@.skip(
                            i as int + 1,
                        ));
                    }
                    let mut sub = match GraphOp::try_from_osc(&content[i]) {
                        Ok(v) => v,
                        Err(e) => {
                            return Err(e);
                        },
                    };
                    proof {
                        match parse_seq_spec(content@.skip(i as int + 1)) {
                            Ok(tail) => {
                                assert((ops@ + sub@) + tail =~= ops@ + (sub@ + tail));
                            },
                            Err(_) => {},
                        }
                    }
                    ops.append(&mut sub);
                    i += 1;
                }
                proof {
                    assert(content@.skip(content.len() as int) =~= Seq::<Packet>::empty());
                    assert(ops@ + Seq::<GraphOp>::empty() =~= ops@);
                }
                Ok(ops)
            },
        }
    }

    /// Encode this operation as its one wire message.
    pub fn to_osc_message(self) -> (m: Message)
        ensures
            m.addr@ == encode_addr_spec(self),
            m.args@ == encode_args_spec(self),
    {
        match self {
            GraphOp::Play => (Message { addr: "/play".to_owned(), args: Vec::new() }),
            GraphOp::Stop => (Message { addr: "/stop".to_owned(), args: Vec::new() }),
            GraphOp::AddConstantF32(bits) => (Message { addr: "/add_constant_f32".to_owned(), args: args1(OscValue::Float(bits)) }),
            GraphOp::AddConstantBool(b) => (Message { addr: "/add_constant_bool".to_owned(), args: args1(OscValue::Bool(b)) }),
            GraphOp::AddConstantString(s) => (Message { addr: "/add_constant_string".to_owned(), args: args1(OscValue::Str(s)) }),
            GraphOp::AddToMix { mixer_channel, source, source_output } => (Message {
                    addr: "/add_to_mix".to_owned(),
                    args: args3(
                        OscValue::Int(#[verifier::truncate] (mixer_channel as i32)),
                        OscValue::Int(#[verifier::truncate] (source as i32)),
                        source_output.to_osc(),
                    ),
                }),
            GraphOp::AddProcessor { name } => (Message { addr: "/add_processor".to_owned(), args: args1(OscValue::Str(name)) }),
            GraphOp::Connect { source, source_output, target, target_input } => (Message {
                    addr: "/connect".to_owned(),
                    args: args4(
                        OscValue::Int(#[verifier::truncate] (source as i32)),
                        source_output.to_osc(),
                        OscValue::Int(#[verifier::truncate] (target as i32)),
                        target_input.to_osc(),
                    ),
                }),
            GraphOp::ReplaceNode { replaced, replacement } => (Message {
                    addr: "/replace_node".to_owned(),
                    args: args2(
                        OscValue::Int(#[verifier::truncate] (replaced as i32)),
                        OscValue::Int(#[verifier::truncate] (replacement as i32)),
                    ),
                }),
        }
    }

    /// Encode this operation as its one wire packet: no operation
    /// produces more than one message.
    pub fn to_osc(self) -> (p: Packet)
        ensures
            is_op_encoding(p, self),
    {
        Packet::Message(self.to_osc_message())
    }
}

/// The address under which a result travels: exactly one of two response
/// addresses.
pub open spec fn resp_addr_spec(r: GraphOpResponse) -> Seq<char> {
    match r {
        GraphOpResponse::NodeIndex(_) => "/response/node_index"@,
        GraphOpResponse::Empty => "/response/none"@,
    }
}

/// The ordered argument list under which a result travels.
pub open spec fn resp_args_spec(r: GraphOpResponse) -> Seq<OscValue> {
    match r {
        GraphOpResponse::NodeIndex(i) => seq![OscValue::Int(i as i32)],
        GraphOpResponse::Empty => Seq::empty(),
    }
}

/// True when `p` is the one wire message a result encodes to.
pub open spec fn is_response_encoding(p: Packet, r: GraphOpResponse) -> bool {
    p matches Packet::Message(m) && m.addr@ == resp_addr_spec(r) && m.args@ == resp_args_spec(r)
}

/// What one wire message means as a result.
pub open spec fn parse_response_message_spec(m: Message) -> Result<
    GraphOpResponse,
    InvalidGraphOpResponseError,
> {
    let addr = m.addr@;
    let args = m.args@;
    if addr == "/response/node_index"@ {
        if args.len() == 1 {
            match args[0] {
                OscValue::Int(i) => Ok(GraphOpResponse::NodeIndex(i as u32)),
                _ => Err(InvalidGraphOpResponseError::ArgumentShape),
            }
        } else {
            Err(InvalidGraphOpResponseError::ArgumentShape)
        }
    } else if addr == "/response/none"@ {
        if args.len() == 0 {
            Ok(GraphOpResponse::Empty)
        } else {
            Err(InvalidGraphOpResponseError::ArgumentShape)
        }
    } else {
        Err(InvalidGraphOpResponseError::UnknownResponse(m.addr))
    }
}

/// What a whole packet means as results: depth-first flattening; the
/// first malformed leaf rejects the whole packet.
pub open spec fn parse_response_packet_spec(p: Packet) -> Result<
    Seq<GraphOpResponse>,
    InvalidGraphOpResponseError,
>
    decreases p,
{
    match p {
        Packet::Message(m) => match parse_response_message_spec(m) {
            Ok(r) => Ok(seq![r]),
            Err(e) => Err(e),
        },
        Packet::Bundle(content) => parse_response_seq_spec(content@),
    }
}

/// Depth-first, order-preserving parse of a sequence of nested packets.
pub open spec fn parse_response_seq_spec(ps: Seq<Packet>) -> Result<
    Seq<GraphOpResponse>,
    InvalidGraphOpResponseError,
>
    decreases ps,
{
    if ps.len() == 0 {
        Ok(Seq::empty())
    } else {
        match parse_response_packet_spec(ps[0]) {
            Ok(head) => match parse_response_seq_spec(ps.drop_first()) {
                Ok(tail) => Ok(head + tail),
                Err(e) => Err(e),
            },
            Err(e) => Err(e),
        }
    }
}

/// Decode one wire message as a result.
fn parse_response_message(m: &Message) -> (r: Result<GraphOpResponse, InvalidGraphOpResponseError>)
    ensures
        r == parse_response_message_spec(*m),
{
    let args = &m.args;
    if crate::osc::addr_is(m, "/response/node_index") {
        if args.len() == 1 {
            match &args[0] {
                OscValue::Int(i) => Ok(GraphOpResponse::NodeIndex(*i as u32)),
                _ => Err(InvalidGraphOpResponseError::ArgumentShape),
            }
        } else {
            Err(InvalidGraphOpResponseError::ArgumentShape)
        }
    } else if crate::osc::addr_is(m, "/response/none") {
        if args.len() == 0 {
            Ok(GraphOpResponse::Empty)
        } else {
            Err(InvalidGraphOpResponseError::ArgumentShape)
        }
    } else {
        Err(InvalidGraphOpResponseError::UnknownResponse(m.addr.clone()))
    }
}

impl GraphOpResponse {
    /// The handle a node-creating or node-returning result carries.
    pub fn as_node_index(&self) -> (r: Option<u32>)
        ensures
            r == (match *self {
                GraphOpResponse::NodeIndex(i) => Some(i),
                GraphOpResponse::Empty => None::<u32>,
            }),
    {
        match self {
            GraphOpResponse::NodeIndex(i) => Some(*i),
            GraphOpResponse::Empty => None,
        }
    }

    /// Encode this result as its one wire message.
    pub fn to_osc_message(self) -> (m: Message)
        ensures
            m.addr@ == resp_addr_spec(self),
            m.args@ == resp_args_spec(self),
    {
        match self {
            GraphOpResponse::NodeIndex(i) => Message {
                addr: "/response/node_index".to_owned(),
                args: args1(OscValue::Int(#[verifier::truncate] (i as i32))),
            },
            GraphOpResponse::Empty => Message {
                addr: "/response/none".to_owned(),
                args: Vec::new(),
            },
        }
    }

    /// Encode this result as its one wire packet.
    pub fn to_osc(self) -> (p: Packet)
        ensures
            is_response_encoding(p, self),
    {
        Packet::Message(self.to_osc_message())
    }

    /// Decode a whole packet into its ordered result sequence, flattening
    /// bundles depth-first; the first malformed leaf rejects the whole
    /// packet.
    pub fn try_from_osc(packet: &Packet) -> (r: Result<
        Vec<GraphOpResponse>,
        InvalidGraphOpResponseError,
    >)
        ensures
            r matches Ok(v) ==> parse_response_packet_spec(*packet) == Ok::<
                Seq<GraphOpResponse>,
                InvalidGraphOpResponseError,
            >(v@),
            r matches Err(e) ==> parse_response_packet_spec(*packet) == Err::<
                Seq<GraphOpResponse>,
                InvalidGraphOpResponseError,
            >(e),
        decreases *packet,
    {
        match packet {
            Packet::Message(m) => match parse_response_message(m) {
                Ok(resp) => {
                    let mut resps: Vec<GraphOpResponse> = Vec::new();
                    resps.push(resp);
                    proof {
                        assert(resps@ =~= seq![resp]);
                    }
                    Ok(resps)
                },
                Err(e) => Err(e),
            },
            Packet::Bundle(content) => {
                let mut resps: Vec<GraphOpResponse> = Vec::new();
                let mut i: usize = 0;
                proof {
                    assert(content@.skip(0) =~= content@);
                }
                while i < content.len()
                    invariant
                        i <= content.len(),
                        *packet == Packet::Bundle(*content),
                        parse_response_seq_spec(content@) == (match parse_response_seq_spec(
                            content@.skip(i as int),
                        ) {
                            Ok(tail) => Ok::<Seq<GraphOpResponse>, InvalidGraphOpResponseError>(
                                resps@ + tail,
                            ),
                            Err(e) => Err::<Seq<GraphOpResponse>, InvalidGraphOpResponseError>(e),
                        }),
                    decreases content.len() - i,
                {
                    proof {
                        assert(decreases_to!(*packet => content@[i as int]));
                        assert(content@.skip(i as int)[0] == content@[i as int]);
                        assert(content@.skip(i as int).drop_first() =~= content@.skip(
                            i as int + 1,
                        ));
                    }
                    let mut sub = match GraphOpResponse::try_from_osc(&content[i]) {
                        Ok(v) => v,
                        Err(e) => {
                            return Err(e);
                        },
                    };
                    proof {
                        match parse_response_seq_spec(content@.skip(i as int + 1)) {
                            Ok(tail) => {
                                assert((resps@ + sub@) + tail =~= resps@ + (sub@ + tail));
                            },
                            Err(_) => {},
                        }
                    }
                    resps.append(&mut sub);
                    i += 1;
                }
                proof {
                    assert(content@.skip(content.len() as int) =~= Seq::<Packet>::empty());
                    assert(resps@ + Seq::<GraphOpResponse>::empty() =~= resps@);
                }
                Ok(resps)
            },
        }
    }
}

/// Law: decoding the encoding of any operation yields exactly that
/// operation, as a single message and as a one-message packet.
#[verifier::rlimit(80)]
pub proof fn lemma_op_round_trip(op: GraphOp, m: Message)
    requires
        m.addr@ == encode_addr_spec(op),
        m.args@ == encode_args_spec(op),
    ensures
        parse_message_spec(m) == Ok::<GraphOp, InvalidGraphOpError>(op),
        parse_packet_spec(Packet::Message(m)) == Ok::<Seq<GraphOp>, InvalidGraphOpError>(seq![op]),
{
    reveal_strlit("/play");
    reveal_strlit("/stop");
    reveal_strlit("/add_constant_f32");
    reveal_strlit("/add_constant_bool");
    reveal_strlit("/add_constant_string");
    reveal_strlit("/add_processor");
    reveal_strlit("/add_to_mix");
    reveal_strlit("/connect");
    reveal_strlit("/replace_node");
    match op {
        GraphOp::Play => {
            assert(m.addr@ == "/play"@);
            assert(m.addr@.len() == 5);
            assert(m.args@.len() == 0);
            assert(parse_message_spec(m) == Ok::<GraphOp, InvalidGraphOpError>(op));
        },
        GraphOp::Stop => {
            assert(m.addr@ == "/stop"@);
            assert(m.addr@.len() == 5);
            assert("/play"@.len() == 5);
            assert("/play"@[1] != "/stop"@[1]);
            assert(m.args@.len() == 0);
            assert(parse_message_spec(m) == Ok::<GraphOp, InvalidGraphOpError>(op));
        },
        GraphOp::AddConstantF32(bits) => {
            assert(m.addr@ == "/add_constant_f32"@);
            assert(m.addr@.len() == 17);
            assert("/play"@.len() == 5);
            assert("/stop"@.len() == 5);
            assert(m.args@[0] == OscValue::Float(bits));
            assert(parse_message_spec(m) == Ok::<GraphOp, InvalidGraphOpError>(op));
        },
        GraphOp::AddConstantBool(b) => {
            assert(m.addr@ == "/add_constant_bool"@);
            assert(m.addr@.len() == 18);
            assert("/play"@.len() == 5);
            assert("/stop"@.len() == 5);
            assert("/add_constant_f32"@.len() == 17);
            assert(m.args@[0] == OscValue::Bool(b));
            assert(parse_message_spec(m) == Ok::<GraphOp, InvalidGraphOpError>(op));
        },
        GraphOp::AddConstantString(s) => {
            assert(m.addr@ == "/add_constant_string"@);
            assert(m.addr@.len() == 20);
            assert("/play"@.len() == 5);
            assert("/stop"@.len() == 5);
            assert("/add_constant_f32"@.len() == 17);
            assert("/add_constant_bool"@.len() == 18);
            assert(m.args@[0] == OscValue::Str(s));
            assert(parse_message_spec(m) == Ok::<GraphOp, InvalidGraphOpError>(op));
        },
        GraphOp::AddProcessor { name } => {
            assert(m.addr@ == "/add_processor"@);
            assert(m.addr@.len() == 14);
            assert("/play"@.len() == 5);
            assert("/stop"@.len() == 5);
            assert("/add_constant_f32"@.len() == 17);
            assert("/add_constant_bool"@.len() == 18);
            assert("/add_constant_string"@.len() == 20);
            assert(m.args@[0] == OscValue::Str(name));
            assert(parse_message_spec(m) == Ok::<GraphOp, InvalidGraphOpError>(op));
        },
        GraphOp::AddToMix { mixer_channel, source, source_output } => {
            assert(mixer_channel as i32 as u32 == mixer_channel) by (bit_vector);
            assert(source as i32 as u32 == source) by (bit_vector);
            lemma_nio_round_trip(source_output);
            assert(m.addr@ == "/add_to_mix"@);
            assert(m.addr@.len() == 11);
            assert("/play"@.len() == 5);
            assert("/stop"@.len() == 5);
            assert("/add_constant_f32"@.len() == 17);
            assert("/add_constant_bool"@.len() == 18);
            assert("/add_constant_string"@.len() == 20);
            assert("/add_processor"@.len() == 14);
            assert(m.args@[0] == OscValue::Int(mixer_channel as i32));
            assert(m.args@[1] == OscValue::Int(source as i32));
            assert(m.args@[2] == nio_value_spec(source_output));
            assert(parse_message_spec(m) == Ok::<GraphOp, InvalidGraphOpError>(op));
        },
        GraphOp::Connect { source, source_output, target, target_input } => {
            assert(source as i32 as u32 == source) by (bit_vector);
            assert(target as i32 as u32 == target) by (bit_vector);
            lemma_nio_round_trip(source_output);
            lemma_nio_round_trip(target_input);
            assert(m.addr@ == "/connect"@);
            assert(m.addr@.len() == 8);
            assert("/play"@.len() == 5);
            assert("/stop"@.len() == 5);
            assert("/add_constant_f32"@.len() == 17);
            assert("/add_constant_bool"@.len() == 18);
            assert("/add_constant_string"@.len() == 20);
            assert("/add_processor"@.len() == 14);
            assert("/add_to_mix"@.len() == 11);
            assert(m.args@[0] == OscValue::Int(source as i32));
            assert(m.args@[1] == nio_value_spec(source_output));
            assert(m.args@[2] == OscValue::Int(target as i32));
            assert(m.args@[3] == nio_value_spec(target_input));
            assert(parse_message_spec(m) == Ok::<GraphOp, InvalidGraphOpError>(op));
        },
        GraphOp::ReplaceNode { replaced, replacement } => {
            assert(replaced as i32 as u32 == replaced) by (bit_vector);
            assert(replacement as i32 as u32 == replacement) by (bit_vector);
            assert(m.addr@ == "/replace_node"@);
            assert(m.addr@.len() == 13);
            assert("/play"@.len() == 5);
            assert("/stop"@.len() == 5);
            assert("/add_constant_f32"@.len() == 17);
            assert("/add_constant_bool"@.len() == 18);
            assert("/add_constant_string"@.len() == 20);
            assert("/add_processor"@.len() == 14);
            assert("/add_to_mix"@.len() == 11);
            assert("/connect"@.len() == 8);
            assert(m.args@[0] == OscValue::Int(replaced as i32));
            assert(m.args@[1] == OscValue::Int(replacement as i32));
            assert(parse_message_spec(m) == Ok::<GraphOp, InvalidGraphOpError>(op));
        },
    }
}

/// Law: a port reference survives its trip through one wire argument.
pub proof fn lemma_nio_round_trip(r: NameOrIndex)
    ensures
        name_or_index_spec(nio_value_spec(r)) == Ok::<NameOrIndex, InvalidNameOrIndexError>(r),
{
    match r {
        NameOrIndex::Index(i) => {
            assert(i as i32 as u32 == i) by (bit_vector);
        },
        NameOrIndex::Name(_) => {},
    }
}

/// Law: decoding the encoding of any result yields exactly that result,
/// as a single message and as a one-message packet.
pub proof fn lemma_response_round_trip(r: GraphOpResponse, m: Message)
    requires
        m.addr@ == resp_addr_spec(r),
        m.args@ == resp_args_spec(r),
    ensures
        parse_response_message_spec(m) == Ok::<GraphOpResponse, InvalidGraphOpResponseError>(r),
        parse_response_packet_spec(Packet::Message(m)) == Ok::<
            Seq<GraphOpResponse>,
            InvalidGraphOpResponseError,
        >(seq![r]),
{
    reveal_strlit("/response/node_index");
    reveal_strlit("/response/none");
    match r {
        GraphOpResponse::NodeIndex(i) => {
            assert(i as i32 as u32 == i) by (bit_vector);
            assert(m.addr@ == "/response/node_index"@);
            assert(m.args@.len() == 1);
            assert(m.args@[0] == OscValue::Int(i as i32));
            assert(parse_response_message_spec(m) == Ok::<
                GraphOpResponse,
                InvalidGraphOpResponseError,
            >(GraphOpResponse::NodeIndex(i as i32 as u32)));
        },
        GraphOpResponse::Empty => {
            assert(m.addr@ == "/response/none"@);
            assert(m.addr@ != "/response/node_index"@);
            assert(m.args@.len() == 0);
        },
    }
}

} // verus!
