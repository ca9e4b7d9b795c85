use vstd::prelude::*;
use std::sync::Arc;
use crate::error::CustomError;
use crate::sql::{names_view, copy_names};

verus! {

/// The logical operation of a node.
#[derive(Debug, Clone, Copy, PartialEq, Eq, Structural)]
pub enum OpType {
    Nop,
    Rename,
    Reorder,
    Project,
    Select,
    SetOp,
    Join,
    Agg,
}

#[derive(Debug, Clone, Copy, PartialEq, Eq, Structural)]
pub enum SetOpType {
    Union,
    Difference,
    Product,
}

#[derive(Debug, Clone, Copy, PartialEq, Eq, Structural)]
pub enum JoinOpType {
    Natural,
    Theta,
    Equi,
    Anti,
    Division,
    LeftOuter,
    RightOuter,
    FullOuter,
}

#[derive(Debug, Clone, Copy, PartialEq, Eq, Structural)]
pub enum AggOpType {
    Sum,
    Count,
    Average,
    Maximum,
    Minimum,
}

/// Where a leaf reads its rows from; `Ram` names a relation of the row cache.
#[derive(Debug)]
pub enum IoType {
    Ram(String),
    Disk,
    Network,
    Generator,
}

/// The personality of a node: inert, a source of rows, or an operator.
#[derive(Debug)]
pub enum NodeType {
    Nop,
    Leaf(IoType),
    Op(OpType),
}

/// The inputs of a node.
#[derive(Debug)]
pub enum NodeInput {
    Empty,
    Single(Arc<HyperNode>),
    Double(Arc<HyperNode>, Arc<HyperNode>),
    Leaf,
}

/// How many inputs a node has, and whether it is a source.
#[derive(Debug, Clone, Copy, PartialEq, Eq, Structural)]
pub enum Arity {
    Nothing,
    Source,
    One,
    Two,
}

/// The input shape that a personality calls for.
pub open spec fn required_arity(p: NodeType) -> Arity {
    match p {
        NodeType::Nop => Arity::Nothing,
        NodeType::Leaf(_) => Arity::Source,
        NodeType::Op(OpType::Join) => Arity::Two,
        NodeType::Op(OpType::SetOp) => Arity::Two,
        NodeType::Op(_) => Arity::One,
    }
}

pub open spec fn arity_of_input(i: NodeInput) -> Arity {
    match i {
        NodeInput::Empty => Arity::Nothing,
        NodeInput::Leaf => Arity::Source,
        NodeInput::Single(_) => Arity::One,
        NodeInput::Double(_, _) => Arity::Two,
    }
}

impl Clone for IoType {
    fn clone(&self) -> (r: Self)
        ensures
            r == *self,
    {
        match self {
            IoType::Ram(name) => IoType::Ram(name.clone()),
            IoType::Disk => IoType::Disk,
            IoType::Network => IoType::Network,
            IoType::Generator => IoType::Generator,
        }
    }
}

impl Clone for NodeType {
    fn clone(&self) -> (r: Self)
        ensures
            r == *self,
    {
        match self {
            NodeType::Nop => NodeType::Nop,
            NodeType::Leaf(io) => NodeType::Leaf(io.clone()),
            NodeType::Op(op) => NodeType::Op(*op),
        }
    }
}

impl Clone for NodeInput {
    fn clone(&self) -> (r: Self)
        ensures
            r == *self,
    {
        match self {
            NodeInput::Empty => NodeInput::Empty,
            NodeInput::Single(c) => NodeInput::Single(Arc::clone(c)),
            NodeInput::Double(l, r) => NodeInput::Double(Arc::clone(l), Arc::clone(r)),
            NodeInput::Leaf => NodeInput::Leaf,
        }
    }
}

impl NodeType {
    pub fn arity(&self) -> (r: Arity)
        ensures
            r == required_arity(*self),
    {
        match self {
            NodeType::Nop => Arity::Nothing,
            NodeType::Leaf(_) => Arity::Source,
            NodeType::Op(OpType::Join) => Arity::Two,
            NodeType::Op(OpType::SetOp) => Arity::Two,
            NodeType::Op(_) => Arity::One,
        }
    }
}

impl NodeInput {
    pub fn arity(&self) -> (r: Arity)
        ensures
            r == arity_of_input(*self),
    {
        match self {
            NodeInput::Empty => Arity::Nothing,
            NodeInput::Leaf => Arity::Source,
            NodeInput::Single(_) => Arity::One,
            NodeInput::Double(_, _) => Arity::Two,
        }
    }
}

/// A node's shape and personality; the shape always fits the personality.
#[derive(Debug)]
pub struct NodeInfo {
    input: NodeInput,
    personality: NodeType,
}

impl NodeInfo {
    #[verifier::type_invariant]
    spec fn shape_fits(self) -> bool {
        arity_of_input(self.input) == required_arity(self.personality)
    }

    pub closed spec fn spec_input(&self) -> NodeInput {
        self.input
    }

    pub closed spec fn spec_personality(&self) -> NodeType {
        self.personality
    }

    pub fn input(&self) -> (r: NodeInput)
        ensures
            r == self.spec_input(),
    {
        self.input.clone()
    }

    pub fn personality(&self) -> (r: NodeType)
        ensures
            r == self.spec_personality(),
    {
        self.personality.clone()
    }
}

/// A logical node of the graph. Nodes are immutable once built and are
/// shared by reference; a node does not know its parent.
#[derive(Debug)]
pub struct HyperNode {
    name: String,
    columns: Option<Vec<String>>,
    info: Arc<NodeInfo>,
}

impl HyperNode {
    pub closed spec fn spec_name(&self) -> Seq<char> {
        self.name@
    }

    pub closed spec fn spec_columns(&self) -> Option<Seq<Seq<char>>> {
        names_view(self.columns)
    }

    pub closed spec fn spec_info(&self) -> NodeInfo {
        *self.info
    }

    pub open spec fn spec_input(&self) -> NodeInput {
        self.spec_info().spec_input()
    }

    pub open spec fn spec_personality(&self) -> NodeType {
        self.spec_info().spec_personality()
    }

    /// A node with the given shape and personality; fails where the shape
    /// does not fit the personality.
    pub fn new(
        name: String,
        columns: Option<Vec<String>>,
        input: NodeInput,
        personality: NodeType,
    ) -> (r: Result<HyperNode, CustomError>)
        ensures
            match r {
                Ok(node) => {
                    &&& arity_of_input(input) == required_arity(personality)
                    &&& node.spec_name() == name@
                    &&& node.spec_columns() == names_view(columns)
                    &&& node.spec_input() == input
                    &&& node.spec_personality() == personality
                },
                Err(e) => arity_of_input(input) != required_arity(personality)
                    && e.error_status_code == 400,
            },
    {
        if input.arity() != personality.arity() {
            return Err(CustomError::bad_request("Node input does not fit its personality"));
        }
        let info = NodeInfo { input, personality };
        Ok(HyperNode { name, columns, info: Arc::new(info) })
    }

    /// A node whose shape is known to fit its personality.
    pub fn from_parts(
        name: String,
        columns: Option<Vec<String>>,
        input: NodeInput,
        personality: NodeType,
    ) -> (r: HyperNode)
        requires
            arity_of_input(input) == required_arity(personality),
        ensures
            r.spec_name() == name@,
            r.spec_columns() == names_view(columns),
            r.spec_input() == input,
            r.spec_personality() == personality,
    {
        let info = NodeInfo { input, personality };
        HyperNode { name, columns, info: Arc::new(info) }
    }

    pub fn name(&self) -> (r: &String)
        ensures
            r@ == self.spec_name(),
    {
        &self.name
    }

    pub fn columns(&self) -> (r: Option<Vec<String>>)
        ensures
            names_view(r) == self.spec_columns(),
    {
        copy_names(&self.columns)
    }

    pub fn info(&self) -> (r: Arc<NodeInfo>)
        ensures
            *r == self.spec_info(),
    {
        Arc::clone(&self.info)
    }

    pub fn input(&self) -> (r: NodeInput)
        ensures
            r == self.spec_input(),
    {
        self.info.input()
    }

    pub fn personality(&self) -> (r: NodeType)
        ensures
            r == self.spec_personality(),
    {
        self.info.personality()
    }
}

/// The per-query handle on a finalized graph.
#[derive(Debug)]
pub struct RootNode {
    query_id: i64,
    graph: Option<Arc<HyperNode>>,
}

impl RootNode {
    pub closed spec fn spec_query_id(&self) -> i64 {
        self.query_id
    }

    pub closed spec fn spec_graph(&self) -> Option<HyperNode> {
        match self.graph {
            Some(g) => Some(*g),
            None => None,
        }
    }

    /// A root with no graph attached.
    pub fn new(query_id: i64) -> (r: RootNode)
        ensures
            r.spec_query_id() == query_id,
            r.spec_graph() is None,
    {
        RootNode { query_id, graph: None }
    }

    /// A root over a finalized graph.
    pub fn with_graph(query_id: i64, graph: Option<Arc<HyperNode>>) -> (r: RootNode)
        ensures
            r.spec_query_id() == query_id,
            match graph {
                Some(g) => r.spec_graph() == Some(*g),
                None => r.spec_graph() is None,
            },
    {
        RootNode { query_id, graph }
    }

    pub fn query_id(&self) -> (r: i64)
        ensures
            r == self.spec_query_id(),
    {
        self.query_id
    }

    /// The top node of the graph, if one is attached.
    pub fn graph(&self) -> (r: Option<Arc<HyperNode>>)
        ensures
            match r {
                Some(g) => self.spec_graph() == Some(*g),
                None => self.spec_graph() is None,
            },
    {
        match &self.graph {
            Some(g) => Some(Arc::clone(g)),
            None => None,
        }
    }

    /// The input shape of the top node; none without a graph.
    pub fn input(&self) -> (r: NodeInput)
        ensures
            r == match self.spec_graph() {
                Some(g) => g.spec_input(),
                None => NodeInput::Empty,
            },
    {
        match &self.graph {
            Some(g) => g.input(),
            None => NodeInput::Empty,
        }
    }

    /// The personality of the top node; inert without a graph.
    pub fn personality(&self) -> (r: NodeType)
        ensures
            r == match self.spec_graph() {
                Some(g) => g.spec_personality(),
                None => NodeType::Nop,
            },
    {
        match &self.graph {
            Some(g) => g.personality(),
            None => NodeType::Nop,
        }
    }
}

} // verus!
