use vstd::prelude::*;
use vstd::string::StringExecFns;
use std::sync::Arc;
use crate::error::CustomError;
use crate::graph::{
    required_arity, Arity, HyperNode, IoType, NodeInput, NodeType, OpType, RootNode,
};
use crate::sql::{copy_names, names_view, projection_of, validate_select, fields_accepted, SelectStatement, SqlQuery};

verus! {

/// The inputs of a draft node, as indices of earlier drafts of the arena.
#[derive(Debug, Clone, Copy, PartialEq, Eq, Structural)]
pub enum DraftInput {
    Empty,
    Leaf,
    Single(usize),
    Double(usize, usize),
}

/// A node under construction, owned by the builder alone.
#[derive(Debug)]
pub struct DraftNode {
    pub name: String,
    pub columns: Option<Vec<String>>,
    pub input: DraftInput,
    pub personality: NodeType,
}

pub open spec fn arity_of_draft(i: DraftInput) -> Arity {
    match i {
        DraftInput::Empty => Arity::Nothing,
        DraftInput::Leaf => Arity::Source,
        DraftInput::Single(_) => Arity::One,
        DraftInput::Double(_, _) => Arity::Two,
    }
}

impl DraftInput {
    pub fn arity(&self) -> (r: Arity)
        ensures
            r == arity_of_draft(*self),
    {
        match self {
            DraftInput::Empty => Arity::Nothing,
            DraftInput::Leaf => Arity::Source,
            DraftInput::Single(_) => Arity::One,
            DraftInput::Double(_, _) => Arity::Two,
        }
    }
}

/// Draft `k` fits its personality and refers to earlier drafts only.
pub open spec fn draft_wf(drafts: Seq<DraftNode>, k: int) -> bool {
    &&& arity_of_draft(drafts[k].input) == required_arity(drafts[k].personality)
    &&& match drafts[k].input {
        DraftInput::Single(c) => c < k,
        DraftInput::Double(l, r) => l < k && r < k,
        _ => true,
    }
}

pub open spec fn arena_wf(drafts: Seq<DraftNode>) -> bool {
    forall|k: int| 0 <= k < drafts.len() ==> #[trigger] draft_wf(drafts, k)
}

/// `node` is the finalized form of draft `k`: same name, columns and
/// personality, and inputs that are the finalized forms of its children.
pub open spec fn realizes(drafts: Seq<DraftNode>, k: int, node: HyperNode) -> bool
    decreases k,
{
    &&& 0 <= k < drafts.len()
    &&& node.spec_name() == drafts[k].name@
    &&& node.spec_columns() == names_view(drafts[k].columns)
    &&& node.spec_personality() == drafts[k].personality
    &&& match drafts[k].input {
        DraftInput::Empty => node.spec_input() is Empty,
        DraftInput::Leaf => node.spec_input() is Leaf,
        DraftInput::Single(c) => 0 <= c < k && match node.spec_input() {
            NodeInput::Single(a) => realizes(drafts, c as int, *a),
            _ => false,
        },
        DraftInput::Double(l, r) => 0 <= l < k && 0 <= r < k && match node.spec_input() {
            NodeInput::Double(a, b) => realizes(drafts, l as int, *a) && realizes(
                drafts,
                r as int,
                *b,
            ),
            _ => false,
        },
    }
}

/// The three drafts of a linear sub-select over `relation`, appended after
/// `base` earlier drafts: a leaf reading the relation, a projection over it,
/// and a reorder over the projection.
pub open spec fn is_subselect_at(
    drafts: Seq<DraftNode>,
    base: int,
    relation: Seq<char>,
    columns: Option<Seq<Seq<char>>>,
) -> bool {
    &&& drafts.len() == base + 3
    &&& drafts[base].name@ == "select_"@ + relation
    &&& drafts[base].columns is None
    &&& drafts[base].input == DraftInput::Leaf
    &&& drafts[base].personality matches NodeType::Leaf(IoType::Ram(name)) && name@ == relation
    &&& drafts[base + 1].name@ == "project"@
    &&& names_view(drafts[base + 1].columns) == columns
    &&& drafts[base + 1].input == DraftInput::Single(base as usize)
    &&& drafts[base + 1].personality == NodeType::Op(OpType::Project)
    &&& drafts[base + 2].name@ == "reorder"@
    &&& names_view(drafts[base + 2].columns) == columns
    &&& drafts[base + 2].input == DraftInput::Single((base + 1) as usize)
    &&& drafts[base + 2].personality == NodeType::Op(OpType::Reorder)
}

/// The graph of a linear sub-select: a reorder over a projection over a leaf
/// that reads `relation` from the row cache.
pub open spec fn is_select_pipeline(
    g: HyperNode,
    relation: Seq<char>,
    columns: Option<Seq<Seq<char>>>,
) -> bool {
    &&& g.spec_name() == "reorder"@
    &&& g.spec_columns() == columns
    &&& g.spec_personality() == NodeType::Op(OpType::Reorder)
    &&& g.spec_input() matches NodeInput::Single(p) && {
        &&& p.spec_name() == "project"@
        &&& p.spec_columns() == columns
        &&& p.spec_personality() == NodeType::Op(OpType::Project)
        &&& p.spec_input() matches NodeInput::Single(l) && {
            &&& l.spec_name() == "select_"@ + relation
            &&& l.spec_columns() is None
            &&& l.spec_input() is Leaf
            &&& l.spec_personality() matches NodeType::Leaf(IoType::Ram(name)) && name@ == relation
        }
    }
}

/// Finalizing the drafts of a lone sub-select gives its pipeline.
pub proof fn lemma_subselect_realizes_pipeline(
    drafts: Seq<DraftNode>,
    relation: Seq<char>,
    columns: Option<Seq<Seq<char>>>,
    g: HyperNode,
)
    requires
        is_subselect_at(drafts, 0, relation, columns),
        realizes(drafts, 2, g),
    ensures
        is_select_pipeline(g, relation, columns),
{
    let p = *(g.spec_input()->Single_0);
    let l = *(p.spec_input()->Single_0);
    assert(realizes(drafts, 1, p));
    assert(realizes(drafts, 0, l));
}

/// Builds a graph in an arena of drafts, wired by index, and turns the
/// whole arena into the shared immutable graph once, at the end.
#[derive(Debug)]
pub struct GraphBuilder {
    query_id: i64,
    drafts: Vec<DraftNode>,
    top: Option<usize>,
}

impl GraphBuilder {
    pub closed spec fn spec_query_id(&self) -> i64 {
        self.query_id
    }

    pub closed spec fn spec_drafts(&self) -> Seq<DraftNode> {
        self.drafts@
    }

    /// The draft that becomes the top of the graph.
    pub closed spec fn spec_top(&self) -> Option<usize> {
        self.top
    }

    pub open spec fn wf(&self) -> bool {
        &&& arena_wf(self.spec_drafts())
        &&& self.spec_top() matches Some(t) ==> t < self.spec_drafts().len()
    }

    pub fn new(query_id: i64) -> (r: GraphBuilder)
        ensures
            r.wf(),
            r.spec_query_id() == query_id,
            r.spec_drafts().len() == 0,
            r.spec_top() is None,
    {
        GraphBuilder { query_id, drafts: Vec::new(), top: None }
    }

    /// Appends a draft and returns its index; fails where its shape does not
    /// fit its personality or it refers to a draft not yet added.
    pub fn add_draft(&mut self, draft: DraftNode) -> (r: Result<usize, CustomError>)
        requires
            old(self).wf(),
        ensures
            final(self).wf(),
            final(self).spec_query_id() == old(self).spec_query_id(),
            final(self).spec_top() == old(self).spec_top(),
            match r {
                Ok(k) => {
                    &&& k == old(self).spec_drafts().len()
                    &&& final(self).spec_drafts() == old(self).spec_drafts().push(draft)
                    &&& draft_wf(final(self).spec_drafts(), k as int)
                },
                Err(e) => {
                    &&& final(self).spec_drafts() == old(self).spec_drafts()
                    &&& !draft_wf(old(self).spec_drafts().push(draft), old(self).spec_drafts().len() as int)
                    &&& e.error_status_code == 400
                },
            },
    {
        let k = self.drafts.len();
        let fits = draft.input.arity() == draft.personality.arity();
        let linked = match draft.input {
            DraftInput::Single(c) => c < k,
            DraftInput::Double(l, r) => l < k && r < k,
            _ => true,
        };
        if !(fits && linked) {
            return Err(CustomError::bad_request("Draft does not fit the graph"));
        }
        let ghost before = self.drafts@;
        self.drafts.push(draft);
        assert forall|j: int| 0 <= j < self.drafts@.len() implies #[trigger] draft_wf(
            self.drafts@,
            j,
        ) by {
            if j < k {
                assert(draft_wf(before, j));
                assert(self.drafts@[j] == before[j]);
            }
        }
        Ok(k)
    }

    /// Makes draft `k` the top of the graph.
    pub fn set_top(&mut self, k: usize) -> (r: Result<(), CustomError>)
        requires
            old(self).wf(),
        ensures
            final(self).wf(),
            final(self).spec_query_id() == old(self).spec_query_id(),
            final(self).spec_drafts() == old(self).spec_drafts(),
            match r {
                Ok(()) => k < old(self).spec_drafts().len() && final(self).spec_top() == Some(k),
                Err(e) => k >= old(self).spec_drafts().len() && final(self).spec_top()
                    == old(self).spec_top() && e.error_status_code == 400,
            },
    {
        if k >= self.drafts.len() {
            return Err(CustomError::bad_request("No such draft"));
        }
        self.top = Some(k);
        Ok(())
    }

    /// Adds the linear pipeline of a sub-select over `input_relation`, read
    /// in lower case, and makes its last node the top of the graph.
    pub fn add_subselect(&mut self, project_columns: Option<Vec<String>>, input_relation: String)
        requires
            old(self).wf(),
            old(self).spec_drafts().len() + 3 <= usize::MAX,
        ensures
            final(self).wf(),
            final(self).spec_query_id() == old(self).spec_query_id(),
            final(self).spec_drafts().subrange(0, old(self).spec_drafts().len() as int)
                == old(self).spec_drafts(),
            is_subselect_at(
                final(self).spec_drafts(),
                old(self).spec_drafts().len() as int,
                lower_of(input_relation@),
                names_view(project_columns),
            ),
            final(self).spec_top() == Some((old(self).spec_drafts().len() + 2) as usize),
    {
        let ghost before = self.drafts@;
        let base = self.drafts.len();
        let relation = lowercase(input_relation.as_str());
        let name = String::from_str("select_").concat(relation.as_str());
        let leaf = DraftNode {
            name,
            columns: None,
            input: DraftInput::Leaf,
            personality: NodeType::Leaf(IoType::Ram(relation)),
        };
        let project = DraftNode {
            name: String::from_str("project"),
            columns: copy_names(&project_columns),
            input: DraftInput::Single(base),
            personality: NodeType::Op(OpType::Project),
        };
        let reorder = DraftNode {
            name: String::from_str("reorder"),
            columns: project_columns,
            input: DraftInput::Single(base + 1),
            personality: NodeType::Op(OpType::Reorder),
        };
        self.drafts.push(leaf);
        self.drafts.push(project);
        self.drafts.push(reorder);
        self.top = Some(base + 2);
        assert forall|j: int| 0 <= j < self.drafts@.len() implies #[trigger] draft_wf(
            self.drafts@,
            j,
        ) by {
            if j < base {
                assert(draft_wf(before, j));
                assert(self.drafts@[j] == before[j]);
            }
        }
        assert(self.drafts@.subrange(0, base as int) =~= before);
    }

    /// The finalized root: every draft becomes a shared node once, its
    /// inputs pointing at the nodes of its children.
    pub fn build(&self) -> (r: RootNode)
        requires
            self.wf(),
        ensures
            r.spec_query_id() == self.spec_query_id(),
            match self.spec_top() {
                Some(t) => r.spec_graph() matches Some(g) && realizes(
                    self.spec_drafts(),
                    t as int,
                    g,
                ),
                None => r.spec_graph() is None,
            },
    {
        let n = self.drafts.len();
        let mut finals: Vec<Arc<HyperNode>> = Vec::new();
        let mut i: usize = 0;
        while i < n
            invariant
                n == self.drafts@.len(),
                arena_wf(self.drafts@),
                i <= n,
                finals@.len() == i,
                forall|j: int| 0 <= j < i ==> realizes(self.drafts@, j, *#[trigger] finals@[j]),
            decreases n - i,
        {
            let d = &self.drafts[i];
            assert(draft_wf(self.drafts@, i as int));
            let input = match d.input {
                DraftInput::Empty => NodeInput::Empty,
                DraftInput::Leaf => NodeInput::Leaf,
                DraftInput::Single(c) => NodeInput::Single(Arc::clone(&finals[c])),
                DraftInput::Double(l, r) => NodeInput::Double(
                    Arc::clone(&finals[l]),
                    Arc::clone(&finals[r]),
                ),
            };
            let node = HyperNode::from_parts(
                d.name.clone(),
                copy_names(&d.columns),
                input,
                d.personality.clone(),
            );
            assert(realizes(self.drafts@, i as int, node));
            finals.push(Arc::new(node));
            i = i + 1;
        }
        match self.top {
            Some(t) => RootNode::with_graph(self.query_id, Some(Arc::clone(&finals[t]))),
            None => RootNode::with_graph(self.query_id, None),
        }
    }
}

/// What `str::to_lowercase` makes of a text.
pub uninterp spec fn lower_of(s: Seq<char>) -> Seq<char>;

/// Relies on `str::to_lowercase`: the result depends on the characters alone.
#[verifier::external_body]
fn lowercase(s: &str) -> (r: String)
    ensures
        r@ == lower_of(s@),
{
    s.to_lowercase()
}

/// What compiling a statement gives: for a plain SELECT over one table with
/// an accepted field list, a root over its pipeline; for anything else, a
/// validation error that says why.
pub open spec fn inflation_outcome(query_id: i64, query: SqlQuery, r: Result<RootNode, CustomError>) -> bool {
    match r {
        Ok(root) => {
            &&& root.spec_query_id() == query_id
            &&& query matches SqlQuery::Select(stmt) && {
                &&& fields_accepted(stmt.fields@)
                &&& stmt.tables@.len() == 1
                &&& root.spec_graph() matches Some(g) && is_select_pipeline(
                    g,
                    lower_of(stmt.tables@[0]@),
                    projection_of(stmt.fields@),
                )
            }
        },
        Err(e) => {
            &&& e.error_status_code == 400
            &&& match query {
                SqlQuery::Select(stmt) => {
                    &&& !fields_accepted(stmt.fields@) ==> e.error_message@ == "Bad request: "@
                        + "Unsupported Statement"@
                    &&& fields_accepted(stmt.fields@) ==> stmt.tables@.len() != 1
                        && e.error_message@ == "Bad request: "@ + "Unsupported number of tables"@
                },
                SqlQuery::Other(_) => e.error_message@ == "Bad request: "@
                    + "Unsupported Statement"@,
            }
        },
    }
}

/// Compiles a validated statement into a finalized graph.
pub struct GraphInflator {}

impl GraphInflator {
    pub fn new() -> (r: GraphInflator) {
        GraphInflator {  }
    }

    /// Validates a SELECT and adds its pipeline, over the table name read in
    /// lower case, to the builder. The builder is left as it was on failure.
    pub fn add_select_stmt(&self, builder: &mut GraphBuilder, select_stmt: &SelectStatement) -> (r:
        Result<(), CustomError>)
        requires
            old(builder).wf(),
            old(builder).spec_drafts().len() + 3 <= usize::MAX,
        ensures
            final(builder).wf(),
            final(builder).spec_query_id() == old(builder).spec_query_id(),
            match r {
                Ok(()) => {
                    &&& fields_accepted(select_stmt.fields@)
                    &&& select_stmt.tables@.len() == 1
                    &&& final(builder).spec_drafts().subrange(
                        0,
                        old(builder).spec_drafts().len() as int,
                    ) == old(builder).spec_drafts()
                    &&& is_subselect_at(
                        final(builder).spec_drafts(),
                        old(builder).spec_drafts().len() as int,
                        lower_of(select_stmt.tables@[0]@),
                        projection_of(select_stmt.fields@),
                    )
                    &&& final(builder).spec_top() == Some(
                        (old(builder).spec_drafts().len() + 2) as usize,
                    )
                },
                Err(e) => {
                    &&& *final(builder) == *old(builder)
                    &&& e.error_status_code == 400
                    &&& !fields_accepted(select_stmt.fields@) ==> e.error_message@
                        == "Bad request: "@ + "Unsupported Statement"@
                    &&& fields_accepted(select_stmt.fields@) ==> select_stmt.tables@.len() != 1
                        && e.error_message@ == "Bad request: "@ + "Unsupported number of tables"@
                },
            },
    {
        match validate_select(select_stmt) {
            Ok((table, columns)) => {
                builder.add_subselect(columns, table);
                Ok(())
            },
            Err(e) => Err(e),
        }
    }

    /// Compiles a statement into a finalized root. Only a plain SELECT over
    /// one table, with an accepted field list, is compiled; everything else
    /// fails before any node is built.
    pub fn inflate(&self, query_id: i64, query: &SqlQuery) -> (r: Result<RootNode, CustomError>)
        ensures
            inflation_outcome(query_id, *query, r),
    {
        let mut builder = GraphBuilder::new(query_id);
        match query {
            SqlQuery::Select(stmt) => {
                match self.add_select_stmt(&mut builder, stmt) {
                    Ok(()) => {},
                    Err(e) => {
                        return Err(e);
                    },
                }
            },
            SqlQuery::Other(_) => {
                return Err(CustomError::bad_request("Unsupported Statement"));
            },
        }
        let root = builder.build();
        proof {
            let stmt = query->Select_0;
            let g = root.spec_graph()->Some_0;
            lemma_subselect_realizes_pipeline(
                builder.spec_drafts(),
                lower_of(stmt.tables@[0]@),
                projection_of(stmt.fields@),
                g,
            );
        }
        Ok(root)
    }
}

} // verus!
