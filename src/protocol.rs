use vstd::prelude::*;
use vstd::string::StringExecFns;
use std::sync::Arc;
use crate::cache::{records_view, scan_rows, TableCache};
use crate::error::CustomError;
use crate::graph::{HyperNode, IoType, NodeInfo, NodeInput, NodeType, OpType, RootNode};
use crate::record::{QueryRecord, QueryResult};

verus! {

/// What a query execution knows of its caller.
#[derive(Debug, Clone, Copy, PartialEq, Eq, Structural)]
pub struct ExecuteContext {
    pub user_id: i64,
}

/// How much of a node's data a work unit owns.
#[derive(Debug, Clone, Copy, PartialEq, Eq, Structural)]
pub enum Partition {
    Whole,
    Partial(u64, u64),
}

/// Where a work unit runs, and which slice of the data it owns.
#[derive(Debug, Clone, Copy, PartialEq, Eq, Structural)]
pub enum Placement {
    Server(Partition),
    Edge(Partition),
}

/// What a work unit does when it runs.
#[derive(Debug)]
pub enum UnitRole {
    /// Streams every cached row of the named relation.
    Scan(String),
    /// Passes every item of its input through, in order.
    Forward,
    /// Does nothing; its output closes with no rows.
    Inert,
}

pub open spec fn role_of(p: NodeType) -> UnitRole {
    match p {
        NodeType::Leaf(IoType::Ram(name)) => UnitRole::Scan(name),
        NodeType::Op(OpType::Project) => UnitRole::Forward,
        NodeType::Op(OpType::Reorder) => UnitRole::Forward,
        _ => UnitRole::Inert,
    }
}

/// The physical unit that executes one logical node's work for one
/// placement.
#[derive(Debug)]
pub struct WorkNode {
    ctx: ExecuteContext,
    placement: Placement,
    info: Arc<NodeInfo>,
}

impl WorkNode {
    pub closed spec fn spec_ctx(&self) -> ExecuteContext {
        self.ctx
    }

    pub closed spec fn spec_placement(&self) -> Placement {
        self.placement
    }

    pub closed spec fn spec_info(&self) -> NodeInfo {
        *self.info
    }

    pub fn new(ctx: ExecuteContext, placement: Placement, info: Arc<NodeInfo>) -> (r: WorkNode)
        ensures
            r.spec_ctx() == ctx,
            r.spec_placement() == placement,
            r.spec_info() == *info,
    {
        WorkNode { ctx, placement, info }
    }

    pub fn ctx(&self) -> (r: ExecuteContext)
        ensures
            r == self.spec_ctx(),
    {
        self.ctx
    }

    pub fn placement(&self) -> (r: Placement)
        ensures
            r == self.spec_placement(),
    {
        self.placement
    }

    /// What the unit does, by its node's personality: a leaf over the row
    /// cache scans, a projection or a reorder forwards, the rest are inert.
    pub fn role(&self) -> (r: UnitRole)
        ensures
            r == role_of(self.spec_info().spec_personality()),
    {
        match self.info.personality() {
            NodeType::Leaf(IoType::Ram(name)) => UnitRole::Scan(name),
            NodeType::Op(OpType::Project) => UnitRole::Forward,
            NodeType::Op(OpType::Reorder) => UnitRole::Forward,
            _ => UnitRole::Inert,
        }
    }

    /// The items that a scanning unit emits, given the outcome of looking up
    /// its relation's id: the lookup's error alone, or every cached row of
    /// the relation in partition order (none where nothing is cached).
    pub fn scan_items(lookup: Result<i64, CustomError>, cache: &TableCache) -> (r: Vec<
        Result<QueryRecord, CustomError>,
    >)
        ensures
            match lookup {
                Err(e) => r@.len() == 1 && r@[0] == Err::<QueryRecord, CustomError>(e),
                Ok(id) => {
                    &&& forall|i: int| 0 <= i < r@.len() ==> (#[trigger] r@[i]) is Ok
                    &&& records_view(r@.map_values(|x: Result<QueryRecord, CustomError>| x->Ok_0))
                        == scan_rows(cache.spec_parts(), id)
                },
            },
    {
        let mut items: Vec<Result<QueryRecord, CustomError>> = Vec::new();
        match lookup {
            Err(e) => {
                items.push(Err(e));
                items
            },
            Ok(id) => {
                match cache.scan(id) {
                    None => {
                        assert(records_view(
                            items@.map_values(|x: Result<QueryRecord, CustomError>| x->Ok_0),
                        ) =~= scan_rows(cache.spec_parts(), id));
                        items
                    },
                    Some(mut rows) => {
                        let ghost all = rows@;
                        let n = rows.len();
                        let mut k: usize = 0;
                        while k < n
                            invariant
                                n == all.len(),
                                k <= n,
                                rows@ == all.subrange(k as int, n as int),
                                items@.len() == k,
                                forall|i: int| 0 <= i < k ==> (#[trigger] items@[i]) is Ok,
                                forall|i: int| 0 <= i < k ==> items@[i]->Ok_0 == all[i],
                            decreases n - k,
                        {
                            let row = rows.remove(0);
                            items.push(Ok(row));
                            k = k + 1;
                            assert(rows@ =~= all.subrange(k as int, n as int));
                        }
                        assert(items@.map_values(|x: Result<QueryRecord, CustomError>| x->Ok_0)
                            =~= all);
                        items
                    },
                }
            },
        }
    }
}

/// What running a logical node sets in motion, by its input shape.
#[derive(Debug)]
pub enum CursePlan {
    /// No input: the output closes with no rows.
    Nothing,
    /// A leaf: the unit feeds the output directly.
    Source(WorkNode),
    /// One input: the child fills a new channel that the unit drains into
    /// the output.
    Chain(WorkNode, Arc<HyperNode>),
    /// Two inputs: each child fills a channel of its own.
    Fork(WorkNode, Arc<HyperNode>, Arc<HyperNode>),
}

/// The unit that runs a node's work: on the server, over the whole data.
pub open spec fn unit_for(w: WorkNode, ctx: ExecuteContext, node: HyperNode) -> bool {
    &&& w.spec_ctx() == ctx
    &&& w.spec_placement() == Placement::Server(Partition::Whole)
    &&& w.spec_info() == node.spec_info()
}

impl HyperNode {
    /// Decides how the node runs: which unit to start, which children to
    /// start into which channels.
    pub fn curse(&self, ctx: ExecuteContext) -> (r: CursePlan)
        ensures
            match self.spec_input() {
                NodeInput::Empty => r is Nothing,
                NodeInput::Leaf => r matches CursePlan::Source(w) && unit_for(w, ctx, *self),
                NodeInput::Single(c) => r matches CursePlan::Chain(w, c2) && unit_for(w, ctx, *self)
                    && *c2 == *c,
                NodeInput::Double(a, b) => r matches CursePlan::Fork(w, a2, b2) && unit_for(
                    w,
                    ctx,
                    *self,
                ) && *a2 == *a && *b2 == *b,
            },
    {
        let placement = Placement::Server(Partition::Whole);
        match self.input() {
            NodeInput::Empty => CursePlan::Nothing,
            NodeInput::Leaf => CursePlan::Source(WorkNode::new(ctx, placement, self.info())),
            NodeInput::Single(child) => CursePlan::Chain(
                WorkNode::new(ctx, placement, self.info()),
                child,
            ),
            NodeInput::Double(left, right) => CursePlan::Fork(
                WorkNode::new(ctx, placement, self.info()),
                left,
                right,
            ),
        }
    }
}

/// What a streaming unit learns: an item arrived, its input ended, or its
/// last send failed (with the channel's own words).
#[derive(Debug)]
pub enum StreamEvent {
    Received(Result<QueryRecord, CustomError>),
    Exhausted,
    SendFailed(String),
}

/// What a streaming unit does next.
#[derive(Debug)]
pub enum StreamAction {
    /// Send the item downstream.
    Send(Result<QueryRecord, CustomError>),
    /// Make one attempt to send this error marker, then stop.
    Abort(CustomError),
    /// Stop: the input is exhausted.
    Finish,
    /// Nothing: the unit has stopped.
    Idle,
}

#[derive(Debug, Clone, Copy, PartialEq, Eq, Structural)]
pub enum EventKind {
    Received,
    Exhausted,
    SendFailed,
}

#[derive(Debug, Clone, Copy, PartialEq, Eq, Structural)]
pub enum ActionKind {
    Send,
    Abort,
    Finish,
    Idle,
}

pub open spec fn event_kind(ev: StreamEvent) -> EventKind {
    match ev {
        StreamEvent::Received(_) => EventKind::Received,
        StreamEvent::Exhausted => EventKind::Exhausted,
        StreamEvent::SendFailed(_) => EventKind::SendFailed,
    }
}

pub open spec fn action_kind(a: StreamAction) -> ActionKind {
    match a {
        StreamAction::Send(_) => ActionKind::Send,
        StreamAction::Abort(_) => ActionKind::Abort,
        StreamAction::Finish => ActionKind::Finish,
        StreamAction::Idle => ActionKind::Idle,
    }
}

/// The kind of action a unit takes on an event.
pub open spec fn step_kind(stopped: bool, e: EventKind) -> ActionKind {
    if stopped {
        ActionKind::Idle
    } else {
        match e {
            EventKind::Received => ActionKind::Send,
            EventKind::Exhausted => ActionKind::Finish,
            EventKind::SendFailed => ActionKind::Abort,
        }
    }
}

/// Whether a unit has stopped after an event.
pub open spec fn stopped_after(stopped: bool, e: EventKind) -> bool {
    stopped || e != EventKind::Received
}

/// The kinds of action a unit takes on a sequence of events.
pub open spec fn run_kinds(stopped: bool, evs: Seq<EventKind>) -> Seq<ActionKind>
    decreases evs.len(),
{
    if evs.len() == 0 {
        Seq::empty()
    } else {
        seq![step_kind(stopped, evs[0])] + run_kinds(stopped_after(stopped, evs[0]), evs.drop_first())
    }
}

proof fn lemma_run_len(stopped: bool, evs: Seq<EventKind>)
    ensures
        run_kinds(stopped, evs).len() == evs.len(),
    decreases evs.len(),
{
    if evs.len() > 0 {
        lemma_run_len(stopped_after(stopped, evs[0]), evs.drop_first());
    }
}

proof fn lemma_stopped_is_idle(evs: Seq<EventKind>)
    ensures
        forall|j: int| 0 <= j < evs.len() ==> #[trigger] run_kinds(true, evs)[j] == ActionKind::Idle,
    decreases evs.len(),
{
    lemma_run_len(true, evs);
    if evs.len() > 0 {
        lemma_stopped_is_idle(evs.drop_first());
        lemma_run_len(true, evs.drop_first());
        assert forall|j: int| 0 <= j < evs.len() implies #[trigger] run_kinds(true, evs)[j]
            == ActionKind::Idle by {
            if j > 0 {
                assert(run_kinds(true, evs)[j] == run_kinds(true, evs.drop_first())[j - 1]);
            }
        }
    }
}

/// Once a send has failed, a unit acts at most once more, and that act is
/// the attempt to forward one error marker; every later event finds it idle.
pub proof fn lemma_stops_after_send_failure(stopped: bool, evs: Seq<EventKind>, i: int)
    requires
        0 <= i < evs.len(),
        evs[i] == EventKind::SendFailed,
    ensures
        run_kinds(stopped, evs).len() == evs.len(),
        run_kinds(stopped, evs)[i] == ActionKind::Abort || run_kinds(stopped, evs)[i]
            == ActionKind::Idle,
        forall|j: int| i < j < evs.len() ==> #[trigger] run_kinds(stopped, evs)[j] == ActionKind::Idle,
    decreases evs.len(),
{
    lemma_run_len(stopped, evs);
    let next = stopped_after(stopped, evs[0]);
    let tail = evs.drop_first();
    lemma_run_len(next, tail);
    if i == 0 {
        lemma_stopped_is_idle(tail);
        assert forall|j: int| i < j < evs.len() implies #[trigger] run_kinds(stopped, evs)[j]
            == ActionKind::Idle by {
            assert(run_kinds(stopped, evs)[j] == run_kinds(true, tail)[j - 1]);
        }
    } else {
        lemma_stops_after_send_failure(next, tail, i - 1);
        assert(run_kinds(stopped, evs)[i] == run_kinds(next, tail)[i - 1]);
        assert forall|j: int| i < j < evs.len() implies #[trigger] run_kinds(stopped, evs)[j]
            == ActionKind::Idle by {
            assert(run_kinds(stopped, evs)[j] == run_kinds(next, tail)[j - 1]);
        }
    }
}

/// The marker that a unit forwards when its output fails.
pub open spec fn is_send_error(e: CustomError) -> bool {
    e.error_status_code == 400 && e.error_message@ == "Bad request: "@ + "Send Error"@
}

/// The decisions of a unit that streams items downstream: it forwards items
/// in order and stops for good when its input ends or a send fails.
#[derive(Debug)]
pub struct PassThrough {
    stopped: bool,
}

impl PassThrough {
    pub closed spec fn spec_stopped(&self) -> bool {
        self.stopped
    }

    pub fn new() -> (r: PassThrough)
        ensures
            !r.spec_stopped(),
    {
        PassThrough { stopped: false }
    }

    pub fn is_stopped(&self) -> (r: bool)
        ensures
            r == self.spec_stopped(),
    {
        self.stopped
    }

    pub fn on_event(&mut self, ev: StreamEvent) -> (r: StreamAction)
        ensures
            final(self).spec_stopped() == stopped_after(old(self).spec_stopped(), event_kind(ev)),
            action_kind(r) == step_kind(old(self).spec_stopped(), event_kind(ev)),
            !old(self).spec_stopped() ==> match ev {
                StreamEvent::Received(item) => r == StreamAction::Send(item),
                StreamEvent::SendFailed(_) => r matches StreamAction::Abort(e) && is_send_error(e),
                StreamEvent::Exhausted => r is Finish,
            },
    {
        if self.stopped {
            return StreamAction::Idle;
        }
        match ev {
            StreamEvent::Received(item) => StreamAction::Send(item),
            StreamEvent::Exhausted => {
                self.stopped = true;
                StreamAction::Finish
            },
            StreamEvent::SendFailed(_) => {
                self.stopped = true;
                StreamAction::Abort(CustomError::bad_request("Send Error"))
            },
        }
    }
}

/// What the root does with an event of its own output.
#[derive(Debug)]
pub enum PumpAction {
    /// Hand the item to the caller.
    Forward(Result<QueryRecord, CustomError>),
    /// The graph is exhausted: the root succeeds.
    Done,
    /// The caller's channel failed: the root fails with this error.
    Fail(CustomError),
}

impl RootNode {
    /// The top node to start; fails where no graph is attached.
    pub fn curse(&self) -> (r: Result<Arc<HyperNode>, CustomError>)
        ensures
            match r {
                Ok(g) => self.spec_graph() == Some(*g),
                Err(e) => self.spec_graph() is None && e.error_status_code == 400
                    && e.error_message@ == "Bad request: "@ + "Cannot curse from root without graph"@,
            },
    {
        match self.graph() {
            Some(g) => Ok(g),
            None => Err(CustomError::bad_request("Cannot curse from root without graph")),
        }
    }

    /// Moves the root's output to the caller item by item; the first failed
    /// send ends the root with an error.
    pub fn pump(ev: StreamEvent) -> (r: PumpAction)
        ensures
            match ev {
                StreamEvent::Received(item) => r == PumpAction::Forward(item),
                StreamEvent::Exhausted => r is Done,
                StreamEvent::SendFailed(detail) => r matches PumpAction::Fail(e)
                    && e.error_status_code == 501 && e.error_message@ == "Query Execution Error: "@
                    + detail@,
            },
    {
        match ev {
            StreamEvent::Received(item) => PumpAction::Forward(item),
            StreamEvent::Exhausted => PumpAction::Done,
            StreamEvent::SendFailed(detail) => {
                let message = String::from_str("Query Execution Error: ").concat(detail.as_str());
                PumpAction::Fail(CustomError::internal(message))
            },
        }
    }
}

/// The outcome of draining a stream: the first error on it, or every row.
pub open spec fn drain(items: Seq<Result<QueryRecord, CustomError>>) -> Result<Seq<QueryRecord>, CustomError>
    decreases items.len(),
{
    if items.len() == 0 {
        Ok(Seq::empty())
    } else {
        match items[0] {
            Err(e) => Err(e),
            Ok(r) => match drain(items.drop_first()) {
                Ok(rs) => Ok(seq![r] + rs),
                Err(e) => Err(e),
            },
        }
    }
}

/// A stream that holds an error anywhere drains to an error, never to a
/// partial list of rows; the error is the first one on the stream.
pub proof fn lemma_drain_fails_on_error(items: Seq<Result<QueryRecord, CustomError>>, i: int)
    requires
        0 <= i < items.len(),
        items[i] is Err,
        forall|j: int| 0 <= j < i ==> (#[trigger] items[j]) is Ok,
    ensures
        drain(items) == Err::<Seq<QueryRecord>, CustomError>(items[i]->Err_0),
    decreases i,
{
    if i > 0 {
        let tail = items.drop_first();
        assert forall|j: int| 0 <= j < i - 1 implies (#[trigger] tail[j]) is Ok by {
            assert(tail[j] == items[j + 1]);
        }
        lemma_drain_fails_on_error(tail, i - 1);
    }
}

/// The items that a forwarding unit sends on a sequence of events, when
/// none of its sends fails.
pub open spec fn forwarded(stopped: bool, evs: Seq<StreamEvent>) -> Seq<Result<QueryRecord, CustomError>>
    decreases evs.len(),
{
    if evs.len() == 0 {
        Seq::empty()
    } else {
        let rest = forwarded(stopped_after(stopped, event_kind(evs[0])), evs.drop_first());
        match evs[0] {
            StreamEvent::Received(item) => if stopped {
                rest
            } else {
                seq![item] + rest
            },
            _ => rest,
        }
    }
}

proof fn lemma_stopped_forwards_nothing(evs: Seq<StreamEvent>)
    ensures
        forwarded(true, evs) == Seq::<Result<QueryRecord, CustomError>>::empty(),
    decreases evs.len(),
{
    if evs.len() > 0 {
        lemma_stopped_forwards_nothing(evs.drop_first());
    }
}

/// Once one of its sends has failed, a forwarding unit sends no further
/// item: what it sends is what it sent before the failure.
pub proof fn lemma_nothing_forwarded_after_failure(stopped: bool, evs: Seq<StreamEvent>, i: int)
    requires
        0 <= i < evs.len(),
        evs[i] is SendFailed,
    ensures
        forwarded(stopped, evs) == forwarded(stopped, evs.subrange(0, i)),
    decreases i,
{
    let tail = evs.drop_first();
    if i == 0 {
        lemma_stopped_forwards_nothing(tail);
        assert(evs.subrange(0, 0) =~= Seq::<StreamEvent>::empty());
    } else {
        let next = stopped_after(stopped, event_kind(evs[0]));
        lemma_nothing_forwarded_after_failure(next, tail, i - 1);
        let head = evs.subrange(0, i);
        assert(head[0] == evs[0]);
        assert(head.drop_first() =~= tail.subrange(0, i - 1));
    }
}

/// The events of a complete stream: each item in order, then its end.
pub open spec fn complete_stream(items: Seq<Result<QueryRecord, CustomError>>) -> Seq<StreamEvent> {
    items.map_values(|item: Result<QueryRecord, CustomError>| StreamEvent::Received(item)).push(
        StreamEvent::Exhausted,
    )
}

/// A forwarding unit that reads a complete stream and whose sends all
/// succeed sends every item of it, unchanged and in order.
pub proof fn lemma_forwarding_keeps_stream(items: Seq<Result<QueryRecord, CustomError>>)
    ensures
        forwarded(false, complete_stream(items)) == items,
    decreases items.len(),
{
    let evs = complete_stream(items);
    if items.len() == 0 {
        assert(evs.len() == 1);
        assert(evs[0] == StreamEvent::Exhausted);
        assert(evs.drop_first() =~= Seq::<StreamEvent>::empty());
        assert(forwarded(false, evs) == forwarded(true, evs.drop_first()));
        assert(items =~= Seq::<Result<QueryRecord, CustomError>>::empty());
    } else {
        assert(evs[0] == StreamEvent::Received(items[0]));
        assert(evs.drop_first() =~= complete_stream(items.drop_first()));
        assert(forwarded(false, evs) == seq![items[0]] + forwarded(false, evs.drop_first()));
        lemma_forwarding_keeps_stream(items.drop_first());
        assert(seq![items[0]] + items.drop_first() =~= items);
    }
}

/// The output of a scan drains to exactly the relation's cached rows, in
/// partition order; with nothing cached, to no rows and no error.
pub proof fn lemma_scan_drains_to_rows(
    items: Seq<Result<QueryRecord, CustomError>>,
    parts: Map<i64, Seq<Vec<QueryRecord>>>,
    id: i64,
)
    requires
        forall|i: int| 0 <= i < items.len() ==> (#[trigger] items[i]) is Ok,
        records_view(items.map_values(|x: Result<QueryRecord, CustomError>| x->Ok_0))
            == scan_rows(parts, id),
    ensures
        drain(items) matches Ok(rs) && records_view(rs) == scan_rows(parts, id),
        !parts.contains_key(id) ==> drain(items) == Ok::<Seq<QueryRecord>, CustomError>(
            Seq::empty(),
        ),
{
    lemma_all_ok_drain(items);
    assert(items.map_values(|x: Result<QueryRecord, CustomError>| x->Ok_0).len() == items.len());
    if !parts.contains_key(id) {
        assert(records_view(items.map_values(|x: Result<QueryRecord, CustomError>| x->Ok_0)).len()
            == 0);
        assert(items.map_values(|x: Result<QueryRecord, CustomError>| x->Ok_0) =~= Seq::<
            QueryRecord,
        >::empty());
    }
}

proof fn lemma_all_ok_drain(items: Seq<Result<QueryRecord, CustomError>>)
    requires
        forall|i: int| 0 <= i < items.len() ==> (#[trigger] items[i]) is Ok,
    ensures
        drain(items) == Ok::<Seq<QueryRecord>, CustomError>(
            items.map_values(|x: Result<QueryRecord, CustomError>| x->Ok_0),
        ),
    decreases items.len(),
{
    if items.len() > 0 {
        let tail = items.drop_first();
        assert forall|i: int| 0 <= i < tail.len() implies (#[trigger] tail[i]) is Ok by {
            assert(tail[i] == items[i + 1]);
        }
        lemma_all_ok_drain(tail);
        assert(seq![items[0]->Ok_0] + tail.map_values(
            |x: Result<QueryRecord, CustomError>| x->Ok_0,
        ) =~= items.map_values(|x: Result<QueryRecord, CustomError>| x->Ok_0));
    } else {
        assert(items.map_values(|x: Result<QueryRecord, CustomError>| x->Ok_0) =~= Seq::<
            QueryRecord,
        >::empty());
    }
}

/// Gathers the rows of a query's output until the first error.
#[derive(Debug)]
pub struct Collector {
    records: Vec<QueryRecord>,
    error: Option<CustomError>,
}

impl Collector {
    pub closed spec fn spec_records(&self) -> Seq<QueryRecord> {
        self.records@
    }

    pub closed spec fn spec_error(&self) -> Option<CustomError> {
        self.error
    }

    pub fn new() -> (r: Collector)
        ensures
            r.spec_records().len() == 0,
            r.spec_error() is None,
    {
        Collector { records: Vec::new(), error: None }
    }

    /// Takes one item of the stream; says whether to read on. Once an error
    /// has been seen, nothing more is taken.
    pub fn accept(&mut self, item: Result<QueryRecord, CustomError>) -> (more: bool)
        ensures
            old(self).spec_error() is Some ==> *final(self) == *old(self) && !more,
            old(self).spec_error() is None ==> match item {
                Ok(r) => final(self).spec_records() == old(self).spec_records().push(r)
                    && final(self).spec_error() is None && more,
                Err(e) => final(self).spec_records() == old(self).spec_records()
                    && final(self).spec_error() == Some(e) && !more,
            },
    {
        if self.error.is_some() {
            return false;
        }
        match item {
            Ok(r) => {
                self.records.push(r);
                true
            },
            Err(e) => {
                self.error = Some(e);
                false
            },
        }
    }

    /// The error seen, if any, else every row taken, in order.
    pub fn finish(self) -> (r: Result<QueryResult, CustomError>)
        ensures
            match self.spec_error() {
                Some(e) => r == Err::<QueryResult, CustomError>(e),
                None => r matches Ok(res) && res.records@ == self.spec_records(),
            },
    {
        match self.error {
            Some(e) => Err(e),
            None => Ok(QueryResult { records: self.records }),
        }
    }
}

/// The top-level orchestration of a query, around the concurrent run of its
/// graph.
pub struct Execution {}

impl Execution {
    /// Drains a query's output: the first error on it, with every row before
    /// it discarded, or all of its rows in order.
    pub fn collect(items: Vec<Result<QueryRecord, CustomError>>) -> (r: Result<QueryResult, CustomError>)
        ensures
            match drain(items@) {
                Ok(rs) => r matches Ok(res) && res.records@ == rs,
                Err(e) => r == Err::<QueryResult, CustomError>(e),
            },
    {
        let ghost all = items@;
        let mut rest = items;
        let mut collector = Collector::new();
        let mut more = true;
        while more && rest.len() > 0
            invariant
                more ==> collector.spec_error() is None,
                more ==> match drain(rest@) {
                    Ok(rs) => drain(all) == Ok::<Seq<QueryRecord>, CustomError>(
                        collector.spec_records() + rs,
                    ),
                    Err(e) => drain(all) == Err::<Seq<QueryRecord>, CustomError>(e),
                },
                !more ==> (collector.spec_error() matches Some(e) && drain(all) == Err::<
                    Seq<QueryRecord>,
                    CustomError,
                >(e)),
            decreases rest@.len(),
        {
            let ghost before = rest@;
            let ghost taken = collector.spec_records();
            let item = rest.remove(0);
            assert(rest@ =~= before.drop_first());
            more = collector.accept(item);
            proof {
                if more {
                    assert(taken.push(before[0]->Ok_0) + drain(rest@)->Ok_0 =~= taken + (seq![
                        before[0]->Ok_0,
                    ] + drain(rest@)->Ok_0)) by {
                        if drain(rest@) is Ok {
                        }
                    }
                }
            }
        }
        proof {
            if more {
                assert(drain(rest@) == Ok::<Seq<QueryRecord>, CustomError>(Seq::empty()));
                assert(collector.spec_records() + Seq::<QueryRecord>::empty() =~= collector.spec_records());
            }
        }
        collector.finish()
    }
}

} // verus!
