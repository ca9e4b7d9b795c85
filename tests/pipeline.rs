use hypergraph::builder::{DraftInput, DraftNode, GraphBuilder, GraphInflator};
use hypergraph::cache::TableCache;
use hypergraph::error::CustomError;
use hypergraph::graph::{HyperNode, IoType, NodeInput, NodeType, OpType, RootNode};
use hypergraph::protocol::{
    CursePlan, ExecuteContext, Execution, Partition, PassThrough, Placement, PumpAction,
    StreamAction, StreamEvent, UnitRole, WorkNode,
};
use hypergraph::query::Query;
use hypergraph::record::{QueryRecord, QueryResult, RecordTime};
use hypergraph::sql::{Column, FieldDefinitionExpression, FunctionExpression, SelectStatement, SqlQuery};
use hypergraph::value::SqlType;

fn rec(n: i64) -> QueryRecord {
    QueryRecord { ready: RecordTime { secs: n, nanos: 0 }, columns: vec![SqlType::Int64(n)] }
}

fn ints(result: &QueryResult) -> Vec<i64> {
    result
        .records
        .iter()
        .map(|r| match r.columns[0] {
            SqlType::Int64(n) => n,
            _ => panic!("not an integer column"),
        })
        .collect()
}

fn select(fields: Vec<FieldDefinitionExpression>, tables: &[&str]) -> SqlQuery {
    SqlQuery::Select(SelectStatement {
        tables: tables.iter().map(|t| t.to_string()).collect(),
        fields,
    })
}

fn column(name: &str, function: Option<FunctionExpression>) -> FieldDefinitionExpression {
    FieldDefinitionExpression::Col(Column { name: name.to_string(), alias: None, table: None, function })
}

fn query_of(stmt: SqlQuery) -> Query {
    Query { id: Some(1), text: String::new(), parse: None, optimal_parse: Some(stmt) }
}

/// Relation ids by name, standing in for the relational store.
fn lookup(name: &str) -> Result<i64, CustomError> {
    match name {
        "t" => Ok(1),
        "u" => Ok(2),
        "empty" => Ok(3),
        _ => Err(CustomError::new(404, "The record is not found".to_string())),
    }
}

fn unit_output(
    unit: &WorkNode,
    input: Vec<Result<QueryRecord, CustomError>>,
    cache: &TableCache,
) -> Vec<Result<QueryRecord, CustomError>> {
    let items = match unit.role() {
        UnitRole::Scan(name) => WorkNode::scan_items(lookup(&name), cache),
        UnitRole::Forward => input,
        UnitRole::Inert => return Vec::new(),
    };
    let mut machine = PassThrough::new();
    let mut out = Vec::new();
    for item in items {
        match machine.on_event(StreamEvent::Received(item)) {
            StreamAction::Send(x) => out.push(x),
            _ => break,
        }
    }
    machine.on_event(StreamEvent::Exhausted);
    out
}

fn run_node(node: &HyperNode, ctx: ExecuteContext, cache: &TableCache) -> Vec<Result<QueryRecord, CustomError>> {
    match node.curse(ctx) {
        CursePlan::Nothing => Vec::new(),
        CursePlan::Source(unit) => unit_output(&unit, Vec::new(), cache),
        CursePlan::Chain(unit, child) => {
            let input = run_node(&child, ctx, cache);
            unit_output(&unit, input, cache)
        }
        CursePlan::Fork(unit, left, right) => {
            run_node(&left, ctx, cache);
            run_node(&right, ctx, cache);
            unit_output(&unit, Vec::new(), cache)
        }
    }
}

fn execute(query: &Query, cache: &TableCache) -> Result<QueryResult, CustomError> {
    let root = Execution::prepare(query)?;
    let top = root.curse()?;
    let mut delivered = Vec::new();
    for item in run_node(&top, ExecuteContext { user_id: 7 }, cache) {
        match RootNode::pump(StreamEvent::Received(item)) {
            PumpAction::Forward(x) => delivered.push(x),
            _ => unreachable!(),
        }
    }
    assert!(matches!(RootNode::pump(StreamEvent::Exhausted), PumpAction::Done));
    Execution::collect(delivered)
}

fn star_from(table: &str) -> Query {
    query_of(select(vec![FieldDefinitionExpression::All], &[table]))
}

#[test]
fn select_star_streams_partitions_in_order() {
    let mut cache = TableCache::new();
    cache.append_partition(1, vec![rec(1), rec(2)]);
    cache.append_partition(1, vec![rec(3)]);
    let result = execute(&star_from("T"), &cache).unwrap();
    assert_eq!(ints(&result), vec![1, 2, 3]);
    assert_eq!(result.records[2].ready, RecordTime { secs: 3, nanos: 0 });
}

#[test]
fn select_star_without_cached_partitions_is_empty() {
    let cache = TableCache::new();
    assert_eq!(cache.partition_count(3), 0);
    let result = execute(&star_from("empty"), &cache).unwrap();
    assert!(result.records.is_empty());
}

#[test]
fn missing_relation_is_an_error_on_the_stream() {
    let cache = TableCache::new();
    let err = execute(&star_from("nowhere"), &cache).unwrap_err();
    assert_eq!(err.error_status_code, 404);
}

#[test]
fn two_tables_fail_inflation() {
    let err = GraphInflator::new()
        .inflate(1, &select(vec![FieldDefinitionExpression::All], &["a", "b"]))
        .unwrap_err();
    assert_eq!(err.error_status_code, 400);
    assert_eq!(err.error_message, "Bad request: Unsupported number of tables");
}

#[test]
fn common_table_expression_fails_inflation() {
    let err = GraphInflator::new().inflate(1, &SqlQuery::Other("WITH".to_string())).unwrap_err();
    assert_eq!(err.error_message, "Bad request: Unsupported Statement");
}

#[test]
fn aggregate_fails_inflation() {
    for f in [FunctionExpression::Avg, FunctionExpression::Sum, FunctionExpression::Max, FunctionExpression::Count] {
        let err = GraphInflator::new().inflate(1, &select(vec![column("x", Some(f))], &["t"])).unwrap_err();
        assert_eq!(err.error_message, "Bad request: Unsupported Statement");
    }
    let err = GraphInflator::new()
        .inflate(1, &select(vec![FieldDefinitionExpression::AllInTable("t".into())], &["t"]))
        .unwrap_err();
    assert_eq!(err.error_status_code, 400);
    let err = GraphInflator::new().inflate(1, &select(vec![FieldDefinitionExpression::Value], &["t"])).unwrap_err();
    assert_eq!(err.error_status_code, 400);
}

#[test]
fn count_star_and_plain_columns_are_accepted() {
    let root = GraphInflator::new()
        .inflate(5, &select(vec![column("count(*)", Some(FunctionExpression::CountStar)), column("a", None)], &["t"]))
        .unwrap();
    assert_eq!(root.query_id(), 5);
    let top = root.graph().unwrap();
    assert_eq!(top.columns(), Some(vec!["a".to_string()]));
    let qualified = FieldDefinitionExpression::Col(Column {
        name: "a".into(),
        alias: None,
        table: Some("t".into()),
        function: None,
    });
    assert!(GraphInflator::new().inflate(5, &select(vec![qualified], &["t"])).is_err());
}

#[test]
fn test_can_inflate_select_star() {
    let root = GraphInflator::new().inflate(1, &select(vec![FieldDefinitionExpression::All], &["FOO"])).unwrap();
    let reorder = root.graph().unwrap();
    assert_eq!(reorder.name(), "reorder");
    assert!(matches!(reorder.personality(), NodeType::Op(OpType::Reorder)));
    assert_eq!(reorder.columns(), None);
    let project = match reorder.input() {
        NodeInput::Single(p) => p,
        _ => panic!("reorder must have one input"),
    };
    assert!(matches!(project.personality(), NodeType::Op(OpType::Project)));
    let leaf = match project.input() {
        NodeInput::Single(l) => l,
        _ => panic!("project must have one input"),
    };
    assert!(matches!(leaf.input(), NodeInput::Leaf));
    assert_eq!(leaf.name(), "select_foo");
    match leaf.personality() {
        NodeType::Leaf(IoType::Ram(name)) => assert_eq!(name, "foo"),
        _ => panic!("leaf must read the row cache"),
    }
}

#[test]
fn test_can_run_select_star() {
    let mut cache = TableCache::new();
    cache.append_partition(1, vec![rec(4)]);
    let result = execute(&star_from("t"), &cache).unwrap();
    assert_eq!(ints(&result), vec![4]);
}

#[test]
fn concurrent_relations_do_not_mix() {
    let mut cache = TableCache::new();
    cache.append_partition(1, vec![rec(1), rec(2)]);
    cache.append_partition(2, vec![rec(10)]);
    cache.append_partition(1, vec![rec(3)]);
    cache.append_partition(2, vec![rec(20), rec(30)]);
    let a = execute(&star_from("t"), &cache).unwrap();
    let b = execute(&star_from("u"), &cache).unwrap();
    assert_eq!(ints(&a), vec![1, 2, 3]);
    assert_eq!(ints(&b), vec![10, 20, 30]);
    assert_eq!(cache.partition_count(1), 2);
    assert_eq!(cache.scan(9).is_none(), true);
}

#[test]
fn send_failure_stops_after_one_marker() {
    let mut unit = PassThrough::new();
    assert!(matches!(unit.on_event(StreamEvent::Received(Ok(rec(1)))), StreamAction::Send(Ok(_))));
    match unit.on_event(StreamEvent::SendFailed("closed".to_string())) {
        StreamAction::Abort(e) => {
            assert_eq!(e.error_status_code, 400);
            assert_eq!(e.error_message, "Bad request: Send Error");
        }
        _ => panic!("a failed send must abort"),
    }
    assert!(unit.is_stopped());
    assert!(matches!(unit.on_event(StreamEvent::Received(Ok(rec(2)))), StreamAction::Idle));
    assert!(matches!(unit.on_event(StreamEvent::SendFailed("x".into())), StreamAction::Idle));
    assert!(matches!(unit.on_event(StreamEvent::Exhausted), StreamAction::Idle));
}

#[test]
fn orchestrator_discards_rows_after_error() {
    let items = vec![Ok(rec(1)), Err(CustomError::bad_request("Send Error")), Ok(rec(2))];
    let err = Execution::collect(items).unwrap_err();
    assert_eq!(err.error_message, "Bad request: Send Error");
    let ok = Execution::collect(vec![Ok(rec(1)), Ok(rec(2))]).unwrap();
    assert_eq!(ints(&ok), vec![1, 2]);
    assert!(Execution::collect(Vec::new()).unwrap().records.is_empty());
}

#[test]
fn root_pump_fails_on_send_error() {
    match RootNode::pump(StreamEvent::SendFailed("Disconnected".to_string())) {
        PumpAction::Fail(e) => {
            assert_eq!(e.error_status_code, 501);
            assert_eq!(e.error_message, "Query Execution Error: Disconnected");
        }
        _ => panic!("a failed send must fail the root"),
    }
    let err = RootNode::new(3).curse().unwrap_err();
    assert_eq!(err.error_message, "Bad request: Cannot curse from root without graph");
    assert!(matches!(RootNode::new(3).input(), NodeInput::Empty));
    assert!(matches!(RootNode::new(3).personality(), NodeType::Nop));
}

#[test]
fn incomplete_query_is_rejected() {
    let q = Query { id: None, text: "SELECT".into(), parse: None, optimal_parse: None };
    let err = Execution::prepare(&q).unwrap_err();
    assert_eq!(err.error_message, "Bad request: Bad Request. Incomplete query.");
}

#[test]
fn node_shapes_are_checked() {
    let bad = HyperNode::new("leaf".into(), None, NodeInput::Empty, NodeType::Leaf(IoType::Disk));
    assert!(bad.is_err());
    let leaf = HyperNode::new("leaf".into(), None, NodeInput::Leaf, NodeType::Leaf(IoType::Disk)).unwrap();
    assert!(matches!(leaf.curse(ExecuteContext { user_id: 1 }), CursePlan::Source(_)));
    let mut builder = GraphBuilder::new(9);
    let wrong = DraftNode { name: "j".into(), columns: None, input: DraftInput::Single(0), personality: NodeType::Op(OpType::Join) };
    assert!(builder.add_draft(wrong).is_err());
    let l = builder
        .add_draft(DraftNode { name: "l".into(), columns: None, input: DraftInput::Leaf, personality: NodeType::Leaf(IoType::Generator) })
        .unwrap();
    let r = builder
        .add_draft(DraftNode { name: "r".into(), columns: None, input: DraftInput::Leaf, personality: NodeType::Leaf(IoType::Network) })
        .unwrap();
    let j = builder
        .add_draft(DraftNode { name: "j".into(), columns: None, input: DraftInput::Double(l, r), personality: NodeType::Op(OpType::Join) })
        .unwrap();
    assert!(builder.set_top(7).is_err());
    builder.set_top(j).unwrap();
    let root = builder.build();
    let top = root.graph().unwrap();
    match top.curse(ExecuteContext { user_id: 1 }) {
        CursePlan::Fork(unit, left, right) => {
            assert_eq!(unit.placement(), Placement::Server(Partition::Whole));
            assert!(matches!(unit.role(), UnitRole::Inert));
            assert_eq!(left.name(), "l");
            assert_eq!(right.name(), "r");
        }
        _ => panic!("a join forks"),
    }
}

#[test]
fn subselect_reads_relation_in_lower_case() {
    let mut builder = GraphBuilder::new(4);
    builder.add_subselect(Some(vec!["a".to_string()]), "MiXeD".to_string());
    let root = builder.build();
    assert_eq!(root.query_id(), 4);
    let reorder = root.graph().unwrap();
    assert_eq!(reorder.columns(), Some(vec!["a".to_string()]));
    let project = match reorder.input() {
        NodeInput::Single(p) => p,
        _ => panic!("reorder must have one input"),
    };
    let leaf = match project.input() {
        NodeInput::Single(l) => l,
        _ => panic!("project must have one input"),
    };
    assert_eq!(leaf.name(), "select_mixed");
    match leaf.personality() {
        NodeType::Leaf(IoType::Ram(name)) => assert_eq!(name, "mixed"),
        _ => panic!("leaf must read the row cache"),
    }
}
