use hypergraph::error::CustomError;
use hypergraph::query::Query;
use hypergraph::sql::SqlQuery;

fn parse_with_nom_sql(text: String) -> Result<SqlQuery, CustomError> {
    match nom_sql::parser::parse_query(&text) {
        Ok(q) => Ok(SqlQuery::Other(q.to_string())),
        Err(message) => Err(CustomError::bad_request(message)),
    }
}

fn query(text: &str) -> Query {
    Query { id: None, text: text.to_string(), parse: None, optimal_parse: None }
}

#[test]
fn parse_basic_query() {
    let q = Query::parse(&query("SELECT * FROM FOO;"), parse_with_nom_sql);
    q.unwrap();
}

#[test]
fn parse_less_simple_query() {
    let q = Query::parse(&query("SELECT * FROM BAR GROUP BY BAR.a ORDER BY BAR.a DESC LIMIT 15"), parse_with_nom_sql);
    q.unwrap();
}

#[test]
fn parse_common_table_expression_simple_query() {
    let q = Query::parse(&query("WITH FOO AS (SELECT * FROM BAR) SELECT * FROM FOO;"), parse_with_nom_sql);
    assert!(q.is_err());
}

#[test]
fn parse_keeps_a_parse_already_present() {
    let mut q = query("not sql at all");
    q.parse = Some(SqlQuery::Other("SELECT".to_string()));
    let parsed = Query::parse(&q, parse_with_nom_sql).unwrap();
    assert!(matches!(parsed.parse, Some(SqlQuery::Other(k)) if k == "SELECT"));
}

#[test]
fn optimize_less_simple_query() {
    let q = Query::parse(&query("SELECT * FROM BAR GROUP BY BAR.a ORDER BY BAR.a DESC LIMIT 15"), parse_with_nom_sql);
    let q = q.unwrap();
    let q = Query::optimize(&q).unwrap();
    match (q.parse, q.optimal_parse) {
        (Some(SqlQuery::Other(a)), Some(SqlQuery::Other(b))) => assert_eq!(a, b),
        _ => panic!("optimizing keeps the parse"),
    }
}

#[test]
fn optimize_needs_a_parse() {
    let err = Query::optimize(&query("SELECT * FROM BAR")).unwrap_err();
    assert_eq!(err.error_message, "Bad request: Cannot optimze query without parse");
    let failed = Query::parse(&query("SELEC"), |_text: String| Err(CustomError::bad_request("failed to parse query")));
    assert!(failed.is_err());
}
