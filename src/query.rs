use vstd::prelude::*;
use crate::builder::{inflation_outcome, GraphInflator};
use crate::error::CustomError;
use crate::graph::RootNode;
use crate::protocol::Execution;
use crate::sql::{same_statement, SqlQuery};

verus! {

/// A submitted query: its text and, once produced, its parse and the parse
/// chosen for execution.
#[derive(Debug)]
pub struct Query {
    pub id: Option<i64>,
    pub text: String,
    pub parse: Option<SqlQuery>,
    pub optimal_parse: Option<SqlQuery>,
}

pub open spec fn same_parse(a: Option<SqlQuery>, b: Option<SqlQuery>) -> bool {
    match (a, b) {
        (Some(x), Some(y)) => same_statement(x, y),
        (None, None) => true,
        _ => false,
    }
}

fn copy_parse(p: &Option<SqlQuery>) -> (r: Option<SqlQuery>)
    ensures
        same_parse(r, *p),
{
    match p {
        Some(q) => Some(q.clone()),
        None => None,
    }
}

impl Query {
    /// The query with its parse filled in: kept where the query carries one
    /// already, else what `parse_text` makes of the query's text, whose
    /// error is the query's error.
    pub fn parse<F: FnOnce(String) -> Result<SqlQuery, CustomError>>(
        input_query: &Query,
        parse_text: F,
    ) -> (r: Result<Query, CustomError>)
        requires
            input_query.parse is None ==> parse_text.requires((input_query.text,)),
        ensures
            match r {
                Ok(q) => {
                    &&& q.id == input_query.id
                    &&& q.text == input_query.text
                    &&& same_parse(q.optimal_parse, input_query.optimal_parse)
                    &&& input_query.parse is Some ==> same_parse(q.parse, input_query.parse)
                    &&& input_query.parse is None ==> (q.parse matches Some(p)
                        && parse_text.ensures(
                        (input_query.text,),
                        Ok::<SqlQuery, CustomError>(p),
                    ))
                },
                Err(e) => input_query.parse is None && parse_text.ensures(
                    (input_query.text,),
                    Err::<SqlQuery, CustomError>(e),
                ),
            },
    {
        let parse = match &input_query.parse {
            Some(p) => Some(p.clone()),
            None => match parse_text(input_query.text.clone()) {
                Ok(p) => Some(p),
                Err(e) => {
                    return Err(e);
                },
            },
        };
        Ok(
            Query {
                id: input_query.id,
                text: input_query.text.clone(),
                parse,
                optimal_parse: copy_parse(&input_query.optimal_parse),
            },
        )
    }

    /// Chooses the parse to execute: the parse itself, unchanged. Fails
    /// where the query has not been parsed.
    pub fn optimize(input_query: &Query) -> (r: Result<Query, CustomError>)
        ensures
            match r {
                Ok(q) => {
                    &&& input_query.parse is Some
                    &&& q.id == input_query.id
                    &&& q.text == input_query.text
                    &&& same_parse(q.parse, input_query.parse)
                    &&& same_parse(q.optimal_parse, input_query.parse)
                },
                Err(e) => input_query.parse is None && e.error_status_code == 400
                    && e.error_message@ == "Bad request: "@ + "Cannot optimze query without parse"@,
            },
    {
        if input_query.parse.is_none() {
            return Err(CustomError::bad_request("Cannot optimze query without parse"));
        }
        Ok(
            Query {
                id: input_query.id,
                text: input_query.text.clone(),
                parse: copy_parse(&input_query.parse),
                optimal_parse: copy_parse(&input_query.parse),
            },
        )
    }
}

impl Execution {
    /// The steps before any work starts: the query must carry the parse to
    /// execute, which is compiled into a graph under the query's id (0 where
    /// it has none).
    pub fn prepare(query: &Query) -> (r: Result<RootNode, CustomError>)
        ensures
            match query.optimal_parse {
                None => r matches Err(e) && e.error_status_code == 400 && e.error_message@
                    == "Bad request: "@ + "Bad Request. Incomplete query."@,
                Some(stmt) => inflation_outcome(
                    match query.id {
                        Some(id) => id,
                        None => 0,
                    },
                    stmt,
                    r,
                ),
            },
    {
        match &query.optimal_parse {
            None => Err(CustomError::bad_request("Bad Request. Incomplete query.")),
            Some(stmt) => {
                let query_id = match query.id {
                    Some(id) => id,
                    None => 0,
                };
                GraphInflator::new().inflate(query_id, stmt)
            },
        }
    }
}

} // verus!
