use vstd::prelude::*;
use crate::error::CustomError;

verus! {

/// A function applied to a column in a field list.
#[derive(Debug, Clone, Copy, PartialEq, Eq, Structural)]
pub enum FunctionExpression {
    Avg,
    Count,
    CountStar,
    Sum,
    Max,
    Min,
    GroupConcat,
}

/// A column reference in a field list.
#[derive(Debug)]
pub struct Column {
    pub name: String,
    pub alias: Option<String>,
    pub table: Option<String>,
    pub function: Option<FunctionExpression>,
}

/// One entry of a SELECT field list.
#[derive(Debug)]
pub enum FieldDefinitionExpression {
    /// `*`
    All,
    /// `t.*`
    AllInTable(String),
    Col(Column),
    /// A literal or an arithmetic expression.
    Value,
}

/// What the graph builder reads of a SELECT statement: its tables, each as
/// its written form, and its field list.
#[derive(Debug)]
pub struct SelectStatement {
    pub tables: Vec<String>,
    pub fields: Vec<FieldDefinitionExpression>,
}

/// A parsed statement: a plain SELECT, or any other kind of statement, named
/// by its kind.
#[derive(Debug)]
pub enum SqlQuery {
    Select(SelectStatement),
    Other(String),
}

/// Two statements say the same: of one kind, with equal tables and fields.
pub open spec fn same_statement(a: SqlQuery, b: SqlQuery) -> bool {
    match (a, b) {
        (SqlQuery::Select(x), SqlQuery::Select(y)) => x.tables@ == y.tables@ && x.fields@
            == y.fields@,
        (SqlQuery::Other(x), SqlQuery::Other(y)) => x == y,
        _ => false,
    }
}

impl Clone for Column {
    fn clone(&self) -> (r: Self)
        ensures
            r == *self,
    {
        let alias = match &self.alias {
            Some(a) => Some(a.clone()),
            None => None,
        };
        let table = match &self.table {
            Some(t) => Some(t.clone()),
            None => None,
        };
        Column { name: self.name.clone(), alias, table, function: self.function }
    }
}

impl Clone for FieldDefinitionExpression {
    fn clone(&self) -> (r: Self)
        ensures
            r == *self,
    {
        match self {
            FieldDefinitionExpression::All => FieldDefinitionExpression::All,
            FieldDefinitionExpression::AllInTable(t) => FieldDefinitionExpression::AllInTable(
                t.clone(),
            ),
            FieldDefinitionExpression::Col(c) => FieldDefinitionExpression::Col(c.clone()),
            FieldDefinitionExpression::Value => FieldDefinitionExpression::Value,
        }
    }
}

impl Clone for SelectStatement {
    fn clone(&self) -> (r: Self)
        ensures
            r.tables@ == self.tables@,
            r.fields@ == self.fields@,
    {
        let mut tables: Vec<String> = Vec::new();
        let mut i: usize = 0;
        while i < self.tables.len()
            invariant
                i <= self.tables@.len(),
                tables@ == self.tables@.subrange(0, i as int),
            decreases self.tables@.len() - i,
        {
            tables.push(self.tables[i].clone());
            i = i + 1;
        }
        let mut fields: Vec<FieldDefinitionExpression> = Vec::new();
        let mut j: usize = 0;
        while j < self.fields.len()
            invariant
                j <= self.fields@.len(),
                fields@ == self.fields@.subrange(0, j as int),
            decreases self.fields@.len() - j,
        {
            fields.push(self.fields[j].clone());
            j = j + 1;
        }
        assert(tables@ =~= self.tables@);
        assert(fields@ =~= self.fields@);
        SelectStatement { tables, fields }
    }
}

impl Clone for SqlQuery {
    fn clone(&self) -> (r: Self)
        ensures
            same_statement(r, *self),
    {
        match self {
            SqlQuery::Select(s) => SqlQuery::Select(s.clone()),
            SqlQuery::Other(k) => SqlQuery::Other(k.clone()),
        }
    }
}

/// A field that the builder accepts: `*`, or a column with neither alias nor
/// table qualifier whose only function, if any, is the count-star marker.
pub open spec fn field_accepted(f: FieldDefinitionExpression) -> bool {
    match f {
        FieldDefinitionExpression::All => true,
        FieldDefinitionExpression::Col(c) => c.alias is None && c.table is None && (
        c.function is None || c.function == Some(FunctionExpression::CountStar)),
        _ => false,
    }
}

pub open spec fn fields_accepted(fields: Seq<FieldDefinitionExpression>) -> bool {
    forall|i: int| 0 <= i < fields.len() ==> field_accepted(#[trigger] fields[i])
}

pub open spec fn has_star(fields: Seq<FieldDefinitionExpression>) -> bool {
    exists|i: int| 0 <= i < fields.len() && #[trigger] fields[i] is All
}

/// The names of the plain column references of a field list, in order.
pub open spec fn column_names(fields: Seq<FieldDefinitionExpression>) -> Seq<Seq<char>>
    decreases fields.len(),
{
    if fields.len() == 0 {
        Seq::empty()
    } else {
        let before = column_names(fields.drop_last());
        match fields.last() {
            FieldDefinitionExpression::Col(c) => if c.function is None {
                before.push(c.name@)
            } else {
                before
            },
            _ => before,
        }
    }
}

/// The projection that a field list asks for: `None` (every column) where it
/// holds `*`, else the names of its column references.
pub open spec fn projection_of(fields: Seq<FieldDefinitionExpression>) -> Option<Seq<Seq<char>>> {
    if has_star(fields) {
        None
    } else {
        Some(column_names(fields))
    }
}

/// The view of an optional list of column names.
pub open spec fn names_view(c: Option<Vec<String>>) -> Option<Seq<Seq<char>>> {
    match c {
        Some(v) => Some(v@.map_values(|s: String| s@)),
        None => None,
    }
}

/// Copies an optional list of column names.
pub fn copy_names(c: &Option<Vec<String>>) -> (r: Option<Vec<String>>)
    ensures
        names_view(r) == names_view(*c),
{
    match c {
        None => None,
        Some(v) => {
            let mut out: Vec<String> = Vec::new();
            let n = v.len();
            let mut i: usize = 0;
            while i < n
                invariant
                    n == v@.len(),
                    i <= n,
                    out@.map_values(|s: String| s@) == v@.subrange(0, i as int).map_values(
                        |s: String| s@,
                    ),
                decreases n - i,
            {
                out.push(v[i].clone());
                i = i + 1;
                assert(v@.subrange(0, i as int).map_values(|s: String| s@) =~= v@.subrange(
                    0,
                    i - 1,
                ).map_values(|s: String| s@).push(v@[i - 1]@));
            }
            assert(v@.subrange(0, n as int) =~= v@);
            Some(out)
        },
    }
}

/// Reduces an accepted SELECT to the table it reads and the projection it
/// asks for. Fails, in this order, where a field is not accepted and where
/// the statement does not read exactly one table.
pub fn validate_select(stmt: &SelectStatement) -> (r: Result<(String, Option<Vec<String>>), CustomError>)
    ensures
        match r {
            Ok((table, columns)) => {
                &&& fields_accepted(stmt.fields@)
                &&& stmt.tables@.len() == 1
                &&& table@ == stmt.tables@[0]@
                &&& names_view(columns) == projection_of(stmt.fields@)
            },
            Err(e) => {
                &&& e.error_status_code == 400
                &&& !fields_accepted(stmt.fields@) ==> e.error_message@
                    == "Bad request: "@ + "Unsupported Statement"@
                &&& fields_accepted(stmt.fields@) ==> stmt.tables@.len() != 1 && e.error_message@
                    == "Bad request: "@ + "Unsupported number of tables"@
            },
        },
{
    let fields = &stmt.fields;
    let n = fields.len();
    let mut star = false;
    let mut names: Vec<String> = Vec::new();
    let mut i: usize = 0;
    while i < n
        invariant
            n == fields@.len(),
            fields == stmt.fields,
            i <= n,
            fields_accepted(fields@.subrange(0, i as int)),
            star == has_star(fields@.subrange(0, i as int)),
            names@.map_values(|s: String| s@) == column_names(fields@.subrange(0, i as int)),
        decreases n - i,
    {
        let ghost before = fields@.subrange(0, i as int);
        let ghost after = fields@.subrange(0, i + 1);
        assert(after.drop_last() =~= before);
        assert(after.last() == fields@[i as int]);
        match &fields[i] {
            FieldDefinitionExpression::All => {
                star = true;
            },
            FieldDefinitionExpression::Col(c) => {
                let plain = c.alias.is_none() && c.table.is_none();
                let marker = match c.function {
                    None => true,
                    Some(FunctionExpression::CountStar) => true,
                    Some(_) => false,
                };
                if !(plain && marker) {
                    assert(!field_accepted(fields@[i as int]));
                    return Err(CustomError::bad_request("Unsupported Statement"));
                }
                if c.function.is_none() {
                    names.push(c.name.clone());
                }
            },
            _ => {
                assert(!field_accepted(fields@[i as int]));
                return Err(CustomError::bad_request("Unsupported Statement"));
            },
        }
        proof {
            assert forall|j: int| 0 <= j < after.len() implies field_accepted(#[trigger] after[j]) by {
                if j < i {
                    assert(after[j] == before[j]);
                }
            }
            if star {
                if !has_star(before) {
                    assert(after[i as int] is All);
                }
            } else {
                assert forall|j: int| 0 <= j < after.len() implies !(#[trigger] after[j] is All) by {
                    if j < i {
                        assert(after[j] == before[j]);
                    }
                }
            }
            if has_star(before) {
                let k = choose|k: int| 0 <= k < before.len() && #[trigger] before[k] is All;
                assert(after[k] == before[k]);
            }
        }
        i = i + 1;
    }
    assert(fields@.subrange(0, n as int) =~= fields@);
    if stmt.tables.len() != 1 {
        return Err(CustomError::bad_request("Unsupported number of tables"));
    }
    let table = stmt.tables[0].clone();
    if star {
        Ok((table, None))
    } else {
        Ok((table, Some(names)))
    }
}

} // verus!
