use vstd::prelude::*;
use vstd::string::StringExecFns;
use crate::error::CustomError;

verus! {

/// A dynamically typed column value. A 64-bit float is held as its IEEE-754
/// bit pattern, so that the value keeps every bit through a round trip.
#[derive(Debug)]
pub enum SqlType {
    String(String),
    Int64(i64),
    Float64(u64),
    Null,
}

/// What a value carries, without the variant's name: the type-erased view of
/// a value, and the body of its tagged form.
#[derive(Debug)]
pub enum TagPayload {
    Text(String),
    Integer(i64),
    Bits(u64),
    Unit,
}

/// The externally tagged form of a value: the variant's name and its payload.
#[derive(Debug)]
pub struct TaggedValue {
    pub tag: String,
    pub payload: TagPayload,
}

/// The name that a value reports for its type.
pub open spec fn type_name_of(v: SqlType) -> Seq<char> {
    match v {
        SqlType::String(_) => "STRING"@,
        SqlType::Int64(_) => "I64"@,
        SqlType::Float64(_) => "F64"@,
        SqlType::Null => "NULL"@,
    }
}

/// The tag under which a value is serialized.
pub open spec fn tag_of(v: SqlType) -> Seq<char> {
    match v {
        SqlType::String(_) => "String"@,
        SqlType::Int64(_) => "i64"@,
        SqlType::Float64(_) => "f64"@,
        SqlType::Null => "Null"@,
    }
}

pub open spec fn payload_of(v: SqlType) -> TagPayload {
    match v {
        SqlType::String(s) => TagPayload::Text(s),
        SqlType::Int64(n) => TagPayload::Integer(n),
        SqlType::Float64(b) => TagPayload::Bits(b),
        SqlType::Null => TagPayload::Unit,
    }
}

/// The value that a tag and a payload stand for, if the payload is of the
/// kind that the tag names.
pub open spec fn value_of_tagged(tag: Seq<char>, p: TagPayload) -> Option<SqlType> {
    if tag == "String"@ {
        match p {
            TagPayload::Text(s) => Some(SqlType::String(s)),
            _ => None,
        }
    } else if tag == "i64"@ {
        match p {
            TagPayload::Integer(n) => Some(SqlType::Int64(n)),
            _ => None,
        }
    } else if tag == "f64"@ {
        match p {
            TagPayload::Bits(b) => Some(SqlType::Float64(b)),
            _ => None,
        }
    } else if tag == "Null"@ {
        match p {
            TagPayload::Unit => Some(SqlType::Null),
            _ => None,
        }
    } else {
        None
    }
}

/// Two values are equal when they are of one variant with equal contents.
pub open spec fn same_value(a: SqlType, b: SqlType) -> bool {
    match (a, b) {
        (SqlType::String(x), SqlType::String(y)) => x@ == y@,
        (SqlType::Int64(x), SqlType::Int64(y)) => x == y,
        (SqlType::Float64(x), SqlType::Float64(y)) => x == y,
        (SqlType::Null, SqlType::Null) => true,
        _ => false,
    }
}

impl Clone for SqlType {
    fn clone(&self) -> (r: Self)
        ensures
            r == *self,
    {
        match self {
            SqlType::String(s) => SqlType::String(s.clone()),
            SqlType::Int64(n) => SqlType::Int64(*n),
            SqlType::Float64(b) => SqlType::Float64(*b),
            SqlType::Null => SqlType::Null,
        }
    }
}

impl PartialEq for SqlType {
    fn eq(&self, other: &SqlType) -> (r: bool)
        ensures
            r == same_value(*self, *other),
    {
        match (self, other) {
            (SqlType::String(x), SqlType::String(y)) => *x == *y,
            (SqlType::Int64(x), SqlType::Int64(y)) => *x == *y,
            (SqlType::Float64(x), SqlType::Float64(y)) => *x == *y,
            (SqlType::Null, SqlType::Null) => true,
            _ => false,
        }
    }
}

impl vstd::std_specs::cmp::PartialEqSpecImpl for SqlType {
    open spec fn obeys_eq_spec() -> bool {
        true
    }

    open spec fn eq_spec(&self, other: &SqlType) -> bool {
        same_value(*self, *other)
    }
}

impl SqlType {
    /// The stable name of the value's type.
    pub fn name(&self) -> (r: String)
        ensures
            r@ == type_name_of(*self),
    {
        match self {
            SqlType::String(_) => String::from_str("STRING"),
            SqlType::Int64(_) => String::from_str("I64"),
            SqlType::Float64(_) => String::from_str("F64"),
            SqlType::Null => String::from_str("NULL"),
        }
    }

    /// Read access to the value's contents for code that does not match on
    /// the variant.
    pub fn value(&self) -> (r: TagPayload)
        ensures
            r == payload_of(*self),
    {
        match self {
            SqlType::String(s) => TagPayload::Text(s.clone()),
            SqlType::Int64(n) => TagPayload::Integer(*n),
            SqlType::Float64(b) => TagPayload::Bits(*b),
            SqlType::Null => TagPayload::Unit,
        }
    }

    /// The tag of the value's variant.
    pub fn tag(&self) -> (r: String)
        ensures
            r@ == tag_of(*self),
    {
        match self {
            SqlType::String(_) => String::from_str("String"),
            SqlType::Int64(_) => String::from_str("i64"),
            SqlType::Float64(_) => String::from_str("f64"),
            SqlType::Null => String::from_str("Null"),
        }
    }

    /// The externally tagged form of the value.
    pub fn to_tagged(&self) -> (r: TaggedValue)
        ensures
            r.tag@ == tag_of(*self),
            r.payload == payload_of(*self),
    {
        TaggedValue { tag: self.tag(), payload: self.value() }
    }

    /// Rebuilds a value from its tagged form; fails where the tag is unknown
    /// or the payload is not of the kind that the tag names.
    pub fn from_tagged(t: TaggedValue) -> (r: Result<SqlType, CustomError>)
        ensures
            match r {
                Ok(v) => value_of_tagged(t.tag@, t.payload) == Some(v),
                Err(e) => value_of_tagged(t.tag@, t.payload) is None && e.error_status_code == 400,
            },
    {
        let TaggedValue { tag, payload } = t;
        let known = if tag == String::from_str("String") {
            match payload {
                TagPayload::Text(s) => Some(SqlType::String(s)),
                _ => None,
            }
        } else if tag == String::from_str("i64") {
            match payload {
                TagPayload::Integer(n) => Some(SqlType::Int64(n)),
                _ => None,
            }
        } else if tag == String::from_str("f64") {
            match payload {
                TagPayload::Bits(b) => Some(SqlType::Float64(b)),
                _ => None,
            }
        } else if tag == String::from_str("Null") {
            match payload {
                TagPayload::Unit => Some(SqlType::Null),
                _ => None,
            }
        } else {
            None
        };
        match known {
            Some(v) => Ok(v),
            None => Err(CustomError::bad_request("unknown value tag")),
        }
    }
}

proof fn lemma_tag_literals_distinct()
    ensures
        "String"@ != "i64"@,
        "String"@ != "f64"@,
        "String"@ != "Null"@,
        "i64"@ != "f64"@,
        "i64"@ != "Null"@,
        "f64"@ != "Null"@,
{
    reveal_strlit("String");
    reveal_strlit("i64");
    reveal_strlit("f64");
    reveal_strlit("Null");
    assert("String"@.len() != "i64"@.len());
    assert("String"@.len() != "f64"@.len());
    assert("String"@.len() != "Null"@.len());
    assert("Null"@.len() != "i64"@.len());
    assert("Null"@.len() != "f64"@.len());
    assert("i64"@[0] != "f64"@[0]);
}

/// Decoding the tagged form of a value gives the value back.
pub proof fn lemma_tagged_round_trip(v: SqlType)
    ensures
        value_of_tagged(tag_of(v), payload_of(v)) == Some(v),
{
    lemma_tag_literals_distinct();
}

/// Values of different variants are serialized under different tags, so a
/// decoder tells them apart without knowing the schema.
pub proof fn lemma_tags_distinguish(a: SqlType, b: SqlType)
    requires
        tag_of(a) == tag_of(b),
    ensures
        a is String <==> b is String,
        a is Int64 <==> b is Int64,
        a is Float64 <==> b is Float64,
        a is Null <==> b is Null,
{
    lemma_tag_literals_distinct();
}

} // verus!
