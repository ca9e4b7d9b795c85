use vstd::prelude::*;
use vstd::string::StringExecFns;
use crate::error::CustomError;
use crate::value::SqlType;

verus! {

/// When a record became ready: seconds since the Unix epoch and the
/// nanoseconds past that second, both in UTC.
#[derive(Debug, Clone, Copy, PartialEq, Eq, Structural)]
pub struct RecordTime {
    pub secs: i64,
    pub nanos: u32,
}

/// A row: the time it was built and its ordered column values.
#[derive(Debug)]
pub struct QueryRecord {
    pub ready: RecordTime,
    pub columns: Vec<SqlType>,
}

/// The outcome of a query: its records, in the order the graph emitted them.
#[derive(Debug)]
pub struct QueryResult {
    pub records: Vec<QueryRecord>,
}

/// Relies on `std::time::SystemTime::now` and on chrono's
/// `From<SystemTime> for DateTime<Utc>`, read through `DateTime::timestamp`
/// and `DateTime::timestamp_subsec_nanos`. The conversion maps a clock set
/// before the Unix epoch to a negative timestamp instead of failing; it
/// fails only beyond chrono's range of some 262,000 years, which the system
/// clock cannot be set to. The wall clock promises nothing about the value.
#[verifier::external_body]
fn now_utc() -> (r: RecordTime) {
    let now = chrono::DateTime::<chrono::Utc>::from(std::time::SystemTime::now());
    RecordTime { secs: now.timestamp(), nanos: now.timestamp_subsec_nanos() }
}

impl RecordTime {
    /// The current wall-clock time.
    pub fn now() -> (r: RecordTime) {
        now_utc()
    }
}

impl Clone for QueryRecord {
    fn clone(&self) -> (r: Self)
        ensures
            r.ready == self.ready,
            r.columns@ == self.columns@,
    {
        let mut columns: Vec<SqlType> = Vec::new();
        let n = self.columns.len();
        let mut i: usize = 0;
        while i < n
            invariant
                n == self.columns@.len(),
                i <= n,
                columns@ == self.columns@.subrange(0, i as int),
            decreases n - i,
        {
            columns.push(self.columns[i].clone());
            i = i + 1;
        }
        QueryRecord { ready: self.ready, columns }
    }
}

/// How a column's text becomes a value.
#[derive(Debug, Clone, Copy, PartialEq, Eq, Structural)]
pub enum ColumnKind {
    Int64,
    Float64,
    Text,
    Unknown,
}

/// The converter that a schema's column type name selects; a name that is
/// not recognized gives `Null` for every field.
pub open spec fn kind_of_type_name(t: Seq<char>) -> ColumnKind {
    if t == "i64"@ {
        ColumnKind::Int64
    } else if t == "f64"@ {
        ColumnKind::Float64
    } else if t == "string"@ {
        ColumnKind::Text
    } else {
        ColumnKind::Unknown
    }
}

pub open spec fn is_decimal_digit(c: char) -> bool {
    '0' <= c <= '9'
}

pub open spec fn all_decimal_digits(s: Seq<char>) -> bool {
    s.len() > 0 && forall|i: int| 0 <= i < s.len() ==> is_decimal_digit(#[trigger] s[i])
}

/// The number that a string of decimal digits writes.
pub open spec fn digits_value(s: Seq<char>) -> int
    decreases s.len(),
{
    if s.len() == 0 {
        0
    } else {
        digits_value(s.drop_last()) * 10 + (s.last() as int - '0' as int)
    }
}

/// The integer that a text writes in decimal: an optional `+` or `-` and at
/// least one digit, nothing else.
pub open spec fn decimal_reading(s: Seq<char>) -> Option<int> {
    if s.len() > 0 && s[0] == '-' && all_decimal_digits(s.drop_first()) {
        Some(-digits_value(s.drop_first()))
    } else if s.len() > 0 && s[0] == '+' && all_decimal_digits(s.drop_first()) {
        Some(digits_value(s.drop_first()))
    } else if all_decimal_digits(s) {
        Some(digits_value(s))
    } else {
        None
    }
}

/// The `i64` that a text parses to: its decimal reading, where that fits.
pub open spec fn i64_reading(s: Seq<char>) -> Option<i64> {
    match decimal_reading(s) {
        Some(n) => if i64::MIN <= n <= i64::MAX {
            Some(n as i64)
        } else {
            None
        },
        None => None,
    }
}

/// Relies on `<i64 as FromStr>::from_str` (through `str::parse`), which
/// accepts an optional sign and one or more ASCII digits, and fails where the
/// number does not fit.
#[verifier::external_body]
fn parse_i64(s: &str) -> (r: Option<i64>)
    ensures
        r == i64_reading(s@),
{
    s.parse::<i64>().ok()
}

/// The float reading of field `i`, where the caller supplied one.
pub open spec fn float_at(floats: Seq<Option<u64>>, i: int) -> Option<u64> {
    if 0 <= i < floats.len() {
        floats[i]
    } else {
        None
    }
}

/// Whether a field converts under its column's kind.
pub open spec fn field_converts(kind: ColumnKind, text: Seq<char>, float: Option<u64>) -> bool {
    match kind {
        ColumnKind::Int64 => i64_reading(text) is Some,
        ColumnKind::Float64 => float is Some,
        _ => true,
    }
}

/// Whether `v` is what a field converts to under its column's kind.
pub open spec fn field_value(kind: ColumnKind, text: String, float: Option<u64>, v: SqlType) -> bool {
    match kind {
        ColumnKind::Int64 => v == SqlType::Int64(i64_reading(text@)->0),
        ColumnKind::Float64 => v == SqlType::Float64(float->0),
        ColumnKind::Text => v == SqlType::String(text),
        ColumnKind::Unknown => v == SqlType::Null,
    }
}

/// The message of the error that a field which does not convert raises.
pub open spec fn conversion_message(kind: ColumnKind) -> Seq<char> {
    match kind {
        ColumnKind::Float64 => "Bad request. ParseFloatError"@,
        _ => "Bad request. ParseIntError"@,
    }
}

/// Converts raw string fields into a typed record, one converter for each
/// position of a schema.
#[derive(Debug)]
pub struct QueryRecordBuilder {
    into_types: Vec<ColumnKind>,
}

impl QueryRecordBuilder {
    /// The converters of the builder, one for each column of the schema.
    pub closed spec fn kinds(&self) -> Seq<ColumnKind> {
        self.into_types@
    }

    /// Selects a converter for each column type name of a schema.
    pub fn new(column_types: &Vec<String>) -> (r: QueryRecordBuilder)
        ensures
            r.kinds().len() == column_types@.len(),
            forall|i: int|
                0 <= i < column_types@.len() ==> r.kinds()[i] == kind_of_type_name(
                    #[trigger] column_types@[i]@,
                ),
    {
        let mut into_types: Vec<ColumnKind> = Vec::new();
        let n = column_types.len();
        let mut i: usize = 0;
        while i < n
            invariant
                n == column_types@.len(),
                i <= n,
                into_types@.len() == i,
                forall|j: int|
                    0 <= j < i ==> into_types@[j] == kind_of_type_name(#[trigger] column_types@[j]@),
            decreases n - i,
        {
            let t = &column_types[i];
            let kind = if *t == String::from_str("i64") {
                ColumnKind::Int64
            } else if *t == String::from_str("f64") {
                ColumnKind::Float64
            } else if *t == String::from_str("string") {
                ColumnKind::Text
            } else {
                ColumnKind::Unknown
            };
            into_types.push(kind);
            i = i + 1;
        }
        QueryRecordBuilder { into_types }
    }

    /// Converts one raw row. `floats[i]` is the bit pattern of field `i` read
    /// as a 64-bit float, or `None` where it does not read as one; it is
    /// consulted for the float columns only. Fails with a conversion error
    /// where the row's length differs from the schema's or a numeric field
    /// does not convert. The record is stamped with the current time.
    pub fn from_vec(&self, columns: Vec<String>, floats: Vec<Option<u64>>) -> (r: Result<
        QueryRecord,
        CustomError,
    >)
        ensures
            match r {
                Ok(rec) => {
                    &&& columns@.len() == self.kinds().len()
                    &&& forall|i: int|
                        0 <= i < columns@.len() ==> field_converts(
                            self.kinds()[i],
                            #[trigger] columns@[i]@,
                            float_at(floats@, i),
                        )
                    &&& rec.columns@.len() == columns@.len()
                    &&& forall|i: int|
                        0 <= i < columns@.len() ==> field_value(
                            self.kinds()[i],
                            columns@[i],
                            float_at(floats@, i),
                            #[trigger] rec.columns@[i],
                        )
                },
                Err(e) => {
                    &&& e.error_status_code == 400
                    &&& columns@.len() != self.kinds().len() ==> e.error_message@
                        == "Bad request. Column count mismatch"@
                    &&& columns@.len() == self.kinds().len() ==> exists|i: int|
                        0 <= i < columns@.len() && !field_converts(
                            self.kinds()[i],
                            #[trigger] columns@[i]@,
                            float_at(floats@, i),
                        ) && (forall|j: int|
                            0 <= j < i ==> field_converts(
                                self.kinds()[j],
                                #[trigger] columns@[j]@,
                                float_at(floats@, j),
                            )) && e.error_message@ == conversion_message(self.kinds()[i])
                },
            },
    {
        let n = self.into_types.len();
        if columns.len() != n {
            return Err(
                CustomError::new(400, String::from_str("Bad request. Column count mismatch")),
            );
        }
        let mut values: Vec<SqlType> = Vec::new();
        let mut i: usize = 0;
        while i < n
            invariant
                n == self.kinds().len(),
                n == columns@.len(),
                i <= n,
                values@.len() == i,
                forall|j: int|
                    0 <= j < i ==> field_converts(
                        self.kinds()[j],
                        #[trigger] columns@[j]@,
                        float_at(floats@, j),
                    ),
                forall|j: int|
                    0 <= j < i ==> field_value(
                        self.kinds()[j],
                        columns@[j],
                        float_at(floats@, j),
                        #[trigger] values@[j],
                    ),
            decreases n - i,
        {
            let text = &columns[i];
            let float = if i < floats.len() {
                floats[i]
            } else {
                None
            };
            assert(float == float_at(floats@, i as int));
            let v = match self.into_types[i] {
                ColumnKind::Int64 => match parse_i64(text.as_str()) {
                    Some(x) => SqlType::Int64(x),
                    None => {
                        return Err(
                            CustomError::new(400, String::from_str("Bad request. ParseIntError")),
                        );
                    },
                },
                ColumnKind::Float64 => match float {
                    Some(bits) => SqlType::Float64(bits),
                    None => {
                        assert(!field_converts(
                            self.kinds()[i as int],
                            columns@[i as int]@,
                            float_at(floats@, i as int),
                        ));
                        return Err(
                            CustomError::new(
                                400,
                                String::from_str("Bad request. ParseFloatError"),
                            ),
                        );
                    },
                },
                ColumnKind::Text => SqlType::String(text.clone()),
                ColumnKind::Unknown => SqlType::Null,
            };
            values.push(v);
            i = i + 1;
        }
        Ok(QueryRecord { ready: RecordTime::now(), columns: values })
    }
}

} // verus!
