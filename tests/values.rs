use hypergraph::error::CustomError;
use hypergraph::record::{QueryRecordBuilder, RecordTime};
use hypergraph::value::{SqlType, TagPayload, TaggedValue};

fn schema(types: &[&str]) -> Vec<String> {
    types.iter().map(|t| t.to_string()).collect()
}

fn row(fields: &[&str]) -> Vec<String> {
    fields.iter().map(|f| f.to_string()).collect()
}

fn float_readings(fields: &[String]) -> Vec<Option<u64>> {
    fields.iter().map(|f| f.parse::<f64>().ok().map(f64::to_bits)).collect()
}

#[test]
fn builder_converts_int_and_string_row() {
    let builder = QueryRecordBuilder::new(&schema(&["i64", "string"]));
    let fields = row(&["10", "hello"]);
    let floats = float_readings(&fields);
    let record = builder.from_vec(fields, floats).unwrap();
    assert_eq!(record.columns, vec![SqlType::Int64(10), SqlType::String("hello".to_string())]);
}

#[test]
fn builder_rejects_bad_integer() {
    let builder = QueryRecordBuilder::new(&schema(&["i64", "string"]));
    let fields = row(&["abc", "hello"]);
    let floats = float_readings(&fields);
    let err = builder.from_vec(fields, floats).unwrap_err();
    assert_eq!(err.error_status_code, 400);
    assert_eq!(err.error_message, "Bad request. ParseIntError");
}

#[test]
fn builder_rejects_short_row() {
    let builder = QueryRecordBuilder::new(&schema(&["i64", "string"]));
    let fields = row(&["10"]);
    let floats = float_readings(&fields);
    let err = builder.from_vec(fields, floats).unwrap_err();
    assert_eq!(err.error_status_code, 400);
    assert_eq!(err.error_message, "Bad request. Column count mismatch");
}

#[test]
fn builder_rejects_long_row() {
    let builder = QueryRecordBuilder::new(&schema(&["i64"]));
    let fields = row(&["10", "11"]);
    let floats = float_readings(&fields);
    assert!(builder.from_vec(fields, floats).is_err());
}

#[test]
fn builder_reads_floats_and_unknown_types() {
    let builder = QueryRecordBuilder::new(&schema(&["f64", "date", "string"]));
    let fields = row(&["2.5", "2020-01-01", "x"]);
    let floats = float_readings(&fields);
    let record = builder.from_vec(fields, floats).unwrap();
    assert_eq!(
        record.columns,
        vec![SqlType::Float64(2.5f64.to_bits()), SqlType::Null, SqlType::String("x".to_string())]
    );
}

#[test]
fn builder_rejects_bad_float() {
    let builder = QueryRecordBuilder::new(&schema(&["f64"]));
    let fields = row(&["two"]);
    let floats = float_readings(&fields);
    let err = builder.from_vec(fields, floats).unwrap_err();
    assert_eq!(err.error_message, "Bad request. ParseFloatError");
}

#[test]
fn builder_integer_edges() {
    let builder = QueryRecordBuilder::new(&schema(&["i64"]));
    let read = |s: &str| {
        let fields = row(&[s]);
        let floats = float_readings(&fields);
        builder.from_vec(fields, floats).ok().map(|r| r.columns)
    };
    assert_eq!(read("+5"), Some(vec![SqlType::Int64(5)]));
    assert_eq!(read("-0"), Some(vec![SqlType::Int64(0)]));
    assert_eq!(read("-9223372036854775808"), Some(vec![SqlType::Int64(i64::MIN)]));
    assert_eq!(read("9223372036854775808"), None);
    assert_eq!(read("-"), None);
    assert_eq!(read(""), None);
    assert_eq!(read(" 1"), None);
}

#[test]
fn builder_stamps_current_time() {
    let builder = QueryRecordBuilder::new(&schema(&["string"]));
    let record = builder.from_vec(row(&["a"]), vec![None]).unwrap();
    assert!(record.ready.secs > 1_500_000_000);
}

#[test]
fn tagged_round_trip_keeps_variant() {
    let seven = SqlType::Int64(7);
    let back = SqlType::from_tagged(seven.to_tagged()).unwrap();
    assert_eq!(back, SqlType::Int64(7));
    let float_seven = SqlType::Float64(7.0f64.to_bits());
    assert_ne!(seven.to_tagged().tag, float_seven.to_tagged().tag);
    assert_ne!(back, float_seven);
    for v in [SqlType::String("s".to_string()), SqlType::Null, float_seven.clone()] {
        assert_eq!(SqlType::from_tagged(v.to_tagged()).unwrap(), v);
    }
}

#[test]
fn tagged_decode_rejects_mismatch() {
    let bad = TaggedValue { tag: "i64".to_string(), payload: TagPayload::Text("7".to_string()) };
    assert_eq!(SqlType::from_tagged(bad).unwrap_err().error_status_code, 400);
    let unknown = TaggedValue { tag: "u8".to_string(), payload: TagPayload::Unit };
    assert!(SqlType::from_tagged(unknown).is_err());
}

#[test]
fn value_names_and_tags() {
    assert_eq!(SqlType::String("a".into()).name(), "STRING");
    assert_eq!(SqlType::Int64(1).name(), "I64");
    assert_eq!(SqlType::Float64(0).name(), "F64");
    assert_eq!(SqlType::Null.name(), "NULL");
    assert_eq!(SqlType::Int64(1).tag(), "i64");
    assert!(matches!(SqlType::Int64(3).value(), TagPayload::Integer(3)));
}

#[test]
fn can_downcast_nonnull_type() {
    let values: Vec<SqlType> = (0..20)
        .map(|i: i64| match i % 3 {
            0 => SqlType::String(i.to_string()),
            1 => SqlType::Int64(i),
            _ => SqlType::Float64((i as f64).to_bits()),
        })
        .collect();
    for (i, v) in values.iter().enumerate() {
        match (i % 3, v.value()) {
            (0, TagPayload::Text(s)) => assert_eq!(s, i.to_string()),
            (1, TagPayload::Integer(n)) => assert_eq!(n, i as i64),
            (2, TagPayload::Bits(b)) => assert_eq!(f64::from_bits(b), i as f64),
            _ => panic!("value of the wrong kind"),
        }
    }
}

#[test]
fn error_constructors_and_responses() {
    let e = CustomError::new(404, "The record is not found".to_string());
    assert_eq!(e.error_status_code, 404);
    let (status, message) = e.response_parts();
    assert_eq!(status, 404);
    assert_eq!(message, "The record is not found");
    let (status, message) = CustomError::internal("boom".to_string()).response_parts();
    assert_eq!(status, 501);
    assert_eq!(message, "Internal server error");
    let (status, _) = CustomError::new(42, "odd".to_string()).response_parts();
    assert_eq!(status, 500);
    let (status, message) = CustomError::new(999, "odd".to_string()).response_parts();
    assert_eq!(status, 999);
    assert_eq!(message, "Internal server error");
    let b = CustomError::bad_request("Unsupported Statement");
    assert_eq!(b.error_status_code, 400);
    assert_eq!(b.error_message, "Bad request: Unsupported Statement");
    let t = RecordTime { secs: 3, nanos: 4 };
    assert_eq!(t, t.clone());
}

#[test]
fn auth_bootstraps_only_without_users() {
    let admin = hypergraph::auth::init(0).unwrap();
    assert_eq!(admin.username, "admin");
    assert_eq!(admin.password, "admin");
    assert!(hypergraph::auth::init(3).is_none());
}
