use bigquery_results::model::CellValue;
use bigquery_results::model::FieldMode;
use bigquery_results::model::FieldType;
use bigquery_results::model::QueryResponse;
use bigquery_results::model::ResultSetError;
use bigquery_results::model::TableFieldSchema;
use bigquery_results::model::TableRow;
use bigquery_results::model::TableSchema;
use bigquery_results::result_set::ResultSet;

fn field(name: &str, field_type: FieldType) -> TableFieldSchema {
    TableFieldSchema {
        name: name.to_string(),
        field_type,
        mode: FieldMode::Nullable,
        fields: Vec::new(),
    }
}

fn record_field(name: &str, fields: Vec<TableFieldSchema>) -> TableFieldSchema {
    TableFieldSchema {
        name: name.to_string(),
        field_type: FieldType::Record,
        mode: FieldMode::Nullable,
        fields,
    }
}

fn scalar(s: &str) -> CellValue {
    CellValue::Scalar(s.to_string())
}

fn row(columns: Vec<CellValue>) -> TableRow {
    TableRow { columns }
}

fn response(fields: Vec<TableFieldSchema>, rows: Vec<TableRow>) -> QueryResponse {
    QueryResponse {
        schema: Some(TableSchema { fields }),
        rows: Some(rows),
    }
}

fn copy_cell(c: &CellValue) -> CellValue {
    match c {
        CellValue::Null => CellValue::Null,
        CellValue::Scalar(s) => CellValue::Scalar(s.clone()),
        CellValue::Record(r) => CellValue::Record(copy_row(r)),
        CellValue::Repeated(cs) => CellValue::Repeated(cs.iter().map(copy_cell).collect()),
    }
}

fn copy_row(r: &TableRow) -> TableRow {
    TableRow {
        columns: r.columns.iter().map(copy_cell).collect(),
    }
}

fn copy_field(f: &TableFieldSchema) -> TableFieldSchema {
    TableFieldSchema {
        name: f.name.clone(),
        field_type: f.field_type,
        mode: f.mode,
        fields: f.fields.iter().map(copy_field).collect(),
    }
}

#[test]
fn advance_succeeds_exactly_row_count_times() {
    let fields = vec![field("v", FieldType::Integer)];
    let rows = vec![
        row(vec![scalar("1")]),
        row(vec![scalar("2")]),
        row(vec![scalar("3")]),
    ];
    let mut rs = ResultSet::new(response(fields, rows));
    let mut successes = 0;
    while rs.advance() {
        successes += 1;
    }
    assert_eq!(successes, 3);
    // once exhausted, every further call keeps returning false
    assert!(!rs.advance());
    assert!(!rs.advance());
    assert_eq!(rs.row_count(), 3);
}

#[test]
fn accessors_fail_before_first_advance() {
    let fields = vec![field("c", FieldType::Integer)];
    let rows = vec![row(vec![scalar("1")])];
    let rs = ResultSet::new(response(fields, rows));
    assert_eq!(
        rs.get_i64_by_index(0),
        Err(ResultSetError::InvalidCursorError)
    );
    assert_eq!(
        rs.get_bool_by_index(0),
        Err(ResultSetError::InvalidCursorError)
    );
    assert_eq!(
        rs.get_string_by_index(0),
        Err(ResultSetError::InvalidCursorError)
    );
    assert!(matches!(
        rs.get_record_by_index(0),
        Err(ResultSetError::InvalidCursorError)
    ));
    assert!(matches!(
        rs.get_repeated_by_index(0),
        Err(ResultSetError::InvalidCursorError)
    ));
    assert_eq!(
        rs.get_i64_by_name("c"),
        Err(ResultSetError::InvalidCursorError)
    );
    assert_eq!(
        rs.get_bool_by_name("c"),
        Err(ResultSetError::InvalidCursorError)
    );
    assert_eq!(
        rs.get_string_by_name("c"),
        Err(ResultSetError::InvalidCursorError)
    );
    assert!(matches!(
        rs.get_record_by_name("c"),
        Err(ResultSetError::InvalidCursorError)
    ));
    assert!(matches!(
        rs.get_repeated_by_name("c"),
        Err(ResultSetError::InvalidCursorError)
    ));
}

#[test]
fn accessors_fail_after_exhaustion() {
    let fields = vec![field("c", FieldType::Integer)];
    let rows = vec![row(vec![scalar("1")])];
    let mut rs = ResultSet::new(response(fields, rows));
    assert!(rs.advance());
    assert!(!rs.advance());
    assert_eq!(
        rs.get_i64_by_index(0),
        Err(ResultSetError::InvalidCursorError)
    );
    assert_eq!(
        rs.get_i64_by_name("c"),
        Err(ResultSetError::InvalidCursorError)
    );
    assert!(!rs.advance());
}

#[test]
fn null_cells_are_absent_not_errors() {
    let fields = vec![
        field("i", FieldType::Integer),
        field("b", FieldType::Boolean),
        field("s", FieldType::String),
        record_field("r", vec![field("x", FieldType::Integer)]),
        field("a", FieldType::String),
    ];
    let rows = vec![row(vec![
        CellValue::Null,
        CellValue::Null,
        CellValue::Null,
        CellValue::Null,
        CellValue::Null,
    ])];
    let mut rs = ResultSet::new(response(fields, rows));
    assert!(rs.advance());
    assert_eq!(rs.get_i64_by_index(0), Ok(None));
    assert_eq!(rs.get_bool_by_index(1), Ok(None));
    assert_eq!(rs.get_string_by_index(2), Ok(None));
    assert!(matches!(rs.get_record_by_index(3), Ok(None)));
    assert!(matches!(rs.get_repeated_by_index(4), Ok(None)));
    assert_eq!(rs.get_i64_by_name("i"), Ok(None));
    assert_eq!(rs.get_bool_by_name("b"), Ok(None));
    assert_eq!(rs.get_string_by_name("s"), Ok(None));
    assert!(matches!(rs.get_record_by_name("r"), Ok(None)));
    assert!(matches!(rs.get_repeated_by_name("a"), Ok(None)));
}

#[test]
fn by_name_equals_by_index() {
    let fields = vec![
        field("num", FieldType::Integer),
        field("flag", FieldType::Boolean),
        field("text", FieldType::String),
    ];
    let rows = vec![row(vec![scalar("-42"), scalar("true"), scalar("hello")])];
    let mut rs = ResultSet::new(response(fields, rows));
    assert!(rs.advance());
    assert_eq!(rs.get_i64_by_name("num"), rs.get_i64_by_index(0));
    assert_eq!(rs.get_bool_by_name("flag"), rs.get_bool_by_index(1));
    assert_eq!(rs.get_string_by_name("text"), rs.get_string_by_index(2));
    assert_eq!(rs.get_i64_by_name("num"), Ok(Some(-42)));
    assert_eq!(rs.get_bool_by_name("flag"), Ok(Some(true)));
    assert_eq!(rs.get_string_by_name("text"), Ok(Some("hello".to_string())));
}

#[test]
fn duplicate_name_resolves_to_first_field() {
    let fields = vec![
        field("dup", FieldType::Integer),
        field("dup", FieldType::Integer),
    ];
    let rows = vec![row(vec![scalar("1"), scalar("2")])];
    let mut rs = ResultSet::new(response(fields, rows));
    assert!(rs.advance());
    assert_eq!(rs.get_i64_by_name("dup"), Ok(Some(1)));
    assert_eq!(rs.get_i64_by_name("dup"), rs.get_i64_by_index(0));
}

#[test]
fn unknown_name_and_out_of_range_index() {
    let fields = vec![field("c", FieldType::Integer)];
    let rows = vec![row(vec![scalar("1")])];
    let mut rs = ResultSet::new(response(fields, rows));
    assert!(rs.advance());
    assert_eq!(
        rs.get_i64_by_name("missing"),
        Err(ResultSetError::UnknownColumnError)
    );
    assert_eq!(
        rs.get_string_by_name("missing"),
        Err(ResultSetError::UnknownColumnError)
    );
    assert_eq!(rs.get_i64_by_index(1), Err(ResultSetError::OutOfRangeError));
    assert_eq!(
        rs.get_string_by_index(7),
        Err(ResultSetError::OutOfRangeError)
    );
}

#[test]
fn cursor_is_checked_before_the_index_bound() {
    let fields = vec![field("c", FieldType::Integer)];
    let rows = vec![row(vec![scalar("1")])];
    let rs = ResultSet::new(response(fields, rows));
    // index 5 is out of range, but the cursor failure wins before advance
    assert_eq!(
        rs.get_i64_by_index(5),
        Err(ResultSetError::InvalidCursorError)
    );
    // an unknown name wins over the cursor: the name is resolved first
    assert_eq!(
        rs.get_i64_by_name("missing"),
        Err(ResultSetError::UnknownColumnError)
    );
}

#[test]
fn single_int_round_trip() {
    let fields = vec![field("c", FieldType::Integer)];
    let rows = vec![row(vec![scalar("3")])];
    let mut rs = ResultSet::new(response(fields, rows));
    assert!(rs.advance());
    assert_eq!(rs.get_i64_by_name("c"), Ok(Some(3)));
    assert!(!rs.advance());
    assert_eq!(rs.row_count(), 1);
}

#[test]
fn nested_record_subfields_are_retrievable_by_name() {
    let fields = vec![record_field(
        "record_value",
        vec![
            field("int_value", FieldType::Integer),
            field("string_value", FieldType::String),
        ],
    )];
    let rows = vec![row(vec![CellValue::Record(row(vec![
        scalar("10"),
        scalar("sub_level_1.1"),
    ]))])];
    let mut rs = ResultSet::new(response(fields, rows));
    assert!(rs.advance());
    let nested_row = match rs.get_record_by_name("record_value") {
        Ok(Some(r)) => copy_row(r),
        other => panic!("expected a record, got {:?}", other.map(|_| ())),
    };
    let nested_fields: Vec<TableFieldSchema> = rs.fields()[0].fields.iter().map(copy_field).collect();
    let mut nested = ResultSet::new(response(nested_fields, vec![nested_row]));
    assert!(nested.advance());
    assert_eq!(nested.get_i64_by_name("int_value"), Ok(Some(10)));
    assert_eq!(
        nested.get_string_by_name("string_value"),
        Ok(Some("sub_level_1.1".to_string()))
    );
}

#[test]
fn doubly_nested_record_round_trip() {
    let leaf = vec![
        field("int_value", FieldType::Integer),
        field("string_value", FieldType::String),
    ];
    let first_level = vec![
        field("int_value", FieldType::Integer),
        field("string_value", FieldType::String),
        record_field("record_value", leaf),
    ];
    let fields = vec![
        field("int_value", FieldType::Integer),
        record_field("record_value", first_level),
    ];
    let rows = vec![row(vec![
        scalar("1"),
        CellValue::Record(row(vec![
            scalar("10"),
            scalar("sub_level_1.1"),
            CellValue::Record(row(vec![scalar("20"), scalar("leaf")])),
        ])),
    ])];
    let mut rs = ResultSet::new(response(fields, rows));
    assert!(rs.advance());
    assert_eq!(rs.get_i64_by_name("int_value"), Ok(Some(1)));
    let first_row = match rs.get_record_by_name("record_value") {
        Ok(Some(r)) => copy_row(r),
        _ => panic!("expected a record"),
    };
    let first_fields: Vec<TableFieldSchema> =
        rs.fields()[1].fields.iter().map(copy_field).collect();
    let leaf_fields: Vec<TableFieldSchema> =
        first_fields[2].fields.iter().map(copy_field).collect();
    let mut first = ResultSet::new(response(first_fields, vec![first_row]));
    assert!(first.advance());
    assert_eq!(first.get_i64_by_name("int_value"), Ok(Some(10)));
    assert_eq!(
        first.get_string_by_name("string_value"),
        Ok(Some("sub_level_1.1".to_string()))
    );
    let leaf_row = match first.get_record_by_name("record_value") {
        Ok(Some(r)) => copy_row(r),
        _ => panic!("expected a record"),
    };
    let mut leaf_rs = ResultSet::new(response(leaf_fields, vec![leaf_row]));
    assert!(leaf_rs.advance());
    assert_eq!(leaf_rs.get_i64_by_name("int_value"), Ok(Some(20)));
    assert_eq!(
        leaf_rs.get_string_by_name("string_value"),
        Ok(Some("leaf".to_string()))
    );
}

#[test]
fn type_conversion_failures() {
    let fields = vec![
        field("i", FieldType::Integer),
        field("b", FieldType::Boolean),
        record_field("r", vec![field("x", FieldType::Integer)]),
        field("a", FieldType::String),
    ];
    let rows = vec![row(vec![
        scalar("abc"),
        scalar("True"),
        CellValue::Record(row(vec![scalar("1")])),
        CellValue::Repeated(vec![scalar("1")]),
    ])];
    let mut rs = ResultSet::new(response(fields, rows));
    assert!(rs.advance());
    // a non-numeric string is not an integer
    assert_eq!(
        rs.get_i64_by_index(0),
        Err(ResultSetError::TypeConversionError)
    );
    // booleans are case-sensitive: only "true" and "false" convert
    assert_eq!(
        rs.get_bool_by_index(1),
        Err(ResultSetError::TypeConversionError)
    );
    // a record cell is not a scalar
    assert_eq!(
        rs.get_i64_by_index(2),
        Err(ResultSetError::TypeConversionError)
    );
    assert_eq!(
        rs.get_string_by_index(2),
        Err(ResultSetError::TypeConversionError)
    );
    // a scalar cell is not a record, and not a repeated column
    assert!(matches!(
        rs.get_record_by_index(0),
        Err(ResultSetError::TypeConversionError)
    ));
    assert!(matches!(
        rs.get_repeated_by_index(0),
        Err(ResultSetError::TypeConversionError)
    ));
    // a repeated cell is not a scalar
    assert_eq!(
        rs.get_string_by_index(3),
        Err(ResultSetError::TypeConversionError)
    );
}

#[test]
fn repeated_column_returns_elements_in_order() {
    let fields = vec![field("xs", FieldType::Integer)];
    let rows = vec![row(vec![CellValue::Repeated(vec![
        scalar("1"),
        scalar("2"),
        scalar("3"),
    ])])];
    let mut rs = ResultSet::new(response(fields, rows));
    assert!(rs.advance());
    let elements = match rs.get_repeated_by_name("xs") {
        Ok(Some(cells)) => cells,
        _ => panic!("expected a repeated column"),
    };
    assert_eq!(elements.len(), 3);
    for (k, expected) in ["1", "2", "3"].iter().enumerate() {
        match &elements[k] {
            CellValue::Scalar(s) => assert_eq!(s, expected),
            other => panic!("expected a scalar element, got {:?}", other),
        }
    }
}

#[test]
fn empty_result_set_is_exhausted_immediately() {
    let fields = vec![field("c", FieldType::Integer)];
    let mut rs = ResultSet::new(response(fields, Vec::new()));
    assert_eq!(rs.row_count(), 0);
    assert!(!rs.advance());
    assert!(!rs.advance());
}

#[test]
fn absent_schema_and_rows_are_treated_as_empty() {
    let mut rs = ResultSet::new(QueryResponse {
        schema: None,
        rows: None,
    });
    assert_eq!(rs.row_count(), 0);
    assert!(!rs.advance());
    assert_eq!(
        rs.get_i64_by_name("anything"),
        Err(ResultSetError::UnknownColumnError)
    );
}

#[test]
fn multi_row_values_follow_the_cursor() {
    let fields = vec![
        field("int_value", FieldType::Integer),
        field("bool_value", FieldType::Boolean),
        field("string_value", FieldType::String),
    ];
    let rows = vec![
        row(vec![scalar("1"), scalar("false"), scalar("first")]),
        row(vec![scalar("2"), scalar("true"), scalar("second")]),
        row(vec![scalar("3"), scalar("false"), scalar("third")]),
        row(vec![scalar("4"), scalar("true"), scalar("fourth")]),
    ];
    let mut rs = ResultSet::new(response(fields, rows));
    let expected = [
        (1, false, "first"),
        (2, true, "second"),
        (3, false, "third"),
        (4, true, "fourth"),
    ];
    for (i, b, s) in expected {
        assert!(rs.advance());
        assert_eq!(rs.get_i64_by_name("int_value"), Ok(Some(i)));
        assert_eq!(rs.get_bool_by_name("bool_value"), Ok(Some(b)));
        assert_eq!(rs.get_string_by_name("string_value"), Ok(Some(s.to_string())));
    }
    assert!(!rs.advance());
    assert_eq!(rs.row_count(), 4);
}
