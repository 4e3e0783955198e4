use typefunnel::Error;
use typefunnel::Schema;
use typefunnel::source::HasSchema;
use typefunnel::source::postgresql::InputShape;
use typefunnel::source::postgresql::OutputShape;
use typefunnel::source::postgresql::Query;
use typefunnel::source::postgresql::SqlType;
use typefunnel::source::postgresql::type_to_schema;
use typefunnel::text::i32_text;
use typefunnel::text::usize_text;

fn scalar_text_query(query: &str, column_types: Vec<SqlType>) -> Query {
    Query {
        query: query.to_string(),
        input_shape: InputShape::Row,
        output_shape: OutputShape::Scalar,
        param_types: vec![],
        column_types,
    }
}

#[test]
fn test_scalar_text() {
    let source = scalar_text_query("SELECT '' :: text", vec![SqlType::Text]);
    let schema = source.schema();
    assert_eq!(schema, Ok((Schema::AllOf(vec![]), Schema::String)));
}

#[test]
fn test_row_text() {
    let source = Query {
        query: "SELECT 0 :: int, '' :: text".to_string(),
        input_shape: InputShape::Row,
        output_shape: OutputShape::Row,
        param_types: vec![],
        column_types: vec![SqlType::Int4, SqlType::Text],
    };
    let schema = source.schema();
    let expected = Schema::AllOf(vec![
        Schema::SignedInteger(i32::MIN, i32::MAX),
        Schema::String,
    ]);
    assert_eq!(schema, Ok((Schema::AllOf(vec![]), expected)));
}

#[test]
fn test_scalar_zero_columns_is_shape_mismatch() {
    let source = scalar_text_query("SELECT", vec![]);
    assert_eq!(source.schema(), Err(Error::ShapeMismatch));
}

#[test]
fn test_scalar_two_columns_is_shape_mismatch() {
    let source = scalar_text_query("SELECT 0, 1", vec![SqlType::Int4, SqlType::Int4]);
    assert_eq!(source.schema(), Err(Error::ShapeMismatch));
}

#[test]
fn test_unmapped_parameter_type_reported_before_shape_mismatch() {
    let source = Query {
        query: "SELECT 0, 1".to_string(),
        input_shape: InputShape::Row,
        output_shape: OutputShape::Scalar,
        param_types: vec![SqlType::Other],
        column_types: vec![SqlType::Int4, SqlType::Int4],
    };
    assert_eq!(source.schema(), Err(Error::UnsupportedShape));
}

#[test]
fn test_scalar_input_shape_unimplemented() {
    let source = Query {
        query: "SELECT $1 :: int".to_string(),
        input_shape: InputShape::Scalar,
        output_shape: OutputShape::Row,
        param_types: vec![SqlType::Int4],
        column_types: vec![SqlType::Int4],
    };
    assert_eq!(source.schema(), Err(Error::UnsupportedShape));
}

#[test]
fn test_table_output_shape_unimplemented() {
    let source = Query {
        query: "SELECT 0 :: int".to_string(),
        input_shape: InputShape::Row,
        output_shape: OutputShape::Table,
        param_types: vec![],
        column_types: vec![SqlType::Int4],
    };
    assert_eq!(source.schema(), Err(Error::UnsupportedShape));
}

#[test]
fn test_type_to_schema_mapped_set() {
    assert_eq!(
        type_to_schema(&SqlType::Int4),
        Ok(Schema::SignedInteger(i32::MIN, i32::MAX))
    );
    assert_eq!(type_to_schema(&SqlType::Float4), Ok(Schema::SinglePrecision));
    assert_eq!(type_to_schema(&SqlType::Float8), Ok(Schema::DoublePrecision));
    assert_eq!(type_to_schema(&SqlType::Text), Ok(Schema::String));
    assert_eq!(type_to_schema(&SqlType::Other), Err(Error::UnsupportedShape));
}

#[test]
fn test_schema_structural_equality() {
    let a = Schema::AllOf(vec![Schema::SignedInteger(1, 2), Schema::String]);
    let b = Schema::AllOf(vec![Schema::SignedInteger(1, 2), Schema::String]);
    let c = Schema::AllOf(vec![Schema::SignedInteger(1, 3), Schema::String]);
    let d = Schema::AllOf(vec![Schema::String, Schema::SignedInteger(1, 2)]);
    assert_eq!(a, b);
    assert!(a != c);
    assert!(a != d);
    assert!(Schema::ByteString != Schema::String);
    assert!(Schema::OneOf(vec![]) != Schema::AllOf(vec![]));
}

#[test]
fn test_schema_deep_clone() {
    let a = Schema::AllOf(vec![
        Schema::OneOf(vec![Schema::DoublePrecision]),
        Schema::SignedInteger(-7, 7),
    ]);
    let b = a.deep_clone();
    assert_eq!(a, b);
}

#[test]
fn test_error_messages() {
    assert_eq!(
        Error::UnsupportedShape.message(),
        "Code generation for this schema or shape is not implemented."
    );
    assert_eq!(
        Error::ShapeMismatch.message(),
        "The expected shape of the query result was scalar, but the query returns zero or more than one column."
    );
}

#[test]
fn test_decimal_text() {
    assert_eq!(usize_text(0), "0");
    assert_eq!(usize_text(10), "10");
    assert_eq!(usize_text(90210), "90210");
    assert_eq!(i32_text(0), "0");
    assert_eq!(i32_text(-5), "-5");
    assert_eq!(i32_text(i32::MIN), "-2147483648");
    assert_eq!(i32_text(i32::MAX), "2147483647");
}
