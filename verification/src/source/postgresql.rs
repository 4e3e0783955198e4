//! This module implements the PostgreSQL query source.
//!
//! Preparing a statement against a live connection is left to the caller:
//! a query source carries the prepared statement's parameter and column
//! type metadata as plain values, and schema derivation is a pure function
//! of that metadata and the declared shapes.

use vstd::prelude::*;
use crate::Error;
use crate::Schema;
use crate::SchemaV;
use crate::single_schema_result_view;
use crate::source::HasSchema;
use crate::source::call::ECMAScript;
use crate::source::call::ECMAScriptConvention;

verus! {

broadcast use crate::lemma_seq_view;

/// A PostgreSQL type, reduced to what schema derivation reads of it.
#[derive(Clone, Copy, Debug, PartialEq, Eq, Structural)]
pub enum SqlType {
    /// A 32-bit signed integer column or parameter.
    Int4,
    /// A single-precision floating-point column or parameter.
    Float4,
    /// A double-precision floating-point column or parameter.
    Float8,
    /// A Unicode text column or parameter.
    Text,
    /// Any other type: schema derivation for it is not implemented.
    Other,
}

/// The expected shape of the parameters of a query.
#[derive(Clone, Copy, Debug, PartialEq, Eq, Structural)]
pub enum InputShape {
    /// A single row with any number of columns.
    Row,
    /// A single row with a single column.
    Scalar,
}

/// The expected shape of a query result.
#[derive(Clone, Copy, Debug, PartialEq, Eq, Structural)]
pub enum OutputShape {
    /// Any number of rows with any number of columns.
    Table,
    /// A single row with any number of columns.
    Row,
    /// A single row with a single column.
    Scalar,
}

/// A SQL query source.
pub struct Query {
    /// The (optionally parameterized) well-typed SQL query.
    pub query: String,
    /// The expected shape of the query parameters.
    pub input_shape: InputShape,
    /// The expected shape of the query result.
    pub output_shape: OutputShape,
    /// The types of the prepared statement's parameters, in order.
    pub param_types: Vec<SqlType>,
    /// The types of the prepared statement's result columns, in order.
    pub column_types: Vec<SqlType>,
}

/// The schema that corresponds to a PostgreSQL type: an unimplemented-shape
/// error for any type outside the mapped set.
pub open spec fn spec_type_to_schema(sql_type: SqlType) -> Result<SchemaV, Error> {
    match sql_type {
        SqlType::Int4 => Ok(SchemaV::SignedInteger(i32::MIN as int, i32::MAX as int)),
        SqlType::Float4 => Ok(SchemaV::SinglePrecision),
        SqlType::Float8 => Ok(SchemaV::DoublePrecision),
        SqlType::Text => Ok(SchemaV::String),
        SqlType::Other => Err(Error::UnsupportedShape),
    }
}

/// Return the schema that corresponds to a PostgreSQL type.
pub fn type_to_schema(sql_type: &SqlType) -> (r: Result<Schema, Error>)
    ensures
        single_schema_result_view(r) == spec_type_to_schema(*sql_type),
{
    match sql_type {
        SqlType::Int4 => Ok(Schema::SignedInteger(i32::MIN, i32::MAX)),
        SqlType::Float4 => Ok(Schema::SinglePrecision),
        SqlType::Float8 => Ok(Schema::DoublePrecision),
        SqlType::Text => Ok(Schema::String),
        SqlType::Other => Err(Error::UnsupportedShape),
    }
}

/// The schemas of a sequence of column or parameter types, elementwise; an
/// unimplemented-shape error as soon as any type is outside the mapped set.
pub open spec fn spec_column_schemas(types: Seq<SqlType>) -> Result<Seq<SchemaV>, Error> {
    if forall|i: int| 0 <= i < types.len() ==> spec_type_to_schema(types[i]) is Ok {
        Ok(Seq::new(types.len(), |i: int| spec_type_to_schema(types[i])->Ok_0))
    } else {
        Err(Error::UnsupportedShape)
    }
}

fn column_schemas(types: &Vec<SqlType>) -> (r: Result<Vec<Schema>, Error>)
    ensures
        match (r, spec_column_schemas(types@)) {
            (Ok(schemas), Ok(models)) => Schema::seq_view(schemas@) == models,
            (Err(a), Err(b)) => a == b,
            _ => false,
        },
{
    let mut out: Vec<Schema> = Vec::new();
    let mut index: usize = 0;
    while index < types.len()
        invariant
            index <= types@.len(),
            out@.len() == index,
            forall|j: int| 0 <= j < index ==> (#[trigger] spec_type_to_schema(types@[j])) is Ok,
            forall|j: int|
                0 <= j < index ==> #[trigger] out@[j].view() == spec_type_to_schema(
                    types@[j],
                )->Ok_0,
        decreases types@.len() - index,
    {
        match type_to_schema(&types[index]) {
            Ok(schema) => {
                out.push(schema);
            },
            Err(e) => {
                return Err(e);
            },
        }
        index = index + 1;
    }
    proof {
        assert(forall|i: int| 0 <= i < types@.len() ==> spec_type_to_schema(types@[i]) is Ok);
        assert(Schema::seq_view(out@).len() == out@.len());
        assert(forall|i: int|
            0 <= i < out@.len() ==> Schema::seq_view(out@)[i] == out@[i].view());
        assert(Schema::seq_view(out@) =~= spec_column_schemas(types@)->Ok_0);
    }
    Ok(out)
}

/// The input schema of a query with the given parameter types: one schema
/// per parameter under the row shape; the scalar input shape is not
/// implemented.
pub open spec fn spec_input_schema(shape: InputShape, param_types: Seq<SqlType>) -> Result<
    SchemaV,
    Error,
> {
    match shape {
        InputShape::Row => match spec_column_schemas(param_types) {
            Ok(schemas) => Ok(SchemaV::AllOf(schemas)),
            Err(e) => Err(e),
        },
        InputShape::Scalar => Err(Error::UnsupportedShape),
    }
}

/// The output schema of a query with the given column types: one schema per
/// column under the row shape; under the scalar shape, the single column's
/// schema, or a shape mismatch when the column count is not one; the table
/// shape is not implemented.
pub open spec fn spec_output_schema(shape: OutputShape, column_types: Seq<SqlType>) -> Result<
    SchemaV,
    Error,
> {
    match shape {
        OutputShape::Table => Err(Error::UnsupportedShape),
        OutputShape::Row => match spec_column_schemas(column_types) {
            Ok(schemas) => Ok(SchemaV::AllOf(schemas)),
            Err(e) => Err(e),
        },
        OutputShape::Scalar => if column_types.len() != 1 {
            Err(Error::ShapeMismatch)
        } else {
            spec_type_to_schema(column_types[0])
        },
    }
}

fn input_schema(shape: InputShape, param_types: &Vec<SqlType>) -> (r: Result<Schema, Error>)
    ensures
        single_schema_result_view(r) == spec_input_schema(shape, param_types@),
{
    match shape {
        InputShape::Row => match column_schemas(param_types) {
            Ok(schemas) => Ok(Schema::AllOf(schemas)),
            Err(e) => Err(e),
        },
        InputShape::Scalar => Err(Error::UnsupportedShape),
    }
}

fn output_schema(shape: OutputShape, column_types: &Vec<SqlType>) -> (r: Result<Schema, Error>)
    ensures
        single_schema_result_view(r) == spec_output_schema(shape, column_types@),
{
    match shape {
        OutputShape::Table => Err(Error::UnsupportedShape),
        OutputShape::Row => match column_schemas(column_types) {
            Ok(schemas) => Ok(Schema::AllOf(schemas)),
            Err(e) => Err(e),
        },
        OutputShape::Scalar => if column_types.len() != 1 {
            Err(Error::ShapeMismatch)
        } else {
            type_to_schema(&column_types[0])
        },
    }
}

/// The text of the callable that performs the query: it takes a client, the
/// input, and a success and an error callback, issues the query with
/// positional parameters taken from the input, and projects the result rows
/// according to the output shape.
pub open spec fn spec_query_call(
    query: Seq<char>,
    input_shape: InputShape,
    output_shape: OutputShape,
) -> Seq<char> {
    "(function(client, input, onSuccess, onError) {\nclient.query({text: '"@ + query
        + "', values: "@ + (match input_shape {
        InputShape::Row => "input"@,
        InputShape::Scalar => "[input]"@,
    }) + ", rowMode: 'array'}, function(err, result) {\nif (err !== null) {\nonError(err);\nreturn;\n}\nonSuccess("@
        + (match output_shape {
        OutputShape::Table => "result.rows"@,
        OutputShape::Row => "result.rows[0]"@,
        OutputShape::Scalar => "result.rows[0][0]"@,
    }) + ");\n});\n})"@
}

impl HasSchema for Query {
    open spec fn schema_spec(&self) -> Result<(SchemaV, SchemaV), Error> {
        match spec_input_schema(self.input_shape, self.param_types@) {
            Ok(input) => match spec_output_schema(self.output_shape, self.column_types@) {
                Ok(output) => Ok((input, output)),
                Err(e) => Err(e),
            },
            Err(e) => Err(e),
        }
    }

    fn schema(&self) -> (r: Result<(Schema, Schema), Error>) {
        match input_schema(self.input_shape, &self.param_types) {
            Ok(input) => match output_schema(self.output_shape, &self.column_types) {
                Ok(output) => Ok((input, output)),
                Err(e) => Err(e),
            },
            Err(e) => Err(e),
        }
    }
}

impl ECMAScript for Query {
    open spec fn call_spec(&self) -> Result<Seq<char>, Error> {
        Ok(spec_query_call(self.query@, self.input_shape, self.output_shape))
    }

    open spec fn convention_spec(&self) -> Result<ECMAScriptConvention, Error> {
        Ok(ECMAScriptConvention::Asynchronous)
    }

    fn ecmascript_call(&self) -> (r: Result<String, Error>) {
        let mut out = String::from_str("(function(client, input, onSuccess, onError) {\nclient.query({text: '");
        out.append(self.query.as_str());
        out.append("', values: ");
        out.append(match self.input_shape {
            InputShape::Row => "input",
            InputShape::Scalar => "[input]",
        });
        out.append(", rowMode: 'array'}, function(err, result) {\nif (err !== null) {\nonError(err);\nreturn;\n}\nonSuccess(");
        out.append(match self.output_shape {
            OutputShape::Table => "result.rows",
            OutputShape::Row => "result.rows[0]",
            OutputShape::Scalar => "result.rows[0][0]",
        });
        out.append(");\n});\n})");
        proof {
            assert(out@ =~= spec_query_call(self.query@, self.input_shape, self.output_shape));
        }
        Ok(out)
    }

    fn ecmascript_convention(&self) -> (r: Result<ECMAScriptConvention, Error>) {
        Ok(ECMAScriptConvention::Asynchronous)
    }
}

/// A query source's call always reports the asynchronous convention: the
/// emitted function delivers its result through callbacks, after a database
/// round-trip.
pub proof fn lemma_query_convention_asynchronous(query: &Query)
    ensures
        query.convention_spec() == Ok::<ECMAScriptConvention, Error>(
            ECMAScriptConvention::Asynchronous,
        ),
{
}

/// A scalar output shape declared against a statement with zero or two or
/// more columns never yields a schema pair: derivation fails, and — as soon
/// as the parameter side derives at all — it reports exactly the shape
/// mismatch.
pub proof fn lemma_scalar_shape_mismatch(query: &Query)
    requires
        query.output_shape == OutputShape::Scalar,
        query.column_types@.len() != 1,
    ensures
        query.schema_spec() is Err,
        spec_input_schema(query.input_shape, query.param_types@) is Ok ==> query.schema_spec()
            == Err::<(SchemaV, SchemaV), Error>(Error::ShapeMismatch),
{
}

} // verus!
