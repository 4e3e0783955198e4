//! TypeFunnel extracts _schemas_ and _calls_ from _sources_ and generates
//! code from them. Sources include constant data, parameterized SQL queries,
//! and web services. Schemas describe the structure of data; calls are
//! procedures that fetch or modify data conforming to some schema. From a
//! schema and a call, the library emits serialization functions, HTTP request
//! handlers, remote-call stubs, and cross-language type signatures.

use vstd::prelude::*;

pub mod asset;
pub mod serialization;
pub mod source;
pub mod text;
pub mod web_service;

verus! {

/// An error raised while a schema is derived or code is generated.
#[derive(Clone, Copy, Debug, PartialEq, Eq, Structural)]
pub enum Error {
    /// A schema or shape was recognized but code generation for it is not
    /// implemented. Generation aborts rather than emit incorrect code.
    UnsupportedShape,
    /// A scalar query result was requested, but the query returns zero or
    /// more than one column.
    ShapeMismatch,
}

impl Error {
    /// A human-readable description of the error.
    pub fn message(&self) -> (r: &'static str)
        ensures
            *self == Error::UnsupportedShape ==> r@ == spec_unsupported_shape_message(),
            *self == Error::ShapeMismatch ==> r@ == spec_shape_mismatch_message(),
    {
        match self {
            Error::UnsupportedShape => "Code generation for this schema or shape is not implemented.",
            Error::ShapeMismatch => "The expected shape of the query result was scalar, but the query returns zero or more than one column.",
        }
    }
}

/// What [`Error::message`] returns for [`Error::UnsupportedShape`].
pub open spec fn spec_unsupported_shape_message() -> Seq<char> {
    "Code generation for this schema or shape is not implemented."@
}

/// What [`Error::message`] returns for [`Error::ShapeMismatch`].
pub open spec fn spec_shape_mismatch_message() -> Seq<char> {
    "The expected shape of the query result was scalar, but the query returns zero or more than one column."@
}

/// A schema describes the structure of data. Schemas are generated from
/// sources, and are used to generate web services, serialization functions,
/// user interfaces, and so on.
#[derive(Debug)]
pub enum Schema {
    /// The data described is a heterogeneous sequence of values.
    AllOf(Vec<Schema>),
    /// The data described conforms to one of many schemas.
    OneOf(Vec<Schema>),
    /// The data described is an integer with a lower and upper bound (both
    /// inclusive).
    SignedInteger(i32, i32),
    /// The data described is a single-precision floating-point number.
    SinglePrecision,
    /// The data described is a double-precision floating-point number.
    DoublePrecision,
    /// The data described is of arbitrary format.
    ByteString,
    /// The data described is arbitrary Unicode text.
    String,
}

/// The mathematical model of a schema tree: the same shape as [`Schema`],
/// with mathematical sequences and integers in place of vectors and
/// machine integers.
pub enum SchemaV {
    AllOf(Seq<SchemaV>),
    OneOf(Seq<SchemaV>),
    SignedInteger(int, int),
    SinglePrecision,
    DoublePrecision,
    ByteString,
    String,
}

impl Schema {
    /// The model of a sequence of schema trees, elementwise.
    pub open spec fn seq_view(s: Seq<Schema>) -> Seq<SchemaV>
        decreases s,
    {
        if s.len() == 0 {
            Seq::empty()
        } else {
            Schema::seq_view(s.drop_last()).push(s.last().view())
        }
    }

    /// The model of this schema tree.
    pub open spec fn view(&self) -> SchemaV
        decreases self,
    {
        match self {
            Schema::AllOf(elements) => SchemaV::AllOf(Schema::seq_view(elements@)),
            Schema::OneOf(elements) => SchemaV::OneOf(Schema::seq_view(elements@)),
            Schema::SignedInteger(lower, upper) => SchemaV::SignedInteger(
                *lower as int,
                *upper as int,
            ),
            Schema::SinglePrecision => SchemaV::SinglePrecision,
            Schema::DoublePrecision => SchemaV::DoublePrecision,
            Schema::ByteString => SchemaV::ByteString,
            Schema::String => SchemaV::String,
        }
    }
}

impl Schema {
    /// An owned structural copy of this schema tree: its model is the same.
    pub fn deep_clone(&self) -> (r: Schema)
        ensures
            r@ == self@,
        decreases self, 0int,
    {
        match self {
            Schema::AllOf(elements) => {
                let out = Schema::AllOf(deep_clone_elements(elements));
                proof {
                    broadcast use lemma_seq_view;

                    assert(Schema::seq_view(out->AllOf_0@) =~= Schema::seq_view(elements@));
                }
                out
            },
            Schema::OneOf(elements) => {
                let out = Schema::OneOf(deep_clone_elements(elements));
                proof {
                    broadcast use lemma_seq_view;

                    assert(Schema::seq_view(out->OneOf_0@) =~= Schema::seq_view(elements@));
                }
                out
            },
            Schema::SignedInteger(lower, upper) => Schema::SignedInteger(*lower, *upper),
            Schema::SinglePrecision => Schema::SinglePrecision,
            Schema::DoublePrecision => Schema::DoublePrecision,
            Schema::ByteString => Schema::ByteString,
            Schema::String => Schema::String,
        }
    }
}

fn deep_clone_elements(elements: &Vec<Schema>) -> (r: Vec<Schema>)
    ensures
        r@.len() == elements@.len(),
        forall|i: int| 0 <= i < r@.len() ==> #[trigger] r@[i].view() == elements@[i].view(),
    decreases elements@, 0int,
{
    let mut out: Vec<Schema> = Vec::new();
    let mut index: usize = 0;
    while index < elements.len()
        invariant
            index <= elements@.len(),
            out@.len() == index,
            forall|i: int| 0 <= i < index ==> #[trigger] out@[i].view() == elements@[i].view(),
        decreases elements@.len() - index,
    {
        out.push(elements[index].deep_clone());
        index = index + 1;
    }
    out
}

/// Structural equality of schema trees: two schemas are equal exactly when
/// their models are.
fn schema_eq(a: &Schema, b: &Schema) -> (r: bool)
    ensures
        r == (a@ == b@),
    decreases a, 0int,
{
    match (a, b) {
        (Schema::AllOf(x), Schema::AllOf(y)) => schema_elements_eq(x, y),
        (Schema::OneOf(x), Schema::OneOf(y)) => schema_elements_eq(x, y),
        (Schema::SignedInteger(a_lower, a_upper), Schema::SignedInteger(b_lower, b_upper)) => (
        *a_lower == *b_lower && *a_upper == *b_upper),
        (Schema::SinglePrecision, Schema::SinglePrecision) => true,
        (Schema::DoublePrecision, Schema::DoublePrecision) => true,
        (Schema::ByteString, Schema::ByteString) => true,
        (Schema::String, Schema::String) => true,
        _ => false,
    }
}

fn schema_elements_eq(x: &Vec<Schema>, y: &Vec<Schema>) -> (r: bool)
    ensures
        r == (Schema::seq_view(x@) == Schema::seq_view(y@)),
    decreases x@, 0int,
{
    if x.len() != y.len() {
        proof {
            broadcast use lemma_seq_view;
        }
        return false;
    }
    let mut index: usize = 0;
    while index < x.len()
        invariant
            x@.len() == y@.len(),
            index <= x@.len(),
            forall|j: int| 0 <= j < index ==> #[trigger] x@[j].view() == y@[j].view(),
        decreases x@.len() - index,
    {
        if !schema_eq(&x[index], &y[index]) {
            proof {
                broadcast use lemma_seq_view;

                assert(Schema::seq_view(x@)[index as int] != Schema::seq_view(y@)[index as int]);
            }
            return false;
        }
        index = index + 1;
    }
    proof {
        broadcast use lemma_seq_view;

        assert(Schema::seq_view(x@) =~= Schema::seq_view(y@));
    }
    true
}

impl PartialEq for Schema {
    /// Schemas compare structurally: equal exactly when their models are.
    fn eq(&self, other: &Schema) -> (r: bool) {
        schema_eq(self, other)
    }
}

impl vstd::std_specs::cmp::PartialEqSpecImpl for Schema {
    open spec fn obeys_eq_spec() -> bool {
        true
    }

    open spec fn eq_spec(&self, other: &Schema) -> bool {
        self@ == other@
    }
}

/// The model of a sequence of schemas is the sequence of their models,
/// at each index.
pub broadcast proof fn lemma_seq_view(s: Seq<Schema>)
    ensures
        (#[trigger] Schema::seq_view(s)).len() == s.len(),
        forall|i: int| 0 <= i < s.len() ==> Schema::seq_view(s)[i] == s[i].view(),
    decreases s.len(),
{
    if s.len() > 0 {
        lemma_seq_view(s.drop_last());
    }
}

/// The model of the text a generator returned: the characters on success,
/// the error unchanged on failure.
pub open spec fn text_result_view(r: Result<String, Error>) -> Result<Seq<char>, Error> {
    match r {
        Ok(s) => Ok(s@),
        Err(e) => Err(e),
    }
}

/// The model of a derived schema: the model of the schema on success, the
/// error unchanged on failure.
pub open spec fn single_schema_result_view(r: Result<Schema, Error>) -> Result<SchemaV, Error> {
    match r {
        Ok(schema) => Ok(schema.view()),
        Err(e) => Err(e),
    }
}

/// The model of a derived schema pair: the models of the two schemas on
/// success, the error unchanged on failure.
pub open spec fn schema_result_view(r: Result<(Schema, Schema), Error>) -> Result<
    (SchemaV, SchemaV),
    Error,
> {
    match r {
        Ok(pair) => Ok((pair.0.view(), pair.1.view())),
        Err(e) => Err(e),
    }
}

} // verus!
