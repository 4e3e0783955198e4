//! This module implements a source that exports constant data.

use vstd::prelude::*;
use crate::Error;
use crate::Schema;
use crate::SchemaV;
use crate::text_result_view;
use crate::source::HasSchema;
use crate::source::call::ECMAScript;
use crate::source::call::ECMAScriptConvention;
use crate::text::spec_int_text;
use crate::text::i32_text;

verus! {

broadcast use crate::lemma_seq_view;

/// Constant data. Floating-point leaves carry the decimal text that the
/// generated code embeds for them, so that emission is a pure function of
/// the tree.
pub enum Constant {
    /// A heterogeneous sequence of constants.
    AllOf(Vec<Constant>),
    /// A signed integer.
    SignedInteger(i32),
    /// A single-precision floating-point number, as its decimal rendering.
    SinglePrecision(String),
    /// A double-precision floating-point number, as its decimal rendering.
    DoublePrecision(String),
    /// Opaque binary data.
    ByteString(Vec<u8>),
    /// Unicode text.
    String(String),
}

/// The mathematical model of a constant tree.
pub enum ConstantV {
    AllOf(Seq<ConstantV>),
    SignedInteger(int),
    SinglePrecision(Seq<char>),
    DoublePrecision(Seq<char>),
    ByteString(Seq<u8>),
    String(Seq<char>),
}

impl Constant {
    /// The model of a sequence of constant trees, elementwise.
    pub open spec fn seq_view(s: Seq<Constant>) -> Seq<ConstantV>
        decreases s,
    {
        if s.len() == 0 {
            Seq::empty()
        } else {
            Constant::seq_view(s.drop_last()).push(s.last().view())
        }
    }

    /// The model of this constant tree.
    pub open spec fn view(&self) -> ConstantV
        decreases self,
    {
        match self {
            Constant::AllOf(elements) => ConstantV::AllOf(Constant::seq_view(elements@)),
            Constant::SignedInteger(value) => ConstantV::SignedInteger(*value as int),
            Constant::SinglePrecision(text) => ConstantV::SinglePrecision(text@),
            Constant::DoublePrecision(text) => ConstantV::DoublePrecision(text@),
            Constant::ByteString(bytes) => ConstantV::ByteString(bytes@),
            Constant::String(text) => ConstantV::String(text@),
        }
    }
}

/// The model of a sequence of constants is the sequence of their models,
/// at each index.
pub broadcast proof fn lemma_constant_seq_view(s: Seq<Constant>)
    ensures
        (#[trigger] Constant::seq_view(s)).len() == s.len(),
        forall|i: int| 0 <= i < s.len() ==> Constant::seq_view(s)[i] == s[i].view(),
    decreases s.len(),
{
    if s.len() > 0 {
        lemma_constant_seq_view(s.drop_last());
    }
}

/// The schema derived structurally from a constant tree: an integer leaf
/// yields the degenerate range holding exactly its value, and a sequence
/// yields the sequence of its elements' schemas.
pub open spec fn spec_output_schema(constant: ConstantV) -> SchemaV
    decreases constant,
{
    match constant {
        ConstantV::AllOf(elements) => SchemaV::AllOf(spec_output_schemas(elements)),
        ConstantV::SignedInteger(value) => SchemaV::SignedInteger(value, value),
        ConstantV::SinglePrecision(_) => SchemaV::SinglePrecision,
        ConstantV::DoublePrecision(_) => SchemaV::DoublePrecision,
        ConstantV::ByteString(_) => SchemaV::ByteString,
        ConstantV::String(_) => SchemaV::String,
    }
}

/// The schemas derived from a sequence of constant trees, elementwise.
pub open spec fn spec_output_schemas(elements: Seq<ConstantV>) -> Seq<SchemaV>
    decreases elements,
{
    if elements.len() == 0 {
        Seq::empty()
    } else {
        spec_output_schemas(elements.drop_last()).push(spec_output_schema(elements.last()))
    }
}

/// The derived schemas of a sequence of constants, at each index.
pub broadcast proof fn lemma_output_schemas(elements: Seq<ConstantV>)
    ensures
        (#[trigger] spec_output_schemas(elements)).len() == elements.len(),
        forall|i: int|
            0 <= i < elements.len() ==> spec_output_schemas(elements)[i] == spec_output_schema(
                elements[i],
            ),
    decreases elements.len(),
{
    if elements.len() > 0 {
        lemma_output_schemas(elements.drop_last());
    }
}

fn output_schema(constant: &Constant) -> (r: Schema)
    ensures
        r@ == spec_output_schema(constant@),
    decreases constant, 0int,
{
    match constant {
        Constant::AllOf(elements) => {
            let out = Schema::AllOf(output_schemas(elements));
            proof {
                broadcast use lemma_constant_seq_view, lemma_output_schemas;

                assert(Schema::seq_view(out->AllOf_0@) =~= spec_output_schemas(
                    Constant::seq_view(elements@),
                ));
            }
            out
        },
        Constant::SignedInteger(value) => Schema::SignedInteger(*value, *value),
        Constant::SinglePrecision(_) => Schema::SinglePrecision,
        Constant::DoublePrecision(_) => Schema::DoublePrecision,
        Constant::ByteString(_) => Schema::ByteString,
        Constant::String(_) => Schema::String,
    }
}

fn output_schemas(elements: &Vec<Constant>) -> (r: Vec<Schema>)
    ensures
        r@.len() == elements@.len(),
        forall|i: int| 0 <= i < r@.len() ==> r@[i].view() == spec_output_schema(elements@[i].view()),
    decreases elements@, 0int,
{
    let mut out: Vec<Schema> = Vec::new();
    let mut index: usize = 0;
    while index < elements.len()
        invariant
            index <= elements@.len(),
            out@.len() == index,
            forall|i: int|
                0 <= i < index ==> out@[i].view() == spec_output_schema(elements@[i].view()),
        decreases elements@.len() - index,
    {
        out.push(output_schema(&elements[index]));
        index = index + 1;
    }
    out
}

/// The ECMAScript literal expression mirroring a constant tree: an ordered
/// literal list for a sequence, native literals for the leaves. Emission of
/// byte strings is not implemented.
pub open spec fn spec_ecmascript_expression(constant: ConstantV) -> Result<Seq<char>, Error>
    decreases constant, 0int,
{
    match constant {
        ConstantV::AllOf(elements) => match spec_ecmascript_expressions_from(elements, 0) {
            Ok(t) => Ok("[\n"@ + t + "]"@),
            Err(e) => Err(e),
        },
        ConstantV::SignedInteger(value) => Ok(spec_int_text(value)),
        ConstantV::SinglePrecision(text) => Ok(text),
        ConstantV::DoublePrecision(text) => Ok(text),
        ConstantV::ByteString(_) => Err(Error::UnsupportedShape),
        ConstantV::String(text) => Ok("'"@ + text + "'"@),
    }
}

/// The literal expressions of the elements from index `i` on, each followed
/// by a comma and a line break; the first failing element's error otherwise.
pub open spec fn spec_ecmascript_expressions_from(elements: Seq<ConstantV>, i: int) -> Result<
    Seq<char>,
    Error,
>
    decreases elements, elements.len() - i,
{
    if i < 0 || i >= elements.len() {
        Ok(Seq::empty())
    } else {
        match spec_ecmascript_expression(elements[i]) {
            Ok(t) => match spec_ecmascript_expressions_from(elements, i + 1) {
                Ok(rest) => Ok(t + ",\n"@ + rest),
                Err(e) => Err(e),
            },
            Err(e) => Err(e),
        }
    }
}

fn ecmascript_expression(constant: &Constant) -> (r: Result<String, Error>)
    ensures
        text_result_view(r) == spec_ecmascript_expression(constant@),
    decreases constant, 0int,
{
    match constant {
        Constant::AllOf(elements) => match ecmascript_expressions_from(elements, 0) {
            Ok(t) => {
                let mut out = String::from_str("[\n");
                out.append(t.as_str());
                out.append("]");
                proof {
                    assert(out@ =~= "[\n"@ + t@ + "]"@);
                }
                Ok(out)
            },
            Err(e) => Err(e),
        },
        Constant::SignedInteger(value) => Ok(i32_text(*value)),
        Constant::SinglePrecision(text) => Ok(text.clone()),
        Constant::DoublePrecision(text) => Ok(text.clone()),
        Constant::ByteString(_) => Err(Error::UnsupportedShape),
        Constant::String(text) => {
            let mut out = String::from_str("'");
            out.append(text.as_str());
            out.append("'");
            proof {
                assert(out@ =~= "'"@ + text@ + "'"@);
            }
            Ok(out)
        },
    }
}

fn ecmascript_expressions_from(elements: &Vec<Constant>, i: usize) -> (r: Result<String, Error>)
    requires
        i <= elements.len(),
    ensures
        text_result_view(r) == spec_ecmascript_expressions_from(
            Constant::seq_view(elements@),
            i as int,
        ),
    decreases elements@, elements@.len() - i,
{
    proof {
        broadcast use lemma_constant_seq_view;

        assert(Constant::seq_view(elements@).len() == elements@.len());
    }
    if i == elements.len() {
        Ok(String::new())
    } else {
        proof {
            broadcast use lemma_constant_seq_view;

            assert(Constant::seq_view(elements@)[i as int] == elements@[i as int].view());
        }
        match ecmascript_expression(&elements[i]) {
            Ok(t) => match ecmascript_expressions_from(elements, i + 1) {
                Ok(rest) => {
                    let mut out = t;
                    out.append(",\n");
                    out.append(rest.as_str());
                    Ok(out)
                },
                Err(e) => Err(e),
            },
            Err(e) => Err(e),
        }
    }
}

impl HasSchema for Constant {
    open spec fn schema_spec(&self) -> Result<(SchemaV, SchemaV), Error> {
        Ok((SchemaV::AllOf(Seq::empty()), spec_output_schema(self.view())))
    }

    fn schema(&self) -> (r: Result<(Schema, Schema), Error>) {
        let input = Schema::AllOf(Vec::new());
        proof {
            assert(Schema::seq_view(input->AllOf_0@) =~= Seq::<SchemaV>::empty());
        }
        Ok((input, output_schema(self)))
    }
}

impl ECMAScript for Constant {
    open spec fn call_spec(&self) -> Result<Seq<char>, Error> {
        match spec_ecmascript_expression(self.view()) {
            Ok(expression) => Ok("(function() {\nreturn "@ + expression + ";\n})"@),
            Err(e) => Err(e),
        }
    }

    open spec fn convention_spec(&self) -> Result<ECMAScriptConvention, Error> {
        Ok(ECMAScriptConvention::Synchronous)
    }

    fn ecmascript_call(&self) -> (r: Result<String, Error>) {
        match ecmascript_expression(self) {
            Ok(expression) => {
                let mut out = String::from_str("(function() {\nreturn ");
                out.append(expression.as_str());
                out.append(";\n})");
                proof {
                    assert(out@ =~= "(function() {\nreturn "@ + expression@ + ";\n})"@);
                }
                Ok(out)
            },
            Err(e) => Err(e),
        }
    }

    fn ecmascript_convention(&self) -> (r: Result<ECMAScriptConvention, Error>) {
        Ok(ECMAScriptConvention::Synchronous)
    }
}

/// Schema derivation for a constant source always succeeds, and its input
/// schema is always the empty sequence schema: a constant takes no
/// parameters.
pub proof fn lemma_constant_schema(constant: &Constant)
    ensures
        constant.schema_spec() is Ok,
        constant.schema_spec()->Ok_0.0 == SchemaV::AllOf(Seq::<SchemaV>::empty()),
        constant.schema_spec()->Ok_0.1 == spec_output_schema(constant.view()),
{
}

/// A constant source's call always reports the synchronous convention: the
/// emitted function returns its result directly.
pub proof fn lemma_constant_convention_synchronous(constant: &Constant)
    ensures
        constant.convention_spec() == Ok::<ECMAScriptConvention, Error>(
            ECMAScriptConvention::Synchronous,
        ),
{
}

} // verus!
