//! Calls are procedures that conform to some schema. This module defines
//! the trait for sources that can generate calls, and the emitter that
//! aggregates named calls into an exported module with cross-language type
//! signatures.

use vstd::prelude::*;
use crate::Error;
use crate::Schema;
use crate::SchemaV;
use crate::text_result_view;
use crate::source::HasSchema;
use crate::text::spec_nat_text;
use crate::text::push_usize;

verus! {

broadcast use crate::lemma_seq_view;

/// Calling convention for generated ECMAScript calls.
#[derive(Clone, Copy, Debug, PartialEq, Eq, Structural)]
pub enum ECMAScriptConvention {
    /// The generated function returns the result or throws an exception.
    Synchronous,
    /// The generated function takes two callbacks.
    Asynchronous,
}

/// Trait for sources that can generate ECMAScript calls.
pub trait ECMAScript {
    /// The model of what [`ECMAScript::ecmascript_call`] returns for this
    /// source: the emitted text, or the error that aborts generation.
    spec fn call_spec(&self) -> Result<Seq<char>, Error>;

    /// The model of what [`ECMAScript::ecmascript_convention`] returns for
    /// this source.
    spec fn convention_spec(&self) -> Result<ECMAScriptConvention, Error>;

    /// Generate an ECMAScript expression that evaluates to a function that
    /// performs the call.
    fn ecmascript_call(&self) -> (r: Result<String, Error>)
        ensures
            text_result_view(r) == self.call_spec(),
    ;

    /// Return the calling convention used for this call.
    fn ecmascript_convention(&self) -> (r: Result<ECMAScriptConvention, Error>)
        ensures
            r == self.convention_spec(),
    ;
}

/// The PureScript effect type under which a call's result is delivered,
/// chosen by calling convention.
pub open spec fn spec_convention_type(convention: ECMAScriptConvention) -> Seq<char> {
    match convention {
        ECMAScriptConvention::Synchronous => "IOSync"@,
        ECMAScriptConvention::Asynchronous => "IO"@,
    }
}

/// The PureScript type denoting the values of a schema, or the error for a
/// schema variant that has no implemented denotation.
pub open spec fn spec_purescript_type(schema: SchemaV) -> Result<Seq<char>, Error>
    decreases schema, 0int,
{
    match schema {
        SchemaV::AllOf(elements) => match spec_purescript_type_from(elements, 0) {
            Ok(t) => Ok("(Tuple"@ + spec_nat_text(elements.len()) + t + ")"@),
            Err(e) => Err(e),
        },
        SchemaV::OneOf(_) => Err(Error::UnsupportedShape),
        SchemaV::SignedInteger(_, _) => Ok("Int"@),
        SchemaV::SinglePrecision => Err(Error::UnsupportedShape),
        SchemaV::DoublePrecision => Ok("Number"@),
        SchemaV::ByteString => Ok("ByteString"@),
        SchemaV::String => Ok("String"@),
    }
}

/// The PureScript types of the elements from index `i` on, each preceded by
/// one space; the first failing element's error otherwise.
pub open spec fn spec_purescript_type_from(elements: Seq<SchemaV>, i: int) -> Result<
    Seq<char>,
    Error,
>
    decreases elements, elements.len() - i,
{
    if i < 0 || i >= elements.len() {
        Ok(Seq::empty())
    } else {
        match spec_purescript_type(elements[i]) {
            Ok(t) => match spec_purescript_type_from(elements, i + 1) {
                Ok(rest) => Ok(" "@ + t + rest),
                Err(e) => Err(e),
            },
            Err(e) => Err(e),
        }
    }
}

/// Emit the PureScript type denoting the values of a schema.
pub fn purescript_type(schema: &Schema) -> (r: Result<String, Error>)
    ensures
        text_result_view(r) == spec_purescript_type(schema@),
    decreases schema, 0int,
{
    match schema {
        Schema::AllOf(elements) => {
            let mut out = String::from_str("(Tuple");
            push_usize(&mut out, elements.len());
            match purescript_type_from(elements, 0) {
                Ok(t) => {
                    out.append(t.as_str());
                    out.append(")");
                    proof {
                        assert(out@ =~= "(Tuple"@ + spec_nat_text(elements@.len()) + t@ + ")"@);
                    }
                    Ok(out)
                },
                Err(e) => Err(e),
            }
        },
        Schema::OneOf(_) => Err(Error::UnsupportedShape),
        Schema::SignedInteger(_, _) => Ok(String::from_str("Int")),
        Schema::SinglePrecision => Err(Error::UnsupportedShape),
        Schema::DoublePrecision => Ok(String::from_str("Number")),
        Schema::ByteString => Ok(String::from_str("ByteString")),
        Schema::String => Ok(String::from_str("String")),
    }
}

/// Emit the PureScript types of the elements from index `i` on, each
/// preceded by one space.
fn purescript_type_from(elements: &Vec<Schema>, i: usize) -> (r: Result<String, Error>)
    requires
        i <= elements.len(),
    ensures
        text_result_view(r) == spec_purescript_type_from(Schema::seq_view(elements@), i as int),
    decreases elements@, elements@.len() - i,
{
    if i == elements.len() {
        Ok(String::new())
    } else {
        match purescript_type(&elements[i]) {
            Ok(t) => match purescript_type_from(elements, i + 1) {
                Ok(rest) => {
                    let mut out = String::from_str(" ");
                    out.append(t.as_str());
                    out.append(rest.as_str());
                    Ok(out)
                },
                Err(e) => Err(e),
            },
            Err(e) => Err(e),
        }
    }
}

/// A named collection of sources exported together: each entry maps an
/// export name to one source, which provides both the schema pair and the
/// call. Entries are emitted in the order they stand in `calls`, so
/// generation from the same entries always produces the same text.
pub struct ECMAScriptModule<S> {
    /// The exported calls, in emission order.
    pub calls: Vec<(String, S)>,
}

/// The ECMAScript module text for the entries from index `i` on: one export
/// per entry whose value is that entry's call expression; the first failing
/// entry's error otherwise.
pub open spec fn spec_module_ecmascript_from<S: ECMAScript>(
    entries: Seq<(String, S)>,
    i: int,
) -> Result<Seq<char>, Error>
    decreases entries.len() - i,
{
    if i < 0 || i >= entries.len() {
        Ok(Seq::empty())
    } else {
        match entries[i].1.call_spec() {
            Ok(call) => match spec_module_ecmascript_from(entries, i + 1) {
                Ok(rest) => Ok(
                    "exports."@ + entries[i].0@ + " = "@ + call + ";\n"@ + rest,
                ),
                Err(e) => Err(e),
            },
            Err(e) => Err(e),
        }
    }
}

/// The PureScript foreign-import declarations for the entries from index
/// `i` on: one signature per entry, derived from its schema pair and its
/// calling convention; the first failing entry's error otherwise.
pub open spec fn spec_module_purescript_from<S: HasSchema + ECMAScript>(
    entries: Seq<(String, S)>,
    i: int,
) -> Result<Seq<char>, Error>
    decreases entries.len() - i,
{
    if i < 0 || i >= entries.len() {
        Ok(Seq::empty())
    } else {
        match entries[i].1.schema_spec() {
            Ok(pair) => match spec_purescript_type(pair.0) {
                Ok(input_type) => match entries[i].1.convention_spec() {
                    Ok(convention) => match spec_purescript_type(pair.1) {
                        Ok(output_type) => match spec_module_purescript_from(entries, i + 1) {
                            Ok(rest) => Ok(
                                "foreign import "@ + entries[i].0@ + " :: "@ + input_type
                                    + " -> "@ + spec_convention_type(convention) + " "@
                                    + output_type + "\n"@ + rest,
                            ),
                            Err(e) => Err(e),
                        },
                        Err(e) => Err(e),
                    },
                    Err(e) => Err(e),
                },
                Err(e) => Err(e),
            },
            Err(e) => Err(e),
        }
    }
}

impl<S: HasSchema + ECMAScript> ECMAScriptModule<S> {
    /// Emit the ECMAScript module: one export per entry, in entry order.
    pub fn ecmascript(&self) -> (r: Result<String, Error>)
        ensures
            text_result_view(r) == spec_module_ecmascript_from(self.calls@, 0),
    {
        module_ecmascript_from(&self.calls, 0)
    }

    /// Emit the PureScript foreign-import signatures: one per entry, in
    /// entry order.
    pub fn purescript(&self) -> (r: Result<String, Error>)
        ensures
            text_result_view(r) == spec_module_purescript_from(self.calls@, 0),
    {
        module_purescript_from(&self.calls, 0)
    }
}

fn module_ecmascript_from<S: HasSchema + ECMAScript>(entries: &Vec<(String, S)>, i: usize) -> (r:
    Result<String, Error>)
    requires
        i <= entries.len(),
    ensures
        text_result_view(r) == spec_module_ecmascript_from(entries@, i as int),
    decreases entries@.len() - i,
{
    if i == entries.len() {
        Ok(String::new())
    } else {
        match entries[i].1.ecmascript_call() {
            Ok(call) => match module_ecmascript_from(entries, i + 1) {
                Ok(rest) => {
                    let mut out = String::from_str("exports.");
                    out.append(entries[i].0.as_str());
                    out.append(" = ");
                    out.append(call.as_str());
                    out.append(";\n");
                    out.append(rest.as_str());
                    proof {
                        assert(out@ =~= "exports."@ + entries@[i as int].0@ + " = "@ + call@
                            + ";\n"@ + rest@);
                    }
                    Ok(out)
                },
                Err(e) => Err(e),
            },
            Err(e) => Err(e),
        }
    }
}

fn module_purescript_from<S: HasSchema + ECMAScript>(entries: &Vec<(String, S)>, i: usize) -> (r:
    Result<String, Error>)
    requires
        i <= entries.len(),
    ensures
        text_result_view(r) == spec_module_purescript_from(entries@, i as int),
    decreases entries@.len() - i,
{
    if i == entries.len() {
        Ok(String::new())
    } else {
        match entries[i].1.schema() {
            Ok(pair) => match purescript_type(&pair.0) {
                Ok(input_type) => match entries[i].1.ecmascript_convention() {
                    Ok(convention) => match purescript_type(&pair.1) {
                        Ok(output_type) => match module_purescript_from(entries, i + 1) {
                            Ok(rest) => {
                                let mut out = String::from_str("foreign import ");
                                out.append(entries[i].0.as_str());
                                out.append(" :: ");
                                out.append(input_type.as_str());
                                out.append(" -> ");
                                out.append(match convention {
                                    ECMAScriptConvention::Synchronous => "IOSync",
                                    ECMAScriptConvention::Asynchronous => "IO",
                                });
                                out.append(" ");
                                out.append(output_type.as_str());
                                out.append("\n");
                                out.append(rest.as_str());
                                proof {
                                    assert(out@ =~= "foreign import "@ + entries@[i as int].0@
                                        + " :: "@ + input_type@ + " -> "@
                                        + spec_convention_type(convention) + " "@ + output_type@
                                        + "\n"@ + rest@);
                                }
                                Ok(out)
                            },
                            Err(e) => Err(e),
                        },
                        Err(e) => Err(e),
                    },
                    Err(e) => Err(e),
                },
                Err(e) => Err(e),
            },
            Err(e) => Err(e),
        }
    }
}

/// Module emission is a function of the entries alone: two entry sequences
/// whose names spell the same text and whose sources emit the same calls
/// produce, entry by entry in the one fixed order, the same module text.
/// Repeated generation runs over the same mapping are therefore
/// reproducible.
pub proof fn lemma_module_ecmascript_deterministic<S: ECMAScript>(
    a: Seq<(String, S)>,
    b: Seq<(String, S)>,
)
    requires
        a.len() == b.len(),
        forall|i: int|
            0 <= i < a.len() ==> a[i].0@ == b[i].0@ && a[i].1.call_spec() == b[i].1.call_spec(),
    ensures
        spec_module_ecmascript_from(a, 0) == spec_module_ecmascript_from(b, 0),
{
    lemma_module_ecmascript_deterministic_from(a, b, 0);
}

proof fn lemma_module_ecmascript_deterministic_from<S: ECMAScript>(
    a: Seq<(String, S)>,
    b: Seq<(String, S)>,
    i: int,
)
    requires
        a.len() == b.len(),
        forall|j: int|
            0 <= j < a.len() ==> a[j].0@ == b[j].0@ && a[j].1.call_spec() == b[j].1.call_spec(),
    ensures
        spec_module_ecmascript_from(a, i) == spec_module_ecmascript_from(b, i),
    decreases a.len() - i,
{
    if 0 <= i < a.len() {
        lemma_module_ecmascript_deterministic_from(a, b, i + 1);
    }
}

/// The PureScript signatures are likewise a function of the entries alone:
/// names, schema pairs and conventions determine the emitted text, in the
/// one fixed entry order.
pub proof fn lemma_module_purescript_deterministic<S: HasSchema + ECMAScript>(
    a: Seq<(String, S)>,
    b: Seq<(String, S)>,
)
    requires
        a.len() == b.len(),
        forall|i: int|
            0 <= i < a.len() ==> a[i].0@ == b[i].0@ && a[i].1.schema_spec() == b[i].1.schema_spec()
                && a[i].1.convention_spec() == b[i].1.convention_spec(),
    ensures
        spec_module_purescript_from(a, 0) == spec_module_purescript_from(b, 0),
{
    lemma_module_purescript_deterministic_from(a, b, 0);
}

proof fn lemma_module_purescript_deterministic_from<S: HasSchema + ECMAScript>(
    a: Seq<(String, S)>,
    b: Seq<(String, S)>,
    i: int,
)
    requires
        a.len() == b.len(),
        forall|j: int|
            0 <= j < a.len() ==> a[j].0@ == b[j].0@ && a[j].1.schema_spec() == b[j].1.schema_spec()
                && a[j].1.convention_spec() == b[j].1.convention_spec(),
    ensures
        spec_module_purescript_from(a, i) == spec_module_purescript_from(b, i),
    decreases a.len() - i,
{
    if 0 <= i < a.len() {
        lemma_module_purescript_deterministic_from(a, b, i + 1);
    }
}

} // verus!
