//! Generation of ECMAScript functions that serialize and deserialize data
//! as structured markup: each element of a sequence is written under a
//! container node keyed by its ordinal index, and leaves are written as
//! text nodes. Deserialization is the structural inverse, reconstructing
//! the ordered sequence positionally.

use vstd::prelude::*;
use crate::Error;
use crate::Schema;
use crate::SchemaV;
use crate::text_result_view;
use crate::text::spec_nat_text;
use crate::text::push_usize;

verus! {

broadcast use crate::lemma_seq_view;

/// The text that [`serialize`] emits for a schema: a function taking a
/// document, a namespace, a parent node and a value, which writes the
/// value under the parent. Sequences write one container node per element
/// at its ordinal index; numbers write their native text coercion; text is
/// written as-is. Union and byte-string schemas are not implemented.
pub open spec fn spec_serialize(schema: SchemaV) -> Result<Seq<char>, Error>
    decreases schema, 1int,
{
    match schema {
        SchemaV::AllOf(elements) => match spec_serialize_elements_from(elements, 0) {
            Ok(body) => Ok(
                "(function(document, namespace, parent, value) {\nvar node;\n"@ + body + "})"@,
            ),
            Err(e) => Err(e),
        },
        SchemaV::OneOf(_) => Err(Error::UnsupportedShape),
        SchemaV::SignedInteger(_, _) => Ok(
            "(function(document, namespace, parent, value) {\nvar node;\nnode = document.createTextNode('' + value);\nparent.appendChild(node);\n})"@,
        ),
        SchemaV::SinglePrecision => Ok(
            "(function(document, namespace, parent, value) {\nvar node;\nnode = document.createTextNode('' + value);\nparent.appendChild(node);\n})"@,
        ),
        SchemaV::DoublePrecision => Ok(
            "(function(document, namespace, parent, value) {\nvar node;\nnode = document.createTextNode('' + value);\nparent.appendChild(node);\n})"@,
        ),
        SchemaV::ByteString => Err(Error::UnsupportedShape),
        SchemaV::String => Ok(
            "(function(document, namespace, parent, value) {\nvar node;\nnode = document.createTextNode(value);\nparent.appendChild(node);\n})"@,
        ),
    }
}

/// The serializer body statements for the elements from index `i` on: each
/// element appends its container node and invokes its own serializer on
/// the positional value; the first failing element's error otherwise.
pub open spec fn spec_serialize_elements_from(elements: Seq<SchemaV>, i: int) -> Result<
    Seq<char>,
    Error,
>
    decreases elements, elements.len() - i,
{
    if i < 0 || i >= elements.len() {
        Ok(Seq::empty())
    } else {
        match spec_serialize(elements[i]) {
            Ok(nested) => match spec_serialize_elements_from(elements, i + 1) {
                Ok(rest) => Ok(
                    "node = document.createElementNS(namespace, 'element-"@ + spec_nat_text(
                        i as nat,
                    ) + "');\nparent.appendChild(node);\n"@ + nested
                        + "(document, namespace, node, value["@ + spec_nat_text(i as nat)
                        + "]);\n"@ + rest,
                ),
                Err(e) => Err(e),
            },
            Err(e) => Err(e),
        }
    }
}

/// Generate an ECMAScript expression that evaluates to a function that
/// serializes data conforming to the given schema.
pub fn serialize(schema: &Schema) -> (r: Result<String, Error>)
    ensures
        text_result_view(r) == spec_serialize(schema@),
    decreases schema, 1int,
{
    match schema {
        Schema::AllOf(elements) => match serialize_elements_from(elements, 0) {
            Ok(body) => {
                let mut out = String::from_str(
                    "(function(document, namespace, parent, value) {\nvar node;\n",
                );
                out.append(body.as_str());
                out.append("})");
                proof {
                    assert(out@ =~= "(function(document, namespace, parent, value) {\nvar node;\n"@
                        + body@ + "})"@);
                }
                Ok(out)
            },
            Err(e) => Err(e),
        },
        Schema::OneOf(_) => Err(Error::UnsupportedShape),
        Schema::SignedInteger(_, _) => Ok(
            String::from_str(
                "(function(document, namespace, parent, value) {\nvar node;\nnode = document.createTextNode('' + value);\nparent.appendChild(node);\n})",
            ),
        ),
        Schema::SinglePrecision => Ok(
            String::from_str(
                "(function(document, namespace, parent, value) {\nvar node;\nnode = document.createTextNode('' + value);\nparent.appendChild(node);\n})",
            ),
        ),
        Schema::DoublePrecision => Ok(
            String::from_str(
                "(function(document, namespace, parent, value) {\nvar node;\nnode = document.createTextNode('' + value);\nparent.appendChild(node);\n})",
            ),
        ),
        Schema::ByteString => Err(Error::UnsupportedShape),
        Schema::String => Ok(
            String::from_str(
                "(function(document, namespace, parent, value) {\nvar node;\nnode = document.createTextNode(value);\nparent.appendChild(node);\n})",
            ),
        ),
    }
}

fn serialize_elements_from(elements: &Vec<Schema>, i: usize) -> (r: Result<String, Error>)
    requires
        i <= elements.len(),
    ensures
        text_result_view(r) == spec_serialize_elements_from(Schema::seq_view(elements@), i as int),
    decreases elements@, elements@.len() - i,
{
    if i == elements.len() {
        Ok(String::new())
    } else {
        match serialize(&elements[i]) {
            Ok(nested) => match serialize_elements_from(elements, i + 1) {
                Ok(rest) => {
                    let mut out = String::from_str(
                        "node = document.createElementNS(namespace, 'element-",
                    );
                    push_usize(&mut out, i);
                    out.append("');\nparent.appendChild(node);\n");
                    out.append(nested.as_str());
                    out.append("(document, namespace, node, value[");
                    push_usize(&mut out, i);
                    out.append("]);\n");
                    out.append(rest.as_str());
                    proof {
                        assert(out@ =~= "node = document.createElementNS(namespace, 'element-"@
                            + spec_nat_text(i as nat) + "');\nparent.appendChild(node);\n"@
                            + nested@ + "(document, namespace, node, value["@ + spec_nat_text(
                            i as nat,
                        ) + "]);\n"@ + rest@);
                    }
                    Ok(out)
                },
                Err(e) => Err(e),
            },
            Err(e) => Err(e),
        }
    }
}

/// The text that [`deserialize`] emits for a schema: a function taking the
/// node a value was serialized under and returning the value. Sequences
/// read their elements positionally from the child nodes; leaves read the
/// node's text content, numbers through the native numeric coercion. Union
/// and byte-string schemas are not implemented.
pub open spec fn spec_deserialize(schema: SchemaV) -> Result<Seq<char>, Error>
    decreases schema, 2int,
{
    match spec_deserialize_expression(schema) {
        Ok(expression) => Ok("(function(node) {\nreturn "@ + expression + ";\n})"@),
        Err(e) => Err(e),
    }
}

/// The expression with which the deserializer for a schema reconstructs
/// its value from a node.
pub open spec fn spec_deserialize_expression(schema: SchemaV) -> Result<Seq<char>, Error>
    decreases schema, 1int,
{
    match schema {
        SchemaV::AllOf(elements) => match spec_deserialize_elements_from(elements, 0) {
            Ok(body) => Ok("[\n"@ + body + "]"@),
            Err(e) => Err(e),
        },
        SchemaV::OneOf(_) => Err(Error::UnsupportedShape),
        SchemaV::SignedInteger(_, _) => Ok("Number(node.textContent)"@),
        SchemaV::SinglePrecision => Ok("Number(node.textContent)"@),
        SchemaV::DoublePrecision => Ok("Number(node.textContent)"@),
        SchemaV::ByteString => Err(Error::UnsupportedShape),
        SchemaV::String => Ok("node.textContent"@),
    }
}

/// The element entries of the reconstructed sequence from index `i` on:
/// each element's deserializer applied to its positional child node; the
/// first failing element's error otherwise.
pub open spec fn spec_deserialize_elements_from(elements: Seq<SchemaV>, i: int) -> Result<
    Seq<char>,
    Error,
>
    decreases elements, elements.len() - i,
{
    if i < 0 || i >= elements.len() {
        Ok(Seq::empty())
    } else {
        match spec_deserialize(elements[i]) {
            Ok(nested) => match spec_deserialize_elements_from(elements, i + 1) {
                Ok(rest) => Ok(
                    nested + "(node.childNodes["@ + spec_nat_text(i as nat) + "]),\n"@ + rest,
                ),
                Err(e) => Err(e),
            },
            Err(e) => Err(e),
        }
    }
}

/// Generate an ECMAScript expression that evaluates to a function that
/// deserializes data conforming to the given schema.
pub fn deserialize(schema: &Schema) -> (r: Result<String, Error>)
    ensures
        text_result_view(r) == spec_deserialize(schema@),
    decreases schema, 2int,
{
    match deserialize_expression(schema) {
        Ok(expression) => {
            let mut out = String::from_str("(function(node) {\nreturn ");
            out.append(expression.as_str());
            out.append(";\n})");
            proof {
                assert(out@ =~= "(function(node) {\nreturn "@ + expression@ + ";\n})"@);
            }
            Ok(out)
        },
        Err(e) => Err(e),
    }
}

fn deserialize_expression(schema: &Schema) -> (r: Result<String, Error>)
    ensures
        text_result_view(r) == spec_deserialize_expression(schema@),
    decreases schema, 1int,
{
    match schema {
        Schema::AllOf(elements) => match deserialize_elements_from(elements, 0) {
            Ok(body) => {
                let mut out = String::from_str("[\n");
                out.append(body.as_str());
                out.append("]");
                proof {
                    assert(out@ =~= "[\n"@ + body@ + "]"@);
                }
                Ok(out)
            },
            Err(e) => Err(e),
        },
        Schema::OneOf(_) => Err(Error::UnsupportedShape),
        Schema::SignedInteger(_, _) => Ok(String::from_str("Number(node.textContent)")),
        Schema::SinglePrecision => Ok(String::from_str("Number(node.textContent)")),
        Schema::DoublePrecision => Ok(String::from_str("Number(node.textContent)")),
        Schema::ByteString => Err(Error::UnsupportedShape),
        Schema::String => Ok(String::from_str("node.textContent")),
    }
}

fn deserialize_elements_from(elements: &Vec<Schema>, i: usize) -> (r: Result<String, Error>)
    requires
        i <= elements.len(),
    ensures
        text_result_view(r) == spec_deserialize_elements_from(
            Schema::seq_view(elements@),
            i as int,
        ),
    decreases elements@, elements@.len() - i,
{
    if i == elements.len() {
        Ok(String::new())
    } else {
        match deserialize(&elements[i]) {
            Ok(nested) => match deserialize_elements_from(elements, i + 1) {
                Ok(rest) => {
                    let mut out = nested;
                    out.append("(node.childNodes[");
                    push_usize(&mut out, i);
                    out.append("]),\n");
                    out.append(rest.as_str());
                    proof {
                        assert(out@ =~= spec_deserialize(Schema::seq_view(elements@)[i as int])->Ok_0
                            + "(node.childNodes["@ + spec_nat_text(i as nat) + "]),\n"@ + rest@);
                    }
                    Ok(out)
                },
                Err(e) => Err(e),
            },
            Err(e) => Err(e),
        }
    }
}

} // verus!
